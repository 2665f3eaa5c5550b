//! Composition of Unix `ar` archives: an ordered member catalog that refers
//! lazily into opened source archives or owns fresh files, the skip policies
//! applied when absorbing another archive, and the write plan that an archive
//! writer carries out.

pub mod text;
pub mod filter;
pub mod builder;
pub mod laws;
pub mod header;
pub mod indexer;
