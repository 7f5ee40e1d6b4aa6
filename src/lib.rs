//! Reflecting an edited draft into its published article, and deleting the
//! stored objects that the edit stopped referring to.
pub mod keys;
pub mod tables;
pub mod store;
pub mod reflect;
pub mod session;
