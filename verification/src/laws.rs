//! What the library promises, said of all inputs and in terms of what goes in and what comes out.
pub mod answers;
pub mod formats;
pub mod keys;
pub mod orders;
pub mod requests;
