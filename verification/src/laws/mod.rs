//! What holds of the library as a whole, in terms of what goes in and what comes out.
//! The modules hold statements and proofs only.

pub mod answering;
pub mod codes;
pub mod dialing;
pub mod listening;
pub mod sessions;
pub mod settings;
pub mod streaming;
pub mod waiting;
pub mod watching;
