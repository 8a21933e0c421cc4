//! The two record kinds and the operations on them.

pub mod meetup;
pub mod table;
