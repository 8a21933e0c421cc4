//! On-chain event records for a meetup platform: an organizer creates a
//! record with fixed-size metadata, and participants join it subject to
//! capacity and expiry guards.

pub mod clock;
pub mod contract;
pub mod laws;
pub mod pubkey;
pub mod space;

pub use crate::contract::table::{
    create_table, join_table, join_table_at, join_table_with_clock, CreateTable, ErrorCode,
    JoinError, JoinTable, Table, TableView,
};
