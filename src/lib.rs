//! Data-access layer for API tokens and user bans kept in a relational store.
//!
//! The library decides what is sent to the database and how the rows that come
//! back become records; running the statements is left to the caller.
pub mod permission;
pub mod timestamp;
pub mod records;
pub mod issue;
pub mod query;
