//! Session-authenticated content access for a blog service.
//!
//! The crate verifies the parts of the service with real invariants:
//! credential management (password hashing and verification, account
//! creation, login), the per-request session guard that resolves an opaque
//! token into a known account, and the post listing engine that computes
//! stable page windows and deterministic previews.  Durable state is
//! modelled by in-memory row stores whose contracts mirror the atomic
//! single-statement operations of the relational store.

pub mod datefmt;
pub mod dto;
pub mod errors;
pub mod guard;
pub mod hashing;
pub mod pagination;
pub mod posts;
pub mod token;
pub mod users;
