//! A name-leasing registry: it sells time-bounded ownership of short string
//! identifiers, tracks per-name profile metadata, and layers an NFT-style
//! authorization model (direct ownership, per-name approvals, per-owner
//! blanket operators) on top, so that ownership can be transferred or
//! delegated.
//!
//! The core is pure: time only advances as an external input (`now`) supplied
//! with each command, and host capabilities (address validation, payload
//! decoding, balance transfer) are consulted by the caller and handed in as
//! plain values.

pub mod auth;
pub mod contract;
pub mod error;
pub mod laws;
pub mod msg;
pub mod pricing;
pub mod registry;
pub mod state;

use vstd::prelude::*;

verus! {

} // verus!
