//! Checks on the event log of the chain bridge's mock runtime.

pub use crate::events::{assert_events, check_events};
