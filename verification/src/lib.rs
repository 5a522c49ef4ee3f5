//! A verified model of the mock runtimes that the bridge pallets' tests run
//! against: their weights, the genesis storage they start from, the resource
//! identifiers they register, the bridge proposals they build and the checks
//! they make on the event log.

pub mod account;
pub mod events;
pub mod genesis;
pub mod params;
pub mod resource;
pub mod weights;

pub mod chainbridge_mock;
pub mod erc721_mock;
pub mod example_mock;
