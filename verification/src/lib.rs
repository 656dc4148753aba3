//! Verified core of the Sanctifier security suite for Soroban contracts.
use vstd::prelude::*;

pub mod text;
pub mod account;
pub mod pattern;
pub mod soroban_v21;
pub mod syntax;
pub mod rules;
pub mod missing_state_event;
pub mod unchecked_external_call;
pub mod custom_yaml_rules;
pub mod flashloan_token;
pub mod proxy;
pub mod multisig;
pub mod governance;
pub mod shadowing_example;
pub mod analyze;
pub mod report;
pub mod wasm_api;

verus! {

} // verus!
