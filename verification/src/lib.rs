//! An on-chain authorization and relay library.
//!
//! A controller issues time-bounded *grants* that authorize a designated
//! target program to be invoked indirectly through a relay gate, and a
//! companion module forwards stake-delegation requests to an external
//! staking subsystem.
//!
//! The core is the grant lifecycle and the relay gate: recording a grant
//! (validity window plus a bounded value allowance) in a keyed store,
//! checking that a grant exists before permitting a relayed call, and
//! probing the target's readiness before forwarding arguments.  All of
//! that logic is verified here; performing the actual host calls (reading
//! named arguments, persisting keys, invoking another program) is left to
//! an unverified shell around this library.

pub mod authority;
pub mod delegation;
pub mod grant_key;
pub mod install;
pub mod relay;
pub mod store;
pub mod values;
