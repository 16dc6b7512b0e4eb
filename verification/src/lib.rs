//! Control and safety engine of a phase-angle motor speed controller.
//!
//! The crate holds the fixed-point numerics, the wrapping time base and the
//! state machines of the controller, each with a machine-checked contract.

pub mod analog;
pub mod context;
pub mod debounce;
pub mod debug;
pub mod filter;
pub mod fixpt;
pub mod history;
pub mod int24;
pub mod kernel24;
pub mod mains;
pub mod mon;
pub mod pi;
pub mod pid;
pub mod pocheck;
pub mod q7p8;
pub mod raw;
pub mod ring;
pub mod shutoff;
pub mod speedo;
pub mod system;
pub mod temp;
pub mod timer;
pub mod triac;
pub mod units;
pub mod wrap;
