//! FIFO sequencing of swap orders in front of a constant-product AMM.
//!
//! Orders are numbered by a single global counter when they are submitted.
//! An authorized relayer later executes an order by forwarding a swap call to
//! the AMM program, signed by an authority address that is derived from the
//! pool. This crate holds the state records, the rules of every operation and
//! the byte-exact construction of the forwarded calls. It performs no I/O: a
//! host loads the records, asks this crate what to do, performs the forwarded
//! call and stores what comes back.

pub mod derivation;
pub mod encoding;
pub mod errors;
pub mod forwarding;
pub mod instructions;
pub mod state;
