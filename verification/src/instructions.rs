//! The operations, one module each.

pub mod cancel_order;
pub mod execute_order;
pub mod initialize;
pub mod initialize_cp_swap_pool;
pub mod manage_relayers;
pub mod set_pause;
pub mod submit_order;
pub mod submit_order_simple;
pub mod swap_immediate;

pub use cancel_order::{cancel_order, CancelOrder};
pub use execute_order::{execute_order, settle_order, ExecuteOrder};
pub use initialize::{initialize, Initialize};
pub use initialize_cp_swap_pool::{initialize_cp_swap_pool, register_pool, InitializeCpSwapPool};
pub use manage_relayers::{add_relayer, remove_relayer, AddRelayer, RemoveRelayer};
pub use set_pause::{set_pause, SetPause};
pub use submit_order::{submit_order, SubmitOrder};
pub use submit_order_simple::{submit_order_simple, SubmitOrderSimple};
pub use swap_immediate::{settle_swap, swap_immediate, SwapExecuted, SwapImmediate};
