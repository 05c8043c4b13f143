//! Execution-side bookkeeping: orders, positions and trade updates.

pub mod order_manager;
pub mod position_tracker;
pub mod trade_updates;
