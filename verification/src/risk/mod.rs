//! Risk management: every strategy signal passes here before any order is
//! built. A raw strategy signal never creates an order by itself.

pub mod manager;
