//! Protocol core of a cross-chain packet relay: module routing, the packet
//! lifecycle state machine and reconciliation of pending packets.

pub mod ids;
pub mod packet;
pub mod routing;
pub mod chain;
pub mod reconcile;
pub mod transfer;
