//! Network-family resolution and command dispatch for a multi-network node.
//!
//! The node joins one of two ledger networks, Quark or Hadron. This library
//! decides, from a chain identifier and the running executable's name, which
//! chain specification to load; classifies a loaded specification into its
//! family; derives the family's account-address format; selects the matching
//! runtime/executor pipeline; and plans each operator command against it.
//! Everything that touches the node framework (building services, reading
//! files, serialising specifications) is performed by the caller from the
//! plain values returned here.

pub mod text;
pub mod family;
pub mod loader;
pub mod address;
pub mod pipeline;
pub mod command;
