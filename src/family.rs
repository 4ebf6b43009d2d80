//! Classification of a chain specification into its network family.
//!
//! A specification declares an identifier. Each family owns a fixed list of
//! identifier prefixes; Quark is tested before Hadron, and an identifier that
//! matches neither belongs to no family the node can run.

use vstd::prelude::*;
use crate::text::{spec_starts_with, starts_with};

verus! {

/// The ledger networks this node can join.
#[derive(Clone, Copy, Debug, PartialEq, Eq, Structural)]
pub enum NetworkFamily {
    Quark,
    Hadron,
}

/// The identifier names a Quark network.
pub open spec fn spec_is_quark_network(id: Seq<char>) -> bool {
    spec_starts_with(id, "quark"@) || spec_starts_with(id, "lyr"@)
}

/// The identifier names a Hadron network.
pub open spec fn spec_is_hadron_network(id: Seq<char>) -> bool {
    spec_starts_with(id, "hadron"@)
}

/// The family of a specification with identifier `id`: Quark first, then Hadron.
pub open spec fn spec_classify(id: Seq<char>) -> Option<NetworkFamily> {
    if spec_is_quark_network(id) {
        Some(NetworkFamily::Quark)
    } else if spec_is_hadron_network(id) {
        Some(NetworkFamily::Hadron)
    } else {
        None
    }
}

/// Whether the specification identifier `id` names a Quark network.
pub fn is_quark_network(id: &str) -> (r: bool)
    ensures
        r == spec_is_quark_network(id@),
{
    starts_with(id, "quark") || starts_with(id, "lyr")
}

/// Whether the specification identifier `id` names a Hadron network.
pub fn is_hadron_network(id: &str) -> (r: bool)
    ensures
        r == spec_is_hadron_network(id@),
{
    starts_with(id, "hadron")
}

/// The family of the specification with identifier `id`, or `None` when it
/// belongs to no known family.
pub fn classify(id: &str) -> (r: Option<NetworkFamily>)
    ensures
        r == spec_classify(id@),
{
    if is_quark_network(id) {
        Some(NetworkFamily::Quark)
    } else if is_hadron_network(id) {
        Some(NetworkFamily::Hadron)
    } else {
        None
    }
}

} // verus!
