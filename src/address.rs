//! The account-address text encoding (SS58 format) used for a network.
//!
//! The format is held in an explicit context value that callers thread to
//! every place that formats or parses an address, rather than in a global.

use vstd::prelude::*;
use crate::family::{classify, spec_classify, NetworkFamily};

verus! {

/// The SS58 address formats this node uses.
#[derive(Clone, Copy, Debug, PartialEq, Eq, Structural)]
pub enum AddressFormat {
    /// Any Substrate network, standard account (prefix 42).
    SubstrateAccount,
    /// SubstraTEE network account (prefix 13).
    SubstraTeeAccount,
}

impl AddressFormat {
    /// The numeric SS58 prefix of the format.
    pub open spec fn spec_prefix(self) -> u16 {
        match self {
            AddressFormat::SubstrateAccount => 42,
            AddressFormat::SubstraTeeAccount => 13,
        }
    }

    /// The numeric SS58 prefix of the format.
    pub fn prefix(&self) -> (r: u16)
        ensures
            r == self.spec_prefix(),
    {
        match self {
            AddressFormat::SubstrateAccount => 42,
            AddressFormat::SubstraTeeAccount => 13,
        }
    }
}

/// The address format of a family; the shared default when there is none.
pub open spec fn spec_format_for(family: Option<NetworkFamily>) -> AddressFormat {
    match family {
        Some(NetworkFamily::Hadron) => AddressFormat::SubstraTeeAccount,
        _ => AddressFormat::SubstrateAccount,
    }
}

/// The address format for the specification with identifier `spec_id`.
pub open spec fn spec_default_ss58_version(spec_id: Seq<char>) -> AddressFormat {
    spec_format_for(spec_classify(spec_id))
}

/// The address format of `family`, or the shared default for `None`.
pub fn format_for(family: Option<NetworkFamily>) -> (r: AddressFormat)
    ensures
        r == spec_format_for(family),
{
    match family {
        Some(NetworkFamily::Hadron) => AddressFormat::SubstraTeeAccount,
        _ => AddressFormat::SubstrateAccount,
    }
}

/// The address format for the specification with identifier `spec_id`:
/// Quark networks and unknown identifiers use the Substrate format, Hadron
/// networks the SubstraTEE format.
pub fn default_ss58_version(spec_id: &str) -> (r: AddressFormat)
    ensures
        r == spec_default_ss58_version(spec_id@),
{
    format_for(classify(spec_id))
}

/// The address-encoding setting in force for one invocation.
#[derive(Clone, Copy, Debug, PartialEq, Eq, Structural)]
pub struct AddressContext {
    pub format: AddressFormat,
}

impl AddressContext {
    /// The context before any specification is known: the Substrate format.
    pub fn new() -> (r: AddressContext)
        ensures
            r.format == AddressFormat::SubstrateAccount,
    {
        AddressContext { format: AddressFormat::SubstrateAccount }
    }

    /// The context after resolving the format for `spec_id`.
    pub open spec fn spec_applied(self, spec_id: Seq<char>) -> AddressContext {
        AddressContext { format: spec_default_ss58_version(spec_id) }
    }

    /// Sets the format to the one for the specification with identifier
    /// `spec_id`, whatever it was before.
    pub fn set_default_ss58_version(&mut self, spec_id: &str)
        ensures
            *final(self) == old(self).spec_applied(spec_id@),
            final(self).format == spec_default_ss58_version(spec_id@),
    {
        self.format = default_ss58_version(spec_id);
    }
}

/// Resolving the format for a specification leaves the family's format in
/// force, and resolving it a second time changes nothing.
pub proof fn lemma_resolve_idempotent(ctx: AddressContext, spec_id: Seq<char>)
    ensures
        ctx.spec_applied(spec_id).format == spec_format_for(spec_classify(spec_id)),
        ctx.spec_applied(spec_id).spec_applied(spec_id) == ctx.spec_applied(spec_id),
{
}

} // verus!
