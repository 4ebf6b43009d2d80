//! Planning of an operator command against the resolved specification.
//!
//! `plan_command` makes every decision of a command invocation: whether a
//! specification is needed, which family it belongs to, the address format to
//! put in force first, and which pipeline entry point and maintenance action
//! to run. The caller then performs the plan with the node framework.

use vstd::prelude::*;
use crate::address::{format_for, spec_format_for, AddressFormat};
use crate::family::{classify, spec_classify};
use crate::pipeline::{select_pipeline, spec_pipeline, ServicePipeline};

verus! {

/// The operator commands besides running the node.
#[derive(Clone, Copy, Debug, PartialEq, Eq, Structural)]
pub enum Subcommand {
    Key,
    Sign,
    Verify,
    Vanity,
    BuildSpec,
    CheckBlock,
    ExportBlocks,
    ExportState,
    ImportBlocks,
    PurgeChain,
    Revert,
}

/// The role the node is asked to take when it runs.
#[derive(Clone, Copy, Debug, PartialEq, Eq, Structural)]
pub enum NodeRole {
    Full,
    Light,
    Authority,
    Sentry,
}

/// An offline maintenance action run against a chain-operations handle.
#[derive(Clone, Copy, Debug, PartialEq, Eq, Structural)]
pub enum ChainOp {
    CheckBlock,
    ExportBlocks,
    ExportState,
    ImportBlocks,
    Revert,
}

/// The service constructor used to run the node.
#[derive(Clone, Copy, Debug, PartialEq, Eq, Structural)]
pub enum ServiceKind {
    NewFull,
    NewLight,
}

/// What the caller does once the address format is in force.
#[derive(Clone, Copy, Debug, PartialEq, Eq, Structural)]
pub enum Step {
    /// A key-management or signing utility; no specification or pipeline.
    Utility,
    /// Write the specification out; no pipeline is built.
    BuildSpec,
    /// Remove the chain database; no pipeline is built.
    PurgeChain,
    /// Build the pipeline's chain-operations handle and run `op` on it.
    ChainOps { pipeline: ServicePipeline, op: ChainOp },
    /// Build the pipeline's `service` and run it until it exits.
    RunNode { pipeline: ServicePipeline, service: ServiceKind },
}

/// The decisions of one command invocation.
#[derive(Clone, Copy, Debug, PartialEq, Eq, Structural)]
pub struct Plan {
    /// The address format to put in force before anything else, if any.
    pub address_format: Option<AddressFormat>,
    pub step: Step,
}

/// The errors a command invocation ends with.
#[derive(Debug)]
pub enum NodeError {
    /// The chain specification could not be loaded; the cause as text.
    SpecLoad(String),
    /// The specification belongs to no known family: a defect, not a user
    /// error, on which the invocation aborts.
    UnknownNetwork,
    /// The service or chain-operations handle could not be built.
    ServiceConstruction(String),
    /// The maintenance action itself failed; the cause as text.
    CommandExecution(String),
}

/// The maintenance action of a subcommand, for those that have one.
pub open spec fn spec_chain_op(command: Subcommand) -> Option<ChainOp> {
    match command {
        Subcommand::CheckBlock => Some(ChainOp::CheckBlock),
        Subcommand::ExportBlocks => Some(ChainOp::ExportBlocks),
        Subcommand::ExportState => Some(ChainOp::ExportState),
        Subcommand::ImportBlocks => Some(ChainOp::ImportBlocks),
        Subcommand::Revert => Some(ChainOp::Revert),
        _ => None,
    }
}

/// The subcommand is an offline utility that needs no specification.
pub open spec fn spec_is_utility(command: Subcommand) -> bool {
    match command {
        Subcommand::Key | Subcommand::Sign | Subcommand::Verify | Subcommand::Vanity => true,
        _ => false,
    }
}

/// The service constructor for a role.
pub open spec fn spec_service_for(role: NodeRole) -> ServiceKind {
    if role == NodeRole::Light {
        ServiceKind::NewLight
    } else {
        ServiceKind::NewFull
    }
}

/// The plan for `command` (`None`: run the node) on the specification with
/// identifier `spec_id`, with the node asked to take `role`.
pub open spec fn spec_plan(command: Option<Subcommand>, spec_id: Seq<char>, role: NodeRole) -> Result<
    Plan,
    NodeError,
> {
    if command matches Some(c) && spec_is_utility(c) {
        Ok(Plan { address_format: None, step: Step::Utility })
    } else {
        match spec_classify(spec_id) {
            None => Err(NodeError::UnknownNetwork),
            Some(f) => {
                let pipeline = spec_pipeline(f);
                let step = match command {
                    None => Step::RunNode { pipeline, service: spec_service_for(role) },
                    Some(Subcommand::BuildSpec) => Step::BuildSpec,
                    Some(Subcommand::PurgeChain) => Step::PurgeChain,
                    Some(c) => Step::ChainOps { pipeline, op: spec_chain_op(c)->0 },
                };
                Ok(Plan { address_format: Some(spec_format_for(Some(f))), step })
            },
        }
    }
}

/// The service constructor for `role`: the light service for a light node,
/// the full service otherwise.
pub fn service_for(role: NodeRole) -> (r: ServiceKind)
    ensures
        r == spec_service_for(role),
{
    match role {
        NodeRole::Light => ServiceKind::NewLight,
        _ => ServiceKind::NewFull,
    }
}

/// The maintenance action of `command`, for those that have one.
pub fn chain_op(command: Subcommand) -> (r: Option<ChainOp>)
    ensures
        r == spec_chain_op(command),
{
    match command {
        Subcommand::CheckBlock => Some(ChainOp::CheckBlock),
        Subcommand::ExportBlocks => Some(ChainOp::ExportBlocks),
        Subcommand::ExportState => Some(ChainOp::ExportState),
        Subcommand::ImportBlocks => Some(ChainOp::ImportBlocks),
        Subcommand::Revert => Some(ChainOp::Revert),
        _ => None,
    }
}

/// Whether `command` is an offline utility that needs no specification.
pub fn is_utility(command: Subcommand) -> (r: bool)
    ensures
        r == spec_is_utility(command),
{
    match command {
        Subcommand::Key | Subcommand::Sign | Subcommand::Verify | Subcommand::Vanity => true,
        _ => false,
    }
}

/// Plans `command` (`None`: run the node) on the specification with
/// identifier `spec_id` (ignored by the utilities), with the node asked to
/// take `role` (used only when running the node).
pub fn plan_command(command: Option<Subcommand>, spec_id: &str, role: NodeRole) -> (r: Result<
    Plan,
    NodeError,
>)
    ensures
        r == spec_plan(command, spec_id@, role),
{
    if let Some(c) = command {
        if is_utility(c) {
            return Ok(Plan { address_format: None, step: Step::Utility });
        }
    }
    let family = match classify(spec_id) {
        Some(f) => f,
        None => {
            return Err(NodeError::UnknownNetwork);
        },
    };
    let pipeline = select_pipeline(family);
    let step = match command {
        None => Step::RunNode { pipeline, service: service_for(role) },
        Some(Subcommand::BuildSpec) => Step::BuildSpec,
        Some(Subcommand::PurgeChain) => Step::PurgeChain,
        Some(c) => match chain_op(c) {
            Some(op) => Step::ChainOps { pipeline, op },
            None => unreached(),
        },
    };
    Ok(Plan { address_format: Some(format_for(Some(family))), step })
}

/// The process exit status for the outcome of an invocation: zero on
/// success, one on any error.
pub fn exit_code(outcome: &Result<(), NodeError>) -> (r: i32)
    ensures
        outcome is Ok ==> r == 0,
        outcome is Err ==> r == 1,
{
    match outcome {
        Ok(()) => 0,
        Err(_) => 1,
    }
}

/// A planned family is the specification's own, and every pipeline a plan
/// builds belongs to that family: a specification of one family never
/// builds another family's pipeline.
pub proof fn lemma_plan_stays_in_family(
    command: Option<Subcommand>,
    spec_id: Seq<char>,
    role: NodeRole,
)
    ensures
        spec_plan(command, spec_id, role) matches Ok(p) ==> match p.step {
            Step::ChainOps { pipeline, .. } | Step::RunNode { pipeline, .. } => {
                &&& spec_classify(spec_id) == Some(pipeline.family)
                &&& pipeline == spec_pipeline(pipeline.family)
                &&& p.address_format == Some(spec_format_for(Some(pipeline.family)))
            },
            _ => true,
        },
{
}

} // verus!
