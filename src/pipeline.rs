//! The compiled runtime and executor bound to each network family.

use vstd::prelude::*;
use crate::family::{classify, spec_classify, NetworkFamily};

verus! {

/// The compiled state-transition logic of a network.
#[derive(Clone, Copy, Debug, PartialEq, Eq, Structural)]
pub enum RuntimeKind {
    QuarkRuntime,
    HadronRuntime,
}

/// The native executor that runs a runtime.
#[derive(Clone, Copy, Debug, PartialEq, Eq, Structural)]
pub enum ExecutorKind {
    QuarkExecutor,
    HadronExecutor,
}

/// A runtime/executor pairing, bound to exactly one family. The caller builds
/// a full service, a light service or a chain-operations handle from it.
#[derive(Clone, Copy, Debug, PartialEq, Eq, Structural)]
pub struct ServicePipeline {
    pub family: NetworkFamily,
    pub runtime: RuntimeKind,
    pub executor: ExecutorKind,
}

impl RuntimeKind {
    /// The family the runtime was compiled for.
    pub open spec fn spec_family(self) -> NetworkFamily {
        match self {
            RuntimeKind::QuarkRuntime => NetworkFamily::Quark,
            RuntimeKind::HadronRuntime => NetworkFamily::Hadron,
        }
    }
}

impl ExecutorKind {
    /// The family whose runtime the executor runs.
    pub open spec fn spec_family(self) -> NetworkFamily {
        match self {
            ExecutorKind::QuarkExecutor => NetworkFamily::Quark,
            ExecutorKind::HadronExecutor => NetworkFamily::Hadron,
        }
    }
}

/// The pipeline of a family.
pub open spec fn spec_pipeline(family: NetworkFamily) -> ServicePipeline {
    match family {
        NetworkFamily::Quark => ServicePipeline {
            family: NetworkFamily::Quark,
            runtime: RuntimeKind::QuarkRuntime,
            executor: ExecutorKind::QuarkExecutor,
        },
        NetworkFamily::Hadron => ServicePipeline {
            family: NetworkFamily::Hadron,
            runtime: RuntimeKind::HadronRuntime,
            executor: ExecutorKind::HadronExecutor,
        },
    }
}

/// The pipeline of `family`.
pub fn select_pipeline(family: NetworkFamily) -> (r: ServicePipeline)
    ensures
        r == spec_pipeline(family),
{
    match family {
        NetworkFamily::Quark => ServicePipeline {
            family: NetworkFamily::Quark,
            runtime: RuntimeKind::QuarkRuntime,
            executor: ExecutorKind::QuarkExecutor,
        },
        NetworkFamily::Hadron => ServicePipeline {
            family: NetworkFamily::Hadron,
            runtime: RuntimeKind::HadronRuntime,
            executor: ExecutorKind::HadronExecutor,
        },
    }
}

/// The runtime native to the specification with identifier `spec_id`, or
/// `None` when the identifier belongs to no known family.
pub fn native_runtime_version(spec_id: &str) -> (r: Option<RuntimeKind>)
    ensures
        r == (match spec_classify(spec_id@) {
            Some(f) => Some(spec_pipeline(f).runtime),
            None => None,
        }),
{
    match classify(spec_id) {
        Some(f) => Some(select_pipeline(f).runtime),
        None => None,
    }
}

/// Each family's pipeline pairs the family's own runtime with its own
/// executor, so no two families share a runtime or an executor.
pub proof fn lemma_pipeline_matches_family(f: NetworkFamily, g: NetworkFamily)
    ensures
        spec_pipeline(f).family == f,
        spec_pipeline(f).runtime.spec_family() == f,
        spec_pipeline(f).executor.spec_family() == f,
        spec_pipeline(f).runtime == spec_pipeline(g).runtime ==> f == g,
        spec_pipeline(f).executor == spec_pipeline(g).executor ==> f == g,
{
}

} // verus!
