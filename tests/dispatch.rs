use asterism_cli::address::{default_ss58_version, format_for, AddressContext, AddressFormat};
use asterism_cli::command::{
    chain_op, exit_code, is_utility, plan_command, service_for, ChainOp, NodeError, NodeRole, Plan, ServiceKind, Step,
    Subcommand,
};
use asterism_cli::family::{classify, is_hadron_network, is_quark_network, NetworkFamily};
use asterism_cli::loader::{builtin_for, default_token, load_spec, BuiltinSpec, SpecSource};
use asterism_cli::pipeline::{
    native_runtime_version, select_pipeline, ExecutorKind, RuntimeKind, ServicePipeline,
};
use asterism_cli::text::{starts_with, str_equal};

fn quark_pipeline() -> ServicePipeline {
    ServicePipeline {
        family: NetworkFamily::Quark,
        runtime: RuntimeKind::QuarkRuntime,
        executor: ExecutorKind::QuarkExecutor,
    }
}

fn hadron_pipeline() -> ServicePipeline {
    ServicePipeline {
        family: NetworkFamily::Hadron,
        runtime: RuntimeKind::HadronRuntime,
        executor: ExecutorKind::HadronExecutor,
    }
}

fn builtin_of(id: &str, exec_name: &str) -> BuiltinSpec {
    match load_spec(id, exec_name) {
        SpecSource::Builtin(b) => b,
        SpecSource::JsonFile(p) => panic!("expected a built-in specification, got path {}", p),
    }
}

#[test]
fn prefix_and_equality_of_strings() {
    assert!(starts_with("hadron-node", "hadron"));
    assert!(starts_with("hadron", ""));
    assert!(starts_with("", ""));
    assert!(!starts_with("had", "hadron"));
    assert!(!starts_with("quark", "lyr"));
    assert!(starts_with("ünïcode", "ünï"));
    assert!(str_equal("dev", "dev"));
    assert!(str_equal("", ""));
    assert!(!str_equal("dev", "devs"));
    assert!(!str_equal("hadron", "Hadron"));
}

#[test]
fn default_token_follows_the_ordered_short_names() {
    assert_eq!(default_token("lyr-node"), "lyr");
    assert_eq!(default_token("quark-node"), "quark");
    assert_eq!(default_token("hadron-node"), "hadron");
    assert_eq!(default_token("lyrquark"), "lyr");
    assert_eq!(default_token("asterism"), "lyr");
    assert_eq!(default_token(""), "lyr");
}

#[test]
fn known_tokens_name_builtin_specs() {
    assert_eq!(builtin_for("dev"), Some(BuiltinSpec::HadronDevelopment));
    assert_eq!(builtin_for("local"), Some(BuiltinSpec::QuarkLocalTestnet));
    assert_eq!(builtin_for("staging"), Some(BuiltinSpec::Staging));
    assert_eq!(builtin_for("lyr"), Some(BuiltinSpec::Quark));
    assert_eq!(builtin_for("quark"), Some(BuiltinSpec::Quark));
    assert_eq!(builtin_for("hadron_staging"), Some(BuiltinSpec::HadronStaging));
    assert_eq!(builtin_for("hadron"), Some(BuiltinSpec::Hadron));
    assert_eq!(builtin_for("hadron_test"), Some(BuiltinSpec::HadronTestnet));
    assert_eq!(builtin_for("hadron_testnet"), None);
    assert_eq!(builtin_for("./spec.json"), None);
}

#[test]
fn canonical_tokens_classify_into_their_family() {
    for t in ["lyr", "quark", "local", "staging"] {
        let b = builtin_of(t, "anything");
        assert_eq!(classify(b.id()), Some(NetworkFamily::Quark), "token {}", t);
        assert_eq!(classify(b.id()), classify(b.id()));
    }
    for t in ["dev", "hadron", "hadron_staging", "hadron_test"] {
        let b = builtin_of(t, "anything");
        assert_eq!(classify(b.id()), Some(NetworkFamily::Hadron), "token {}", t);
        assert_eq!(classify(b.id()), classify(b.id()));
    }
}

#[test]
fn classification_by_identifier_prefix() {
    assert!(is_quark_network("quark_local_testnet"));
    assert!(is_quark_network("lyr"));
    assert!(!is_quark_network("hadron"));
    assert!(is_hadron_network("hadron_dev"));
    assert!(!is_hadron_network("quark"));
    assert_eq!(classify("polkadot"), None);
    assert_eq!(classify(""), None);
}

#[test]
fn empty_identifier_uses_executable_name() {
    assert_eq!(builtin_of("", "lyr-node"), BuiltinSpec::Quark);
    assert_eq!(builtin_of("", "quark"), BuiltinSpec::Quark);
    assert_eq!(builtin_of("", "unknown-binary"), BuiltinSpec::Quark);
    assert_eq!(builtin_of("", ""), BuiltinSpec::Quark);
}

#[test]
fn scenario_staging_builds_spec_for_quark() {
    let b = builtin_of("staging", "asterism");
    assert_eq!(b, BuiltinSpec::Staging);
    assert_eq!(b.id(), "quark_staging");
    assert_eq!(classify(b.id()), Some(NetworkFamily::Quark));
    let plan = plan_command(Some(Subcommand::BuildSpec), b.id(), NodeRole::Full).unwrap();
    assert_eq!(
        plan,
        Plan { address_format: Some(AddressFormat::SubstrateAccount), step: Step::BuildSpec }
    );
}

#[test]
fn scenario_json_path_runs_hadron_full_service() {
    let path = "/var/lib/node/hadron-spec.json";
    match load_spec(path, "asterism") {
        SpecSource::JsonFile(p) => assert_eq!(p, path),
        SpecSource::Builtin(b) => panic!("unexpected built-in {:?}", b),
    }
    // The identifier declared inside the file decides the family.
    let declared_id = "hadron_custom";
    assert_eq!(classify(declared_id), Some(NetworkFamily::Hadron));
    let plan = plan_command(None, declared_id, NodeRole::Full).unwrap();
    assert_eq!(
        plan.step,
        Step::RunNode { pipeline: hadron_pipeline(), service: ServiceKind::NewFull }
    );
    assert_eq!(plan.address_format, Some(AddressFormat::SubstraTeeAccount));
}

#[test]
fn scenario_hadron_executable_infers_hadron() {
    assert_eq!(default_token("hadron-node"), "hadron");
    assert_eq!(builtin_of("", "hadron-node"), BuiltinSpec::Hadron);
    assert_eq!(BuiltinSpec::Hadron.id(), "hadron");
}

#[test]
fn scenario_import_blocks_failure_exits_non_zero() {
    let plan = plan_command(Some(Subcommand::ImportBlocks), "quark", NodeRole::Full).unwrap();
    assert_eq!(plan.step, Step::ChainOps { pipeline: quark_pipeline(), op: ChainOp::ImportBlocks });
    let outcome: Result<(), NodeError> =
        Err(NodeError::CommandExecution("corrupted block data at offset 12".to_string()));
    match &outcome {
        Err(NodeError::CommandExecution(cause)) => assert!(cause.contains("corrupted")),
        _ => panic!("expected a command execution error"),
    }
    assert_eq!(exit_code(&outcome), 1);
    assert_eq!(exit_code(&Ok(())), 0);
    assert_eq!(exit_code(&Err(NodeError::SpecLoad("no such file".to_string()))), 1);
}

#[test]
fn address_format_follows_family_and_is_idempotent() {
    let mut ctx = AddressContext::new();
    assert_eq!(ctx.format, AddressFormat::SubstrateAccount);
    ctx.set_default_ss58_version("hadron");
    assert_eq!(ctx.format, AddressFormat::SubstraTeeAccount);
    let once = ctx;
    ctx.set_default_ss58_version("hadron");
    assert_eq!(ctx, once);
    ctx.set_default_ss58_version("quark");
    assert_eq!(ctx.format, AddressFormat::SubstrateAccount);
    ctx.set_default_ss58_version("unknown");
    assert_eq!(ctx.format, AddressFormat::SubstrateAccount);
    assert_eq!(default_ss58_version("lyr"), AddressFormat::SubstrateAccount);
    assert_eq!(format_for(None), AddressFormat::SubstrateAccount);
    assert_eq!(AddressFormat::SubstrateAccount.prefix(), 42);
    assert_eq!(AddressFormat::SubstraTeeAccount.prefix(), 13);
}

#[test]
fn pipelines_never_cross_families() {
    assert_eq!(select_pipeline(NetworkFamily::Quark), quark_pipeline());
    assert_eq!(select_pipeline(NetworkFamily::Hadron), hadron_pipeline());
    assert_ne!(select_pipeline(NetworkFamily::Quark), select_pipeline(NetworkFamily::Hadron));
    assert_eq!(native_runtime_version("quark"), Some(RuntimeKind::QuarkRuntime));
    assert_eq!(native_runtime_version("hadron_dev"), Some(RuntimeKind::HadronRuntime));
    assert_eq!(native_runtime_version("kusama"), None);
    for cmd in [
        Subcommand::CheckBlock,
        Subcommand::ExportBlocks,
        Subcommand::ExportState,
        Subcommand::ImportBlocks,
        Subcommand::Revert,
    ] {
        match plan_command(Some(cmd), "quark", NodeRole::Full).unwrap().step {
            Step::ChainOps { pipeline, .. } => assert_eq!(pipeline, quark_pipeline()),
            other => panic!("unexpected step {:?}", other),
        }
        match plan_command(Some(cmd), "hadron", NodeRole::Full).unwrap().step {
            Step::ChainOps { pipeline, .. } => assert_eq!(pipeline, hadron_pipeline()),
            other => panic!("unexpected step {:?}", other),
        }
    }
}

#[test]
fn run_picks_service_by_role() {
    assert_eq!(service_for(NodeRole::Light), ServiceKind::NewLight);
    assert_eq!(service_for(NodeRole::Full), ServiceKind::NewFull);
    assert_eq!(service_for(NodeRole::Authority), ServiceKind::NewFull);
    let light = plan_command(None, "quark", NodeRole::Light).unwrap();
    assert_eq!(
        light.step,
        Step::RunNode { pipeline: quark_pipeline(), service: ServiceKind::NewLight }
    );
}

#[test]
fn utilities_need_no_specification() {
    for cmd in [Subcommand::Key, Subcommand::Sign, Subcommand::Verify, Subcommand::Vanity] {
        let plan = plan_command(Some(cmd), "", NodeRole::Full).unwrap();
        assert_eq!(plan, Plan { address_format: None, step: Step::Utility });
    }
}

#[test]
fn unknown_network_is_refused() {
    for cmd in [Some(Subcommand::CheckBlock), Some(Subcommand::PurgeChain), None] {
        match plan_command(cmd, "westend", NodeRole::Full) {
            Err(NodeError::UnknownNetwork) => {}
            other => panic!("unexpected {:?}", other),
        }
    }
    let purge = plan_command(Some(Subcommand::PurgeChain), "hadron", NodeRole::Full).unwrap();
    assert_eq!(purge.step, Step::PurgeChain);
    assert_eq!(purge.address_format, Some(AddressFormat::SubstraTeeAccount));
}

#[test]
fn subcommands_map_to_actions() {
    assert_eq!(chain_op(Subcommand::CheckBlock), Some(ChainOp::CheckBlock));
    assert_eq!(chain_op(Subcommand::ExportBlocks), Some(ChainOp::ExportBlocks));
    assert_eq!(chain_op(Subcommand::ExportState), Some(ChainOp::ExportState));
    assert_eq!(chain_op(Subcommand::ImportBlocks), Some(ChainOp::ImportBlocks));
    assert_eq!(chain_op(Subcommand::Revert), Some(ChainOp::Revert));
    assert_eq!(chain_op(Subcommand::BuildSpec), None);
    assert_eq!(chain_op(Subcommand::Key), None);
    assert!(is_utility(Subcommand::Vanity));
    assert!(is_utility(Subcommand::Sign));
    assert!(!is_utility(Subcommand::PurgeChain));
    assert!(!is_utility(Subcommand::ImportBlocks));
}
