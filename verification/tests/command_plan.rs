use tinkernet_node::command::{
    plan_benchmark, BenchmarkCmd, BenchmarkPlan, BuildFeatures, Cli, CommandPlan, ExportParams,
    Subcommand,
};
use tinkernet_node::error::CommandError;
use tinkernet_node::spec_source::ChainSpecSource;

const PLAIN: BuildFeatures = BuildFeatures { runtime_benchmarks: false, try_runtime: false };
const FULL: BuildFeatures = BuildFeatures { runtime_benchmarks: true, try_runtime: true };

fn cli(subcommand: Option<Subcommand>) -> Cli {
    Cli { subcommand, relay_chain_args: vec![] }
}

#[test]
fn no_subcommand_runs_the_node() {
    assert_eq!(cli(None).plan(PLAIN), CommandPlan::RunNode);
    assert_eq!(cli(None).plan(FULL), CommandPlan::RunNode);
}

#[test]
fn runner_subcommands_map_one_to_one() {
    let cases = vec![
        (Subcommand::Key, CommandPlan::Key),
        (Subcommand::BuildSpec, CommandPlan::BuildSpec),
        (Subcommand::CheckBlock, CommandPlan::CheckBlock),
        (Subcommand::ExportBlocks, CommandPlan::ExportBlocks),
        (Subcommand::ExportState, CommandPlan::ExportState),
        (Subcommand::ImportBlocks, CommandPlan::ImportBlocks),
        (Subcommand::PurgeChain, CommandPlan::PurgeChain),
        (Subcommand::Revert, CommandPlan::Revert),
    ];
    for (sub, plan) in cases {
        assert_eq!(cli(Some(sub)).plan(PLAIN), plan);
    }
}

#[test]
fn export_genesis_state_reads_chain_option() {
    let c = cli(Some(Subcommand::ExportGenesisState(ExportParams {
        chain: Some("dev".to_string()),
        raw: true,
        output: Some("genesis-state".to_string()),
    })));
    assert_eq!(
        c.plan(PLAIN),
        CommandPlan::ExportGenesisState {
            source: ChainSpecSource::Development,
            raw: true,
            output: Some("genesis-state".to_string()),
        }
    );
}

#[test]
fn export_genesis_wasm_defaults_to_local() {
    let c = cli(Some(Subcommand::ExportGenesisWasm(ExportParams {
        chain: None,
        raw: false,
        output: None,
    })));
    assert_eq!(
        c.plan(FULL),
        CommandPlan::ExportGenesisWasm {
            source: ChainSpecSource::LocalTestnet,
            raw: false,
            output: None,
        }
    );
    let c = cli(Some(Subcommand::ExportGenesisWasm(ExportParams {
        chain: Some("spec.json".to_string()),
        raw: true,
        output: None,
    })));
    assert_eq!(
        c.plan(PLAIN),
        CommandPlan::ExportGenesisWasm {
            source: ChainSpecSource::JsonFile("spec.json".to_string()),
            raw: true,
            output: None,
        }
    );
}

#[test]
fn benchmarks_without_runtime_benchmarks() {
    assert_eq!(
        plan_benchmark(BenchmarkCmd::Pallet, false),
        BenchmarkPlan::Refused(CommandError::BenchmarkingDisabled)
    );
    assert_eq!(
        plan_benchmark(BenchmarkCmd::Storage, false),
        BenchmarkPlan::Refused(CommandError::StorageBenchmarkDisabled)
    );
    assert_eq!(plan_benchmark(BenchmarkCmd::Machine, false), BenchmarkPlan::Machine);
    for cmd in [BenchmarkCmd::Overhead, BenchmarkCmd::Block, BenchmarkCmd::Extrinsic] {
        assert_eq!(
            plan_benchmark(cmd, false),
            BenchmarkPlan::Refused(CommandError::BenchmarkUnsupported)
        );
    }
}

#[test]
fn benchmarks_with_runtime_benchmarks() {
    assert_eq!(plan_benchmark(BenchmarkCmd::Pallet, true), BenchmarkPlan::Pallet);
    assert_eq!(plan_benchmark(BenchmarkCmd::Storage, true), BenchmarkPlan::Storage);
    assert_eq!(plan_benchmark(BenchmarkCmd::Machine, true), BenchmarkPlan::Machine);
    assert_eq!(
        plan_benchmark(BenchmarkCmd::Block, true),
        BenchmarkPlan::Refused(CommandError::BenchmarkUnsupported)
    );
    assert_eq!(
        cli(Some(Subcommand::Benchmark(BenchmarkCmd::Pallet))).plan(FULL),
        CommandPlan::Benchmark(BenchmarkPlan::Pallet)
    );
    assert_eq!(
        cli(Some(Subcommand::Benchmark(BenchmarkCmd::Pallet))).plan(PLAIN),
        CommandPlan::Benchmark(BenchmarkPlan::Refused(CommandError::BenchmarkingDisabled))
    );
}

#[test]
fn try_runtime_follows_the_build() {
    assert_eq!(
        cli(Some(Subcommand::TryRuntime)).plan(PLAIN),
        CommandPlan::Refused(CommandError::TryRuntimeDisabled)
    );
    assert_eq!(cli(Some(Subcommand::TryRuntime)).plan(FULL), CommandPlan::TryRuntime);
}

#[test]
fn cli_identity() {
    assert_eq!(Cli::impl_name(), "InvArch Tinkernet Node");
    assert_eq!(
        Cli::description(),
        "InvArch Tinkernet Node\n\nThe command-line arguments provided first will be passed to \
         the parachain node, while the arguments provided after -- will be passed to the relay \
         chain node.\n\nparachain-collator <parachain-args> -- <relay-chain-args>"
    );
    assert_eq!(Cli::support_url(), "https://github.com/InvArch/InvArch-node/issues/new");
    assert_eq!(Cli::copyright_start_year(), 2021);
    assert_eq!(cli(None).load_spec("solo-dev"), ChainSpecSource::SoloDev);
}

#[test]
fn error_messages() {
    assert_eq!(CommandError::ParaIdMissing.message(), "Could not find parachain ID in chain-spec.");
    assert_eq!(CommandError::WasmNotFound.message(), "Could not find wasm file in genesis state!");
    assert_eq!(
        CommandError::BenchmarkingDisabled.message(),
        "Benchmarking wasn't enabled when building the node. You can enable it with \
         `--features runtime-benchmarks`."
    );
    assert_eq!(
        CommandError::StorageBenchmarkDisabled.message(),
        "Compile with --features=runtime-benchmarks to enable storage benchmarks."
    );
    assert_eq!(CommandError::BenchmarkUnsupported.message(), "Benchmarking sub-command unsupported");
    assert_eq!(
        CommandError::TryRuntimeDisabled.message(),
        "Try-runtime was not enabled when building the node. You can enable it with \
         `--features try-runtime`."
    );
    let e = CommandError::relay_chain_argument("Invalid argument `--foo`".to_string());
    assert_eq!(e, CommandError::RelayChainArgument("Invalid argument `--foo`".to_string()));
    assert_eq!(e.message(), "Relay chain argument error: Invalid argument `--foo`");
}
