use crate::error::CommandError;
use crate::spec_source::{load_spec, spec_source_for, ChainSpecSource};
use vstd::prelude::*;

verus! {

/// The options of `export-genesis-state` and `export-genesis-wasm`.
#[derive(Debug, PartialEq, Eq)]
pub struct ExportParams {
    /// The chain given with `--chain`, if any.
    pub chain: Option<String>,
    /// Whether to write the raw bytes rather than their hexadecimal text.
    pub raw: bool,
    /// The file to write to; standard output where there is none.
    pub output: Option<String>,
}

/// The benchmark sub-commands.
#[derive(Debug, Clone, Copy, PartialEq, Eq)]
pub enum BenchmarkCmd {
    Pallet,
    Storage,
    Overhead,
    Block,
    Machine,
    Extrinsic,
}

/// The node's sub-commands.
#[derive(Debug, PartialEq, Eq)]
pub enum Subcommand {
    Key,
    BuildSpec,
    CheckBlock,
    ExportBlocks,
    ExportState,
    ImportBlocks,
    PurgeChain,
    Revert,
    ExportGenesisState(ExportParams),
    ExportGenesisWasm(ExportParams),
    Benchmark(BenchmarkCmd),
    TryRuntime,
}

/// The node's command line, as far as the command logic reads it.
#[derive(Debug, PartialEq, Eq)]
pub struct Cli {
    /// The sub-command; none means: run the node.
    pub subcommand: Option<Subcommand>,
    /// The arguments given after `--`, meant for the relay chain node.
    pub relay_chain_args: Vec<String>,
}

/// The optional parts the node binary was built with.
#[derive(Debug, Clone, Copy, PartialEq, Eq)]
pub struct BuildFeatures {
    /// Built with `runtime-benchmarks`.
    pub runtime_benchmarks: bool,
    /// Built with `try-runtime`.
    pub try_runtime: bool,
}

/// What a benchmark sub-command comes to, once its runner exists.
#[derive(Debug, PartialEq, Eq)]
pub enum BenchmarkPlan {
    Pallet,
    Storage,
    Machine,
    /// The benchmark cannot run in this build; the error says why.
    Refused(CommandError),
}

/// What the node does for a command line.
#[derive(Debug, PartialEq, Eq)]
pub enum CommandPlan {
    Key,
    BuildSpec,
    CheckBlock,
    ExportBlocks,
    ExportState,
    ImportBlocks,
    PurgeChain,
    Revert,
    /// Write the genesis header of the chain from `source`.
    ExportGenesisState { source: ChainSpecSource, raw: bool, output: Option<String> },
    /// Write the genesis runtime code of the chain from `source`.
    ExportGenesisWasm { source: ChainSpecSource, raw: bool, output: Option<String> },
    /// Create a runner for the benchmark, then do this.
    Benchmark(BenchmarkPlan),
    TryRuntime,
    /// Stop with this error.
    Refused(CommandError),
    /// Run the node until it exits.
    RunNode,
}

/// The chain identifier an export reads: the one given, else the empty one.
pub open spec fn chain_or_default(chain: Option<String>) -> Seq<char> {
    match chain {
        Some(c) => c@,
        None => Seq::empty(),
    }
}

/// What a benchmark sub-command does in a build with or without
/// `runtime-benchmarks`: pallet and storage benchmarks need it, machine
/// benchmarks do not, and the others are not offered.
pub open spec fn benchmark_plan_spec(cmd: BenchmarkCmd, runtime_benchmarks: bool) -> BenchmarkPlan {
    match cmd {
        BenchmarkCmd::Pallet => if runtime_benchmarks {
            BenchmarkPlan::Pallet
        } else {
            BenchmarkPlan::Refused(CommandError::BenchmarkingDisabled)
        },
        BenchmarkCmd::Storage => if runtime_benchmarks {
            BenchmarkPlan::Storage
        } else {
            BenchmarkPlan::Refused(CommandError::StorageBenchmarkDisabled)
        },
        BenchmarkCmd::Machine => BenchmarkPlan::Machine,
        _ => BenchmarkPlan::Refused(CommandError::BenchmarkUnsupported),
    }
}

/// Whether `plan` is what the node does for an export with `params`, given
/// how the plan names the export: its chain specification is the one the
/// `--chain` identifier (or the empty one) selects, and the form and
/// destination are those given.
pub open spec fn export_matches(
    params: ExportParams,
    source: ChainSpecSource,
    raw: bool,
    output: Option<String>,
) -> bool {
    &&& spec_source_for(chain_or_default(params.chain), source)
    &&& raw == params.raw
    &&& output == params.output
}

/// Whether `plan` is what the node does for `subcommand` in a build with
/// `features`.
pub open spec fn plan_for(
    subcommand: Option<Subcommand>,
    features: BuildFeatures,
    plan: CommandPlan,
) -> bool {
    match subcommand {
        None => plan == CommandPlan::RunNode,
        Some(Subcommand::Key) => plan == CommandPlan::Key,
        Some(Subcommand::BuildSpec) => plan == CommandPlan::BuildSpec,
        Some(Subcommand::CheckBlock) => plan == CommandPlan::CheckBlock,
        Some(Subcommand::ExportBlocks) => plan == CommandPlan::ExportBlocks,
        Some(Subcommand::ExportState) => plan == CommandPlan::ExportState,
        Some(Subcommand::ImportBlocks) => plan == CommandPlan::ImportBlocks,
        Some(Subcommand::PurgeChain) => plan == CommandPlan::PurgeChain,
        Some(Subcommand::Revert) => plan == CommandPlan::Revert,
        Some(Subcommand::ExportGenesisState(params)) => match plan {
            CommandPlan::ExportGenesisState { source, raw, output } => export_matches(
                params,
                source,
                raw,
                output,
            ),
            _ => false,
        },
        Some(Subcommand::ExportGenesisWasm(params)) => match plan {
            CommandPlan::ExportGenesisWasm { source, raw, output } => export_matches(
                params,
                source,
                raw,
                output,
            ),
            _ => false,
        },
        Some(Subcommand::Benchmark(cmd)) => plan == CommandPlan::Benchmark(
            benchmark_plan_spec(cmd, features.runtime_benchmarks),
        ),
        Some(Subcommand::TryRuntime) => plan == (if features.try_runtime {
            CommandPlan::TryRuntime
        } else {
            CommandPlan::Refused(CommandError::TryRuntimeDisabled)
        }),
    }
}

/// A copy of an optional string.
fn copy_option(s: &Option<String>) -> (copy: Option<String>)
    ensures
        copy == *s,
{
    match s {
        Some(v) => Some(v.clone()),
        None => None,
    }
}

/// The chain specification an export reads, from its `--chain` identifier
/// (the empty identifier where none was given).
fn export_source(params: &ExportParams) -> (source: ChainSpecSource)
    ensures
        spec_source_for(chain_or_default(params.chain), source),
{
    match &params.chain {
        Some(chain) => load_spec(chain.as_str()),
        None => {
            proof {
                reveal_strlit("");
            }
            assert(""@ =~= Seq::<char>::empty());
            load_spec("")
        },
    }
}

/// What a benchmark sub-command does in a build with or without
/// `runtime-benchmarks`.
pub fn plan_benchmark(cmd: BenchmarkCmd, runtime_benchmarks: bool) -> (plan: BenchmarkPlan)
    ensures
        plan == benchmark_plan_spec(cmd, runtime_benchmarks),
{
    match cmd {
        BenchmarkCmd::Pallet => if runtime_benchmarks {
            BenchmarkPlan::Pallet
        } else {
            BenchmarkPlan::Refused(CommandError::BenchmarkingDisabled)
        },
        BenchmarkCmd::Storage => if runtime_benchmarks {
            BenchmarkPlan::Storage
        } else {
            BenchmarkPlan::Refused(CommandError::StorageBenchmarkDisabled)
        },
        BenchmarkCmd::Machine => BenchmarkPlan::Machine,
        _ => BenchmarkPlan::Refused(CommandError::BenchmarkUnsupported),
    }
}

impl Cli {
    /// The name the node goes by.
    pub fn impl_name() -> (name: String)
        ensures
            name@ == "InvArch Tinkernet Node"@,
    {
        "InvArch Tinkernet Node".to_owned()
    }

    /// The help text of the node.
    pub fn description() -> (text: String)
        ensures
            text@ == "InvArch Tinkernet Node\n\nThe command-line arguments provided first will be passed to the parachain node, while the arguments provided after -- will be passed to the relay chain node.\n\nparachain-collator <parachain-args> -- <relay-chain-args>"@,
    {
        "InvArch Tinkernet Node\n\nThe command-line arguments provided first will be passed to the parachain node, while the arguments provided after -- will be passed to the relay chain node.\n\nparachain-collator <parachain-args> -- <relay-chain-args>".to_owned()
    }

    /// Where to report issues.
    pub fn support_url() -> (url: String)
        ensures
            url@ == "https://github.com/InvArch/InvArch-node/issues/new"@,
    {
        "https://github.com/InvArch/InvArch-node/issues/new".to_owned()
    }

    /// The first year of the copyright notice.
    pub fn copyright_start_year() -> (year: i32)
        ensures
            year == 2021,
    {
        2021
    }

    /// The chain specification that the identifier `id` selects.
    pub fn load_spec(&self, id: &str) -> (source: ChainSpecSource)
        ensures
            spec_source_for(id@, source),
    {
        load_spec(id)
    }

    /// What the node does for this command line in a build with `features`.
    pub fn plan(&self, features: BuildFeatures) -> (plan: CommandPlan)
        ensures
            plan_for(self.subcommand, features, plan),
    {
        match &self.subcommand {
            None => CommandPlan::RunNode,
            Some(Subcommand::Key) => CommandPlan::Key,
            Some(Subcommand::BuildSpec) => CommandPlan::BuildSpec,
            Some(Subcommand::CheckBlock) => CommandPlan::CheckBlock,
            Some(Subcommand::ExportBlocks) => CommandPlan::ExportBlocks,
            Some(Subcommand::ExportState) => CommandPlan::ExportState,
            Some(Subcommand::ImportBlocks) => CommandPlan::ImportBlocks,
            Some(Subcommand::PurgeChain) => CommandPlan::PurgeChain,
            Some(Subcommand::Revert) => CommandPlan::Revert,
            Some(Subcommand::ExportGenesisState(params)) => CommandPlan::ExportGenesisState {
                source: export_source(params),
                raw: params.raw,
                output: copy_option(&params.output),
            },
            Some(Subcommand::ExportGenesisWasm(params)) => CommandPlan::ExportGenesisWasm {
                source: export_source(params),
                raw: params.raw,
                output: copy_option(&params.output),
            },
            Some(Subcommand::Benchmark(cmd)) => CommandPlan::Benchmark(
                plan_benchmark(*cmd, features.runtime_benchmarks),
            ),
            Some(Subcommand::TryRuntime) => if features.try_runtime {
                CommandPlan::TryRuntime
            } else {
                CommandPlan::Refused(CommandError::TryRuntimeDisabled)
            },
        }
    }
}

/// Law: a build with `runtime-benchmarks` runs pallet and storage benchmarks,
/// one without refuses both; machine benchmarks run in either, and the other
/// benchmark sub-commands are refused in either.
pub proof fn law_benchmarks_follow_features(cmd: BenchmarkCmd, runtime_benchmarks: bool)
    ensures
        (cmd == BenchmarkCmd::Pallet || cmd == BenchmarkCmd::Storage) ==> (runtime_benchmarks
            <==> !(benchmark_plan_spec(cmd, runtime_benchmarks) is Refused)),
        cmd == BenchmarkCmd::Machine ==> benchmark_plan_spec(cmd, runtime_benchmarks)
            == BenchmarkPlan::Machine,
        (cmd == BenchmarkCmd::Overhead || cmd == BenchmarkCmd::Block || cmd
            == BenchmarkCmd::Extrinsic) ==> benchmark_plan_spec(cmd, runtime_benchmarks)
            == BenchmarkPlan::Refused(CommandError::BenchmarkUnsupported),
{
}

/// Law: `try-runtime` runs exactly in builds that include it, and the
/// command line without a sub-command always runs the node.
pub proof fn law_try_runtime_and_default(features: BuildFeatures, plan: CommandPlan)
    ensures
        plan_for(Some(Subcommand::TryRuntime), features, plan) ==> (plan == CommandPlan::TryRuntime
            <==> features.try_runtime),
        plan_for(None, features, plan) ==> plan == CommandPlan::RunNode,
{
}

/// Law: what a benchmark sub-command does depends on the command and on
/// whether the build has `runtime-benchmarks`, and on nothing else: two builds
/// that agree on `runtime-benchmarks` plan the same, whatever `try-runtime`.
pub proof fn law_benchmark_ignores_try_runtime(
    cmd: BenchmarkCmd,
    f1: BuildFeatures,
    f2: BuildFeatures,
    p1: CommandPlan,
    p2: CommandPlan,
)
    requires
        plan_for(Some(Subcommand::Benchmark(cmd)), f1, p1),
        plan_for(Some(Subcommand::Benchmark(cmd)), f2, p2),
        f1.runtime_benchmarks == f2.runtime_benchmarks,
    ensures
        p1 == p2,
{
}

/// Law: the benchmark sub-commands: pallet and storage benchmarks run exactly
/// in builds with `runtime-benchmarks` and are refused with their own error
/// otherwise; machine benchmarks always run; overhead, block and extrinsic
/// benchmarks are always refused as unsupported.
pub proof fn law_benchmark_plans(cmd: BenchmarkCmd, f: BuildFeatures, plan: CommandPlan)
    requires
        plan_for(Some(Subcommand::Benchmark(cmd)), f, plan),
    ensures
        cmd == BenchmarkCmd::Pallet && f.runtime_benchmarks ==> plan == CommandPlan::Benchmark(
            BenchmarkPlan::Pallet,
        ),
        cmd == BenchmarkCmd::Pallet && !f.runtime_benchmarks ==> plan == CommandPlan::Benchmark(
            BenchmarkPlan::Refused(CommandError::BenchmarkingDisabled),
        ),
        cmd == BenchmarkCmd::Storage && f.runtime_benchmarks ==> plan == CommandPlan::Benchmark(
            BenchmarkPlan::Storage,
        ),
        cmd == BenchmarkCmd::Storage && !f.runtime_benchmarks ==> plan == CommandPlan::Benchmark(
            BenchmarkPlan::Refused(CommandError::StorageBenchmarkDisabled),
        ),
        cmd == BenchmarkCmd::Machine ==> plan == CommandPlan::Benchmark(BenchmarkPlan::Machine),
        (cmd == BenchmarkCmd::Overhead || cmd == BenchmarkCmd::Block || cmd
            == BenchmarkCmd::Extrinsic) ==> plan == CommandPlan::Benchmark(
            BenchmarkPlan::Refused(CommandError::BenchmarkUnsupported),
        ),
{
}

/// Law: `export-genesis-state` writes the chain that `--chain` selects (the
/// local testnet where none is given), raw exactly when `--raw` was given, to
/// the `--output` file given (standard output where none is).
pub proof fn law_export_state_follows_options(
    params: ExportParams,
    f: BuildFeatures,
    plan: CommandPlan,
)
    requires
        plan_for(Some(Subcommand::ExportGenesisState(params)), f, plan),
    ensures
        plan matches CommandPlan::ExportGenesisState { source, raw, output } && {
            &&& raw == params.raw
            &&& output == params.output
            &&& params.chain matches Some(c) ==> spec_source_for(c@, source)
            &&& params.chain is None ==> source == ChainSpecSource::LocalTestnet
        },
{
    reveal_strlit("");
    reveal_strlit("solo-dev");
    reveal_strlit("dev");
    assert("solo-dev"@.len() == 8 && "dev"@.len() == 3);
    assert(""@ =~= Seq::<char>::empty());
}

/// Law: `export-genesis-wasm` writes the chain that `--chain` selects (the
/// local testnet where none is given), raw exactly when `--raw` was given, to
/// the `--output` file given (standard output where none is).
pub proof fn law_export_wasm_follows_options(
    params: ExportParams,
    f: BuildFeatures,
    plan: CommandPlan,
)
    requires
        plan_for(Some(Subcommand::ExportGenesisWasm(params)), f, plan),
    ensures
        plan matches CommandPlan::ExportGenesisWasm { source, raw, output } && {
            &&& raw == params.raw
            &&& output == params.output
            &&& params.chain matches Some(c) ==> spec_source_for(c@, source)
            &&& params.chain is None ==> source == ChainSpecSource::LocalTestnet
        },
{
    reveal_strlit("");
    reveal_strlit("solo-dev");
    reveal_strlit("dev");
    assert("solo-dev"@.len() == 8 && "dev"@.len() == 3);
    assert(""@ =~= Seq::<char>::empty());
}

/// Law: the sub-commands that hand over to a runner map one to one onto
/// their own plans, in every build.
pub proof fn law_runner_subcommands(f: BuildFeatures, plan: CommandPlan)
    ensures
        plan_for(Some(Subcommand::Key), f, plan) ==> plan == CommandPlan::Key,
        plan_for(Some(Subcommand::BuildSpec), f, plan) ==> plan == CommandPlan::BuildSpec,
        plan_for(Some(Subcommand::CheckBlock), f, plan) ==> plan == CommandPlan::CheckBlock,
        plan_for(Some(Subcommand::ExportBlocks), f, plan) ==> plan == CommandPlan::ExportBlocks,
        plan_for(Some(Subcommand::ExportState), f, plan) ==> plan == CommandPlan::ExportState,
        plan_for(Some(Subcommand::ImportBlocks), f, plan) ==> plan == CommandPlan::ImportBlocks,
        plan_for(Some(Subcommand::PurgeChain), f, plan) ==> plan == CommandPlan::PurgeChain,
        plan_for(Some(Subcommand::Revert), f, plan) ==> plan == CommandPlan::Revert,
{
}

} // verus!
