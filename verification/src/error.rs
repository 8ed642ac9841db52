use vstd::prelude::*;

verus! {

/// Why a node command stops without doing its work.
#[derive(Debug, PartialEq, Eq)]
pub enum CommandError {
    /// The chain specification has no parachain extension with a para id.
    ParaIdMissing,
    /// The genesis state holds no runtime code.
    WasmNotFound,
    /// Pallet benchmarks were asked for in a node built without them.
    BenchmarkingDisabled,
    /// Storage benchmarks were asked for in a node built without them.
    StorageBenchmarkDisabled,
    /// A benchmark sub-command that this node does not offer.
    BenchmarkUnsupported,
    /// `try-runtime` was asked for in a node built without it.
    TryRuntimeDisabled,
    /// The relay chain arguments could not be turned into a configuration;
    /// the text says why.
    RelayChainArgument(String),
}

/// The text the node reports for each error.
pub open spec fn error_message(e: CommandError) -> Seq<char> {
    match e {
        CommandError::ParaIdMissing => "Could not find parachain ID in chain-spec."@,
        CommandError::WasmNotFound => "Could not find wasm file in genesis state!"@,
        CommandError::BenchmarkingDisabled =>
            "Benchmarking wasn't enabled when building the node. You can enable it with `--features runtime-benchmarks`."@,
        CommandError::StorageBenchmarkDisabled =>
            "Compile with --features=runtime-benchmarks to enable storage benchmarks."@,
        CommandError::BenchmarkUnsupported => "Benchmarking sub-command unsupported"@,
        CommandError::TryRuntimeDisabled =>
            "Try-runtime was not enabled when building the node. You can enable it with `--features try-runtime`."@,
        CommandError::RelayChainArgument(detail) => "Relay chain argument error: "@ + detail@,
    }
}

impl CommandError {
    /// The message the node prints for this error.
    pub fn message(&self) -> (text: String)
        ensures
            text@ == error_message(*self),
    {
        match self {
            CommandError::ParaIdMissing => "Could not find parachain ID in chain-spec.".to_owned(),
            CommandError::WasmNotFound => "Could not find wasm file in genesis state!".to_owned(),
            CommandError::BenchmarkingDisabled =>
                "Benchmarking wasn't enabled when building the node. You can enable it with `--features runtime-benchmarks`.".to_owned(),
            CommandError::StorageBenchmarkDisabled =>
                "Compile with --features=runtime-benchmarks to enable storage benchmarks.".to_owned(),
            CommandError::BenchmarkUnsupported => "Benchmarking sub-command unsupported".to_owned(),
            CommandError::TryRuntimeDisabled =>
                "Try-runtime was not enabled when building the node. You can enable it with `--features try-runtime`.".to_owned(),
            CommandError::RelayChainArgument(detail) => {
                "Relay chain argument error: ".to_owned().concat(detail.as_str())
            },
        }
    }

    /// The error for relay chain arguments that could not be turned into a
    /// configuration, carrying the reason the relay chain CLI gave.
    pub fn relay_chain_argument(reason: String) -> (e: CommandError)
        ensures
            e == CommandError::RelayChainArgument(reason),
    {
        CommandError::RelayChainArgument(reason)
    }
}

} // verus!
