use vstd::prelude::*;

verus! {

/// Where the node takes its chain specification from.
#[derive(Debug, PartialEq, Eq)]
pub enum ChainSpecSource {
    /// The built-in single-node development chain, run without a relay chain.
    SoloDev,
    /// The built-in development parachain.
    Development,
    /// The built-in local testnet parachain.
    LocalTestnet,
    /// A chain specification read from the JSON file at this path.
    JsonFile(String),
}

/// The chain specification that the identifier `id` selects: the built-in
/// ones by name (`local`, `template-rococo` and the empty identifier all name
/// the local testnet); any other identifier is a path to a JSON file.
pub open spec fn spec_source_for(id: Seq<char>, source: ChainSpecSource) -> bool {
    if id == "solo-dev"@ {
        source == ChainSpecSource::SoloDev
    } else if id == "dev"@ {
        source == ChainSpecSource::Development
    } else if id == "template-rococo"@ || id == ""@ || id == "local"@ {
        source == ChainSpecSource::LocalTestnet
    } else {
        source matches ChainSpecSource::JsonFile(path) && path@ == id
    }
}

/// Resolves a chain identifier, as given with `--chain`, to the chain
/// specification it names.
pub fn load_spec(id: &str) -> (source: ChainSpecSource)
    ensures
        spec_source_for(id@, source),
{
    let id = id.to_owned();
    if id == "solo-dev".to_owned() {
        ChainSpecSource::SoloDev
    } else if id == "dev".to_owned() {
        ChainSpecSource::Development
    } else if id == "template-rococo".to_owned() || id == "".to_owned() || id
        == "local".to_owned() {
        ChainSpecSource::LocalTestnet
    } else {
        ChainSpecSource::JsonFile(id)
    }
}

/// Law: the empty identifier, `local` and `template-rococo` all select the
/// local testnet, and an identifier that names no built-in chain is read as
/// the path of a JSON chain specification.
pub proof fn law_local_testnet_aliases(id: Seq<char>, source: ChainSpecSource)
    requires
        spec_source_for(id, source),
    ensures
        (id == ""@ || id == "local"@ || id == "template-rococo"@) ==> source
            == ChainSpecSource::LocalTestnet,
        (id != "solo-dev"@ && id != "dev"@ && id != "template-rococo"@ && id != ""@ && id
            != "local"@) ==> (source matches ChainSpecSource::JsonFile(path) && path@ == id),
{
    reveal_strlit("solo-dev");
    reveal_strlit("dev");
    reveal_strlit("template-rococo");
    reveal_strlit("");
    reveal_strlit("local");
    assert("solo-dev"@.len() == 8 && "dev"@.len() == 3);
    assert(""@.len() == 0 && "local"@.len() == 5 && "template-rococo"@.len() == 15);
}

/// Two chain specification sources name the same specification: the same
/// built-in chain, or JSON files at the same path.
pub open spec fn same_source(a: ChainSpecSource, b: ChainSpecSource) -> bool {
    match (a, b) {
        (ChainSpecSource::JsonFile(x), ChainSpecSource::JsonFile(y)) => x@ == y@,
        (ChainSpecSource::JsonFile(_), _) => false,
        (_, ChainSpecSource::JsonFile(_)) => false,
        _ => a == b,
    }
}

/// Law: an identifier selects exactly one chain specification.
pub proof fn law_spec_source_unique(id: Seq<char>, a: ChainSpecSource, b: ChainSpecSource)
    requires
        spec_source_for(id, a),
        spec_source_for(id, b),
    ensures
        same_source(a, b),
{
}

/// Law: the built-in chains by name: `solo-dev` selects the solo development
/// chain, `dev` the development parachain, and `local`, `template-rococo`
/// and the empty identifier the local testnet; no other identifier selects a
/// built-in chain.
pub proof fn law_built_in_chains(id: Seq<char>, source: ChainSpecSource)
    requires
        spec_source_for(id, source),
    ensures
        id == "solo-dev"@ ==> source == ChainSpecSource::SoloDev,
        id == "dev"@ ==> source == ChainSpecSource::Development,
        id == "local"@ ==> source == ChainSpecSource::LocalTestnet,
        id == "template-rococo"@ ==> source == ChainSpecSource::LocalTestnet,
        id == ""@ ==> source == ChainSpecSource::LocalTestnet,
        source == ChainSpecSource::SoloDev ==> id == "solo-dev"@,
        source == ChainSpecSource::Development ==> id == "dev"@,
        source == ChainSpecSource::LocalTestnet ==> (id == "local"@ || id == "template-rococo"@
            || id == ""@),
        source matches ChainSpecSource::JsonFile(path) ==> path@ == id,
{
    reveal_strlit("solo-dev");
    reveal_strlit("dev");
    reveal_strlit("template-rococo");
    reveal_strlit("");
    reveal_strlit("local");
    assert("solo-dev"@.len() == 8 && "dev"@.len() == 3);
    assert(""@.len() == 0 && "local"@.len() == 5 && "template-rococo"@.len() == 15);
}

} // verus!
