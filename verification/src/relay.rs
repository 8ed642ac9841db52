use vstd::prelude::*;

verus! {

/// The relay chain half of the node's command line: the arguments given after
/// `--`, as the embedded relay chain node reads them.
#[derive(Debug, PartialEq, Eq)]
pub struct RelayChainCli {
    /// The relay chain identifier given to the collator, if any.
    pub chain_id: Option<String>,
    /// The base path the collator chose for the relay chain's data, if any.
    pub base_path: Option<String>,
}

/// The relay chain identifier in use: the one the relay chain's own
/// arguments give, unless that is empty; then the collator's, or the empty
/// identifier where the collator gave none.
pub open spec fn relay_chain_id_spec(own: Option<String>, from_arguments: Seq<char>) -> Seq<char> {
    if from_arguments.len() == 0 {
        match own {
            Some(id) => id@,
            None => Seq::empty(),
        }
    } else {
        from_arguments
    }
}

/// The full argument list of the relay chain node: its executable name first,
/// then the arguments given after `--`, in order.
pub open spec fn relay_chain_argv_spec(executable: Seq<char>, args: Seq<Seq<char>>) -> Seq<Seq<char>> {
    seq![executable] + args
}

impl RelayChainCli {
    /// The name the relay chain node goes by.
    pub fn impl_name() -> (name: String)
        ensures
            name@ == "InvArch Tinkernet Collator"@,
    {
        "InvArch Tinkernet Collator".to_owned()
    }

    /// The help text of the relay chain node.
    pub fn description() -> (text: String)
        ensures
            text@ == "InvArch Tinkernet Collator\n\nThe command-line arguments provided first will be passed to the parachain node, while the arguments provided after -- will be passed to the relay chain node.\n\nparachain-collator <parachain-args> -- <relay-chain-args>"@,
    {
        "InvArch Tinkernet Collator\n\nThe command-line arguments provided first will be passed to the parachain node, while the arguments provided after -- will be passed to the relay chain node.\n\nparachain-collator <parachain-args> -- <relay-chain-args>".to_owned()
    }

    /// Where to report issues.
    pub fn support_url() -> (url: String)
        ensures
            url@ == "https://github.com/InvArch/InvArch-node/issues/new"@,
    {
        "https://github.com/InvArch/InvArch-node/issues/new".to_owned()
    }

    /// The first year of the copyright notice.
    pub fn copyright_start_year() -> (year: i32)
        ensures
            year == 2021,
    {
        2021
    }

    /// The default peer-to-peer port of the relay chain node.
    pub fn p2p_listen_port() -> (port: u16)
        ensures
            port == 30334,
    {
        30334
    }

    /// The default RPC port of the relay chain node.
    pub fn rpc_listen_port() -> (port: u16)
        ensures
            port == 9945,
    {
        9945
    }

    /// The default Prometheus port of the relay chain node.
    pub fn prometheus_listen_port() -> (port: u16)
        ensures
            port == 9616,
    {
        9616
    }

    /// The relay chain identifier, given the one that the relay chain's own
    /// arguments yield: that one where it is not empty, else the collator's,
    /// else the empty identifier.
    pub fn chain_id(&self, from_arguments: String) -> (id: String)
        ensures
            id@ == relay_chain_id_spec(self.chain_id, from_arguments@),
    {
        if from_arguments.as_str().is_empty() {
            match &self.chain_id {
                Some(id) => id.clone(),
                None => String::new(),
            }
        } else {
            from_arguments
        }
    }

    /// The relay chain's base path, given the one its shared arguments yield:
    /// that one where there is one, else the collator's choice.
    pub fn base_path(&self, from_arguments: Option<String>) -> (path: Option<String>)
        ensures
            path == (match from_arguments {
                Some(p) => Some(p),
                None => self.base_path,
            }),
    {
        match from_arguments {
            Some(p) => Some(p),
            None => match &self.base_path {
                Some(p) => Some(p.clone()),
                None => None,
            },
        }
    }

    /// The argument list the relay chain node is started with: `executable`,
    /// then `relay_chain_args` in order.
    pub fn argv(executable: String, relay_chain_args: &Vec<String>) -> (argv: Vec<String>)
        ensures
            argv@.map_values(|a: String| a@) == relay_chain_argv_spec(
                executable@,
                relay_chain_args@.map_values(|a: String| a@),
            ),
    {
        let mut argv: Vec<String> = Vec::new();
        argv.push(executable);
        let mut i: usize = 0;
        while i < relay_chain_args.len()
            invariant
                i <= relay_chain_args.len(),
                argv.len() == i + 1,
                argv@[0]@ == executable@,
                forall|k: int| 1 <= k <= i ==> #[trigger] argv@[k]@ == relay_chain_args@[k - 1]@,
            decreases relay_chain_args.len() - i,
        {
            argv.push(relay_chain_args[i].clone());
            i = i + 1;
        }
        let ghost args_view = relay_chain_args@.map_values(|a: String| a@);
        let ghost expected = relay_chain_argv_spec(executable@, args_view);
        let ghost got = argv@.map_values(|a: String| a@);
        assert forall|k: int| 0 <= k < got.len() implies #[trigger] got[k] == expected[k] by {
            if k > 0 {
                assert(expected[k] == args_view[k - 1]);
            }
        }
        assert(got =~= expected);
        argv
    }
}

/// Law: the collator's relay chain identifier is used exactly when the relay
/// chain's own arguments yield the empty identifier.
pub proof fn law_relay_chain_id_fallback(own: Option<String>, from_arguments: Seq<char>)
    ensures
        from_arguments.len() != 0 ==> relay_chain_id_spec(own, from_arguments) == from_arguments,
        from_arguments.len() == 0 && own is Some ==> relay_chain_id_spec(own, from_arguments)
            == own->0@,
        from_arguments.len() == 0 && own is None ==> relay_chain_id_spec(own, from_arguments).len()
            == 0,
{
}

/// Law: the relay chain node gets one argument more than were given after
/// `--`: the executable name first, then every given argument, in order.
pub proof fn law_relay_argv_keeps_all(executable: Seq<char>, args: Seq<Seq<char>>)
    ensures
        relay_chain_argv_spec(executable, args).len() == 1 + args.len(),
        relay_chain_argv_spec(executable, args)[0] == executable,
        forall|k: int|
            0 <= k < args.len() ==> #[trigger] relay_chain_argv_spec(executable, args)[k + 1]
                == args[k],
{
}

} // verus!
