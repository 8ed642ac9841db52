use crate::error::CommandError;
use crate::hex::{hex_string, prefixed_hex};
use polkadot_parachain_primitives::primitives::Id;
use sp_runtime::traits::AccountIdConversion;
use sp_runtime::AccountId32;
use vstd::prelude::*;

verus! {

/// The four little-endian bytes of `x`, as SCALE encodes a `u32`.
pub open spec fn le_u32_bytes(x: u32) -> Seq<u8> {
    seq![
        (x & 0xff) as u8,
        ((x >> 8) & 0xff) as u8,
        ((x >> 16) & 0xff) as u8,
        ((x >> 24) & 0xff) as u8,
    ]
}

/// The 32 bytes of a parachain's sovereign account: `para`, the para id's
/// four little-endian bytes, then zeros.
pub open spec fn para_account_spec(para_id: u32) -> Seq<u8> {
    seq![112u8, 97u8, 114u8, 97u8] + le_u32_bytes(para_id) + Seq::new(24, |i: int| 0u8)
}

/// `AccountIdConversion::<AccountId32>::into_account_truncating` on the
/// parachain `Id` made from `para_id` (polkadot-parachain-primitives). Its
/// source encodes `(Id::TYPE_ID, id, ())`, that is `b"para"` followed by the
/// `u32` in little-endian order, and decodes an `AccountId32` from that input
/// padded with zeros to 32 bytes; the result is handed back as its bytes.
#[verifier::external_body]
fn parachain_account(para_id: u32) -> (account: Vec<u8>)
    ensures
        account@ == para_account_spec(para_id),
{
    let account: AccountId32 = Id::from(para_id).into_account_truncating();
    <[u8; 32]>::from(account).to_vec()
}

/// How the node starts.
#[derive(Debug, PartialEq, Eq)]
pub enum LaunchMode {
    /// A single development node with no relay chain.
    SoloDev,
    /// A collator of the parachain with this para id.
    Parachain(u32),
}

/// The launch decision: a chain specification without a para id stops the
/// node, whether or not it is a solo development chain; otherwise a solo
/// development chain runs alone and any other chain as a parachain.
pub open spec fn launch_mode_spec(para_id: Option<u32>, is_solo_dev: bool) -> Result<
    LaunchMode,
    CommandError,
> {
    match para_id {
        None => Err(CommandError::ParaIdMissing),
        Some(id) => if is_solo_dev {
            Ok(LaunchMode::SoloDev)
        } else {
            Ok(LaunchMode::Parachain(id))
        },
    }
}

/// Decides how the node starts from the para id that the chain
/// specification's extension holds (if any) and whether the chain is a solo
/// development chain.
pub fn launch_mode(para_id: Option<u32>, is_solo_dev: bool) -> (mode: Result<
    LaunchMode,
    CommandError,
>)
    ensures
        mode == launch_mode_spec(para_id, is_solo_dev),
{
    match para_id {
        None => Err(CommandError::ParaIdMissing),
        Some(id) => if is_solo_dev {
            Ok(LaunchMode::SoloDev)
        } else {
            Ok(LaunchMode::Parachain(id))
        },
    }
}

/// What the node reports when it starts as a parachain collator.
#[derive(Debug, PartialEq, Eq)]
pub struct ParachainReport {
    /// The para id.
    pub para_id: u32,
    /// The 32 bytes of the parachain's sovereign account.
    pub account: Vec<u8>,
    /// The genesis header as `0x`-prefixed lowercase hexadecimal.
    pub genesis_state: String,
    /// Whether the node collates (has the authority role).
    pub collating: bool,
}

/// The start-up report of a collator of parachain `para_id`, given the SCALE
/// encoding of the chain's genesis header and whether the node is an
/// authority.
pub fn parachain_report(para_id: u32, genesis_header: &[u8], is_authority: bool) -> (report:
    ParachainReport)
    ensures
        report.para_id == para_id,
        report.account@ == para_account_spec(para_id),
        report.genesis_state@ == prefixed_hex(genesis_header@),
        report.collating == is_authority,
{
    ParachainReport {
        para_id,
        account: parachain_account(para_id),
        genesis_state: hex_string(genesis_header),
        collating: is_authority,
    }
}

/// The answer the node gives to "Is collating": `yes` or `no`.
pub fn collating_label(collating: bool) -> (label: String)
    ensures
        label@ == (if collating {
            "yes"@
        } else {
            "no"@
        }),
{
    if collating {
        "yes".to_owned()
    } else {
        "no".to_owned()
    }
}

/// The implementation name the node runs under: the Brainstorm testnet gets
/// its own, any other chain keeps `impl_name`.
pub fn node_impl_name(chain_name: &str, impl_name: String) -> (name: String)
    ensures
        name@ == (if chain_name@ == "InvArch Brainstorm Testnet"@ {
            "InvArch Brainstorm Node"@
        } else {
            impl_name@
        }),
{
    if chain_name.to_owned() == "InvArch Brainstorm Testnet".to_owned() {
        "InvArch Brainstorm Node".to_owned()
    } else {
        impl_name
    }
}

/// Law: distinct para ids have distinct sovereign accounts, each 32 bytes
/// long and starting with `para`.
pub proof fn law_para_account_injective(a: u32, b: u32)
    ensures
        para_account_spec(a).len() == 32,
        para_account_spec(a).subrange(0, 4) == seq![112u8, 97u8, 114u8, 97u8],
        para_account_spec(a) == para_account_spec(b) ==> a == b,
{
    assert(para_account_spec(a).subrange(0, 4) =~= seq![112u8, 97u8, 114u8, 97u8]);
    if para_account_spec(a) == para_account_spec(b) {
        assert(para_account_spec(a)[4] == para_account_spec(b)[4]);
        assert(para_account_spec(a)[5] == para_account_spec(b)[5]);
        assert(para_account_spec(a)[6] == para_account_spec(b)[6]);
        assert(para_account_spec(a)[7] == para_account_spec(b)[7]);
        let a0 = (a & 0xff) as u8;
        let a1 = ((a >> 8) & 0xff) as u8;
        let a2 = ((a >> 16) & 0xff) as u8;
        let a3 = ((a >> 24) & 0xff) as u8;
        let b0 = (b & 0xff) as u8;
        let b1 = ((b >> 8) & 0xff) as u8;
        let b2 = ((b >> 16) & 0xff) as u8;
        let b3 = ((b >> 24) & 0xff) as u8;
        assert(a0 == b0 && a1 == b1 && a2 == b2 && a3 == b3);
        assert(a == b) by (bit_vector)
            requires
                (a & 0xff) as u8 == (b & 0xff) as u8,
                ((a >> 8) & 0xff) as u8 == ((b >> 8) & 0xff) as u8,
                ((a >> 16) & 0xff) as u8 == ((b >> 16) & 0xff) as u8,
                ((a >> 24) & 0xff) as u8 == ((b >> 24) & 0xff) as u8,
        ;
    }
}

/// Law: a chain specification without a para id never starts, solo
/// development chain or not; with one, the solo development flag alone
/// decides between running alone and collating for that para id.
pub proof fn law_para_id_required(para_id: Option<u32>, is_solo_dev: bool)
    ensures
        para_id is None ==> launch_mode_spec(para_id, is_solo_dev) == Err::<
            LaunchMode,
            CommandError,
        >(CommandError::ParaIdMissing),
        para_id matches Some(id) ==> launch_mode_spec(para_id, is_solo_dev) == (if is_solo_dev {
            Ok::<LaunchMode, CommandError>(LaunchMode::SoloDev)
        } else {
            Ok(LaunchMode::Parachain(id))
        }),
{
}

/// Law: bytes 4 to 7 of a para account read back, little-endian, as the para
/// id, and the last 24 bytes are zero.
pub proof fn law_para_account_layout(para_id: u32)
    ensures
        para_account_spec(para_id).len() == 32,
        para_account_spec(para_id)[4] + 256 * para_account_spec(para_id)[5] + 65536
            * para_account_spec(para_id)[6] + 16777216 * para_account_spec(para_id)[7]
            == para_id,
        forall|i: int| 8 <= i < 32 ==> #[trigger] para_account_spec(para_id)[i] == 0,
{
    let a = para_account_spec(para_id);
    assert(a[4] == (para_id & 0xff) as u8);
    assert(a[5] == ((para_id >> 8) & 0xff) as u8);
    assert(a[6] == ((para_id >> 16) & 0xff) as u8);
    assert(a[7] == ((para_id >> 24) & 0xff) as u8);
    assert(((para_id & 0xff) as u8) + 256 * (((para_id >> 8) & 0xff) as u8) + 65536 * (((
    para_id >> 16) & 0xff) as u8) + 16777216 * (((para_id >> 24) & 0xff) as u8) == para_id)
        by (bit_vector);
}

} // verus!
