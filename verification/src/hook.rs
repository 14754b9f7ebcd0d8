//! The ledger kept on a bond transfer: the transfer hook's `execute`, and the
//! list of extra accounts the token program resolves for it.
//!
//! The token program calls the hook after it has moved the balances, so the
//! balances here are already the new ones. The moment before the transfer is
//! recovered from `amount`: the sender held `now + amount`, the recipient
//! `now - amount`. Both are settled on what they held, and both checkpoints
//! move to today's index; what accrued before the transfer stays with the
//! seller, what accrues after belongs to the buyer.
use vstd::prelude::*;
use crate::errors::ClubError;
use crate::math::{claimable, claimable_spec, earned_spec, SCALE};
use crate::state::{HolderCheckpoint, Key};
use anchor_lang::prelude::Pubkey;
use anchor_spl::token_2022::spl_token_2022::extension::transfer_hook::TransferHookAccount;
use anchor_spl::token_2022::spl_token_2022::extension::{BaseStateWithExtensions, StateWithExtensions};
use anchor_spl::token_2022::spl_token_2022::state::Account as Token2022Account;
use spl_tlv_account_resolution::account::ExtraAccountMeta;
use spl_tlv_account_resolution::seeds::Seed;
use spl_tlv_account_resolution::state::ExtraAccountMetaList;
use spl_transfer_hook_interface::instruction::ExecuteInstruction;

verus! {

/// How many accounts the token program resolves for `execute` beyond the
/// five it always passes.
pub const EXTRA_ACCOUNT_METAS: usize = 3;

/// Account positions in an `execute` call, as the token program lays them
/// out: 0 source token account, 1 bond mint, 2 destination token account,
/// 3 owner, 4 this list, then the extra accounts in list order.
pub const HOOK_SOURCE_TOKEN_INDEX: u8 = 0;

pub const HOOK_DESTINATION_TOKEN_INDEX: u8 = 2;

pub const HOOK_ISSUE_INDEX: u8 = 5;

/// Offset of `owner` in a token account: `mint` (32 bytes) comes first.
pub const TOKEN_ACCOUNT_OWNER_OFFSET: u8 = 32;

pub const PUBKEY_LEN: u8 = 32;

/// One seed of a derived address in the hook's account list.
#[derive(Debug, PartialEq, Eq)]
pub enum HookSeed {
    /// Fixed bytes.
    Literal { bytes: Vec<u8> },
    /// The address of an account earlier in the call.
    AccountKey { index: u8 },
    /// A slice of the data of an account earlier in the call.
    AccountData { account_index: u8, data_index: u8, length: u8 },
}

/// One entry of the hook's account list: a fixed address (discriminator 0)
/// or seeds of an address derived by this program (discriminator 1).
#[derive(Clone, Copy, Debug, PartialEq, Eq)]
pub struct HookAccountMeta {
    pub discriminator: u8,
    pub address_config: [u8; 32],
    pub is_signer: bool,
    pub is_writable: bool,
}

/// The account-list entry could not be built.
#[derive(Clone, Copy, Debug, PartialEq, Eq, Structural)]
pub enum HookListError {
    /// The seeds do not fit in the 32 bytes of an entry.
    SeedsTooLarge,
    /// The account data cannot hold the list.
    AccountDataTooSmall,
}

/// The eight-byte tag under which the token program looks up the list of
/// extra accounts for `execute`.
pub open spec fn execute_discriminator() -> Seq<u8> {
    seq![105u8, 37u8, 101u8, 197u8, 75u8, 251u8, 102u8, 26u8]
}

/// A number as four little-endian bytes.
pub open spec fn le_u32(v: nat) -> Seq<u8> {
    seq![
        (v % 256) as u8,
        ((v / 256) % 256) as u8,
        ((v / 65536) % 256) as u8,
        ((v / 16777216) % 256) as u8,
    ]
}

/// The 35 bytes of one entry: discriminator, configuration, signer and
/// writable flags.
pub open spec fn meta_bytes(m: HookAccountMeta) -> Seq<u8> {
    seq![m.discriminator] + m.address_config@ + seq![
        if m.is_signer { 1u8 } else { 0u8 },
        if m.is_writable { 1u8 } else { 0u8 },
    ]
}

/// The entries one after another.
pub open spec fn metas_bytes(metas: Seq<HookAccountMeta>) -> Seq<u8>
    decreases metas.len(),
{
    if metas.len() == 0 {
        Seq::empty()
    } else {
        metas_bytes(metas.drop_last()) + meta_bytes(metas.last())
    }
}

/// Account data of `len` bytes holding the list: the `execute` tag, the
/// length of the value, the number of entries, the entries, then zeros.
pub open spec fn meta_list_layout(metas: Seq<HookAccountMeta>, len: nat) -> Seq<u8> {
    let body = execute_discriminator() + le_u32(4 + 35 * metas.len()) + le_u32(metas.len())
        + metas_bytes(metas);
    body + Seq::new((len - body.len()) as nat, |i: int| 0u8)
}

/// The bytes one seed takes in an entry: a tag, then its fields.
pub open spec fn seed_encoding(s: HookSeed) -> Seq<u8> {
    match s {
        HookSeed::Literal { bytes } => seq![1u8, bytes@.len() as u8] + bytes@,
        HookSeed::AccountKey { index } => seq![3u8, index],
        HookSeed::AccountData { account_index, data_index, length } => seq![
            4u8,
            account_index,
            data_index,
            length,
        ],
    }
}

/// The seeds one after another.
pub open spec fn seeds_encoding(seeds: Seq<HookSeed>) -> Seq<u8>
    decreases seeds.len(),
{
    if seeds.len() == 0 {
        Seq::empty()
    } else {
        seeds_encoding(seeds.drop_last()) + seed_encoding(seeds.last())
    }
}

/// A literal seed fits the one-byte length it is written with.
pub open spec fn seed_is_packable(s: HookSeed) -> bool {
    match s {
        HookSeed::Literal { bytes } => bytes@.len() <= 30,
        _ => true,
    }
}

/// `bytes` padded with zeros to the 32 bytes of an entry.
pub open spec fn padded(bytes: Seq<u8>) -> Seq<u8> {
    bytes + Seq::new((32 - bytes.len()) as nat, |i: int| 0u8)
}

/// The bytes of the `holder` seed.
pub open spec fn holder_seed_spec() -> Seq<u8> {
    seq![104u8, 111u8, 108u8, 100u8, 101u8, 114u8]
}

/// The packed seeds of a holder's ledger: the literal `holder`, the address
/// of the issue (account 5) and the owner read out of the token account at
/// `token_account_index`.
pub open spec fn holder_seeds_config(token_account_index: u8) -> Seq<u8> {
    seq![1u8, 6u8] + holder_seed_spec() + seq![3u8, HOOK_ISSUE_INDEX] + seq![
        4u8,
        token_account_index,
        TOKEN_ACCOUNT_OWNER_OFFSET,
        PUBKEY_LEN,
    ]
}

/// The account list `hook_account_metas` builds for an issue: the issue by
/// address, then the ledgers of the sender and of the recipient, both
/// writable, none signing.
pub open spec fn hook_metas_spec(issue: Key, metas: [HookAccountMeta; 3]) -> bool {
    &&& metas[0].discriminator == 0
    &&& metas[0].address_config@ == issue.bytes@
    &&& !metas[0].is_signer && !metas[0].is_writable
    &&& metas[1].discriminator == 1
    &&& metas[1].address_config@ == padded(holder_seeds_config(HOOK_SOURCE_TOKEN_INDEX))
    &&& !metas[1].is_signer && metas[1].is_writable
    &&& metas[2].discriminator == 1
    &&& metas[2].address_config@ == padded(holder_seeds_config(HOOK_DESTINATION_TOKEN_INDEX))
    &&& !metas[2].is_signer && metas[2].is_writable
}

/// What the token program reads out of the data of a token account: `None`
/// when the data is not a token account, `Some(None)` when it carries no
/// transfer-hook extension, and otherwise the `transferring` flag.
pub uninterp spec fn token_account_transferring_flag(data: Seq<u8>) -> Option<Option<bool>>;

/// `ExtraAccountMeta::new_with_pubkey`: the entry of a fixed address, with
/// discriminator 0 and the address bytes as its configuration. The source
/// builds it without any check, so it always succeeds.
#[verifier::external_body]
fn meta_with_pubkey(key: &Key, is_signer: bool, is_writable: bool) -> (r: Result<HookAccountMeta, HookListError>)
    ensures
        r is Ok,
        r matches Ok(meta) ==> {
            &&& meta.discriminator == 0
            &&& meta.address_config@ == key.bytes@
            &&& meta.is_signer == is_signer
            &&& meta.is_writable == is_writable
        },
{
    let key = Pubkey::new_from_array(key.bytes);
    let meta = ExtraAccountMeta::new_with_pubkey(&key, is_signer, is_writable)
        .map_err(|_| HookListError::SeedsTooLarge)?;
    Ok(HookAccountMeta { discriminator: meta.discriminator, address_config: meta.address_config,
        is_signer: bool::from(meta.is_signer), is_writable: bool::from(meta.is_writable) })
}

/// `ExtraAccountMeta::new_with_seeds`: the entry of an address derived by
/// this program, with discriminator 1 and the seeds packed one after another
/// and padded with zeros. It fails exactly when the packed seeds exceed 32
/// bytes.
#[verifier::external_body]
fn meta_with_seeds(seeds: &Vec<HookSeed>, is_signer: bool, is_writable: bool) -> (r: Result<
    HookAccountMeta,
    HookListError,
>)
    requires
        forall|i: int| 0 <= i < seeds@.len() ==> seed_is_packable(#[trigger] seeds@[i]),
    ensures
        seeds_encoding(seeds@).len() <= 32 <==> r is Ok,
        r matches Ok(meta) ==> {
            &&& meta.discriminator == 1
            &&& meta.address_config@ == padded(seeds_encoding(seeds@))
            &&& meta.is_signer == is_signer
            &&& meta.is_writable == is_writable
        },
{
    let seeds: Vec<Seed> = seeds.iter().map(|s| match s {
        HookSeed::Literal { bytes } => Seed::Literal { bytes: bytes.clone() },
        HookSeed::AccountKey { index } => Seed::AccountKey { index: *index },
        HookSeed::AccountData { account_index: a, data_index: d, length: l } =>
            Seed::AccountData { account_index: *a, data_index: *d, length: *l },
    }).collect();
    let meta = ExtraAccountMeta::new_with_seeds(&seeds, is_signer, is_writable)
        .map_err(|_| HookListError::SeedsTooLarge)?;
    Ok(HookAccountMeta { discriminator: meta.discriminator, address_config: meta.address_config,
        is_signer: bool::from(meta.is_signer), is_writable: bool::from(meta.is_writable) })
}

/// `StateWithExtensions::<Account>::unpack` followed by
/// `get_extension::<TransferHookAccount>`: reads the `transferring` flag the
/// token program raises on both accounts for the duration of a transfer.
#[verifier::external_body]
fn read_transferring_flag(data: &[u8]) -> (r: Option<Option<bool>>)
    ensures
        r == token_account_transferring_flag(data@),
{
    match StateWithExtensions::<Token2022Account>::unpack(data) {
        Err(_) => None,
        Ok(state) => Some(state.get_extension::<TransferHookAccount>().ok().map(|f| bool::from(f.transferring))),
    }
}

/// `ExtraAccountMetaList::init::<ExecuteInstruction>` on `len` zeroed bytes:
/// writes one TLV entry under the `execute` tag whose value is the count of
/// entries followed by the entries. With room for the entry it succeeds.
#[verifier::external_body]
fn execute_meta_list(metas: &[HookAccountMeta; 3], len: usize) -> (r: Result<Vec<u8>, HookListError>)
    requires
        len >= 16 + 35 * 3,
    ensures
        r is Ok,
        r matches Ok(data) ==> data@ == meta_list_layout(metas@, len as nat),
{
    let metas = metas.map(|m| ExtraAccountMeta { discriminator: m.discriminator,
        address_config: m.address_config, is_signer: m.is_signer.into(),
        is_writable: m.is_writable.into() });
    let mut data = vec![0u8; len];
    ExtraAccountMetaList::init::<ExecuteInstruction>(&mut data, &metas)
        .map_err(|_| HookListError::AccountDataTooSmall)?;
    Ok(data)
}

/// The bytes of the seed under which the token program looks for the list of
/// extra accounts of a mint: `extra-account-metas`.
pub open spec fn extra_metas_seed_spec() -> Seq<u8> {
    seq![
        101u8, 120u8, 116u8, 114u8, 97u8, 45u8, 97u8, 99u8, 99u8, 111u8, 117u8, 110u8, 116u8, 45u8,
        109u8, 101u8, 116u8, 97u8, 115u8,
    ]
}

/// The seed of the address of the extra-account list of a mint.
pub fn extra_metas_seed() -> (r: Vec<u8>)
    ensures
        r@ == extra_metas_seed_spec(),
{
    vec![
        101u8, 120u8, 116u8, 114u8, 97u8, 45u8, 97u8, 99u8, 99u8, 111u8, 117u8, 110u8, 116u8, 45u8,
        109u8, 101u8, 116u8, 97u8, 115u8,
    ]
}

/// The tag `execute` answers to: the one the token program sends to a
/// transfer hook, and the one the extra-account list is kept under.
pub fn execute_tag() -> (r: [u8; 8])
    ensures
        r@ == execute_discriminator(),
{
    let r: [u8; 8] = [105u8, 37u8, 101u8, 197u8, 75u8, 251u8, 102u8, 26u8];
    assert(r@ =~= execute_discriminator());
    r
}

/// The bytes of the `holder` seed of a ledger address.
pub fn holder_seed() -> (r: Vec<u8>)
    ensures
        r@ == seq![104u8, 111u8, 108u8, 100u8, 101u8, 114u8],
{
    vec![104u8, 111u8, 108u8, 100u8, 101u8, 114u8]
}

/// The three seeds of a holder's ledger, for the token account at
/// `token_account_index`.
fn holder_seeds(token_account_index: u8) -> (r: Vec<HookSeed>)
    ensures
        seeds_encoding(r@) == holder_seeds_config(token_account_index),
        forall|i: int| 0 <= i < r@.len() ==> seed_is_packable(#[trigger] r@[i]),
{
    let mut seeds: Vec<HookSeed> = Vec::new();
    seeds.push(HookSeed::Literal { bytes: holder_seed() });
    seeds.push(HookSeed::AccountKey { index: HOOK_ISSUE_INDEX });
    seeds.push(
        HookSeed::AccountData {
            account_index: token_account_index,
            data_index: TOKEN_ACCOUNT_OWNER_OFFSET,
            length: PUBKEY_LEN,
        },
    );
    proof {
        reveal_with_fuel(seeds_encoding, 4);
        let s = seeds@;
        assert(s.drop_last().drop_last().drop_last() =~= Seq::<HookSeed>::empty());
        assert(seeds_encoding(s) =~= holder_seeds_config(token_account_index));
    }
    seeds
}

/// The extra accounts the token program resolves for `execute`.
///
/// The issue is pinned by address: its own seeds hold a counter that a
/// transfer does not carry. The ledgers of both sides are derived from that
/// address and from the owner read out of each token account, not from the
/// signer, which may be a delegate.
pub fn hook_account_metas(issue: &Key) -> (r: Result<[HookAccountMeta; 3], HookListError>)
    ensures
        r matches Ok(metas) && hook_metas_spec(*issue, metas),
{
    let issue_meta = match meta_with_pubkey(issue, false, false) {
        Err(e) => {
            return Err(e);
        },
        Ok(m) => m,
    };
    let source_seeds = holder_seeds(HOOK_SOURCE_TOKEN_INDEX);
    let source_meta = match meta_with_seeds(&source_seeds, false, true) {
        Err(e) => {
            return Err(e);
        },
        Ok(m) => m,
    };
    let destination_seeds = holder_seeds(HOOK_DESTINATION_TOKEN_INDEX);
    let destination_meta = match meta_with_seeds(&destination_seeds, false, true) {
        Err(e) => {
            return Err(e);
        },
        Ok(m) => m,
    };
    Ok([issue_meta, source_meta, destination_meta])
}

/// The data of the account list the token program reads for `execute` on the
/// bond of `issue`, for an account of `len` bytes.
pub fn hook_meta_list_data(issue: &Key, len: usize) -> (r: Result<Vec<u8>, HookListError>)
    requires
        len >= 16 + 35 * 3,
    ensures
        r matches Ok(data) && exists|metas: [HookAccountMeta; 3]|
            hook_metas_spec(*issue, metas) && data@ == meta_list_layout(metas@, len as nat),
{
    let metas = match hook_account_metas(issue) {
        Err(e) => {
            return Err(e);
        },
        Ok(m) => m,
    };
    let data = match execute_meta_list(&metas, len) {
        Err(e) => {
            return Err(e);
        },
        Ok(d) => d,
    };
    Ok(data)
}

/// Whether a token account stands in a transfer right now. An account without
/// the transfer-hook extension has no flag, and that is not a transfer;
/// `None` when the data is not a token account at all.
pub fn is_transferring(data: &[u8]) -> (r: Option<bool>)
    ensures
        r == (match token_account_transferring_flag(data@) {
            None => None,
            Some(None) => Some(false),
            Some(Some(flag)) => Some(flag),
        }),
{
    match read_transferring_flag(data) {
        None => None,
        Some(None) => Some(false),
        Some(Some(flag)) => Some(flag),
    }
}

/// The ledger after settling the balance `held` up to `index`.
pub open spec fn settle_spec(holder: HolderCheckpoint, index: u128, held: u128) -> Result<HolderCheckpoint, ClubError> {
    if holder.index_at_checkpoint > index {
        Err(ClubError::CheckpointAheadOfIndex)
    } else {
        match claimable_spec(index, holder.index_at_checkpoint, held, holder.accrued as u128) {
            None => Err(ClubError::MathOverflow),
            Some(accrued) => if accrued > u64::MAX {
                Err(ClubError::MathOverflow)
            } else {
                Ok(HolderCheckpoint { accrued: accrued as u64, index_at_checkpoint: index, ..holder })
            },
        }
    }
}

/// Both ledgers after a transfer of `amount`, given the balances after it;
/// `same` when both sides are one wallet and so one ledger.
pub open spec fn execute_spec(
    index: u128,
    source_balance: u64,
    destination_balance: u64,
    amount: u64,
    same: bool,
    holder_source: HolderCheckpoint,
    holder_destination: HolderCheckpoint,
) -> Result<(HolderCheckpoint, HolderCheckpoint), ClubError> {
    let sender_held = (source_balance + amount) as u128;
    if destination_balance < amount {
        Err(ClubError::MathOverflow)
    } else {
        let recipient_held = (destination_balance - amount) as u128;
        if same {
            match settle_spec(holder_source, index, (sender_held + recipient_held) as u128) {
                Err(e) => Err(e),
                Ok(settled) => Ok((settled, settled)),
            }
        } else {
            match settle_spec(holder_source, index, sender_held) {
                Err(e) => Err(e),
                Ok(sender) => match settle_spec(holder_destination, index, recipient_held) {
                    Err(e) => Err(e),
                    Ok(recipient) => Ok((sender, recipient)),
                },
            }
        }
    }
}

/// Moves into `accrued` what the balance `held` earned from the checkpoint to
/// `index`, and puts the checkpoint on `index`. A checkpoint from the future
/// is a corrupted ledger and is refused by name; a refusal leaves the ledger
/// untouched.
pub fn settle(holder: &mut HolderCheckpoint, index: u128, held: u128) -> (r: Result<(), ClubError>)
    ensures
        match settle_spec(*old(holder), index, held) {
            Ok(settled) => r is Ok && *final(holder) == settled,
            Err(e) => r == Err::<(), ClubError>(e) && *final(holder) == *old(holder),
        },
        r is Ok ==> {
            &&& final(holder).index_at_checkpoint == index
            &&& final(holder).accrued == old(holder).accrued + ((index - old(holder).index_at_checkpoint)
                * held) / 1_000_000_000_000int
            &&& final(holder).claimed_total == old(holder).claimed_total
            &&& final(holder).issue == old(holder).issue
            &&& final(holder).owner == old(holder).owner
            &&& final(holder).bump == old(holder).bump
        },
        old(holder).index_at_checkpoint > index ==> r == Err::<(), ClubError>(
            ClubError::CheckpointAheadOfIndex,
        ),
        old(holder).index_at_checkpoint <= index && (index - old(holder).index_at_checkpoint) * held
            <= u128::MAX && old(holder).accrued + ((index - old(holder).index_at_checkpoint) * held)
            / 1_000_000_000_000int <= u64::MAX ==> r is Ok,
{
    if holder.index_at_checkpoint > index {
        return Err(ClubError::CheckpointAheadOfIndex);
    }
    let accrued = match claimable(index, holder.index_at_checkpoint, held, holder.accrued as u128) {
        None => {
            return Err(ClubError::MathOverflow);
        },
        Some(a) => a,
    };
    if accrued > u64::MAX as u128 {
        return Err(ClubError::MathOverflow);
    }
    holder.accrued = accrued as u64;
    holder.index_at_checkpoint = index;
    Ok(())
}

/// The ledger on a transfer. `amount` is what just moved; the balances are
/// the ones after it. When both ledgers are one (two accounts of one wallet),
/// it is settled once on everything the wallet held and both copies get the
/// result. Nothing changes when the transfer is refused.
pub fn execute(
    index: u128,
    source_balance: u64,
    destination_balance: u64,
    amount: u64,
    source_ledger: &Key,
    destination_ledger: &Key,
    holder_source: &mut HolderCheckpoint,
    holder_destination: &mut HolderCheckpoint,
) -> (r: Result<(), ClubError>)
    ensures
        match execute_spec(
            index,
            source_balance,
            destination_balance,
            amount,
            source_ledger.bytes@ == destination_ledger.bytes@,
            *old(holder_source),
            *old(holder_destination),
        ) {
            Ok((sender, recipient)) => r is Ok && *final(holder_source) == sender
                && *final(holder_destination) == recipient,
            Err(e) => r == Err::<(), ClubError>(e) && *final(holder_source) == *old(holder_source)
                && *final(holder_destination) == *old(holder_destination),
        },
        r is Ok && source_ledger.bytes@ == destination_ledger.bytes@ ==> {
            &&& *final(holder_source) == *final(holder_destination)
            &&& final(holder_source).index_at_checkpoint == index
            &&& final(holder_source).accrued == old(holder_source).accrued + ((index
                - old(holder_source).index_at_checkpoint) * (source_balance + destination_balance))
                / 1_000_000_000_000int
        },
        r is Ok && source_ledger.bytes@ != destination_ledger.bytes@ ==> {
            &&& final(holder_source).index_at_checkpoint == index
            &&& final(holder_destination).index_at_checkpoint == index
            &&& final(holder_source).accrued == old(holder_source).accrued + ((index
                - old(holder_source).index_at_checkpoint) * (source_balance + amount))
                / 1_000_000_000_000int
            &&& final(holder_destination).accrued == old(holder_destination).accrued + ((index
                - old(holder_destination).index_at_checkpoint) * (destination_balance - amount))
                / 1_000_000_000_000int
        },
{
    let sender_held = source_balance as u128 + amount as u128;
    if destination_balance < amount {
        return Err(ClubError::MathOverflow);
    }
    let recipient_held = (destination_balance - amount) as u128;
    if source_ledger.same_as(destination_ledger) {
        let mut settled = *holder_source;
        match settle(&mut settled, index, sender_held + recipient_held) {
            Err(e) => {
                return Err(e);
            },
            Ok(()) => {},
        }
        *holder_source = settled;
        *holder_destination = settled;
        return Ok(());
    }
    let mut sender = *holder_source;
    match settle(&mut sender, index, sender_held) {
        Err(e) => {
            return Err(e);
        },
        Ok(()) => {},
    }
    let mut recipient = *holder_destination;
    match settle(&mut recipient, index, recipient_held) {
        Err(e) => {
            return Err(e);
        },
        Ok(()) => {},
    }
    *holder_source = sender;
    *holder_destination = recipient;
    Ok(())
}

/// The same money is never claimed twice: settling moves the checkpoint to
/// the index and what the balance earned into `accrued`, so a claim counted
/// from the settled ledger finds exactly what was accrued and nothing more.
pub proof fn law_the_same_money_is_never_claimed_twice(holder: HolderCheckpoint, index: u128, held: u128, balance: u128)
    requires
        settle_spec(holder, index, held) is Ok,
    ensures
        ({
            let settled = settle_spec(holder, index, held).unwrap();
            &&& settled.index_at_checkpoint == index
            &&& settled.accrued == holder.accrued + earned_spec(index, holder.index_at_checkpoint, held)
            &&& claimable_spec(index, settled.index_at_checkpoint, balance, settled.accrued as u128)
                == Some(settled.accrued as u128)
        }),
{
}

/// A transfer settles both sides as of the moment before it: the sender on
/// the balance it held before sending, the recipient on the balance it held
/// before receiving, and both checkpoints move to the index.
pub proof fn law_a_transfer_settles_both_sides_as_of_the_moment_before(
    index: u128,
    source_balance: u64,
    destination_balance: u64,
    amount: u64,
    holder_source: HolderCheckpoint,
    holder_destination: HolderCheckpoint,
)
    requires
        execute_spec(index, source_balance, destination_balance, amount, false, holder_source, holder_destination) is Ok,
    ensures
        ({
            let (sender, recipient) = execute_spec(
                index,
                source_balance,
                destination_balance,
                amount,
                false,
                holder_source,
                holder_destination,
            ).unwrap();
            &&& sender.accrued == holder_source.accrued + earned_spec(
                index,
                holder_source.index_at_checkpoint,
                (source_balance + amount) as u128,
            )
            &&& recipient.accrued == holder_destination.accrued + earned_spec(
                index,
                holder_destination.index_at_checkpoint,
                (destination_balance - amount) as u128,
            )
            &&& sender.index_at_checkpoint == index
            &&& recipient.index_at_checkpoint == index
        }),
{
}

/// Two accounts of one wallet share one ledger, and a transfer between them
/// settles it once, on everything the wallet held on both accounts before
/// the transfer: the moved amount leaves one and arrives at the other, so
/// the sum is the two balances after it. Both copies come out the same.
pub proof fn law_one_wallet_is_settled_once_on_all_it_held(
    index: u128,
    source_balance: u64,
    destination_balance: u64,
    amount: u64,
    holder_source: HolderCheckpoint,
    holder_destination: HolderCheckpoint,
)
    requires
        execute_spec(index, source_balance, destination_balance, amount, true, holder_source, holder_destination) is Ok,
    ensures
        ({
            let (a, b) = execute_spec(
                index,
                source_balance,
                destination_balance,
                amount,
                true,
                holder_source,
                holder_destination,
            ).unwrap();
            &&& a == b
            &&& a.index_at_checkpoint == index
            &&& a.accrued == holder_source.accrued + ((index - holder_source.index_at_checkpoint) * (
            source_balance + destination_balance)) / 1_000_000_000_000int
        }),
{
}

} // verus!
