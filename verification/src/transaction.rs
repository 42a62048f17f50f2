//! The atomic bundle: one transaction that holds the verify operation and
//! the operations of the function, signed by the key of the run.

use crate::instruction::{instruction_views, AccountMeta, Instruction, InstructionView};
use crate::pubkey::Pubkey;
use crate::utils::EnclaveSigner;
use anchor_lang::solana_program::instruction::AccountMeta as SolAccountMeta;
use anchor_lang::solana_program::instruction::Instruction as SolInstruction;
use anchor_lang::solana_program::message::Message;
use anchor_lang::solana_program::pubkey::Pubkey as SolPubkey;
use solana_sdk::transaction::Transaction;
use vstd::prelude::*;

verus! {

/// The most addresses that one bundle can list: each is referred to by one
/// byte.
pub const MAX_MESSAGE_KEYS: usize = 256;

/// The most addresses that can sign one bundle: their number is held in one
/// byte.
pub const MAX_MESSAGE_SIGNERS: usize = 255;

/// The most items that one list of a bundle can hold: the operations, the
/// entries of one operation, the parameter bytes of one operation.
pub const MAX_LIST_LEN: usize = 65535;

/// The place that the payer takes among the addresses of a bundle: it signs
/// and may be written.
pub open spec fn payer_entry(payer: Pubkey) -> AccountMeta {
    AccountMeta { pubkey: payer, is_signer: true, is_writable: true }
}

/// The place that the program of an operation takes among the addresses of a
/// bundle: it does not sign and is not written.
pub open spec fn program_entry(ix: InstructionView) -> AccountMeta {
    AccountMeta { pubkey: ix.program_id, is_signer: false, is_writable: false }
}

/// What the operations list, in order: for each operation its program and
/// then its entries.
pub open spec fn listed_entries(instructions: Seq<InstructionView>) -> Seq<AccountMeta>
    decreases instructions.len(),
{
    if instructions.len() == 0 {
        Seq::<AccountMeta>::empty()
    } else {
        listed_entries(instructions.drop_last()) + seq![program_entry(instructions.last())]
            + instructions.last().accounts
    }
}

/// Everything that a bundle of the operations with the payer lists: the
/// payer first, then what the operations list.
pub open spec fn bundle_entries(instructions: Seq<InstructionView>, payer: Pubkey) -> Seq<
    AccountMeta,
> {
    seq![payer_entry(payer)] + listed_entries(instructions)
}

/// Whether an entry is looked at: every entry is, or only those that sign.
pub open spec fn counts(entry: AccountMeta, only_signers: bool) -> bool {
    !only_signers || entry.is_signer
}

/// Whether the address of the entry in place `i` stands in an earlier entry
/// that is looked at.
pub open spec fn seen_before(entries: Seq<AccountMeta>, i: int, only_signers: bool) -> bool {
    exists|j: int|
        0 <= j < i && counts(#[trigger] entries[j], only_signers) && entries[j].pubkey@
            == entries[i].pubkey@
}

/// How many distinct addresses the entries hold, among all of them or among
/// those that sign: the number of entries that are looked at and whose
/// address no earlier such entry holds.
pub open spec fn distinct_addresses(entries: Seq<AccountMeta>, only_signers: bool) -> nat
    decreases entries.len(),
{
    if entries.len() == 0 {
        0
    } else {
        distinct_addresses(entries.drop_last(), only_signers) + (if counts(
            entries.last(),
            only_signers,
        ) && !seen_before(entries, entries.len() - 1, only_signers) {
            1nat
        } else {
            0nat
        })
    }
}

/// Whether every list of the operations is short enough for a bundle: the
/// operations themselves, and the entries and the parameter bytes of each.
pub open spec fn lists_fit(instructions: Seq<InstructionView>) -> bool {
    &&& instructions.len() <= MAX_LIST_LEN
    &&& forall|i: int|
        0 <= i < instructions.len() ==> (#[trigger] instructions[i]).accounts.len() <= MAX_LIST_LEN
            && instructions[i].data.len() <= MAX_LIST_LEN
}

/// Whether the operations, with the payer, fit into one bundle: they name no
/// more distinct addresses than a bundle can list, no more distinct signers
/// than a bundle can count, and no list is too long. An address that is
/// named many times takes one place.
pub open spec fn fits_message(instructions: Seq<InstructionView>, payer: Pubkey) -> bool {
    &&& lists_fit(instructions)
    &&& distinct_addresses(bundle_entries(instructions, payer), false) <= MAX_MESSAGE_KEYS
    &&& distinct_addresses(bundle_entries(instructions, payer), true) <= MAX_MESSAGE_SIGNERS
}

/// Whether every list of the operations is short enough for a bundle.
pub fn check_lists_fit(instructions: &Vec<Instruction>) -> (r: bool)
    ensures
        r == lists_fit(instruction_views(instructions@)),
{
    if instructions.len() > MAX_LIST_LEN {
        return false;
    }
    let mut i: usize = 0;
    while i < instructions.len()
        invariant
            i <= instructions@.len(),
            forall|k: int|
                0 <= k < i ==> (#[trigger] instruction_views(instructions@)[k]).accounts.len()
                    <= MAX_LIST_LEN && instruction_views(instructions@)[k].data.len()
                    <= MAX_LIST_LEN,
        decreases instructions@.len() - i,
    {
        if instructions[i].accounts.len() > MAX_LIST_LEN || instructions[i].data.len()
            > MAX_LIST_LEN {
            assert(instruction_views(instructions@)[i as int] == instructions@[i as int]@);
            return false;
        }
        i += 1;
    }
    true
}

/// Everything that a bundle of the operations with the payer lists.
pub fn collect_entries(instructions: &Vec<Instruction>, payer: &Pubkey) -> (r: Vec<AccountMeta>)
    ensures
        r@ == bundle_entries(instruction_views(instructions@), *payer),
{
    let ghost views = instruction_views(instructions@);
    let mut flat: Vec<AccountMeta> = Vec::new();
    flat.push(AccountMeta::new(*payer, true));
    assert(views.subrange(0, 0) =~= Seq::<InstructionView>::empty());
    assert(flat@ =~= bundle_entries(views.subrange(0, 0), *payer));
    let mut i: usize = 0;
    while i < instructions.len()
        invariant
            i <= instructions@.len(),
            views == instruction_views(instructions@),
            flat@ == bundle_entries(views.subrange(0, i as int), *payer),
        decreases instructions@.len() - i,
    {
        let ix = &instructions[i];
        let ghost before = flat@;
        flat.push(AccountMeta::new_readonly(ix.program_id, false));
        let mut j: usize = 0;
        while j < ix.accounts.len()
            invariant
                j <= ix.accounts@.len(),
                flat@ == before + seq![program_entry(ix@)] + ix.accounts@.subrange(0, j as int),
            decreases ix.accounts@.len() - j,
        {
            flat.push(ix.accounts[j]);
            j += 1;
            assert(flat@ =~= before + seq![program_entry(ix@)] + ix.accounts@.subrange(
                0,
                j as int,
            ));
        }
        proof {
            let next = views.subrange(0, i + 1);
            assert(next.drop_last() =~= views.subrange(0, i as int));
            assert(next.last() == ix@);
            assert(ix.accounts@.subrange(0, j as int) =~= ix@.accounts);
            assert(flat@ =~= bundle_entries(next, *payer));
        }
        i += 1;
    }
    assert(views.subrange(0, i as int) =~= views);
    flat
}

/// A longer beginning of a list of entries holds no fewer distinct
/// addresses.
pub proof fn lemma_distinct_grows(entries: Seq<AccountMeta>, n: int, only_signers: bool)
    requires
        0 <= n <= entries.len(),
    ensures
        distinct_addresses(entries.subrange(0, n), only_signers) <= distinct_addresses(
            entries,
            only_signers,
        ),
    decreases entries.len() - n,
{
    if n == entries.len() {
        assert(entries.subrange(0, n) =~= entries);
    } else {
        lemma_distinct_grows(entries, n + 1, only_signers);
        assert(entries.subrange(0, n + 1).drop_last() =~= entries.subrange(0, n));
    }
}

/// Whether one of the keys is the address `key`.
pub open spec fn holds_key(keys: Seq<Pubkey>, key: Pubkey) -> bool {
    exists|t: int| 0 <= t < keys.len() && (#[trigger] keys[t])@ == key@
}

/// Whether an entry that is looked at holds the address `key`.
pub open spec fn entry_with_key(entries: Seq<AccountMeta>, key: Pubkey, only_signers: bool) -> bool {
    exists|k: int|
        0 <= k < entries.len() && counts(#[trigger] entries[k], only_signers)
            && entries[k].pubkey@ == key@
}

/// Whether the keys are the addresses of the entries that are looked at.
pub open spec fn same_keys(keys: Seq<Pubkey>, entries: Seq<AccountMeta>, only_signers: bool) -> bool {
    forall|key: Pubkey|
        #[trigger] holds_key(keys, key) <==> entry_with_key(entries, key, only_signers)
}

/// Whether one of the keys is the address `key`.
fn contains_key(keys: &Vec<Pubkey>, key: &Pubkey) -> (r: bool)
    ensures
        r == holds_key(keys@, *key),
{
    let mut t: usize = 0;
    while t < keys.len()
        invariant
            t <= keys@.len(),
            forall|u: int| 0 <= u < t ==> (#[trigger] keys@[u])@ != key@,
        decreases keys@.len() - t,
    {
        if keys[t] == *key {
            return true;
        }
        t += 1;
    }
    false
}

/// One more entry either brings a new address or none: its address is new
/// exactly if no earlier entry that is looked at holds it, and the keys
/// that stand for the entries grow by it then, and stay as they are else.
proof fn lemma_one_more_entry(
    keys: Seq<Pubkey>,
    entries: Seq<AccountMeta>,
    entry: AccountMeta,
    only_signers: bool,
)
    requires
        same_keys(keys, entries, only_signers),
    ensures
        seen_before(entries.push(entry), entries.len() as int, only_signers) == holds_key(
            keys,
            entry.pubkey,
        ),
        counts(entry, only_signers) && !holds_key(keys, entry.pubkey) ==> same_keys(
            keys.push(entry.pubkey),
            entries.push(entry),
            only_signers,
        ),
        !(counts(entry, only_signers) && !holds_key(keys, entry.pubkey)) ==> same_keys(
            keys,
            entries.push(entry),
            only_signers,
        ),
{
    let next = entries.push(entry);
    let n = entries.len() as int;
    assert(next[n] == entry);
    assert(holds_key(keys, entry.pubkey) == entry_with_key(entries, entry.pubkey, only_signers));
    if entry_with_key(entries, entry.pubkey, only_signers) {
        let k = choose|k: int|
            0 <= k < entries.len() && counts(#[trigger] entries[k], only_signers)
                && entries[k].pubkey@ == entry.pubkey@;
        assert(next[k] == entries[k]);
        assert(seen_before(next, n, only_signers));
    }
    if seen_before(next, n, only_signers) {
        let k = choose|k: int|
            0 <= k < n && counts(#[trigger] next[k], only_signers) && next[k].pubkey@
                == next[n].pubkey@;
        assert(next[k] == entries[k]);
        assert(counts(entries[k], only_signers));
        assert(entry_with_key(entries, entry.pubkey, only_signers));
    }
    let grown = keys.push(entry.pubkey);
    let add = counts(entry, only_signers) && !holds_key(keys, entry.pubkey);
    let after = if add {
        grown
    } else {
        keys
    };
    assert forall|key: Pubkey| #[trigger]
        holds_key(after, key) <==> entry_with_key(next, key, only_signers) by {
        if holds_key(after, key) {
            let t = choose|t: int| 0 <= t < after.len() && (#[trigger] after[t])@ == key@;
            if t < keys.len() {
                assert(keys[t] == after[t]);
                assert(holds_key(keys, key));
                let k = choose|k: int|
                    0 <= k < entries.len() && counts(#[trigger] entries[k], only_signers)
                        && entries[k].pubkey@ == key@;
                assert(next[k] == entries[k]);
                assert(counts(next[k], only_signers));
            } else {
                assert(counts(next[n], only_signers));
            }
            assert(entry_with_key(next, key, only_signers));
        }
        if entry_with_key(next, key, only_signers) {
            let k = choose|k: int|
                0 <= k < next.len() && counts(#[trigger] next[k], only_signers)
                    && next[k].pubkey@ == key@;
            if k < n {
                assert(next[k] == entries[k]);
                assert(counts(entries[k], only_signers));
                assert(entry_with_key(entries, key, only_signers));
                assert(holds_key(keys, key));
                let t = choose|t: int| 0 <= t < keys.len() && (#[trigger] keys[t])@ == key@;
                assert(after[t] == keys[t]);
            } else {
                if add {
                    assert(after[keys.len() as int]@ == key@);
                } else {
                    assert(holds_key(keys, entry.pubkey));
                    let t = choose|t: int|
                        0 <= t < keys.len() && (#[trigger] keys[t])@ == entry.pubkey@;
                    assert(after[t]@ == key@);
                }
            }
            assert(holds_key(after, key));
        }
    }
}

/// Whether the entries hold no more than `limit` distinct addresses, among
/// all of them or among those that sign.
pub fn distinct_within(entries: &Vec<AccountMeta>, only_signers: bool, limit: usize) -> (r: bool)
    ensures
        r == (distinct_addresses(entries@, only_signers) <= limit),
{
    let mut seen: Vec<Pubkey> = Vec::new();
    let mut i: usize = 0;
    assert(entries@.subrange(0, 0) =~= Seq::<AccountMeta>::empty());
    while i < entries.len()
        invariant
            i <= entries@.len(),
            seen@.len() <= limit,
            seen@.len() == distinct_addresses(entries@.subrange(0, i as int), only_signers),
            same_keys(seen@, entries@.subrange(0, i as int), only_signers),
        decreases entries@.len() - i,
    {
        let entry = entries[i];
        let found = contains_key(&seen, &entry.pubkey);
        proof {
            let prefix = entries@.subrange(0, i as int);
            let next = entries@.subrange(0, i + 1);
            assert(next =~= prefix.push(entry));
            assert(next.drop_last() =~= prefix);
            lemma_one_more_entry(seen@, prefix, entry, only_signers);
        }
        if (!only_signers || entry.is_signer) && !found {
            if seen.len() >= limit {
                proof {
                    lemma_distinct_grows(entries@, i + 1, only_signers);
                }
                return false;
            }
            seen.push(entry.pubkey);
        }
        i += 1;
    }
    assert(entries@.subrange(0, i as int) =~= entries@);
    true
}

/// Whether the operations, with the payer, fit into one bundle.
pub fn check_fits_message(instructions: &Vec<Instruction>, payer: &Pubkey) -> (r: bool)
    ensures
        r == fits_message(instruction_views(instructions@), *payer),
{
    if !check_lists_fit(instructions) {
        return false;
    }
    let entries = collect_entries(instructions, payer);
    distinct_within(&entries, false, MAX_MESSAGE_KEYS) && distinct_within(
        &entries,
        true,
        MAX_MESSAGE_SIGNERS,
    )
}

/// Whether the address `key` signs a bundle of the operations with the
/// payer: it is the payer, or some operation lists it as a signer.
pub open spec fn names_signer(instructions: Seq<InstructionView>, payer: Pubkey, key: Pubkey) -> bool {
    payer@ == key@ || exists|i: int, j: int|
        0 <= i < instructions.len() && 0 <= j < instructions[i].accounts.len() && lists_signer(
            instructions[i].accounts[j],
            key,
        )
}

/// Whether the entry lists `key` as a signer.
pub open spec fn lists_signer(meta: AccountMeta, key: Pubkey) -> bool {
    meta.is_signer && meta.pubkey@ == key@
}

/// The bytes of the transaction that holds the operations in their order,
/// with the payer, the block hash and the signature of the key whose secret
/// is `seed`; none where that key does not sign the operations. It depends
/// on the operations, the payer, the secret and the block hash alone.
pub uninterp spec fn signed_bundle(
    instructions: Seq<InstructionView>,
    payer: Seq<u8>,
    seed: Seq<u8>,
    blockhash: Seq<u8>,
) -> Option<Seq<u8>>;

/// Calls `Transaction::try_partial_sign` of solana_sdk, with the key of the
/// run and the block hash, on the unsigned transaction of the message that
/// `Message::new` of solana_program makes of the operations and the payer,
/// and hands out the signed transaction as the bytes that
/// `bincode::serialize` gives. The bytes are those of the signed bundle of
/// the operations, the payer, the secret of the key and the block hash. The
/// signing succeeds exactly where the key is among the signers of the
/// message: where it is the payer or an operation lists it as a signer. The
/// call is made only for operations that fit into one bundle: beyond that
/// the outside functions give up.
#[verifier::external_body]
pub(crate) fn sign_bundle(
    instructions: &Vec<Instruction>,
    payer: &Pubkey,
    signer: &EnclaveSigner,
    blockhash: &[u8; 32],
) -> (r: Option<Vec<u8>>)
    requires
        fits_message(instruction_views(instructions@), *payer),
    ensures
        r is Some <==> names_signer(instruction_views(instructions@), *payer, signer.public_key()),
        match r {
            Some(bytes) => signed_bundle(
                instruction_views(instructions@),
                payer@,
                signer.seed(),
                blockhash@,
            ) == Some(bytes@),
            None => signed_bundle(
                instruction_views(instructions@),
                payer@,
                signer.seed(),
                blockhash@,
            ) is None,
        },
{
    let converted: Vec<SolInstruction> = instructions.iter().map(|ix| SolInstruction {
        program_id: SolPubkey::new_from_array(ix.program_id.bytes),
        accounts: ix.accounts.iter().map(|m| SolAccountMeta {
            pubkey: SolPubkey::new_from_array(m.pubkey.bytes),
            is_signer: m.is_signer,
            is_writable: m.is_writable,
        }).collect(),
        data: ix.data.clone(),
    }).collect();
    let message = Message::new(&converted, Some(&SolPubkey::new_from_array(payer.bytes)));
    let mut tx = Transaction::new_unsigned(message);
    let hash = solana_sdk::hash::Hash::new_from_array(*blockhash);
    tx.try_partial_sign(&[signer.keypair()], hash).ok().and_then(|_| bincode::serialize(&tx).ok())
}

} // verus!
