//! The laws the runtime obeys, stated once over the models and proved for
//! every input: persistence round trips, teardown of a clean runtime is a
//! no-op on disk, forced acceptance exactly overrides what validation
//! rejects, re-importing an unchanged contract is idempotent, and the
//! ownership filter is exactly membership of the wallet's tracked outputs.

use vstd::prelude::*;

use crate::chain::{Chain, Outpoint, XOutpoint};
use crate::codec::{codec_bounds, lemma_codec_round_trip, spec_encode};
use crate::containers::{ContractModel, TransferModel};
use crate::runtime::{accept_folds, spec_includes, spec_load_stock, RuntimeModel};
use crate::stock::{
    entry_of, find_pos, fold_transfer, lemma_find_pos, lemma_find_pos_hit, spec_accept,
    spec_import, unique_ids, AcceptVerdict, EntryModel, ImportVerdict,
};
use crate::validation::{judge_failures, witness_failures, Failure};
use crate::wallet::WalletModel;

verus! {

/// What the store file holds after a runtime is torn down, given what it held
/// before: a dirty runtime's teardown writes the encoded store (this is what
/// [`crate::runtime::Runtime::close`] hands back), a clean runtime's teardown
/// writes nothing and the file keeps its bytes.
pub open spec fn disk_after_close(rt: RuntimeModel, disk: Option<Seq<u8>>) -> Option<Seq<u8>> {
    if rt.dirty {
        Some(spec_encode(rt.stock))
    } else {
        disk
    }
}

/// Round-trip persistence: loading, after a runtime was torn down, yields
/// exactly the store that runtime held — whether the teardown flushed (the
/// encoded store decodes back to itself) or the runtime was clean (the file
/// keeps the bytes the runtime was loaded from). In particular,
/// load-or-initialize followed immediately by disposal and a second load
/// yields an observably equal store.
pub proof fn lemma_persistence_round_trip(
    rt: RuntimeModel,
    disk: Option<Seq<u8>>,
    init: Seq<EntryModel>,
)
    requires
        unique_ids(rt.stock),
        codec_bounds(rt.stock),
        !rt.dirty ==> spec_load_stock(disk, init) == rt.stock,
    ensures
        spec_load_stock(disk_after_close(rt, disk), init) == rt.stock,
{
    if rt.dirty {
        lemma_codec_round_trip(rt.stock);
    }
}

/// Teardown of a runtime that was never mutated does not alter the on-disk
/// store: a clean runtime's disposal writes nothing.
pub proof fn lemma_clean_disposal_is_no_op(rt: RuntimeModel, disk: Option<Seq<u8>>)
    requires
        !rt.dirty,
    ensures
        disk_after_close(rt, disk) == disk,
{
}

/// Acceptance without force rejects whatever validation rejects: when the
/// transfer's validation fails, accepting it with `force == false` leaves the
/// store unchanged and reports a non-success status. Forcing acceptance of
/// the same transfer folds it, provided it still decodes structurally.
pub proof fn lemma_force_overrides_rejection(
    s: Seq<EntryModel>,
    t: TransferModel,
    resolved: Seq<bool>,
    testnet: bool,
)
    ensures
        judge_failures(t, resolved, testnet).len() != 0 ==> {
            &&& spec_accept(s, t, resolved, false, testnet).0 == s
            &&& spec_accept(s, t, resolved, false, testnet).1 matches AcceptVerdict::Finished(
                fails,
            ) && fails.len() != 0
            &&& !accept_folds(s, t, resolved, false, testnet)
        },
        t.structure_ok ==> {
            &&& spec_accept(s, t, resolved, true, testnet).0 == fold_transfer(s, t)
            &&& spec_accept(s, t, resolved, true, testnet).1 == AcceptVerdict::Finished(
                judge_failures(t, resolved, testnet),
            )
            &&& accept_folds(s, t, resolved, true, testnet)
        },
{
}

/// Importing is idempotent on an already-imported, unchanged contract: when a
/// first import succeeds, importing the same contract again succeeds too,
/// whatever its witnesses resolve to the second time, and creates no
/// duplicate state — the store is exactly the one the first import left.
pub proof fn lemma_import_idempotent(
    s: Seq<EntryModel>,
    c: ContractModel,
    first: Seq<bool>,
    second: Seq<bool>,
)
    requires
        unique_ids(s),
        spec_import(s, c, first).1 == ImportVerdict::Done(Seq::<Failure>::empty()),
    ensures
        spec_import(spec_import(s, c, first).0, c, second).0 == spec_import(s, c, first).0,
        spec_import(spec_import(s, c, first).0, c, second).1 == ImportVerdict::Done(
            Seq::<Failure>::empty(),
        ),
{
    let s1 = spec_import(s, c, first).0;
    lemma_find_pos(s, c.id);
    match find_pos(s, c.id) {
        Some(i) => {
            assert(s1 == s);
        },
        None => {
            assert(witness_failures(c.witnesses, first).len() == 0);
            assert(s1 == s.push(entry_of(c)));
            lemma_find_pos_hit(s1, c.id, s.len() as int);
            assert(s1[s.len() as int].genesis == c.genesis);
        },
    }
}

/// The coordinates of the outputs a wallet currently tracks.
pub open spec fn utxo_coordinates(w: WalletModel) -> Set<Outpoint> {
    Set::new(|p: Outpoint| exists|i: int| 0 <= i < w.utxos.len() && w.utxos[i].outpoint == p)
}

/// The ownership filter is exactly membership of the wallet's tracked
/// outputs: it holds for an output precisely when the output lives on the
/// Bitcoin chain and its coordinate is in the wallet's tracked set.
pub proof fn lemma_filter_is_utxo_membership(w: WalletModel, output: XOutpoint)
    ensures
        spec_includes(w, output) <==> (output.chain == Chain::Bitcoin && utxo_coordinates(
            w,
        ).contains(output.outpoint)),
{
}

/// Attaching a wallet swaps the set the ownership filter answers for: right
/// after the swap the filter agrees with the new wallet on every output.
pub proof fn lemma_filter_after_attach(rt: RuntimeModel, w: WalletModel, output: XOutpoint)
    ensures
        spec_includes((RuntimeModel { wallet: w, ..rt }).wallet, output) == spec_includes(
            w,
            output,
        ),
{
}

} // verus!
