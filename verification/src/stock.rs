//! The contract-state store ("stock"): the persisted ledger of all known
//! smart-contract state for this party.
//!
//! The store holds one record per contract, keyed by the contract identifier;
//! identifiers are unique by invariant. Importing a contract validates it and
//! creates its record; accepting a transfer folds the transfer's state
//! operations into the record of its contract, creating the record when the
//! store does not know the contract yet. Both transitions are defined by pure
//! specification functions ([`spec_import`], [`spec_accept`]) over the store's
//! model, so their behaviour is pinned for every input and every resolver
//! outcome.

use vstd::prelude::*;

use crate::containers::{Contract, ContractModel, Transfer, TransferModel};
use crate::errors::{InventoryFailure, RuntimeError};
use crate::validation::{
    judge_failures, witness_failures, witness_status, Failure, Status,
};

verus! {

/// One record of the store: a contract's identifier, its genesis, and the
/// state operations folded into it so far.
#[derive(Clone, Debug, PartialEq, Eq)]
pub struct ContractEntry {
    pub id: u64,
    pub genesis: Vec<u8>,
    pub ops: Vec<u64>,
}

/// The mathematical model of a [`ContractEntry`].
#[verifier::ext_equal]
pub struct EntryModel {
    pub id: u64,
    pub genesis: Seq<u8>,
    pub ops: Seq<u64>,
}

impl View for ContractEntry {
    type V = EntryModel;

    open spec fn view(&self) -> EntryModel {
        EntryModel { id: self.id, genesis: self.genesis@, ops: self.ops@ }
    }
}

/// No two records carry the same contract identifier.
pub open spec fn unique_ids(s: Seq<EntryModel>) -> bool {
    forall|i: int, j: int| 0 <= i < j < s.len() ==> s[i].id != s[j].id
}

/// The position of the record holding `id`, if the store has one.
pub open spec fn find_pos(s: Seq<EntryModel>, id: u64) -> Option<int>
    decreases s.len(),
{
    if s.len() == 0 {
        None
    } else if s[0].id == id {
        Some(0int)
    } else {
        match find_pos(s.drop_first(), id) {
            Some(i) => Some(i + 1),
            None => None,
        }
    }
}

/// What `find_pos` returns: the first (and, under `unique_ids`, only)
/// position whose record carries `id`, or `None` when no record does.
pub proof fn lemma_find_pos(s: Seq<EntryModel>, id: u64)
    ensures
        match find_pos(s, id) {
            Some(i) => 0 <= i < s.len() && s[i].id == id && forall|j: int|
                0 <= j < i ==> s[j].id != id,
            None => forall|j: int| 0 <= j < s.len() ==> s[j].id != id,
        },
    decreases s.len(),
{
    if s.len() != 0 && s[0].id != id {
        lemma_find_pos(s.drop_first(), id);
        let rest = s.drop_first();
        assert(forall|j: int| 1 <= j < s.len() ==> s[j] == rest[j - 1]);
        match find_pos(rest, id) {
            Some(i) => {
                assert(s[i + 1] == rest[i]);
            },
            None => {},
        }
    }
}

/// The record a contract's import creates: the contract's identifier and
/// genesis, with no state operations yet.
pub open spec fn entry_of(c: ContractModel) -> EntryModel {
    EntryModel { id: c.id, genesis: c.genesis, ops: Seq::empty() }
}

/// State operations of `add` folded into `base`, in order, skipping any
/// operation already present: folding never duplicates state.
pub open spec fn merge_ops(base: Seq<u64>, add: Seq<u64>) -> Seq<u64>
    decreases add.len(),
{
    if add.len() == 0 {
        base
    } else {
        let grown = if base.contains(add[0]) {
            base
        } else {
            base.push(add[0])
        };
        merge_ops(grown, add.drop_first())
    }
}

/// A transfer folded into the store: its operations merged into the record of
/// its contract, or a new record created from the transfer's genesis when the
/// store does not hold the contract yet.
pub open spec fn fold_transfer(s: Seq<EntryModel>, t: TransferModel) -> Seq<EntryModel> {
    match find_pos(s, t.contract_id) {
        Some(i) => s.update(
            i,
            EntryModel { id: s[i].id, genesis: s[i].genesis, ops: merge_ops(s[i].ops, t.ops) },
        ),
        None => s.push(
            EntryModel {
                id: t.contract_id,
                genesis: t.genesis,
                ops: merge_ops(Seq::empty(), t.ops),
            },
        ),
    }
}

/// How an import call ends.
pub enum ImportVerdict {
    /// The contract does not satisfy its schema's structural requirements;
    /// reported as an error, nothing is imported.
    Incomplete,
    /// The store already holds a different genesis under this identifier;
    /// reported as a store consistency error, nothing is imported.
    Mismatch(u64),
    /// Validation ran; the carried failures are the resulting status. The
    /// contract is imported exactly when no failure occurred.
    Done(Seq<Failure>),
}

/// The import transition: reject contracts that do not satisfy their schema;
/// re-importing an already-imported, unchanged contract succeeds without
/// touching the store or the resolver; a fresh contract is imported when all
/// of its witnesses resolved, and otherwise the failing status is returned
/// and nothing is imported.
pub open spec fn spec_import(s: Seq<EntryModel>, c: ContractModel, resolved: Seq<bool>) -> (
    Seq<EntryModel>,
    ImportVerdict,
) {
    if !c.schema_ok {
        (s, ImportVerdict::Incomplete)
    } else {
        match find_pos(s, c.id) {
            Some(i) => if s[i].genesis == c.genesis {
                (s, ImportVerdict::Done(Seq::empty()))
            } else {
                (s, ImportVerdict::Mismatch(c.id))
            },
            None => {
                let fails = witness_failures(c.witnesses, resolved);
                if fails.len() == 0 {
                    (s.push(entry_of(c)), ImportVerdict::Done(Seq::empty()))
                } else {
                    (s, ImportVerdict::Done(fails))
                }
            },
        }
    }
}

/// How an import verdict appears in the result of the call.
pub open spec fn import_verdict_matches(v: ImportVerdict, r: Result<Status, RuntimeError>) -> bool {
    match v {
        ImportVerdict::Incomplete => r matches Err(RuntimeError::IncompleteContract(st)) && st@
            == seq![Failure::SchemaRequirements],
        ImportVerdict::Mismatch(id) => r matches Err(
            RuntimeError::Inventory(InventoryFailure::ContractMismatch(found)),
        ) && found == id,
        ImportVerdict::Done(fails) => r matches Ok(st) && st@ == fails,
    }
}

/// How an accept call ends.
pub enum AcceptVerdict {
    /// The resulting validation status; the transfer was folded exactly when
    /// the status is successful or acceptance was forced on a structurally
    /// sound transfer.
    Finished(Seq<Failure>),
    /// The store already holds a different genesis under the transfer's
    /// contract identifier and acceptance was not forced; reported as a store
    /// consistency error, nothing is folded.
    Mismatch(u64),
}

/// The accept transition. A transfer that does not decode structurally is
/// never folded, forced or not. With `force`, every structurally sound
/// transfer is folded even when the store's own checks would reject it; the
/// computed status is still returned. Without `force`, the transfer is folded
/// only when validation found no failure and the store holds no conflicting
/// genesis for its contract.
pub open spec fn spec_accept(
    s: Seq<EntryModel>,
    t: TransferModel,
    resolved: Seq<bool>,
    force: bool,
    testnet: bool,
) -> (Seq<EntryModel>, AcceptVerdict) {
    let fails = judge_failures(t, resolved, testnet);
    if !t.structure_ok {
        (s, AcceptVerdict::Finished(fails))
    } else if force {
        (fold_transfer(s, t), AcceptVerdict::Finished(fails))
    } else if fails.len() != 0 {
        (s, AcceptVerdict::Finished(fails))
    } else {
        match find_pos(s, t.contract_id) {
            Some(i) => if s[i].genesis == t.genesis {
                (fold_transfer(s, t), AcceptVerdict::Finished(fails))
            } else {
                (s, AcceptVerdict::Mismatch(t.contract_id))
            },
            None => (fold_transfer(s, t), AcceptVerdict::Finished(fails)),
        }
    }
}

/// How an accept verdict appears in the result of the call.
pub open spec fn accept_verdict_matches(v: AcceptVerdict, r: Result<Status, RuntimeError>) -> bool {
    match v {
        AcceptVerdict::Finished(fails) => r matches Ok(st) && st@ == fails,
        AcceptVerdict::Mismatch(id) => r matches Err(
            RuntimeError::Inventory(InventoryFailure::ContractMismatch(found)),
        ) && found == id,
    }
}

/// The contract-state store.
#[derive(Debug, PartialEq, Eq)]
pub struct Stock {
    contracts: Vec<ContractEntry>,
}

impl View for Stock {
    type V = Seq<EntryModel>;

    closed spec fn view(&self) -> Seq<EntryModel> {
        self.contracts@.map_values(|e: ContractEntry| e@)
    }
}

impl Stock {
    /// Contract identifiers are unique across the store's records. Every
    /// constructor establishes this and every method preserves it.
    pub open spec fn wf(self) -> bool {
        unique_ids(self@)
    }

    /// A fresh, empty store.
    pub fn new() -> (r: Stock)
        ensures
            r@ == Seq::<EntryModel>::empty(),
            r.wf(),
    {
        let r = Stock { contracts: Vec::new() };
        proof {
            assert(r@ =~= Seq::<EntryModel>::empty());
        }
        r
    }

    /// A store over the given records; refused when two records carry the
    /// same contract identifier.
    pub fn from_entries(contracts: Vec<ContractEntry>) -> (r: Option<Stock>)
        ensures
            match r {
                Some(stock) => stock@ == contracts@.map_values(|e: ContractEntry| e@)
                    && stock.wf(),
                None => !unique_ids(contracts@.map_values(|e: ContractEntry| e@)),
            },
    {
        if entries_have_unique_ids(&contracts) {
            let r = Stock { contracts };
            Some(r)
        } else {
            None
        }
    }

    /// The number of contracts the store holds.
    pub fn contracts_count(&self) -> (r: usize)
        ensures
            r == self@.len(),
    {
        self.contracts.len()
    }

    /// Whether the store holds a contract under this identifier.
    pub fn has_contract(&self, id: u64) -> (r: bool)
        ensures
            r == (find_pos(self@, id) is Some),
    {
        self.find_index(id).is_some()
    }

    /// The state operations folded so far into the record of the named
    /// contract, or nothing when the store does not hold it.
    pub fn contract_ops(&self, id: u64) -> (r: Option<&Vec<u64>>)
        ensures
            match find_pos(self@, id) {
                Some(i) => r matches Some(ops) && ops@ == self@[i].ops,
                None => r is None,
            },
    {
        match self.find_index(id) {
            Some(i) => {
                proof {
                    lemma_find_pos(self@, id);
                }
                Some(&self.contracts[i].ops)
            },
            None => None,
        }
    }

    /// The genesis stored for the named contract, or nothing when the store
    /// does not hold it.
    pub fn contract_genesis(&self, id: u64) -> (r: Option<&Vec<u8>>)
        ensures
            match find_pos(self@, id) {
                Some(i) => r matches Some(genesis) && genesis@ == self@[i].genesis,
                None => r is None,
            },
    {
        match self.find_index(id) {
            Some(i) => {
                proof {
                    lemma_find_pos(self@, id);
                }
                Some(&self.contracts[i].genesis)
            },
            None => None,
        }
    }

    /// The store's records, for encoding.
    pub fn entries(&self) -> (r: &Vec<ContractEntry>)
        ensures
            r@.map_values(|e: ContractEntry| e@) == self@,
    {
        &self.contracts
    }

    /// The position of the record holding `id`.
    fn find_index(&self, id: u64) -> (r: Option<usize>)
        ensures
            match r {
                Some(i) => find_pos(self@, id) == Some(i as int),
                None => find_pos(self@, id) is None,
            },
    {
        proof {
            lemma_find_pos(self@, id);
        }
        let mut i: usize = 0;
        while i < self.contracts.len()
            invariant
                0 <= i <= self@.len(),
                self@.len() == self.contracts@.len(),
                forall|j: int| 0 <= j < i ==> self@[j].id != id,
                forall|j: int| 0 <= j < self.contracts@.len() ==> self.contracts@[j]@ == self@[j],
            decreases self@.len() - i,
        {
            if self.contracts[i].id == id {
                proof {
                    lemma_find_pos_hit(self@, id, i as int);
                }
                return Some(i);
            }
            i = i + 1;
        }
        proof {
            lemma_find_pos(self@, id);
            match find_pos(self@, id) {
                Some(k) => {
                    assert(self@[k].id == id);
                    assert(false);
                },
                None => {},
            }
        }
        None
    }

    /// Imports a contract given the outcomes of resolving its witnesses,
    /// following the import transition exactly.
    pub fn import_with_answers(&mut self, contract: Contract, resolved: &Vec<bool>) -> (r: Result<
        Status,
        RuntimeError,
    >)
        requires
            old(self).wf(),
            resolved@.len() == contract@.witnesses.len(),
        ensures
            final(self).wf(),
            final(self)@ == spec_import(old(self)@, contract@, resolved@).0,
            import_verdict_matches(spec_import(old(self)@, contract@, resolved@).1, r),
    {
        if !contract.schema_ok {
            let mut failures: Vec<Failure> = Vec::new();
            failures.push(Failure::SchemaRequirements);
            assert(failures@ =~= seq![Failure::SchemaRequirements]);
            return Err(RuntimeError::IncompleteContract(Status { failures }));
        }
        match self.find_index(contract.id) {
            Some(i) => {
                proof {
                    lemma_find_pos(self@, contract.id);
                }
                if bytes_eq(&self.contracts[i].genesis, &contract.genesis) {
                    Ok(Status::success())
                } else {
                    Err(RuntimeError::Inventory(InventoryFailure::ContractMismatch(contract.id)))
                }
            },
            None => {
                let status = witness_status(&contract.witnesses, resolved);
                if status.is_success() {
                    proof {
                        lemma_find_pos(self@, contract.id);
                    }
                    let entry = ContractEntry {
                        id: contract.id,
                        genesis: contract.genesis,
                        ops: Vec::new(),
                    };
                    let ghost before = self@;
                    self.contracts.push(entry);
                    proof {
                        assert(self@ =~= before.push(entry_of(contract@)));
                    }
                    Ok(Status::success())
                } else {
                    Ok(status)
                }
            },
        }
    }

    /// Accepts a transfer given the outcomes of resolving its witnesses, the
    /// runtime's network flag and the `force` override, following the accept
    /// transition exactly.
    pub fn accept_with_answers(
        &mut self,
        transfer: Transfer,
        resolved: &Vec<bool>,
        force: bool,
        testnet: bool,
    ) -> (r: Result<Status, RuntimeError>)
        requires
            old(self).wf(),
            resolved@.len() == transfer@.witnesses.len(),
        ensures
            final(self).wf(),
            final(self)@ == spec_accept(old(self)@, transfer@, resolved@, force, testnet).0,
            accept_verdict_matches(
                spec_accept(old(self)@, transfer@, resolved@, force, testnet).1,
                r,
            ),
    {
        let status = crate::validation::judge_transfer(&transfer, resolved, testnet);
        if !transfer.structure_ok {
            return Ok(status);
        }
        if force {
            self.fold(transfer);
            return Ok(status);
        }
        if !status.is_success() {
            return Ok(status);
        }
        match self.find_index(transfer.contract_id) {
            Some(i) => {
                proof {
                    lemma_find_pos(self@, transfer.contract_id);
                }
                if bytes_eq(&self.contracts[i].genesis, &transfer.genesis) {
                    self.fold(transfer);
                    Ok(status)
                } else {
                    Err(RuntimeError::Inventory(InventoryFailure::ContractMismatch(
                        transfer.contract_id,
                    )))
                }
            },
            None => {
                self.fold(transfer);
                Ok(status)
            },
        }
    }

    /// Folds a transfer's operations into the store.
    fn fold(&mut self, transfer: Transfer)
        requires
            old(self).wf(),
        ensures
            final(self).wf(),
            final(self)@ == fold_transfer(old(self)@, transfer@),
    {
        proof {
            lemma_find_pos(self@, transfer.contract_id);
        }
        let ghost before = self@;
        match self.find_index(transfer.contract_id) {
            Some(i) => {
                let mut entry = self.contracts.remove(i);
                merge_into(&mut entry.ops, &transfer.ops);
                self.contracts.insert(i, entry);
                proof {
                    let expected = before.update(
                        i as int,
                        EntryModel {
                            id: before[i as int].id,
                            genesis: before[i as int].genesis,
                            ops: merge_ops(before[i as int].ops, transfer@.ops),
                        },
                    );
                    assert(self@ =~~= expected);
                }
            },
            None => {
                let mut ops: Vec<u64> = Vec::new();
                merge_into(&mut ops, &transfer.ops);
                let entry = ContractEntry {
                    id: transfer.contract_id,
                    genesis: transfer.genesis,
                    ops,
                };
                self.contracts.push(entry);
                proof {
                    assert(merge_ops(Seq::<u64>::empty(), transfer@.ops) == merge_ops(
                        Seq::<u64>::empty(),
                        transfer@.ops,
                    ));
                    assert(self@ =~~= fold_transfer(before, transfer@));
                }
            },
        }
    }
}

/// `find_pos` returns the first matching position: if everything before `i`
/// misses and position `i` matches, it returns `i`.
pub proof fn lemma_find_pos_hit(s: Seq<EntryModel>, id: u64, i: int)
    requires
        0 <= i < s.len(),
        s[i].id == id,
        forall|j: int| 0 <= j < i ==> s[j].id != id,
    ensures
        find_pos(s, id) == Some(i),
    decreases i,
{
    if i == 0 {
    } else {
        assert(forall|j: int| 0 <= j < i - 1 ==> s.drop_first()[j].id != id);
        lemma_find_pos_hit(s.drop_first(), id, i - 1);
    }
}

/// Whether the records carry pairwise distinct contract identifiers.
fn entries_have_unique_ids(contracts: &Vec<ContractEntry>) -> (r: bool)
    ensures
        r == unique_ids(contracts@.map_values(|e: ContractEntry| e@)),
{
    let ghost model = contracts@.map_values(|e: ContractEntry| e@);
    let mut i: usize = 0;
    while i < contracts.len()
        invariant
            0 <= i <= contracts@.len(),
            model == contracts@.map_values(|e: ContractEntry| e@),
            model.len() == contracts@.len(),
            forall|a: int, b: int| 0 <= a < b < i ==> model[a].id != model[b].id,
        decreases contracts@.len() - i,
    {
        let mut j: usize = 0;
        while j < i
            invariant
                0 <= j <= i < contracts@.len(),
                model == contracts@.map_values(|e: ContractEntry| e@),
                model.len() == contracts@.len(),
                forall|a: int| 0 <= a < j ==> model[a].id != model[i as int].id,
            decreases i - j,
        {
            if contracts[j].id == contracts[i].id {
                assert(model[j as int].id == model[i as int].id);
                return false;
            }
            j = j + 1;
        }
        i = i + 1;
    }
    true
}

/// Byte-for-byte equality of two byte vectors.
fn bytes_eq(a: &Vec<u8>, b: &Vec<u8>) -> (r: bool)
    ensures
        r == (a@ == b@),
{
    if a.len() != b.len() {
        return false;
    }
    let mut i: usize = 0;
    while i < a.len()
        invariant
            0 <= i <= a@.len(),
            a@.len() == b@.len(),
            forall|j: int| 0 <= j < i ==> a@[j] == b@[j],
        decreases a@.len() - i,
    {
        if a[i] != b[i] {
            return false;
        }
        i = i + 1;
    }
    proof {
        assert(a@ =~= b@);
    }
    true
}

/// Merges the operations of `add` into `base` in order, skipping operations
/// already present.
fn merge_into(base: &mut Vec<u64>, add: &Vec<u64>)
    ensures
        final(base)@ == merge_ops(old(base)@, add@),
{
    proof {
        assert(add@.skip(0) =~= add@);
    }
    let mut i: usize = 0;
    while i < add.len()
        invariant
            0 <= i <= add@.len(),
            merge_ops(base@, add@.skip(i as int)) == merge_ops(old(base)@, add@),
        decreases add@.len() - i,
    {
        let ghost rest = add@.skip(i as int);
        proof {
            assert(rest.len() > 0);
            assert(rest[0] == add@[i as int]);
            assert(rest.drop_first() =~= add@.skip(i as int + 1));
        }
        if !vec_contains(base, add[i]) {
            base.push(add[i]);
        }
        i = i + 1;
    }
    proof {
        assert(add@.skip(add@.len() as int) =~= Seq::<u64>::empty());
    }
}

/// Whether the vector contains the value.
fn vec_contains(v: &Vec<u64>, x: u64) -> (r: bool)
    ensures
        r == v@.contains(x),
{
    let mut i: usize = 0;
    while i < v.len()
        invariant
            0 <= i <= v@.len(),
            forall|j: int| 0 <= j < i ==> v@[j] != x,
        decreases v@.len() - i,
    {
        if v[i] == x {
            return true;
        }
        i = i + 1;
    }
    false
}

} // verus!
