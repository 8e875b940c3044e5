//! Validation outcomes and the transfer-level validation rule.
//!
//! A [`Status`] is the structured result describing why a piece of protocol
//! data passed or failed its checks: it is successful exactly when it carries
//! no failure. Witness transactions of a transfer are resolved through a
//! caller-supplied resolver capability; the pure rule that turns the transfer
//! and the resolution outcomes into a status is [`judge_transfer`], so the
//! verdict for every possible resolver behaviour is pinned down exactly.

use vstd::prelude::*;

use crate::containers::{Transfer, TransferModel};

verus! {

/// One reason a piece of protocol data failed validation.
#[derive(Clone, Copy, Debug, PartialEq, Eq, Structural)]
pub enum Failure {
    /// The data could not be decoded into a structurally sound consignment.
    Structure,
    /// The contract source does not satisfy the structural requirements
    /// imposed by the schema it uses.
    SchemaRequirements,
    /// The data belongs to a different network than the runtime operates on.
    NetworkMismatch,
    /// A witness transaction could not be resolved against the chain; carries
    /// the identifier of the unresolved witness.
    WitnessUnresolved(u64),
    /// The store already holds a different genesis under this contract
    /// identifier; carries that identifier.
    GenesisMismatch(u64),
}

/// The overall verdict a status projects to.
#[derive(Clone, Copy, Debug, PartialEq, Eq, Structural)]
pub enum Validity {
    Valid,
    Invalid,
}

/// A structured validation result: the list of failures found, in the order
/// they were checked. An empty list means the data passed.
#[derive(Clone, Debug, PartialEq, Eq)]
pub struct Status {
    pub failures: Vec<Failure>,
}

impl View for Status {
    type V = Seq<Failure>;

    open spec fn view(&self) -> Seq<Failure> {
        self.failures@
    }
}

impl Status {
    /// Whether the status reports no failure.
    pub open spec fn spec_success(&self) -> bool {
        self@.len() == 0
    }

    /// A status with no failures.
    pub fn success() -> (r: Status)
        ensures
            r@ == Seq::<Failure>::empty(),
            r.spec_success(),
    {
        Status { failures: Vec::new() }
    }

    /// Whether the status reports no failure.
    pub fn is_success(&self) -> (r: bool)
        ensures
            r == self.spec_success(),
    {
        self.failures.len() == 0
    }

    /// The verdict the status projects to.
    pub fn validity(&self) -> (r: Validity)
        ensures
            r == Validity::Valid <==> self.spec_success(),
    {
        if self.failures.len() == 0 {
            Validity::Valid
        } else {
            Validity::Invalid
        }
    }
}

/// Resolves the identifier of a chain transaction to its confirmation height.
/// Implementations are supplied by the caller and may perform blocking network
/// input/output; nothing is assumed of their answers.
pub trait ResolveHeight {
    /// Answers with the confirmation height of the named witness transaction,
    /// or an error message when it cannot be resolved.
    fn resolve_height(&mut self, witness: u64) -> Result<u32, String>;
}

/// A resolved chain transaction, reduced to the identifier the validation
/// rule compares.
#[derive(Clone, Copy, Debug, PartialEq, Eq, Structural)]
pub struct ResolvedTx {
    pub txid: u64,
}

/// Resolves the identifier of a chain transaction to the transaction itself.
/// Implementations are supplied by the caller and may perform blocking network
/// input/output; nothing is assumed of their answers.
pub trait ResolveTx {
    /// Answers with the transaction named by the identifier, or an error
    /// message when it cannot be found.
    fn resolve_tx(&mut self, txid: u64) -> Result<ResolvedTx, String>;
}

/// The failures that unresolved witnesses contribute, in witness order: the
/// witness at position `i` is unresolved unless `resolved[i]` is true.
pub open spec fn witness_failures(witnesses: Seq<u64>, resolved: Seq<bool>) -> Seq<Failure>
    decreases witnesses.len(),
{
    if witnesses.len() == 0 {
        Seq::empty()
    } else {
        let head: Seq<Failure> = if 0 < resolved.len() && resolved[0] {
            Seq::empty()
        } else {
            seq![Failure::WitnessUnresolved(witnesses[0])]
        };
        head + witness_failures(witnesses.drop_first(), resolved.drop_first())
    }
}

/// Whether there is one resolution outcome for each witness of the transfer.
pub open spec fn outcomes_match(t: TransferModel, resolved: Seq<bool>) -> bool {
    resolved.len() == t.witnesses.len()
}

/// The failures validation finds in a transfer, given the witness resolution
/// outcomes and the network flag of the runtime: a structure failure when the
/// transfer could not be decoded, a network mismatch when its network flag
/// differs from the runtime's, and one failure for each unresolved witness.
pub open spec fn judge_failures(t: TransferModel, resolved: Seq<bool>, testnet: bool) -> Seq<
    Failure,
> {
    (if t.structure_ok {
        Seq::<Failure>::empty()
    } else {
        seq![Failure::Structure]
    }) + (if t.testnet == testnet {
        Seq::<Failure>::empty()
    } else {
        seq![Failure::NetworkMismatch]
    }) + witness_failures(t.witnesses, resolved)
}

/// The pure validation rule: turns a transfer, the outcomes of resolving its
/// witnesses, and the runtime's network flag into the exact status that
/// validation reports. Every check a resolver cannot influence is decided
/// here, so the verdict is a function of the arguments alone.
pub fn judge_transfer(t: &Transfer, resolved: &Vec<bool>, testnet: bool) -> (r: Status)
    requires
        outcomes_match(t@, resolved@),
    ensures
        r@ == judge_failures(t@, resolved@, testnet),
{
    let mut failures: Vec<Failure> = Vec::new();
    if !t.structure_ok {
        failures.push(Failure::Structure);
    }
    if t.testnet != testnet {
        failures.push(Failure::NetworkMismatch);
    }
    let mut tail = witness_status(&t.witnesses, resolved);
    failures.append(&mut tail.failures);
    proof {
        assert(failures@ =~= judge_failures(t@, resolved@, testnet));
    }
    Status { failures }
}

/// The status that witness resolution alone contributes: one failure for each
/// witness whose resolution outcome is negative, in witness order.
pub fn witness_status(witnesses: &Vec<u64>, resolved: &Vec<bool>) -> (r: Status)
    requires
        resolved@.len() == witnesses@.len(),
    ensures
        r@ == witness_failures(witnesses@, resolved@),
{
    let mut failures: Vec<Failure> = Vec::new();
    proof {
        assert(witnesses@.skip(0) =~= witnesses@);
        assert(resolved@.skip(0) =~= resolved@);
        assert(witness_failures(witnesses@, resolved@) =~= failures@ + witness_failures(
            witnesses@.skip(0),
            resolved@.skip(0),
        ));
    }
    let mut i: usize = 0;
    while i < witnesses.len()
        invariant
            0 <= i <= witnesses@.len(),
            resolved@.len() == witnesses@.len(),
            witness_failures(witnesses@, resolved@) == failures@ + witness_failures(
                witnesses@.skip(i as int),
                resolved@.skip(i as int),
            ),
        decreases witnesses@.len() - i,
    {
        proof {
            lemma_witness_failures_step(witnesses@, resolved@, i as int);
        }
        if !resolved[i] {
            failures.push(Failure::WitnessUnresolved(witnesses[i]));
        }
        i = i + 1;
        assert(witness_failures(witnesses@, resolved@) =~= failures@ + witness_failures(
            witnesses@.skip(i as int),
            resolved@.skip(i as int),
        ));
    }
    proof {
        assert(witnesses@.skip(witnesses@.len() as int) =~= Seq::<u64>::empty());
        assert(failures@ =~= witness_failures(witnesses@, resolved@));
    }
    Status { failures }
}

/// Unfolding the witness contribution at position `i`: the remainder from `i`
/// is the contribution of witness `i` followed by the remainder from `i + 1`.
proof fn lemma_witness_failures_step(witnesses: Seq<u64>, resolved: Seq<bool>, i: int)
    requires
        0 <= i < witnesses.len(),
        resolved.len() == witnesses.len(),
    ensures
        witness_failures(witnesses.skip(i), resolved.skip(i)) == (if resolved[i] {
            Seq::<Failure>::empty()
        } else {
            seq![Failure::WitnessUnresolved(witnesses[i])]
        }) + witness_failures(witnesses.skip(i + 1), resolved.skip(i + 1)),
{
    let ws = witnesses.skip(i);
    let rs = resolved.skip(i);
    assert(ws.len() == witnesses.len() - i);
    assert(ws[0] == witnesses[i]);
    assert(rs[0] == resolved[i]);
    assert(ws.drop_first() =~= witnesses.skip(i + 1));
    assert(rs.drop_first() =~= resolved.skip(i + 1));
}

} // verus!
