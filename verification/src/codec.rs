//! The store's own serializer: a versioned binary blob holding the store's
//! records, with a proved round trip.
//!
//! Layout: four magic bytes, one version byte, then the record count and each
//! record, integers in little-endian order and byte strings length-prefixed.
//! [`lemma_codec_round_trip`] proves that decoding an encoded store gives back
//! exactly the records that were encoded.

use vstd::bytes::{
    lemma_auto_spec_u64_to_from_le_bytes, spec_u64_from_le_bytes, spec_u64_to_le_bytes,
    u64_from_le_bytes, u64_to_le_bytes,
};
use vstd::prelude::*;
use vstd::slice::{slice_subrange, slice_to_vec};

use crate::errors::DecodeFailure;
use crate::stock::{unique_ids, ContractEntry, EntryModel, Stock};

verus! {

/// The format version this store writes and understands.
pub const STORE_VERSION: u8 = 1;

/// The magic bytes every store blob begins with.
pub open spec fn spec_magic() -> Seq<u8> {
    seq![0x52u8, 0x47u8, 0x42u8, 0x53u8]
}

/// The encoding of a record's operation list: each operation in order.
pub open spec fn spec_encode_ops(ops: Seq<u64>) -> Seq<u8>
    decreases ops.len(),
{
    if ops.len() == 0 {
        Seq::empty()
    } else {
        spec_u64_to_le_bytes(ops[0]) + spec_encode_ops(ops.drop_first())
    }
}

/// The encoding of one record: identifier, length-prefixed genesis, then the
/// count-prefixed operation list.
pub open spec fn spec_encode_entry(e: EntryModel) -> Seq<u8> {
    spec_u64_to_le_bytes(e.id) + spec_u64_to_le_bytes(e.genesis.len() as u64) + e.genesis
        + spec_u64_to_le_bytes(e.ops.len() as u64) + spec_encode_ops(e.ops)
}

/// The encoding of the record list: each record in order.
pub open spec fn spec_encode_entries(s: Seq<EntryModel>) -> Seq<u8>
    decreases s.len(),
{
    if s.len() == 0 {
        Seq::empty()
    } else {
        spec_encode_entry(s[0]) + spec_encode_entries(s.drop_first())
    }
}

/// The encoding of a whole store: magic, version, record count, records.
pub open spec fn spec_encode(s: Seq<EntryModel>) -> Seq<u8> {
    spec_magic() + seq![STORE_VERSION] + spec_u64_to_le_bytes(s.len() as u64)
        + spec_encode_entries(s)
}

/// Every count the encoding writes fits its length prefix. Holds of every
/// store held in memory, whose record and operation counts are machine sizes.
pub open spec fn codec_bounds(s: Seq<EntryModel>) -> bool {
    &&& s.len() <= u64::MAX
    &&& forall|i: int|
        0 <= i < s.len() ==> (#[trigger] s[i]).genesis.len() <= u64::MAX && s[i].ops.len()
            <= u64::MAX
}

/// Reading one little-endian integer from the front of the blob.
pub open spec fn spec_decode_u64(b: Seq<u8>) -> Option<(u64, Seq<u8>)> {
    if b.len() >= 8 {
        Some((spec_u64_from_le_bytes(b.take(8)), b.skip(8)))
    } else {
        None
    }
}

/// Reading a byte string of the announced length from the front of the blob.
pub open spec fn spec_decode_bytes(b: Seq<u8>, n: u64) -> Option<(Seq<u8>, Seq<u8>)> {
    if b.len() >= n {
        Some((b.take(n as int), b.skip(n as int)))
    } else {
        None
    }
}

/// Reading `n` operations from the front of the blob.
pub open spec fn spec_decode_ops(b: Seq<u8>, n: nat) -> Option<(Seq<u64>, Seq<u8>)>
    decreases n,
{
    if n == 0 {
        Some((Seq::empty(), b))
    } else {
        match spec_decode_u64(b) {
            None => None,
            Some((x, rest)) => match spec_decode_ops(rest, (n - 1) as nat) {
                None => None,
                Some((tail, rest2)) => Some((seq![x] + tail, rest2)),
            },
        }
    }
}

/// Reading one record from the front of the blob.
pub open spec fn spec_decode_entry(b: Seq<u8>) -> Option<(EntryModel, Seq<u8>)> {
    match spec_decode_u64(b) {
        None => None,
        Some((id, b1)) => match spec_decode_u64(b1) {
            None => None,
            Some((glen, b2)) => match spec_decode_bytes(b2, glen) {
                None => None,
                Some((genesis, b3)) => match spec_decode_u64(b3) {
                    None => None,
                    Some((oplen, b4)) => match spec_decode_ops(b4, oplen as nat) {
                        None => None,
                        Some((ops, b5)) => Some((EntryModel { id, genesis, ops }, b5)),
                    },
                },
            },
        },
    }
}

/// Reading `n` records from the front of the blob.
pub open spec fn spec_decode_entries(b: Seq<u8>, n: nat) -> Option<(Seq<EntryModel>, Seq<u8>)>
    decreases n,
{
    if n == 0 {
        Some((Seq::empty(), b))
    } else {
        match spec_decode_entry(b) {
            None => None,
            Some((e, rest)) => match spec_decode_entries(rest, (n - 1) as nat) {
                None => None,
                Some((tail, rest2)) => Some((seq![e] + tail, rest2)),
            },
        }
    }
}

/// Decoding a whole blob: magic, version, count, records, nothing after them,
/// and no two records under one contract identifier.
pub open spec fn spec_decode(b: Seq<u8>) -> Option<Seq<EntryModel>> {
    if b.len() < 5 {
        None
    } else if b.take(4) != spec_magic() {
        None
    } else if b[4] != STORE_VERSION {
        None
    } else {
        match spec_decode_u64(b.skip(5)) {
            None => None,
            Some((n, rest)) => match spec_decode_entries(rest, n as nat) {
                None => None,
                Some((es, rest2)) => if rest2.len() != 0 {
                    None
                } else if !unique_ids(es) {
                    None
                } else {
                    Some(es)
                },
            },
        }
    }
}

/// Decoding inverts encoding for one integer, whatever follows it.
proof fn lemma_decode_u64_of_encode(x: u64, rest: Seq<u8>)
    ensures
        spec_decode_u64(spec_u64_to_le_bytes(x) + rest) == Some((x, rest)),
{
    lemma_auto_spec_u64_to_from_le_bytes();
    let b = spec_u64_to_le_bytes(x) + rest;
    assert(b.take(8) =~= spec_u64_to_le_bytes(x));
    assert(b.skip(8) =~= rest);
}

/// Decoding inverts encoding for a byte string, whatever follows it.
proof fn lemma_decode_bytes_of_encode(data: Seq<u8>, rest: Seq<u8>)
    requires
        data.len() <= u64::MAX,
    ensures
        spec_decode_bytes(data + rest, data.len() as u64) == Some((data, rest)),
{
    let b = data + rest;
    assert(b.take(data.len() as int) =~= data);
    assert(b.skip(data.len() as int) =~= rest);
}

/// Decoding inverts encoding for an operation list, whatever follows it.
proof fn lemma_decode_ops_of_encode(ops: Seq<u64>, rest: Seq<u8>)
    ensures
        spec_decode_ops(spec_encode_ops(ops) + rest, ops.len()) == Some((ops, rest)),
    decreases ops.len(),
{
    if ops.len() == 0 {
        assert(spec_encode_ops(ops) + rest =~= rest);
    } else {
        let x = ops[0];
        let tail = ops.drop_first();
        assert(spec_encode_ops(ops) + rest =~= spec_u64_to_le_bytes(x) + (spec_encode_ops(tail)
            + rest));
        lemma_decode_u64_of_encode(x, spec_encode_ops(tail) + rest);
        lemma_decode_ops_of_encode(tail, rest);
        assert(seq![x] + tail =~= ops);
    }
}

/// Decoding inverts encoding for one record, whatever follows it.
proof fn lemma_decode_entry_of_encode(e: EntryModel, rest: Seq<u8>)
    requires
        e.genesis.len() <= u64::MAX,
        e.ops.len() <= u64::MAX,
    ensures
        spec_decode_entry(spec_encode_entry(e) + rest) == Some((e, rest)),
{
    let after_id = spec_u64_to_le_bytes(e.genesis.len() as u64) + e.genesis + spec_u64_to_le_bytes(
        e.ops.len() as u64,
    ) + spec_encode_ops(e.ops) + rest;
    assert(spec_encode_entry(e) + rest =~= spec_u64_to_le_bytes(e.id) + after_id);
    lemma_decode_u64_of_encode(e.id, after_id);
    let after_glen = e.genesis + spec_u64_to_le_bytes(e.ops.len() as u64) + spec_encode_ops(e.ops)
        + rest;
    assert(after_id =~= spec_u64_to_le_bytes(e.genesis.len() as u64) + after_glen);
    lemma_decode_u64_of_encode(e.genesis.len() as u64, after_glen);
    let after_genesis = spec_u64_to_le_bytes(e.ops.len() as u64) + (spec_encode_ops(e.ops) + rest);
    assert(after_glen =~= e.genesis + after_genesis);
    lemma_decode_bytes_of_encode(e.genesis, after_genesis);
    lemma_decode_u64_of_encode(e.ops.len() as u64, spec_encode_ops(e.ops) + rest);
    lemma_decode_ops_of_encode(e.ops, rest);
    assert(EntryModel { id: e.id, genesis: e.genesis, ops: e.ops } =~= e);
}

/// Decoding inverts encoding for a record list, whatever follows it.
proof fn lemma_decode_entries_of_encode(s: Seq<EntryModel>, rest: Seq<u8>)
    requires
        codec_bounds(s),
    ensures
        spec_decode_entries(spec_encode_entries(s) + rest, s.len()) == Some((s, rest)),
    decreases s.len(),
{
    if s.len() == 0 {
        assert(spec_encode_entries(s) + rest =~= rest);
    } else {
        let e = s[0];
        let tail = s.drop_first();
        assert(spec_encode_entries(s) + rest =~= spec_encode_entry(e) + (spec_encode_entries(tail)
            + rest));
        lemma_decode_entry_of_encode(e, spec_encode_entries(tail) + rest);
        assert(codec_bounds(tail)) by {
            assert(forall|i: int| 0 <= i < tail.len() ==> tail[i] == s[i + 1]);
        }
        lemma_decode_entries_of_encode(tail, rest);
        assert(seq![e] + tail =~= s);
    }
}

/// Round trip: decoding an encoded store yields exactly the encoded records.
/// Together with the no-op flush of a clean runtime this is what makes
/// persistence across a teardown-and-reload cycle lossless.
pub proof fn lemma_codec_round_trip(s: Seq<EntryModel>)
    requires
        unique_ids(s),
        codec_bounds(s),
    ensures
        spec_decode(spec_encode(s)) == Some(s),
{
    lemma_auto_spec_u64_to_from_le_bytes();
    let b = spec_encode(s);
    let header = spec_magic() + seq![STORE_VERSION];
    assert(header.len() == 5);
    assert(b.len() >= 13);
    assert(b.take(4) =~= spec_magic());
    assert(b[4] == STORE_VERSION);
    assert(b.skip(5) =~= spec_u64_to_le_bytes(s.len() as u64) + (spec_encode_entries(s)
        + Seq::empty()));
    lemma_decode_u64_of_encode(s.len() as u64, spec_encode_entries(s) + Seq::empty());
    lemma_decode_entries_of_encode(s, Seq::empty());
    assert(spec_encode_entries(s) + Seq::empty() =~= spec_encode_entries(s) + Seq::empty());
}

/// Encodes the store into the versioned blob written to disk.
pub fn encode_stock(stock: &Stock) -> (r: Vec<u8>)
    ensures
        r@ == spec_encode(stock@),
{
    let entries = stock.entries();
    let ghost model = stock@;
    let mut out: Vec<u8> = Vec::new();
    out.push(0x52u8);
    out.push(0x47u8);
    out.push(0x42u8);
    out.push(0x53u8);
    out.push(STORE_VERSION);
    let mut count_bytes = u64_to_le_bytes(entries.len() as u64);
    out.append(&mut count_bytes);
    proof {
        assert(out@ =~= spec_magic() + seq![STORE_VERSION] + spec_u64_to_le_bytes(
            model.len() as u64,
        ));
        assert(model.skip(0) =~= model);
        assert(spec_encode(model) =~= out@ + spec_encode_entries(model.skip(0)));
    }
    let mut i: usize = 0;
    while i < entries.len()
        invariant
            0 <= i <= model.len(),
            model.len() == entries@.len(),
            forall|j: int| 0 <= j < model.len() ==> entries@[j]@ == model[j],
            spec_encode(model) == out@ + spec_encode_entries(model.skip(i as int)),
        decreases model.len() - i,
    {
        proof {
            let suffix = model.skip(i as int);
            assert(suffix.len() > 0);
            assert(suffix[0] == model[i as int]);
            assert(suffix.drop_first() =~= model.skip(i as int + 1));
        }
        encode_entry_into(&mut out, &entries[i]);
        i = i + 1;
        assert(spec_encode(model) =~= out@ + spec_encode_entries(model.skip(i as int)));
    }
    proof {
        assert(model.skip(model.len() as int) =~= Seq::<EntryModel>::empty());
        assert(out@ =~= spec_encode(model));
    }
    out
}

/// Appends the encoding of one record.
fn encode_entry_into(out: &mut Vec<u8>, e: &ContractEntry)
    ensures
        final(out)@ == old(out)@ + spec_encode_entry(e@),
{
    let mut id_bytes = u64_to_le_bytes(e.id);
    out.append(&mut id_bytes);
    let mut genesis_len_bytes = u64_to_le_bytes(e.genesis.len() as u64);
    out.append(&mut genesis_len_bytes);
    let mut genesis_bytes = slice_to_vec(e.genesis.as_slice());
    out.append(&mut genesis_bytes);
    let mut ops_len_bytes = u64_to_le_bytes(e.ops.len() as u64);
    out.append(&mut ops_len_bytes);
    let ghost before_ops = out@;
    proof {
        assert(e.ops@.skip(0) =~= e.ops@);
    }
    let mut i: usize = 0;
    while i < e.ops.len()
        invariant
            0 <= i <= e.ops@.len(),
            before_ops + spec_encode_ops(e.ops@) == out@ + spec_encode_ops(e.ops@.skip(i as int)),
        decreases e.ops@.len() - i,
    {
        proof {
            let suffix = e.ops@.skip(i as int);
            assert(suffix.len() > 0);
            assert(suffix[0] == e.ops@[i as int]);
            assert(suffix.drop_first() =~= e.ops@.skip(i as int + 1));
        }
        let mut op_bytes = u64_to_le_bytes(e.ops[i]);
        out.append(&mut op_bytes);
        i = i + 1;
        assert(before_ops + spec_encode_ops(e.ops@) =~= out@ + spec_encode_ops(e.ops@.skip(
            i as int,
        )));
    }
    proof {
        assert(e.ops@.skip(e.ops@.len() as int) =~= Seq::<u64>::empty());
        assert(out@ =~= before_ops + spec_encode_ops(e.ops@));
        assert(out@ =~= old(out)@ + spec_encode_entry(e@));
    }
}

/// Reads one little-endian integer at `pos`.
fn dec_u64(b: &Vec<u8>, pos: usize) -> (r: Result<(u64, usize), DecodeFailure>)
    requires
        pos <= b@.len(),
    ensures
        match r {
            Ok((x, p)) => p <= b@.len() && spec_decode_u64(b@.skip(pos as int)) == Some(
                (x, b@.skip(p as int)),
            ),
            Err(e) => spec_decode_u64(b@.skip(pos as int)) is None && e
                == DecodeFailure::Truncated,
        },
{
    if b.len() - pos < 8 {
        return Err(DecodeFailure::Truncated);
    }
    let s = slice_subrange(b.as_slice(), pos, pos + 8);
    let x = u64_from_le_bytes(s);
    proof {
        assert(s@ =~= b@.skip(pos as int).take(8));
        assert(b@.skip(pos as int).skip(8) =~= b@.skip(pos as int + 8));
    }
    Ok((x, pos + 8))
}

/// Reads a byte string of the announced length at `pos`.
fn dec_bytes(b: &Vec<u8>, pos: usize, n: u64) -> (r: Result<(Vec<u8>, usize), DecodeFailure>)
    requires
        pos <= b@.len(),
    ensures
        match r {
            Ok((v, p)) => p <= b@.len() && spec_decode_bytes(b@.skip(pos as int), n) == Some(
                (v@, b@.skip(p as int)),
            ),
            Err(e) => spec_decode_bytes(b@.skip(pos as int), n) is None && e
                == DecodeFailure::Truncated,
        },
{
    let remaining = b.len() - pos;
    if (remaining as u64) < n {
        return Err(DecodeFailure::Truncated);
    }
    let len = n as usize;
    let s = slice_subrange(b.as_slice(), pos, pos + len);
    let v = slice_to_vec(s);
    proof {
        assert(s@ =~= b@.skip(pos as int).take(n as int));
        assert(b@.skip(pos as int).skip(n as int) =~= b@.skip(pos as int + n as int));
    }
    Ok((v, pos + len))
}

/// Reads `n` operations at `pos`.
fn dec_ops(b: &Vec<u8>, pos: usize, n: u64) -> (r: Result<(Vec<u64>, usize), DecodeFailure>)
    requires
        pos <= b@.len(),
    ensures
        match r {
            Ok((v, p)) => p <= b@.len() && spec_decode_ops(b@.skip(pos as int), n as nat) == Some(
                (v@, b@.skip(p as int)),
            ),
            Err(_) => spec_decode_ops(b@.skip(pos as int), n as nat) is None,
        },
    decreases n,
{
    if n == 0 {
        let v: Vec<u64> = Vec::new();
        proof {
            assert(v@ =~= Seq::<u64>::empty());
        }
        return Ok((v, pos));
    }
    let (x, p1) = match dec_u64(b, pos) {
        Ok(t) => t,
        Err(e) => {
            return Err(e);
        },
    };
    let (mut v, p2) = match dec_ops(b, p1, n - 1) {
        Ok(t) => t,
        Err(e) => {
            return Err(e);
        },
    };
    let ghost tail = v@;
    v.insert(0, x);
    proof {
        assert(v@ =~= seq![x] + tail);
    }
    Ok((v, p2))
}

/// Reads one record at `pos`.
fn dec_entry(b: &Vec<u8>, pos: usize) -> (r: Result<(ContractEntry, usize), DecodeFailure>)
    requires
        pos <= b@.len(),
    ensures
        match r {
            Ok((e, p)) => p <= b@.len() && spec_decode_entry(b@.skip(pos as int)) == Some(
                (e@, b@.skip(p as int)),
            ),
            Err(_) => spec_decode_entry(b@.skip(pos as int)) is None,
        },
{
    let (id, p1) = match dec_u64(b, pos) {
        Ok(t) => t,
        Err(e) => {
            return Err(e);
        },
    };
    let (genesis_len, p2) = match dec_u64(b, p1) {
        Ok(t) => t,
        Err(e) => {
            return Err(e);
        },
    };
    let (genesis, p3) = match dec_bytes(b, p2, genesis_len) {
        Ok(t) => t,
        Err(e) => {
            return Err(e);
        },
    };
    let (ops_len, p4) = match dec_u64(b, p3) {
        Ok(t) => t,
        Err(e) => {
            return Err(e);
        },
    };
    let (ops, p5) = match dec_ops(b, p4, ops_len) {
        Ok(t) => t,
        Err(e) => {
            return Err(e);
        },
    };
    Ok((ContractEntry { id, genesis, ops }, p5))
}

/// Reads `n` records at `pos`.
fn dec_entries(b: &Vec<u8>, pos: usize, n: u64) -> (r: Result<
    (Vec<ContractEntry>, usize),
    DecodeFailure,
>)
    requires
        pos <= b@.len(),
    ensures
        match r {
            Ok((v, p)) => p <= b@.len() && spec_decode_entries(b@.skip(pos as int), n as nat)
                == Some((v@.map_values(|e: ContractEntry| e@), b@.skip(p as int))),
            Err(_) => spec_decode_entries(b@.skip(pos as int), n as nat) is None,
        },
    decreases n,
{
    if n == 0 {
        let v: Vec<ContractEntry> = Vec::new();
        proof {
            assert(v@.map_values(|e: ContractEntry| e@) =~= Seq::<EntryModel>::empty());
        }
        return Ok((v, pos));
    }
    let (entry, p1) = match dec_entry(b, pos) {
        Ok(t) => t,
        Err(e) => {
            return Err(e);
        },
    };
    let ghost entry_model = entry@;
    let (mut v, p2) = match dec_entries(b, p1, n - 1) {
        Ok(t) => t,
        Err(e) => {
            return Err(e);
        },
    };
    let ghost tail = v@;
    v.insert(0, entry);
    proof {
        assert(v@ =~= seq![entry] + tail);
        assert(v@.map_values(|e: ContractEntry| e@) =~= seq![entry_model] + tail.map_values(
            |e: ContractEntry| e@,
        ));
    }
    Ok((v, p2))
}

/// Decodes a store blob, reporting exactly why a blob is not a store: missing
/// or foreign magic, an unsupported version, a truncated structure, bytes
/// after its end, or a duplicated contract record.
pub fn decode_stock(b: &Vec<u8>) -> (r: Result<Stock, DecodeFailure>)
    ensures
        match r {
            Ok(stock) => spec_decode(b@) == Some(stock@) && stock.wf(),
            Err(_) => spec_decode(b@) is None,
        },
        b@.len() < 5 ==> r == Err::<Stock, DecodeFailure>(DecodeFailure::Truncated),
        b@.len() >= 5 && b@.take(4) != spec_magic() ==> r == Err::<Stock, DecodeFailure>(
            DecodeFailure::BadMagic,
        ),
        b@.len() >= 5 && b@.take(4) == spec_magic() && b@[4] != STORE_VERSION ==> r == Err::<
            Stock,
            DecodeFailure,
        >(DecodeFailure::UnsupportedVersion(b@[4])),
{
    if b.len() < 5 {
        return Err(DecodeFailure::Truncated);
    }
    let magic_ok = b[0] == 0x52u8 && b[1] == 0x47u8 && b[2] == 0x42u8 && b[3] == 0x53u8;
    proof {
        assert(b@.take(4)[0] == b@[0]);
        assert(b@.take(4)[1] == b@[1]);
        assert(b@.take(4)[2] == b@[2]);
        assert(b@.take(4)[3] == b@[3]);
        if magic_ok {
            assert(b@.take(4) =~= spec_magic());
        } else {
            assert(b@.take(4) != spec_magic());
        }
    }
    if !magic_ok {
        return Err(DecodeFailure::BadMagic);
    }
    if b[4] != STORE_VERSION {
        return Err(DecodeFailure::UnsupportedVersion(b[4]));
    }
    let (count, p1) = match dec_u64(b, 5) {
        Ok(t) => t,
        Err(e) => {
            return Err(e);
        },
    };
    let (entries, p2) = match dec_entries(b, p1, count) {
        Ok(t) => t,
        Err(e) => {
            return Err(e);
        },
    };
    if p2 != b.len() {
        return Err(DecodeFailure::TrailingBytes);
    }
    proof {
        assert(b@.skip(p2 as int) =~= Seq::<u8>::empty());
    }
    match Stock::from_entries(entries) {
        Some(stock) => Ok(stock),
        None => Err(DecodeFailure::DuplicateContract),
    }
}

} // verus!
