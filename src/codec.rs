//! The wire format of ranging messages: a constant prelude that names the
//! message type, followed by its fields, each a 64-bit value in eight bytes,
//! least significant first.
use vstd::bytes::{spec_u64_from_le_bytes, spec_u64_to_le_bytes, lemma_auto_spec_u64_to_from_le_bytes};
use vstd::prelude::*;

use crate::hl::Error;
use crate::time::TIME_MAX;

verus! {

/// Relies on `ssmarshal::serialize` for a `u64`: it writes eight bytes, least
/// significant first, and succeeds on a buffer of eight bytes.
#[verifier::external_body]
fn serialize_u64(value: u64) -> (r: Option<[u8; 8]>)
    ensures
        r is Some,
        r->Some_0@ == spec_u64_to_le_bytes(value),
{
    let mut buf = [0u8; 8];
    match ssmarshal::serialize(&mut buf, &value) {
        Ok(_) => Some(buf),
        Err(_) => None,
    }
}

/// Relies on `ssmarshal::deserialize` for a `u64`: it reads the first eight
/// bytes, least significant first, and succeeds where there are eight.
#[verifier::external_body]
fn deserialize_u64(bytes: &[u8]) -> (r: Option<u64>)
    requires
        bytes@.len() >= 8,
    ensures
        r == Some(spec_u64_from_le_bytes(bytes@.subrange(0, 8))),
{
    match ssmarshal::deserialize::<u64>(bytes) {
        Ok((value, _)) => Some(value),
        Err(_) => None,
    }
}

/// Whether `s` begins with `prefix`.
pub open spec fn starts_with(s: Seq<u8>, prefix: Seq<u8>) -> bool {
    s.len() >= prefix.len() && s.subrange(0, prefix.len() as int) == prefix
}

/// The bytes of a sequence of fields, one after the other.
pub open spec fn fields_bytes(fields: Seq<u64>) -> Seq<u8>
    decreases fields.len(),
{
    if fields.len() == 0 {
        Seq::empty()
    } else {
        fields_bytes(fields.drop_last()) + spec_u64_to_le_bytes(fields.last())
    }
}

/// A whole message on the wire: its prelude, then its fields.
pub open spec fn frame_bytes(prelude: Seq<u8>, fields: Seq<u64>) -> Seq<u8> {
    prelude + fields_bytes(fields)
}

/// The length of a message with a prelude of `prelude_len` bytes and
/// `n_fields` fields.
pub open spec fn frame_len(prelude_len: nat, n_fields: nat) -> nat {
    prelude_len + 8 * n_fields
}

/// The field at position `i` of a message whose prelude is `prelude_len`
/// bytes long.
pub open spec fn field_at(s: Seq<u8>, prelude_len: nat, i: int) -> u64 {
    spec_u64_from_le_bytes(s.subrange(prelude_len + 8 * i, prelude_len + 8 * i + 8))
}

/// The fields that a message of `n_fields` fields holds.
pub open spec fn fields_of(s: Seq<u8>, prelude_len: nat, n_fields: nat) -> Seq<u64> {
    Seq::new(n_fields, |i: int| field_at(s, prelude_len, i))
}

/// What decoding `s` as a message with the given prelude and number of
/// fields yields: no match where the prelude differs, a length error where
/// the length differs, a range error where a field does not fit in 40 bits,
/// and the fields otherwise.
pub open spec fn decode_outcome(s: Seq<u8>, prelude: Seq<u8>, n_fields: nat) -> Result<
    Option<Seq<u64>>,
    Error,
> {
    let len = frame_len(prelude.len(), n_fields);
    let fields = fields_of(s, prelude.len(), n_fields);
    if !starts_with(s, prelude) {
        Ok(None)
    } else if s.len() != len {
        Err(Error::FrameLength { required_len: len as usize })
    } else if exists|i: int| 0 <= i < n_fields && fields[i] > TIME_MAX {
        Err(Error::TimeOutOfRange)
    } else {
        Ok(Some(fields))
    }
}

/// Whether every field fits in 40 bits.
pub open spec fn fields_in_range(fields: Seq<u64>) -> bool {
    forall|i: int| 0 <= i < fields.len() ==> fields[i] <= TIME_MAX
}

proof fn lemma_fields_bytes(fields: Seq<u64>)
    ensures
        fields_bytes(fields).len() == 8 * fields.len(),
        forall|i: int|
            0 <= i < fields.len() ==> fields_bytes(fields).subrange(8 * i, 8 * i + 8)
                == spec_u64_to_le_bytes(#[trigger] fields[i]),
    decreases fields.len(),
{
    lemma_auto_spec_u64_to_from_le_bytes();
    if fields.len() > 0 {
        let init = fields.drop_last();
        lemma_fields_bytes(init);
        let b = fields_bytes(fields);
        assert forall|i: int| 0 <= i < fields.len() implies b.subrange(8 * i, 8 * i + 8)
            == spec_u64_to_le_bytes(#[trigger] fields[i]) by {
            if i < fields.len() - 1 {
                assert(init[i] == fields[i]);
                assert(b.subrange(8 * i, 8 * i + 8) =~= fields_bytes(init).subrange(8 * i, 8 * i + 8));
            } else {
                assert(b.subrange(8 * i, 8 * i + 8) =~= spec_u64_to_le_bytes(fields.last()));
            }
        }
    }
}

/// Bytes that do not start with a message type's prelude are no match for
/// that type, whatever their length.
pub proof fn lemma_foreign_prelude_no_match(s: Seq<u8>, prelude: Seq<u8>, n_fields: nat)
    requires
        !starts_with(s, prelude),
    ensures
        decode_outcome(s, prelude, n_fields) == Ok::<Option<Seq<u64>>, Error>(None),
{
}

/// Bytes that start with a message type's prelude but differ from its length
/// give a length error that carries the length, whatever the rest holds.
pub proof fn lemma_wrong_length_error(s: Seq<u8>, prelude: Seq<u8>, n_fields: nat)
    requires
        starts_with(s, prelude),
        s.len() != frame_len(prelude.len(), n_fields),
    ensures
        decode_outcome(s, prelude, n_fields) == Err::<Option<Seq<u64>>, Error>(
            Error::FrameLength { required_len: frame_len(prelude.len(), n_fields) as usize },
        ),
{
}

/// An encoded message is as long as its prelude and eight bytes a field.
pub proof fn lemma_frame_len(prelude: Seq<u8>, fields: Seq<u64>)
    ensures
        frame_bytes(prelude, fields).len() == frame_len(prelude.len(), fields.len()),
{
    lemma_fields_bytes(fields);
}

/// Decoding an encoded message gives back its fields, for every prelude and
/// every sequence of fields that fit in 40 bits.
pub proof fn lemma_frame_round_trip(prelude: Seq<u8>, fields: Seq<u64>)
    requires
        fields_in_range(fields),
    ensures
        decode_outcome(frame_bytes(prelude, fields), prelude, fields.len()) == Ok::<
            Option<Seq<u64>>,
            Error,
        >(Some(fields)),
{
    lemma_auto_spec_u64_to_from_le_bytes();
    lemma_fields_bytes(fields);
    let s = frame_bytes(prelude, fields);
    let p = prelude.len();
    assert(s.subrange(0, p as int) =~= prelude);
    let decoded = fields_of(s, p, fields.len());
    assert forall|i: int| 0 <= i < fields.len() implies decoded[i] == fields[i] by {
        assert(s.subrange(p + 8 * i, p + 8 * i + 8) =~= fields_bytes(fields).subrange(8 * i, 8 * i + 8));
        assert(spec_u64_from_le_bytes(spec_u64_to_le_bytes(fields[i])) == fields[i]);
    }
    assert(decoded =~= fields);
}

/// Encodes a message: the prelude, then each field in eight bytes.
pub fn encode_frame(prelude: &Vec<u8>, fields: &Vec<u64>) -> (r: Vec<u8>)
    ensures
        r@ == frame_bytes(prelude@, fields@),
{
    let mut out: Vec<u8> = Vec::new();
    let mut i: usize = 0;
    while i < prelude.len()
        invariant
            i <= prelude@.len(),
            out@ == prelude@.subrange(0, i as int),
        decreases prelude@.len() - i,
    {
        out.push(prelude[i]);
        i += 1;
        assert(out@ =~= prelude@.subrange(0, i as int));
    }
    assert(prelude@.subrange(0, i as int) =~= prelude@);
    let mut k: usize = 0;
    while k < fields.len()
        invariant
            k <= fields@.len(),
            out@ == prelude@ + fields_bytes(fields@.subrange(0, k as int)),
        decreases fields@.len() - k,
    {
        let bytes = serialize_u64(fields[k]).unwrap();
        let ghost before = out@;
        let mut j: usize = 0;
        while j < 8
            invariant
                j <= 8,
                out@ == before + bytes@.subrange(0, j as int),
            decreases 8 - j,
        {
            out.push(bytes[j]);
            j += 1;
            assert(out@ =~= before + bytes@.subrange(0, j as int));
        }
        assert(bytes@.subrange(0, 8) =~= bytes@);
        let ghost next = fields@.subrange(0, k + 1);
        assert(next.drop_last() =~= fields@.subrange(0, k as int));
        k += 1;
        assert(out@ =~= prelude@ + fields_bytes(fields@.subrange(0, k as int)));
    }
    assert(fields@.subrange(0, k as int) =~= fields@);
    out
}

/// Decodes a message with the given prelude and number of fields, as
/// `decode_outcome` states.
pub fn decode_frame(prelude: &Vec<u8>, n_fields: usize, payload: &Vec<u8>) -> (r: Result<
    Option<Vec<u64>>,
    Error,
>)
    requires
        prelude@.len() + 8 * n_fields <= usize::MAX,
    ensures
        match decode_outcome(payload@, prelude@, n_fields as nat) {
            Ok(Some(fields)) => r matches Ok(Some(v)) && v@ == fields,
            Ok(None) => r matches Ok(None),
            Err(e) => r == Err::<Option<Vec<u64>>, Error>(e),
        },
{
    let plen = prelude.len();
    if payload.len() < plen {
        return Ok(None);
    }
    let mut i: usize = 0;
    while i < plen
        invariant
            plen == prelude@.len(),
            payload@.len() >= plen,
            i <= plen,
            payload@.subrange(0, i as int) == prelude@.subrange(0, i as int),
        decreases plen - i,
    {
        if payload[i] != prelude[i] {
            assert(payload@.subrange(0, plen as int)[i as int] != prelude@[i as int]);
            return Ok(None);
        }
        i += 1;
        assert(payload@.subrange(0, i as int) =~= prelude@.subrange(0, i as int)) by {
            assert forall|j: int| 0 <= j < i implies payload@.subrange(0, i as int)[j]
                == prelude@.subrange(0, i as int)[j] by {
                if j < i - 1 {
                    assert(payload@.subrange(0, i - 1)[j] == prelude@.subrange(0, i - 1)[j]);
                }
            }
        }
    }
    assert(prelude@.subrange(0, plen as int) =~= prelude@);
    let len = plen + 8 * n_fields;
    if payload.len() != len {
        return Err(Error::FrameLength { required_len: len });
    }
    let ghost expected = fields_of(payload@, plen as nat, n_fields as nat);
    let mut fields: Vec<u64> = Vec::new();
    let mut k: usize = 0;
    while k < n_fields
        invariant
            plen == prelude@.len(),
            payload@.len() == plen + 8 * n_fields,
            plen + 8 * n_fields <= usize::MAX,
            starts_with(payload@, prelude@),
            expected == fields_of(payload@, plen as nat, n_fields as nat),
            k <= n_fields,
            fields@ == expected.subrange(0, k as int),
            forall|j: int| 0 <= j < k ==> expected[j] <= TIME_MAX,
        decreases n_fields - k,
    {
        assert(8 * k + 8 <= 8 * n_fields) by (nonlinear_arith)
            requires
                k < n_fields,
        ;
        let start = plen + 8 * k;
        let bytes = vstd::slice::slice_subrange(payload.as_slice(), start, start + 8);
        let value = deserialize_u64(bytes).unwrap();
        assert(bytes@.subrange(0, 8) =~= payload@.subrange(start as int, start + 8));
        assert(value == expected[k as int]);
        if value > TIME_MAX {
            assert(0 <= k < n_fields && expected[k as int] > TIME_MAX);
            return Err(Error::TimeOutOfRange);
        }
        fields.push(value);
        k += 1;
        assert(fields@ =~= expected.subrange(0, k as int));
    }
    assert(fields@ =~= expected);
    Ok(Some(fields))
}

} // verus!
