//! The byte format under which records rest in durable storage: a fixed-width
//! little-endian layout per record kind, with a declared upper bound on the
//! encoded size and a proved decode-of-encode round trip.
use vstd::prelude::*;
use vstd::bytes::{
    lemma_auto_spec_u64_to_from_le_bytes,
    spec_u64_from_le_bytes,
    spec_u64_to_le_bytes,
    u64_from_le_bytes,
    u64_to_le_bytes,
};
use crate::records::{Sales, Timber, TimberSize, TimberType};

verus! {

/// The upper bound on the encoded size of a record, used by the storage
/// layer to size its slots. Both record kinds encode well below it.
pub const MAX_RECORD_BYTES: usize = 1024;

/// The exact encoded width of a timber record.
pub const TIMBER_BYTES: usize = 35;

/// The exact encoded width of a sale record.
pub const SALES_BYTES: usize = 49;

/// The byte tag under which a timber category is stored.
pub open spec fn type_tag(t: TimberType) -> u8 {
    match t {
        TimberType::Cyprus => 0,
        TimberType::Pine => 1,
        TimberType::Oak => 2,
        TimberType::Cedar => 3,
        TimberType::Spruce => 4,
    }
}

/// The category stored under a byte tag, if any.
pub open spec fn type_of_tag(b: u8) -> Option<TimberType> {
    if b == 0 {
        Some(TimberType::Cyprus)
    } else if b == 1 {
        Some(TimberType::Pine)
    } else if b == 2 {
        Some(TimberType::Oak)
    } else if b == 3 {
        Some(TimberType::Cedar)
    } else if b == 4 {
        Some(TimberType::Spruce)
    } else {
        None
    }
}

/// The byte tag under which a timber dimension is stored.
pub open spec fn size_tag(s: TimberSize) -> u8 {
    match s {
        TimberSize::S2x4 => 0,
        TimberSize::S2x6 => 1,
        TimberSize::S2x8 => 2,
        TimberSize::S2x10 => 3,
        TimberSize::S3x2 => 4,
        TimberSize::S3x4 => 5,
        TimberSize::S4x2 => 6,
        TimberSize::S4x4 => 7,
        TimberSize::S4x6 => 8,
        TimberSize::S6x2 => 9,
        TimberSize::S6x4 => 10,
        TimberSize::S8x2 => 11,
        TimberSize::S8x4 => 12,
        TimberSize::S10x2 => 13,
        TimberSize::S10x4 => 14,
    }
}

/// The dimension stored under a byte tag, if any.
pub open spec fn size_of_tag(b: u8) -> Option<TimberSize> {
    if b == 0 {
        Some(TimberSize::S2x4)
    } else if b == 1 {
        Some(TimberSize::S2x6)
    } else if b == 2 {
        Some(TimberSize::S2x8)
    } else if b == 3 {
        Some(TimberSize::S2x10)
    } else if b == 4 {
        Some(TimberSize::S3x2)
    } else if b == 5 {
        Some(TimberSize::S3x4)
    } else if b == 6 {
        Some(TimberSize::S4x2)
    } else if b == 7 {
        Some(TimberSize::S4x4)
    } else if b == 8 {
        Some(TimberSize::S4x6)
    } else if b == 9 {
        Some(TimberSize::S6x2)
    } else if b == 10 {
        Some(TimberSize::S6x4)
    } else if b == 11 {
        Some(TimberSize::S8x2)
    } else if b == 12 {
        Some(TimberSize::S8x4)
    } else if b == 13 {
        Some(TimberSize::S10x2)
    } else if b == 14 {
        Some(TimberSize::S10x4)
    } else {
        None
    }
}

/// The encoding of an optional update timestamp: a presence byte, then the
/// timestamp (zero when absent).
pub open spec fn spec_encode_updated(u: Option<u64>) -> Seq<u8> {
    match u {
        None => seq![0u8] + spec_u64_to_le_bytes(0),
        Some(v) => seq![1u8] + spec_u64_to_le_bytes(v),
    }
}

/// The byte layout of a timber record.
pub open spec fn spec_encode_timber(t: Timber) -> Seq<u8> {
    spec_u64_to_le_bytes(t.id) + seq![type_tag(t.timber_type)] + seq![size_tag(t.timber_size)]
        + spec_u64_to_le_bytes(t.quantity) + spec_u64_to_le_bytes(t.created_at)
        + spec_encode_updated(t.updated_at)
}

/// The byte layout of a sale record.
pub open spec fn spec_encode_sales(s: Sales) -> Seq<u8> {
    spec_u64_to_le_bytes(s.id) + spec_u64_to_le_bytes(s.timber_id) + spec_u64_to_le_bytes(
        s.quantity,
    ) + spec_u64_to_le_bytes(s.price) + spec_u64_to_le_bytes(s.created_at) + spec_encode_updated(
        s.updated_at,
    )
}

/// The record read back from a timber slot, if the bytes are well-formed:
/// exact width, known tags, and a presence byte of zero or one.
pub open spec fn spec_decode_timber(b: Seq<u8>) -> Option<Timber> {
    if b.len() != TIMBER_BYTES {
        None
    } else {
        let ty = type_of_tag(b[8]);
        let sz = size_of_tag(b[9]);
        if ty is None || sz is None || b[26] > 1 {
            None
        } else {
            Some(
                Timber {
                    id: spec_u64_from_le_bytes(b.subrange(0, 8)),
                    timber_type: ty.unwrap(),
                    timber_size: sz.unwrap(),
                    quantity: spec_u64_from_le_bytes(b.subrange(10, 18)),
                    created_at: spec_u64_from_le_bytes(b.subrange(18, 26)),
                    updated_at: if b[26] == 0 {
                        None
                    } else {
                        Some(spec_u64_from_le_bytes(b.subrange(27, 35)))
                    },
                },
            )
        }
    }
}

/// The record read back from a sale slot, if the bytes are well-formed.
pub open spec fn spec_decode_sales(b: Seq<u8>) -> Option<Sales> {
    if b.len() != SALES_BYTES || b[40] > 1 {
        None
    } else {
        Some(
            Sales {
                id: spec_u64_from_le_bytes(b.subrange(0, 8)),
                timber_id: spec_u64_from_le_bytes(b.subrange(8, 16)),
                quantity: spec_u64_from_le_bytes(b.subrange(16, 24)),
                price: spec_u64_from_le_bytes(b.subrange(24, 32)),
                created_at: spec_u64_from_le_bytes(b.subrange(32, 40)),
                updated_at: if b[40] == 0 {
                    None
                } else {
                    Some(spec_u64_from_le_bytes(b.subrange(41, 49)))
                },
            },
        )
    }
}

/// Decoding undoes encoding: every timber record rests in storage under bytes
/// that read back as the record itself, and never exceeds the slot bound.
pub proof fn lemma_timber_round_trip(t: Timber)
    ensures
        spec_encode_timber(t).len() == TIMBER_BYTES,
        TIMBER_BYTES <= MAX_RECORD_BYTES,
        spec_decode_timber(spec_encode_timber(t)) == Some(t),
{
    lemma_auto_spec_u64_to_from_le_bytes();
    let b = spec_encode_timber(t);
    assert(b.subrange(0, 8) =~= spec_u64_to_le_bytes(t.id));
    assert(b[8] == type_tag(t.timber_type));
    assert(b[9] == size_tag(t.timber_size));
    assert(b.subrange(10, 18) =~= spec_u64_to_le_bytes(t.quantity));
    assert(b.subrange(18, 26) =~= spec_u64_to_le_bytes(t.created_at));
    match t.updated_at {
        None => {
            assert(b[26] == 0);
        },
        Some(v) => {
            assert(b[26] == 1);
            assert(b.subrange(27, 35) =~= spec_u64_to_le_bytes(v));
        },
    }
    assert(type_of_tag(type_tag(t.timber_type)) == Some(t.timber_type));
    assert(size_of_tag(size_tag(t.timber_size)) == Some(t.timber_size));
}

/// Decoding undoes encoding for sale records, within the slot bound.
pub proof fn lemma_sales_round_trip(s: Sales)
    ensures
        spec_encode_sales(s).len() == SALES_BYTES,
        SALES_BYTES <= MAX_RECORD_BYTES,
        spec_decode_sales(spec_encode_sales(s)) == Some(s),
{
    lemma_auto_spec_u64_to_from_le_bytes();
    let b = spec_encode_sales(s);
    assert(b.subrange(0, 8) =~= spec_u64_to_le_bytes(s.id));
    assert(b.subrange(8, 16) =~= spec_u64_to_le_bytes(s.timber_id));
    assert(b.subrange(16, 24) =~= spec_u64_to_le_bytes(s.quantity));
    assert(b.subrange(24, 32) =~= spec_u64_to_le_bytes(s.price));
    assert(b.subrange(32, 40) =~= spec_u64_to_le_bytes(s.created_at));
    match s.updated_at {
        None => {
            assert(b[40] == 0);
        },
        Some(v) => {
            assert(b[40] == 1);
            assert(b.subrange(41, 49) =~= spec_u64_to_le_bytes(v));
        },
    }
}

/// Appends the encoding of an optional update timestamp.
fn push_updated(out: &mut Vec<u8>, u: &Option<u64>)
    ensures
        final(out)@ == old(out)@ + spec_encode_updated(*u),
{
    match u {
        None => {
            out.push(0u8);
            let mut z = u64_to_le_bytes(0);
            out.append(&mut z);
        },
        Some(v) => {
            out.push(1u8);
            let mut z = u64_to_le_bytes(*v);
            out.append(&mut z);
        },
    }
    proof {
        lemma_auto_spec_u64_to_from_le_bytes();
        assert(final(out)@ =~= old(out)@ + spec_encode_updated(*u));
    }
}

/// Encodes a timber record into its storage bytes.
pub fn encode_timber(t: &Timber) -> (r: Vec<u8>)
    ensures
        r@ == spec_encode_timber(*t),
        r@.len() == TIMBER_BYTES,
{
    let mut out = u64_to_le_bytes(t.id);
    out.push(timber_type_tag(&t.timber_type));
    out.push(timber_size_tag(&t.timber_size));
    let mut q = u64_to_le_bytes(t.quantity);
    out.append(&mut q);
    let mut c = u64_to_le_bytes(t.created_at);
    out.append(&mut c);
    push_updated(&mut out, &t.updated_at);
    proof {
        lemma_auto_spec_u64_to_from_le_bytes();
        assert(out@ =~= spec_encode_timber(*t));
        lemma_timber_round_trip(*t);
    }
    out
}

/// Encodes a sale record into its storage bytes.
pub fn encode_sales(s: &Sales) -> (r: Vec<u8>)
    ensures
        r@ == spec_encode_sales(*s),
        r@.len() == SALES_BYTES,
{
    let mut out = u64_to_le_bytes(s.id);
    let mut t = u64_to_le_bytes(s.timber_id);
    out.append(&mut t);
    let mut q = u64_to_le_bytes(s.quantity);
    out.append(&mut q);
    let mut p = u64_to_le_bytes(s.price);
    out.append(&mut p);
    let mut c = u64_to_le_bytes(s.created_at);
    out.append(&mut c);
    push_updated(&mut out, &s.updated_at);
    proof {
        lemma_auto_spec_u64_to_from_le_bytes();
        assert(out@ =~= spec_encode_sales(*s));
        lemma_sales_round_trip(*s);
    }
    out
}

/// The executable form of the category tag.
fn timber_type_tag(t: &TimberType) -> (r: u8)
    ensures
        r == type_tag(*t),
{
    match t {
        TimberType::Cyprus => 0,
        TimberType::Pine => 1,
        TimberType::Oak => 2,
        TimberType::Cedar => 3,
        TimberType::Spruce => 4,
    }
}

/// The executable form of the dimension tag.
fn timber_size_tag(s: &TimberSize) -> (r: u8)
    ensures
        r == size_tag(*s),
{
    match s {
        TimberSize::S2x4 => 0,
        TimberSize::S2x6 => 1,
        TimberSize::S2x8 => 2,
        TimberSize::S2x10 => 3,
        TimberSize::S3x2 => 4,
        TimberSize::S3x4 => 5,
        TimberSize::S4x2 => 6,
        TimberSize::S4x4 => 7,
        TimberSize::S4x6 => 8,
        TimberSize::S6x2 => 9,
        TimberSize::S6x4 => 10,
        TimberSize::S8x2 => 11,
        TimberSize::S8x4 => 12,
        TimberSize::S10x2 => 13,
        TimberSize::S10x4 => 14,
    }
}

/// The executable form of the category read from a tag.
fn timber_type_of_tag(b: u8) -> (r: Option<TimberType>)
    ensures
        r == type_of_tag(b),
{
    if b == 0 {
        Some(TimberType::Cyprus)
    } else if b == 1 {
        Some(TimberType::Pine)
    } else if b == 2 {
        Some(TimberType::Oak)
    } else if b == 3 {
        Some(TimberType::Cedar)
    } else if b == 4 {
        Some(TimberType::Spruce)
    } else {
        None
    }
}

/// The executable form of the dimension read from a tag.
fn timber_size_of_tag(b: u8) -> (r: Option<TimberSize>)
    ensures
        r == size_of_tag(b),
{
    if b == 0 {
        Some(TimberSize::S2x4)
    } else if b == 1 {
        Some(TimberSize::S2x6)
    } else if b == 2 {
        Some(TimberSize::S2x8)
    } else if b == 3 {
        Some(TimberSize::S2x10)
    } else if b == 4 {
        Some(TimberSize::S3x2)
    } else if b == 5 {
        Some(TimberSize::S3x4)
    } else if b == 6 {
        Some(TimberSize::S4x2)
    } else if b == 7 {
        Some(TimberSize::S4x4)
    } else if b == 8 {
        Some(TimberSize::S4x6)
    } else if b == 9 {
        Some(TimberSize::S6x2)
    } else if b == 10 {
        Some(TimberSize::S6x4)
    } else if b == 11 {
        Some(TimberSize::S8x2)
    } else if b == 12 {
        Some(TimberSize::S8x4)
    } else if b == 13 {
        Some(TimberSize::S10x2)
    } else if b == 14 {
        Some(TimberSize::S10x4)
    } else {
        None
    }
}

/// Reads the eight bytes starting at `at` back as an integer.
fn read_u64(b: &[u8], at: usize) -> (r: u64)
    requires
        at + 8 <= b@.len(),
    ensures
        r == spec_u64_from_le_bytes(b@.subrange(at as int, at + 8)),
{
    let n: usize = b.len();
    assert(at + 8 <= n);
    let w = vstd::slice::slice_subrange(b, at, at + 8);
    u64_from_le_bytes(w)
}

/// Decodes a timber slot; returns the record the bytes hold, or `None` when
/// they are not a well-formed timber encoding.
pub fn decode_timber(b: &[u8]) -> (r: Option<Timber>)
    ensures
        r == spec_decode_timber(b@),
{
    if b.len() != TIMBER_BYTES {
        return None;
    }
    let ty = timber_type_of_tag(b[8]);
    let sz = timber_size_of_tag(b[9]);
    let flag = b[26];
    match (ty, sz) {
        (Some(ty), Some(sz)) => {
            if flag > 1 {
                return None;
            }
            Some(
                Timber {
                    id: read_u64(b, 0),
                    timber_type: ty,
                    timber_size: sz,
                    quantity: read_u64(b, 10),
                    created_at: read_u64(b, 18),
                    updated_at: if flag == 0 {
                        None
                    } else {
                        Some(read_u64(b, 27))
                    },
                },
            )
        },
        _ => None,
    }
}

/// Decodes a sale slot; returns the record the bytes hold, or `None` when
/// they are not a well-formed sale encoding.
pub fn decode_sales(b: &[u8]) -> (r: Option<Sales>)
    ensures
        r == spec_decode_sales(b@),
{
    if b.len() != SALES_BYTES {
        return None;
    }
    let flag = b[40];
    if flag > 1 {
        return None;
    }
    Some(
        Sales {
            id: read_u64(b, 0),
            timber_id: read_u64(b, 8),
            quantity: read_u64(b, 16),
            price: read_u64(b, 24),
            created_at: read_u64(b, 32),
            updated_at: if flag == 0 {
                None
            } else {
                Some(read_u64(b, 41))
            },
        },
    )
}

} // verus!
