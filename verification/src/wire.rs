//! The binary wire schema of the quote response, and its decoder.
//!
//! The payload is a compact, positional binary encoding: records are arrays
//! of fields in a fixed order, unsigned numbers use the shortest of the
//! one-marker and the 1-, 2-, 4- and 8-byte big-endian forms, text is a
//! length-prefixed UTF-8 string, byte strings come either as a binary blob
//! or as an array of byte-sized numbers, absent optional fields are nil, and
//! the route mapping is a map of string keys to route records in wire order.
//! The `parse_*` spec functions are the schema; each `read_*` function is
//! proved to return exactly what its spec function says, and the decoder
//! fails exactly when the buffer does not match the schema.

use vstd::prelude::*;

use crate::quote::{
    parse_mode_text, AccountMetaData, AccountMetaModel, InstructionData, InstructionModel,
    PlatformFeeData, QuotesModel, RouteModel, RoutePlanStepData, StepModel, SwapMode, SwapQuotes,
    SwapRoute,
};
use crate::ClientError;
use vstd::slice::{slice_subrange, slice_to_vec};
use vstd::utf8::{decode_utf8, valid_utf8};

verus! {

// ---------------------------------------------------------------------------
// Big-endian numbers
// ---------------------------------------------------------------------------

/// The value of a big-endian byte string.
pub open spec fn be_uint(b: Seq<u8>) -> nat
    decreases b.len(),
{
    if b.len() == 0 {
        0
    } else {
        (be_uint(b.drop_last()) * 256 + b.last()) as nat
    }
}

/// 256 to the power n.
pub open spec fn pow256(n: nat) -> nat
    decreases n,
{
    if n == 0 {
        1
    } else {
        256 * pow256((n - 1) as nat)
    }
}

proof fn lemma_be_uint_bound(s: Seq<u8>)
    ensures
        be_uint(s) < pow256(s.len() as nat),
    decreases s.len(),
{
    if s.len() > 0 {
        lemma_be_uint_bound(s.drop_last());
    }
}

proof fn lemma_pow256_le(a: nat, b: nat)
    requires
        a <= b,
    ensures
        pow256(a) <= pow256(b),
    decreases b,
{
    if a < b {
        lemma_pow256_le(a, (b - 1) as nat);
        assert(pow256(b) == 256 * pow256((b - 1) as nat));
    }
}

/// Reads `len` big-endian bytes starting at `start`; fails exactly when the
/// buffer is too short.
fn read_be(b: &Vec<u8>, start: usize, len: usize) -> (r: Option<(u64, usize)>)
    requires
        1 <= len <= 8,
    ensures
        r matches Some((v, j)) ==> start + len <= b@.len() && j == start + len && v as nat
            == be_uint(b@.subrange(start as int, start as int + len as int)),
        r is None ==> start + len > b@.len(),
{
    if b.len() < len || start > b.len() - len {
        return None;
    }
    let mut v: u64 = 0;
    let mut k: usize = 0;
    while k < len
        invariant
            1 <= len <= 8,
            k <= len,
            start + len <= b@.len(),
            b@.len() <= usize::MAX,
            v as nat == be_uint(b@.subrange(start as int, start as int + k as int)),
            (v as nat) < pow256(k as nat),
        decreases len - k,
    {
        proof {
            lemma_pow256_le(k as nat, 7);
            reveal_with_fuel(pow256, 9);
        }
        let ghost prev = b@.subrange(start as int, start as int + k as int);
        v = v * 256 + (b[start + k] as u64);
        proof {
            let cur = b@.subrange(start as int, start as int + (k + 1) as int);
            assert(cur.drop_last() =~= prev);
            assert(cur.last() == b@[start + k]);
        }
        k += 1;
    }
    Some((v, start + len))
}

// ---------------------------------------------------------------------------
// Primitive values
// ---------------------------------------------------------------------------

/// An unsigned number: a one-byte small value or a 1-, 2-, 4- or 8-byte
/// big-endian value behind its width marker.
pub open spec fn parse_uint(b: Seq<u8>, i: int) -> Option<(nat, int)> {
    if !(0 <= i < b.len()) {
        None
    } else {
        let m = b[i];
        if m < 0x80 {
            Some((m as nat, i + 1))
        } else if m == 0xcc && i + 2 <= b.len() {
            Some((be_uint(b.subrange(i + 1, i + 2)), i + 2))
        } else if m == 0xcd && i + 3 <= b.len() {
            Some((be_uint(b.subrange(i + 1, i + 3)), i + 3))
        } else if m == 0xce && i + 5 <= b.len() {
            Some((be_uint(b.subrange(i + 1, i + 5)), i + 5))
        } else if m == 0xcf && i + 9 <= b.len() {
            Some((be_uint(b.subrange(i + 1, i + 9)), i + 9))
        } else {
            None
        }
    }
}

fn read_uint(b: &Vec<u8>, i: usize) -> (r: Option<(u64, usize)>)
    ensures
        r matches Some((v, j)) ==> parse_uint(b@, i as int) == Some((v as nat, j as int)),
        r is None ==> parse_uint(b@, i as int) is None,
{
    if i >= b.len() {
        return None;
    }
    let m = b[i];
    if m < 0x80 {
        Some((m as u64, i + 1))
    } else if m == 0xcc {
        read_be(b, i + 1, 1)
    } else if m == 0xcd {
        read_be(b, i + 1, 2)
    } else if m == 0xce {
        read_be(b, i + 1, 4)
    } else if m == 0xcf {
        read_be(b, i + 1, 8)
    } else {
        None
    }
}

/// An unsigned number that must fit 64 bits; every encoded width does.
pub open spec fn parse_u64(b: Seq<u8>, i: int) -> Option<(u64, int)> {
    match parse_uint(b, i) {
        Some((v, j)) => if v <= u64::MAX {
            Some((v as u64, j))
        } else {
            None
        },
        None => None,
    }
}

fn read_u64(b: &Vec<u8>, i: usize) -> (r: Option<(u64, usize)>)
    ensures
        r matches Some((v, j)) ==> parse_u64(b@, i as int) == Some((v, j as int)),
        r is None ==> parse_u64(b@, i as int) is None,
{
    read_uint(b, i)
}

/// An unsigned number that must fit 32 bits.
pub open spec fn parse_u32(b: Seq<u8>, i: int) -> Option<(u32, int)> {
    match parse_uint(b, i) {
        Some((v, j)) => if v <= u32::MAX {
            Some((v as u32, j))
        } else {
            None
        },
        None => None,
    }
}

fn read_u32(b: &Vec<u8>, i: usize) -> (r: Option<(u32, usize)>)
    ensures
        r matches Some((v, j)) ==> parse_u32(b@, i as int) == Some((v, j as int)),
        r is None ==> parse_u32(b@, i as int) is None,
{
    match read_uint(b, i) {
        Some((v, j)) => if v <= u32::MAX as u64 {
            Some((v as u32, j))
        } else {
            None
        },
        None => None,
    }
}

/// An unsigned number that must fit 16 bits.
pub open spec fn parse_u16(b: Seq<u8>, i: int) -> Option<(u16, int)> {
    match parse_uint(b, i) {
        Some((v, j)) => if v <= u16::MAX {
            Some((v as u16, j))
        } else {
            None
        },
        None => None,
    }
}

fn read_u16(b: &Vec<u8>, i: usize) -> (r: Option<(u16, usize)>)
    ensures
        r matches Some((v, j)) ==> parse_u16(b@, i as int) == Some((v, j as int)),
        r is None ==> parse_u16(b@, i as int) is None,
{
    match read_uint(b, i) {
        Some((v, j)) => if v <= u16::MAX as u64 {
            Some((v as u16, j))
        } else {
            None
        },
        None => None,
    }
}

/// An unsigned number that must fit 8 bits.
pub open spec fn parse_u8(b: Seq<u8>, i: int) -> Option<(u8, int)> {
    match parse_uint(b, i) {
        Some((v, j)) => if v <= u8::MAX {
            Some((v as u8, j))
        } else {
            None
        },
        None => None,
    }
}

fn read_u8(b: &Vec<u8>, i: usize) -> (r: Option<(u8, usize)>)
    ensures
        r matches Some((v, j)) ==> parse_u8(b@, i as int) == Some((v, j as int)),
        r is None ==> parse_u8(b@, i as int) is None,
{
    match read_uint(b, i) {
        Some((v, j)) => if v <= u8::MAX as u64 {
            Some((v as u8, j))
        } else {
            None
        },
        None => None,
    }
}

/// A boolean marker.
pub open spec fn parse_bool(b: Seq<u8>, i: int) -> Option<(bool, int)> {
    if 0 <= i < b.len() && b[i] == 0xc2 {
        Some((false, i + 1))
    } else if 0 <= i < b.len() && b[i] == 0xc3 {
        Some((true, i + 1))
    } else {
        None
    }
}

fn read_bool(b: &Vec<u8>, i: usize) -> (r: Option<(bool, usize)>)
    ensures
        r matches Some((v, j)) ==> parse_bool(b@, i as int) == Some((v, j as int)),
        r is None ==> parse_bool(b@, i as int) is None,
{
    if i >= b.len() {
        return None;
    }
    let m = b[i];
    if m == 0xc2 {
        Some((false, i + 1))
    } else if m == 0xc3 {
        Some((true, i + 1))
    } else {
        None
    }
}

/// Whether position i holds the nil marker, the encoding of an absent
/// optional field.
pub open spec fn at_nil(b: Seq<u8>, i: int) -> bool {
    0 <= i < b.len() && b[i] == 0xc0
}

fn peek_nil(b: &Vec<u8>, i: usize) -> (r: bool)
    ensures
        r == at_nil(b@, i as int),
        b@.len() <= usize::MAX,
{
    let l = b.len();
    i < l && b[i] == 0xc0
}

// ---------------------------------------------------------------------------
// Length headers and raw payloads
// ---------------------------------------------------------------------------

/// The raw bytes `[j, j + n)` of the buffer, when they are all there.
pub open spec fn data_at(b: Seq<u8>, j: int, n: int) -> Option<(Seq<u8>, int)> {
    if j + n <= b.len() {
        Some((b.subrange(j, j + n), j + n))
    } else {
        None
    }
}

fn read_data(b: &Vec<u8>, j: usize, n: u64) -> (r: Option<(Vec<u8>, usize)>)
    ensures
        r matches Some((v, k)) ==> data_at(b@, j as int, n as int) == Some((v@, k as int)),
        r is None ==> data_at(b@, j as int, n as int) is None,
{
    if n > b.len() as u64 {
        return None;
    }
    let n = n as usize;
    if j > b.len() - n {
        return None;
    }
    let out = slice_to_vec(slice_subrange(b.as_slice(), j, j + n));
    Some((out, j + n))
}

/// A length-prefixed text payload: a short form with the length in the
/// marker, or a 1-, 2- or 4-byte big-endian length behind its marker.
pub open spec fn parse_str_bytes(b: Seq<u8>, i: int) -> Option<(Seq<u8>, int)> {
    if !(0 <= i < b.len()) {
        None
    } else {
        let m = b[i];
        if 0xa0 <= m <= 0xbf {
            data_at(b, i + 1, m - 0xa0)
        } else if m == 0xd9 && i + 2 <= b.len() {
            data_at(b, i + 2, be_uint(b.subrange(i + 1, i + 2)) as int)
        } else if m == 0xda && i + 3 <= b.len() {
            data_at(b, i + 3, be_uint(b.subrange(i + 1, i + 3)) as int)
        } else if m == 0xdb && i + 5 <= b.len() {
            data_at(b, i + 5, be_uint(b.subrange(i + 1, i + 5)) as int)
        } else {
            None
        }
    }
}

fn read_str_bytes(b: &Vec<u8>, i: usize) -> (r: Option<(Vec<u8>, usize)>)
    ensures
        r matches Some((v, j)) ==> parse_str_bytes(b@, i as int) == Some((v@, j as int)),
        r is None ==> parse_str_bytes(b@, i as int) is None,
{
    if i >= b.len() {
        return None;
    }
    let m = b[i];
    if 0xa0 <= m && m <= 0xbf {
        read_data(b, i + 1, (m - 0xa0) as u64)
    } else if m == 0xd9 {
        match read_be(b, i + 1, 1) {
            Some((n, j)) => read_data(b, j, n),
            None => None,
        }
    } else if m == 0xda {
        match read_be(b, i + 1, 2) {
            Some((n, j)) => read_data(b, j, n),
            None => None,
        }
    } else if m == 0xdb {
        match read_be(b, i + 1, 4) {
            Some((n, j)) => read_data(b, j, n),
            None => None,
        }
    } else {
        None
    }
}

/// A text value: a length-prefixed payload that must be valid UTF-8; its
/// value is the decoded character sequence.
pub open spec fn parse_string(b: Seq<u8>, i: int) -> Option<(Seq<char>, int)> {
    match parse_str_bytes(b, i) {
        Some((bs, j)) => if valid_utf8(bs) {
            Some((decode_utf8(bs), j))
        } else {
            None
        },
        None => None,
    }
}

/// Relies on String::from_utf8: succeeds exactly on valid UTF-8 input, and
/// the returned string holds those bytes' decoded characters.
#[verifier::external_body]
fn string_from_utf8(bytes: Vec<u8>) -> (r: Option<String>)
    ensures
        r matches Some(s) ==> valid_utf8(bytes@) && s@ == decode_utf8(bytes@),
        r is None ==> !valid_utf8(bytes@),
{
    String::from_utf8(bytes).ok()
}

fn read_string(b: &Vec<u8>, i: usize) -> (r: Option<(String, usize)>)
    ensures
        r matches Some((s, j)) ==> parse_string(b@, i as int) == Some((s@, j as int)),
        r is None ==> parse_string(b@, i as int) is None,
{
    match read_str_bytes(b, i) {
        Some((bytes, j)) => match string_from_utf8(bytes) {
            Some(s) => Some((s, j)),
            None => None,
        },
        None => None,
    }
}

/// A binary blob: a 1-, 2- or 4-byte big-endian length behind its marker,
/// then the raw bytes.
pub open spec fn parse_bin(b: Seq<u8>, i: int) -> Option<(Seq<u8>, int)> {
    if !(0 <= i < b.len()) {
        None
    } else {
        let m = b[i];
        if m == 0xc4 && i + 2 <= b.len() {
            data_at(b, i + 2, be_uint(b.subrange(i + 1, i + 2)) as int)
        } else if m == 0xc5 && i + 3 <= b.len() {
            data_at(b, i + 3, be_uint(b.subrange(i + 1, i + 3)) as int)
        } else if m == 0xc6 && i + 5 <= b.len() {
            data_at(b, i + 5, be_uint(b.subrange(i + 1, i + 5)) as int)
        } else {
            None
        }
    }
}

/// An array header: the element count, in the marker or behind it.
pub open spec fn parse_array_len(b: Seq<u8>, i: int) -> Option<(nat, int)> {
    if !(0 <= i < b.len()) {
        None
    } else {
        let m = b[i];
        if 0x90 <= m <= 0x9f {
            Some(((m - 0x90) as nat, i + 1))
        } else if m == 0xdc && i + 3 <= b.len() {
            Some((be_uint(b.subrange(i + 1, i + 3)), i + 3))
        } else if m == 0xdd && i + 5 <= b.len() {
            Some((be_uint(b.subrange(i + 1, i + 5)), i + 5))
        } else {
            None
        }
    }
}

fn read_array_len(b: &Vec<u8>, i: usize) -> (r: Option<(u64, usize)>)
    ensures
        r matches Some((n, j)) ==> parse_array_len(b@, i as int) == Some((n as nat, j as int)),
        r is None ==> parse_array_len(b@, i as int) is None,
{
    if i >= b.len() {
        return None;
    }
    let m = b[i];
    if 0x90 <= m && m <= 0x9f {
        Some(((m - 0x90) as u64, i + 1))
    } else if m == 0xdc {
        read_be(b, i + 1, 2)
    } else if m == 0xdd {
        read_be(b, i + 1, 4)
    } else {
        None
    }
}

/// A map header: the entry count, in the marker or behind it.
pub open spec fn parse_map_len(b: Seq<u8>, i: int) -> Option<(nat, int)> {
    if !(0 <= i < b.len()) {
        None
    } else {
        let m = b[i];
        if 0x80 <= m <= 0x8f {
            Some(((m - 0x80) as nat, i + 1))
        } else if m == 0xde && i + 3 <= b.len() {
            Some((be_uint(b.subrange(i + 1, i + 3)), i + 3))
        } else if m == 0xdf && i + 5 <= b.len() {
            Some((be_uint(b.subrange(i + 1, i + 5)), i + 5))
        } else {
            None
        }
    }
}

fn read_map_len(b: &Vec<u8>, i: usize) -> (r: Option<(u64, usize)>)
    ensures
        r matches Some((n, j)) ==> parse_map_len(b@, i as int) == Some((n as nat, j as int)),
        r is None ==> parse_map_len(b@, i as int) is None,
{
    if i >= b.len() {
        return None;
    }
    let m = b[i];
    if 0x80 <= m && m <= 0x8f {
        Some(((m - 0x80) as u64, i + 1))
    } else if m == 0xde {
        read_be(b, i + 1, 2)
    } else if m == 0xdf {
        read_be(b, i + 1, 4)
    } else {
        None
    }
}

// ---------------------------------------------------------------------------
// Sequences of values
// ---------------------------------------------------------------------------

/// Prepends a prefix to the sequence of a parse result.
pub open spec fn opt_prepend<T>(pre: Seq<T>, r: Option<(Seq<T>, int)>) -> Option<(Seq<T>, int)> {
    match r {
        Some((s, j)) => Some((pre + s, j)),
        None => None,
    }
}

/// n byte-sized numbers in a row.
pub open spec fn parse_byte_elems(b: Seq<u8>, i: int, n: nat) -> Option<(Seq<u8>, int)>
    decreases n,
{
    if n == 0 {
        Some((Seq::empty(), i))
    } else {
        match parse_u8(b, i) {
            Some((v, j)) => opt_prepend(seq![v], parse_byte_elems(b, j, (n - 1) as nat)),
            None => None,
        }
    }
}

fn read_byte_elems(b: &Vec<u8>, i: usize, n: u64) -> (r: Option<(Vec<u8>, usize)>)
    ensures
        r matches Some((v, j)) ==> parse_byte_elems(b@, i as int, n as nat) == Some((
            v@,
            j as int,
        )),
        r is None ==> parse_byte_elems(b@, i as int, n as nat) is None,
{
    let mut out: Vec<u8> = Vec::new();
    let mut pos = i;
    let mut k: u64 = 0;
    while k < n
        invariant
            k <= n,
            parse_byte_elems(b@, i as int, n as nat) == opt_prepend(
                out@,
                parse_byte_elems(b@, pos as int, (n - k) as nat),
            ),
        decreases n - k,
    {
        match read_u8(b, pos) {
            Some((v, j2)) => {
                proof {
                    let rest = parse_byte_elems(b@, j2 as int, (n - k - 1) as nat);
                    match rest {
                        Some((sfx, _jj)) => {
                            assert(out@ + (seq![v] + sfx) =~= out@.push(v) + sfx);
                        },
                        None => {},
                    }
                }
                out.push(v);
                pos = j2;
                k = k + 1;
            },
            None => {
                return None;
            },
        }
    }
    proof {
        assert(out@ + Seq::<u8>::empty() =~= out@);
    }
    Some((out, pos))
}

/// A byte string: a binary blob, or an array of byte-sized numbers.
pub open spec fn parse_byte_buf(b: Seq<u8>, i: int) -> Option<(Seq<u8>, int)> {
    if !(0 <= i < b.len()) {
        None
    } else if b[i] == 0xc4 || b[i] == 0xc5 || b[i] == 0xc6 {
        parse_bin(b, i)
    } else {
        match parse_array_len(b, i) {
            Some((n, j)) => parse_byte_elems(b, j, n),
            None => None,
        }
    }
}

fn read_bin(b: &Vec<u8>, i: usize) -> (r: Option<(Vec<u8>, usize)>)
    ensures
        r matches Some((v, j)) ==> parse_bin(b@, i as int) == Some((v@, j as int)),
        r is None ==> parse_bin(b@, i as int) is None,
{
    if i >= b.len() {
        return None;
    }
    let m = b[i];
    if m == 0xc4 {
        match read_be(b, i + 1, 1) {
            Some((n, j)) => read_data(b, j, n),
            None => None,
        }
    } else if m == 0xc5 {
        match read_be(b, i + 1, 2) {
            Some((n, j)) => read_data(b, j, n),
            None => None,
        }
    } else if m == 0xc6 {
        match read_be(b, i + 1, 4) {
            Some((n, j)) => read_data(b, j, n),
            None => None,
        }
    } else {
        None
    }
}

fn read_byte_buf(b: &Vec<u8>, i: usize) -> (r: Option<(Vec<u8>, usize)>)
    ensures
        r matches Some((v, j)) ==> parse_byte_buf(b@, i as int) == Some((v@, j as int)),
        r is None ==> parse_byte_buf(b@, i as int) is None,
{
    if i >= b.len() {
        return None;
    }
    let m = b[i];
    if m == 0xc4 || m == 0xc5 || m == 0xc6 {
        read_bin(b, i)
    } else {
        match read_array_len(b, i) {
            Some((n, j)) => read_byte_elems(b, j, n),
            None => None,
        }
    }
}

/// A 32-byte address: a byte string of exactly 32 bytes.
pub open spec fn parse_addr(b: Seq<u8>, i: int) -> Option<(Seq<u8>, int)> {
    match parse_byte_buf(b, i) {
        Some((bs, j)) => if bs.len() == 32 {
            Some((bs, j))
        } else {
            None
        },
        None => None,
    }
}

fn vec_to_array32(v: &Vec<u8>) -> (r: [u8; 32])
    requires
        v@.len() == 32,
    ensures
        r@ == v@,
{
    let mut arr = [0u8; 32];
    let mut t: usize = 0;
    while t < 32
        invariant
            t <= 32,
            v@.len() == 32,
            forall|q: int| 0 <= q < t ==> arr@[q] == v@[q],
        decreases 32 - t,
    {
        arr[t] = v[t];
        t += 1;
    }
    proof {
        assert(arr@ =~= v@);
    }
    arr
}

fn read_addr(b: &Vec<u8>, i: usize) -> (r: Option<([u8; 32], usize)>)
    ensures
        r matches Some((a, j)) ==> parse_addr(b@, i as int) == Some((a@, j as int)),
        r is None ==> parse_addr(b@, i as int) is None,
{
    match read_byte_buf(b, i) {
        Some((v, j)) => if v.len() == 32 {
            Some((vec_to_array32(&v), j))
        } else {
            None
        },
        None => None,
    }
}

// ---------------------------------------------------------------------------
// Optional fields
// ---------------------------------------------------------------------------

/// An optional number: nil, or the number.
pub open spec fn parse_opt_u64(b: Seq<u8>, i: int) -> Option<(Option<u64>, int)> {
    if at_nil(b, i) {
        Some((None, i + 1))
    } else {
        match parse_u64(b, i) {
            Some((v, j)) => Some((Some(v), j)),
            None => None,
        }
    }
}

fn read_opt_u64(b: &Vec<u8>, i: usize) -> (r: Option<(Option<u64>, usize)>)
    ensures
        r matches Some((v, j)) ==> parse_opt_u64(b@, i as int) == Some((v, j as int)),
        r is None ==> parse_opt_u64(b@, i as int) is None,
{
    if peek_nil(b, i) {
        Some((None, i + 1))
    } else {
        match read_u64(b, i) {
            Some((v, j)) => Some((Some(v), j)),
            None => None,
        }
    }
}

/// An optional address: nil, or the address bytes.
pub open spec fn parse_opt_addr(b: Seq<u8>, i: int) -> Option<(Option<Seq<u8>>, int)> {
    if at_nil(b, i) {
        Some((None, i + 1))
    } else {
        match parse_addr(b, i) {
            Some((a, j)) => Some((Some(a), j)),
            None => None,
        }
    }
}

fn read_opt_addr(b: &Vec<u8>, i: usize) -> (r: Option<(Option<[u8; 32]>, usize)>)
    ensures
        r matches Some((a, j)) ==> parse_opt_addr(b@, i as int) == Some((
            crate::quote::opt_bytes32_view(a),
            j as int,
        )),
        r is None ==> parse_opt_addr(b@, i as int) is None,
{
    if peek_nil(b, i) {
        Some((None, i + 1))
    } else {
        match read_addr(b, i) {
            Some((a, j)) => Some((Some(a), j)),
            None => None,
        }
    }
}

/// An optional byte string: nil, or the bytes.
pub open spec fn parse_opt_bytes(b: Seq<u8>, i: int) -> Option<(Option<Seq<u8>>, int)> {
    if at_nil(b, i) {
        Some((None, i + 1))
    } else {
        match parse_byte_buf(b, i) {
            Some((v, j)) => Some((Some(v), j)),
            None => None,
        }
    }
}

fn read_opt_bytes(b: &Vec<u8>, i: usize) -> (r: Option<(Option<Vec<u8>>, usize)>)
    ensures
        r matches Some((v, j)) ==> parse_opt_bytes(b@, i as int) == Some((
            crate::quote::opt_vec_view(v),
            j as int,
        )),
        r is None ==> parse_opt_bytes(b@, i as int) is None,
{
    if peek_nil(b, i) {
        Some((None, i + 1))
    } else {
        match read_byte_buf(b, i) {
            Some((v, j)) => Some((Some(v), j)),
            None => None,
        }
    }
}

/// An optional text value: nil, or the string.
pub open spec fn parse_opt_string(b: Seq<u8>, i: int) -> Option<(Option<Seq<char>>, int)> {
    if at_nil(b, i) {
        Some((None, i + 1))
    } else {
        match parse_string(b, i) {
            Some((v, j)) => Some((Some(v), j)),
            None => None,
        }
    }
}

fn read_opt_string(b: &Vec<u8>, i: usize) -> (r: Option<(Option<String>, usize)>)
    ensures
        r matches Some((v, j)) ==> parse_opt_string(b@, i as int) == Some((
            crate::quote::opt_string_view(v),
            j as int,
        )),
        r is None ==> parse_opt_string(b@, i as int) is None,
{
    if peek_nil(b, i) {
        Some((None, i + 1))
    } else {
        match read_string(b, i) {
            Some((v, j)) => Some((Some(v), j)),
            None => None,
        }
    }
}

// ---------------------------------------------------------------------------
// Records
// ---------------------------------------------------------------------------

/// A platform fee record: an array of the amount and the fee basis points.
pub open spec fn parse_platform_fee(b: Seq<u8>, i: int) -> Option<(PlatformFeeData, int)> {
    match parse_array_len(b, i) {
        Some((n, j)) => if n != 2 {
            None
        } else {
            match parse_u64(b, j) {
                Some((amount, j1)) => match parse_u8(b, j1) {
                    Some((fee_bps, j2)) => Some((PlatformFeeData { amount, fee_bps }, j2)),
                    None => None,
                },
                None => None,
            }
        },
        None => None,
    }
}

fn read_platform_fee(b: &Vec<u8>, i: usize) -> (r: Option<(PlatformFeeData, usize)>)
    ensures
        r matches Some((f, j)) ==> parse_platform_fee(b@, i as int) == Some((f, j as int)),
        r is None ==> parse_platform_fee(b@, i as int) is None,
{
    match read_array_len(b, i) {
        Some((n, j)) => if n != 2 {
            None
        } else {
            match read_u64(b, j) {
                Some((amount, j1)) => match read_u8(b, j1) {
                    Some((fee_bps, j2)) => Some((PlatformFeeData { amount, fee_bps }, j2)),
                    None => None,
                },
                None => None,
            }
        },
        None => None,
    }
}

/// An optional platform fee: nil, or the record.
pub open spec fn parse_opt_fee(b: Seq<u8>, i: int) -> Option<(Option<PlatformFeeData>, int)> {
    if at_nil(b, i) {
        Some((None, i + 1))
    } else {
        match parse_platform_fee(b, i) {
            Some((f, j)) => Some((Some(f), j)),
            None => None,
        }
    }
}

fn read_opt_fee(b: &Vec<u8>, i: usize) -> (r: Option<(Option<PlatformFeeData>, usize)>)
    ensures
        r matches Some((f, j)) ==> parse_opt_fee(b@, i as int) == Some((f, j as int)),
        r is None ==> parse_opt_fee(b@, i as int) is None,
{
    if peek_nil(b, i) {
        Some((None, i + 1))
    } else {
        match read_platform_fee(b, i) {
            Some((f, j)) => Some((Some(f), j)),
            None => None,
        }
    }
}

/// An account reference record: address, signer flag, writable flag.
pub open spec fn parse_account_meta(b: Seq<u8>, i: int) -> Option<(AccountMetaModel, int)> {
    match parse_array_len(b, i) {
        Some((n, j)) => if n != 3 {
            None
        } else {
            match parse_addr(b, j) {
                Some((p, j1)) => match parse_bool(b, j1) {
                    Some((s, j2)) => match parse_bool(b, j2) {
                        Some((w, j3)) => Some((AccountMetaModel { p, s, w }, j3)),
                        None => None,
                    },
                    None => None,
                },
                None => None,
            }
        },
        None => None,
    }
}

fn read_account_meta(b: &Vec<u8>, i: usize) -> (r: Option<(AccountMetaData, usize)>)
    ensures
        r matches Some((m, j)) ==> parse_account_meta(b@, i as int) == Some((m@, j as int)),
        r is None ==> parse_account_meta(b@, i as int) is None,
{
    match read_array_len(b, i) {
        Some((n, j)) => if n != 3 {
            None
        } else {
            match read_addr(b, j) {
                Some((p, j1)) => match read_bool(b, j1) {
                    Some((s, j2)) => match read_bool(b, j2) {
                        Some((w, j3)) => Some((AccountMetaData { p, s, w }, j3)),
                        None => None,
                    },
                    None => None,
                },
                None => None,
            }
        },
        None => None,
    }
}

/// n account reference records in a row.
pub open spec fn parse_account_metas(b: Seq<u8>, i: int, n: nat) -> Option<(
    Seq<AccountMetaModel>,
    int,
)>
    decreases n,
{
    if n == 0 {
        Some((Seq::empty(), i))
    } else {
        match parse_account_meta(b, i) {
            Some((m, j)) => opt_prepend(seq![m], parse_account_metas(b, j, (n - 1) as nat)),
            None => None,
        }
    }
}

fn read_account_metas(b: &Vec<u8>, i: usize, n: u64) -> (r: Option<(Vec<AccountMetaData>, usize)>)
    ensures
        r matches Some((v, j)) ==> parse_account_metas(b@, i as int, n as nat) == Some((
            v@.map_values(|m: AccountMetaData| m@),
            j as int,
        )),
        r is None ==> parse_account_metas(b@, i as int, n as nat) is None,
{
    let mut out: Vec<AccountMetaData> = Vec::new();
    let mut pos = i;
    let mut k: u64 = 0;
    while k < n
        invariant
            k <= n,
            parse_account_metas(b@, i as int, n as nat) == opt_prepend(
                out@.map_values(|m: AccountMetaData| m@),
                parse_account_metas(b@, pos as int, (n - k) as nat),
            ),
        decreases n - k,
    {
        match read_account_meta(b, pos) {
            Some((item, j2)) => {
                proof {
                    let f = |m: AccountMetaData| m@;
                    let rest = parse_account_metas(b@, j2 as int, (n - k - 1) as nat);
                    assert(out@.push(item).map_values(f) =~= out@.map_values(f).push(item@));
                    match rest {
                        Some((sfx, _jj)) => {
                            assert(out@.map_values(f) + (seq![item@] + sfx) =~= out@.map_values(
                                f,
                            ).push(item@) + sfx);
                        },
                        None => {},
                    }
                }
                out.push(item);
                pos = j2;
                k = k + 1;
            },
            None => {
                return None;
            },
        }
    }
    proof {
        assert(out@.map_values(|m: AccountMetaData| m@) + Seq::<AccountMetaModel>::empty()
            =~= out@.map_values(|m: AccountMetaData| m@));
    }
    Some((out, pos))
}

/// A low-level instruction record: program address, account references,
/// opaque data bytes.
pub open spec fn parse_instruction(b: Seq<u8>, i: int) -> Option<(InstructionModel, int)> {
    match parse_array_len(b, i) {
        Some((n, j)) => if n != 3 {
            None
        } else {
            match parse_addr(b, j) {
                Some((p, j1)) => match parse_array_len(b, j1) {
                    Some((an, j2)) => match parse_account_metas(b, j2, an) {
                        Some((a, j3)) => match parse_byte_buf(b, j3) {
                            Some((d, j4)) => Some((InstructionModel { p, a, d }, j4)),
                            None => None,
                        },
                        None => None,
                    },
                    None => None,
                },
                None => None,
            }
        },
        None => None,
    }
}

fn read_instruction(b: &Vec<u8>, i: usize) -> (r: Option<(InstructionData, usize)>)
    ensures
        r matches Some((d, j)) ==> parse_instruction(b@, i as int) == Some((d@, j as int)),
        r is None ==> parse_instruction(b@, i as int) is None,
{
    match read_array_len(b, i) {
        Some((n, j)) => if n != 3 {
            None
        } else {
            match read_addr(b, j) {
                Some((p, j1)) => match read_array_len(b, j1) {
                    Some((an, j2)) => match read_account_metas(b, j2, an) {
                        Some((a, j3)) => match read_byte_buf(b, j3) {
                            Some((d, j4)) => Some((InstructionData { p, a, d }, j4)),
                            None => None,
                        },
                        None => None,
                    },
                    None => None,
                },
                None => None,
            }
        },
        None => None,
    }
}

/// n instruction records in a row.
pub open spec fn parse_instructions(b: Seq<u8>, i: int, n: nat) -> Option<(
    Seq<InstructionModel>,
    int,
)>
    decreases n,
{
    if n == 0 {
        Some((Seq::empty(), i))
    } else {
        match parse_instruction(b, i) {
            Some((d, j)) => opt_prepend(seq![d], parse_instructions(b, j, (n - 1) as nat)),
            None => None,
        }
    }
}

fn read_instructions(b: &Vec<u8>, i: usize, n: u64) -> (r: Option<(Vec<InstructionData>, usize)>)
    ensures
        r matches Some((v, j)) ==> parse_instructions(b@, i as int, n as nat) == Some((
            v@.map_values(|d: InstructionData| d@),
            j as int,
        )),
        r is None ==> parse_instructions(b@, i as int, n as nat) is None,
{
    let mut out: Vec<InstructionData> = Vec::new();
    let mut pos = i;
    let mut k: u64 = 0;
    while k < n
        invariant
            k <= n,
            parse_instructions(b@, i as int, n as nat) == opt_prepend(
                out@.map_values(|d: InstructionData| d@),
                parse_instructions(b@, pos as int, (n - k) as nat),
            ),
        decreases n - k,
    {
        match read_instruction(b, pos) {
            Some((item, j2)) => {
                proof {
                    let f = |d: InstructionData| d@;
                    let rest = parse_instructions(b@, j2 as int, (n - k - 1) as nat);
                    assert(out@.push(item).map_values(f) =~= out@.map_values(f).push(item@));
                    match rest {
                        Some((sfx, _jj)) => {
                            assert(out@.map_values(f) + (seq![item@] + sfx) =~= out@.map_values(
                                f,
                            ).push(item@) + sfx);
                        },
                        None => {},
                    }
                }
                out.push(item);
                pos = j2;
                k = k + 1;
            },
            None => {
                return None;
            },
        }
    }
    proof {
        assert(out@.map_values(|d: InstructionData| d@) + Seq::<InstructionModel>::empty()
            =~= out@.map_values(|d: InstructionData| d@));
    }
    Some((out, pos))
}

/// A route hop record: its ten fields in order, the last three optional.
pub open spec fn parse_step(b: Seq<u8>, i: int) -> Option<(StepModel, int)> {
    match parse_array_len(b, i) {
        Some((n, j)) => if n != 10 {
            None
        } else {
            match parse_addr(b, j) {
                Some((amm_key, j1)) => match parse_string(b, j1) {
                    Some((label, j2)) => match parse_addr(b, j2) {
                        Some((input_mint, j3)) => match parse_addr(b, j3) {
                            Some((output_mint, j4)) => match parse_u64(b, j4) {
                                Some((in_amount, j5)) => match parse_u64(b, j5) {
                                    Some((out_amount, j6)) => match parse_u32(b, j6) {
                                        Some((alloc_ppb, j7)) => match parse_opt_addr(b, j7) {
                                            Some((fee_mint, j8)) => match parse_opt_u64(b, j8) {
                                                Some((fee_amount, j9)) => match parse_opt_u64(
                                                    b,
                                                    j9,
                                                ) {
                                                    Some((context_slot, j10)) => Some((
                                                        StepModel {
                                                            amm_key,
                                                            label,
                                                            input_mint,
                                                            output_mint,
                                                            in_amount,
                                                            out_amount,
                                                            alloc_ppb,
                                                            fee_mint,
                                                            fee_amount,
                                                            context_slot,
                                                        },
                                                        j10,
                                                    )),
                                                    None => None,
                                                },
                                                None => None,
                                            },
                                            None => None,
                                        },
                                        None => None,
                                    },
                                    None => None,
                                },
                                None => None,
                            },
                            None => None,
                        },
                        None => None,
                    },
                    None => None,
                },
                None => None,
            }
        },
        None => None,
    }
}

fn read_step(b: &Vec<u8>, i: usize) -> (r: Option<(RoutePlanStepData, usize)>)
    ensures
        r matches Some((d, j)) ==> parse_step(b@, i as int) == Some((d@, j as int)),
        r is None ==> parse_step(b@, i as int) is None,
{
    match read_array_len(b, i) {
        Some((n, j)) => if n != 10 {
            None
        } else {
            match read_addr(b, j) {
                Some((amm_key, j1)) => match read_string(b, j1) {
                    Some((label, j2)) => match read_addr(b, j2) {
                        Some((input_mint, j3)) => match read_addr(b, j3) {
                            Some((output_mint, j4)) => match read_u64(b, j4) {
                                Some((in_amount, j5)) => match read_u64(b, j5) {
                                    Some((out_amount, j6)) => match read_u32(b, j6) {
                                        Some((alloc_ppb, j7)) => match read_opt_addr(b, j7) {
                                            Some((fee_mint, j8)) => match read_opt_u64(b, j8) {
                                                Some((fee_amount, j9)) => match read_opt_u64(
                                                    b,
                                                    j9,
                                                ) {
                                                    Some((context_slot, j10)) => Some((
                                                        RoutePlanStepData {
                                                            amm_key,
                                                            label,
                                                            input_mint,
                                                            output_mint,
                                                            in_amount,
                                                            out_amount,
                                                            alloc_ppb,
                                                            fee_mint,
                                                            fee_amount,
                                                            context_slot,
                                                        },
                                                        j10,
                                                    )),
                                                    None => None,
                                                },
                                                None => None,
                                            },
                                            None => None,
                                        },
                                        None => None,
                                    },
                                    None => None,
                                },
                                None => None,
                            },
                            None => None,
                        },
                        None => None,
                    },
                    None => None,
                },
                None => None,
            }
        },
        None => None,
    }
}

/// n route hop records in a row.
pub open spec fn parse_steps(b: Seq<u8>, i: int, n: nat) -> Option<(Seq<StepModel>, int)>
    decreases n,
{
    if n == 0 {
        Some((Seq::empty(), i))
    } else {
        match parse_step(b, i) {
            Some((d, j)) => opt_prepend(seq![d], parse_steps(b, j, (n - 1) as nat)),
            None => None,
        }
    }
}

fn read_steps(b: &Vec<u8>, i: usize, n: u64) -> (r: Option<(Vec<RoutePlanStepData>, usize)>)
    ensures
        r matches Some((v, j)) ==> parse_steps(b@, i as int, n as nat) == Some((
            v@.map_values(|d: RoutePlanStepData| d@),
            j as int,
        )),
        r is None ==> parse_steps(b@, i as int, n as nat) is None,
{
    let mut out: Vec<RoutePlanStepData> = Vec::new();
    let mut pos = i;
    let mut k: u64 = 0;
    while k < n
        invariant
            k <= n,
            parse_steps(b@, i as int, n as nat) == opt_prepend(
                out@.map_values(|d: RoutePlanStepData| d@),
                parse_steps(b@, pos as int, (n - k) as nat),
            ),
        decreases n - k,
    {
        match read_step(b, pos) {
            Some((item, j2)) => {
                proof {
                    let f = |d: RoutePlanStepData| d@;
                    let rest = parse_steps(b@, j2 as int, (n - k - 1) as nat);
                    assert(out@.push(item).map_values(f) =~= out@.map_values(f).push(item@));
                    match rest {
                        Some((sfx, _jj)) => {
                            assert(out@.map_values(f) + (seq![item@] + sfx) =~= out@.map_values(
                                f,
                            ).push(item@) + sfx);
                        },
                        None => {},
                    }
                }
                out.push(item);
                pos = j2;
                k = k + 1;
            },
            None => {
                return None;
            },
        }
    }
    proof {
        assert(out@.map_values(|d: RoutePlanStepData| d@) + Seq::<StepModel>::empty()
            =~= out@.map_values(|d: RoutePlanStepData| d@));
    }
    Some((out, pos))
}

/// n 32-byte addresses in a row.
pub open spec fn parse_addrs(b: Seq<u8>, i: int, n: nat) -> Option<(Seq<Seq<u8>>, int)>
    decreases n,
{
    if n == 0 {
        Some((Seq::empty(), i))
    } else {
        match parse_addr(b, i) {
            Some((a, j)) => opt_prepend(seq![a], parse_addrs(b, j, (n - 1) as nat)),
            None => None,
        }
    }
}

fn read_addrs(b: &Vec<u8>, i: usize, n: u64) -> (r: Option<(Vec<[u8; 32]>, usize)>)
    ensures
        r matches Some((v, j)) ==> parse_addrs(b@, i as int, n as nat) == Some((
            v@.map_values(|a: [u8; 32]| a@),
            j as int,
        )),
        r is None ==> parse_addrs(b@, i as int, n as nat) is None,
{
    let mut out: Vec<[u8; 32]> = Vec::new();
    let mut pos = i;
    let mut k: u64 = 0;
    while k < n
        invariant
            k <= n,
            parse_addrs(b@, i as int, n as nat) == opt_prepend(
                out@.map_values(|a: [u8; 32]| a@),
                parse_addrs(b@, pos as int, (n - k) as nat),
            ),
        decreases n - k,
    {
        match read_addr(b, pos) {
            Some((item, j2)) => {
                proof {
                    let f = |a: [u8; 32]| a@;
                    let rest = parse_addrs(b@, j2 as int, (n - k - 1) as nat);
                    assert(out@.push(item).map_values(f) =~= out@.map_values(f).push(item@));
                    match rest {
                        Some((sfx, _jj)) => {
                            assert(out@.map_values(f) + (seq![item@] + sfx) =~= out@.map_values(
                                f,
                            ).push(item@) + sfx);
                        },
                        None => {},
                    }
                }
                out.push(item);
                pos = j2;
                k = k + 1;
            },
            None => {
                return None;
            },
        }
    }
    proof {
        assert(out@.map_values(|a: [u8; 32]| a@) + Seq::<Seq<u8>>::empty() =~= out@.map_values(
            |a: [u8; 32]| a@,
        ));
    }
    Some((out, pos))
}

// ---------------------------------------------------------------------------
// Routes and the response
// ---------------------------------------------------------------------------

/// The three list-valued fields of a route: hops, instructions, lookup-table
/// addresses, each an array header followed by its records.
pub open spec fn parse_route_lists(b: Seq<u8>, i: int) -> Option<(
    (Seq<StepModel>, Seq<InstructionModel>, Seq<Seq<u8>>),
    int,
)> {
    match parse_array_len(b, i) {
        Some((sn, j)) => match parse_steps(b, j, sn) {
            Some((steps, j1)) => match parse_array_len(b, j1) {
                Some((dn, j2)) => match parse_instructions(b, j2, dn) {
                    Some((instructions, j3)) => match parse_array_len(b, j3) {
                        Some((an, j4)) => match parse_addrs(b, j4, an) {
                            Some((alts, j5)) => Some(((steps, instructions, alts), j5)),
                            None => None,
                        },
                        None => None,
                    },
                    None => None,
                },
                None => None,
            },
            None => None,
        },
        None => None,
    }
}

fn read_route_lists(b: &Vec<u8>, i: usize) -> (r: Option<(
    (Vec<RoutePlanStepData>, Vec<InstructionData>, Vec<[u8; 32]>),
    usize,
)>)
    ensures
        r matches Some((lists, j)) ==> parse_route_lists(b@, i as int) == Some((
            (
                lists.0@.map_values(|d: RoutePlanStepData| d@),
                lists.1@.map_values(|d: InstructionData| d@),
                lists.2@.map_values(|a: [u8; 32]| a@),
            ),
            j as int,
        )),
        r is None ==> parse_route_lists(b@, i as int) is None,
{
    match read_array_len(b, i) {
        Some((sn, j)) => match read_steps(b, j, sn) {
            Some((steps, j1)) => match read_array_len(b, j1) {
                Some((dn, j2)) => match read_instructions(b, j2, dn) {
                    Some((instructions, j3)) => match read_array_len(b, j3) {
                        Some((an, j4)) => match read_addrs(b, j4, an) {
                            Some((alts, j5)) => Some(((steps, instructions, alts), j5)),
                            None => None,
                        },
                        None => None,
                    },
                    None => None,
                },
                None => None,
            },
            None => None,
        },
        None => None,
    }
}

/// The eight trailing metadata fields of a route, all optional: context
/// slot, elapsed nanoseconds, the two expiries, the two compute-unit
/// figures, the raw transaction bytes, and the reference id.
pub open spec fn parse_route_tail(b: Seq<u8>, i: int) -> Option<(
    (
        Option<u64>,
        Option<u64>,
        Option<u64>,
        Option<u64>,
        Option<u64>,
        Option<u64>,
        Option<Seq<u8>>,
        Option<Seq<char>>,
    ),
    int,
)> {
    match parse_opt_u64(b, i) {
        Some((context_slot, j1)) => match parse_opt_u64(b, j1) {
            Some((time_taken_ns, j2)) => match parse_opt_u64(b, j2) {
                Some((expires_at_ms, j3)) => match parse_opt_u64(b, j3) {
                    Some((expires_after_slot, j4)) => match parse_opt_u64(b, j4) {
                        Some((compute_units, j5)) => match parse_opt_u64(b, j5) {
                            Some((compute_units_safe, j6)) => match parse_opt_bytes(b, j6) {
                                Some((transaction, j7)) => match parse_opt_string(b, j7) {
                                    Some((reference_id, j8)) => Some((
                                        (
                                            context_slot,
                                            time_taken_ns,
                                            expires_at_ms,
                                            expires_after_slot,
                                            compute_units,
                                            compute_units_safe,
                                            transaction,
                                            reference_id,
                                        ),
                                        j8,
                                    )),
                                    None => None,
                                },
                                None => None,
                            },
                            None => None,
                        },
                        None => None,
                    },
                    None => None,
                },
                None => None,
            },
            None => None,
        },
        None => None,
    }
}

fn read_route_tail(b: &Vec<u8>, i: usize) -> (r: Option<(
    (
        Option<u64>,
        Option<u64>,
        Option<u64>,
        Option<u64>,
        Option<u64>,
        Option<u64>,
        Option<Vec<u8>>,
        Option<String>,
    ),
    usize,
)>)
    ensures
        r matches Some((t, j)) ==> parse_route_tail(b@, i as int) == Some((
            (
                t.0,
                t.1,
                t.2,
                t.3,
                t.4,
                t.5,
                crate::quote::opt_vec_view(t.6),
                crate::quote::opt_string_view(t.7),
            ),
            j as int,
        )),
        r is None ==> parse_route_tail(b@, i as int) is None,
{
    match read_opt_u64(b, i) {
        Some((context_slot, j1)) => match read_opt_u64(b, j1) {
            Some((time_taken_ns, j2)) => match read_opt_u64(b, j2) {
                Some((expires_at_ms, j3)) => match read_opt_u64(b, j3) {
                    Some((expires_after_slot, j4)) => match read_opt_u64(b, j4) {
                        Some((compute_units, j5)) => match read_opt_u64(b, j5) {
                            Some((compute_units_safe, j6)) => match read_opt_bytes(b, j6) {
                                Some((transaction, j7)) => match read_opt_string(b, j7) {
                                    Some((reference_id, j8)) => Some((
                                        (
                                            context_slot,
                                            time_taken_ns,
                                            expires_at_ms,
                                            expires_after_slot,
                                            compute_units,
                                            compute_units_safe,
                                            transaction,
                                            reference_id,
                                        ),
                                        j8,
                                    )),
                                    None => None,
                                },
                                None => None,
                            },
                            None => None,
                        },
                        None => None,
                    },
                    None => None,
                },
                None => None,
            },
            None => None,
        },
        None => None,
    }
}

/// A route record: an array of its fifteen fields in order.
pub open spec fn parse_route(b: Seq<u8>, i: int) -> Option<(RouteModel, int)> {
    match parse_array_len(b, i) {
        Some((n, j)) => if n != 15 {
            None
        } else {
            match parse_u64(b, j) {
                Some((in_amount, j1)) => match parse_u64(b, j1) {
                    Some((out_amount, j2)) => match parse_u16(b, j2) {
                        Some((slippage_bps, j3)) => match parse_opt_fee(b, j3) {
                            Some((platform_fee, j4)) => match parse_route_lists(b, j4) {
                                Some((lists, j5)) => match parse_route_tail(b, j5) {
                                    Some((tail, j6)) => Some((
                                        RouteModel {
                                            in_amount,
                                            out_amount,
                                            slippage_bps,
                                            platform_fee,
                                            steps: lists.0,
                                            instructions: lists.1,
                                            address_lookup_tables: lists.2,
                                            context_slot: tail.0,
                                            time_taken_ns: tail.1,
                                            expires_at_ms: tail.2,
                                            expires_after_slot: tail.3,
                                            compute_units: tail.4,
                                            compute_units_safe: tail.5,
                                            transaction: tail.6,
                                            reference_id: tail.7,
                                        },
                                        j6,
                                    )),
                                    None => None,
                                },
                                None => None,
                            },
                            None => None,
                        },
                        None => None,
                    },
                    None => None,
                },
                None => None,
            }
        },
        None => None,
    }
}

fn read_route(b: &Vec<u8>, i: usize) -> (r: Option<(SwapRoute, usize)>)
    ensures
        r matches Some((route, j)) ==> parse_route(b@, i as int) == Some((route@, j as int)),
        r is None ==> parse_route(b@, i as int) is None,
{
    match read_array_len(b, i) {
        Some((n, j)) => if n != 15 {
            None
        } else {
            match read_u64(b, j) {
                Some((in_amount, j1)) => match read_u64(b, j1) {
                    Some((out_amount, j2)) => match read_u16(b, j2) {
                        Some((slippage_bps, j3)) => match read_opt_fee(b, j3) {
                            Some((platform_fee, j4)) => match read_route_lists(b, j4) {
                                Some((lists, j5)) => match read_route_tail(b, j5) {
                                    Some((tail, j6)) => Some((
                                        SwapRoute {
                                            in_amount,
                                            out_amount,
                                            slippage_bps,
                                            platform_fee,
                                            steps: lists.0,
                                            instructions: lists.1,
                                            address_lookup_tables: lists.2,
                                            context_slot: tail.0,
                                            time_taken_ns: tail.1,
                                            expires_at_ms: tail.2,
                                            expires_after_slot: tail.3,
                                            compute_units: tail.4,
                                            compute_units_safe: tail.5,
                                            transaction: tail.6,
                                            reference_id: tail.7,
                                        },
                                        j6,
                                    )),
                                    None => None,
                                },
                                None => None,
                            },
                            None => None,
                        },
                        None => None,
                    },
                    None => None,
                },
                None => None,
            }
        },
        None => None,
    }
}

/// n route-map entries in a row: a string key, then the route record.
pub open spec fn parse_route_entries(b: Seq<u8>, i: int, n: nat) -> Option<(
    Seq<(Seq<char>, RouteModel)>,
    int,
)>
    decreases n,
{
    if n == 0 {
        Some((Seq::empty(), i))
    } else {
        match parse_string(b, i) {
            Some((key, j)) => match parse_route(b, j) {
                Some((route, j2)) => opt_prepend(
                    seq![(key, route)],
                    parse_route_entries(b, j2, (n - 1) as nat),
                ),
                None => None,
            },
            None => None,
        }
    }
}

fn read_route_entries(b: &Vec<u8>, i: usize, n: u64) -> (r: Option<(
    Vec<(String, SwapRoute)>,
    usize,
)>)
    ensures
        r matches Some((v, j)) ==> parse_route_entries(b@, i as int, n as nat) == Some((
            v@.map_values(|p: (String, SwapRoute)| (p.0@, p.1@)),
            j as int,
        )),
        r is None ==> parse_route_entries(b@, i as int, n as nat) is None,
{
    let mut out: Vec<(String, SwapRoute)> = Vec::new();
    let mut pos = i;
    let mut k: u64 = 0;
    while k < n
        invariant
            k <= n,
            parse_route_entries(b@, i as int, n as nat) == opt_prepend(
                out@.map_values(|p: (String, SwapRoute)| (p.0@, p.1@)),
                parse_route_entries(b@, pos as int, (n - k) as nat),
            ),
        decreases n - k,
    {
        match read_string(b, pos) {
            Some((key, j1)) => match read_route(b, j1) {
                Some((route, j2)) => {
                    let item = (key, route);
                    proof {
                        let f = |p: (String, SwapRoute)| (p.0@, p.1@);
                        let rest = parse_route_entries(b@, j2 as int, (n - k - 1) as nat);
                        assert(out@.push(item).map_values(f) =~= out@.map_values(f).push(f(item)));
                        match rest {
                            Some((sfx, _jj)) => {
                                assert(out@.map_values(f) + (seq![f(item)] + sfx)
                                    =~= out@.map_values(f).push(f(item)) + sfx);
                            },
                            None => {},
                        }
                    }
                    out.push(item);
                    pos = j2;
                    k = k + 1;
                },
                None => {
                    return None;
                },
            },
            None => {
                return None;
            },
        }
    }
    proof {
        assert(out@.map_values(|p: (String, SwapRoute)| (p.0@, p.1@)) + Seq::<
            (Seq<char>, RouteModel),
        >::empty() =~= out@.map_values(|p: (String, SwapRoute)| (p.0@, p.1@)));
    }
    Some((out, pos))
}

/// A swap mode value: a text token naming the mode.
pub open spec fn parse_mode(b: Seq<u8>, i: int) -> Option<(SwapMode, int)> {
    match parse_string(b, i) {
        Some((s, j)) => match parse_mode_text(s) {
            Some(m) => Some((m, j)),
            None => None,
        },
        None => None,
    }
}

fn read_mode(b: &Vec<u8>, i: usize) -> (r: Option<(SwapMode, usize)>)
    ensures
        r matches Some((m, j)) ==> parse_mode(b@, i as int) == Some((m, j as int)),
        r is None ==> parse_mode(b@, i as int) is None,
{
    match read_string(b, i) {
        Some((s, j)) => match SwapMode::from_str(s.as_str()) {
            Some(m) => Some((m, j)),
            None => None,
        },
        None => None,
    }
}

/// The response record: an array of its six fields in order, the last a map
/// of route ids to route records.
pub open spec fn parse_swap_quotes(b: Seq<u8>, i: int) -> Option<(QuotesModel, int)> {
    match parse_array_len(b, i) {
        Some((n, j)) => if n != 6 {
            None
        } else {
            match parse_string(b, j) {
                Some((id, j1)) => match parse_addr(b, j1) {
                    Some((input_mint, j2)) => match parse_addr(b, j2) {
                        Some((output_mint, j3)) => match parse_mode(b, j3) {
                            Some((swap_mode, j4)) => match parse_u64(b, j4) {
                                Some((amount, j5)) => match parse_map_len(b, j5) {
                                    Some((qn, j6)) => match parse_route_entries(b, j6, qn) {
                                        Some((quotes, j7)) => Some((
                                            QuotesModel {
                                                id,
                                                input_mint,
                                                output_mint,
                                                swap_mode,
                                                amount,
                                                quotes,
                                            },
                                            j7,
                                        )),
                                        None => None,
                                    },
                                    None => None,
                                },
                                None => None,
                            },
                            None => None,
                        },
                        None => None,
                    },
                    None => None,
                },
                None => None,
            }
        },
        None => None,
    }
}

/// What a whole buffer decodes to: the response record, which must span the
/// buffer exactly; anything else is a schema mismatch.
pub open spec fn parse_response(b: Seq<u8>) -> Option<QuotesModel> {
    match parse_swap_quotes(b, 0) {
        Some((q, j)) => if j == b.len() {
            Some(q)
        } else {
            None
        },
        None => None,
    }
}

/// Decodes a binary response buffer. Returns the decoded record exactly when
/// the buffer matches the schema, and `DecodeFailure` otherwise.
pub fn decode_swap_quotes(buffer: &Vec<u8>) -> (r: Result<SwapQuotes, ClientError>)
    ensures
        r matches Ok(q) ==> parse_response(buffer@) == Some(q@),
        r matches Err(e) ==> e is DecodeFailure && parse_response(buffer@) is None,
{
    match read_array_len(buffer, 0) {
        Some((n, j)) => if n != 6 {
            Err(ClientError::DecodeFailure)
        } else {
            match read_string(buffer, j) {
                Some((id, j1)) => match read_addr(buffer, j1) {
                    Some((input_mint, j2)) => match read_addr(buffer, j2) {
                        Some((output_mint, j3)) => match read_mode(buffer, j3) {
                            Some((swap_mode, j4)) => match read_u64(buffer, j4) {
                                Some((amount, j5)) => match read_map_len(buffer, j5) {
                                    Some((qn, j6)) => match read_route_entries(buffer, j6, qn) {
                                        Some((quotes, j7)) => {
                                            if j7 == buffer.len() {
                                                Ok(
                                                    SwapQuotes {
                                                        id,
                                                        input_mint,
                                                        output_mint,
                                                        swap_mode,
                                                        amount,
                                                        quotes,
                                                    },
                                                )
                                            } else {
                                                Err(ClientError::DecodeFailure)
                                            }
                                        },
                                        None => Err(ClientError::DecodeFailure),
                                    },
                                    None => Err(ClientError::DecodeFailure),
                                },
                                None => Err(ClientError::DecodeFailure),
                            },
                            None => Err(ClientError::DecodeFailure),
                        },
                        None => Err(ClientError::DecodeFailure),
                    },
                    None => Err(ClientError::DecodeFailure),
                },
                None => Err(ClientError::DecodeFailure),
            }
        },
        None => Err(ClientError::DecodeFailure),
    }
}

} // verus!
