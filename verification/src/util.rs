//! Primitive address types and little-endian byte readers.
//!
//! Every multi-byte field of the PE format is stored little-endian.  The
//! `spec_u16` / `spec_u32` / `spec_u64` functions give the mathematical
//! meaning of a field at a byte position, and the `read_*` functions are the
//! verified executable readers.

use crate::error::{err0, DecodeError, ErrorKind};
use vstd::prelude::*;
use vstd::slice::{slice_subrange, slice_to_vec};

verus! {

/// A 64-bit file or virtual address: an unsigned offset with a unit.
#[derive(Clone, Copy, Debug, PartialEq, Eq, PartialOrd, Ord, Structural)]
pub struct Addr(pub u64);

/// A 32-bit file or virtual address: an unsigned offset with a unit.
#[derive(Clone, Copy, Debug, PartialEq, Eq, PartialOrd, Ord, Structural)]
pub struct Addr32(pub u32);

impl Addr {
    /// Decode a 64-bit little-endian address at `pos`.
    pub fn parse(i: &[u8], pos: usize) -> (r: Result<(Addr, usize), DecodeError>)
        ensures
            pos + 8 <= i@.len() ==> (r matches Ok(v) && v.0 == (Addr(
                spec_u64(i@, pos as int),
            )) && v.1 == pos + 8),
            pos + 8 > i@.len() ==> (r matches Err(e) && e@ == err0(
                ErrorKind::Truncated,
                i@.len() as int,
            )),
    {
        if i.len() < 8 || pos > i.len() - 8 {
            return Err(DecodeError::new(ErrorKind::Truncated, i.len()));
        }
        Ok((Addr(read_u64(i, pos)), pos + 8))
    }

    /// The value of this address.
    pub fn value(self) -> (r: u64)
        ensures
            r == self.0,
    {
        self.0
    }

    /// The distance from `other` up to this address, if `other` does not lie
    /// beyond it.
    pub fn checked_sub(self, other: Addr) -> (r: Option<Addr>)
        ensures
            other.0 <= self.0 ==> (r matches Some(d) && d.0 == self.0 - other.0),
            other.0 > self.0 ==> r is None,
    {
        if other.0 <= self.0 {
            Some(Addr(self.0 - other.0))
        } else {
            None
        }
    }
}

impl Addr32 {
    /// Decode a 32-bit little-endian address at `pos`.
    pub fn parse(i: &[u8], pos: usize) -> (r: Result<(Addr32, usize), DecodeError>)
        ensures
            pos + 4 <= i@.len() ==> (r matches Ok(v) && v.0 == (Addr32(
                spec_u32(i@, pos as int),
            )) && v.1 == pos + 4),
            pos + 4 > i@.len() ==> (r matches Err(e) && e@ == err0(
                ErrorKind::Truncated,
                i@.len() as int,
            )),
    {
        if i.len() < 4 || pos > i.len() - 4 {
            return Err(DecodeError::new(ErrorKind::Truncated, i.len()));
        }
        Ok((Addr32(read_u32(i, pos)), pos + 4))
    }

    /// The value of this address.
    pub fn value(self) -> (r: u32)
        ensures
            r == self.0,
    {
        self.0
    }

    /// The distance from `other` up to this address, if `other` does not lie
    /// beyond it.
    pub fn checked_sub(self, other: Addr32) -> (r: Option<Addr32>)
        ensures
            other.0 <= self.0 ==> (r matches Some(d) && d.0 == self.0 - other.0),
            other.0 > self.0 ==> r is None,
    {
        if other.0 <= self.0 {
            Some(Addr32(self.0 - other.0))
        } else {
            None
        }
    }

    /// This address widened to 64 bits.
    pub fn widen(self) -> (r: Addr)
        ensures
            r.0 == self.0,
    {
        Addr(self.0 as u64)
    }
}

/// The 16-bit little-endian value stored at position `p` of `b`.
pub open spec fn spec_u16(b: Seq<u8>, p: int) -> u16
    recommends
        0 <= p,
        p + 2 <= b.len(),
{
    (b[p] + b[p + 1] * 0x100) as u16
}

/// The 32-bit little-endian value stored at position `p` of `b`.
pub open spec fn spec_u32(b: Seq<u8>, p: int) -> u32
    recommends
        0 <= p,
        p + 4 <= b.len(),
{
    (b[p] + b[p + 1] * 0x100 + b[p + 2] * 0x1_0000 + b[p + 3] * 0x100_0000) as u32
}

/// The 64-bit little-endian value stored at position `p` of `b`.
pub open spec fn spec_u64(b: Seq<u8>, p: int) -> u64
    recommends
        0 <= p,
        p + 8 <= b.len(),
{
    (b[p] + b[p + 1] * 0x100 + b[p + 2] * 0x1_0000 + b[p + 3] * 0x100_0000
        + b[p + 4] * 0x1_0000_0000 + b[p + 5] * 0x100_0000_0000
        + b[p + 6] * 0x1_0000_0000_0000 + b[p + 7] * 0x100_0000_0000_0000) as u64
}

/// Read the 16-bit little-endian value at `pos`.
pub fn read_u16(i: &[u8], pos: usize) -> (r: u16)
    requires
        pos + 2 <= i@.len(),
    ensures
        r == spec_u16(i@, pos as int),
{
    let b0 = i[pos];
    let b1 = i[pos + 1];
    (b0 as u16) + (b1 as u16) * 0x100
}

/// Read the 32-bit little-endian value at `pos`.
pub fn read_u32(i: &[u8], pos: usize) -> (r: u32)
    requires
        pos + 4 <= i@.len(),
    ensures
        r == spec_u32(i@, pos as int),
{
    let b0 = i[pos];
    let b1 = i[pos + 1];
    let b2 = i[pos + 2];
    let b3 = i[pos + 3];
    (b0 as u32) + (b1 as u32) * 0x100 + (b2 as u32) * 0x1_0000 + (b3 as u32) * 0x100_0000
}

/// Read the 64-bit little-endian value at `pos`.
pub fn read_u64(i: &[u8], pos: usize) -> (r: u64)
    requires
        pos + 8 <= i@.len(),
    ensures
        r == spec_u64(i@, pos as int),
{
    let b0 = i[pos];
    let b1 = i[pos + 1];
    let b2 = i[pos + 2];
    let b3 = i[pos + 3];
    let b4 = i[pos + 4];
    let b5 = i[pos + 5];
    let b6 = i[pos + 6];
    let b7 = i[pos + 7];
    (b0 as u64) + (b1 as u64) * 0x100 + (b2 as u64) * 0x1_0000 + (b3 as u64) * 0x100_0000
        + (b4 as u64) * 0x1_0000_0000 + (b5 as u64) * 0x100_0000_0000
        + (b6 as u64) * 0x1_0000_0000_0000 + (b7 as u64) * 0x100_0000_0000_0000
}

/// Whether `v` is an ASCII whitespace byte (the bytes whose characters Rust
/// string trimming removes).
pub open spec fn is_name_whitespace(v: u8) -> bool {
    v == 0x20 || v == 0x09 || v == 0x0A || v == 0x0B || v == 0x0C || v == 0x0D
}

/// `s` with every null byte removed, order kept.
pub open spec fn strip_nulls(s: Seq<u8>) -> Seq<u8>
    decreases s.len(),
{
    if s.len() == 0 {
        Seq::empty()
    } else if s.last() == 0 {
        strip_nulls(s.drop_last())
    } else {
        strip_nulls(s.drop_last()).push(s.last())
    }
}

/// `s` with leading whitespace bytes removed.
pub open spec fn trim_leading(s: Seq<u8>) -> Seq<u8>
    decreases s.len(),
{
    if s.len() > 0 && is_name_whitespace(s.first()) {
        trim_leading(s.drop_first())
    } else {
        s
    }
}

/// `s` with trailing whitespace bytes removed.
pub open spec fn trim_trailing(s: Seq<u8>) -> Seq<u8>
    decreases s.len(),
{
    if s.len() > 0 && is_name_whitespace(s.last()) {
        trim_trailing(s.drop_last())
    } else {
        s
    }
}

/// The character a single name byte decodes to: ASCII bytes stand for
/// themselves; any byte outside ASCII becomes the replacement character.
///
/// This is a deliberate simplification: the name field is read byte by
/// byte, so a valid multi-byte UTF-8 sequence inside it is not decoded to
/// its code point but to one replacement character per byte.  Section names
/// are ASCII in practice, and every ASCII name round-trips exactly.
pub open spec fn byte_to_char(v: u8) -> char {
    if v < 128 {
        v as char
    } else {
        '\u{FFFD}'
    }
}

/// The displayed form of a raw 8-byte section name: null bytes removed,
/// surrounding whitespace trimmed, and the remaining bytes read as
/// characters.
pub open spec fn spec_trimmed_name(raw: Seq<u8>) -> Seq<char> {
    trim_trailing(trim_leading(strip_nulls(raw))).map_values(|v: u8| byte_to_char(v))
}

/// A sequence without null bytes is kept whole by [`strip_nulls`].
proof fn lemma_strip_nulls_keeps(s: Seq<u8>)
    requires
        forall|j: int| 0 <= j < s.len() ==> s[j] != 0,
    ensures
        strip_nulls(s) == s,
    decreases s.len(),
{
    if s.len() > 0 {
        lemma_strip_nulls_keeps(s.drop_last());
        assert(s.drop_last().push(s.last()) =~= s);
    } else {
        assert(strip_nulls(s) =~= s);
    }
}

/// Law: a name of exactly 8 bytes, none of them null and none of them
/// whitespace, decodes to all 8 characters; nothing is trimmed away.
pub proof fn lemma_full_name_kept(raw: Seq<u8>)
    requires
        raw.len() == 8,
        forall|j: int| 0 <= j < 8 ==> raw[j] != 0 && !is_name_whitespace(#[trigger] raw[j]),
    ensures
        spec_trimmed_name(raw).len() == 8,
        forall|j: int| 0 <= j < 8 ==> spec_trimmed_name(raw)[j] == byte_to_char(#[trigger] raw[j]),
{
    lemma_strip_nulls_keeps(raw);
}

/// Relies on String::push: appends the given character to the end of the
/// string.
#[verifier::external_body]
pub(crate) fn push_char(s: &mut String, c: char)
    ensures
        final(s)@ == old(s)@.push(c),
{
    s.push(c);
}

/// The character a single name byte decodes to (executable form of
/// [`byte_to_char`]).
fn byte_char(v: u8) -> (r: char)
    ensures
        r == byte_to_char(v),
{
    if v < 128 {
        v as char
    } else {
        '\u{FFFD}'
    }
}

/// A section name: the raw 8-byte, null-padded field reduced to its
/// displayed form (null bytes removed, surrounding whitespace trimmed, each
/// remaining byte read as one character — see [`byte_to_char`] for the
/// ASCII-only simplification).
#[derive(Clone, Debug, PartialEq, Eq)]
pub struct SectionName {
    name: String,
}

impl View for SectionName {
    type V = Seq<char>;

    closed spec fn view(&self) -> Seq<char> {
        self.name@
    }
}

impl SectionName {
    /// Decode the raw 8-byte name field at `pos` to its displayed form.
    pub fn parse(i: &[u8], pos: usize) -> (r: SectionName)
        requires
            pos + 8 <= i@.len(),
        ensures
            r@ == spec_trimmed_name(i@.subrange(pos as int, pos + 8)),
    {
        let ghost raw = i@.subrange(pos as int, pos + 8);
        let n = i.len();
        let mut kept: Vec<u8> = Vec::new();
        let mut k: usize = 0;
        while k < 8
            invariant
                k <= 8,
                pos + 8 <= n == i@.len(),
                raw == i@.subrange(pos as int, pos + 8),
                kept@ == strip_nulls(raw.subrange(0, k as int)),
            decreases 8 - k,
        {
            let v = i[pos + k];
            proof {
                assert(raw.subrange(0, k + 1).drop_last() =~= raw.subrange(0, k as int));
                assert(raw.subrange(0, k + 1).last() == raw[k as int]);
                assert(raw[k as int] == i@[pos + k]);
            }
            if v != 0 {
                kept.push(v);
            }
            k = k + 1;
        }
        proof {
            assert(raw.subrange(0, 8) =~= raw);
        }
        let mut lo: usize = 0;
        proof {
            assert(kept@.skip(0) =~= kept@);
        }
        while lo < kept.len() && is_whitespace_byte(kept[lo])
            invariant
                lo <= kept@.len(),
                trim_leading(kept@) == trim_leading(kept@.skip(lo as int)),
            decreases kept@.len() - lo,
        {
            proof {
                assert(kept@.skip(lo as int).first() == kept@[lo as int]);
                assert(kept@.skip(lo as int).drop_first() =~= kept@.skip(lo + 1));
            }
            lo = lo + 1;
        }
        proof {
            assert(trim_leading(kept@) == kept@.skip(lo as int));
        }
        let mut hi: usize = kept.len();
        proof {
            assert(kept@.skip(lo as int) =~= kept@.subrange(lo as int, hi as int));
        }
        while hi > lo && is_whitespace_byte(kept[hi - 1])
            invariant
                lo <= hi <= kept@.len(),
                trim_leading(kept@) == kept@.skip(lo as int),
                trim_trailing(kept@.skip(lo as int)) == trim_trailing(
                    kept@.subrange(lo as int, hi as int),
                ),
            decreases hi,
        {
            proof {
                assert(kept@.subrange(lo as int, hi as int).last() == kept@[hi - 1]);
                assert(kept@.subrange(lo as int, hi as int).drop_last() =~= kept@.subrange(
                    lo as int,
                    hi - 1,
                ));
            }
            hi = hi - 1;
        }
        let ghost trimmed = trim_trailing(trim_leading(strip_nulls(raw)));
        proof {
            assert(trimmed == kept@.subrange(lo as int, hi as int));
        }
        let mut name = String::new();
        let mut k: usize = lo;
        while k < hi
            invariant
                lo <= k <= hi <= kept@.len(),
                trimmed == kept@.subrange(lo as int, hi as int),
                name@ == kept@.subrange(lo as int, k as int).map_values(|v: u8| byte_to_char(v)),
            decreases hi - k,
        {
            let c = byte_char(kept[k]);
            push_char(&mut name, c);
            proof {
                assert(kept@.subrange(lo as int, k + 1) =~= kept@.subrange(lo as int, k as int).push(
                    kept@[k as int],
                ));
                assert(kept@.subrange(lo as int, k + 1).map_values(|v: u8| byte_to_char(v))
                    =~= kept@.subrange(lo as int, k as int).map_values(|v: u8| byte_to_char(v)).push(
                    byte_to_char(kept@[k as int]),
                ));
            }
            k = k + 1;
        }
        let r = SectionName { name };
        proof {
            assert(r@ == trimmed.map_values(|v: u8| byte_to_char(v)));
        }
        r
    }

    /// The displayed name as an owned string.
    pub fn as_string(&self) -> (r: String)
        ensures
            r@ == self@,
    {
        self.name.clone()
    }
}

/// The number of bytes a diagnostic hex preview shows at most.
pub const HEX_DUMP_LIMIT: usize = 20;

/// The bytes a hex preview at `p` shows: at most [`HEX_DUMP_LIMIT`] bytes of
/// `b` starting at `p`, clamped to the end of the buffer.
pub open spec fn spec_window(b: Seq<u8>, p: int) -> Seq<u8> {
    let lo = if p > b.len() {
        b.len() as int
    } else {
        p
    };
    let hi = if p + HEX_DUMP_LIMIT > b.len() {
        b.len() as int
    } else {
        p + HEX_DUMP_LIMIT
    };
    b.subrange(lo, hi)
}

/// The lowercase hexadecimal digit for `d`.
pub open spec fn hex_digit(d: u8) -> char
    recommends
        d < 16,
{
    if d < 10 {
        ((d + 0x30) as u8) as char
    } else {
        ((d + 0x57) as u8) as char
    }
}

/// The rendering of `s` as lowercase hexadecimal: two digits and a space for
/// each byte.
pub open spec fn spec_hex_render(s: Seq<u8>) -> Seq<char>
    decreases s.len(),
{
    if s.len() == 0 {
        Seq::empty()
    } else {
        spec_hex_render(s.drop_last()) + seq![
            hex_digit(s.last() / 16),
            hex_digit(s.last() % 16),
            ' ',
        ]
    }
}

/// A bounded byte window used for diagnostic hex dumps: at most
/// [`HEX_DUMP_LIMIT`] bytes copied out of the input buffer.
#[derive(Clone, Debug, PartialEq, Eq)]
pub struct HexDump {
    pub bytes: Vec<u8>,
}

impl View for HexDump {
    type V = Seq<u8>;

    open spec fn view(&self) -> Seq<u8> {
        self.bytes@
    }
}

impl HexDump {
    /// The preview window of the buffer at `pos`: at most
    /// [`HEX_DUMP_LIMIT`] bytes, clamped to the end of the buffer.
    pub fn from_window(i: &[u8], pos: usize) -> (r: HexDump)
        ensures
            r@ == spec_window(i@, pos as int),
    {
        let lo = if pos > i.len() {
            i.len()
        } else {
            pos
        };
        let hi = if i.len() - lo < HEX_DUMP_LIMIT {
            i.len()
        } else {
            lo + HEX_DUMP_LIMIT
        };
        let bytes = slice_to_vec(slice_subrange(i, lo, hi));
        HexDump { bytes }
    }

    /// Render the window as lowercase hexadecimal, two digits and a space
    /// for each byte.
    pub fn render(&self) -> (r: String)
        ensures
            r@ == spec_hex_render(self@),
    {
        let mut r = String::new();
        let mut k: usize = 0;
        while k < self.bytes.len()
            invariant
                k <= self.bytes@.len(),
                r@ == spec_hex_render(self.bytes@.subrange(0, k as int)),
            decreases self.bytes@.len() - k,
        {
            let v = self.bytes[k];
            push_char(&mut r, hex_digit_char(v / 16));
            push_char(&mut r, hex_digit_char(v % 16));
            push_char(&mut r, ' ');
            proof {
                let s = self.bytes@;
                assert(s.subrange(0, k + 1).drop_last() =~= s.subrange(0, k as int));
                assert(s.subrange(0, k + 1).last() == s[k as int]);
                assert(r@ =~= spec_hex_render(s.subrange(0, k + 1)));
            }
            k = k + 1;
        }
        proof {
            assert(self.bytes@.subrange(0, self.bytes@.len() as int) =~= self.bytes@);
        }
        r
    }
}

/// The lowercase hexadecimal digit for `d` (executable form of
/// [`hex_digit`]).
fn hex_digit_char(d: u8) -> (r: char)
    requires
        d < 16,
    ensures
        r == hex_digit(d),
{
    if d < 10 {
        (d + 0x30) as char
    } else {
        (d + 0x57) as char
    }
}

/// The decimal digit character for `d`.
pub open spec fn decimal_digit(d: int) -> char
    recommends
        0 <= d < 10,
{
    ((d + 0x30) as u8) as char
}

/// The decimal rendering of `n`, most significant digit first, no leading
/// zeros (a lone zero for zero itself).
pub open spec fn spec_decimal(n: int) -> Seq<char>
    recommends
        n >= 0,
    decreases n,
{
    if n < 10 {
        seq![decimal_digit(n)]
    } else {
        spec_decimal(n / 10).push(decimal_digit(n % 10))
    }
}

/// Append the decimal rendering of `n` to `s`.
pub fn push_decimal(s: &mut String, n: u16)
    ensures
        final(s)@ == old(s)@ + spec_decimal(n as int),
    decreases n,
{
    if n < 10 {
        push_char(s, (0x30 + (n as u8)) as char);
        proof {
            assert(final(s)@ =~= old(s)@ + spec_decimal(n as int));
        }
    } else {
        push_decimal(s, n / 10);
        push_char(s, (0x30 + ((n % 10) as u8)) as char);
        proof {
            assert(final(s)@ =~= old(s)@ + spec_decimal(n as int));
        }
    }
}

/// Whether `v` is an ASCII whitespace byte (executable form of
/// [`is_name_whitespace`]).
fn is_whitespace_byte(v: u8) -> (r: bool)
    ensures
        r == is_name_whitespace(v),
{
    v == 0x20 || v == 0x09 || v == 0x0A || v == 0x0B || v == 0x0C || v == 0x0D
}

} // verus!
