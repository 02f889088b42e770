//! DJB2-style content hashes that match the sync server and the JavaScript
//! client: text is hashed over its UTF-16 code units, bytes over the raw bytes.

use vstd::prelude::*;
use crate::text::{chars_to_string, i64_to_decimal, int_decimal, str_chars};

verus! {

/// Files above this size are hashed over two slices only.
pub const FILE_HASH_THRESHOLD: usize = 10485760;

/// Size of each of the two slices hashed for large files.
pub const FILE_HASH_SLICE_SIZE: usize = 5242880;

/// UTF-16 code units of one character (a surrogate pair above U+FFFF).
pub open spec fn char_utf16(c: char) -> Seq<nat> {
    let v = (c as u32) as nat;
    if v < 0x10000 {
        seq![v]
    } else {
        seq![(0xD800 + (v - 0x10000) / 0x400) as nat, (0xDC00 + (v - 0x10000) % 0x400) as nat]
    }
}

/// UTF-16 code units of a character sequence.
pub open spec fn encode_utf16(s: Seq<char>) -> Seq<nat>
    decreases s.len(),
{
    if s.len() == 0 {
        seq![]
    } else {
        encode_utf16(s.drop_last()) + char_utf16(s.last())
    }
}

/// One step of the hash: `h * 31 + unit`, modulo 2^32.
pub open spec fn hash_step(h: nat, unit: nat) -> nat {
    ((31 * h + unit) % 0x1_0000_0000) as nat
}

/// The unsigned 32-bit hash of a sequence of units, starting from 0.
pub open spec fn hash_units(units: Seq<nat>) -> nat
    decreases units.len(),
{
    if units.len() == 0 {
        0
    } else {
        hash_step(hash_units(units.drop_last()), units.last())
    }
}

/// Two's-complement reading of a 32-bit value.
pub open spec fn as_signed32(h: nat) -> int {
    if h < 0x8000_0000 {
        h as int
    } else {
        h - 0x1_0000_0000
    }
}

/// The hash text of a string: the signed 32-bit hash of its UTF-16 units, in decimal.
pub open spec fn spec_hash_content(s: Seq<char>) -> Seq<char> {
    int_decimal(as_signed32(hash_units(encode_utf16(s))))
}

/// Bytes as hash units.
pub open spec fn byte_units(b: Seq<u8>) -> Seq<nat> {
    b.map_values(|x: u8| x as nat)
}

/// The bytes that take part in a file hash: all of them up to the threshold,
/// else the first and the last slice.
pub open spec fn hashed_bytes(b: Seq<u8>) -> Seq<u8> {
    if b.len() <= FILE_HASH_THRESHOLD {
        b
    } else {
        b.subrange(0, FILE_HASH_SLICE_SIZE as int) + b.subrange(
            b.len() - FILE_HASH_SLICE_SIZE,
            b.len() as int,
        )
    }
}

/// The hash text of a byte buffer.
pub open spec fn spec_hash_bytes(b: Seq<u8>) -> Seq<char> {
    int_decimal(as_signed32(hash_units(byte_units(hashed_bytes(b)))))
}

proof fn lemma_hash_units_push(a: Seq<nat>, x: nat)
    ensures
        hash_units(a.push(x)) == hash_step(hash_units(a), x),
{
    assert(a.push(x).drop_last() =~= a);
}

proof fn lemma_hash_units_append(a: Seq<nat>, b: Seq<nat>)
    ensures
        hash_units(a + b) == hash_units_from(hash_units(a), b),
    decreases b.len(),
{
    if b.len() == 0 {
        assert(a + b =~= a);
    } else {
        lemma_hash_units_append(a, b.drop_last());
        assert((a + b).drop_last() =~= a + b.drop_last());
    }
}

/// The hash state after feeding `units` into state `h`.
pub open spec fn hash_units_from(h: nat, units: Seq<nat>) -> nat
    decreases units.len(),
{
    if units.len() == 0 {
        h
    } else {
        hash_step(hash_units_from(h, units.drop_last()), units.last())
    }
}

fn step(h: u32, unit: u32) -> (r: u32)
    ensures
        r == hash_step(h as nat, unit as nat),
{
    ((h as u64 * 31 + unit as u64) % 0x1_0000_0000u64) as u32
}

fn signed_text(h: u32) -> (s: String)
    ensures
        s@ == int_decimal(as_signed32(h as nat)),
{
    let v: i64 = if h < 0x8000_0000 { h as i64 } else { h as i64 - 0x1_0000_0000i64 };
    i64_to_decimal(v)
}

/// Computes the 32-bit signed DJB2 hash of a string over its UTF-16 code units,
/// as decimal text.
pub fn hash_content(content: &str) -> (r: String)
    ensures
        r@ == spec_hash_content(content@),
{
    let chars = str_chars(content);
    let mut h: u32 = 0;
    let mut i: usize = 0;
    while i < chars.len()
        invariant
            i <= chars.len(),
            chars@ == content@,
            h as nat == hash_units(encode_utf16(chars@.take(i as int))),
        decreases chars.len() - i,
    {
        let c = chars[i];
        let v = c as u32;
        let ghost before = encode_utf16(chars@.take(i as int));
        proof {
            assert(chars@.take(i + 1).drop_last() =~= chars@.take(i as int));
            assert(chars@.take(i + 1).last() == c);
        }
        if v < 0x10000 {
            proof {
                lemma_hash_units_push(before, v as nat);
                assert(before + char_utf16(c) =~= before.push(v as nat));
            }
            h = step(h, v);
        } else {
            let w = v - 0x10000;
            let hi = 0xD800 + w / 0x400;
            let lo = 0xDC00 + w % 0x400;
            proof {
                lemma_hash_units_push(before, hi as nat);
                lemma_hash_units_push(before.push(hi as nat), lo as nat);
                assert(before + char_utf16(c) =~= before.push(hi as nat).push(lo as nat));
            }
            h = step(step(h, hi), lo);
        }
        i = i + 1;
    }
    assert(chars@.take(chars.len() as int) =~= content@);
    signed_text(h)
}

/// Hashes raw bytes; buffers above 10 MiB are hashed over their first and last 5 MiB.
pub fn hash_bytes(bytes: &[u8]) -> (r: String)
    ensures
        r@ == spec_hash_bytes(bytes@),
{
    let n = bytes.len();
    let mut h: u32 = 0;
    if n <= FILE_HASH_THRESHOLD {
        h = hash_range(bytes, 0, n, h);
        assert(bytes@.subrange(0, n as int) =~= bytes@);
        assert(hash_units_from(0, byte_units(bytes@)) == hash_units(byte_units(bytes@))) by {
            lemma_hash_units_append(seq![], byte_units(bytes@));
            assert(Seq::<nat>::empty() + byte_units(bytes@) =~= byte_units(bytes@));
        }
    } else {
        h = hash_range(bytes, 0, FILE_HASH_SLICE_SIZE, h);
        let ghost h1 = h;
        h = hash_range(bytes, n - FILE_HASH_SLICE_SIZE, n, h);
        proof {
            let a = byte_units(bytes@.subrange(0, FILE_HASH_SLICE_SIZE as int));
            let b = byte_units(bytes@.subrange(n - FILE_HASH_SLICE_SIZE, n as int));
            lemma_hash_units_append(seq![], a);
            assert(Seq::<nat>::empty() + a =~= a);
            lemma_hash_units_append(a, b);
            assert(byte_units(hashed_bytes(bytes@)) =~= a + b);
        }
    }
    signed_text(h)
}

fn hash_range(bytes: &[u8], start: usize, end: usize, h0: u32) -> (h: u32)
    requires
        start <= end <= bytes.len(),
    ensures
        h as nat == hash_units_from(h0 as nat, byte_units(bytes@.subrange(start as int, end as int))),
{
    let mut h = h0;
    let mut i = start;
    while i < end
        invariant
            start <= i <= end <= bytes.len(),
            h as nat == hash_units_from(h0 as nat, byte_units(bytes@.subrange(start as int, i as int))),
        decreases end - i,
    {
        proof {
            let prev = byte_units(bytes@.subrange(start as int, i as int));
            let next = byte_units(bytes@.subrange(start as int, i + 1));
            assert(next.drop_last() =~= prev);
            assert(next.last() == bytes@[i as int] as nat);
        }
        h = step(h, bytes[i] as u32);
        i = i + 1;
    }
    h
}

/// Hashes a vault-relative path the same way as note content.
pub fn hash_path(path: &str) -> (r: String)
    ensures
        r@ == spec_hash_content(path@),
{
    hash_content(path)
}

} // verus!
