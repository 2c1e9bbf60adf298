//! Fixed-size content hashes: their hex form, their sampling fingerprint,
//! and parsing them back from hex.
use vstd::prelude::*;
use vstd::string::StringSliceAdditionalSpecFns;

verus! {

/// The lower-case hex digit for a nibble.
pub open spec fn nibble_char(n: u8) -> char {
    if n < 10 {
        (n + 48) as char
    } else {
        (n + 87) as char
    }
}

/// Two lower-case hex digits per byte, high nibble first.
pub open spec fn hex_chars(b: Seq<u8>) -> Seq<char> {
    Seq::new(
        2 * b.len(),
        |i: int|
            if i % 2 == 0 {
                nibble_char(b[i / 2] / 16)
            } else {
                nibble_char(b[i / 2] % 16)
            },
    )
}

/// The value of one hex digit, given as an ASCII code (either case).
pub open spec fn hex_value(c: u8) -> Option<u8> {
    if 48 <= c <= 57 {
        Some((c - 48) as u8)
    } else if 97 <= c <= 102 {
        Some((c - 87) as u8)
    } else if 65 <= c <= 70 {
        Some((c - 55) as u8)
    } else {
        None
    }
}

/// The bytes that a string of hex digits (as ASCII codes) denotes, if it has
/// exactly `2 * n` digits.
pub open spec fn decode_hex(s: Seq<u8>, n: nat) -> Option<Seq<u8>> {
    if s.len() == 2 * n && forall|i: int| 0 <= i < s.len() ==> (#[trigger] hex_value(s[i])) is Some {
        Some(
            Seq::new(
                n,
                |i: int| (16 * hex_value(s[2 * i]).unwrap() + hex_value(s[2 * i + 1]).unwrap()) as u8,
            ),
        )
    } else {
        None
    }
}

/// The little-endian value of a byte sequence.
pub open spec fn le_value(b: Seq<u8>) -> nat
    decreases b.len(),
{
    if b.len() == 0 {
        0
    } else {
        b[0] as nat + 256 * le_value(b.drop_first())
    }
}

/// The sampling fingerprint of a hash: its first eight bytes, little-endian.
pub open spec fn fingerprint_of(b: Seq<u8>) -> u64 {
    le_value(b.subrange(0, 8)) as u64
}

pub open spec fn ascii_bytes(s: Seq<char>) -> Seq<u8> {
    Seq::new(s.len(), |i: int| s[i] as u8)
}

proof fn lemma_nibble_char(n: u8)
    requires
        n < 16,
    ensures
        (nibble_char(n) as u32) < 128,
        hex_value(nibble_char(n) as u8) == Some(n),
{
}

/// Decoding the hex form of a byte sequence gives the bytes back.
pub proof fn lemma_hex_round_trip(b: Seq<u8>)
    ensures
        decode_hex(ascii_bytes(hex_chars(b)), b.len()) == Some(b),
        vstd::utf8::is_ascii_chars(hex_chars(b)),
{
    let h = hex_chars(b);
    let s = ascii_bytes(h);
    assert forall|i: int| 0 <= i < s.len() implies (#[trigger] hex_value(s[i])) is Some
        && hex_value(s[i]).unwrap() == if i % 2 == 0 {
        b[i / 2] / 16
    } else {
        b[i / 2] % 16
    } by {
        if i % 2 == 0 {
            lemma_nibble_char(b[i / 2] / 16);
        } else {
            lemma_nibble_char(b[i / 2] % 16);
        }
    }
    let d = decode_hex(s, b.len()).unwrap();
    assert forall|i: int| 0 <= i < b.len() implies d[i] == b[i] by {
        assert(hex_value(s[2 * i]).unwrap() == b[i] / 16);
        assert((2 * i + 1) / 2 == i);
        assert(hex_value(s[2 * i + 1]).unwrap() == b[i] % 16);
    }
    assert(d =~= b);
    assert forall|i: int| 0 <= i < h.len() implies (#[trigger] h[i] as u32) < 128 by {
        if i % 2 == 0 {
            lemma_nibble_char(b[i / 2] / 16);
        } else {
            lemma_nibble_char(b[i / 2] % 16);
        }
    }
    assert(vstd::utf8::is_ascii_chars(h));
}

fn digit_str(n: u8) -> (r: &'static str)
    requires
        n < 16,
    ensures
        r@ == seq![nibble_char(n)],
{
    proof {
        reveal_strlit("0");
        reveal_strlit("1");
        reveal_strlit("2");
        reveal_strlit("3");
        reveal_strlit("4");
        reveal_strlit("5");
        reveal_strlit("6");
        reveal_strlit("7");
        reveal_strlit("8");
        reveal_strlit("9");
        reveal_strlit("a");
        reveal_strlit("b");
        reveal_strlit("c");
        reveal_strlit("d");
        reveal_strlit("e");
        reveal_strlit("f");
    }
    match n {
        0 => "0",
        1 => "1",
        2 => "2",
        3 => "3",
        4 => "4",
        5 => "5",
        6 => "6",
        7 => "7",
        8 => "8",
        9 => "9",
        10 => "a",
        11 => "b",
        12 => "c",
        13 => "d",
        14 => "e",
        _ => "f",
    }
}

/// Appends the hex form of `bytes` to `out`.
pub fn push_hex(out: &mut String, bytes: &[u8])
    ensures
        final(out)@ == old(out)@ + hex_chars(bytes@),
{
    let ghost start = out@;
    let mut i: usize = 0;
    while i < bytes.len()
        invariant
            0 <= i <= bytes.len(),
            out@ == start + hex_chars(bytes@.subrange(0, i as int)),
        decreases bytes.len() - i,
    {
        let b = bytes[i];
        out.append(digit_str(b / 16));
        out.append(digit_str(b % 16));
        proof {
            let prev = hex_chars(bytes@.subrange(0, i as int));
            let next = hex_chars(bytes@.subrange(0, i + 1));
            assert(next =~= prev + seq![nibble_char(b / 16), nibble_char(b % 16)]) by {
                assert forall|k: int| 0 <= k < next.len() implies next[k] == (prev + seq![
                    nibble_char(b / 16),
                    nibble_char(b % 16),
                ])[k] by {
                    assert(k / 2 <= i);
                }
            }
        }
        i = i + 1;
    }
    assert(bytes@.subrange(0, bytes.len() as int) =~= bytes@);
}

/// The first eight bytes of `bytes`, read as a little-endian integer.
pub fn le_fingerprint(bytes: &[u8]) -> (r: u64)
    requires
        bytes@.len() >= 8,
    ensures
        r == fingerprint_of(bytes@),
{
    let mut acc: u64 = 0;
    let mut i: usize = 8;
    while i > 0
        invariant
            0 <= i <= 8,
            bytes@.len() >= 8,
            acc as nat == le_value(bytes@.subrange(i as int, 8)),
            le_value(bytes@.subrange(i as int, 8)) < pow256((8 - i) as nat),
        decreases i,
    {
        let ghost tail = bytes@.subrange(i as int, 8);
        i = i - 1;
        let ghost next = bytes@.subrange(i as int, 8);
        proof {
            assert(next.drop_first() =~= tail);
            assert(le_value(next) == next[0] as nat + 256 * le_value(tail));
            lemma_pow256_step((8 - (i + 1)) as nat);
            assert(pow256((8 - i) as nat) == 256 * pow256((8 - (i + 1)) as nat));
            assert(le_value(next) < pow256((8 - i) as nat)) by (nonlinear_arith)
                requires
                    le_value(next) == next[0] as nat + 256 * le_value(tail),
                    le_value(tail) < pow256((8 - (i + 1)) as nat),
                    next[0] < 256,
                    pow256((8 - i) as nat) == 256 * pow256((8 - (i + 1)) as nat),
            ;
            lemma_pow256_eight();
            lemma_pow256_mono((8 - i) as nat, 8);
        }
        acc = acc * 256 + bytes[i] as u64;
    }
    acc
}

pub open spec fn pow256(n: nat) -> nat
    decreases n,
{
    if n == 0 {
        1
    } else {
        256 * pow256((n - 1) as nat)
    }
}

proof fn lemma_pow256_eight()
    ensures
        pow256(8) == 0x1_0000_0000_0000_0000,
{
    reveal_with_fuel(pow256, 9);
}

proof fn lemma_pow256_step(n: nat)
    ensures
        pow256(n + 1) == 256 * pow256(n),
{
}

proof fn lemma_pow256_mono(a: nat, b: nat)
    requires
        a <= b,
    ensures
        pow256(a) <= pow256(b),
    decreases b - a,
{
    if a < b {
        lemma_pow256_mono(a, (b - 1) as nat);
    }
}

/// Decodes `2 * out.len()` hex digits of `s` into `out`; false when `s` is not
/// exactly that many hex digits (then `out` holds unspecified bytes).
pub fn decode_hex_into(s: &str, out: &mut [u8]) -> (ok: bool)
    ensures
        final(out)@.len() == old(out)@.len(),
        ok == (decode_hex(s.spec_bytes(), old(out)@.len()) is Some),
        ok ==> decode_hex(s.spec_bytes(), old(out)@.len()) == Some(final(out)@),
{
    let bytes = s.as_bytes();
    let n = out.len();
    let len = bytes.len();
    if len / 2 != n || len % 2 != 0 {
        return false;
    }
    let mut i: usize = 0;
    while i < n
        invariant
            0 <= i <= n,
            n == out@.len(),
            n == old(out)@.len(),
            bytes@ == s.spec_bytes(),
            bytes@.len() == 2 * n,
            len == bytes@.len(),
            forall|k: int| 0 <= k < 2 * i ==> (#[trigger] hex_value(bytes@[k])) is Some,
            forall|k: int|
                0 <= k < i ==> out@[k] == (16 * hex_value(bytes@[2 * k]).unwrap() + hex_value(
                    bytes@[2 * k + 1],
                ).unwrap()) as u8,
        decreases n - i,
    {
        assert(2 * i + 1 < len);
        let hi = nibble_value(bytes[2 * i]);
        let lo = nibble_value(bytes[2 * i + 1]);
        if hi >= 16 || lo >= 16 {
            proof {
                let bad = if hi >= 16 { 2 * i } else { 2 * i + 1 };
                assert(hex_value(bytes@[bad as int]) is None);
            }
            return false;
        }
        out[i] = hi * 16 + lo;
        proof {
            assert forall|k: int| 0 <= k < 2 * (i + 1) implies (#[trigger] hex_value(
                bytes@[k],
            )) is Some by {
                if k >= 2 * i {
                    assert(k == 2 * i || k == 2 * i + 1);
                }
            }
        }
        i = i + 1;
    }
    proof {
        let d = decode_hex(s.spec_bytes(), n as nat);
        assert(d is Some);
        assert(d.unwrap() =~= out@);
    }
    true
}

/// The value of a hex digit, or 16 when `c` is not one.
fn nibble_value(c: u8) -> (r: u8)
    ensures
        r <= 16,
        r < 16 <==> hex_value(c) is Some,
        r < 16 ==> hex_value(c) == Some(r),
{
    if 48 <= c && c <= 57 {
        c - 48
    } else if 97 <= c && c <= 102 {
        c - 87
    } else if 65 <= c && c <= 70 {
        c - 55
    } else {
        16
    }
}

} // verus!
