//! Lowercase hexadecimal coding of byte strings, and small byte-vector
//! helpers the protocol codec is built from.
//!
//! Every opaque payload travels inside a message as the hex image of its
//! bytes, so the codec needs an exact, invertible description of that
//! image: `hex_of` is the specification, and the executable encoder and
//! decoder are proved to produce and to accept exactly that image.

use vstd::prelude::*;

verus! {

/// The lowercase hex digit (as an ASCII byte) of a value below sixteen.
pub open spec fn hex_digit(v: u8) -> u8
    recommends
        v < 16,
{
    if v < 10 {
        (48 + v) as u8
    } else {
        (87 + v) as u8
    }
}

/// The value a hex digit stands for, if the byte is a lowercase hex digit.
pub open spec fn hex_val(d: u8) -> Option<u8> {
    if 48 <= d && d <= 57 {
        Some((d - 48) as u8)
    } else if 97 <= d && d <= 102 {
        Some((d - 87) as u8)
    } else {
        None
    }
}

pub proof fn lemma_hex_digit_val(v: u8)
    requires
        v < 16,
    ensures
        hex_val(hex_digit(v)) == Some(v),
{
}

/// The hex image of a byte string: two lowercase digits for each byte.
pub open spec fn hex_of(s: Seq<u8>) -> Seq<u8>
    decreases s.len(),
{
    if s.len() == 0 {
        Seq::empty()
    } else {
        hex_of(s.drop_last()) + seq![
            hex_digit(s.last() / 16),
            hex_digit(s.last() % 16),
        ]
    }
}

pub proof fn lemma_hex_of_len(s: Seq<u8>)
    ensures
        hex_of(s).len() == 2 * s.len(),
    decreases s.len(),
{
    if s.len() > 0 {
        lemma_hex_of_len(s.drop_last());
    }
}

pub proof fn lemma_hex_of_index(s: Seq<u8>, i: int)
    requires
        0 <= i < s.len(),
    ensures
        hex_of(s).len() == 2 * s.len(),
        hex_of(s)[2 * i] == hex_digit(s[i] / 16),
        hex_of(s)[2 * i + 1] == hex_digit(s[i] % 16),
    decreases s.len(),
{
    lemma_hex_of_len(s);
    if i < s.len() - 1 {
        lemma_hex_of_index(s.drop_last(), i);
    } else {
        lemma_hex_of_len(s.drop_last());
    }
}

pub proof fn lemma_hex_of_push(s: Seq<u8>, b: u8)
    ensures
        hex_of(s.push(b)) == hex_of(s) + seq![hex_digit(b / 16), hex_digit(b % 16)],
{
    assert(s.push(b).drop_last() =~= s);
    assert(s.push(b).last() == b);
}

/// Hex images are unambiguous: equal images come from equal byte strings.
pub proof fn lemma_hex_of_injective(a: Seq<u8>, b: Seq<u8>)
    requires
        hex_of(a) == hex_of(b),
    ensures
        a == b,
{
    lemma_hex_of_len(a);
    lemma_hex_of_len(b);
    assert forall|i: int| 0 <= i < a.len() implies a[i] == b[i] by {
        lemma_hex_of_index(a, i);
        lemma_hex_of_index(b, i);
        lemma_hex_digit_val(a[i] / 16);
        lemma_hex_digit_val(a[i] % 16);
        lemma_hex_digit_val(b[i] / 16);
        lemma_hex_digit_val(b[i] % 16);
        assert(a[i] / 16 == b[i] / 16 && a[i] % 16 == b[i] % 16);
    };
    assert(a =~= b);
}

/// The executable hex digit of a value below sixteen.
pub fn hex_digit_of(v: u8) -> (r: u8)
    requires
        v < 16,
    ensures
        r == hex_digit(v),
{
    if v < 10 {
        48 + v
    } else {
        87 + v
    }
}

/// Appends the hex image of `src` to `dst`.
pub fn hex_encode_into(src: &Vec<u8>, dst: &mut Vec<u8>)
    ensures
        final(dst)@ == old(dst)@ + hex_of(src@),
{
    let ghost dst0 = dst@;
    let mut i: usize = 0;
    while i < src.len()
        invariant
            0 <= i <= src@.len(),
            dst@ == dst0 + hex_of(src@.take(i as int)),
        decreases src@.len() - i,
    {
        let b = src[i];
        dst.push(hex_digit_of(b / 16));
        dst.push(hex_digit_of(b % 16));
        proof {
            lemma_hex_of_push(src@.take(i as int), b);
            assert(src@.take(i + 1) =~= src@.take(i as int).push(b));
            assert(dst@ =~= dst0 + hex_of(src@.take(i + 1)));
        }
        i = i + 1;
    }
    proof {
        assert(src@.take(src@.len() as int) =~= src@);
    }
}

/// The executable value of one hex digit byte.
pub fn hex_val_of(d: u8) -> (r: Option<u8>)
    ensures
        r == hex_val(d),
{
    if 48 <= d && d <= 57 {
        Some(d - 48)
    } else if 97 <= d && d <= 102 {
        Some(d - 87)
    } else {
        None
    }
}

/// Decodes a whole buffer as the hex image of some byte string.
///
/// Succeeds exactly on the image of `hex_of`, and then returns the unique
/// byte string whose image the buffer is.
pub fn hex_decode(src: &Vec<u8>) -> (r: Option<Vec<u8>>)
    ensures
        r matches Some(p) ==> src@ == hex_of(p@),
        r is None ==> forall|p: Seq<u8>| src@ != hex_of(p),
{
    if src.len() % 2 != 0 {
        proof {
            assert forall|p: Seq<u8>| src@ != hex_of(p) by {
                lemma_hex_of_len(p);
            };
        }
        return None;
    }
    let n: usize = src.len();
    let half: usize = n / 2;
    let mut out: Vec<u8> = Vec::new();
    let mut i: usize = 0;
    while i < half
        invariant
            0 <= i <= half,
            n == src@.len(),
            2 * half == n,
            out@.len() == i,
            src@.take(2 * i) == hex_of(out@),
        decreases half - i,
    {
        let d_hi = src[2 * i];
        let d_lo = src[2 * i + 1];
        let v_hi = hex_val_of(d_hi);
        let v_lo = hex_val_of(d_lo);
        match (v_hi, v_lo) {
            (Some(hi), Some(lo)) => {
                let b = 16 * hi + lo;
                proof {
                    lemma_hex_digit_val(hi);
                    lemma_hex_digit_val(lo);
                    assert(b / 16 == hi && b % 16 == lo);
                    lemma_hex_of_push(out@, b);
                    assert(src@.take(2 * (i + 1)) =~= src@.take(2 * i) + seq![d_hi, d_lo]);
                    assert(src@.take(2 * (i + 1)) =~= hex_of(out@.push(b)));
                }
                out.push(b);
            },
            _ => {
                proof {
                    assert forall|p: Seq<u8>| src@ != hex_of(p) by {
                        if src@ == hex_of(p) {
                            lemma_hex_of_len(p);
                            lemma_hex_of_index(p, i as int);
                            lemma_hex_digit_val(p[i as int] / 16);
                            lemma_hex_digit_val(p[i as int] % 16);
                        }
                    };
                }
                return None;
            },
        }
        i = i + 1;
    }
    proof {
        assert(src@.take(2 * (half as int)) =~= src@);
    }
    Some(out)
}

/// Whether two byte vectors hold the same bytes.
pub fn bytes_eq(a: &Vec<u8>, b: &Vec<u8>) -> (r: bool)
    ensures
        r == (a@ == b@),
{
    if a.len() != b.len() {
        return false;
    }
    let mut i: usize = 0;
    while i < a.len()
        invariant
            0 <= i <= a@.len(),
            a@.len() == b@.len(),
            forall|k: int| 0 <= k < i ==> a@[k] == b@[k],
        decreases a@.len() - i,
    {
        if a[i] != b[i] {
            return false;
        }
        i = i + 1;
    }
    proof {
        assert(a@ =~= b@);
    }
    true
}

/// Appends the bytes of `src` to `dst`.
pub fn append_bytes(src: &Vec<u8>, dst: &mut Vec<u8>)
    ensures
        final(dst)@ == old(dst)@ + src@,
{
    let ghost dst0 = dst@;
    let mut i: usize = 0;
    while i < src.len()
        invariant
            0 <= i <= src@.len(),
            dst@ == dst0 + src@.take(i as int),
        decreases src@.len() - i,
    {
        dst.push(src[i]);
        proof {
            assert(dst@ =~= dst0 + src@.take(i + 1));
        }
        i = i + 1;
    }
    proof {
        assert(src@.take(src@.len() as int) =~= src@);
    }
}

/// Copies the bytes of `src` into a fresh vector.
pub fn copy_bytes(src: &Vec<u8>) -> (r: Vec<u8>)
    ensures
        r@ == src@,
{
    let mut out: Vec<u8> = Vec::new();
    append_bytes(src, &mut out);
    out
}

} // verus!
