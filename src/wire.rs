//! The top-level field framing of a protobuf buffer: whether its fields run
//! cleanly to the end, stop short (a truncated buffer), or break the wire
//! format. Only framing is examined: field numbers and contents are the
//! decoder's business.

use vstd::prelude::*;

verus! {

/// How the top-level fields of a buffer are framed.
#[derive(Clone, Copy, Debug, PartialEq, Eq, Structural)]
pub enum Framing {
    /// Every field is complete and the last one ends at the end of the buffer.
    Complete,
    /// A field runs past the end of the buffer.
    Truncated,
    /// A varint longer than ten bytes, or a wire type other than varint,
    /// 64-bit, length-delimited or 32-bit.
    Malformed,
}

/// The outcome of reading one item (a varint or a field) at some position.
#[derive(Clone, Copy, Debug, PartialEq, Eq, Structural)]
pub enum Step {
    /// The item ends just before this position.
    Next(usize),
    Truncated,
    Malformed,
}

/// Reading the varint that starts at `i`, having passed `k` of its bytes.
pub open spec fn varint_end(b: Seq<u8>, i: int, k: int) -> Step
    decreases 10 - k,
{
    if k < 0 || k >= 10 {
        Step::Malformed
    } else if i + k >= b.len() {
        Step::Truncated
    } else if b[i + k] < 128 {
        Step::Next((i + k + 1) as usize)
    } else {
        varint_end(b, i, k + 1)
    }
}

/// `128` to the power `n`.
pub open spec fn pow128(n: nat) -> nat
    decreases n,
{
    if n == 0 {
        1
    } else {
        128 * pow128((n - 1) as nat)
    }
}

/// The number that the `n` varint bytes starting at `i` encode, seven bits
/// per byte, least significant group first.
pub open spec fn varint_value(b: Seq<u8>, i: int, n: nat) -> nat
    decreases n,
{
    if n == 0 {
        0
    } else {
        (b[i] % 128) as nat + 128 * varint_value(b, i + 1, (n - 1) as nat)
    }
}

/// Reading the bytes of a payload of `len` bytes that starts at `j`.
pub open spec fn skip(b: Seq<u8>, j: int, len: int) -> Step {
    if j + len <= b.len() {
        Step::Next((j + len) as usize)
    } else {
        Step::Truncated
    }
}

/// Reading the field whose key starts at `i`; its wire type is the low three
/// bits of the key.
pub open spec fn field_end(b: Seq<u8>, i: int) -> Step {
    match varint_end(b, i, 0) {
        Step::Next(j) => {
            let wire_type = b[i] % 8;
            if wire_type == 0 {
                varint_end(b, j as int, 0)
            } else if wire_type == 1 {
                skip(b, j as int, 8)
            } else if wire_type == 5 {
                skip(b, j as int, 4)
            } else if wire_type == 2 {
                match varint_end(b, j as int, 0) {
                    Step::Next(e) => skip(b, e as int, varint_value(b, j as int, (e - j) as nat) as int),
                    other => other,
                }
            } else {
                Step::Malformed
            }
        },
        other => other,
    }
}

/// The framing of the fields of `b` from position `i` on.
pub open spec fn framing_from(b: Seq<u8>, i: int) -> Framing
    decreases b.len() - i,
{
    if i >= b.len() {
        Framing::Complete
    } else {
        match field_end(b, i) {
            Step::Next(j) => if i < j <= b.len() {
                framing_from(b, j as int)
            } else {
                Framing::Malformed
            },
            Step::Truncated => Framing::Truncated,
            Step::Malformed => Framing::Malformed,
        }
    }
}

/// The framing of the whole buffer.
pub open spec fn framing(b: Seq<u8>) -> Framing {
    framing_from(b, 0)
}

proof fn lemma_pow128_monotone(n: nat, m: nat)
    requires
        n <= m,
    ensures
        pow128(n) <= pow128(m),
    decreases m,
{
    if n < m {
        lemma_pow128_monotone(n, (m - 1) as nat);
    }
}

proof fn lemma_pow128_ten()
    ensures
        pow128(10) == 0x40_0000_0000_0000_0000,
{
    reveal_with_fuel(pow128, 11);
}

fn read_varint_end(b: &[u8], i: usize) -> (r: Step)
    requires
        i <= b@.len(),
    ensures
        r == varint_end(b@, i as int, 0),
        r matches Step::Next(j) ==> i < j <= b@.len() && j - i <= 10,
{
    let mut k: usize = 0;
    while k < 10
        invariant
            i <= b@.len(),
            k <= 10,
            varint_end(b@, i as int, 0) == varint_end(b@, i as int, k as int),
        decreases 10 - k,
    {
        if k >= b.len() - i {
            return Step::Truncated;
        }
        if b[i + k] < 128 {
            return Step::Next(i + k + 1);
        }
        k += 1;
    }
    Step::Malformed
}

fn read_varint_value(b: &[u8], i: usize, n: usize) -> (r: u128)
    requires
        i + n <= b@.len(),
        n <= 10,
    ensures
        r == varint_value(b@, i as int, n as nat),
        r < pow128(n as nat),
    decreases n,
{
    if n == 0 {
        0
    } else {
        let len = b.len();
        assert(i < len);
        let rest = read_varint_value(b, i + 1, n - 1);
        let low = (b[i] % 128) as u128;
        proof {
            lemma_pow128_monotone(n as nat, 10);
            lemma_pow128_ten();
            let p = pow128((n - 1) as nat);
            assert(128 * rest + low < 128 * p) by (nonlinear_arith)
                requires
                    rest < p,
                    low < 128,
            ;
        }
        low + 128 * rest
    }
}

fn read_skip(b: &[u8], j: usize, len: u128) -> (r: Step)
    requires
        j <= b@.len(),
    ensures
        r == skip(b@, j as int, len as int),
{
    if len <= (b.len() - j) as u128 {
        Step::Next(j + len as usize)
    } else {
        Step::Truncated
    }
}

fn read_field_end(b: &[u8], i: usize) -> (r: Step)
    requires
        i < b@.len(),
    ensures
        r == field_end(b@, i as int),
{
    match read_varint_end(b, i) {
        Step::Next(j) => {
            let wire_type = b[i] % 8;
            if wire_type == 0 {
                read_varint_end(b, j)
            } else if wire_type == 1 {
                read_skip(b, j, 8)
            } else if wire_type == 5 {
                read_skip(b, j, 4)
            } else if wire_type == 2 {
                match read_varint_end(b, j) {
                    Step::Next(e) => {
                        let len = read_varint_value(b, j, e - j);
                        read_skip(b, e, len)
                    },
                    other => other,
                }
            } else {
                Step::Malformed
            }
        },
        other => other,
    }
}

/// Scans the top-level field framing of `b`.
pub fn framing_of(b: &[u8]) -> (r: Framing)
    ensures
        r == framing(b@),
{
    let mut i: usize = 0;
    while i < b.len()
        invariant
            i <= b@.len(),
            framing_from(b@, i as int) == framing(b@),
        decreases b@.len() - i,
    {
        match read_field_end(b, i) {
            Step::Next(j) => {
                if i < j && j <= b.len() {
                    i = j;
                } else {
                    return Framing::Malformed;
                }
            },
            Step::Truncated => {
                return Framing::Truncated;
            },
            Step::Malformed => {
                return Framing::Malformed;
            },
        }
    }
    Framing::Complete
}

} // verus!
