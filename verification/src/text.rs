//! Character and string primitives shared by the generation stages.

use vstd::prelude::*;

verus! {

/// True for the ten ASCII decimal digits.
pub open spec fn is_digit(c: char) -> bool {
    '0' <= c && c <= '9'
}

/// A sequence made of digits only, and of at least one.
pub open spec fn is_numeric(s: Seq<char>) -> bool {
    s.len() > 0 && forall|i: int| 0 <= i < s.len() ==> is_digit(#[trigger] s[i])
}

/// `n` times the digit zero.
pub open spec fn zeros(n: nat) -> Seq<char> {
    Seq::new(n, |i: int| '0')
}

/// `s` with zeros put in front until it has `width` characters; `s` itself
/// where it already has that many.
pub open spec fn pad_left(s: Seq<char>, width: nat) -> Seq<char> {
    if s.len() >= width {
        s
    } else {
        zeros((width - s.len()) as nat) + s
    }
}

/// Decides whether `c` is an ASCII decimal digit.
pub fn char_is_digit(c: char) -> (r: bool)
    ensures
        r == is_digit(c),
{
    '0' <= c && c <= '9'
}

/// Decides whether `s` is a non-empty run of ASCII decimal digits.
pub fn numeric(s: &str) -> (r: bool)
    ensures
        r == is_numeric(s@),
{
    broadcast use vstd::string::group_string_axioms;

    let mut all: bool = true;
    for c in it: s.chars()
        invariant
            it.seq() == s@,
            all == (forall|j: int| 0 <= j < it.index() ==> is_digit(#[trigger] s@[j])),
    {
        if !char_is_digit(c) {
            all = false;
        }
    }
    all && !s.is_empty()
}

/// Pads `s` on the left with zeros to `width` characters.
pub fn pad_zeros(s: &str, width: usize) -> (r: String)
    ensures
        r@ == pad_left(s@, width as nat),
{
    let n: usize = s.unicode_len();
    let mut out = String::new();
    let mut k: usize = n;
    while k < width
        invariant
            n == s@.len(),
            n <= k,
            k <= width || k == n,
            out@ == zeros((k - n) as nat),
        decreases width - k,
    {
        proof {
            reveal_strlit("0");
            assert(zeros((k - n) as nat) + "0"@ =~= zeros((k + 1 - n) as nat));
        }
        out.append("0");
        k = k + 1;
    }
    proof {
        assert(zeros(0) + s@ =~= s@);
    }
    out.append(s);
    out
}

/// Padding leaves a numeric sequence numeric.
pub proof fn lemma_pad_left_numeric(s: Seq<char>, width: nat)
    requires
        is_numeric(s),
    ensures
        is_numeric(pad_left(s, width)),
{
}

/// `long` is `short` with one or more zeros put in front.
pub open spec fn zero_extends(short: Seq<char>, long: Seq<char>) -> bool {
    short.len() < long.len() && long == zeros((long.len() - short.len()) as nat) + short
}

/// Two sequences no longer than `width` pad to the same text exactly where
/// they are equal or one is the other with zeros in front.
pub proof fn lemma_pad_left_same(a: Seq<char>, b: Seq<char>, width: nat)
    requires
        a.len() <= width,
        b.len() <= width,
    ensures
        pad_left(a, width) == pad_left(b, width) <==> a == b || zero_extends(a, b) || zero_extends(
            b,
            a,
        ),
{
    let pa = pad_left(a, width);
    let pb = pad_left(b, width);
    assert(pa =~= zeros((width - a.len()) as nat) + a);
    assert(pb =~= zeros((width - b.len()) as nat) + b);
    if pa == pb {
        if a.len() == b.len() {
            assert forall|k: int| 0 <= k < a.len() implies a[k] == b[k] by {
                assert(a[k] == pa[width - a.len() + k]);
                assert(b[k] == pb[width - b.len() + k]);
            }
            assert(a =~= b);
        } else if a.len() < b.len() {
            let d = b.len() - a.len();
            let ext = zeros(d as nat) + a;
            assert forall|k: int| 0 <= k < b.len() implies b[k] == ext[k] by {
                assert(b[k] == pb[width - b.len() + k]);
                assert(pa[width - b.len() + k] == if k < d {
                    '0'
                } else {
                    a[k - d]
                });
            }
            assert(b =~= ext);
        } else {
            let d = a.len() - b.len();
            let ext = zeros(d as nat) + b;
            assert forall|k: int| 0 <= k < a.len() implies a[k] == ext[k] by {
                assert(a[k] == pa[width - a.len() + k]);
                assert(pb[width - a.len() + k] == if k < d {
                    '0'
                } else {
                    b[k - d]
                });
            }
            assert(a =~= ext);
        }
    }
    if zero_extends(a, b) {
        assert(pa =~= pb);
    }
    if zero_extends(b, a) {
        assert(pa =~= pb);
    }
}

} // verus!
