//! Small verified text helpers shared by the printer, the error renderer and
//! the lexer: decimal rendering of machine integers, repeated characters,
//! comma-separated joining, and character-wise string comparison.
use vstd::prelude::*;

verus! {

/// The character for a single decimal digit.
pub open spec fn digit_char(d: nat) -> char {
    if d == 0 {
        '0'
    } else if d == 1 {
        '1'
    } else if d == 2 {
        '2'
    } else if d == 3 {
        '3'
    } else if d == 4 {
        '4'
    } else if d == 5 {
        '5'
    } else if d == 6 {
        '6'
    } else if d == 7 {
        '7'
    } else if d == 8 {
        '8'
    } else {
        '9'
    }
}

/// Decimal rendering of a natural number, most significant digit first.
pub open spec fn dec_str(n: nat) -> Seq<char>
    decreases n,
{
    if n < 10 {
        seq![digit_char(n)]
    } else {
        dec_str(n / 10) + seq![digit_char(n % 10)]
    }
}

pub proof fn lemma_dec_str_len(n: nat)
    ensures
        dec_str(n).len() >= 1,
    decreases n,
{
    if n >= 10 {
        lemma_dec_str_len(n / 10);
    }
}

/// Two distinct numbers never share a decimal rendering.
pub proof fn lemma_dec_str_injective(a: nat, b: nat)
    requires
        dec_str(a) == dec_str(b),
    ensures
        a == b,
    decreases a,
{
    lemma_dec_str_len(a);
    lemma_dec_str_len(b);
    if a < 10 && b < 10 {
        assert(dec_str(a) == seq![digit_char(a)]);
        assert(dec_str(b) == seq![digit_char(b)]);
        assert(seq![digit_char(a)][0] == digit_char(a));
        assert(seq![digit_char(b)][0] == digit_char(b));
        assert(digit_char(a) == digit_char(b));
        assert(a == b);
    } else if a < 10 {
        lemma_dec_str_len(b / 10);
        assert(dec_str(b).len() >= 2);
        assert(dec_str(a).len() == 1);
    } else if b < 10 {
        lemma_dec_str_len(a / 10);
        assert(dec_str(a).len() >= 2);
        assert(dec_str(b).len() == 1);
    } else {
        let la = dec_str(a / 10).len() as int;
        assert(dec_str(a).last() == digit_char(a % 10));
        assert(dec_str(b).last() == digit_char(b % 10));
        assert(digit_char(a % 10) == digit_char(b % 10));
        assert(a % 10 == b % 10);
        assert(dec_str(a / 10) =~= dec_str(a).drop_last());
        assert(dec_str(b / 10) =~= dec_str(b).drop_last());
        lemma_dec_str_injective(a / 10, b / 10);
    }
}

fn digit_to_str(d: u64) -> (r: &'static str)
    requires
        d < 10,
    ensures
        r@ =~= seq![digit_char(d as nat)],
{
    proof {
        reveal_strlit("0");
        reveal_strlit("1");
        reveal_strlit("2");
        reveal_strlit("3");
        reveal_strlit("4");
        reveal_strlit("5");
        reveal_strlit("6");
        reveal_strlit("7");
        reveal_strlit("8");
        reveal_strlit("9");
    }
    if d == 0 {
        "0"
    } else if d == 1 {
        "1"
    } else if d == 2 {
        "2"
    } else if d == 3 {
        "3"
    } else if d == 4 {
        "4"
    } else if d == 5 {
        "5"
    } else if d == 6 {
        "6"
    } else if d == 7 {
        "7"
    } else if d == 8 {
        "8"
    } else {
        "9"
    }
}

/// Renders an unsigned machine integer in decimal.
pub fn u64_to_string(n: u64) -> (r: String)
    ensures
        r@ == dec_str(n as nat),
    decreases n,
{
    if n < 10 {
        let r = String::from_str(digit_to_str(n));
        proof {
            assert(r@ =~= dec_str(n as nat));
        }
        r
    } else {
        let mut r = u64_to_string(n / 10);
        r.append(digit_to_str(n % 10));
        proof {
            assert(r@ =~= dec_str(n as nat));
        }
        r
    }
}

/// A sequence of `n` copies of `c`.
pub open spec fn char_repeat(c: char, n: nat) -> Seq<char>
    decreases n,
{
    if n == 0 {
        Seq::empty()
    } else {
        char_repeat(c, (n - 1) as nat) + seq![c]
    }
}

/// Appends `n` copies of the one-character string `piece` to `out`.
pub fn append_repeat(out: &mut String, piece: &str, n: usize)
    requires
        piece@.len() == 1,
    ensures
        final(out)@ == old(out)@ + char_repeat(piece@[0], n as nat),
{
    let mut i: usize = 0;
    while i < n
        invariant
            i <= n,
            piece@.len() == 1,
            out@ == old(out)@ + char_repeat(piece@[0], i as nat),
        decreases n - i,
    {
        out.append(piece);
        i = i + 1;
        proof {
            assert(out@ =~= old(out)@ + char_repeat(piece@[0], i as nat));
        }
    }
}

/// Joins the pieces with `", "` between neighbours.
pub open spec fn comma_join(pieces: Seq<Seq<char>>) -> Seq<char>
    decreases pieces.len(),
{
    if pieces.len() == 0 {
        Seq::empty()
    } else if pieces.len() == 1 {
        pieces[0]
    } else {
        pieces[0] + ", "@ + comma_join(pieces.drop_first())
    }
}

/// Character-wise equality of two string slices.
pub fn str_eq(a: &str, b: &str) -> (r: bool)
    ensures
        r == (a@ == b@),
{
    let la = a.unicode_len();
    let lb = b.unicode_len();
    if la != lb {
        proof {
            assert(a@ != b@);
        }
        return false;
    }
    let mut i: usize = 0;
    while i < la
        invariant
            i <= la,
            la == a@.len(),
            la == b@.len(),
            forall|k: int| 0 <= k < i ==> a@[k] == b@[k],
        decreases la - i,
    {
        if a.get_char(i) != b.get_char(i) {
            return false;
        }
        i = i + 1;
    }
    proof {
        assert(a@ =~= b@);
    }
    true
}

/// The text of the first `k` pieces of a comma join: every piece but the last
/// is followed by `", "`; the last is not, unless more pieces follow.
pub open spec fn comma_join_prefix(pieces: Seq<Seq<char>>, k: nat) -> Seq<char>
    decreases k,
{
    if k == 0 {
        Seq::empty()
    } else {
        comma_join_prefix(pieces, (k - 1) as nat) + pieces[k - 1] + (if k < pieces.len() {
            ", "@
        } else {
            Seq::empty()
        })
    }
}

pub proof fn lemma_comma_join_prefix_step(pieces: Seq<Seq<char>>, k: nat)
    ensures
        comma_join_prefix(pieces, (k + 1) as nat) == comma_join_prefix(pieces, k) + pieces[k as int]
            + (if k + 1 < pieces.len() {
            ", "@
        } else {
            Seq::<char>::empty()
        }),
{
}

/// Joining one more piece at the end appends a separator before it unless it
/// is the first.
pub proof fn lemma_comma_join_snoc(pieces: Seq<Seq<char>>, x: Seq<char>)
    ensures
        comma_join(pieces.push(x)) == if pieces.len() == 0 {
            x
        } else {
            comma_join(pieces) + ", "@ + x
        },
    decreases pieces.len(),
{
    if pieces.len() == 0 {
        assert(pieces.push(x)[0] == x);
        assert(comma_join(pieces.push(x)) == x);
    } else {
        lemma_comma_join_snoc(pieces.drop_first(), x);
        assert(pieces.push(x).drop_first() =~= pieces.drop_first().push(x));
        assert(pieces.push(x)[0] == pieces[0]);
        if pieces.len() == 1 {
            assert(comma_join(pieces.drop_first()) =~= Seq::<char>::empty());
            assert(comma_join(pieces) == pieces[0]);
            assert(comma_join(pieces.push(x)) =~= comma_join(pieces) + ", "@ + x);
        } else {
            assert(comma_join(pieces.push(x)) =~= comma_join(pieces) + ", "@ + x);
        }
    }
}

/// The iterative prefix rendering agrees with the recursive join on the
/// rendered prefix, with a trailing separator when more pieces follow.
pub proof fn lemma_comma_join_prefix_eq(pieces: Seq<Seq<char>>, k: nat)
    requires
        k <= pieces.len(),
    ensures
        comma_join_prefix(pieces, k) == comma_join(pieces.take(k as int)) + (if 0 < k
            < pieces.len() {
            ", "@
        } else {
            Seq::<char>::empty()
        }),
    decreases k,
{
    if k == 0 {
        assert(pieces.take(0) =~= Seq::<Seq<char>>::empty());
        assert(comma_join_prefix(pieces, 0) =~= comma_join(pieces.take(0)) + Seq::<char>::empty());
    } else {
        lemma_comma_join_prefix_eq(pieces, (k - 1) as nat);
        lemma_comma_join_snoc(pieces.take(k as int - 1), pieces[k as int - 1]);
        assert(pieces.take(k as int - 1).push(pieces[k as int - 1]) =~= pieces.take(k as int));
        assert(comma_join_prefix(pieces, k) =~= comma_join(pieces.take(k as int)) + (if 0 < k
            < pieces.len() {
            ", "@
        } else {
            Seq::<char>::empty()
        }));
    }
}

/// A full comma-join prefix equals the recursive `comma_join`.
pub proof fn lemma_comma_join_prefix_full(pieces: Seq<Seq<char>>)
    ensures
        comma_join_prefix(pieces, pieces.len()) == comma_join(pieces),
{
    lemma_comma_join_prefix_eq(pieces, pieces.len());
    assert(pieces.take(pieces.len() as int) =~= pieces);
    assert(comma_join_prefix(pieces, pieces.len()) =~= comma_join(pieces));
}

/// Whether a character is a decimal digit.
pub open spec fn is_digit_char(c: char) -> bool {
    '0' <= c && c <= '9'
}

pub proof fn lemma_dec_str_digits(n: nat)
    ensures
        forall|i: int| 0 <= i < dec_str(n).len() ==> is_digit_char(#[trigger] dec_str(n)[i]),
    decreases n,
{
    if n >= 10 {
        lemma_dec_str_digits(n / 10);
        assert forall|i: int| 0 <= i < dec_str(n).len() implies is_digit_char(
            #[trigger] dec_str(n)[i],
        ) by {
            if i < dec_str(n / 10).len() {
                assert(dec_str(n)[i] == dec_str(n / 10)[i]);
            }
        }
    }
}

/// The maximal run of decimal digits at the end of a text.
pub open spec fn trailing_digits(s: Seq<char>) -> Seq<char>
    decreases s.len(),
{
    if s.len() == 0 || !is_digit_char(s.last()) {
        Seq::empty()
    } else {
        trailing_digits(s.drop_last()) + seq![s.last()]
    }
}

/// Appending an all-digit run after a text not ending in a digit makes that
/// run exactly the trailing digits.
pub proof fn lemma_trailing_digits_append(x: Seq<char>, d: Seq<char>)
    requires
        forall|i: int| 0 <= i < d.len() ==> is_digit_char(#[trigger] d[i]),
        x.len() == 0 || !is_digit_char(x.last()),
    ensures
        trailing_digits(x + d) == d,
    decreases d.len(),
{
    if d.len() == 0 {
        assert(x + d =~= x);
        if x.len() > 0 {
            assert(trailing_digits(x) =~= Seq::<char>::empty());
        }
        assert(trailing_digits(x + d) =~= d);
    } else {
        lemma_trailing_digits_append(x, d.drop_last());
        assert((x + d).last() == d.last());
        assert(is_digit_char((x + d).last()));
        assert((x + d).drop_last() =~= x + d.drop_last());
        assert(trailing_digits(x + d) =~= d);
    }
}

} // verus!
