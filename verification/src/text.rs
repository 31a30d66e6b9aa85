//! Rendering of diagnostic messages: decimal integers and message pieces.

use vstd::prelude::*;

verus! {

/// `String::from(&str)` from std (the `From<&str>` impl of `String`): its documentation says
/// it allocates a `String` holding the same characters as the slice. Trusted as stated.
pub assume_specification<'a>[ <String as From<&'a str>>::from ](s: &str) -> (r: String)
    ensures
        r@ == s@,
;

/// One piece of a diagnostic message: literal text or an integer printed in decimal.
pub enum Piece<'a> {
    /// Literal text.
    Text(&'a str),
    /// The characters of an owned string.
    Str(&'a String),
    /// An integer in decimal.
    Int(i128),
    /// The mathematical difference of two integers, in decimal.
    Diff(i128, i128),
}

/// The decimal digit character for `d` (`d < 10`).
pub open spec fn digit_char(d: nat) -> char {
    if d == 0 {
        '0'
    } else if d == 1 {
        '1'
    } else if d == 2 {
        '2'
    } else if d == 3 {
        '3'
    } else if d == 4 {
        '4'
    } else if d == 5 {
        '5'
    } else if d == 6 {
        '6'
    } else if d == 7 {
        '7'
    } else if d == 8 {
        '8'
    } else {
        '9'
    }
}

/// Decimal digits of a natural number, most significant first, without leading zeros.
pub open spec fn dec_nat(n: nat) -> Seq<char>
    decreases n,
{
    if n < 10 {
        seq![digit_char(n)]
    } else {
        dec_nat(n / 10) + seq![digit_char(n % 10)]
    }
}

/// Decimal rendering of an integer, with a leading `-` when negative.
pub open spec fn dec_int(x: int) -> Seq<char> {
    if x < 0 {
        seq!['-'] + dec_nat((-x) as nat)
    } else {
        dec_nat(x as nat)
    }
}

/// The characters of one message piece.
pub open spec fn piece_chars(p: Piece) -> Seq<char> {
    match p {
        Piece::Text(s) => s@,
        Piece::Str(s) => s@,
        Piece::Int(x) => dec_int(x as int),
        Piece::Diff(a, b) => dec_int(a - b),
    }
}

/// The characters of a whole message: its pieces one after the other.
pub open spec fn render(ps: Seq<Piece>) -> Seq<char>
    decreases ps.len(),
{
    if ps.len() == 0 {
        Seq::empty()
    } else {
        render(ps.drop_last()) + piece_chars(ps.last())
    }
}

/// The number a string of decimal digits denotes, most significant digit first.
pub open spec fn numeral_value(s: Seq<char>) -> int
    decreases s.len(),
{
    if s.len() == 0 {
        0
    } else {
        numeral_value(s.drop_last()) * 10 + (s.last() as int - 48)
    }
}

/// `c` is one of the decimal digits `0` to `9`.
pub open spec fn is_digit(c: char) -> bool {
    48 <= c as int <= 57
}

proof fn lemma_digit_char(d: nat)
    requires
        d < 10,
    ensures
        digit_char(d) as int == 48 + d,
{
}

/// Decimal rendering of a natural number: a non-empty string of digits, without a leading
/// zero, that denotes the number.
pub proof fn law_dec_nat(n: nat)
    ensures
        dec_nat(n).len() > 0,
        forall|i: int| 0 <= i < dec_nat(n).len() ==> is_digit(#[trigger] dec_nat(n)[i]),
        numeral_value(dec_nat(n)) == n,
        n > 0 ==> dec_nat(n)[0] != '0',
    decreases n,
{
    if n < 10 {
        lemma_digit_char(n);
        assert(seq![digit_char(n)].drop_last() =~= Seq::<char>::empty());
        assert(numeral_value(Seq::<char>::empty()) == 0);
        assert(numeral_value(dec_nat(n)) == numeral_value(Seq::<char>::empty()) * 10 + (
        digit_char(n) as int - 48));
    } else {
        law_dec_nat(n / 10);
        lemma_digit_char(n % 10);
        assert(n == (n / 10) * 10 + n % 10) by (nonlinear_arith);
        let d = seq![digit_char(n % 10)];
        assert((dec_nat(n / 10) + d).drop_last() =~= dec_nat(n / 10));
        assert((dec_nat(n / 10) + d).last() == digit_char(n % 10));
        assert(numeral_value(dec_nat(n)) == numeral_value(dec_nat(n / 10)) * 10 + (digit_char(
            n % 10,
        ) as int - 48));
        assert(dec_nat(n)[0] == dec_nat(n / 10)[0]);
        assert forall|i: int| 0 <= i < dec_nat(n).len() implies is_digit(
            #[trigger] dec_nat(n)[i],
        ) by {
            if i < dec_nat(n / 10).len() {
                assert(dec_nat(n)[i] == dec_nat(n / 10)[i]);
            }
        }
    }
}

/// Decimal rendering of an integer: a negative one is a minus sign followed by the digits of
/// its magnitude; any other is the digits of the number itself.
pub proof fn law_dec_int(x: int)
    ensures
        x < 0 ==> dec_int(x)[0] == '-' && numeral_value(dec_int(x).drop_first()) == -x
            && dec_int(x).drop_first()[0] != '0',
        x >= 0 ==> numeral_value(dec_int(x)) == x,
        forall|i: int| (x < 0 ==> 1 <= i) && 0 <= i < dec_int(x).len() ==> is_digit(
            #[trigger] dec_int(x)[i],
        ),
{
    if x < 0 {
        law_dec_nat((-x) as nat);
        assert(dec_int(x).drop_first() =~= dec_nat((-x) as nat));
        assert forall|i: int| 1 <= i < dec_int(x).len() implies is_digit(
            #[trigger] dec_int(x)[i],
        ) by {
            assert(dec_int(x)[i] == dec_nat((-x) as nat)[i - 1]);
        }
    } else {
        law_dec_nat(x as nat);
    }
}

/// A message renders piece by piece: nothing renders to nothing, a single piece renders to
/// its own text (literal text as written, an integer in decimal, a difference as the decimal
/// of the exact difference), and joined messages render to the joined texts.
pub proof fn law_render(a: Seq<Piece>, b: Seq<Piece>, p: Piece)
    ensures
        render(Seq::<Piece>::empty()) == Seq::<char>::empty(),
        render(seq![p]) == match p {
            Piece::Text(t) => t@,
            Piece::Str(t) => t@,
            Piece::Int(x) => dec_int(x as int),
            Piece::Diff(x, y) => dec_int(x - y),
        },
        render(a + b) == render(a) + render(b),
    decreases b.len(),
{
    assert(seq![p].drop_last() =~= Seq::<Piece>::empty());
    assert(seq![p].last() == p);
    assert(Seq::<char>::empty() + piece_chars(p) =~= piece_chars(p));
    assert(render(seq![p]) == render(Seq::<Piece>::empty()) + piece_chars(p));
    if b.len() == 0 {
        assert(a + b =~= a);
        assert(render(a) + Seq::<char>::empty() =~= render(a));
    } else {
        law_render(a, b.drop_last(), p);
        assert((a + b).drop_last() =~= a + b.drop_last());
        assert((a + b).last() == b.last());
        assert(render(a) + render(b.drop_last()) + piece_chars(b.last()) =~= render(a) + (render(
            b.drop_last(),
        ) + piece_chars(b.last())));
    }
}

fn digit_str(d: u128) -> (r: &'static str)
    requires
        d < 10,
    ensures
        r@ == seq![digit_char(d as nat)],
{
    proof {
        reveal_strlit("0");
        reveal_strlit("1");
        reveal_strlit("2");
        reveal_strlit("3");
        reveal_strlit("4");
        reveal_strlit("5");
        reveal_strlit("6");
        reveal_strlit("7");
        reveal_strlit("8");
        reveal_strlit("9");
    }
    if d == 0 {
        "0"
    } else if d == 1 {
        "1"
    } else if d == 2 {
        "2"
    } else if d == 3 {
        "3"
    } else if d == 4 {
        "4"
    } else if d == 5 {
        "5"
    } else if d == 6 {
        "6"
    } else if d == 7 {
        "7"
    } else if d == 8 {
        "8"
    } else {
        "9"
    }
}

fn push_nat(s: &mut String, n: u128)
    ensures
        final(s)@ == old(s)@ + dec_nat(n as nat),
    decreases n,
{
    if n >= 10 {
        push_nat(s, n / 10);
    }
    s.append(digit_str(n % 10));
}

/// Appends the decimal rendering of `x` to `s`.
pub(crate) fn push_int(s: &mut String, x: i128)
    ensures
        final(s)@ == old(s)@ + dec_int(x as int),
{
    if x < 0 {
        proof {
            reveal_strlit("-");
        }
        s.append("-");
        let m: u128 = ((-(x + 1)) as u128) + 1;
        push_nat(s, m);
    } else {
        push_nat(s, x as u128);
    }
}

/// Appends the decimal rendering of the mathematical difference `a - b` to `s`.
fn push_diff(s: &mut String, a: i128, b: i128)
    ensures
        final(s)@ == old(s)@ + dec_int(a - b),
{
    if a >= b {
        let m: u128 = if b >= 0 || a < 0 {
            (a - b) as u128
        } else {
            (a as u128) + ((-(b + 1)) as u128) + 1
        };
        push_nat(s, m);
    } else {
        proof {
            reveal_strlit("-");
        }
        s.append("-");
        let m: u128 = if a >= 0 || b < 0 {
            (b - a) as u128
        } else {
            (b as u128) + ((-(a + 1)) as u128) + 1
        };
        push_nat(s, m);
    }
}

/// Renders a message from its pieces.
pub(crate) fn render_pieces(ps: &Vec<Piece>) -> (r: String)
    ensures
        r@ == render(ps@),
{
    let mut s = String::new();
    let mut i: usize = 0;
    while i < ps.len()
        invariant
            i <= ps@.len(),
            s@ == render(ps@.take(i as int)),
        decreases ps@.len() - i,
    {
        assert(ps@.take(i + 1).drop_last() == ps@.take(i as int));
        match &ps[i] {
            Piece::Text(t) => s.append(t),
            Piece::Str(t) => s.append(t.as_str()),
            Piece::Int(x) => push_int(&mut s, *x),
            Piece::Diff(a, b) => push_diff(&mut s, *a, *b),
        }
        i = i + 1;
    }
    assert(ps@.take(ps@.len() as int) == ps@);
    s
}

} // verus!
