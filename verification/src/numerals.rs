//! Decimal numerals as text: the mathematical rendering of a natural
//! number as its shortest decimal digit string, an executable formatter
//! proved against it, and the lemma that the rendered text reads back
//! to the number it came from.

use vstd::prelude::*;

verus! {

/// The digit character for a value below ten.
pub open spec fn digit_char(d: nat) -> char {
    if d == 0 {
        '0'
    } else if d == 1 {
        '1'
    } else if d == 2 {
        '2'
    } else if d == 3 {
        '3'
    } else if d == 4 {
        '4'
    } else if d == 5 {
        '5'
    } else if d == 6 {
        '6'
    } else if d == 7 {
        '7'
    } else if d == 8 {
        '8'
    } else {
        '9'
    }
}

/// Whether a character is a decimal digit.
pub open spec fn is_dec_digit(c: char) -> bool {
    48 <= c as int <= 57
}

/// The numeric value of a decimal digit character.
pub open spec fn digit_val(c: char) -> nat {
    (c as int - 48) as nat
}

/// The shortest decimal numeral of a natural number, most significant
/// digit first.
pub open spec fn dec_text(n: nat) -> Seq<char>
    decreases n,
{
    if n < 10 {
        seq![digit_char(n)]
    } else {
        dec_text(n / 10).push(digit_char(n % 10))
    }
}

/// The number denoted by a string of decimal digit characters.
pub open spec fn dec_val(s: Seq<char>) -> nat
    decreases s.len(),
{
    if s.len() == 0 {
        0
    } else {
        dec_val(s.drop_last()) * 10 + digit_val(s.last())
    }
}

/// A digit character below ten denotes the value it was made from.
pub proof fn lemma_digit_char_val(d: nat)
    requires
        d < 10,
    ensures
        digit_val(digit_char(d)) == d,
        is_dec_digit(digit_char(d)),
{
}

/// Rendering a number and reading the text back yields the number:
/// the numeral is a faithful embedding.
pub proof fn lemma_dec_text_val(n: nat)
    ensures
        dec_val(dec_text(n)) == n,
    decreases n,
{
    let s = dec_text(n);
    if n < 10 {
        lemma_digit_char_val(n);
        assert(s =~= seq![digit_char(n)]);
        assert(s.drop_last() =~= Seq::<char>::empty());
        assert(dec_val(s) == dec_val(s.drop_last()) * 10 + digit_val(s.last()));
        assert(dec_val(s.drop_last()) == 0);
    } else {
        lemma_dec_text_val(n / 10);
        lemma_digit_char_val(n % 10);
        assert(s =~= dec_text(n / 10).push(digit_char(n % 10)));
        assert(s.drop_last() =~= dec_text(n / 10));
        assert(s.last() == digit_char(n % 10));
        assert(dec_val(s) == dec_val(s.drop_last()) * 10 + digit_val(s.last()));
        vstd::arithmetic::div_mod::lemma_fundamental_div_mod(n as int, 10);
        assert(dec_val(s) == (n / 10) * 10 + (n % 10));
    }
}

/// A rendered numeral is non-empty and made of digits alone.
pub proof fn lemma_dec_text_digits(n: nat)
    ensures
        dec_text(n).len() >= 1,
        forall|i: int| 0 <= i < dec_text(n).len() ==> is_dec_digit(#[trigger] dec_text(n)[i]),
    decreases n,
{
    if n < 10 {
        lemma_digit_char_val(n);
    } else {
        lemma_dec_text_digits(n / 10);
        lemma_digit_char_val(n % 10);
        assert forall|i: int| 0 <= i < dec_text(n).len() implies is_dec_digit(
            #[trigger] dec_text(n)[i],
        ) by {
            if i < dec_text(n / 10).len() {
                assert(dec_text(n)[i] == dec_text(n / 10)[i]);
            }
        }
    }
}

/// A numeral followed by a non-digit separator can be read off a
/// string in only one way: if two such decompositions give the same
/// string, they agree on the number and on the tail.
pub proof fn lemma_numeral_prefix_unique(x1: nat, y1: Seq<char>, x2: nat, y2: Seq<char>, sep: char)
    requires
        !is_dec_digit(sep),
        dec_text(x1) + seq![sep] + y1 == dec_text(x2) + seq![sep] + y2,
    ensures
        x1 == x2,
        y1 == y2,
{
    lemma_dec_text_digits(x1);
    lemma_dec_text_digits(x2);
    let s = dec_text(x1) + seq![sep] + y1;
    let p1 = dec_text(x1).len() as int;
    let p2 = dec_text(x2).len() as int;
    assert(s[p1] == sep);
    assert(s[p2] == sep);
    if p1 < p2 {
        assert(s[p1] == dec_text(x2)[p1]);
        assert(is_dec_digit(s[p1]));
        assert(false);
    }
    if p2 < p1 {
        assert(s[p2] == dec_text(x1)[p2]);
        assert(is_dec_digit(s[p2]));
        assert(false);
    }
    assert forall|i: int| 0 <= i < p1 implies dec_text(x1)[i] == dec_text(x2)[i] by {
        assert(s[i] == dec_text(x1)[i]);
        assert(s == dec_text(x2) + seq![sep] + y2);
        assert((dec_text(x2) + seq![sep] + y2)[i] == dec_text(x2)[i]);
    }
    assert(dec_text(x1) =~= dec_text(x2));
    lemma_dec_text_val(x1);
    lemma_dec_text_val(x2);
    assert(s.len() == p1 + 1 + y1.len());
    assert((dec_text(x2) + seq![sep] + y2).len() == p2 + 1 + y2.len());
    assert(y1.len() == y2.len());
    assert forall|i: int| 0 <= i < y1.len() implies y1[i] == y2[i] by {
        assert(s[p1 + 1 + i] == y1[i]);
        assert(s == dec_text(x2) + seq![sep] + y2);
        assert((dec_text(x2) + seq![sep] + y2)[p2 + 1 + i] == y2[i]);
    }
    assert(y1 =~= y2);
}

/// The single-character string for a digit value.
fn digit_str(d: u64) -> (s: &'static str)
    requires
        d < 10,
    ensures
        s@ =~= seq![digit_char(d as nat)],
{
    proof {
        reveal_strlit("0");
        reveal_strlit("1");
        reveal_strlit("2");
        reveal_strlit("3");
        reveal_strlit("4");
        reveal_strlit("5");
        reveal_strlit("6");
        reveal_strlit("7");
        reveal_strlit("8");
        reveal_strlit("9");
    }
    if d == 0 {
        "0"
    } else if d == 1 {
        "1"
    } else if d == 2 {
        "2"
    } else if d == 3 {
        "3"
    } else if d == 4 {
        "4"
    } else if d == 5 {
        "5"
    } else if d == 6 {
        "6"
    } else if d == 7 {
        "7"
    } else if d == 8 {
        "8"
    } else {
        "9"
    }
}

/// Renders a number as its shortest decimal numeral.
pub fn fmt_u64(n: u64) -> (s: String)
    ensures
        s@ == dec_text(n as nat),
    decreases n,
{
    if n < 10 {
        let s = digit_str(n).to_owned();
        proof {
            assert(s@ =~= dec_text(n as nat));
        }
        s
    } else {
        assert(n / 10 < n) by (nonlinear_arith)
            requires n >= 10;
        let mut s = fmt_u64(n / 10);
        s.append(digit_str(n % 10));
        proof {
            assert(s@ =~= dec_text(n as nat));
        }
        s
    }
}

} // verus!
