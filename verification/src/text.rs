//! Decimal numerals and counted words, the building blocks of the report.

use vstd::prelude::*;

verus! {

/// The character that stands for the decimal digit `d`.
pub open spec fn digit_char(d: int) -> char {
    if d == 0 {
        '0'
    } else if d == 1 {
        '1'
    } else if d == 2 {
        '2'
    } else if d == 3 {
        '3'
    } else if d == 4 {
        '4'
    } else if d == 5 {
        '5'
    } else if d == 6 {
        '6'
    } else if d == 7 {
        '7'
    } else if d == 8 {
        '8'
    } else {
        '9'
    }
}

/// The decimal numeral of `n`, without leading zeros.
pub open spec fn decimal_text(n: nat) -> Seq<char>
    decreases n,
{
    if n < 10 {
        seq![digit_char(n as int)]
    } else {
        decimal_text(n / 10).push(digit_char((n % 10) as int))
    }
}

/// The last two decimal digits of `n`, with a leading zero where `n < 10`.
pub open spec fn two_digit_text(n: nat) -> Seq<char> {
    seq![digit_char(((n / 10) % 10) as int), digit_char((n % 10) as int)]
}

/// The decimal numeral of `n`, right-aligned in a field of two characters.
pub open spec fn padded_text(n: nat) -> Seq<char> {
    if n < 10 {
        seq![' '] + decimal_text(n)
    } else {
        decimal_text(n)
    }
}

/// The word for a unit: the singular exactly when the count is one.
pub open spec fn unit_word(count: nat, singular: Seq<char>, plural: Seq<char>) -> Seq<char> {
    if count == 1 {
        singular
    } else {
        plural
    }
}

/// A number, a space, and the unit word that fits `count`. The number shown
/// may be a remainder of the count, which alone decides the word.
pub open spec fn counted_text(shown: nat, count: nat, singular: Seq<char>, plural: Seq<char>) -> Seq<
    char,
> {
    decimal_text(shown) + seq![' '] + unit_word(count, singular, plural)
}

/// The number that a sequence of decimal digits denotes.
pub open spec fn numeral_value(digits: Seq<char>) -> nat
    decreases digits.len(),
{
    if digits.len() == 0 {
        0
    } else {
        10 * numeral_value(digits.drop_last()) + (digits.last() as nat - '0' as nat) as nat
    }
}

/// The one-character string of a decimal digit.
fn digit_str(d: u64) -> (s: &'static str)
    requires
        d < 10,
    ensures
        s@ == seq![digit_char(d as int)],
{
    let s = if d == 0 {
        "0"
    } else if d == 1 {
        "1"
    } else if d == 2 {
        "2"
    } else if d == 3 {
        "3"
    } else if d == 4 {
        "4"
    } else if d == 5 {
        "5"
    } else if d == 6 {
        "6"
    } else if d == 7 {
        "7"
    } else if d == 8 {
        "8"
    } else {
        "9"
    };
    proof {
        reveal_strlit("0");
        reveal_strlit("1");
        reveal_strlit("2");
        reveal_strlit("3");
        reveal_strlit("4");
        reveal_strlit("5");
        reveal_strlit("6");
        reveal_strlit("7");
        reveal_strlit("8");
        reveal_strlit("9");
        assert(s@ =~= seq![digit_char(d as int)]);
    }
    s
}

/// Appends the decimal numeral of `n`.
pub fn push_decimal(out: &mut String, n: u64)
    ensures
        final(out)@ == old(out)@ + decimal_text(n as nat),
    decreases n,
{
    if n >= 10 {
        push_decimal(out, n / 10);
    }
    out.append(digit_str(n % 10));
    proof {
        assert(final(out)@ =~= old(out)@ + decimal_text(n as nat));
    }
}

/// Appends the last two decimal digits of `n`, zero-padded.
pub fn push_two_digits(out: &mut String, n: u64)
    ensures
        final(out)@ == old(out)@ + two_digit_text(n as nat),
{
    out.append(digit_str((n / 10) % 10));
    out.append(digit_str(n % 10));
    proof {
        assert(final(out)@ =~= old(out)@ + two_digit_text(n as nat));
    }
}

/// Appends the numeral of `n`, right-aligned in two characters.
pub fn push_padded(out: &mut String, n: u64)
    ensures
        final(out)@ == old(out)@ + padded_text(n as nat),
{
    if n < 10 {
        out.append(" ");
        proof {
            reveal_strlit(" ");
            assert(" "@ =~= seq![' ']);
        }
    }
    push_decimal(out, n);
    proof {
        assert(final(out)@ =~= old(out)@ + padded_text(n as nat));
    }
}

/// Appends `shown`, a space, and the unit word that fits `count`.
pub fn push_counted(out: &mut String, shown: u64, count: u64, singular: &str, plural: &str)
    ensures
        final(out)@ == old(out)@ + counted_text(shown as nat, count as nat, singular@, plural@),
{
    push_decimal(out, shown);
    out.append(" ");
    if count == 1 {
        out.append(singular);
    } else {
        out.append(plural);
    }
    proof {
        reveal_strlit(" ");
        assert(" "@ =~= seq![' ']);
        assert(final(out)@ =~= old(out)@ + counted_text(
            shown as nat,
            count as nat,
            singular@,
            plural@,
        ));
    }
}

/// A numeral has at least one digit and no leading zero, and reads back as
/// the number it was made from.
pub proof fn decimal_text_reads_back(n: nat)
    ensures
        decimal_text(n).len() >= 1,
        n >= 1 ==> decimal_text(n)[0] != '0',
        numeral_value(decimal_text(n)) == n,
    decreases n,
{
    if n < 10 {
        let t = decimal_text(n);
        assert(t.drop_last() =~= Seq::<char>::empty());
        assert(numeral_value(t.drop_last()) == 0);
        assert(t.last() == digit_char(n as int));
    } else {
        decimal_text_reads_back(n / 10);
        let t = decimal_text(n);
        assert(t.drop_last() =~= decimal_text(n / 10));
        assert(t.last() == digit_char((n % 10) as int));
        assert(t[0] == decimal_text(n / 10)[0]);
    }
}

} // verus!
