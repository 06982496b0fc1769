//! Text of the messages that requests are answered with.
use vstd::prelude::*;

verus! {

/// The character of a decimal digit.
pub open spec fn digit_char(digit: nat) -> char {
    ('0' as nat + digit) as char
}

/// A number in decimal, without leading zeros.
pub open spec fn decimal(number: nat) -> Seq<char>
    decreases number,
{
    if number < 10 {
        seq![digit_char(number)]
    } else {
        decimal(number / 10).push(digit_char(number % 10))
    }
}

/// The text of one decimal digit.
fn digit_text(digit: u64) -> (r: &'static str)
    requires
        digit < 10,
    ensures
        r@ == seq![digit_char(digit as nat)],
{
    proof {
        reveal_strlit("0");
        reveal_strlit("1");
        reveal_strlit("2");
        reveal_strlit("3");
        reveal_strlit("4");
        reveal_strlit("5");
        reveal_strlit("6");
        reveal_strlit("7");
        reveal_strlit("8");
        reveal_strlit("9");
    }
    let r = match digit {
        0 => "0",
        1 => "1",
        2 => "2",
        3 => "3",
        4 => "4",
        5 => "5",
        6 => "6",
        7 => "7",
        8 => "8",
        _ => "9",
    };
    assert(r@ =~= seq![digit_char(digit as nat)]);
    r
}

/// A number in decimal.
pub fn decimal_text(number: u64) -> (r: String)
    ensures
        r@ == decimal(number as nat),
    decreases number,
{
    if number < 10 {
        digit_text(number).to_owned()
    } else {
        let mut r = decimal_text(number / 10);
        r.append(digit_text(number % 10));
        assert(r@ =~= decimal(number as nat));
        r
    }
}

/// The number that a sequence of decimal digits denotes.
pub open spec fn denoted(digits: Seq<char>) -> int
    decreases digits.len(),
{
    if digits.len() == 0 {
        0
    } else {
        denoted(digits.drop_last()) * 10 + (digits.last() as int - '0' as int)
    }
}

proof fn lemma_decimal_reads_back(number: nat)
    ensures
        denoted(decimal(number)) == number,
        decimal(number).len() > 0,
        decimal(number).len() > 1 ==> decimal(number)[0] != '0',
        decimal(number)[0] == '0' ==> number == 0,
        forall|i: int|
            0 <= i < decimal(number).len() ==> '0' <= #[trigger] decimal(number)[i] <= '9',
    decreases number,
{
    if number < 10 {
        assert(decimal(number).drop_last() =~= Seq::<char>::empty());
        assert(denoted(Seq::<char>::empty()) == 0);
    } else {
        lemma_decimal_reads_back(number / 10);
        let shorter = decimal(number / 10);
        assert(decimal(number).drop_last() =~= shorter);
        assert(decimal(number)[0] == shorter[0]);
    }
}

/// The text of a number holds decimal digits only, denotes the number, and has no leading zero.
pub proof fn law_text_denotes_the_number(number: u64, r: String)
    requires
        call_ensures(decimal_text, (number,), r),
    ensures
        denoted(r@) == number,
        r@.len() > 0,
        r@[0] == '0' ==> number == 0 && r@.len() == 1,
        forall|i: int| 0 <= i < r@.len() ==> '0' <= #[trigger] r@[i] <= '9',
{
    lemma_decimal_reads_back(number as nat);
}

} // verus!
