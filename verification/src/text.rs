//! Numbers in decimal.

use vstd::prelude::*;

verus! {

/// The ten digits.
pub open spec fn digits() -> Seq<char> {
    seq!['0', '1', '2', '3', '4', '5', '6', '7', '8', '9']
}

/// The number in decimal, without leading zeros.
pub open spec fn decimal(n: nat) -> Seq<char>
    decreases n,
{
    if n < 10 {
        seq![digits()[n as int]]
    } else {
        decimal(n / 10).push(digits()[(n % 10) as int])
    }
}

fn digit(d: u128) -> (r: &'static str)
    requires
        d < 10,
    ensures
        r@ == seq![digits()[d as int]],
{
    proof {
        reveal_strlit("0");
        reveal_strlit("1");
        reveal_strlit("2");
        reveal_strlit("3");
        reveal_strlit("4");
        reveal_strlit("5");
        reveal_strlit("6");
        reveal_strlit("7");
        reveal_strlit("8");
        reveal_strlit("9");
    }
    let r = match d {
        0 => "0",
        1 => "1",
        2 => "2",
        3 => "3",
        4 => "4",
        5 => "5",
        6 => "6",
        7 => "7",
        8 => "8",
        _ => "9",
    };
    assert(r@ =~= seq![digits()[d as int]]);
    r
}

/// Writes the number in decimal after the text.
pub fn append_decimal(text: &mut String, n: u128)
    ensures
        final(text)@ == old(text)@ + decimal(n as nat),
    decreases n,
{
    if n >= 10 {
        append_decimal(text, n / 10);
    }
    text.append(digit(n % 10));
    assert(text@ =~= old(text)@ + decimal(n as nat));
}

/// The number that a text of digits stands for.
pub open spec fn number(text: Seq<char>) -> int
    decreases text.len(),
{
    if text.len() == 0 {
        0
    } else {
        number(text.drop_last()) * 10 + (text.last() as int - '0' as int)
    }
}

/// A number in decimal reads back as that number, is made of digits, and starts with
/// a zero only where it is zero.
pub proof fn law_decimal_reads_back(n: nat)
    ensures
        number(decimal(n)) == n,
        decimal(n).len() > 0,
        forall|i: int| 0 <= i < decimal(n).len() ==> '0' <= #[trigger] decimal(n)[i] <= '9',
        decimal(n)[0] == '0' <==> n == 0,
        n == 0 ==> decimal(n).len() == 1,
    decreases n,
{
    reveal_with_fuel(number, 2);
    if n >= 10 {
        law_decimal_reads_back(n / 10);
        assert(decimal(n).drop_last() =~= decimal(n / 10));
    } else {
        assert(decimal(n).drop_last() =~= Seq::empty());
    }
}

} // verus!
