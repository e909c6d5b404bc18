//! Decimal text of unsigned numbers and of byte lists.

use vstd::prelude::*;
use vstd::string::StringExecFns;

verus! {

/// The decimal digit of a value below ten.
pub open spec fn decimal_digit(d: int) -> char {
    "0123456789"@[d]
}

/// The decimal text of `n`, without leading zeros.
pub open spec fn decimal_text(n: nat) -> Seq<char>
    decreases n,
{
    if n < 10 {
        seq![decimal_digit(n as int)]
    } else {
        decimal_text(n / 10).push(decimal_digit((n % 10) as int))
    }
}

/// The decimal texts of the bytes of `bytes`, in order, with a comma and a
/// space between neighbours.
pub open spec fn byte_list_text(bytes: Seq<u8>) -> Seq<char>
    decreases bytes.len(),
{
    if bytes.len() == 0 {
        Seq::empty()
    } else if bytes.len() == 1 {
        decimal_text(bytes[0] as nat)
    } else {
        byte_list_text(bytes.drop_last()) + ", "@ + decimal_text(bytes.last() as nat)
    }
}

fn digit_str(d: u32) -> (s: &'static str)
    requires
        d < 10,
    ensures
        s@ == seq![decimal_digit(d as int)],
{
    proof {
        reveal_strlit("0123456789");
        reveal_strlit("0");
        reveal_strlit("1");
        reveal_strlit("2");
        reveal_strlit("3");
        reveal_strlit("4");
        reveal_strlit("5");
        reveal_strlit("6");
        reveal_strlit("7");
        reveal_strlit("8");
        reveal_strlit("9");
    }
    let s = match d {
        0 => "0",
        1 => "1",
        2 => "2",
        3 => "3",
        4 => "4",
        5 => "5",
        6 => "6",
        7 => "7",
        8 => "8",
        _ => "9",
    };
    assert(s@ =~= seq![decimal_digit(d as int)]);
    s
}

/// Writes `n` in decimal.
pub fn decimal_string(n: u32) -> (text: String)
    ensures
        text@ == decimal_text(n as nat),
{
    let mut text = String::from_str(digit_str(n % 10));
    let mut rest: u32 = n / 10;
    while rest > 0
        invariant
            decimal_text(n as nat) == if rest > 0 {
                decimal_text(rest as nat) + text@
            } else {
                text@
            },
        decreases rest,
    {
        let ghost shorter = text@;
        let ghost digit = seq![decimal_digit((rest % 10) as int)];
        text = String::from_str(digit_str(rest % 10)).concat(text.as_str());
        proof {
            if rest >= 10 {
                assert(decimal_text(rest as nat) + shorter =~= decimal_text((rest / 10) as nat) + (
                digit + shorter));
            }
        }
        rest = rest / 10;
    }
    text
}

/// Writes the bytes of `bytes` in decimal, with a comma and a space between
/// neighbours.
pub fn byte_list_string(bytes: &[u8]) -> (text: String)
    ensures
        text@ == byte_list_text(bytes@),
{
    let mut text = String::new();
    let mut i: usize = 0;
    while i < bytes.len()
        invariant
            i <= bytes@.len(),
            text@ == byte_list_text(bytes@.subrange(0, i as int)),
        decreases bytes@.len() - i,
    {
        let ghost before = bytes@.subrange(0, i as int);
        let ghost now = bytes@.subrange(0, i + 1);
        assert(now.drop_last() =~= before);
        assert(now.last() == bytes@[i as int]);
        if i > 0 {
            text.append(", ");
        } else {
            assert(text@ =~= Seq::<char>::empty());
        }
        let number = decimal_string(bytes[i] as u32);
        text.append(number.as_str());
        assert(text@ =~= byte_list_text(now)) by {
            if i > 0 {
                assert(byte_list_text(now) == byte_list_text(before) + ", "@ + decimal_text(
                    bytes@[i as int] as nat,
                ));
            } else {
                assert(Seq::<char>::empty() + decimal_text(bytes@[0] as nat) =~= decimal_text(
                    bytes@[0] as nat,
                ));
            }
        }
        i += 1;
    }
    assert(bytes@.subrange(0, bytes@.len() as int) =~= bytes@);
    text
}

} // verus!
