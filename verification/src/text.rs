//! Small pieces of text: numbers in decimal, repeated marks, optional
//! parts, and lines written one after another.

use vstd::prelude::*;
use vstd::string::StringExecFns;

verus! {

/// The character that writes a digit.
pub open spec fn digit_char(digit: nat) -> char {
    if digit == 0 {
        '0'
    } else if digit == 1 {
        '1'
    } else if digit == 2 {
        '2'
    } else if digit == 3 {
        '3'
    } else if digit == 4 {
        '4'
    } else if digit == 5 {
        '5'
    } else if digit == 6 {
        '6'
    } else if digit == 7 {
        '7'
    } else if digit == 8 {
        '8'
    } else {
        '9'
    }
}

/// A number written in decimal, without leading zeros.
pub open spec fn decimal_text(value: nat) -> Seq<char>
    decreases value,
{
    if value < 10 {
        seq![digit_char(value)]
    } else {
        decimal_text(value / 10).push(digit_char(value % 10))
    }
}

/// A whole number written in decimal, with a minus sign where it is
/// negative.
pub open spec fn signed_decimal_text(value: int) -> Seq<char> {
    if value < 0 {
        seq!['-'] + decimal_text((-value) as nat)
    } else {
        decimal_text(value as nat)
    }
}

/// A text written `count` times in a row.
pub open spec fn repeated(unit: Seq<char>, count: nat) -> Seq<char>
    decreases count,
{
    if count == 0 {
        Seq::empty()
    } else {
        repeated(unit, (count - 1) as nat) + unit
    }
}

/// The quotient of a division that rounds toward zero.
pub open spec fn truncated_quotient(value: int, divisor: int) -> int
    recommends
        divisor > 0,
{
    if value >= 0 {
        value / divisor
    } else {
        -((-value) / divisor)
    }
}

/// The text of one digit.
fn digit(value: u64) -> (result: &'static str)
    requires
        value < 10,
    ensures
        result@ == seq![digit_char(value as nat)],
{
    let text = match value {
        0 => "0",
        1 => "1",
        2 => "2",
        3 => "3",
        4 => "4",
        5 => "5",
        6 => "6",
        7 => "7",
        8 => "8",
        _ => "9",
    };
    proof {
        reveal_strlit("0");
        reveal_strlit("1");
        reveal_strlit("2");
        reveal_strlit("3");
        reveal_strlit("4");
        reveal_strlit("5");
        reveal_strlit("6");
        reveal_strlit("7");
        reveal_strlit("8");
        reveal_strlit("9");
        assert(text@ =~= seq![digit_char(value as nat)]);
    }
    text
}

/// Writes a number in decimal.
pub fn decimal(value: u64) -> (result: String)
    ensures
        result@ == decimal_text(value as nat),
    decreases value,
{
    if value < 10 {
        String::from_str(digit(value))
    } else {
        let head = decimal(value / 10);
        let result = head.concat(digit(value % 10));
        proof {
            assert(result@ =~= decimal_text(value as nat / 10).push(
                digit_char(value as nat % 10),
            ));
        }
        result
    }
}

/// Writes a whole number in decimal.
pub fn signed_decimal(value: i64) -> (result: String)
    ensures
        result@ == signed_decimal_text(value as int),
{
    if value < 0 {
        let magnitude: u64 = if value == i64::MIN {
            9223372036854775808u64
        } else {
            (-value) as u64
        };
        let result = String::from_str("-").concat(decimal(magnitude).as_str());
        proof {
            reveal_strlit("-");
            assert("-"@ =~= seq!['-']);
        }
        result
    } else {
        decimal(value as u64)
    }
}

/// Writes a text `count` times in a row.
pub fn repeat(unit: &str, count: usize) -> (result: String)
    ensures
        result@ == repeated(unit@, count as nat),
{
    let mut result = String::new();
    let mut written: usize = 0;
    while written < count
        invariant
            written <= count,
            result@ == repeated(unit@, written as nat),
        decreases count - written,
    {
        result.append(unit);
        written = written + 1;
    }
    result
}

/// Divides, rounding toward zero.
pub fn quotient(value: i32, divisor: i32) -> (result: i32)
    requires
        divisor > 0,
    ensures
        result == truncated_quotient(value as int, divisor as int),
{
    let wide: i64 = value as i64;
    let by: i64 = divisor as i64;
    if wide >= 0 {
        (wide / by) as i32
    } else {
        let magnitude: i64 = -wide;
        (-(magnitude / by)) as i32
    }
}

/// The characters of a text that may be absent.
pub open spec fn optional_text(value: Option<String>) -> Option<Seq<char>> {
    match value {
        Some(text) => Some(text@),
        None => None,
    }
}

/// Texts written one after another.
pub open spec fn joined(pieces: Seq<Seq<char>>) -> Seq<char>
    decreases pieces.len(),
{
    if pieces.len() == 0 {
        Seq::empty()
    } else {
        joined(pieces.drop_last()) + pieces.last()
    }
}

/// The items that `order` points at, in its order.
pub open spec fn arranged<A>(items: Seq<A>, order: Seq<int>) -> Seq<A> {
    order.map_values(|index: int| items[index])
}

/// A text in parentheses after a blank, or nothing where there is no text.
pub open spec fn bracketed(open: Seq<char>, value: Option<Seq<char>>, close: Seq<char>) -> Seq<
    char,
> {
    match value {
        Some(text) => open + text + close,
        None => Seq::empty(),
    }
}

/// Writing one more piece after the first `count` pieces gives the first
/// `count + 1` pieces.
pub proof fn lemma_joined_next(pieces: Seq<Seq<char>>, count: int)
    requires
        0 <= count < pieces.len(),
    ensures
        joined(pieces.take(count + 1)) == joined(pieces.take(count)) + pieces[count],
{
    assert(pieces.take(count + 1).drop_last() =~= pieces.take(count));
}

/// Appends an optional text between two marks.
pub(crate) fn append_bracketed(out: &mut String, open: &str, value: &Option<String>, close: &str)
    ensures
        final(out)@ == old(out)@ + bracketed(open@, optional_text(*value), close@),
{
    match value {
        Some(text) => {
            out.append(open);
            out.append(text.as_str());
            out.append(close);
            proof {
                assert(out@ =~= old(out)@ + (open@ + text@ + close@));
            }
        },
        None => {
            proof {
                assert(out@ =~= old(out)@ + Seq::<char>::empty());
            }
        },
    }
}

} // verus!
