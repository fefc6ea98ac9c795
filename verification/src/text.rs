//! Numbers and lists written out as text.

use vstd::prelude::*;
use vstd::string::StringExecFns;

verus! {

/// What the `Debug` formatting of `str` writes for a text: the text between
/// double quotes, with the characters that need it escaped.
pub uninterp spec fn debug_text(text: Seq<char>) -> Seq<char>;

/// Formats a text with the `Debug` implementation of `str`. The result
/// depends on the text alone.
#[verifier::external_body]
fn debug_string(text: &str) -> (quoted: String)
    ensures
        quoted@ == debug_text(text@),
{
    format!("{:?}", text)
}

/// The character of a decimal digit.
pub open spec fn digit(value: nat) -> char
    recommends
        value < 10,
{
    "0123456789"@[value as int]
}

/// A natural number in decimal notation, without leading zeros.
pub open spec fn decimal(value: nat) -> Seq<char>
    decreases value,
{
    if value < 10 {
        seq![digit(value)]
    } else {
        decimal(value / 10).push(digit(value % 10))
    }
}

/// A number of hundredths as a decimal fraction with two places: 95 is
/// written `0.95`.
pub open spec fn hundredths(value: nat) -> Seq<char> {
    decimal(value / 100) + seq!['.', digit(value / 10 % 10), digit(value % 10)]
}

/// The texts of a list, joined by a comma and a space.
pub open spec fn comma_separated(items: Seq<Seq<char>>) -> Seq<char>
    decreases items.len(),
{
    if items.len() == 0 {
        Seq::empty()
    } else if items.len() == 1 {
        items[0]
    } else {
        comma_separated(items.drop_last()) + ", "@ + items.last()
    }
}

/// The views of the strings of a list.
pub open spec fn texts(strings: Seq<String>) -> Seq<Seq<char>> {
    strings.map_values(|string: String| string@)
}

/// Each text of a list as `Debug` formatting writes it.
pub open spec fn debug_texts(items: Seq<Seq<char>>) -> Seq<Seq<char>> {
    items.map_values(|item: Seq<char>| debug_text(item))
}

fn digit_str(value: usize) -> (text: &'static str)
    requires
        value < 10,
    ensures
        text@ == seq![digit(value as nat)],
{
    proof {
        reveal_strlit("0123456789");
        reveal_strlit("0");
        reveal_strlit("1");
        reveal_strlit("2");
        reveal_strlit("3");
        reveal_strlit("4");
        reveal_strlit("5");
        reveal_strlit("6");
        reveal_strlit("7");
        reveal_strlit("8");
        reveal_strlit("9");
    }
    let text = match value {
        0 => "0",
        1 => "1",
        2 => "2",
        3 => "3",
        4 => "4",
        5 => "5",
        6 => "6",
        7 => "7",
        8 => "8",
        _ => "9",
    };
    assert(text@ =~= seq![digit(value as nat)]);
    text
}

/// Writes a number in decimal notation.
pub fn decimal_string(value: usize) -> (text: String)
    ensures
        text@ == decimal(value as nat),
{
    let mut text = String::from_str(digit_str(value % 10));
    let mut rest: usize = value / 10;
    assert(decimal(value as nat) =~= (if rest > 0 {
        decimal(rest as nat)
    } else {
        Seq::empty()
    }) + text@);
    while rest > 0
        invariant
            decimal(value as nat) == (if rest > 0 {
                decimal(rest as nat)
            } else {
                Seq::empty()
            }) + text@,
        decreases rest,
    {
        let mut longer = String::from_str(digit_str(rest % 10));
        longer.append(text.as_str());
        assert(decimal(value as nat) =~= (if rest / 10 > 0 {
            decimal((rest / 10) as nat)
        } else {
            Seq::empty()
        }) + longer@);
        text = longer;
        rest = rest / 10;
    }
    text
}

/// Writes a number of hundredths as a decimal fraction with two places.
pub fn hundredths_string(value: u8) -> (text: String)
    ensures
        text@ == hundredths(value as nat),
{
    let whole: usize = (value / 100) as usize;
    let tenths: usize = (value / 10 % 10) as usize;
    let ones: usize = (value % 10) as usize;
    let mut text = decimal_string(whole);
    proof {
        reveal_strlit(".");
    }
    text.append(".");
    text.append(digit_str(tenths));
    text.append(digit_str(ones));
    assert(text@ =~= hundredths(value as nat));
    text
}

/// Joins texts with a comma and a space.
pub fn join_comma_separated(items: &Vec<String>) -> (joined: String)
    ensures
        joined@ == comma_separated(texts(items@)),
{
    let mut joined = String::new();
    let mut index: usize = 0;
    while index < items.len()
        invariant
            index <= items.len(),
            joined@ == comma_separated(texts(items@).take(index as int)),
        decreases items.len() - index,
    {
        let ghost before = texts(items@).take(index as int);
        let ghost after = texts(items@).take(index + 1);
        assert(after.drop_last() =~= before);
        assert(after.last() == items@[index as int]@);
        if index > 0 {
            joined.append(", ");
        }
        joined.append(items[index].as_str());
        assert(joined@ =~= comma_separated(after));
        index += 1;
    }
    assert(texts(items@).take(items.len() as int) =~= texts(items@));
    joined
}

/// Formats each text of a list as `Debug` formatting writes it.
pub fn debug_strings(items: &Vec<String>) -> (quoted: Vec<String>)
    ensures
        texts(quoted@) == debug_texts(texts(items@)),
{
    let mut quoted: Vec<String> = Vec::new();
    let mut index: usize = 0;
    while index < items.len()
        invariant
            index <= items.len(),
            texts(quoted@) == debug_texts(texts(items@).take(index as int)),
        decreases items.len() - index,
    {
        let ghost before = texts(quoted@);
        let item = debug_string(items[index].as_str());
        quoted.push(item);
        assert(texts(quoted@) =~= before.push(debug_text(items@[index as int]@)));
        assert(texts(items@).take(index + 1) =~= texts(items@).take(index as int).push(
            items@[index as int]@,
        ));
        assert(texts(quoted@) =~= debug_texts(texts(items@).take(index + 1)));
        index += 1;
    }
    assert(texts(items@).take(items.len() as int) =~= texts(items@));
    quoted
}

} // verus!
