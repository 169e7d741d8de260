//! Text as sequences of characters: decimal numerals and joined lists.

use vstd::prelude::*;

verus! {

/// The views of a list of values, element by element.
pub open spec fn views<T: View>(items: Seq<T>) -> Seq<T::V> {
    Seq::new(items.len(), |i: int| items[i]@)
}

/// The parts written one after another, with the separator between each
/// two neighbours and nowhere else.
pub open spec fn joined(parts: Seq<Seq<char>>, separator: Seq<char>) -> Seq<char>
    decreases parts.len(),
{
    if parts.len() == 0 {
        Seq::empty()
    } else if parts.len() == 1 {
        parts[0]
    } else {
        joined(parts.drop_last(), separator) + separator + parts.last()
    }
}

/// The character that stands for one decimal digit.
pub open spec fn digit_text(digit: nat) -> char {
    ((48 + digit) as u8) as char
}

/// A natural number in decimal notation, without leading zeros.
pub open spec fn natural_text(n: nat) -> Seq<char>
    decreases n,
{
    if n < 10 {
        seq![digit_text(n)]
    } else {
        natural_text(n / 10).push(digit_text(n % 10))
    }
}

/// An integer in decimal notation: a minus sign before the magnitude of a
/// negative number, no sign otherwise.
pub open spec fn decimal_text(n: int) -> Seq<char> {
    if n < 0 {
        seq!['-'] + natural_text((-n) as nat)
    } else {
        natural_text(n as nat)
    }
}

/// Joins the parts with the separator between them.
pub fn join(parts: &Vec<String>, separator: &str) -> (text: String)
    ensures
        text@ == joined(views(parts@), separator@),
{
    let mut text = String::new();
    let count: usize = parts.len();
    let mut i: usize = 0;
    while i < count
        invariant
            i <= count,
            count == parts@.len(),
            text@ == joined(views(parts@).take(i as int), separator@),
        decreases count - i,
    {
        let ghost before = views(parts@).take(i as int);
        let ghost now = views(parts@).take(i + 1);
        assert(now.drop_last() =~= before);
        if i > 0 {
            text.append(separator);
        }
        text.append(parts[i].as_str());
        i = i + 1;
    }
    assert(views(parts@).take(count as int) =~= views(parts@));
    text
}

/// The numeral of one decimal digit.
fn digit(value: u32) -> (text: &'static str)
    requires
        value < 10,
    ensures
        text@ == seq![digit_text(value as nat)],
{
    proof {
        reveal_strlit("0");
        reveal_strlit("1");
        reveal_strlit("2");
        reveal_strlit("3");
        reveal_strlit("4");
        reveal_strlit("5");
        reveal_strlit("6");
        reveal_strlit("7");
        reveal_strlit("8");
        reveal_strlit("9");
    }
    match value {
        0 => "0",
        1 => "1",
        2 => "2",
        3 => "3",
        4 => "4",
        5 => "5",
        6 => "6",
        7 => "7",
        8 => "8",
        _ => "9",
    }
}

/// Writes a natural number in decimal notation.
fn natural(n: u32) -> (text: String)
    ensures
        text@ == natural_text(n as nat),
    decreases n,
{
    if n < 10 {
        String::from_str(digit(n))
    } else {
        let mut text = natural(n / 10);
        text.append(digit(n % 10));
        text
    }
}

/// Writes an integer in decimal notation.
pub fn decimal(n: i32) -> (text: String)
    ensures
        text@ == decimal_text(n as int),
{
    if n < 0 {
        let wide: i64 = n as i64;
        let magnitude: u32 = (0 - wide) as u32;
        proof {
            reveal_strlit("-");
        }
        let mut text = String::from_str("-");
        text.append(natural(magnitude).as_str());
        text
    } else {
        natural(n as u32)
    }
}

} // verus!
