//! Texts that show values to a reader: numbers in decimal, texts between
//! double quotes, lists with a separator between their items.

use vstd::prelude::*;

verus! {

/// The text of a decimal digit.
pub open spec fn digit_text(digit: int) -> Seq<char> {
    if digit == 0 {
        "0"@
    } else if digit == 1 {
        "1"@
    } else if digit == 2 {
        "2"@
    } else if digit == 3 {
        "3"@
    } else if digit == 4 {
        "4"@
    } else if digit == 5 {
        "5"@
    } else if digit == 6 {
        "6"@
    } else if digit == 7 {
        "7"@
    } else if digit == 8 {
        "8"@
    } else {
        "9"@
    }
}

/// A number in decimal, without leading zeros.
pub open spec fn decimal(n: nat) -> Seq<char>
    decreases n,
{
    if n < 10 {
        digit_text(n as int)
    } else {
        decimal(n / 10) + digit_text((n % 10) as int)
    }
}

/// A text between double quotes. The text itself is shown as it is.
pub open spec fn quoted(text: Seq<char>) -> Seq<char> {
    "\""@ + text + "\""@
}

/// The texts of a list, one after the other, with the separator between
/// each two.
pub open spec fn joined(parts: Seq<Seq<char>>, separator: Seq<char>) -> Seq<char>
    decreases parts.len(),
{
    if parts.len() == 0 {
        Seq::empty()
    } else if parts.len() == 1 {
        parts[0]
    } else {
        joined(parts.drop_last(), separator) + separator + parts.last()
    }
}

/// A list of texts, each between double quotes, between square brackets.
pub open spec fn quoted_list(values: Seq<Seq<char>>) -> Seq<char> {
    "["@ + joined(values.map_values(|v: Seq<char>| quoted(v)), ", "@) + "]"@
}

/// The text of a decimal digit.
fn digit(d: u16) -> (text: &'static str)
    requires
        d < 10,
    ensures
        text@ == digit_text(d as int),
{
    if d == 0 {
        "0"
    } else if d == 1 {
        "1"
    } else if d == 2 {
        "2"
    } else if d == 3 {
        "3"
    } else if d == 4 {
        "4"
    } else if d == 5 {
        "5"
    } else if d == 6 {
        "6"
    } else if d == 7 {
        "7"
    } else if d == 8 {
        "8"
    } else {
        "9"
    }
}

/// Writes a number in decimal.
pub fn decimal_text(n: u16) -> (text: String)
    ensures
        text@ == decimal(n as nat),
    decreases n,
{
    if n < 10 {
        digit(n).to_owned()
    } else {
        let mut text = decimal_text(n / 10);
        text.append(digit(n % 10));
        text
    }
}

/// Writes a text between double quotes.
pub fn quote(text: &str) -> (shown: String)
    ensures
        shown@ == quoted(text@),
{
    let mut shown = "\"".to_owned();
    shown.append(text);
    shown.append("\"");
    shown
}

/// Adds a part to a list that is being joined: the separator first, unless
/// the part is the first of the list.
pub fn join_next(text: &mut String, first: bool, separator: &str, part: &str)
    ensures
        final(text)@ == if first {
            old(text)@ + part@
        } else {
            old(text)@ + separator@ + part@
        },
{
    if !first {
        text.append(separator);
    }
    text.append(part);
}

/// Writes a list of texts, each between double quotes, between square
/// brackets.
pub fn quoted_list_text(values: &Vec<String>) -> (text: String)
    ensures
        text@ == quoted_list(values.deep_view()),
{
    let ghost parts = values.deep_view().map_values(|v: Seq<char>| quoted(v));
    let mut inner = String::new();
    let mut i: usize = 0;
    proof {
        assert(parts.take(0) =~= Seq::<Seq<char>>::empty());
    }
    while i < values.len()
        invariant
            i <= values@.len(),
            parts == values.deep_view().map_values(|v: Seq<char>| quoted(v)),
            inner@ == joined(parts.take(i as int), ", "@),
        decreases values@.len() - i,
    {
        let part = quote(values[i].as_str());
        proof {
            lemma_joined_next(parts, i as int, ", "@);
            assert(parts[i as int] == part@);
        }
        join_next(&mut inner, i == 0, ", ", part.as_str());
        i += 1;
    }
    proof {
        assert(parts.take(values@.len() as int) =~= parts);
    }
    let mut text = "[".to_owned();
    text.append(inner.as_str());
    text.append("]");
    text
}

/// What the next part adds to a list that is being joined.
pub proof fn lemma_joined_next(parts: Seq<Seq<char>>, i: int, separator: Seq<char>)
    requires
        0 <= i < parts.len(),
    ensures
        joined(parts.take(i + 1), separator) == if i == 0 {
            joined(parts.take(i), separator) + parts[i]
        } else {
            joined(parts.take(i), separator) + separator + parts[i]
        },
{
    let longer = parts.take(i + 1);
    assert(longer.drop_last() =~= parts.take(i));
    assert(longer.last() == parts[i]);
    if i == 0 {
        assert(parts.take(0) =~= Seq::<Seq<char>>::empty());
        assert(Seq::<char>::empty() + parts[0] =~= parts[0]);
    }
}

} // verus!
