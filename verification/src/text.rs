//! Texts: the small operations on strings that the generator is built from.

use vstd::prelude::*;
use vstd::std_specs::iter::IteratorSpec;

verus! {

broadcast use vstd::string::group_string_axioms;

/// `String::push` appends one character.
pub assume_specification[ String::push ](s: &mut String, ch: char)
    ensures
        final(s)@ == old(s)@.push(ch),
;

/// The texts of a list of strings.
pub open spec fn texts(list: Seq<String>) -> Seq<Seq<char>> {
    list.map_values(|s: String| s@)
}

/// The texts of an optional list of strings.
pub open spec fn option_texts(list: Option<Vec<String>>) -> Option<Seq<Seq<char>>> {
    match list {
        Some(l) => Some(texts(l@)),
        None => None,
    }
}

/// The text of an optional string.
pub open spec fn option_text(piece: Option<String>) -> Option<Seq<char>> {
    match piece {
        Some(s) => Some(s@),
        None => None,
    }
}

/// The texts of `list`, with `separator` between each two of them.
pub open spec fn joined(list: Seq<Seq<char>>, separator: Seq<char>) -> Seq<char>
    decreases list.len(),
{
    if list.len() == 0 {
        Seq::empty()
    } else if list.len() == 1 {
        list[0]
    } else {
        joined(list.drop_last(), separator) + separator + list.last()
    }
}

/// A text without its spaces.
pub open spec fn without_spaces(text: Seq<char>) -> Seq<char> {
    text.filter(|ch: char| ch != ' ')
}

/// The text of an optional piece of syntax: nothing where there is none.
pub open spec fn or_empty(piece: Option<Seq<char>>) -> Seq<char> {
    match piece {
        Some(text) => text,
        None => Seq::empty(),
    }
}

/// Joins texts with a separator between each two of them.
pub fn join(list: &Vec<String>, separator: &str) -> (out: String)
    ensures
        out@ == joined(texts(list@), separator@),
{
    let ghost all = texts(list@);
    let mut out = String::new();
    let mut i: usize = 0;
    while i < list.len()
        invariant
            i <= list.len(),
            all == texts(list@),
            out@ == joined(all.take(i as int), separator@),
        decreases list.len() - i,
    {
        proof {
            assert(all.take(i + 1).drop_last() =~= all.take(i as int));
            assert(all.take(i + 1).last() == list@[i as int]@);
        }
        if i > 0 {
            out.append(separator);
        } else {
            assert(out@ + list@[0]@ =~= list@[0]@);
        }
        out.append(list[i].as_str());
        i += 1;
    }
    assert(all.take(list.len() as int) =~= all);
    out
}

/// Removes the spaces of a text.
pub fn remove_spaces(text: &str) -> (out: String)
    ensures
        out@ == without_spaces(text@),
{
    let mut out = String::new();
    let mut chars = text.chars();
    let ghost mut seen: Seq<char> = Seq::empty();
    let keep = |ch: char| ch != ' ';
    assert(seen + chars.remaining() =~= text@);
    loop
        invariant
            chars.decrease() is Some,
            seen + chars.remaining() == text@,
            out@ == without_spaces(seen),
        decreases chars.decrease()->0,
    {
        let ghost rest = chars.remaining();
        match chars.next() {
            None => {
                assert(seen + rest =~= seen);
                return out;
            },
            Some(ch) => {
                proof {
                    assert(seen.push(ch).drop_last() =~= seen);
                    reveal(Seq::filter);
                    assert(seen.push(ch) + chars.remaining() =~= seen + rest);
                    seen = seen.push(ch);
                }
                if ch != ' ' {
                    out.push(ch);
                }
            },
        }
    }
}

/// How one character stands inside a string literal.
pub open spec fn escaped_char(ch: char) -> Seq<char> {
    if ch == '"' {
        seq!['\\', '"']
    } else if ch == '\\' {
        seq!['\\', '\\']
    } else if ch == '\n' {
        seq!['\\', 'n']
    } else if ch == '\r' {
        seq!['\\', 'r']
    } else if ch == '\t' {
        seq!['\\', 't']
    } else {
        seq![ch]
    }
}

/// A text with every character as it stands inside a string literal.
pub open spec fn escaped(text: Seq<char>) -> Seq<char>
    decreases text.len(),
{
    if text.len() == 0 {
        Seq::empty()
    } else {
        escaped_char(text[0]) + escaped(text.skip(1))
    }
}

/// The character that stands behind a backslash for `code`.
pub open spec fn unescaped_char(code: char) -> char {
    if code == 'n' {
        '\n'
    } else if code == 'r' {
        '\r'
    } else if code == 't' {
        '\t'
    } else {
        code
    }
}

/// The text that the inside of a string literal denotes: a backslash and
/// the character behind it stand for one character, every other character
/// for itself.
pub open spec fn denoted(inside: Seq<char>) -> Seq<char>
    decreases inside.len(),
{
    if inside.len() == 0 {
        Seq::empty()
    } else if inside[0] == '\\' && inside.len() >= 2 {
        seq![unescaped_char(inside[1])] + denoted(inside.skip(2))
    } else {
        seq![inside[0]] + denoted(inside.skip(1))
    }
}

/// The string literal that denotes a text: the escaped text between double quotes.
pub open spec fn literal(text: Seq<char>) -> Seq<char> {
    seq!['"'] + escaped(text) + seq!['"']
}

/// Writes a text as a string literal.
pub fn string_literal(text: &str) -> (out: String)
    ensures
        out@ == literal(text@),
{
    let mut out = String::new();
    out.push('"');
    let mut chars = text.chars();
    assert(escaped(text@) =~= Seq::<char>::empty() + escaped(chars.remaining()));
    let ghost mut done: Seq<char> = Seq::empty();
    loop
        invariant
            chars.decrease() is Some,
            out@ == seq!['"'] + done,
            escaped(text@) == done + escaped(chars.remaining()),
        decreases chars.decrease()->0,
    {
        let ghost rest = chars.remaining();
        match chars.next() {
            None => {
                out.push('"');
                assert(done + escaped(rest) =~= done);
                assert(out@ =~= literal(text@));
                return out;
            },
            Some(ch) => {
                if ch == '"' {
                    out.push('\\');
                    out.push('"');
                } else if ch == '\\' {
                    out.push('\\');
                    out.push('\\');
                } else if ch == '\n' {
                    out.push('\\');
                    out.push('n');
                } else if ch == '\r' {
                    out.push('\\');
                    out.push('r');
                } else if ch == '\t' {
                    out.push('\\');
                    out.push('t');
                } else {
                    out.push(ch);
                }
                proof {
                    assert(rest.skip(1) =~= rest.drop_first());
                    assert(out@ =~= seq!['"'] + (done + escaped_char(ch)));
                    assert(done + escaped(rest) =~= (done + escaped_char(ch)) + escaped(
                        chars.remaining(),
                    ));
                    done = done + escaped_char(ch);
                }
            },
        }
    }
}

} // verus!
