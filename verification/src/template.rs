//! Templates: source text with slots, and their expansion.
//!
//! A slot is the marker `$` followed by one character, its code:
//!
//! | code | stands for |
//! |---|---|
//! | `N` | the enum's name |
//! | `Q` | the enum in a type position |
//! | `q` | the same, for documentation |
//! | `S` | the path of the carrying variant |
//! | `E` | the path of the empty variant |
//! | `s` | the carrying variant's name |
//! | `e` | the empty variant's name |
//! | `m` | the carrying variant's name in snake case |
//! | `n` | the empty variant's name in snake case |
//! | `T` | the carried type |
//! | `t` | the carried type, for documentation |
//! | `I` | the head of an impl block |
//! | `F` | the prefix of an ordinary method |
//! | `C` | the prefix of a compile-time method |
//! | `O` | the path of the built-in optional type |
//! | `0` to `9` | the argument with that index |
//! | `$` | the marker itself |
//!
//! Any other code stands for nothing, and so does the index of an argument
//! that was not given. A marker at the very end of a template stands for itself.

use vstd::prelude::*;
use vstd::std_specs::iter::IteratorSpec;
use crate::container::{ContainerModel, DataContainer};
use crate::text::{literal, option_text, or_empty, string_literal, texts};

verus! {

broadcast use vstd::string::group_string_axioms;

/// The marker that opens a slot.
pub const MARKER: char = '$';

/// The index of the argument that a digit names.
pub open spec fn digit_value(code: char) -> Option<int> {
    if '0' <= code && code <= '9' {
        Some(code as int - '0' as int)
    } else {
        None
    }
}

/// What the slot with the given code stands for.
pub open spec fn slot(c: ContainerModel, args: Seq<Seq<char>>, code: char) -> Seq<char> {
    if code == 'N' {
        c.name
    } else if code == 'Q' {
        c.full_name
    } else if code == 'q' {
        c.full_name_string
    } else if code == 'S' {
        c.some
    } else if code == 'E' {
        c.none
    } else if code == 's' {
        c.some_name
    } else if code == 'e' {
        c.none_name
    } else if code == 'm' {
        c.some_name_snake
    } else if code == 'n' {
        c.none_name_snake
    } else if code == 'T' {
        c.some_ty
    } else if code == 't' {
        c.some_ty_name
    } else if code == 'I' {
        c.imp
    } else if code == 'F' {
        c.func
    } else if code == 'C' {
        c.c_func
    } else if code == 'O' {
        c.opt
    } else if code == MARKER {
        seq![MARKER]
    } else {
        match digit_value(code) {
            Some(i) => if i < args.len() {
                args[i]
            } else {
                Seq::empty()
            },
            None => Seq::empty(),
        }
    }
}

/// The text that a template stands for: every slot replaced by what it stands
/// for, everything else kept as it is.
pub open spec fn expansion(template: Seq<char>, c: ContainerModel, args: Seq<Seq<char>>) -> Seq<
    char,
>
    decreases template.len(),
{
    if template.len() == 0 {
        Seq::empty()
    } else if template[0] != MARKER {
        seq![template[0]] + expansion(template.skip(1), c, args)
    } else if template.len() == 1 {
        seq![MARKER]
    } else {
        slot(c, args, template[1]) + expansion(template.skip(2), c, args)
    }
}

/// Appends to `out` what the slot with the given code stands for.
pub fn push_slot(out: &mut String, container: &DataContainer, args: &Vec<String>, code: char)
    ensures
        final(out)@ == old(out)@ + slot(container@, texts(args@), code),
{
    if code == 'N' {
        out.append(container.name.as_str());
    } else if code == 'Q' {
        out.append(container.full_name.as_str());
    } else if code == 'q' {
        out.append(container.full_name_string.as_str());
    } else if code == 'S' {
        out.append(container.some.as_str());
    } else if code == 'E' {
        out.append(container.none.as_str());
    } else if code == 's' {
        out.append(container.some_name.as_str());
    } else if code == 'e' {
        out.append(container.none_name.as_str());
    } else if code == 'm' {
        out.append(container.some_name_snake.as_str());
    } else if code == 'n' {
        out.append(container.none_name_snake.as_str());
    } else if code == 'T' {
        out.append(container.some_ty.as_str());
    } else if code == 't' {
        out.append(container.some_ty_name.as_str());
    } else if code == 'I' {
        out.append(container.imp.as_str());
    } else if code == 'F' {
        out.append(container.func.as_str());
    } else if code == 'C' {
        out.append(container.c_func.as_str());
    } else if code == 'O' {
        out.append(container.opt.as_str());
    } else if code == MARKER {
        out.push(MARKER);
        assert(old(out)@.push(MARKER) =~= old(out)@ + seq![MARKER]);
    } else if '0' <= code && code <= '9' {
        let index: usize = (code as u32 - '0' as u32) as usize;
        if index < args.len() {
            out.append(args[index].as_str());
        } else {
            assert(old(out)@ =~= old(out)@ + Seq::<char>::empty());
        }
    } else {
        assert(old(out)@ =~= old(out)@ + Seq::<char>::empty());
    }
}

/// Expands a template.
pub fn expand(template: &str, container: &DataContainer, args: &Vec<String>) -> (out: String)
    ensures
        out@ == expansion(template@, container@, texts(args@)),
{
    let mut out = String::new();
    let mut chars = template.chars();
    let ghost c = container@;
    let ghost a = texts(args@);
    assert(expansion(template@, c, a) =~= out@ + expansion(chars.remaining(), c, a));
    loop
        invariant
            c == container@,
            a == texts(args@),
            chars.decrease() is Some,
            expansion(template@, c, a) == out@ + expansion(chars.remaining(), c, a),
        decreases chars.decrease()->0,
    {
        let ghost before = out@;
        let ghost rest = chars.remaining();
        match chars.next() {
            None => {
                assert(out@ + expansion(rest, c, a) =~= out@);
                return out;
            },
            Some(ch) => {
                if ch != MARKER {
                    out.push(ch);
                    assert(before + expansion(rest, c, a) =~= out@ + expansion(
                        chars.remaining(),
                        c,
                        a,
                    )) by {
                        assert(rest.skip(1) =~= rest.drop_first());
                    }
                } else {
                    match chars.next() {
                        None => {
                            out.push(MARKER);
                            assert(rest.len() == 1);
                            assert(before + expansion(rest, c, a) =~= out@);
                            return out;
                        },
                        Some(code) => {
                            push_slot(&mut out, container, args, code);
                            assert(before + expansion(rest, c, a) =~= out@ + expansion(
                                chars.remaining(),
                                c,
                                a,
                            )) by {
                                assert(rest.skip(2) =~= rest.drop_first().drop_first());
                            }
                        },
                    }
                }
            },
        }
    }
}

/// Expands a template and appends the result to `out`.
pub fn emit(out: &mut String, template: &str, container: &DataContainer, args: &Vec<String>)
    ensures
        final(out)@ == old(out)@ + expansion(template@, container@, texts(args@)),
{
    let piece = expand(template, container, args);
    out.append(piece.as_str());
}

/// A template without arguments, expanded.
pub open spec fn plain(template: Seq<char>, c: ContainerModel) -> Seq<char> {
    expansion(template, c, Seq::empty())
}

/// Expands a template without arguments and appends the result to `out`.
pub fn emit_plain(out: &mut String, template: &str, container: &DataContainer)
    ensures
        final(out)@ == old(out)@ + plain(template@, container@),
{
    let none: Vec<String> = Vec::new();
    assert(texts(none@) =~= Seq::<Seq<char>>::empty());
    emit(out, template, container, &none);
}

/// The documentation attribute's value for a template of documentation: its
/// expansion, written as a string literal.
pub open spec fn documentation(template: Seq<char>, c: ContainerModel) -> Seq<char> {
    literal(expansion(template, c, Seq::empty()))
}

/// Expands a template of documentation and writes it as a string literal.
pub fn document(template: &str, container: &DataContainer) -> (out: String)
    ensures
        out@ == documentation(template@, container@),
{
    let none: Vec<String> = Vec::new();
    assert(texts(none@) =~= Seq::<Seq<char>>::empty());
    let plain = expand(template, container, &none);
    string_literal(plain.as_str())
}

/// A method with its documentation: the template of the method expanded with
/// the documentation as argument `0` and `extras` as the arguments after it.
pub open spec fn method(
    code: Seq<char>,
    doc: Seq<char>,
    c: ContainerModel,
    extras: Seq<Seq<char>>,
) -> Seq<char> {
    expansion(code, c, seq![documentation(doc, c)] + extras)
}

/// Appends a method with its documentation to `out`.
pub fn emit_method(
    out: &mut String,
    code: &str,
    doc: &str,
    container: &DataContainer,
    extras: Vec<String>,
)
    ensures
        final(out)@ == old(out)@ + method(code@, doc@, container@, texts(extras@)),
{
    let mut args: Vec<String> = Vec::new();
    args.push(document(doc, container));
    let mut extras = extras;
    let ghost given = extras@;
    args.append(&mut extras);
    assert(texts(args@) =~= seq![documentation(doc@, container@)] + texts(given));
    emit(out, code, container, &args);
}

/// A method with its documentation and no other argument.
pub open spec fn documented(code: Seq<char>, doc: Seq<char>, c: ContainerModel) -> Seq<char> {
    method(code, doc, c, Seq::empty())
}

/// Appends a method with its documentation and no other argument to `out`.
pub fn emit_documented(out: &mut String, code: &str, doc: &str, container: &DataContainer)
    ensures
        final(out)@ == old(out)@ + documented(code@, doc@, container@),
{
    let extras: Vec<String> = Vec::new();
    assert(texts(extras@) =~= Seq::<Seq<char>>::empty());
    emit_method(out, code, doc, container, extras);
}

/// The where clause that states the parameter's bounds of the type that
/// `ty` expands to; nothing where the parameter has no bounds.
pub open spec fn where_for(c: ContainerModel, ty: Seq<char>) -> Seq<char> {
    or_empty(c.where_clause_for(expansion(ty, c, Seq::empty())))
}

/// The same bounds as one predicate, to stand in a where clause.
pub open spec fn bounds_for(c: ContainerModel, ty: Seq<char>) -> Seq<char> {
    or_empty(c.bounds_for(expansion(ty, c, Seq::empty())))
}

/// Writes the where clause that states the parameter's bounds of a type.
pub fn where_text(container: &DataContainer, ty: &str) -> (out: String)
    ensures
        out@ == where_for(container@, ty@),
{
    let none: Vec<String> = Vec::new();
    assert(texts(none@) =~= Seq::<Seq<char>>::empty());
    let plain = expand(ty, container, &none);
    text_or_empty(container.where_clause_for(plain.as_str()))
}

/// Writes the predicate that states the parameter's bounds of a type.
pub fn bounds_text(container: &DataContainer, ty: &str) -> (out: String)
    ensures
        out@ == bounds_for(container@, ty@),
{
    let none: Vec<String> = Vec::new();
    assert(texts(none@) =~= Seq::<Seq<char>>::empty());
    let plain = expand(ty, container, &none);
    text_or_empty(container.bounds_for(plain.as_str()))
}

/// `text` for an enum that is generic in the carried type, nothing otherwise.
pub open spec fn generic_only(c: ContainerModel, text: Seq<char>) -> Seq<char> {
    if c.is_generic {
        text
    } else {
        Seq::empty()
    }
}

/// The text of an optional piece of syntax: nothing where there is none.
pub fn text_or_empty(piece: Option<String>) -> (out: String)
    ensures
        out@ == or_empty(option_text(piece)),
{
    match piece {
        Some(text) => text,
        None => String::new(),
    }
}

} // verus!
