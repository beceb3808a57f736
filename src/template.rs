//! Filling `${name}` placeholders in text.

use vstd::prelude::*;
use vstd::string::*;
use crate::context::Context;
use std::collections::HashMap;

verus! {

/// A whitespace character outside ASCII, as `char::is_whitespace` knows them.
pub open spec fn is_wide_space(c: char) -> bool {
    ||| c == '\u{85}'
    ||| c == '\u{a0}'
    ||| c == '\u{1680}'
    ||| ('\u{2000}' <= c && c <= '\u{200a}')
    ||| c == '\u{2028}'
    ||| c == '\u{2029}'
    ||| c == '\u{202f}'
    ||| c == '\u{205f}'
    ||| c == '\u{3000}'
}

/// A template that text-template can parse: it holds no whitespace outside
/// ASCII. (text-template trims whitespace around placeholder names by
/// character count but slices by bytes, and panics on wider whitespace.)
pub open spec fn renderable(template: Seq<char>) -> bool {
    forall|i: int| 0 <= i < template.len() ==> !is_wide_space(#[trigger] template[i])
}

/// Text without `$` renders as itself, whatever follows it.
pub proof fn lemma_fill_plain(a: Seq<char>, t: Seq<char>, values: Map<Seq<char>, Seq<char>>)
    requires
        forall|i: int| 0 <= i < a.len() ==> #[trigger] a[i] != '$',
    ensures
        fill_text(a + t, values) == a + fill_text(t, values),
    decreases a.len(),
{
    if a.len() == 0 {
        assert(a + t =~= t);
        assert(a + fill_text(t, values) =~= fill_text(t, values));
    } else {
        let s = a + t;
        assert(s[0] == a[0]);
        assert(s.drop_first() =~= a.drop_first() + t);
        lemma_fill_plain(a.drop_first(), t, values);
        assert(seq![a[0]] + (a.drop_first() + fill_text(t, values)) =~= a + fill_text(t, values));
    }
}

proof fn lemma_fill_inner(inner: Seq<char>, x: Seq<char>, rest: Seq<char>, values: Map<Seq<char>, Seq<char>>)
    requires
        forall|i: int| 0 <= i < x.len() ==> #[trigger] x[i] != '}',
    ensures
        fill_placeholder(inner, x + rest, values) == fill_placeholder(inner + x, rest, values),
    decreases x.len(),
{
    if x.len() == 0 {
        assert(x + rest =~= rest);
        assert(inner + x =~= inner);
    } else {
        let s = x + rest;
        assert(s[0] == x[0]);
        assert(s.drop_first() =~= x.drop_first() + rest);
        lemma_fill_inner(inner.push(x[0]), x.drop_first(), rest, values);
        assert(inner.push(x[0]) + x.drop_first() =~= inner + x);
    }
}

/// `${name}`, for a name without `}` and without whitespace at its ends,
/// renders as the value of `name` where that value is non-empty, and as
/// nothing otherwise.
pub proof fn lemma_fill_named(name: Seq<char>, t: Seq<char>, values: Map<Seq<char>, Seq<char>>)
    requires
        name.len() > 0,
        !is_space(name[0]),
        !is_space(name.last()),
        forall|i: int| 0 <= i < name.len() ==> #[trigger] name[i] != '}',
    ensures
        fill_text(seq!['$', '{'] + name + seq!['}'] + t, values) == (if values.contains_key(name)
            && values[name].len() > 0 {
            values[name]
        } else {
            Seq::empty()
        }) + fill_text(t, values),
{
    let s = seq!['$', '{'] + name + seq!['}'] + t;
    assert(s[0] == '$' && s[1] == '{');
    assert(s.subrange(2, s.len() as int) =~= name + (seq!['}'] + t));
    lemma_fill_inner(Seq::empty(), name, seq!['}'] + t, values);
    assert(Seq::<char>::empty() + name =~= name);
    assert((seq!['}'] + t)[0] == '}');
    assert((seq!['}'] + t).drop_first() =~= t);
    assert(leading_spaces(name) == 0);
    assert(name.subrange(0, name.len() as int) =~= name);
    assert(trailing_spaces(name) == 0);
    assert(name.subrange(0, 0) =~= Seq::<char>::empty());
    assert(name.subrange(name.len() as int, name.len() as int) =~= Seq::<char>::empty());
    let v = if values.contains_key(name) && values[name].len() > 0 {
        values[name]
    } else {
        Seq::empty()
    };
    assert(substitute(name, values) =~= v);
}

pub fn wide_space(c: char) -> (r: bool)
    ensures
        r == is_wide_space(c),
{
    c == '\u{85}' || c == '\u{a0}' || c == '\u{1680}' || ('\u{2000}' <= c && c <= '\u{200a}')
        || c == '\u{2028}' || c == '\u{2029}' || c == '\u{202f}' || c == '\u{205f}'
        || c == '\u{3000}'
}

/// Whether `template` can be rendered.
pub fn is_renderable(template: &str) -> (r: bool)
    ensures
        r == renderable(template@),
{
    let n = template.unicode_len();
    let mut i: usize = 0;
    while i < n
        invariant
            n == template@.len(),
            i <= n,
            forall|j: int| 0 <= j < i ==> !is_wide_space(#[trigger] template@[j]),
        decreases n - i,
    {
        if wide_space(template.get_char(i)) {
            return false;
        }
        i = i + 1;
    }
    true
}

/// ASCII whitespace, as `char::is_whitespace` knows it.
pub open spec fn is_space(c: char) -> bool {
    c == ' ' || c == '\t' || c == '\n' || c == '\u{b}' || c == '\u{c}' || c == '\r'
}

pub open spec fn leading_spaces(s: Seq<char>) -> nat
    decreases s.len(),
{
    if s.len() > 0 && is_space(s[0]) {
        1 + leading_spaces(s.drop_first())
    } else {
        0
    }
}

pub open spec fn trailing_spaces(s: Seq<char>) -> nat
    decreases s.len(),
{
    if s.len() > 0 && is_space(s.last()) {
        1 + trailing_spaces(s.drop_last())
    } else {
        0
    }
}

/// What the text between `${` and `}` turns into: the name is that text
/// without its leading and trailing whitespace; a non-empty value of the
/// name is put in with that whitespace around it, otherwise nothing is.
pub open spec fn substitute(inner: Seq<char>, values: Map<Seq<char>, Seq<char>>) -> Seq<char> {
    let b = leading_spaces(inner) as int;
    let rest = inner.subrange(b, inner.len() as int);
    let a = trailing_spaces(rest) as int;
    let name = rest.subrange(0, rest.len() - a);
    if values.contains_key(name) && values[name].len() > 0 {
        inner.subrange(0, b) + values[name] + rest.subrange(rest.len() - a, rest.len() as int)
    } else {
        Seq::empty()
    }
}

/// Rendering of text outside a placeholder: copied as it is up to the next
/// `${`.
pub open spec fn fill_text(t: Seq<char>, values: Map<Seq<char>, Seq<char>>) -> Seq<char>
    decreases t.len(),
{
    if t.len() == 0 {
        Seq::empty()
    } else if t.len() >= 2 && t[0] == '$' && t[1] == '{' {
        fill_placeholder(Seq::empty(), t.subrange(2, t.len() as int), values)
    } else {
        seq![t[0]] + fill_text(t.drop_first(), values)
    }
}

/// Rendering after `${`, with `inner` read so far: at the first `}` the
/// placeholder is substituted; where no `}` follows, the text after `${`
/// is kept as it is.
pub open spec fn fill_placeholder(inner: Seq<char>, rest: Seq<char>, values: Map<Seq<char>, Seq<char>>) -> Seq<char>
    decreases rest.len(),
{
    if rest.len() == 0 {
        inner
    } else if rest[0] == '}' {
        substitute(inner, values) + fill_text(rest.drop_first(), values)
    } else {
        fill_placeholder(inner.push(rest[0]), rest.drop_first(), values)
    }
}

/// The text that text-template's `Template::from` and `fill_in` produce for
/// a template and a table of values.
pub open spec fn filled_template(template: Seq<char>, values: Map<Seq<char>, Seq<char>>) -> Seq<char> {
    fill_text(template, values)
}

/// Relies on text_template's `Template::from`, which splits the template at
/// `${` and the next `}` and trims the name, and on `fill_in`, which puts in
/// non-empty values only. The table is built from the entries in order, so
/// a later entry wins.
#[verifier::external_body]
fn fill_in(template: &str, values: &Context) -> (r: String)
    requires
        renderable(template@),
    ensures
        r@ == filled_template(template@, values@),
{
    let table: HashMap<&str, &str> =
        values.entries.iter().map(|(k, v)| (k.as_str(), v.as_str())).collect();
    text_template::Template::from(template).fill_in(&table).to_string()
}

/// Renders `template` with the values of `context`.
pub fn render_template(template: &str, context: &Context) -> (r: String)
    requires
        renderable(template@),
    ensures
        r@ == filled_template(template@, context@),
{
    fill_in(template, context)
}

} // verus!
