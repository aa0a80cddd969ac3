//! Lists of texts: joining them, pairing flags with values, and escaping
//! characters for the external tool's filter syntax.
use vstd::prelude::*;
use vstd::string::{StrSliceExecFns, StringExecFns};
use crate::scan::{has_key_at, key_at};

verus! {

/// The texts of a list of strings.
pub open spec fn texts(v: Seq<String>) -> Seq<Seq<char>> {
    v.map_values(|s: String| s@)
}

/// The parts written one after another with `sep` between each two.
pub open spec fn join(parts: Seq<Seq<char>>, sep: Seq<char>) -> Seq<char>
    decreases parts.len(),
{
    if parts.len() == 0 {
        Seq::empty()
    } else if parts.len() == 1 {
        parts[0]
    } else {
        join(parts.drop_last(), sep) + sep + parts.last()
    }
}

/// An argument list made of flag/value pairs, in order.
pub open spec fn flatten(d: Seq<(Seq<char>, Seq<char>)>) -> Seq<Seq<char>>
    decreases d.len(),
{
    if d.len() == 0 {
        Seq::empty()
    } else {
        flatten(d.drop_last()) + seq![d.last().0, d.last().1]
    }
}

/// Appends `s` to a list of strings.
pub fn push_text(v: &mut Vec<String>, s: String)
    ensures
        texts(final(v)@) == texts(old(v)@).push(s@),
{
    v.push(s);
    assert(texts(v@) =~= texts(old(v)@).push(s@));
}

/// Appends a flag and its value.
pub fn push_pair(v: &mut Vec<String>, flag: &str, value: String)
    ensures
        texts(final(v)@) == texts(old(v)@) + seq![flag@, value@],
{
    push_text(v, String::from_str(flag));
    push_text(v, value);
    assert(texts(v@) =~= texts(old(v)@) + seq![flag@, value@]);
}

/// Joins the strings with `sep` between each two.
pub fn join_texts(v: &Vec<String>, sep: &str) -> (r: String)
    ensures
        r@ == join(texts(v@), sep@),
{
    let mut out = String::new();
    let mut i: usize = 0;
    while i < v.len()
        invariant
            i <= v@.len(),
            out@ == join(texts(v@).take(i as int), sep@),
        decreases v@.len() - i,
    {
        assert(texts(v@).take(i + 1).drop_last() =~= texts(v@).take(i as int));
        if i > 0 {
            out.append(sep);
        } else {
            assert(texts(v@).take(0) =~= Seq::<Seq<char>>::empty());
        }
        out.append(v[i].as_str());
        i = i + 1;
    }
    assert(texts(v@).take(i as int) =~= texts(v@));
    out
}

/// The character rules of an escape.
#[derive(Clone, Copy, PartialEq, Eq, Structural)]
pub enum Escape {
    /// A file path in a filter: `\` becomes `/`, `:` becomes `\:`.
    FilterPath,
    /// Text in a filter: `:` becomes `\:`, `'` becomes `'\''`.
    FilterText,
    /// A single-quoted line: `'` becomes `'\''`.
    Quoted,
}

pub open spec fn escaped_char(c: char, k: Escape) -> Seq<char> {
    if c == ':' && (k == Escape::FilterPath || k == Escape::FilterText) {
        seq!['\\', ':']
    } else if c == '\\' && k == Escape::FilterPath {
        seq!['/']
    } else if c == '\'' && (k == Escape::FilterText || k == Escape::Quoted) {
        seq!['\'', '\\', '\'', '\'']
    } else {
        seq![c]
    }
}

/// `s` with each character escaped by the rules `k`.
pub open spec fn escaped(s: Seq<char>, k: Escape) -> Seq<char>
    decreases s.len(),
{
    if s.len() == 0 {
        Seq::empty()
    } else {
        escaped(s.drop_last(), k) + escaped_char(s.last(), k)
    }
}

/// Escapes each character of `s` by the rules `k`.
pub fn escape(s: &str, k: Escape) -> (r: String)
    ensures
        r@ == escaped(s@, k),
{
    let len = s.unicode_len();
    let mut out = String::new();
    let mut i: usize = 0;
    while i < len
        invariant
            len == s@.len(),
            i <= len,
            out@ == escaped(s@.take(i as int), k),
        decreases len - i,
    {
        let c = s.get_char(i);
        assert(s@.take(i + 1).drop_last() =~= s@.take(i as int));
        assert(s@.take(i + 1).last() == c);
        if c == ':' && (k == Escape::FilterPath || k == Escape::FilterText) {
            proof { reveal_strlit("\\:"); }
            out.append("\\:");
        } else if c == '\\' && k == Escape::FilterPath {
            proof { reveal_strlit("/"); }
            out.append("/");
        } else if c == '\'' && (k == Escape::FilterText || k == Escape::Quoted) {
            proof { reveal_strlit("'\\''"); }
            out.append("'\\''");
        } else {
            let one = s.substring_char(i, i + 1);
            assert(one@ =~= seq![c]);
            out.append(one);
        }
        i = i + 1;
    }
    assert(s@.take(i as int) =~= s@);
    out
}

/// `t` occurs in `s`.
pub open spec fn has_sub(s: Seq<char>, t: Seq<char>) -> bool {
    exists|i: int| key_at(s, i, t)
}

/// Whether `t` occurs in `s`.
pub fn contains(s: &str, t: &str) -> (r: bool)
    ensures
        r == has_sub(s@, t@),
{
    let len = s.unicode_len();
    let mut i: usize = 0;
    loop
        invariant
            len == s@.len(),
            i <= len,
            forall|j: int| 0 <= j < i ==> !key_at(s@, j, t@),
        decreases len - i,
    {
        if has_key_at(s, len, i, t) {
            return true;
        }
        if i == len {
            assert forall|j: int| !key_at(s@, j, t@) by {
                if j > len {
                    assert(!key_at(s@, j, t@));
                }
            }
            return false;
        }
        i = i + 1;
    }
}

} // verus!
