//! Drive identifiers: a letter, in either case, optionally followed by `:`,
//! `\` or `/`. Before use an identifier is brought to its canonical form,
//! the bare upper-case letter, from which the paths handed to the platform
//! are built.

use vstd::prelude::*;
use crate::text::{chars_of, fold_upper, string_of, to_upper_chars, upper};

verus! {

/// The characters that may trail a drive letter.
pub open spec fn is_separator(c: char) -> bool {
    c == ':' || c == '\\' || c == '/'
}

/// `s` without its longest suffix of separators.
pub open spec fn trim_separators(s: Seq<char>) -> Seq<char>
    decreases s.len(),
{
    if s.len() > 0 && is_separator(s.last()) {
        trim_separators(s.drop_last())
    } else {
        s
    }
}

/// The canonical form of a drive identifier.
pub open spec fn canonical(d: Seq<char>) -> Seq<char> {
    fold_upper(trim_separators(d))
}

/// The label under which a drive is shown: the identifier and a colon.
pub open spec fn label_of(d: Seq<char>) -> Seq<char> {
    d.push(':')
}

/// The root directory of a drive: the identifier, a colon and a backslash.
pub open spec fn root_of(d: Seq<char>) -> Seq<char> {
    d.push(':').push('\\')
}

/// The path that opens a drive as a raw volume: `\\.\`, the identifier and
/// a colon.
pub open spec fn device_path_of(d: Seq<char>) -> Seq<char> {
    seq!['\\', '\\', '.', '\\'] + d.push(':')
}

/// `s` ending in a backslash: `s` itself if it does already.
pub open spec fn closed_with_backslash(s: Seq<char>) -> Seq<char> {
    if s.len() > 0 && s.last() == '\\' {
        s
    } else {
        s.push('\\')
    }
}

/// What is left of `s` after trimming is a prefix of `s`, what was cut holds
/// separators only, and nothing more could be cut.
pub proof fn lemma_trim_separators(s: Seq<char>)
    ensures
        trim_separators(s).len() <= s.len(),
        trim_separators(s) == s.subrange(0, trim_separators(s).len() as int),
        forall|i: int| trim_separators(s).len() <= i < s.len() ==> is_separator(s[i]),
        trim_separators(s).len() > 0 ==> !is_separator(trim_separators(s).last()),
    decreases s.len(),
{
    if s.len() > 0 && is_separator(s.last()) {
        lemma_trim_separators(s.drop_last());
        let t = trim_separators(s);
        assert(t == s.drop_last().subrange(0, t.len() as int));
        assert(t == s.subrange(0, t.len() as int));
        assert forall|i: int| t.len() <= i < s.len() implies is_separator(s[i]) by {
            if i < s.len() - 1 {
                assert(s[i] == s.drop_last()[i]);
            }
        }
    } else {
        assert(s == s.subrange(0, s.len() as int));
    }
}

/// A letter followed by separators only is an identifier of that letter's
/// drive: its canonical form is the upper-case letter alone, whatever the
/// case it was written in and whatever trails it.
pub proof fn lemma_canonical_of_letter(c: char, trail: Seq<char>)
    requires
        ('a' <= c && c <= 'z') || ('A' <= c && c <= 'Z'),
        forall|i: int| 0 <= i < trail.len() ==> is_separator(trail[i]),
    ensures
        canonical(seq![c] + trail) == seq![upper(c)],
    decreases trail.len(),
{
    let s = seq![c] + trail;
    if trail.len() == 0 {
        assert(s == seq![c]);
        assert(s.last() == c);
        assert(trim_separators(s) == s);
        assert(fold_upper(s) == seq![upper(c)]);
    } else {
        assert(s.last() == trail.last());
        assert(s.drop_last() == seq![c] + trail.drop_last());
        lemma_canonical_of_letter(c, trail.drop_last());
        assert(trim_separators(s) == trim_separators(s.drop_last()));
    }
}

/// Bringing a canonical form to canonical form changes nothing.
pub proof fn lemma_canonical_is_stable(d: Seq<char>)
    ensures
        canonical(canonical(d)) == canonical(d),
{
    lemma_trim_separators(d);
    let t = trim_separators(d);
    let u = fold_upper(t);
    if u.len() > 0 {
        assert(u.last() == upper(t.last()));
        assert(!is_separator(u.last()));
    }
    assert(trim_separators(u) == u);
    assert(fold_upper(u) == u);
}

/// Cuts the separators that trail `v`.
pub fn trim_chars(v: &Vec<char>) -> (r: Vec<char>)
    ensures
        r@ == trim_separators(v@),
{
    let mut n: usize = v.len();
    assert(v@.subrange(0, n as int) == v@);
    while n > 0 && (v[n - 1] == ':' || v[n - 1] == '\\' || v[n - 1] == '/')
        invariant
            n <= v.len(),
            trim_separators(v@) == trim_separators(v@.subrange(0, n as int)),
        decreases n,
    {
        assert(v@.subrange(0, n as int).drop_last() == v@.subrange(0, n - 1));
        n = n - 1;
    }
    let mut r: Vec<char> = Vec::new();
    let mut i: usize = 0;
    while i < n
        invariant
            i <= n,
            n <= v.len(),
            r@ == v@.subrange(0, i as int),
        decreases n - i,
    {
        r.push(v[i]);
        i = i + 1;
    }
    assert(v@.subrange(0, v@.len() as int) == v@);
    r
}

/// A drive identifier without the separators that trail it, in the case it
/// was written in.
pub fn trim_drive(d: &str) -> (r: String)
    ensures
        r@ == trim_separators(d@),
{
    let v = chars_of(d);
    let t = trim_chars(&v);
    string_of(&t)
}

/// A drive identifier in canonical form: without the separators that trail
/// it, and in upper case.
pub fn norm_drive(d: &str) -> (r: String)
    ensures
        r@ == canonical(d@),
{
    let v = chars_of(d);
    let t = trim_chars(&v);
    let u = to_upper_chars(&t);
    string_of(&u)
}

/// The label under which a drive is shown.
pub fn drive_label(d: &str) -> (r: String)
    ensures
        r@ == label_of(d@),
{
    let mut v = chars_of(d);
    v.push(':');
    string_of(&v)
}

/// The root directory of a drive.
pub fn drive_root(d: &str) -> (r: String)
    ensures
        r@ == root_of(d@),
{
    let mut v = chars_of(d);
    v.push(':');
    v.push('\\');
    string_of(&v)
}

/// The path that opens a drive as a raw volume.
pub fn device_path(d: &str) -> (r: String)
    ensures
        r@ == device_path_of(d@),
{
    let mut v: Vec<char> = Vec::new();
    v.push('\\');
    v.push('\\');
    v.push('.');
    v.push('\\');
    let mut body = chars_of(d);
    v.append(&mut body);
    v.push(':');
    string_of(&v)
}

/// A volume path that ends in a backslash, as the resource facility indexes
/// it.
pub fn close_with_backslash(path: &str) -> (r: String)
    ensures
        r@ == closed_with_backslash(path@),
{
    let mut v = chars_of(path);
    if v.len() == 0 || v[v.len() - 1] != '\\' {
        v.push('\\');
    }
    string_of(&v)
}

} // verus!
