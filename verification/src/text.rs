//! Character-level text utilities shared by every dump parser in the crate.
//!
//! The device tools emit plain line-oriented text; all parsing below is
//! specified over `Seq<char>` views and implemented over `&str`.

use vstd::prelude::*;
use vstd::string::*;

verus! {

/// A character counts as whitespace for trimming: ASCII blank, tab,
/// carriage return and line feed.
pub open spec fn is_space(c: char) -> bool {
    c == ' ' || c == '\t' || c == '\r' || c == '\n'
}

/// Executable test for [`is_space`].
pub fn is_space_char(c: char) -> (r: bool)
    ensures
        r == is_space(c),
{
    c == ' ' || c == '\t' || c == '\r' || c == '\n'
}

/// The text with leading and trailing whitespace removed.
pub open spec fn trim_spec(s: Seq<char>) -> Seq<char>
    decreases s.len(),
{
    if s.len() == 0 {
        s
    } else if is_space(s[0]) {
        trim_spec(s.drop_first())
    } else if is_space(s.last()) {
        trim_spec(s.drop_last())
    } else {
        s
    }
}

/// Trims leading and trailing whitespace, as [`trim_spec`] describes.
pub fn trim_str(s: &str) -> (r: String)
    ensures
        r@ == trim_spec(s@),
    decreases s@.len(),
{
    let n = s.unicode_len();
    if n == 0 {
        String::new()
    } else if is_space_char(s.get_char(0)) {
        let rest = s.substring_char(1, n);
        proof {
            assert(rest@ =~= s@.drop_first());
        }
        trim_str(rest)
    } else if is_space_char(s.get_char(n - 1)) {
        let rest = s.substring_char(0, n - 1);
        proof {
            assert(rest@ =~= s@.drop_last());
        }
        trim_str(rest)
    } else {
        s.to_owned()
    }
}

/// The text with every leading and trailing double-quote character removed.
pub open spec fn strip_quotes_spec(s: Seq<char>) -> Seq<char>
    decreases s.len(),
{
    if s.len() == 0 {
        s
    } else if s[0] == '"' {
        strip_quotes_spec(s.drop_first())
    } else if s.last() == '"' {
        strip_quotes_spec(s.drop_last())
    } else {
        s
    }
}

/// Strips surrounding double quotes, as [`strip_quotes_spec`] describes.
pub fn strip_quotes_str(s: &str) -> (r: String)
    ensures
        r@ == strip_quotes_spec(s@),
    decreases s@.len(),
{
    let n = s.unicode_len();
    if n == 0 {
        String::new()
    } else if s.get_char(0) == '"' {
        let rest = s.substring_char(1, n);
        proof {
            assert(rest@ =~= s@.drop_first());
        }
        strip_quotes_str(rest)
    } else if s.get_char(n - 1) == '"' {
        let rest = s.substring_char(0, n - 1);
        proof {
            assert(rest@ =~= s@.drop_last());
        }
        strip_quotes_str(rest)
    } else {
        s.to_owned()
    }
}

/// Character-for-character equality of two string slices.
pub fn str_eq(a: &str, b: &str) -> (r: bool)
    ensures
        r == (a@ == b@),
{
    let an = a.unicode_len();
    let bn = b.unicode_len();
    if an != bn {
        return false;
    }
    let mut i: usize = 0;
    while i < an
        invariant
            an == a@.len(),
            bn == b@.len(),
            an == bn,
            i <= an,
            forall|j: int| 0 <= j < i ==> a@[j] == b@[j],
        decreases an - i,
    {
        if a.get_char(i) != b.get_char(i) {
            return false;
        }
        i += 1;
    }
    proof {
        assert(a@ =~= b@);
    }
    true
}

/// Whether `prefix` opens the text `s`.
pub fn starts_with_str(s: &str, prefix: &str) -> (r: bool)
    ensures
        r == prefix@.is_prefix_of(s@),
{
    let pn = prefix.unicode_len();
    let n = s.unicode_len();
    if pn > n {
        return false;
    }
    let mut i: usize = 0;
    while i < pn
        invariant
            pn == prefix@.len(),
            n == s@.len(),
            pn <= n,
            i <= pn,
            forall|j: int| 0 <= j < i ==> s@[j] == prefix@[j],
        decreases pn - i,
    {
        if s.get_char(i) != prefix.get_char(i) {
            proof {
                assert(s@.subrange(0, pn as int)[i as int] == s@[i as int]);
            }
            return false;
        }
        i += 1;
    }
    proof {
        assert(prefix@ =~= s@.subrange(0, pn as int));
    }
    true
}

/// Whether `suffix` closes the text `s`.
pub fn ends_with_str(s: &str, suffix: &str) -> (r: bool)
    ensures
        r == suffix@.is_suffix_of(s@),
{
    let sn = suffix.unicode_len();
    let n = s.unicode_len();
    if sn > n {
        return false;
    }
    let tail = s.substring_char(n - sn, n);
    str_eq(tail, suffix)
}

/// Index of the first occurrence of `c` in `s`, if any.
pub open spec fn find_char(s: Seq<char>, c: char) -> Option<int>
    decreases s.len(),
{
    if s.len() == 0 {
        None
    } else if s[0] == c {
        Some(0int)
    } else {
        match find_char(s.drop_first(), c) {
            None => None,
            Some(i) => Some(i + 1),
        }
    }
}

/// What [`find_char`] returns: the first position holding `c`, or the
/// guarantee that no position does.
pub proof fn lemma_find_char_spec(s: Seq<char>, c: char)
    ensures
        match find_char(s, c) {
            Some(i) => 0 <= i < s.len() && s[i] == c && (forall|j: int| 0 <= j < i ==> s[j] != c),
            None => forall|j: int| 0 <= j < s.len() ==> s[j] != c,
        },
    decreases s.len(),
{
    if s.len() == 0 {
    } else if s[0] == c {
    } else {
        lemma_find_char_spec(s.drop_first(), c);
        assert(forall|j: int| 1 <= j < s.len() ==> s[j] == s.drop_first()[j - 1]);
    }
}

/// Finds the first occurrence of `c`, as [`find_char`] describes.
pub fn find_char_str(s: &str, c: char) -> (r: Option<usize>)
    ensures
        match r {
            Some(i) => find_char(s@, c) == Some(i as int),
            None => find_char(s@, c) is None,
        },
    decreases s@.len(),
{
    let n = s.unicode_len();
    if n == 0 {
        None
    } else if s.get_char(0) == c {
        Some(0)
    } else {
        let rest = s.substring_char(1, n);
        proof {
            assert(rest@ =~= s@.drop_first());
            lemma_find_char_spec(rest@, c);
        }
        match find_char_str(rest, c) {
            None => None,
            Some(i) => Some(i + 1),
        }
    }
}

/// The pieces of `s` between occurrences of the separator `sep`.
/// There is always at least one piece; a separator at either end
/// contributes an empty piece, as `str::split` does.
pub open spec fn split_on(s: Seq<char>, sep: char) -> Seq<Seq<char>>
    decreases s.len() via split_on_decreases
{
    match find_char(s, sep) {
        None => seq![s],
        Some(i) => seq![s.take(i)] + split_on(s.skip(i + 1), sep),
    }
}

#[via_fn]
proof fn split_on_decreases(s: Seq<char>, sep: char) {
    lemma_find_char_spec(s, sep);
}

/// The views of a sequence of owned strings.
pub open spec fn views_of(strings: Seq<String>) -> Seq<Seq<char>> {
    strings.map_values(|t: String| t@)
}

/// Splits `s` at every occurrence of `sep`, as [`split_on`] describes.
pub fn split_str(s: &str, sep: char) -> (r: Vec<String>)
    ensures
        views_of(r@) == split_on(s@, sep),
    decreases s@.len(),
{
    let n = s.unicode_len();
    match find_char_str(s, sep) {
        None => {
            let mut v: Vec<String> = Vec::new();
            v.push(s.to_owned());
            proof {
                assert(views_of(v@) =~= seq![s@]);
            }
            v
        },
        Some(i) => {
            proof {
                lemma_find_char_spec(s@, sep);
            }
            let head = s.substring_char(0, i);
            let tail = s.substring_char(i + 1, n);
            proof {
                assert(head@ =~= s@.take(i as int));
                assert(tail@ =~= s@.skip(i + 1 as int));
            }
            let mut rest = split_str(tail, sep);
            rest.insert(0, head.to_owned());
            proof {
                assert(views_of(rest@) =~= seq![s@.take(i as int)] + split_on(s@.skip(i + 1 as int), sep));
            }
            rest
        },
    }
}

/// Piece number `k` of `s` split at `sep`; empty when there are not
/// that many pieces.
pub open spec fn piece(s: Seq<char>, sep: char, k: int) -> Seq<char> {
    let ps = split_on(s, sep);
    if 0 <= k < ps.len() {
        ps[k]
    } else {
        Seq::empty()
    }
}

/// Extracts piece number `k`, as [`piece`] describes.
pub fn piece_at(s: &str, sep: char, k: usize) -> (r: String)
    ensures
        r@ == piece(s@, sep, k as int),
{
    let ps = split_str(s, sep);
    if k < ps.len() {
        proof {
            assert(views_of(ps@)[k as int] == ps@[k as int]@);
        }
        ps[k].clone()
    } else {
        String::new()
    }
}

/// A line of raw tool output: the piece before a line feed, with a
/// trailing carriage return removed.
pub open spec fn strip_cr(line: Seq<char>) -> Seq<char> {
    if line.len() > 0 && line.last() == '\r' {
        line.drop_last()
    } else {
        line
    }
}

/// The lines of a raw text dump: pieces between line feeds, each with a
/// trailing carriage return removed.
pub open spec fn lines_spec(s: Seq<char>) -> Seq<Seq<char>> {
    split_on(s, '\n').map_values(|l: Seq<char>| strip_cr(l))
}

/// Splits a dump into lines, as [`lines_spec`] describes.
pub fn split_lines(s: &str) -> (r: Vec<String>)
    ensures
        views_of(r@) == lines_spec(s@),
{
    let pieces = split_str(s, '\n');
    let mut out: Vec<String> = Vec::new();
    let mut idx: usize = 0;
    while idx < pieces.len()
        invariant
            idx <= pieces@.len(),
            views_of(pieces@) == split_on(s@, '\n'),
            views_of(out@) == lines_spec(s@).take(idx as int),
        decreases pieces@.len() - idx,
    {
        proof {
            assert(views_of(pieces@)[idx as int] == pieces@[idx as int]@);
        }
        let piece_ref = &pieces[idx];
        let pn = piece_ref.as_str().unicode_len();
        let stripped: String = if pn > 0 && piece_ref.as_str().get_char(pn - 1) == '\r' {
            let cut = piece_ref.as_str().substring_char(0, pn - 1);
            proof {
                assert(cut@ =~= piece_ref@.drop_last());
            }
            cut.to_owned()
        } else {
            piece_ref.clone()
        };
        proof {
            assert(stripped@ == strip_cr(pieces@[idx as int]@));
            assert(lines_spec(s@)[idx as int] == strip_cr(split_on(s@, '\n')[idx as int]));
        }
        let ghost prev = out@;
        out.push(stripped);
        proof {
            let ghost target = lines_spec(s@).take(idx + 1);
            assert(lines_spec(s@).len() == pieces@.len());
            assert(views_of(prev).len() == prev.len());
            assert(prev.len() == idx);
            assert forall|j: int| 0 <= j < idx + 1 implies views_of(out@)[j] == target[j] by {
                if j < idx {
                    assert(views_of(prev)[j] == lines_spec(s@).take(idx as int)[j]);
                } else {
                    assert(out@[j] == stripped);
                }
            };
            assert(views_of(out@) =~= target);
        }
        idx += 1;
    }
    proof {
        assert(lines_spec(s@).take(pieces@.len() as int) =~= lines_spec(s@));
    }
    out
}

/// Index of the first occurrence of `needle` in `s`, if any.
pub open spec fn find_sub(s: Seq<char>, needle: Seq<char>) -> Option<int>
    decreases s.len(),
{
    if needle.is_prefix_of(s) {
        Some(0int)
    } else if s.len() == 0 {
        None
    } else {
        match find_sub(s.drop_first(), needle) {
            None => None,
            Some(i) => Some(i + 1),
        }
    }
}

/// Whether `needle` occurs anywhere in `s`.
pub open spec fn contains_sub(s: Seq<char>, needle: Seq<char>) -> bool {
    find_sub(s, needle) is Some
}

/// What [`find_sub`] returns: the first position where `needle` starts,
/// or the guarantee that it starts nowhere.
pub proof fn lemma_find_sub_spec(s: Seq<char>, needle: Seq<char>)
    ensures
        match find_sub(s, needle) {
            Some(i) => 0 <= i && i + needle.len() <= s.len() && needle.is_prefix_of(s.skip(i))
                && (forall|j: int| 0 <= j < i ==> !needle.is_prefix_of(#[trigger] s.skip(j))),
            None => forall|j: int| 0 <= j <= s.len() ==> !needle.is_prefix_of(#[trigger] s.skip(j)),
        },
    decreases s.len(),
{
    if needle.is_prefix_of(s) {
        assert(s.skip(0) =~= s);
    } else if s.len() == 0 {
        assert forall|j: int| 0 <= j <= s.len() implies !needle.is_prefix_of(
            #[trigger] s.skip(j),
        ) by {
            assert(s.skip(j) =~= s);
        }
    } else {
        lemma_find_sub_spec(s.drop_first(), needle);
        assert(s.skip(0) =~= s);
        assert forall|j: int| 1 <= j <= s.len() implies s.skip(j) =~= s.drop_first().skip(
            j - 1,
        ) by {}
    }
}

/// Finds the first occurrence of `needle`, as [`find_sub`] describes.
pub fn find_str(s: &str, needle: &str) -> (r: Option<usize>)
    ensures
        match r {
            Some(i) => find_sub(s@, needle@) == Some(i as int),
            None => find_sub(s@, needle@) is None,
        },
    decreases s@.len(),
{
    if starts_with_str(s, needle) {
        Some(0)
    } else {
        let n = s.unicode_len();
        if n == 0 {
            None
        } else {
            let rest = s.substring_char(1, n);
            proof {
                assert(rest@ =~= s@.drop_first());
                lemma_find_sub_spec(rest@, needle@);
            }
            match find_str(rest, needle) {
                None => None,
                Some(i) => Some(i + 1),
            }
        }
    }
}

/// Whether `needle` occurs in `s`, as [`contains_sub`] describes.
pub fn contains_str(s: &str, needle: &str) -> (r: bool)
    ensures
        r == contains_sub(s@, needle@),
{
    match find_str(s, needle) {
        Some(_) => true,
        None => false,
    }
}

} // verus!
