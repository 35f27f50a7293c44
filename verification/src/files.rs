//! Filtering a local directory listing down to APK files.
//!
//! The caller lists the directory; this module keeps, in order, the
//! entries whose file name carries the `.apk` extension, case
//! sensitively.

use crate::text::{ends_with_str, views_of};
use vstd::prelude::*;
use vstd::string::*;

verus! {

/// A path separator, of either convention.
pub open spec fn is_path_sep(c: char) -> bool {
    c == '/' || c == '\\'
}

/// The file-name part of a path: the longest suffix free of path
/// separators.
pub open spec fn file_name_of(p: Seq<char>) -> Seq<char>
    decreases p.len(),
{
    if p.len() == 0 {
        p
    } else if is_path_sep(p.last()) {
        Seq::empty()
    } else {
        file_name_of(p.drop_last()) + seq![p.last()]
    }
}

/// A path the filter keeps: its file name ends in `.apk` and has a
/// non-empty stem, which is when the file's extension is exactly `apk`.
pub open spec fn is_apk_path(p: Seq<char>) -> bool {
    ".apk"@.is_suffix_of(file_name_of(p)) && file_name_of(p).len() > 4
}

/// Decides [`is_apk_path`] for one directory entry.
pub fn has_apk_extension(p: &str) -> (r: bool)
    ensures
        r == is_apk_path(p@),
{
    let n = p.unicode_len();
    let mut j: usize = n;
    proof {
        assert(p@.take(n as int) =~= p@);
        assert(file_name_of(p@) + p@.skip(n as int) =~= file_name_of(p@));
    }
    loop
        invariant
            j <= n,
            n == p@.len(),
            file_name_of(p@) == file_name_of(p@.take(j as int)) + p@.skip(j as int),
        ensures
            j <= n,
            n == p@.len(),
            file_name_of(p@) == p@.skip(j as int),
        decreases j,
    {
        if j == 0 {
            proof {
                assert(file_name_of(p@.take(0)) + p@.skip(0) =~= p@);
            }
            break ;
        }
        let c = p.get_char(j - 1);
        if c == '/' || c == '\\' {
            proof {
                assert(p@.take(j as int).last() == p@[j - 1]);
                assert(Seq::<char>::empty() + p@.skip(j as int) =~= p@.skip(j as int));
            }
            break ;
        }
        proof {
            assert(p@.take(j as int).drop_last() =~= p@.take(j - 1));
            assert(p@.take(j as int).last() == p@[j - 1]);
            assert(file_name_of(p@.take(j - 1)) + seq![p@[j - 1]] + p@.skip(j as int) =~= file_name_of(
                p@.take(j - 1),
            ) + p@.skip(j - 1));
        }
        j -= 1;
    }
    proof {
        assert(file_name_of(p@) == p@.skip(j as int));
    }
    if n - j > 4 {
        let name = p.substring_char(j, n);
        proof {
            assert(name@ =~= p@.skip(j as int));
        }
        ends_with_str(name, ".apk")
    } else {
        false
    }
}

/// The entries the filter keeps, in listing order.
pub open spec fn apk_filter_spec(entries: Seq<Seq<char>>) -> Seq<Seq<char>>
    decreases entries.len(),
{
    if entries.len() == 0 {
        Seq::empty()
    } else {
        let rest = apk_filter_spec(entries.drop_last());
        if is_apk_path(entries.last()) {
            rest + seq![entries.last()]
        } else {
            rest
        }
    }
}

/// Keeps the APK files of a directory listing, as [`apk_filter_spec`]
/// describes: in order, case sensitively, by file extension.
pub fn list_apk_files(entries: Vec<String>) -> (r: Vec<String>)
    ensures
        views_of(r@) == apk_filter_spec(views_of(entries@)),
{
    let mut out: Vec<String> = Vec::new();
    let mut i: usize = 0;
    proof {
        assert(views_of(out@) =~= apk_filter_spec(views_of(entries@).take(0)));
    }
    while i < entries.len()
        invariant
            i <= entries@.len(),
            views_of(out@) == apk_filter_spec(views_of(entries@).take(i as int)),
        decreases entries@.len() - i,
    {
        proof {
            assert(views_of(entries@)[i as int] == entries@[i as int]@);
            assert(views_of(entries@).take(i + 1).drop_last() =~= views_of(entries@).take(
                i as int,
            ));
            assert(views_of(entries@).take(i + 1).last() == views_of(entries@)[i as int]);
        }
        let ghost prev = out@;
        if has_apk_extension(entries[i].as_str()) {
            out.push(entries[i].clone());
            proof {
                assert(views_of(out@) =~= views_of(prev).push(entries@[i as int]@));
                assert(views_of(out@) =~= apk_filter_spec(views_of(entries@).take(i + 1)));
            }
        }
        i += 1;
    }
    proof {
        assert(views_of(entries@).take(entries@.len() as int) =~= views_of(entries@));
    }
    out
}

} // verus!
