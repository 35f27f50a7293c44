//! Batch inventory of third-party packages.
//!
//! One listing command names every third-party package by the path of
//! its base APK; each path is then resolved to a metadata record by a
//! bootstrap, a remote query and a parse that the caller drives. A
//! failure of any single item is recorded by the caller and excluded
//! here: the batch itself never aborts, and the result keeps the
//! listing's order, neither sorted nor deduplicated.

use crate::error::AppError;
use crate::parser::PackageInfo;
use crate::text::{find_sub, lines_spec, split_lines, trim_spec, trim_str, views_of, find_str, lemma_find_sub_spec};
use vstd::prelude::*;
use vstd::string::*;

verus! {

/// The base-APK path one listing line yields: the text between the
/// first `package:` marker and the first following `/base.apk` (with at
/// least one character between them), including the `/base.apk` tail and
/// trimmed of surrounding whitespace. A line without both markers in
/// that order yields nothing.
pub open spec fn base_apk_path_of_line(line: Seq<char>) -> Option<Seq<char>> {
    match find_sub(line, "package:"@) {
        None => None,
        Some(i) => {
            let after = line.skip(i + "package:"@.len());
            if after.len() == 0 {
                None
            } else {
                match find_sub(after.drop_first(), "/base.apk"@) {
                    None => None,
                    Some(k) => Some(trim_spec(after.take(k + 1 + "/base.apk"@.len()))),
                }
            }
        },
    }
}

/// Extracts the base-APK path of one line, as [`base_apk_path_of_line`]
/// describes.
pub fn base_apk_path_of(line: &str) -> (r: Option<String>)
    ensures
        match r {
            Some(p) => base_apk_path_of_line(line@) == Some(p@),
            None => base_apk_path_of_line(line@) is None,
        },
{
    let n = line.unicode_len();
    match find_str(line, "package:") {
        None => None,
        Some(i) => {
            proof {
                lemma_find_sub_spec(line@, "package:"@);
            }
            let plen = "package:".unicode_len();
            let after = line.substring_char(i + plen, n);
            proof {
                assert(after@ =~= line@.skip(i + "package:"@.len()));
            }
            let alen = after.unicode_len();
            if alen == 0 {
                None
            } else {
                let rest = after.substring_char(1, alen);
                proof {
                    assert(rest@ =~= after@.drop_first());
                }
                match find_str(rest, "/base.apk") {
                    None => None,
                    Some(k) => {
                        proof {
                            lemma_find_sub_spec(rest@, "/base.apk"@);
                        }
                        let slen = "/base.apk".unicode_len();
                        let cap = after.substring_char(0, k + 1 + slen);
                        proof {
                            assert(cap@ =~= after@.take(k + 1 + "/base.apk"@.len()));
                        }
                        Some(trim_str(cap))
                    },
                }
            }
        },
    }
}

/// The paths a whole listing yields: one per matching line, in order.
pub open spec fn paths_from_lines(lines: Seq<Seq<char>>) -> Seq<Seq<char>>
    decreases lines.len(),
{
    if lines.len() == 0 {
        Seq::empty()
    } else {
        let rest = paths_from_lines(lines.drop_last());
        match base_apk_path_of_line(lines.last()) {
            Some(p) => rest + seq![p],
            None => rest,
        }
    }
}

/// The base-APK paths a raw third-party listing yields.
pub open spec fn extract_paths_spec(output: Seq<char>) -> Seq<Seq<char>> {
    paths_from_lines(lines_spec(output))
}

/// Extracts the base-APK paths of the third-party listing. A non-zero
/// exit of the listing command fails the whole batch before any item
/// runs; a zero exit yields the paths in listing order, as
/// [`extract_paths_spec`] describes.
pub fn list_third_party_packages(exit_ok: bool, pm_output: &str) -> (r: Result<
    Vec<String>,
    AppError,
>)
    ensures
        !exit_ok ==> (r matches Err(AppError::OtherError(m)) && m@
            == "Failed to execute adb command."@),
        exit_ok ==> (r matches Ok(v) && views_of(v@) == extract_paths_spec(pm_output@)),
{
    if !exit_ok {
        return Err(AppError::OtherError("Failed to execute adb command.".to_owned()));
    }
    let lines = split_lines(pm_output);
    let mut out: Vec<String> = Vec::new();
    let mut i: usize = 0;
    proof {
        assert(views_of(out@) =~= paths_from_lines(lines_spec(pm_output@).take(0)));
    }
    while i < lines.len()
        invariant
            i <= lines@.len(),
            views_of(lines@) == lines_spec(pm_output@),
            views_of(out@) == paths_from_lines(lines_spec(pm_output@).take(i as int)),
        decreases lines@.len() - i,
    {
        proof {
            assert(views_of(lines@)[i as int] == lines@[i as int]@);
            assert(lines_spec(pm_output@).take(i + 1).drop_last() =~= lines_spec(
                pm_output@,
            ).take(i as int));
            assert(lines_spec(pm_output@).take(i + 1).last() == lines_spec(pm_output@)[i as int]);
        }
        let ghost prev = out@;
        match base_apk_path_of(lines[i].as_str()) {
            Some(p) => {
                let ghost pv = p@;
                out.push(p);
                proof {
                    assert(views_of(out@) =~= views_of(prev).push(pv));
                    assert(views_of(out@) =~= paths_from_lines(
                        lines_spec(pm_output@).take(i + 1),
                    ));
                }
            },
            None => {},
        }
        i += 1;
    }
    proof {
        assert(lines_spec(pm_output@).take(lines@.len() as int) =~= lines_spec(pm_output@));
    }
    Ok(out)
}

/// The successes of a batch, in order; failed items drop out.
pub open spec fn collect_some<A>(results: Seq<Option<A>>) -> Seq<A>
    decreases results.len(),
{
    if results.len() == 0 {
        Seq::empty()
    } else {
        match results[0] {
            Some(x) => seq![x] + collect_some(results.drop_first()),
            None => collect_some(results.drop_first()),
        }
    }
}

/// How many items of a batch succeeded.
pub open spec fn count_some<A>(results: Seq<Option<A>>) -> int
    decreases results.len(),
{
    if results.len() == 0 {
        0
    } else {
        (if results[0] is Some {
            1int
        } else {
            0int
        }) + count_some(results.drop_first())
    }
}

/// Law: the batch yields exactly one record per successful item — a
/// failure drops its own item and nothing else.
pub proof fn lemma_collect_count<A>(results: Seq<Option<A>>)
    ensures
        collect_some(results).len() == count_some(results),
    decreases results.len(),
{
    if results.len() == 0 {
    } else {
        lemma_collect_count(results.drop_first());
    }
}

/// Collects the per-package outcomes of one batch into the result
/// sequence: every success, in order, and nothing else. The batch never
/// aborts on an item's failure.
pub fn get_all_third_party_package_info(results: Vec<Option<PackageInfo>>) -> (r: Vec<
    PackageInfo,
>)
    ensures
        r@ == collect_some(results@),
{
    let ghost all = results@;
    let mut rem = results;
    let mut out: Vec<PackageInfo> = Vec::new();
    proof {
        assert(out@ + collect_some(rem@) =~= collect_some(all));
    }
    while rem.len() > 0
        invariant
            collect_some(all) == out@ + collect_some(rem@),
        decreases rem@.len(),
    {
        let ghost old_rem = rem@;
        let ghost old_out = out@;
        let item = rem.remove(0);
        proof {
            assert(rem@ =~= old_rem.drop_first());
        }
        match item {
            Some(p) => {
                out.push(p);
                proof {
                    assert(out@ + collect_some(rem@) =~= old_out + (seq![item->0]
                        + collect_some(old_rem.drop_first())));
                }
            },
            None => {},
        }
    }
    proof {
        assert(collect_some(rem@).len() == 0);
        assert(out@ + collect_some(rem@) =~= out@);
    }
    out
}

} // verus!
