//! Version reconciliation: deciding whether a candidate package is
//! already installed at the matching version.
//!
//! The caller hands over two raw outputs of the bridge tool: the full
//! installed-package listing, and — only for a listed package — the
//! package dump that carries the installed `versionName`. Presence is an
//! exact line match on `package:<name>`, never a substring match; version
//! equality is exact byte equality after trimming surrounding whitespace
//! on both sides.

use crate::text::{
    contains_str, contains_sub, find_char, find_char_str, lines_spec, piece, piece_at,
    split_lines, str_eq, trim_spec, trim_str, views_of,
};
use vstd::prelude::*;
use vstd::string::*;

verus! {

/// The exact listing line that announces an installed package `name`.
pub open spec fn package_line_for(name: Seq<char>) -> Seq<char> {
    "package:"@ + name
}

/// Whether the installed-package listing holds the exact line
/// `package:<name>`.
pub open spec fn package_listed(listing: Seq<char>, name: Seq<char>) -> bool {
    exists|i: int|
        0 <= i < lines_spec(listing).len() && lines_spec(listing)[i] == package_line_for(name)
}

/// Checks a raw listing for the exact line `package:<name>`, as
/// [`package_listed`] describes.
pub fn check_if_package_in_app_list(listing: &str, package_name: &str) -> (r: bool)
    ensures
        r == package_listed(listing@, package_name@),
{
    let expected = "package:".to_owned().concat(package_name);
    let lines = split_lines(listing);
    let mut i: usize = 0;
    while i < lines.len()
        invariant
            i <= lines@.len(),
            views_of(lines@) == lines_spec(listing@),
            expected@ == package_line_for(package_name@),
            forall|j: int|
                0 <= j < i ==> lines_spec(listing@)[j] != package_line_for(package_name@),
        decreases lines@.len() - i,
    {
        proof {
            assert(views_of(lines@)[i as int] == lines@[i as int]@);
        }
        if str_eq(lines[i].as_str(), expected.as_str()) {
            proof {
                assert(lines_spec(listing@)[i as int] == package_line_for(package_name@));
            }
            return true;
        }
        i += 1;
    }
    false
}

/// A dump line that assigns the installed version: it mentions
/// `versionName` and holds an `=`.
pub open spec fn version_line(l: Seq<char>) -> bool {
    contains_sub(l, "versionName"@) && find_char(l, '=') is Some
}

/// The installed version the dump lines yield: from the first version
/// line, the token between the first and second `=`, trimmed.
pub open spec fn version_from_lines(lines: Seq<Seq<char>>) -> Option<Seq<char>>
    decreases lines.len(),
{
    if lines.len() == 0 {
        None
    } else if version_line(lines[0]) {
        Some(trim_spec(piece(lines[0], '=', 1)))
    } else {
        version_from_lines(lines.drop_first())
    }
}

/// The installed version a whole package dump yields, if any.
pub open spec fn installed_version_spec(dump: Seq<char>) -> Option<Seq<char>> {
    version_from_lines(lines_spec(dump))
}

/// Extracts the installed version from a package dump, as
/// [`installed_version_spec`] describes.
pub fn get_installed_package_version(dump: &str) -> (r: Option<String>)
    ensures
        match r {
            Some(v) => installed_version_spec(dump@) == Some(v@),
            None => installed_version_spec(dump@) is None,
        },
{
    let lines = split_lines(dump);
    let mut i: usize = 0;
    proof {
        assert(lines_spec(dump@).skip(0) =~= lines_spec(dump@));
    }
    while i < lines.len()
        invariant
            i <= lines@.len(),
            views_of(lines@) == lines_spec(dump@),
            version_from_lines(lines_spec(dump@)) == version_from_lines(
                lines_spec(dump@).skip(i as int),
            ),
        decreases lines@.len() - i,
    {
        proof {
            assert(views_of(lines@)[i as int] == lines@[i as int]@);
            assert(lines_spec(dump@).skip(i as int)[0] == lines_spec(dump@)[i as int]);
        }
        let line = &lines[i];
        if contains_str(line.as_str(), "versionName") {
            match find_char_str(line.as_str(), '=') {
                Some(_) => {
                    let p = piece_at(line.as_str(), '=', 1);
                    let v = trim_str(p.as_str());
                    return Some(v);
                },
                None => {},
            }
        }
        proof {
            assert(lines_spec(dump@).skip(i as int).drop_first() =~= lines_spec(dump@).skip(
                i + 1,
            ));
        }
        i += 1;
    }
    proof {
        assert(lines_spec(dump@).skip(lines@.len() as int).len() == 0);
    }
    None
}

/// The installed-version view of one reconciliation: the version the
/// device reports, but only for a package the listing holds and a dump
/// that yields one.
pub open spec fn observed_version(
    listing: Seq<char>,
    version_dump: Option<Seq<char>>,
    name: Seq<char>,
) -> Option<Seq<char>> {
    if package_listed(listing, name) {
        match version_dump {
            Some(d) => installed_version_spec(d),
            None => None,
        }
    } else {
        None
    }
}

/// Whether an install is unnecessary: the package is listed and the
/// installed version equals the candidate, both trimmed.
pub open spec fn reconcile_satisfied(
    listing: Seq<char>,
    version_dump: Option<Seq<char>>,
    name: Seq<char>,
    candidate: Seq<char>,
) -> bool {
    match observed_version(listing, version_dump, name) {
        Some(v) => v == trim_spec(candidate),
        None => false,
    }
}

/// The view of an optional raw dump.
pub open spec fn opt_view(d: Option<&str>) -> Option<Seq<char>> {
    match d {
        Some(s) => Some(s@),
        None => None,
    }
}

/// The verdict of one reconciliation: whether the device already holds
/// the candidate version, and the installed version it reported, if any.
/// Derived per invocation, never stored.
#[derive(Debug, PartialEq, Eq)]
pub struct ReconciliationOutcome {
    pub already_satisfied: bool,
    pub installed_version: Option<String>,
}

/// Decides whether the candidate is already installed. `version_dump` is
/// the package dump the caller fetched for a listed package; `None`
/// stands for a query it could not or did not run, and counts as not
/// satisfied.
pub fn check_if_package_installed(
    listing: &str,
    version_dump: Option<&str>,
    package_name: &str,
    expected_version: &str,
) -> (r: ReconciliationOutcome)
    ensures
        r.already_satisfied == reconcile_satisfied(
            listing@,
            opt_view(version_dump),
            package_name@,
            expected_version@,
        ),
        (match r.installed_version {
            Some(v) => Some(v@),
            None => None,
        }) == observed_version(listing@, opt_view(version_dump), package_name@),
{
    let listed = check_if_package_in_app_list(listing, package_name);
    if !listed {
        return ReconciliationOutcome { already_satisfied: false, installed_version: None };
    }
    match version_dump {
        None => ReconciliationOutcome { already_satisfied: false, installed_version: None },
        Some(d) => match get_installed_package_version(d) {
            None => ReconciliationOutcome {
                already_satisfied: false,
                installed_version: None,
            },
            Some(v) => {
                let cand = trim_str(expected_version);
                let satisfied = str_eq(v.as_str(), cand.as_str());
                ReconciliationOutcome {
                    already_satisfied: satisfied,
                    installed_version: Some(v),
                }
            },
        },
    }
}

/// Law: a package absent from the installed-package listing is never
/// reported satisfied, whatever any version query returned.
pub proof fn lemma_absent_package_never_satisfied(
    listing: Seq<char>,
    version_dump: Option<Seq<char>>,
    name: Seq<char>,
    candidate: Seq<char>,
)
    requires
        !package_listed(listing, name),
    ensures
        !reconcile_satisfied(listing, version_dump, name, candidate),
{
}

/// Law: for a listed package whose dump yields an installed version,
/// reconciliation is satisfied exactly when that version equals the
/// candidate trimmed of surrounding whitespace; any other character
/// difference leaves it unsatisfied.
pub proof fn lemma_version_equality_decides(
    listing: Seq<char>,
    dump: Seq<char>,
    name: Seq<char>,
    candidate: Seq<char>,
    v: Seq<char>,
)
    requires
        package_listed(listing, name),
        installed_version_spec(dump) == Some(v),
    ensures
        reconcile_satisfied(listing, Some(dump), name, candidate) <==> v == trim_spec(candidate),
{
}

} // verus!
