//! Parsing of the textual metadata dumps the inspection tools emit.
//!
//! Two dump flavours reach this parser — the badging dump of a local APK
//! file and the badging dump of a package already on the device — and both
//! share one line scanner. A line opening with `package: name` carries the
//! package name and the two versions as single-quote-delimited fields; a
//! line opening with `application-label` carries the label. The exact text
//! layout is what the tools emit today: any upstream format change breaks
//! this extraction, which is why a dump with any field missing is an
//! explicit failure, never a partially filled record.

use crate::text::{lines_spec, piece, piece_at, split_lines, starts_with_str, views_of};
use vstd::prelude::*;
use vstd::string::*;

verus! {

/// The four metadata fields of one package, as mathematical values.
pub ghost struct PackageFields {
    pub name: Seq<char>,
    pub version_code: Seq<char>,
    pub version_name: Seq<char>,
    pub label: Seq<char>,
}

/// One package's metadata. A value built by [`parse_package_dump`] is
/// resolved: every field is non-empty.
#[derive(Debug, PartialEq, Eq)]
pub struct PackageInfo {
    pub name: String,
    pub version_name: String,
    pub version_code: String,
    pub label: String,
}

impl View for PackageInfo {
    type V = PackageFields;

    open spec fn view(&self) -> PackageFields {
        PackageFields {
            name: self.name@,
            version_code: self.version_code@,
            version_name: self.version_name@,
            label: self.label@,
        }
    }
}

/// A dump line that carries the name and the two versions.
pub open spec fn is_package_line(l: Seq<char>) -> bool {
    "package: name"@.is_prefix_of(l)
}

/// A dump line that carries the application label.
pub open spec fn is_label_line(l: Seq<char>) -> bool {
    "application-label"@.is_prefix_of(l)
}

/// The fields collected after scanning `lines` in order. On a package
/// line the 1st, 3rd and 5th single-quote-delimited fields are the name,
/// version code and version name; on a label line the 1st is the label.
/// A later matching line overrides an earlier one; a missing field stays
/// empty.
pub open spec fn scan_fields(lines: Seq<Seq<char>>) -> PackageFields
    decreases lines.len(),
{
    if lines.len() == 0 {
        PackageFields {
            name: Seq::empty(),
            version_code: Seq::empty(),
            version_name: Seq::empty(),
            label: Seq::empty(),
        }
    } else {
        let prev = scan_fields(lines.drop_last());
        let l = lines.last();
        if is_package_line(l) {
            PackageFields {
                name: piece(l, '\'', 1),
                version_code: piece(l, '\'', 3),
                version_name: piece(l, '\'', 5),
                label: prev.label,
            }
        } else if is_label_line(l) {
            PackageFields {
                name: prev.name,
                version_code: prev.version_code,
                version_name: prev.version_name,
                label: piece(l, '\'', 1),
            }
        } else {
            prev
        }
    }
}

/// The fields a whole raw dump yields once cut into lines.
pub open spec fn parsed_fields(dump: Seq<char>) -> PackageFields {
    scan_fields(lines_spec(dump))
}

/// Every one of the four fields is present.
pub open spec fn fields_resolved(f: PackageFields) -> bool {
    f.name.len() > 0 && f.version_code.len() > 0 && f.version_name.len() > 0 && f.label.len()
        > 0
}

/// Scans a raw dump and returns whatever fields it yields, resolved or
/// not. The callers below decide what a missing field means.
fn scan_dump(dump: &str) -> (r: PackageInfo)
    ensures
        r@ == parsed_fields(dump@),
{
    let lines = split_lines(dump);
    let mut info = PackageInfo {
        name: String::new(),
        version_name: String::new(),
        version_code: String::new(),
        label: String::new(),
    };
    let mut i: usize = 0;
    while i < lines.len()
        invariant
            i <= lines@.len(),
            views_of(lines@) == lines_spec(dump@),
            info@ == scan_fields(lines_spec(dump@).take(i as int)),
        decreases lines@.len() - i,
    {
        proof {
            assert(views_of(lines@)[i as int] == lines@[i as int]@);
        }
        let line = &lines[i];
        if starts_with_str(line.as_str(), "package: name") {
            info.name = piece_at(line.as_str(), '\'', 1);
            info.version_code = piece_at(line.as_str(), '\'', 3);
            info.version_name = piece_at(line.as_str(), '\'', 5);
        } else if starts_with_str(line.as_str(), "application-label") {
            info.label = piece_at(line.as_str(), '\'', 1);
        }
        proof {
            assert(lines_spec(dump@).take(i + 1).drop_last() =~= lines_spec(dump@).take(
                i as int,
            ));
            assert(lines_spec(dump@).take(i + 1).last() == lines_spec(dump@)[i as int]);
        }
        i += 1;
    }
    proof {
        assert(lines_spec(dump@).take(lines@.len() as int) =~= lines_spec(dump@));
    }
    info
}

/// Parses one raw dump into a resolved record.
///
/// Returns the record exactly when the dump yields all four fields;
/// a dump missing any field is a failure, never a partial record.
pub fn parse_package_dump(dump: &str) -> (r: Option<PackageInfo>)
    ensures
        match r {
            Some(p) => p@ == parsed_fields(dump@) && fields_resolved(p@),
            None => !fields_resolved(parsed_fields(dump@)),
        },
{
    let info = scan_dump(dump);
    if !info.name.as_str().is_empty() && !info.version_code.as_str().is_empty()
        && !info.version_name.as_str().is_empty() && !info.label.as_str().is_empty() {
        Some(info)
    } else {
        None
    }
}

/// The package name a badging dump yields, when it yields one.
pub fn find_package_name(dump: &str) -> (r: Option<String>)
    ensures
        match r {
            Some(n) => n@ == parsed_fields(dump@).name && n@.len() > 0,
            None => parsed_fields(dump@).name.len() == 0,
        },
{
    let info = scan_dump(dump);
    if !info.name.as_str().is_empty() {
        Some(info.name)
    } else {
        None
    }
}

/// The version name a badging dump yields, when it yields one. For a
/// local APK this is the candidate version of the install flow.
pub fn get_apk_package_version(dump: &str) -> (r: Option<String>)
    ensures
        match r {
            Some(v) => v@ == parsed_fields(dump@).version_name && v@.len() > 0,
            None => parsed_fields(dump@).version_name.len() == 0,
        },
{
    let info = scan_dump(dump);
    if !info.version_name.as_str().is_empty() {
        Some(info.version_name)
    } else {
        None
    }
}

} // verus!
