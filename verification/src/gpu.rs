//! The GPU inventory report, drawn from the captured output of a
//! PCI-enumeration command. The caller runs the command and hands the
//! decoded output and error text over; everything after that point is
//! verified here.

use vstd::prelude::*;
use crate::strutil::{
    contains_seq, contains_str, join_seq, join_strings, lines_of, lines_seq, split_seq, split_str,
    trim_seq, trim_str,
};

verus! {

/// A line of the PCI listing that describes a display adapter: it contains
/// the class marker "VGA" or "3D".
pub open spec fn is_gpu_line(l: Seq<char>) -> bool {
    contains_seq(l, "VGA"@) || contains_seq(l, "3D"@)
}

/// The device description drawn from one matching line: the third
/// colon-separated field, trimmed of surrounding whitespace, or
/// "Unknown GPU" if the line has fewer than three such fields.
pub open spec fn gpu_desc(l: Seq<char>) -> Seq<char> {
    let fields = split_seq(l, ':');
    if fields.len() > 2 {
        trim_seq(fields[2])
    } else {
        "Unknown GPU"@
    }
}

/// The descriptions of the display-adapter lines, in order.
pub open spec fn gpu_descs(ls: Seq<Seq<char>>) -> Seq<Seq<char>>
    decreases ls.len(),
{
    if ls.len() == 0 {
        Seq::empty()
    } else {
        let rest = gpu_descs(ls.drop_first());
        if is_gpu_line(ls[0]) {
            seq![gpu_desc(ls[0])] + rest
        } else {
            rest
        }
    }
}

/// The report drawn from the command's captured output and error text: the
/// error text after "Error: " if there is any; otherwise the matching
/// lines' descriptions joined by newlines; "No GPU found." if that joined
/// text is empty.
pub open spec fn gpu_report_seq(out: Seq<char>, err: Seq<char>) -> Seq<char> {
    if err.len() > 0 {
        "Error: "@ + err
    } else {
        let joined = join_seq(gpu_descs(lines_seq(out)), "\n"@);
        if joined.len() == 0 {
            "No GPU found."@
        } else {
            joined
        }
    }
}

/// The description of one matching line.
fn gpu_desc_of(line: &str) -> (r: String)
    ensures
        r@ == gpu_desc(line@),
{
    let fields = split_str(line, ':');
    if fields.len() > 2 {
        trim_str(fields[2].as_str())
    } else {
        String::from_str("Unknown GPU")
    }
}

/// The descriptions of the display-adapter lines at or after index `i`.
fn gpu_descs_from(ls: &Vec<String>, i: usize) -> (r: Vec<String>)
    requires
        i <= ls@.len(),
    ensures
        r@.map_values(|p: String| p@) == gpu_descs(ls@.map_values(|p: String| p@).skip(i as int)),
    decreases ls@.len() - i,
{
    let ghost vs = ls@.map_values(|p: String| p@);
    if i == ls.len() {
        let r: Vec<String> = Vec::new();
        proof {
            assert(r@.map_values(|p: String| p@) =~= gpu_descs(vs.skip(i as int)));
        }
        r
    } else {
        let mut r = gpu_descs_from(ls, i + 1);
        let line = &ls[i];
        proof {
            assert(vs.skip(i as int).drop_first() =~= vs.skip(i + 1));
            assert(vs.skip(i as int)[0] == line@);
        }
        if contains_str(line.as_str(), "VGA") || contains_str(line.as_str(), "3D") {
            let d = gpu_desc_of(line.as_str());
            r.insert(0, d);
        }
        proof {
            assert(r@.map_values(|p: String| p@) =~= gpu_descs(vs.skip(i as int)));
        }
        r
    }
}

/// Scans the PCI listing for display adapters and produces the report;
/// see `gpu_report_seq` for the exact rule.
pub fn gpu_report(out: &str, err: &str) -> (r: String)
    ensures
        r@ == gpu_report_seq(out@, err@),
{
    if !err.is_empty() {
        let mut r = String::from_str("Error: ");
        r.append(err);
        r
    } else {
        let lines = lines_of(out);
        let descs = gpu_descs_from(&lines, 0);
        proof {
            let vs = lines@.map_values(|p: String| p@);
            assert(vs.skip(0) =~= vs);
        }
        let joined = join_strings(&descs, "\n");
        if joined.as_str().is_empty() {
            String::from_str("No GPU found.")
        } else {
            joined
        }
    }
}

} // verus!
