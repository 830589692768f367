//! Destination planning: given the date segment, the optional device name
//! and the file name, computes the destination directory segments and the
//! relative destination path `imgsorted/<date>[/<device>]/<file name>`.
//! Pure computation, no I/O; the caller materializes the directories and
//! performs the copy.

use vstd::prelude::*;
use vstd::string::*;
use crate::date::{spec_capture_date, capture_date};
use crate::exif::{
    spec_device_name, exif_fields_of, extract_device_name, spec_first_model, MODEL_TAG,
    lemma_first_model_characterization,
};
use crate::text::spec_trim;

verus! {

/// The characters of the fixed top-level directory of the destination tree.
pub open spec fn top_dir_seq() -> Seq<char> {
    seq!['i', 'm', 'g', 's', 'o', 'r', 't', 'e', 'd']
}

/// The characters of an optional string.
pub open spec fn opt_chars(o: Option<String>) -> Option<Seq<char>> {
    match o {
        None => None,
        Some(s) => Some(s@),
    }
}

/// A computed destination: the directory segments relative to the root, and
/// the file name appended below them. The destination is always a descendant
/// of the root: the caller joins the segments onto the root path in order.
pub struct DestinationPlan {
    pub dir_segments: Vec<String>,
    pub file_name: String,
}

/// The destination directory segments for a date segment and an optional
/// device name: the top-level directory, the date, and the device only when
/// one is present.
pub open spec fn spec_segments(date: Seq<char>, device: Option<Seq<char>>) -> Seq<Seq<char>> {
    match device {
        None => seq![top_dir_seq(), date],
        Some(d) => seq![top_dir_seq(), date, d],
    }
}

/// The segments joined with `/` into one relative path.
pub open spec fn spec_join(segs: Seq<Seq<char>>) -> Seq<char>
    decreases segs.len(),
{
    if segs.len() == 0 {
        Seq::empty()
    } else if segs.len() == 1 {
        segs[0]
    } else {
        segs[0] + seq!['/'] + spec_join(segs.drop_first())
    }
}

proof fn lemma_join_push(segs: Seq<Seq<char>>, last: Seq<char>)
    requires
        segs.len() >= 1,
    ensures
        spec_join(segs.push(last)) == spec_join(segs) + seq!['/'] + last,
    decreases segs.len(),
{
    if segs.len() == 1 {
        assert(segs.push(last).drop_first() =~= seq![last]);
        assert(segs.push(last)[0] == segs[0]);
        assert(spec_join(seq![last]) == last);
        assert(spec_join(segs.push(last)) == segs[0] + seq!['/'] + last);
    } else {
        assert(segs.push(last).drop_first() =~= segs.drop_first().push(last));
        lemma_join_push(segs.drop_first(), last);
        assert(segs[0] + seq!['/'] + (spec_join(segs.drop_first()) + seq!['/'] + last) =~= (
        segs[0] + seq!['/'] + spec_join(segs.drop_first())) + seq!['/'] + last);
    }
}

fn top_dir_string() -> (r: String)
    ensures
        r@ == top_dir_seq(),
{
    proof {
        reveal_strlit("imgsorted");
        assert("imgsorted"@ =~= top_dir_seq());
    }
    String::from_str("imgsorted")
}

/// Builds the destination for one file: the top-level directory, the date
/// segment, the device segment only when a device name is present, and the
/// file name below them.
pub fn plan_destination(date_segment: String, device_name: Option<String>, file_name: String)
    -> (r: DestinationPlan)
    ensures
        r.dir_segments.deep_view() == spec_segments(date_segment@, opt_chars(device_name)),
        r.file_name@ == file_name@,
{
    let ghost date0 = date_segment@;
    let ghost dev0 = opt_chars(device_name);
    let mut segs: Vec<String> = Vec::new();
    segs.push(top_dir_string());
    segs.push(date_segment);
    match device_name {
        None => {},
        Some(d) => segs.push(d),
    }
    let r = DestinationPlan { dir_segments: segs, file_name };
    proof {
        assert(r.dir_segments.deep_view() =~= spec_segments(date0, dev0));
    }
    r
}

/// Joins a plan into one relative path: the directory segments and the file
/// name, separated by `/`.
pub fn relative_path(plan: &DestinationPlan) -> (r: String)
    ensures
        r@ == spec_join(plan.dir_segments.deep_view().push(plan.file_name@)),
{
    let ghost dv = plan.dir_segments.deep_view();
    let n = plan.dir_segments.len();
    let mut r = String::new();
    let mut i: usize = 0;
    while i < n
        invariant
            i <= n == plan.dir_segments.len(),
            dv == plan.dir_segments.deep_view(),
            dv.len() == n,
            i == 0 ==> r@ =~= Seq::<char>::empty(),
            i >= 1 ==> r@ == spec_join(dv.take(i as int)),
        decreases n - i,
    {
        proof {
            reveal_strlit("/");
            assert("/"@ =~= seq!['/']);
        }
        if i > 0 {
            r.append("/");
        }
        r.append(plan.dir_segments[i].as_str());
        proof {
            assert(dv.take(i + 1 as int) =~= dv.take(i as int).push(dv[i as int]));
            if i >= 1 {
                lemma_join_push(dv.take(i as int), dv[i as int]);
            } else {
                assert(spec_join(dv.take(1)) == dv[0]);
                assert(r@ =~= dv[0]);
            }
        }
        i = i + 1;
    }
    proof {
        reveal_strlit("/");
        assert("/"@ =~= seq!['/']);
    }
    if n > 0 {
        r.append("/");
        proof {
            assert(dv.take(n as int) =~= dv);
            lemma_join_push(dv, plan.file_name@);
        }
    } else {
        proof {
            assert(dv.push(plan.file_name@) =~= seq![plan.file_name@]);
        }
    }
    r.append(plan.file_name.as_str());
    proof {
        assert(r@ =~= spec_join(dv.push(plan.file_name@)));
    }
    r
}

/// Law: the destination holds a device segment exactly when the parsed
/// metadata holds a field with the `Model` tag, and in that case the device
/// segment is the value of the first such field, trimmed of whitespace; for
/// every other file the directory segments are the top-level directory and
/// the date alone.
pub proof fn lemma_device_segment_iff_model(fields: Seq<(u32, Seq<char>)>, date: Seq<char>)
    ensures
        (spec_device_name(Some(fields)) is Some) <==> (exists|i: int|
            0 <= i < fields.len() && (#[trigger] fields[i]).0 == MODEL_TAG),
        spec_device_name(Some(fields)) is None ==> spec_segments(
            date,
            spec_device_name(Some(fields)),
        ) == seq![top_dir_seq(), date],
        spec_device_name(Some(fields)) matches Some(v) ==> ({
            &&& spec_segments(date, spec_device_name(Some(fields))) == seq![
                top_dir_seq(),
                date,
                v,
            ]
            &&& spec_first_model(fields) matches Some(m) && v == spec_trim(m)
        }),
{
    lemma_first_model_characterization(fields);
}

/// Computes the whole destination for one source file from its modification
/// timestamp, its raw bytes and its name: the date segment is the UTC date of
/// the timestamp (or the sentinel `no date`), and the device segment is the
/// trimmed `Model` field of the metadata embedded in the bytes, only when one
/// is present.
pub fn plan_file(modified_secs: Option<i64>, contents: &[u8], file_name: String) -> (r:
    DestinationPlan)
    ensures
        r.dir_segments.deep_view() == spec_segments(
            spec_capture_date(modified_secs),
            spec_device_name(exif_fields_of(contents@)),
        ),
        r.file_name@ == file_name@,
{
    let date = capture_date(modified_secs);
    let device = extract_device_name(contents);
    plan_destination(date, device, file_name)
}

/// Classifies one source directory entry: a subdirectory is skipped — no
/// destination is ever planned for it, so nothing is created and nothing is
/// copied — and a regular file receives its destination plan.
pub fn plan_entry(is_dir: bool, modified_secs: Option<i64>, contents: &[u8], file_name: String)
    -> (r: Option<DestinationPlan>)
    ensures
        is_dir <==> r is None,
        r matches Some(p) ==> p.dir_segments.deep_view() == spec_segments(
            spec_capture_date(modified_secs),
            spec_device_name(exif_fields_of(contents@)),
        ) && p.file_name@ == file_name@,
{
    if is_dir {
        None
    } else {
        Some(plan_file(modified_secs, contents, file_name))
    }
}

} // verus!
