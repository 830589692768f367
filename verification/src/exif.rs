//! Device-name extraction: parses a file's bytes for an embedded EXIF-style
//! metadata block and returns the first `Model` field, trimmed of
//! whitespace. Absent or malformed metadata is an expected, silent outcome:
//! it yields no device name and never an error.

use vstd::prelude::*;
use crate::text::{spec_trim, trim};

verus! {

/// The numeric code of the EXIF `Model` tag.
pub const MODEL_TAG: u32 = 0x0110;

/// The mathematical contents of a parsed field list: each field as its tag
/// code and the characters of its rendered value.
pub open spec fn fields_view(v: Seq<(u32, String)>) -> Seq<(u32, Seq<char>)> {
    Seq::new(v.len(), |i: int| (v[i].0, v[i].1@))
}

/// The metadata fields embedded in a byte buffer: `None` when the buffer
/// holds no parsable metadata block, otherwise each field's tag code and
/// rendered value, in order of appearance.
pub uninterp spec fn exif_fields_of(bytes: Seq<u8>) -> Option<Seq<(u32, Seq<char>)>>;

/// Relies on `rexif::parse_buffer_quiet`: it parses an in-memory byte buffer
/// without writing to any diagnostic stream, its result depends on the bytes
/// alone, and on success it yields the parsed entries in order, each with its
/// tag and value.
#[verifier::external_body]
fn parse_exif_fields(bytes: &[u8]) -> (r: Option<Vec<(u32, String)>>)
    ensures
        r is Some <==> exif_fields_of(bytes@) is Some,
        r matches Some(v) ==> (exif_fields_of(bytes@) matches Some(f) && fields_view(v@) == f),
{
    let (res, _) = rexif::parse_buffer_quiet(bytes);
    match res {
        Ok(data) => Some(data.entries.iter().map(|e| (e.tag as u32, e.value.to_string())).collect()),
        Err(_) => None,
    }
}

/// The value of the first field whose tag is the `Model` tag, or `None`.
pub open spec fn spec_first_model(fields: Seq<(u32, Seq<char>)>) -> Option<Seq<char>>
    decreases fields.len(),
{
    if fields.len() == 0 {
        None
    } else if fields[0].0 == MODEL_TAG {
        Some(fields[0].1)
    } else {
        spec_first_model(fields.drop_first())
    }
}

/// The device name carried by a parsed metadata block: the first `Model`
/// field, trimmed of surrounding whitespace; `None` when the block could not
/// be parsed or holds no `Model` field.
pub open spec fn spec_device_name(fields_opt: Option<Seq<(u32, Seq<char>)>>) -> Option<
    Seq<char>,
> {
    match fields_opt {
        None => None,
        Some(fs) => match spec_first_model(fs) {
            None => None,
            Some(v) => Some(spec_trim(v)),
        },
    }
}

/// Law: a field list yields a device name if and only if it holds a field
/// with the `Model` tag, and the name returned is the value of the first
/// such field.
pub proof fn lemma_first_model_characterization(fields: Seq<(u32, Seq<char>)>)
    ensures
        (spec_first_model(fields) is Some) <==> (exists|i: int|
            0 <= i < fields.len() && (#[trigger] fields[i]).0 == MODEL_TAG),
        spec_first_model(fields) matches Some(v) ==> (exists|i: int|
            0 <= i < fields.len() && (#[trigger] fields[i]).0 == MODEL_TAG && v == fields[i].1
                && (forall|j: int| 0 <= j < i ==> (#[trigger] fields[j]).0 != MODEL_TAG)),
    decreases fields.len(),
{
    if fields.len() == 0 {
    } else if fields[0].0 == MODEL_TAG {
        assert((fields[0]).0 == MODEL_TAG);
        assert(forall|j: int| 0 <= j < 0 ==> (#[trigger] fields[j]).0 != MODEL_TAG);
    } else {
        let tail = fields.drop_first();
        lemma_first_model_characterization(tail);
        assert(forall|k: int| 0 <= k < tail.len() ==> #[trigger] tail[k] == fields[k + 1]);
        if spec_first_model(fields) is Some {
            let i = choose|i: int|
                0 <= i < tail.len() && (#[trigger] tail[i]).0 == MODEL_TAG;
            assert((fields[i + 1]).0 == MODEL_TAG);
            let v = spec_first_model(fields)->Some_0;
            let iv = choose|i: int|
                0 <= i < tail.len() && (#[trigger] tail[i]).0 == MODEL_TAG && v == tail[i].1 && (
                forall|j: int| 0 <= j < i ==> (#[trigger] tail[j]).0 != MODEL_TAG);
            assert((fields[iv + 1]).0 == MODEL_TAG && v == fields[iv + 1].1);
            assert(forall|j: int| 0 <= j < iv + 1 ==> (#[trigger] fields[j]).0 != MODEL_TAG)
                by {
                assert(forall|j: int| 1 <= j < iv + 1 ==> (#[trigger] fields[j]).0 == tail[
                    j - 1].0);
            }
        } else {
            if exists|i: int| 0 <= i < fields.len() && (#[trigger] fields[i]).0 == MODEL_TAG {
                let i = choose|i: int|
                    0 <= i < fields.len() && (#[trigger] fields[i]).0 == MODEL_TAG;
                assert(i != 0);
                assert((tail[i - 1]).0 == MODEL_TAG);
                assert(spec_first_model(tail) is Some);
            }
        }
    }
}

/// Scans a parsed field list for the first `Model` field and returns its
/// value, trimmed; `None` when no field carries the `Model` tag.
pub fn device_name_of_fields(fields: &Vec<(u32, String)>) -> (r: Option<String>)
    ensures
        match spec_first_model(fields_view(fields@)) {
            None => r is None,
            Some(v) => r matches Some(s) && s@ == spec_trim(v),
        },
{
    let ghost fv = fields_view(fields@);
    proof {
        assert(fv.skip(0) =~= fv);
    }
    let mut i: usize = 0;
    while i < fields.len()
        invariant
            i <= fields.len(),
            fv == fields_view(fields@),
            fv.len() == fields.len(),
            spec_first_model(fv) == spec_first_model(fv.skip(i as int)),
        decreases fields.len() - i,
    {
        if fields[i].0 == MODEL_TAG {
            proof {
                assert(fv.skip(i as int)[0] == fv[i as int]);
            }
            return Some(trim(fields[i].1.as_str()));
        }
        i = i + 1;
        proof {
            assert(fv.skip(i as int - 1).drop_first() =~= fv.skip(i as int));
        }
    }
    proof {
        assert(fv.skip(i as int).len() == 0);
    }
    None
}

/// Extracts the device name embedded in a file's bytes: the trimmed `Model`
/// field of its metadata block, or `None` when the bytes hold no parsable
/// metadata or no `Model` field. Never an error: malformed metadata only
/// degrades to an absent device name.
pub fn extract_device_name(bytes: &[u8]) -> (r: Option<String>)
    ensures
        match spec_device_name(exif_fields_of(bytes@)) {
            None => r is None,
            Some(v) => r matches Some(s) && s@ == v,
        },
{
    match parse_exif_fields(bytes) {
        None => None,
        Some(fields) => device_name_of_fields(&fields),
    }
}

} // verus!
