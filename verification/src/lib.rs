//! Extraction of celebrity look-alike results from the face-similarity
//! service's response markup.
//!
//! The service answers a lookup with an HTML page that embeds, per gender, a
//! run of candidate blocks; each block carries a similarity percentage, the
//! celebrity's name, a portrait path and a reference link.  This crate scans
//! such a response body, surfaces any error the service itself reported, and
//! exposes the candidates through ordered and filtered views.  Fetching the
//! body is left to the caller: a client is built from the already-read
//! response text.
use vstd::prelude::*;

mod error;
pub mod extract;
pub mod record;
mod star_by_face_file;
mod star_by_face_uri;
pub mod text;

use record::{parse_rec, parse_record, RecordV};
use text::vec_of;
use vstd::string::StringExecFns;

pub use error::StarByFaceError;
pub use record::CandidateRecord;
pub use star_by_face_file::StarByFaceFile;
pub use star_by_face_uri::StarByFace;

verus! {

/// The gender section a candidate record came from.
pub enum Gender {
    FEMALE,
    MALE,
}

/// Selects one field of a serialized candidate record.
pub enum Key {
    SIMILARITY,
    NAME,
    GENDER,
    IMAGE,
    WIKI,
}

/// The field of a record a key selects.
pub open spec fn field_of(r: RecordV, key: Key) -> Seq<char> {
    match key {
        Key::SIMILARITY => r.similarity,
        Key::NAME => r.name,
        Key::GENDER => r.gender,
        Key::IMAGE => r.image,
        Key::WIKI => r.wiki,
    }
}

/// The selected field of a serialized record; empty when the text does not
/// parse.
pub open spec fn parsed_field(s: Seq<char>, key: Key) -> Seq<char> {
    match parse_rec(s) {
        Some(r) => field_of(r, key),
        None => Seq::empty(),
    }
}

/// The value of the given key's field in one serialized record.
pub fn get(data: String, key: Key) -> (r: Result<String, StarByFaceError>)
    ensures
        match parse_rec(data@) {
            Some(rv) => r matches Ok(v) && v@ == field_of(rv, key),
            None => r matches Err(StarByFaceError::Null(m)) && m@ == "null"@,
        },
{
    let t = vec_of(data.as_str());
    match parse_record(&t) {
        Some(rec) => {
            let out = match &key {
                Key::SIMILARITY => rec.similarity,
                Key::NAME => rec.name,
                Key::GENDER => rec.gender,
                Key::IMAGE => rec.image,
                Key::WIKI => rec.wiki,
            };
            Ok(out)
        },
        None => Err(StarByFaceError::Null(String::from_str("null"))),
    }
}

/// The values of the given key's field in a list of serialized records;
/// fails when the list is empty or any element does not parse.
pub fn get_list(data: Vec<String>, key: Key) -> (r: Result<Vec<String>, StarByFaceError>)
    ensures
        match r {
            Ok(vals) => {
                &&& data@.len() > 0
                &&& vals@.len() == data@.len()
                &&& forall|i: int|
                    0 <= i < data@.len() ==> (#[trigger] parse_rec(data@[i]@)) is Some
                &&& forall|i: int|
                    0 <= i < data@.len() ==> (#[trigger] vals@[i]@) == parsed_field(
                        data@[i]@,
                        key,
                    )
            },
            Err(e) => {
                &&& (data@.len() == 0 || exists|i: int|
                    0 <= i < data@.len() && (#[trigger] parse_rec(data@[i]@)) is None)
                &&& e matches StarByFaceError::Null(m) && m@ == "null"@
            },
        },
{
    let n = data.len();
    let mut vals: Vec<String> = Vec::new();
    let mut i: usize = 0;
    while i < n
        invariant
            n == data@.len(),
            i <= n,
            vals@.len() == i,
            forall|j: int| 0 <= j < i ==> (#[trigger] parse_rec(data@[j]@)) is Some,
            forall|j: int| 0 <= j < i ==> (#[trigger] vals@[j]@) == parsed_field(data@[j]@, key),
        decreases n - i,
    {
        let s = &data[i];
        let t = vec_of(s.as_str());
        match parse_record(&t) {
            Some(rec) => {
                let out = match &key {
                    Key::SIMILARITY => rec.similarity,
                    Key::NAME => rec.name,
                    Key::GENDER => rec.gender,
                    Key::IMAGE => rec.image,
                    Key::WIKI => rec.wiki,
                };
                vals.push(out);
            },
            None => {
                assert(parse_rec(data@[i as int]@) is None);
                return Err(StarByFaceError::Null(String::from_str("null")));
            },
        }
        i += 1;
    }
    if vals.len() == 0 {
        Err(StarByFaceError::Null(String::from_str("null")))
    } else {
        Ok(vals)
    }
}

} // verus!
