//! The trusted boundary around serde_json.
//!
//! Everything the codec knows about JSON text it knows through the names and
//! the two `external_body` functions below.  The names (`json_parses`,
//! `json_keys`, ...) stand for what serde_json computes from a line's bytes:
//! parsing is deterministic, so each is a function of the bytes alone.  The
//! two functions carry the only calls into serde_json that the library makes.

use vstd::prelude::*;

verus! {

/// Whether `serde_json::from_slice` parses these bytes as one JSON document.
pub uninterp spec fn json_parses(b: Seq<u8>) -> bool;

/// Whether the bytes parse and the document's top-level value is an object.
pub uninterp spec fn json_top_object(b: Seq<u8>) -> bool;

/// The keys of the parsed document's top-level object.
pub uninterp spec fn json_keys(b: Seq<u8>) -> Set<Seq<char>>;

/// The top-level fields with an `i64` reading (JSON integers in range), as
/// `serde_json::Value::as_i64` reads them.
pub uninterp spec fn json_int_fields(b: Seq<u8>) -> Map<Seq<char>, i64>;

/// The top-level fields that are JSON numbers, each value the bit pattern
/// of the `f64` that `serde_json::Value::as_f64` reads.
pub uninterp spec fn json_num_fields(b: Seq<u8>) -> Map<Seq<char>, u64>;

/// The top-level fields that are JSON strings, unescaped.
pub uninterp spec fn json_text_fields(b: Seq<u8>) -> Map<Seq<char>, Seq<char>>;

/// One top-level field of a parsed line, reduced to what the decoder reads:
/// a number keeps both of its readings, anything else is opaque.
#[derive(Clone, Copy, Debug)]
pub enum JsonField {
    /// A JSON number: its `i64` reading where it has one, and the bit
    /// pattern of its `f64` reading.
    Num {
        /// `Some` exactly when the number is an integer in `i64` range.
        int_rep: Option<i64>,
        /// The bit pattern of the number read as an `f64`.
        bits: u64,
    },
    /// A JSON string, boolean, null, array or object.
    Other,
}

/// The outcome of parsing one received line.
pub enum LineShape {
    /// The bytes are not one JSON document.
    NotJson,
    /// The bytes parse, but the top-level value is not an object.
    NotObject,
    /// The top-level object's fields.
    Fields(Vec<(String, JsonField)>),
}

/// The field stored under `key`, by first match.
pub open spec fn assoc(fs: Seq<(String, JsonField)>, key: Seq<char>) -> Option<JsonField>
    decreases fs.len(),
{
    if fs.len() == 0 {
        None
    } else if fs[0].0@ == key {
        Some(fs[0].1)
    } else {
        assoc(fs.subrange(1, fs.len() as int), key)
    }
}

/// How fields handed back by `parse_line` reflect the parsed document: a key
/// is present exactly when `assoc` finds it, a field is `Num` exactly when
/// the document has a number there, and the two readings agree with the maps
/// over the line's bytes.
pub open spec fn parse_post(line: Seq<u8>, fs: Seq<(String, JsonField)>) -> bool {
    &&& forall|k: Seq<char>|
        #![trigger json_keys(line).contains(k)]
        #![trigger assoc(fs, k)]
        json_keys(line).contains(k) <==> assoc(fs, k) is Some
    &&& forall|k: Seq<char>|
        #![trigger json_num_fields(line).dom().contains(k)]
        #![trigger assoc(fs, k)]
        json_num_fields(line).dom().contains(k) <==> (assoc(fs, k) matches Some(
            JsonField::Num { int_rep: _, bits: _ },
        ))
    &&& forall|k: Seq<char>| #![trigger assoc(fs, k)]
        (assoc(fs, k) matches Some(JsonField::Num { int_rep, bits }) ==> {
            &&& json_num_fields(line)[k] == bits
            &&& int_rep == (if json_int_fields(line).dom().contains(k) {
                Some(json_int_fields(line)[k])
            } else {
                None::<i64>
            })
        })
    &&& forall|k: Seq<char>|
        #![trigger json_int_fields(line).dom().contains(k)]
        json_int_fields(line).dom().contains(k) ==> (assoc(fs, k) matches Some(
            JsonField::Num { int_rep: _, bits: _ },
        ))
}

/// Relies on `serde_json::from_slice::<serde_json::Value>` to parse one
/// JSON document, and on `serde_json::Number::as_i64` / `as_f64` for the
/// two readings of each top-level number.
#[verifier::external_body]
pub(crate) fn parse_line(line: &[u8]) -> (r: LineShape)
    ensures
        (r is NotJson) <==> !json_parses(line@),
        (r is NotObject) <==> (json_parses(line@) && !json_top_object(line@)),
        (r is Fields) <==> json_top_object(line@),
        (r matches LineShape::Fields(fs) ==> forall|k: Seq<char>|
            #![trigger json_keys(line@).contains(k)]
            #![trigger assoc(fs@, k)]
            json_keys(line@).contains(k) <==> assoc(fs@, k) is Some),
        (r matches LineShape::Fields(fs) ==> forall|k: Seq<char>|
            #![trigger json_num_fields(line@).dom().contains(k)]
            #![trigger assoc(fs@, k)]
            json_num_fields(line@).dom().contains(k) <==> (assoc(fs@, k) matches Some(
                JsonField::Num { int_rep: _, bits: _ },
            ))),
        (r matches LineShape::Fields(fs) ==> forall|k: Seq<char>| #![trigger assoc(fs@, k)]
            (assoc(fs@, k) matches Some(JsonField::Num { int_rep, bits }) ==> {
                &&& json_num_fields(line@)[k] == bits
                &&& int_rep == (if json_int_fields(line@).dom().contains(k) {
                    Some(json_int_fields(line@)[k])
                } else {
                    None::<i64>
                })
            })),
        (r matches LineShape::Fields(fs) ==> forall|k: Seq<char>|
            #![trigger json_int_fields(line@).dom().contains(k)]
            json_int_fields(line@).dom().contains(k) ==> (assoc(fs@, k) matches Some(
                JsonField::Num { int_rep: _, bits: _ },
            ))),
{
    let obj = match serde_json::from_slice::<serde_json::Value>(line) {
        Err(_) => return LineShape::NotJson,
        Ok(serde_json::Value::Object(m)) => m,
        Ok(_) => return LineShape::NotObject,
    };
    let mut fields: Vec<(String, JsonField)> = Vec::new();
    for (k, v) in obj {
        let f = match v {
            serde_json::Value::Number(n) => n.as_f64().map_or(JsonField::Other, |f|
                JsonField::Num { int_rep: n.as_i64(), bits: f.to_bits() }),
            _ => JsonField::Other,
        };
        fields.push((k, f));
    }
    LineShape::Fields(fields)
}

/// `serde_json::Number` carries outbound numbers: a caller builds one from
/// its floating-point value, and a JSON number is always finite.
#[verifier::external_type_specification]
#[verifier::external_body]
pub struct ExNumber(serde_json::Number);

/// The bit pattern of the f64 that `serde_json::Number::as_f64` reads from
/// a number; without arbitrary precision every JSON number has one, so this
/// is a function of the number alone.
pub uninterp spec fn num_view(n: serde_json::Number) -> u64;

/// One field of an object about to be written.
pub enum OutField {
    /// A JSON integer.
    Int(i64),
    /// A JSON number.
    Num(serde_json::Number),
    /// A JSON string.
    Text(String),
}

/// The set of keys among fields to be written.
pub open spec fn out_keys(fs: Seq<(String, OutField)>) -> Set<Seq<char>> {
    Set::new(|k: Seq<char>| exists|i: int| 0 <= i < fs.len() && fs[i].0@ == k)
}

/// The integer fields that survive writing the list left to right, a later
/// entry overwriting an earlier one under the same key.
pub open spec fn out_int_map(fs: Seq<(String, OutField)>) -> Map<Seq<char>, i64>
    decreases fs.len(),
{
    if fs.len() == 0 {
        Map::empty()
    } else {
        let m = out_int_map(fs.drop_last());
        match fs.last().1 {
            OutField::Int(n) => m.insert(fs.last().0@, n),
            _ => m.remove(fs.last().0@),
        }
    }
}

/// The number fields that survive writing, as `out_int_map`.
pub open spec fn out_num_map(fs: Seq<(String, OutField)>) -> Map<Seq<char>, serde_json::Number>
    decreases fs.len(),
{
    if fs.len() == 0 {
        Map::empty()
    } else {
        let m = out_num_map(fs.drop_last());
        match fs.last().1 {
            OutField::Num(n) => m.insert(fs.last().0@, n),
            _ => m.remove(fs.last().0@),
        }
    }
}

/// The string fields that survive writing, as `out_int_map`.
pub open spec fn out_text_map(fs: Seq<(String, OutField)>) -> Map<Seq<char>, Seq<char>>
    decreases fs.len(),
{
    if fs.len() == 0 {
        Map::empty()
    } else {
        let m = out_text_map(fs.drop_last());
        match fs.last().1 {
            OutField::Text(s) => m.insert(fs.last().0@, s@),
            _ => m.remove(fs.last().0@),
        }
    }
}

/// Relies on `serde_json::Map::insert` (a later entry replaces an earlier
/// one under the same key), `serde_json::Value::from` for integers and
/// strings, and `serde_json::to_vec` of a `serde_json::Value::Object`,
/// which always succeeds on such a value, writes compact JSON with every
/// control character escaped (so no 0x0A byte anywhere), and writes a
/// number in ryu's shortest form, which the `float_roundtrip` parser reads
/// back to the same f64 bits.  An `Int` field reads back as that integer;
/// a `Num` field holding an integer-valued number reads back as an integer
/// too, so the integer fields are pinned only where an `Int` was written.
#[verifier::external_body]
pub(crate) fn write_json_object(fields: &Vec<(String, OutField)>) -> (r: Vec<u8>)
    ensures
        json_parses(r@),
        json_top_object(r@),
        json_keys(r@) == out_keys(fields@),
        forall|k: Seq<char>| #[trigger]
            out_int_map(fields@).dom().contains(k) ==> json_int_fields(r@).contains_pair(
                k,
                out_int_map(fields@)[k],
            ),
        forall|k: Seq<char>| #[trigger]
            json_int_fields(r@).dom().contains(k) ==> out_int_map(fields@).dom().contains(k)
                || out_num_map(fields@).dom().contains(k),
        json_text_fields(r@) == out_text_map(fields@),
        forall|k: Seq<char>| #[trigger]
            out_num_map(fields@).dom().contains(k) ==> json_num_fields(r@).contains_pair(
                k,
                num_view(out_num_map(fields@)[k]),
            ),
        json_num_fields(r@).dom().subset_of(out_keys(fields@)),
        r@.len() > 0,
        forall|i: int| 0 <= i < r@.len() ==> r@[i] != 10u8,
{
    let mut obj = serde_json::Map::new();
    for (k, f) in fields {
        obj.insert(k.clone(), match f {
            OutField::Int(n) => serde_json::Value::from(*n),
            OutField::Num(n) => serde_json::Value::Number(n.clone()),
            OutField::Text(s) => serde_json::Value::from(s.as_str()),
        });
    }
    serde_json::to_vec(&serde_json::Value::Object(obj)).unwrap_or_default()
}

} // verus!
