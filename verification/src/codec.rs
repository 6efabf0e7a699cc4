//! Encoding commands into wire lines and decoding received lines into
//! telemetry values, with the framing around them.
//!
//! A wire line is one JSON object: an integer field "T" carrying the
//! opcode or telemetry tag, and every payload field beside it at the same
//! nesting level.  `encode` and `decode` are stateless, pure transforms;
//! each call touches only its own data, so independent callers need no
//! synchronization.

use vstd::prelude::*;

use crate::messages::BaseInfoData;
use crate::messages::CommandMessage;
use crate::messages::FeedbackMessage;
use crate::messages::IMUData;
use crate::messages::IMUOffsetData;
use crate::messages::opcode_of;
use crate::wire::JsonField;
use crate::wire::LineShape;
use crate::wire::OutField;
use crate::wire::assoc;
use crate::wire::json_int_fields;
use crate::wire::json_keys;
use crate::wire::json_num_fields;
use crate::wire::json_parses;
use crate::wire::json_text_fields;
use crate::wire::json_top_object;
use crate::wire::num_view;
use crate::wire::out_int_map;
use crate::wire::out_keys;
use crate::wire::out_num_map;
use crate::wire::out_text_map;
use crate::wire::parse_line;
use crate::wire::parse_post;
use crate::wire::write_json_object;

verus! {

/// Errors of the codec and of the line framer around it.
#[derive(Debug, PartialEq)]
pub enum ProtocolError {
    /// A transport-level failure, surfaced to the caller and never retried.
    IoFailure,
    /// The stream closed: a read produced zero bytes.
    ConnectionClosed,
    /// The line is not one JSON document with an object at the top.
    MalformedJson,
    /// The discriminant field "T" is absent.
    TagMissing,
    /// The discriminant field "T" is present but not an integer.
    TagInvalid,
    /// The discriminant is an integer that names no known schema; carries
    /// the value, so the caller can log it and go on.
    UnknownTag(i64),
    /// A recognized schema with a required field absent or of the wrong
    /// type, or an optional field of the wrong type; carries the field name.
    SchemaMismatch(String),
}

/// A non-empty line that parses as a JSON document with an object on top.
pub open spec fn live_line(b: Seq<u8>) -> bool {
    b.len() != 0 && json_parses(b) && json_top_object(b)
}

/// Whether the line's object has the discriminant field at all.
pub open spec fn has_tag(b: Seq<u8>) -> bool {
    json_keys(b).contains("T"@)
}

/// Whether the discriminant field is an integer.
pub open spec fn tag_int(b: Seq<u8>) -> bool {
    json_int_fields(b).dom().contains("T"@)
}

/// The discriminant's value, where `tag_int` holds.
pub open spec fn tag_of(b: Seq<u8>) -> i64 {
    json_int_fields(b)["T"@]
}

/// Whether the line's object has a number under this key.
pub open spec fn has_num(b: Seq<u8>, k: Seq<char>) -> bool {
    json_num_fields(b).dom().contains(k)
}

/// The bits of the number under this key, where `has_num` holds.
pub open spec fn num_at(b: Seq<u8>, k: Seq<char>) -> u64 {
    json_num_fields(b)[k]
}

/// What a declared-optional field decodes to: the number's bits where the
/// key is on the wire, the explicit absent value where it is not.
pub open spec fn opt_at(b: Seq<u8>, k: Seq<char>) -> Option<u64> {
    if json_keys(b).contains(k) {
        Some(json_num_fields(b)[k])
    } else {
        None
    }
}

/// A declared-optional field is in order when it is absent or a number.
pub open spec fn opt_ok(b: Seq<u8>, k: Seq<char>) -> bool {
    json_keys(b).contains(k) ==> has_num(b, k)
}

/// Looks a key up among the parsed fields of one line.
fn get(fs: &Vec<(String, JsonField)>, key: &str) -> (r: Option<JsonField>)
    ensures
        r == assoc(fs@, key@),
{
    let key_owned: String = key.to_owned();
    let n = fs.len();
    let mut idx: usize = 0;
    proof {
        assert(fs@.subrange(0, fs@.len() as int) =~= fs@);
    }
    while idx < n
        invariant
            n == fs.len(),
            idx <= n,
            key_owned@ == key@,
            assoc(fs@, key@) == assoc(fs@.subrange(idx as int, fs@.len() as int), key@),
        decreases n - idx,
    {
        let ghost suffix = fs@.subrange(idx as int, fs@.len() as int);
        if fs[idx].0 == key_owned {
            proof {
                assert(suffix[0] == fs@[idx as int]);
            }
            return Some(fs[idx].1);
        }
        proof {
            assert(suffix[0] == fs@[idx as int]);
            assert(suffix.subrange(1, suffix.len() as int) =~= fs@.subrange(
                idx + 1,
                fs@.len() as int,
            ));
        }
        idx = idx + 1;
    }
    proof {
        assert(fs@.subrange(n as int, fs@.len() as int) =~= Seq::<(String, JsonField)>::empty());
    }
    None
}

/// Reads a required number field: its bits, or `SchemaMismatch` naming the
/// field when it is absent or not a number.
fn req_num(fs: &Vec<(String, JsonField)>, key: &str, Ghost(line): Ghost<Seq<u8>>) -> (r: Result<
    u64,
    ProtocolError,
>)
    requires
        parse_post(line, fs@),
    ensures
        r matches Ok(bits) ==> has_num(line, key@) && num_at(line, key@) == bits,
        r matches Err(e) ==> !has_num(line, key@) && (e matches ProtocolError::SchemaMismatch(f)
            && f@ == key@),
{
    match get(fs, key) {
        Option::Some(f) => match f {
            JsonField::Num { int_rep: _, bits } => Ok(bits),
            JsonField::Other => Err(ProtocolError::SchemaMismatch(key.to_owned())),
        },
        Option::None => Err(ProtocolError::SchemaMismatch(key.to_owned())),
    }
}

/// Reads a declared-optional number field: its bits, the absent value, or
/// `SchemaMismatch` naming the field when it is present but not a number.
fn opt_num(fs: &Vec<(String, JsonField)>, key: &str, Ghost(line): Ghost<Seq<u8>>) -> (r: Result<
    Option<u64>,
    ProtocolError,
>)
    requires
        parse_post(line, fs@),
    ensures
        r matches Ok(v) ==> opt_ok(line, key@) && v == opt_at(line, key@),
        r matches Err(e) ==> !opt_ok(line, key@) && (e matches ProtocolError::SchemaMismatch(f)
            && f@ == key@),
{
    match get(fs, key) {
        Option::Some(f) => match f {
            JsonField::Num { int_rep: _, bits } => Ok(Some(bits)),
            JsonField::Other => Err(ProtocolError::SchemaMismatch(key.to_owned())),
        },
        Option::None => Ok(None),
    }
}

/// The wire names of the required BaseInfo fields.
pub open spec fn base_req_key(k: Seq<char>) -> bool {
    ||| k == "L"@
    ||| k == "R"@
    ||| k == "gx"@
    ||| k == "gy"@
    ||| k == "gz"@
    ||| k == "ax"@
    ||| k == "ay"@
    ||| k == "az"@
    ||| k == "r"@
    ||| k == "p"@
    ||| k == "q0"@
    ||| k == "q1"@
    ||| k == "q2"@
    ||| k == "q3"@
    ||| k == "v"@
}

/// The wire names of the declared-optional BaseInfo fields.
pub open spec fn base_opt_key(k: Seq<char>) -> bool {
    ||| k == "y"@
    ||| k == "odl"@
    ||| k == "odr"@
    ||| k == "ab"@
    ||| k == "as"@
    ||| k == "ae"@
    ||| k == "at"@
    ||| k == "torB"@
    ||| k == "torS"@
    ||| k == "torE"@
    ||| k == "torH"@
    ||| k == "pan"@
    ||| k == "tilt"@
}

/// Whether the line matches the BaseInfo schema: every required field is a
/// number, every declared-optional one absent or a number.
pub open spec fn base_info_ok(b: Seq<u8>) -> bool {
    &&& has_num(b, "L"@)
    &&& has_num(b, "R"@)
    &&& has_num(b, "gx"@)
    &&& has_num(b, "gy"@)
    &&& has_num(b, "gz"@)
    &&& has_num(b, "ax"@)
    &&& has_num(b, "ay"@)
    &&& has_num(b, "az"@)
    &&& has_num(b, "r"@)
    &&& has_num(b, "p"@)
    &&& has_num(b, "q0"@)
    &&& has_num(b, "q1"@)
    &&& has_num(b, "q2"@)
    &&& has_num(b, "q3"@)
    &&& has_num(b, "v"@)
    &&& opt_ok(b, "y"@)
    &&& opt_ok(b, "odl"@)
    &&& opt_ok(b, "odr"@)
    &&& opt_ok(b, "ab"@)
    &&& opt_ok(b, "as"@)
    &&& opt_ok(b, "ae"@)
    &&& opt_ok(b, "at"@)
    &&& opt_ok(b, "torB"@)
    &&& opt_ok(b, "torS"@)
    &&& opt_ok(b, "torE"@)
    &&& opt_ok(b, "torH"@)
    &&& opt_ok(b, "pan"@)
    &&& opt_ok(b, "tilt"@)
}

/// The BaseInfo record a line matching the schema decodes to.
pub open spec fn base_info_of(b: Seq<u8>) -> BaseInfoData {
    BaseInfoData {
        l: num_at(b, "L"@),
        r: num_at(b, "R"@),
        gx: num_at(b, "gx"@),
        gy: num_at(b, "gy"@),
        gz: num_at(b, "gz"@),
        ax: num_at(b, "ax"@),
        ay: num_at(b, "ay"@),
        az: num_at(b, "az"@),
        r_angle: num_at(b, "r"@),
        p_angle: num_at(b, "p"@),
        y_angle: opt_at(b, "y"@),
        q0: num_at(b, "q0"@),
        q1: num_at(b, "q1"@),
        q2: num_at(b, "q2"@),
        q3: num_at(b, "q3"@),
        odl: opt_at(b, "odl"@),
        odr: opt_at(b, "odr"@),
        v: num_at(b, "v"@),
        a_b: opt_at(b, "ab"@),
        a_s: opt_at(b, "as"@),
        a_e: opt_at(b, "ae"@),
        a_t: opt_at(b, "at"@),
        tor_b: opt_at(b, "torB"@),
        tor_s: opt_at(b, "torS"@),
        tor_e: opt_at(b, "torE"@),
        tor_h: opt_at(b, "torH"@),
        pan: opt_at(b, "pan"@),
        tilt: opt_at(b, "tilt"@),
    }
}

/// A field on which the BaseInfo schema fails for this line.
pub open spec fn base_field_bad(b: Seq<u8>, k: Seq<char>) -> bool {
    ||| (base_req_key(k) && !has_num(b, k))
    ||| (base_opt_key(k) && !opt_ok(b, k))
}

/// The wire names of the IMU sample fields, all required.
pub open spec fn imu_req_key(k: Seq<char>) -> bool {
    ||| k == "gx"@
    ||| k == "gy"@
    ||| k == "gz"@
    ||| k == "ax"@
    ||| k == "ay"@
    ||| k == "az"@
    ||| k == "mx"@
    ||| k == "my"@
    ||| k == "mz"@
}

/// Whether the line matches the IMU sample schema.
pub open spec fn imu_ok(b: Seq<u8>) -> bool {
    &&& has_num(b, "gx"@)
    &&& has_num(b, "gy"@)
    &&& has_num(b, "gz"@)
    &&& has_num(b, "ax"@)
    &&& has_num(b, "ay"@)
    &&& has_num(b, "az"@)
    &&& has_num(b, "mx"@)
    &&& has_num(b, "my"@)
    &&& has_num(b, "mz"@)
}

/// The IMU record a line matching the schema decodes to.
pub open spec fn imu_of(b: Seq<u8>) -> IMUData {
    IMUData {
        gx: num_at(b, "gx"@),
        gy: num_at(b, "gy"@),
        gz: num_at(b, "gz"@),
        ax: num_at(b, "ax"@),
        ay: num_at(b, "ay"@),
        az: num_at(b, "az"@),
        mx: num_at(b, "mx"@),
        my: num_at(b, "my"@),
        mz: num_at(b, "mz"@),
    }
}

/// A field on which the IMU sample schema fails for this line.
pub open spec fn imu_field_bad(b: Seq<u8>, k: Seq<char>) -> bool {
    imu_req_key(k) && !has_num(b, k)
}

/// The wire names of the IMU offset fields, all required.
pub open spec fn imu_offset_req_key(k: Seq<char>) -> bool {
    ||| k == "gx"@
    ||| k == "gy"@
    ||| k == "gz"@
    ||| k == "ax"@
    ||| k == "ay"@
    ||| k == "az"@
    ||| k == "cx"@
    ||| k == "cy"@
    ||| k == "cz"@
}

/// Whether the line matches the IMU offset schema.
pub open spec fn imu_offset_ok(b: Seq<u8>) -> bool {
    &&& has_num(b, "gx"@)
    &&& has_num(b, "gy"@)
    &&& has_num(b, "gz"@)
    &&& has_num(b, "ax"@)
    &&& has_num(b, "ay"@)
    &&& has_num(b, "az"@)
    &&& has_num(b, "cx"@)
    &&& has_num(b, "cy"@)
    &&& has_num(b, "cz"@)
}

/// The IMU offset record a line matching the schema decodes to.
pub open spec fn imu_offset_of(b: Seq<u8>) -> IMUOffsetData {
    IMUOffsetData {
        gx: num_at(b, "gx"@),
        gy: num_at(b, "gy"@),
        gz: num_at(b, "gz"@),
        ax: num_at(b, "ax"@),
        ay: num_at(b, "ay"@),
        az: num_at(b, "az"@),
        cx: num_at(b, "cx"@),
        cy: num_at(b, "cy"@),
        cz: num_at(b, "cz"@),
    }
}

/// A field on which the IMU offset schema fails for this line.
pub open spec fn imu_offset_field_bad(b: Seq<u8>, k: Seq<char>) -> bool {
    imu_offset_req_key(k) && !has_num(b, k)
}

/// Parses the fields of a line already known to carry tag 1001.
fn decode_base(fs: &Vec<(String, JsonField)>, Ghost(line): Ghost<Seq<u8>>) -> (r: Result<
    FeedbackMessage,
    ProtocolError,
>)
    requires
        parse_post(line, fs@),
    ensures
        base_info_ok(line) ==> r == Ok::<_, ProtocolError>(FeedbackMessage::BaseInfo(base_info_of(line))),
        !base_info_ok(line) ==> (r matches Err(ProtocolError::SchemaMismatch(f)) && base_field_bad(
            line,
            f@,
        )),
{
    let l = req_num(fs, "L", Ghost(line))?;
    let rr = req_num(fs, "R", Ghost(line))?;
    let gx = req_num(fs, "gx", Ghost(line))?;
    let gy = req_num(fs, "gy", Ghost(line))?;
    let gz = req_num(fs, "gz", Ghost(line))?;
    let ax = req_num(fs, "ax", Ghost(line))?;
    let ay = req_num(fs, "ay", Ghost(line))?;
    let az = req_num(fs, "az", Ghost(line))?;
    let r_angle = req_num(fs, "r", Ghost(line))?;
    let p_angle = req_num(fs, "p", Ghost(line))?;
    let y_angle = opt_num(fs, "y", Ghost(line))?;
    let q0 = req_num(fs, "q0", Ghost(line))?;
    let q1 = req_num(fs, "q1", Ghost(line))?;
    let q2 = req_num(fs, "q2", Ghost(line))?;
    let q3 = req_num(fs, "q3", Ghost(line))?;
    let odl = opt_num(fs, "odl", Ghost(line))?;
    let odr = opt_num(fs, "odr", Ghost(line))?;
    let v = req_num(fs, "v", Ghost(line))?;
    let a_b = opt_num(fs, "ab", Ghost(line))?;
    let a_s = opt_num(fs, "as", Ghost(line))?;
    let a_e = opt_num(fs, "ae", Ghost(line))?;
    let a_t = opt_num(fs, "at", Ghost(line))?;
    let tor_b = opt_num(fs, "torB", Ghost(line))?;
    let tor_s = opt_num(fs, "torS", Ghost(line))?;
    let tor_e = opt_num(fs, "torE", Ghost(line))?;
    let tor_h = opt_num(fs, "torH", Ghost(line))?;
    let pan = opt_num(fs, "pan", Ghost(line))?;
    let tilt = opt_num(fs, "tilt", Ghost(line))?;
    Ok(
        FeedbackMessage::BaseInfo(
            BaseInfoData {
                l,
                r: rr,
                gx,
                gy,
                gz,
                ax,
                ay,
                az,
                r_angle,
                p_angle,
                y_angle,
                q0,
                q1,
                q2,
                q3,
                odl,
                odr,
                v,
                a_b,
                a_s,
                a_e,
                a_t,
                tor_b,
                tor_s,
                tor_e,
                tor_h,
                pan,
                tilt,
            },
        ),
    )
}

/// Parses the fields of a line already known to carry tag 1002.
fn decode_imu(fs: &Vec<(String, JsonField)>, Ghost(line): Ghost<Seq<u8>>) -> (r: Result<
    FeedbackMessage,
    ProtocolError,
>)
    requires
        parse_post(line, fs@),
    ensures
        imu_ok(line) ==> r == Ok::<_, ProtocolError>(FeedbackMessage::IMU(imu_of(line))),
        !imu_ok(line) ==> (r matches Err(ProtocolError::SchemaMismatch(f)) && imu_field_bad(
            line,
            f@,
        )),
{
    let gx = req_num(fs, "gx", Ghost(line))?;
    let gy = req_num(fs, "gy", Ghost(line))?;
    let gz = req_num(fs, "gz", Ghost(line))?;
    let ax = req_num(fs, "ax", Ghost(line))?;
    let ay = req_num(fs, "ay", Ghost(line))?;
    let az = req_num(fs, "az", Ghost(line))?;
    let mx = req_num(fs, "mx", Ghost(line))?;
    let my = req_num(fs, "my", Ghost(line))?;
    let mz = req_num(fs, "mz", Ghost(line))?;
    Ok(FeedbackMessage::IMU(IMUData { gx, gy, gz, ax, ay, az, mx, my, mz }))
}

/// Parses the fields of a line already known to carry tag 129.
fn decode_imu_offset(fs: &Vec<(String, JsonField)>, Ghost(line): Ghost<Seq<u8>>) -> (r: Result<
    FeedbackMessage,
    ProtocolError,
>)
    requires
        parse_post(line, fs@),
    ensures
        imu_offset_ok(line) ==> r == Ok::<_, ProtocolError>(FeedbackMessage::IMUOffset(imu_offset_of(line))),
        !imu_offset_ok(line) ==> (r matches Err(ProtocolError::SchemaMismatch(f))
            && imu_offset_field_bad(line, f@)),
{
    let gx = req_num(fs, "gx", Ghost(line))?;
    let gy = req_num(fs, "gy", Ghost(line))?;
    let gz = req_num(fs, "gz", Ghost(line))?;
    let ax = req_num(fs, "ax", Ghost(line))?;
    let ay = req_num(fs, "ay", Ghost(line))?;
    let az = req_num(fs, "az", Ghost(line))?;
    let cx = req_num(fs, "cx", Ghost(line))?;
    let cy = req_num(fs, "cy", Ghost(line))?;
    let cz = req_num(fs, "cz", Ghost(line))?;
    Ok(FeedbackMessage::IMUOffset(IMUOffsetData { gx, gy, gz, ax, ay, az, cx, cy, cz }))
}

/// Decodes one received line, its terminator already stripped, into a
/// telemetry record.
///
/// An empty line stands for a read that produced no bytes and fails with
/// `ConnectionClosed`, and only with it.  A line that is not one JSON
/// object fails with `MalformedJson`; a missing or non-integer "T" with
/// `TagMissing` or `TagInvalid`; an integer tag naming no schema with
/// `UnknownTag`, an ordinary recoverable return; and a recognized schema
/// with a field absent or of the wrong kind with `SchemaMismatch` naming
/// such a field.  The call reads only its own arguments, so concurrent
/// calls on independent lines are safe.
pub fn decode(line: &[u8]) -> (r: Result<FeedbackMessage, ProtocolError>)
    ensures
        (line@.len() == 0) <==> (r matches Err(ProtocolError::ConnectionClosed)),
        (line@.len() != 0 && !(json_parses(line@) && json_top_object(line@))) <==> (r matches Err(
            ProtocolError::MalformedJson,
        )),
        (live_line(line@) && !has_tag(line@)) <==> (r matches Err(ProtocolError::TagMissing)),
        (live_line(line@) && has_tag(line@) && !tag_int(line@)) <==> (r matches Err(
            ProtocolError::TagInvalid,
        )),
        r matches Err(ProtocolError::UnknownTag(t)) ==> live_line(line@) && tag_int(line@)
            && tag_of(line@) == t && t != 1001 && t != 1002 && t != 129,
        (live_line(line@) && tag_int(line@) && tag_of(line@) != 1001 && tag_of(line@) != 1002
            && tag_of(line@) != 129) ==> r == Err::<FeedbackMessage, _>(ProtocolError::UnknownTag(tag_of(line@))),
        (live_line(line@) && tag_int(line@) && tag_of(line@) == 1001 && base_info_ok(line@)) ==> r
            == Ok::<_, ProtocolError>(FeedbackMessage::BaseInfo(base_info_of(line@))),
        (live_line(line@) && tag_int(line@) && tag_of(line@) == 1001 && !base_info_ok(line@)) ==> (
        r matches Err(ProtocolError::SchemaMismatch(f)) && base_field_bad(line@, f@)),
        (live_line(line@) && tag_int(line@) && tag_of(line@) == 1002 && imu_ok(line@)) ==> r == Ok::<_, ProtocolError>(
            FeedbackMessage::IMU(imu_of(line@)),
        ),
        (live_line(line@) && tag_int(line@) && tag_of(line@) == 1002 && !imu_ok(line@)) ==> (
        r matches Err(ProtocolError::SchemaMismatch(f)) && imu_field_bad(line@, f@)),
        (live_line(line@) && tag_int(line@) && tag_of(line@) == 129 && imu_offset_ok(line@)) ==> r
            == Ok::<_, ProtocolError>(FeedbackMessage::IMUOffset(imu_offset_of(line@))),
        (live_line(line@) && tag_int(line@) && tag_of(line@) == 129 && !imu_offset_ok(line@)) ==> (
        r matches Err(ProtocolError::SchemaMismatch(f)) && imu_offset_field_bad(line@, f@)),
        (r is Ok) <==> (live_line(line@) && tag_int(line@) && ((tag_of(line@) == 1001
            && base_info_ok(line@)) || (tag_of(line@) == 1002 && imu_ok(line@)) || (tag_of(line@)
            == 129 && imu_offset_ok(line@)))),
{
    if line.len() == 0 {
        return Err(ProtocolError::ConnectionClosed);
    }
    let fs = match parse_line(line) {
        LineShape::NotJson => {
            return Err(ProtocolError::MalformedJson);
        },
        LineShape::NotObject => {
            return Err(ProtocolError::MalformedJson);
        },
        LineShape::Fields(fs) => fs,
    };
    let tag_val: i64 = match get(&fs, "T") {
        Option::None => {
            return Err(ProtocolError::TagMissing);
        },
        Option::Some(JsonField::Num { int_rep: Option::Some(t), bits: _ }) => t,
        Option::Some(_) => {
            return Err(ProtocolError::TagInvalid);
        },
    };
    if tag_val == 1001 {
        decode_base(&fs, Ghost(line@))
    } else if tag_val == 1002 {
        decode_imu(&fs, Ghost(line@))
    } else if tag_val == 129 {
        decode_imu_offset(&fs, Ghost(line@))
    } else {
        Err(ProtocolError::UnknownTag(tag_val))
    }
}

/// Pins down the characters of every wire key the encoder writes, so
/// that distinct keys are seen to be distinct.
proof fn wire_key_facts()
    ensures
        "T"@.len() == 1,
        "T"@[0] == 'T',
        "L"@.len() == 1,
        "L"@[0] == 'L',
        "R"@.len() == 1,
        "R"@[0] == 'R',
        "X"@.len() == 1,
        "X"@[0] == 'X',
        "Z"@.len() == 1,
        "Z"@[0] == 'Z',
        "P"@.len() == 1,
        "P"@[0] == 'P',
        "I"@.len() == 1,
        "I"@[0] == 'I',
        "D"@.len() == 1,
        "D"@[0] == 'D',
        "cmd"@.len() == 3,
        "cmd"@[0] == 'c',
        "cmd"@[1] == 'm',
        "cmd"@[2] == 'd',
        "Text"@.len() == 4,
        "Text"@[0] == 'T',
        "Text"@[1] == 'e',
        "Text"@[2] == 'x',
        "Text"@[3] == 't',
        "gx"@.len() == 2,
        "gx"@[0] == 'g',
        "gx"@[1] == 'x',
        "gy"@.len() == 2,
        "gy"@[0] == 'g',
        "gy"@[1] == 'y',
        "gz"@.len() == 2,
        "gz"@[0] == 'g',
        "gz"@[1] == 'z',
        "ax"@.len() == 2,
        "ax"@[0] == 'a',
        "ax"@[1] == 'x',
        "ay"@.len() == 2,
        "ay"@[0] == 'a',
        "ay"@[1] == 'y',
        "az"@.len() == 2,
        "az"@[0] == 'a',
        "az"@[1] == 'z',
        "cx"@.len() == 2,
        "cx"@[0] == 'c',
        "cx"@[1] == 'x',
        "cy"@.len() == 2,
        "cy"@[0] == 'c',
        "cy"@[1] == 'y',
        "cz"@.len() == 2,
        "cz"@[0] == 'c',
        "cz"@[1] == 'z',
{
    reveal_strlit("T");
    reveal_strlit("L");
    reveal_strlit("R");
    reveal_strlit("X");
    reveal_strlit("Z");
    reveal_strlit("P");
    reveal_strlit("I");
    reveal_strlit("D");
    reveal_strlit("cmd");
    reveal_strlit("Text");
    reveal_strlit("gx");
    reveal_strlit("gy");
    reveal_strlit("gz");
    reveal_strlit("ax");
    reveal_strlit("ay");
    reveal_strlit("az");
    reveal_strlit("cx");
    reveal_strlit("cy");
    reveal_strlit("cz");
}

/// The integer fields a command puts on the wire: the opcode under "T",
/// and the payload's own integers beside it.
pub open spec fn cmd_int_fields(m: CommandMessage) -> Map<Seq<char>, i64> {
    match m {
        CommandMessage::PWM(a) => Map::<Seq<char>, i64>::empty().insert("T"@, 11i64).insert(
            "L"@,
            a.l as i64,
        ).insert("R"@, a.r as i64),
        CommandMessage::SetBaseFeedbackFlow(a) => Map::<Seq<char>, i64>::empty().insert(
            "T"@,
            131i64,
        ).insert("cmd"@, a.cmd as i64),
        _ => Map::<Seq<char>, i64>::empty().insert("T"@, opcode_of(m)),
    }
}

/// The number fields a command puts on the wire, each value the bits of
/// the number's f64 reading.
pub open spec fn cmd_num_fields(m: CommandMessage) -> Map<Seq<char>, u64> {
    match m {
        CommandMessage::Speed(a) => Map::<Seq<char>, u64>::empty().insert(
            "L"@,
            num_view(a.l),
        ).insert("R"@, num_view(a.r)),
        CommandMessage::RosCtrl(a) => Map::<Seq<char>, u64>::empty().insert(
            "X"@,
            num_view(a.x),
        ).insert("Z"@, num_view(a.z)),
        CommandMessage::MotorPID(a) => Map::<Seq<char>, u64>::empty().insert(
            "P"@,
            num_view(a.p),
        ).insert("I"@, num_view(a.i)).insert("D"@, num_view(a.d)).insert("L"@, num_view(a.l)),
        CommandMessage::SetIMUOffset(a) => Map::<Seq<char>, u64>::empty().insert(
            "gx"@,
            num_view(a.gx),
        ).insert("gy"@, num_view(a.gy)).insert("gz"@, num_view(a.gz)).insert(
            "ax"@,
            num_view(a.ax),
        ).insert("ay"@, num_view(a.ay)).insert("az"@, num_view(a.az)).insert(
            "cx"@,
            num_view(a.cx),
        ).insert("cy"@, num_view(a.cy)).insert("cz"@, num_view(a.cz)),
        _ => Map::<Seq<char>, u64>::empty(),
    }
}

/// The string fields a command puts on the wire.
pub open spec fn cmd_text_fields(m: CommandMessage) -> Map<Seq<char>, Seq<char>> {
    match m {
        CommandMessage::OLEDScreenControl(a) => Map::<Seq<char>, Seq<char>>::empty().insert(
            "Text"@,
            a.text@,
        ),
        _ => Map::<Seq<char>, Seq<char>>::empty(),
    }
}

/// All keys a command puts on the wire.
pub open spec fn cmd_keys(m: CommandMessage) -> Set<Seq<char>> {
    cmd_int_fields(m).dom().union(cmd_num_fields(m).dom()).union(cmd_text_fields(m).dom())
}

/// Appends one field to the object under construction, tracking what the
/// written maps become.
fn push_field(fields: &mut Vec<(String, OutField)>, key: &str, f: OutField)
    ensures
        out_keys(final(fields)@) == out_keys(old(fields)@).insert(key@),
        out_int_map(final(fields)@) == (match f {
            OutField::Int(n) => out_int_map(old(fields)@).insert(key@, n),
            _ => out_int_map(old(fields)@).remove(key@),
        }),
        out_num_map(final(fields)@) == (match f {
            OutField::Num(n) => out_num_map(old(fields)@).insert(key@, n),
            _ => out_num_map(old(fields)@).remove(key@),
        }),
        out_text_map(final(fields)@) == (match f {
            OutField::Text(s) => out_text_map(old(fields)@).insert(key@, s@),
            _ => out_text_map(old(fields)@).remove(key@),
        }),
{
    let pair = (key.to_owned(), f);
    let ghost p = pair;
    let ghost old_s = fields@;
    fields.push(pair);
    proof {
        let new_s = fields@;
        assert(new_s == old_s.push(p));
        assert(new_s.drop_last() =~= old_s);
        assert(new_s.last() == p);
        assert forall|k2: Seq<char>| out_keys(new_s).contains(k2) implies out_keys(
            old_s,
        ).insert(key@).contains(k2) by {
            let i = choose|i: int| 0 <= i < new_s.len() && new_s[i].0@ == k2;
            if i < old_s.len() {
                assert(old_s[i] == new_s[i]);
                assert(old_s[i].0@ == k2);
                assert(out_keys(old_s).contains(k2));
            } else {
                assert(new_s[i] == p);
            }
        };
        assert forall|k2: Seq<char>| out_keys(old_s).insert(key@).contains(k2) implies out_keys(
            new_s,
        ).contains(k2) by {
            if k2 == key@ {
                assert(new_s[old_s.len() as int].0@ == k2);
            } else {
                let i = choose|i: int| 0 <= i < old_s.len() && old_s[i].0@ == k2;
                assert(new_s[i] == old_s[i]);
                assert(new_s[i].0@ == k2);
            }
        };
        assert(out_keys(new_s) =~= out_keys(old_s).insert(key@));
    }
}

/// Encodes one command as the bytes of one JSON object, without the line
/// terminator and with no 0x0A byte anywhere in it.
///
/// The object holds exactly the keys of `cmd_keys`: the opcode as the
/// integer field "T" (with the payload's own integers, `cmd_int_fields`),
/// every payload number under its wire name with its exact value
/// (`cmd_num_fields`), and the text field of the screen command
/// (`cmd_text_fields`).  The bytes always reparse as JSON.  Encoding a
/// `SetIMUOffset` command yields a line that the feedback decoder, whose
/// inbound tag 129 aliases this opcode, reads back as the same offsets.
pub fn encode(msg: CommandMessage) -> (out: Vec<u8>)
    ensures
        json_parses(out@),
        json_top_object(out@),
        live_line(out@),
        has_tag(out@),
        tag_int(out@),
        tag_of(out@) == opcode_of(msg),
        json_keys(out@) == cmd_keys(msg),
        forall|k: Seq<char>| #[trigger]
            cmd_int_fields(msg).dom().contains(k) ==> json_int_fields(out@).contains_pair(
                k,
                cmd_int_fields(msg)[k],
            ),
        forall|k: Seq<char>| #[trigger]
            json_int_fields(out@).dom().contains(k) ==> cmd_int_fields(msg).dom().contains(k)
                || cmd_num_fields(msg).dom().contains(k),
        forall|k: Seq<char>| #[trigger]
            cmd_num_fields(msg).dom().contains(k) ==> json_num_fields(out@).contains_pair(
                k,
                cmd_num_fields(msg)[k],
            ),
        json_num_fields(out@).dom().subset_of(cmd_keys(msg)),
        json_text_fields(out@) == cmd_text_fields(msg),
        out@.len() > 0,
        forall|i: int| 0 <= i < out@.len() ==> out@[i] != 10u8,
        msg matches CommandMessage::SetIMUOffset(a) ==> live_line(out@) && has_tag(out@)
            && tag_int(out@) && tag_of(out@) == 129 && imu_offset_ok(out@) && imu_offset_of(out@)
            == (IMUOffsetData {
            gx: num_view(a.gx),
            gy: num_view(a.gy),
            gz: num_view(a.gz),
            ax: num_view(a.ax),
            ay: num_view(a.ay),
            az: num_view(a.az),
            cx: num_view(a.cx),
            cy: num_view(a.cy),
            cz: num_view(a.cz),
        }),
{
    let mut fields: Vec<(String, OutField)> = Vec::new();
    proof {
        wire_key_facts();
        assert(out_keys(fields@) =~= Set::<Seq<char>>::empty());
    }
    match msg {
        CommandMessage::EmergencyStop => {
            push_field(&mut fields, "T", OutField::Int(0));
        },
        CommandMessage::Speed(a) => {
            push_field(&mut fields, "T", OutField::Int(1));
            push_field(&mut fields, "L", OutField::Num(a.l));
            push_field(&mut fields, "R", OutField::Num(a.r));
        },
        CommandMessage::PWM(a) => {
            push_field(&mut fields, "T", OutField::Int(11));
            push_field(&mut fields, "L", OutField::Int(a.l as i64));
            push_field(&mut fields, "R", OutField::Int(a.r as i64));
        },
        CommandMessage::RosCtrl(a) => {
            push_field(&mut fields, "T", OutField::Int(13));
            push_field(&mut fields, "X", OutField::Num(a.x));
            push_field(&mut fields, "Z", OutField::Num(a.z));
        },
        CommandMessage::MotorPID(a) => {
            push_field(&mut fields, "T", OutField::Int(2));
            push_field(&mut fields, "P", OutField::Num(a.p));
            push_field(&mut fields, "I", OutField::Num(a.i));
            push_field(&mut fields, "D", OutField::Num(a.d));
            push_field(&mut fields, "L", OutField::Num(a.l));
        },
        CommandMessage::OLEDScreenControl(a) => {
            push_field(&mut fields, "T", OutField::Int(3));
            push_field(&mut fields, "Text", OutField::Text(a.text));
        },
        CommandMessage::OLEDScreenRestore => {
            push_field(&mut fields, "T", OutField::Int(-3));
        },
        CommandMessage::GetIMUData => {
            push_field(&mut fields, "T", OutField::Int(126));
        },
        CommandMessage::CalibrateIMU => {
            push_field(&mut fields, "T", OutField::Int(127));
        },
        CommandMessage::GetIMUOffset => {
            push_field(&mut fields, "T", OutField::Int(128));
        },
        CommandMessage::SetIMUOffset(a) => {
            push_field(&mut fields, "T", OutField::Int(129));
            push_field(&mut fields, "gx", OutField::Num(a.gx));
            push_field(&mut fields, "gy", OutField::Num(a.gy));
            push_field(&mut fields, "gz", OutField::Num(a.gz));
            push_field(&mut fields, "ax", OutField::Num(a.ax));
            push_field(&mut fields, "ay", OutField::Num(a.ay));
            push_field(&mut fields, "az", OutField::Num(a.az));
            push_field(&mut fields, "cx", OutField::Num(a.cx));
            push_field(&mut fields, "cy", OutField::Num(a.cy));
            push_field(&mut fields, "cz", OutField::Num(a.cz));
        },
        CommandMessage::GetBaseFeedback => {
            push_field(&mut fields, "T", OutField::Int(130));
        },
        CommandMessage::SetBaseFeedbackFlow(a) => {
            push_field(&mut fields, "T", OutField::Int(131));
            push_field(&mut fields, "cmd", OutField::Int(a.cmd as i64));
        },
    }
    proof {
        assert(out_keys(fields@) =~= cmd_keys(msg));
        assert(out_int_map(fields@) =~= cmd_int_fields(msg));
        assert(out_text_map(fields@) =~= cmd_text_fields(msg));
        assert(out_num_map(fields@).dom() =~= cmd_num_fields(msg).dom());
        assert forall|k: Seq<char>| #[trigger]
            cmd_num_fields(msg).dom().contains(k) implies num_view(out_num_map(fields@)[k])
            == cmd_num_fields(msg)[k] by {}
    }
    let out = write_json_object(&fields);
    proof {
        assert forall|k: Seq<char>| #[trigger]
            cmd_int_fields(msg).dom().contains(k) implies json_int_fields(out@).contains_pair(
            k,
            cmd_int_fields(msg)[k],
        ) by {
            assert(out_int_map(fields@).dom().contains(k));
        }
        assert forall|k: Seq<char>| #[trigger]
            json_int_fields(out@).dom().contains(k) implies cmd_int_fields(msg).dom().contains(k)
            || cmd_num_fields(msg).dom().contains(k) by {}
        assert(cmd_int_fields(msg).dom().contains("T"@));
        assert(cmd_int_fields(msg)["T"@] == opcode_of(msg));
        assert forall|k: Seq<char>| #[trigger]
            cmd_num_fields(msg).dom().contains(k) implies json_num_fields(out@).contains_pair(
            k,
            cmd_num_fields(msg)[k],
        ) by {
            assert(out_num_map(fields@).dom().contains(k));
            assert(json_num_fields(out@).contains_pair(k, num_view(out_num_map(fields@)[k])));
        }
        if msg is SetIMUOffset {
            let a = msg->SetIMUOffset_0;
            assert(json_int_fields(out@).contains_pair("T"@, 129i64));
            assert(cmd_num_fields(msg).dom().contains("gx"@));
            assert(cmd_num_fields(msg).dom().contains("gy"@));
            assert(cmd_num_fields(msg).dom().contains("gz"@));
            assert(cmd_num_fields(msg).dom().contains("ax"@));
            assert(cmd_num_fields(msg).dom().contains("ay"@));
            assert(cmd_num_fields(msg).dom().contains("az"@));
            assert(cmd_num_fields(msg).dom().contains("cx"@));
            assert(cmd_num_fields(msg).dom().contains("cy"@));
            assert(cmd_num_fields(msg).dom().contains("cz"@));
            assert(cmd_keys(msg).contains("T"@));
            assert(imu_offset_of(out@) == IMUOffsetData {
                gx: num_view(a.gx),
                gy: num_view(a.gy),
                gz: num_view(a.gz),
                ax: num_view(a.ax),
                ay: num_view(a.ay),
                az: num_view(a.az),
                cx: num_view(a.cx),
                cy: num_view(a.cy),
                cz: num_view(a.cz),
            });
        }
    }
    out
}

/// Wraps one encoded payload as a wire line: the payload's bytes followed
/// by the single 0x0A terminator.  The writer sends the returned bytes as
/// one unit, which is what keeps two lines written to independent streams
/// from interleaving inside a line.
pub fn frame_line(payload: &[u8]) -> (r: Vec<u8>)
    ensures
        r@ == payload@ + seq![10u8],
{
    let mut v = vstd::slice::slice_to_vec(payload);
    v.push(10u8);
    proof {
        assert(v@ =~= payload@ + seq![10u8]);
    }
    v
}

/// Removes the line terminator, where the raw line as read from the stream
/// ends in one; every byte before it is kept unchanged.
pub fn strip_terminator(line: &[u8]) -> (r: Vec<u8>)
    ensures
        r@ == if line@.len() > 0 && line@.last() == 10u8 {
            line@.drop_last()
        } else {
            line@
        },
{
    let n: usize = line.len();
    if n > 0 && *vstd::slice::slice_index_get(line, n - 1) == 10u8 {
        let s = vstd::slice::slice_subrange(line, 0, n - 1);
        let v = vstd::slice::slice_to_vec(s);
        proof {
            assert(line@.subrange(0, n as int - 1) =~= line@.drop_last());
        }
        v
    } else {
        vstd::slice::slice_to_vec(line)
    }
}





} // verus!
