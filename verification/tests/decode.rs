use ws_ugv_protocol::codec::{decode, strip_terminator, ProtocolError};
use ws_ugv_protocol::messages::{BaseInfoData, FeedbackMessage};

fn bits(x: f64) -> u64 {
    x.to_bits()
}

#[test]
fn test_read_feedback() {
    let line = br#"{"T":1001,"L":0.2,"R":0.6,"gx":0.3,"gy":0.4,"gz":0,"ax":0,"ay":0,"az":0,"r":0,"p":0,"y":0,"q0":1.0,"q1":0,"q2":0,"q3":0,"odl":0,"odr":0,"v":11.0}"#;
    let expected = BaseInfoData {
        l: bits(0.2),
        r: bits(0.6),
        gx: bits(0.3),
        gy: bits(0.4),
        gz: bits(0.0),
        ax: bits(0.0),
        ay: bits(0.0),
        az: bits(0.0),
        r_angle: bits(0.0),
        p_angle: bits(0.0),
        y_angle: Some(bits(0.0)),
        q0: bits(1.0),
        q1: bits(0.0),
        q2: bits(0.0),
        q3: bits(0.0),
        odl: Some(bits(0.0)),
        odr: Some(bits(0.0)),
        v: bits(11.0),
        a_b: None,
        a_s: None,
        a_e: None,
        a_t: None,
        tor_b: None,
        tor_s: None,
        tor_e: None,
        tor_h: None,
        pan: None,
        tilt: None,
    };
    let got = decode(line).unwrap();
    assert_eq!(got, FeedbackMessage::BaseInfo(expected));
}

#[test]
fn test_read_feedback_empty() {
    assert_eq!(decode(b"").unwrap_err(), ProtocolError::ConnectionClosed);
}

#[test]
fn decode_unknown_tag_is_recoverable() {
    let got = decode(br#"{"T":9999}"#);
    assert_eq!(got.unwrap_err(), ProtocolError::UnknownTag(9999));
    // the codec keeps serving lines after an unknown tag
    let next = decode(br#"{"T":1002,"gx":1,"gy":2,"gz":3,"ax":4,"ay":5,"az":6,"mx":7,"my":8,"mz":9}"#);
    assert!(next.is_ok());
}

#[test]
fn decode_negative_unknown_tag() {
    assert_eq!(decode(br#"{"T":-5}"#).unwrap_err(), ProtocolError::UnknownTag(-5));
}

#[test]
fn decode_truncated_line_is_malformed() {
    let got = decode(br#"{"T":1001,"L":"#);
    assert_eq!(got.unwrap_err(), ProtocolError::MalformedJson);
    // a later, complete line is unaffected
    let next = decode(br#"{"T":9999}"#);
    assert_eq!(next.unwrap_err(), ProtocolError::UnknownTag(9999));
}

#[test]
fn decode_non_object_is_malformed() {
    assert_eq!(decode(b"[1,2,3]").unwrap_err(), ProtocolError::MalformedJson);
    assert_eq!(decode(b"42").unwrap_err(), ProtocolError::MalformedJson);
}

#[test]
fn decode_missing_tag() {
    assert_eq!(decode(br#"{"x":1}"#).unwrap_err(), ProtocolError::TagMissing);
}

#[test]
fn decode_non_integer_tag() {
    assert_eq!(decode(br#"{"T":"a"}"#).unwrap_err(), ProtocolError::TagInvalid);
    assert_eq!(decode(br#"{"T":1001.5}"#).unwrap_err(), ProtocolError::TagInvalid);
    assert_eq!(decode(br#"{"T":null}"#).unwrap_err(), ProtocolError::TagInvalid);
}

#[test]
fn decode_base_info_missing_required_field() {
    let got = decode(br#"{"T":1001}"#);
    assert_eq!(got.unwrap_err(), ProtocolError::SchemaMismatch("L".to_owned()));
}

#[test]
fn decode_base_info_optional_field_of_wrong_type() {
    let line = br#"{"T":1001,"L":0,"R":0,"gx":0,"gy":0,"gz":0,"ax":0,"ay":0,"az":0,"r":0,"p":0,"q0":0,"q1":0,"q2":0,"q3":0,"v":0,"y":"x"}"#;
    assert_eq!(
        decode(line).unwrap_err(),
        ProtocolError::SchemaMismatch("y".to_owned())
    );
}

#[test]
fn decode_base_info_without_optional_fields() {
    let line = br#"{"T":1001,"L":1,"R":2,"gx":0,"gy":0,"gz":0,"ax":0,"ay":0,"az":0,"r":0,"p":0,"q0":0,"q1":0,"q2":0,"q3":0,"v":12.5}"#;
    match decode(line).unwrap() {
        FeedbackMessage::BaseInfo(d) => {
            assert_eq!(d.l, bits(1.0));
            assert_eq!(d.r, bits(2.0));
            assert_eq!(d.v, bits(12.5));
            assert_eq!(d.y_angle, None);
            assert_eq!(d.odl, None);
            assert_eq!(d.odr, None);
            assert_eq!(d.pan, None);
            assert_eq!(d.tilt, None);
        }
        other => panic!("wrong variant: {:?}", other),
    }
}

#[test]
fn decode_imu_sample() {
    let line = br#"{"T":1002,"gx":0.5,"gy":-0.5,"gz":1,"ax":2,"ay":3,"az":4,"mx":5,"my":6,"mz":7}"#;
    match decode(line).unwrap() {
        FeedbackMessage::IMU(d) => {
            assert_eq!(d.gx, bits(0.5));
            assert_eq!(d.gy, bits(-0.5));
            assert_eq!(d.gz, bits(1.0));
            assert_eq!(d.mz, bits(7.0));
        }
        other => panic!("wrong variant: {:?}", other),
    }
}

#[test]
fn decode_imu_sample_wrong_type() {
    let line = br#"{"T":1002,"gx":"a","gy":0,"gz":0,"ax":0,"ay":0,"az":0,"mx":0,"my":0,"mz":0}"#;
    assert_eq!(
        decode(line).unwrap_err(),
        ProtocolError::SchemaMismatch("gx".to_owned())
    );
}

#[test]
fn decode_imu_offset_record() {
    let line = br#"{"T":129,"gx":1,"gy":2,"gz":3,"ax":4,"ay":5,"az":6,"cx":7,"cy":8,"cz":9}"#;
    match decode(line).unwrap() {
        FeedbackMessage::IMUOffset(d) => {
            assert_eq!(d.gx, bits(1.0));
            assert_eq!(d.cz, bits(9.0));
        }
        other => panic!("wrong variant: {:?}", other),
    }
}

#[test]
fn decode_ignores_unknown_keys() {
    let line = br#"{"T":129,"gx":1,"gy":2,"gz":3,"ax":4,"ay":5,"az":6,"cx":7,"cy":8,"cz":9,"extra":true}"#;
    assert!(decode(line).is_ok());
}

#[test]
fn strip_terminator_removes_one_newline() {
    assert_eq!(strip_terminator(b"abc\n"), b"abc".to_vec());
    assert_eq!(strip_terminator(b"abc"), b"abc".to_vec());
    assert_eq!(strip_terminator(b"\n"), Vec::<u8>::new());
    assert_eq!(strip_terminator(b""), Vec::<u8>::new());
    assert_eq!(strip_terminator(b"a\n\n"), b"a\n".to_vec());
}
