use serde_json::Number;
use serde_json::Value;
use ws_ugv_protocol::codec::{decode, encode, frame_line};
use ws_ugv_protocol::messages::{
    BaseFeedbackFlowArgs, CommandMessage, FeedbackMessage, IMUOffsetArgs, MotorPIDArgs,
    OLEDScreenControlArgs, PWMArgs, RosCtrlArgs, SpeedArgs,
};

fn num(x: f64) -> Number {
    Number::from_f64(x).unwrap()
}

fn reparse(bytes: &[u8]) -> Value {
    serde_json::from_slice(bytes).expect("encoded line must be valid JSON")
}

fn all_commands() -> Vec<(CommandMessage, i64)> {
    vec![
        (CommandMessage::EmergencyStop, 0),
        (CommandMessage::Speed(SpeedArgs { l: num(0.1), r: num(0.2) }), 1),
        (CommandMessage::PWM(PWMArgs { l: -255, r: 255 }), 11),
        (CommandMessage::RosCtrl(RosCtrlArgs { x: num(1.5), z: num(-0.5) }), 13),
        (
            CommandMessage::MotorPID(MotorPIDArgs {
                p: num(20.0),
                i: num(2000.0),
                d: num(0.0),
                l: num(255.0),
            }),
            2,
        ),
        (
            CommandMessage::OLEDScreenControl(OLEDScreenControlArgs {
                text: "hello".to_owned(),
            }),
            3,
        ),
        (CommandMessage::OLEDScreenRestore, -3),
        (CommandMessage::GetIMUData, 126),
        (CommandMessage::CalibrateIMU, 127),
        (CommandMessage::GetIMUOffset, 128),
        (
            CommandMessage::SetIMUOffset(IMUOffsetArgs {
                gx: num(1.0),
                gy: num(2.0),
                gz: num(3.0),
                ax: num(4.0),
                ay: num(5.0),
                az: num(6.0),
                cx: num(7.0),
                cy: num(8.0),
                cz: num(9.0),
            }),
            129,
        ),
        (CommandMessage::GetBaseFeedback, 130),
        (CommandMessage::SetBaseFeedbackFlow(BaseFeedbackFlowArgs { cmd: 1 }), 131),
    ]
}

#[test]
fn every_command_encodes_to_json_with_its_opcode() {
    for (msg, opcode) in all_commands() {
        let bytes = encode(msg);
        assert!(!bytes.is_empty());
        assert!(!bytes.contains(&b'\n'));
        let v = reparse(&bytes);
        let obj = v.as_object().expect("top level must be an object");
        let t = obj.get("T").and_then(Value::as_i64).expect("opcode field");
        assert_eq!(t, opcode);
    }
}

#[test]
fn speed_round_trips_through_generic_json() {
    let bytes = encode(CommandMessage::Speed(SpeedArgs { l: num(0.5), r: num(0.5) }));
    let v = reparse(&bytes);
    assert_eq!(v.get("T").and_then(Value::as_i64), Some(1));
    assert_eq!(v.get("L").and_then(Value::as_f64), Some(0.5));
    assert_eq!(v.get("R").and_then(Value::as_f64), Some(0.5));
    assert_eq!(v.as_object().unwrap().len(), 3);
}

#[test]
fn encoded_numbers_keep_their_bits() {
    // values with no short decimal form still round-trip exactly
    let awkward = 0.1 + 0.2;
    let bytes = encode(CommandMessage::RosCtrl(RosCtrlArgs {
        x: num(awkward),
        z: num(-0.0),
    }));
    let v = reparse(&bytes);
    let x = v.get("X").and_then(Value::as_f64).unwrap();
    let z = v.get("Z").and_then(Value::as_f64).unwrap();
    assert_eq!(x.to_bits(), awkward.to_bits());
    assert_eq!(z.to_bits(), (-0.0f64).to_bits());
}

#[test]
fn pwm_and_flow_encode_integer_fields() {
    let v = reparse(&encode(CommandMessage::PWM(PWMArgs { l: -255, r: 128 })));
    assert_eq!(v.get("L").and_then(Value::as_i64), Some(-255));
    assert_eq!(v.get("R").and_then(Value::as_i64), Some(128));
    let v = reparse(&encode(CommandMessage::SetBaseFeedbackFlow(BaseFeedbackFlowArgs {
        cmd: 0,
    })));
    assert_eq!(v.get("cmd").and_then(Value::as_i64), Some(0));
}

#[test]
fn bare_commands_carry_only_the_opcode() {
    for msg in [
        CommandMessage::EmergencyStop,
        CommandMessage::OLEDScreenRestore,
        CommandMessage::GetIMUData,
        CommandMessage::CalibrateIMU,
        CommandMessage::GetIMUOffset,
        CommandMessage::GetBaseFeedback,
    ] {
        let v = reparse(&encode(msg));
        assert_eq!(v.as_object().unwrap().len(), 1);
    }
}

#[test]
fn screen_text_with_newline_stays_on_one_line() {
    let bytes = encode(CommandMessage::OLEDScreenControl(OLEDScreenControlArgs {
        text: "line one\nline two".to_owned(),
    }));
    assert!(!bytes.contains(&b'\n'));
    let v = reparse(&bytes);
    assert_eq!(v.get("Text").and_then(Value::as_str), Some("line one\nline two"));
}

#[test]
fn integer_valued_number_is_accepted() {
    let bytes = encode(CommandMessage::Speed(SpeedArgs {
        l: Number::from(2u64),
        r: num(0.25),
    }));
    let v = reparse(&bytes);
    assert_eq!(v.get("L").and_then(Value::as_f64), Some(2.0));
    assert_eq!(v.get("R").and_then(Value::as_f64), Some(0.25));
}

#[test]
fn set_imu_offset_decodes_as_imu_offset_feedback() {
    // the outbound opcode 129 aliases the inbound tag: the encoded command
    // reads back as the offsets record with the same numbers
    let bytes = encode(CommandMessage::SetIMUOffset(IMUOffsetArgs {
        gx: num(1.5),
        gy: num(-2.5),
        gz: num(3.0),
        ax: num(0.0),
        ay: num(4.25),
        az: num(5.0),
        cx: num(6.0),
        cy: num(7.0),
        cz: num(8.0),
    }));
    match decode(&bytes).unwrap() {
        FeedbackMessage::IMUOffset(d) => {
            assert_eq!(d.gx, 1.5f64.to_bits());
            assert_eq!(d.gy, (-2.5f64).to_bits());
            assert_eq!(d.ay, 4.25f64.to_bits());
            assert_eq!(d.cz, 8.0f64.to_bits());
        }
        other => panic!("wrong variant: {:?}", other),
    }
}

#[test]
fn tags_match_the_opcode_table() {
    assert_eq!(SpeedArgs { l: num(0.0), r: num(0.0) }.tag(), 1);
    assert_eq!(PWMArgs { l: 0, r: 0 }.tag(), 11);
    assert_eq!(RosCtrlArgs { x: num(0.0), z: num(0.0) }.tag(), 13);
    assert_eq!(
        MotorPIDArgs { p: num(0.0), i: num(0.0), d: num(0.0), l: num(0.0) }.tag(),
        2
    );
    assert_eq!(OLEDScreenControlArgs { text: String::new() }.tag(), 3);
    assert_eq!(BaseFeedbackFlowArgs { cmd: 1 }.tag(), 131);
    assert_eq!(
        IMUOffsetArgs {
            gx: num(0.0),
            gy: num(0.0),
            gz: num(0.0),
            ax: num(0.0),
            ay: num(0.0),
            az: num(0.0),
            cx: num(0.0),
            cy: num(0.0),
            cz: num(0.0),
        }
        .tag(),
        129
    );
}

#[test]
fn test_write_command() {
    let tx_object = CommandMessage::Speed(SpeedArgs { l: num(0.5), r: num(0.5) });

    // simulate the serial port with a plain byte buffer
    let mut writer: Vec<u8> = Vec::new();
    assert_eq!(writer.len(), 0);

    let payload = encode(tx_object);
    let line = frame_line(&payload);
    writer.extend_from_slice(&line);
    let bytes_written = line.len();

    assert!(bytes_written > 0);
    assert_eq!(writer.len(), bytes_written);
    assert_eq!(line.len(), payload.len() + 1);
    assert_eq!(line.last(), Some(&b'\n'));
    assert_eq!(&line[..payload.len()], &payload[..]);

    // the written message is valid JSON
    let value: Result<Value, serde_json::Error> =
        serde_json::from_str(std::str::from_utf8(&writer).unwrap());
    assert!(value.is_ok());
}
