//! The in-memory message model: outbound commands and inbound telemetry.
//!
//! Outbound command numbers are `serde_json::Number` values, built by the
//! caller, which owns the floating-point data; inbound telemetry numbers are
//! handed out as IEEE-754 double bit patterns (`u64`), read off the wire,
//! and the caller interprets them.  The opcode of a command is a property
//! of the variant alone, never of the payload.

use vstd::prelude::*;

verus! {

/// Payload of the `Speed` command: wheel speed setpoints.
#[derive(Debug, PartialEq)]
pub struct SpeedArgs {
    /// Left wheel speed; positive is forward.
    pub l: serde_json::Number,
    /// Right wheel speed; positive is forward.
    pub r: serde_json::Number,
}

impl SpeedArgs {
    /// The wire opcode of the `Speed` command.
    pub fn tag(&self) -> (t: i16)
        ensures
            t == 1i16,
    {
        1
    }
}

/// Payload of the `PWM` command: raw motor duty cycles.
#[derive(Debug, PartialEq)]
pub struct PWMArgs {
    /// Left motor PWM, range -255 to 255; positive is forward.
    pub l: i16,
    /// Right motor PWM, range -255 to 255; positive is forward.
    pub r: i16,
}

impl PWMArgs {
    /// The wire opcode of the `PWM` command.
    pub fn tag(&self) -> (t: i16)
        ensures
            t == 11i16,
    {
        11
    }
}

/// Payload of the `RosCtrl` command: velocity setpoints.
#[derive(Debug, PartialEq)]
pub struct RosCtrlArgs {
    /// Linear velocity in m/s.
    pub x: serde_json::Number,
    /// Angular velocity in rad/s.
    pub z: serde_json::Number,
}

impl RosCtrlArgs {
    /// The wire opcode of the `RosCtrl` command.
    pub fn tag(&self) -> (t: i16)
        ensures
            t == 13i16,
    {
        13
    }
}

/// Payload of the `MotorPID` command: controller gains.
#[derive(Debug, PartialEq)]
pub struct MotorPIDArgs {
    /// Proportional gain.
    pub p: serde_json::Number,
    /// Integral gain.
    pub i: serde_json::Number,
    /// Derivative gain.
    pub d: serde_json::Number,
    /// Windup limit.
    pub l: serde_json::Number,
}

impl MotorPIDArgs {
    /// The wire opcode of the `MotorPID` command.
    pub fn tag(&self) -> (t: i16)
        ensures
            t == 2i16,
    {
        2
    }
}

/// Payload of the `OLEDScreenControl` command: a line of display text.
#[derive(Debug, PartialEq)]
pub struct OLEDScreenControlArgs {
    /// The text to show on the screen.
    pub text: String,
}

impl OLEDScreenControlArgs {
    /// The wire opcode of the `OLEDScreenControl` command.
    pub fn tag(&self) -> (t: i16)
        ensures
            t == 3i16,
    {
        3
    }
}

/// Payload of the `SetBaseFeedbackFlow` command.
#[derive(Debug, PartialEq)]
pub struct BaseFeedbackFlowArgs {
    /// 1 to enable the periodic base feedback, 0 to disable it.
    pub cmd: i16,
}

impl BaseFeedbackFlowArgs {
    /// The wire opcode of the `SetBaseFeedbackFlow` command.
    pub fn tag(&self) -> (t: i16)
        ensures
            t == 131i16,
    {
        131
    }
}

/// Payload of the `SetIMUOffset` command: calibration offsets.
#[derive(Debug, PartialEq)]
pub struct IMUOffsetArgs {
    /// Gyroscope x offset.
    pub gx: serde_json::Number,
    /// Gyroscope y offset.
    pub gy: serde_json::Number,
    /// Gyroscope z offset.
    pub gz: serde_json::Number,
    /// Accelerometer x offset.
    pub ax: serde_json::Number,
    /// Accelerometer y offset.
    pub ay: serde_json::Number,
    /// Accelerometer z offset.
    pub az: serde_json::Number,
    /// Magnetometer x offset.
    pub cx: serde_json::Number,
    /// Magnetometer y offset.
    pub cy: serde_json::Number,
    /// Magnetometer z offset.
    pub cz: serde_json::Number,
}

impl IMUOffsetArgs {
    /// The wire opcode of the `SetIMUOffset` command.
    pub fn tag(&self) -> (t: i16)
        ensures
            t == 129i16,
    {
        129
    }
}

/// An outbound command: a closed set of variants, each tied to one opcode.
#[derive(Debug, PartialEq)]
pub enum CommandMessage {
    /// Stop both motors at once (opcode 0).
    EmergencyStop,
    /// Set wheel speeds (opcode 1).
    Speed(SpeedArgs),
    /// Set raw motor PWM (opcode 11).
    PWM(PWMArgs),
    /// Set linear and angular velocity (opcode 13).
    RosCtrl(RosCtrlArgs),
    /// Set motor PID gains (opcode 2).
    MotorPID(MotorPIDArgs),
    /// Show a text line on the OLED screen (opcode 3).
    OLEDScreenControl(OLEDScreenControlArgs),
    /// Restore the OLED screen's default content (opcode -3).
    OLEDScreenRestore,
    /// Ask for one IMU sample (opcode 126).
    GetIMUData,
    /// Start an IMU calibration (opcode 127).
    CalibrateIMU,
    /// Ask for the stored IMU offsets (opcode 128).
    GetIMUOffset,
    /// Store IMU calibration offsets (opcode 129).
    SetIMUOffset(IMUOffsetArgs),
    /// Ask for one base feedback record (opcode 130).
    GetBaseFeedback,
    /// Enable or disable the periodic base feedback (opcode 131).
    SetBaseFeedbackFlow(BaseFeedbackFlowArgs),
}

/// The opcode that a command carries on the wire, as the decoder-side
/// integer type.
pub open spec fn opcode_of(m: CommandMessage) -> i64 {
    match m {
        CommandMessage::EmergencyStop => 0i64,
        CommandMessage::Speed(_) => 1i64,
        CommandMessage::PWM(_) => 11i64,
        CommandMessage::RosCtrl(_) => 13i64,
        CommandMessage::MotorPID(_) => 2i64,
        CommandMessage::OLEDScreenControl(_) => 3i64,
        CommandMessage::OLEDScreenRestore => -3i64,
        CommandMessage::GetIMUData => 126i64,
        CommandMessage::CalibrateIMU => 127i64,
        CommandMessage::GetIMUOffset => 128i64,
        CommandMessage::SetIMUOffset(_) => 129i64,
        CommandMessage::GetBaseFeedback => 130i64,
        CommandMessage::SetBaseFeedbackFlow(_) => 131i64,
    }
}

/// Telemetry of the driving base (inbound tag 1001).
///
/// Fields that older firmware may omit are `Option`; they decode to `None`
/// when absent from the wire.  All values are f64 bit patterns.
#[derive(Debug, PartialEq)]
pub struct BaseInfoData {
    /// Left wheel speed.
    pub l: u64,
    /// Right wheel speed.
    pub r: u64,
    /// Gyroscope x.
    pub gx: u64,
    /// Gyroscope y.
    pub gy: u64,
    /// Gyroscope z.
    pub gz: u64,
    /// Accelerometer x.
    pub ax: u64,
    /// Accelerometer y.
    pub ay: u64,
    /// Accelerometer z.
    pub az: u64,
    /// Roll angle.
    pub r_angle: u64,
    /// Pitch angle.
    pub p_angle: u64,
    /// Yaw angle; absent in older firmware.
    pub y_angle: Option<u64>,
    /// Orientation quaternion w.
    pub q0: u64,
    /// Orientation quaternion x.
    pub q1: u64,
    /// Orientation quaternion y.
    pub q2: u64,
    /// Orientation quaternion z.
    pub q3: u64,
    /// Left wheel odometry; absent in older firmware.
    pub odl: Option<u64>,
    /// Right wheel odometry; absent in older firmware.
    pub odr: Option<u64>,
    /// Battery voltage.
    pub v: u64,
    /// Arm base joint angle; absent without an arm.
    pub a_b: Option<u64>,
    /// Arm shoulder joint angle; absent without an arm.
    pub a_s: Option<u64>,
    /// Arm elbow joint angle; absent without an arm.
    pub a_e: Option<u64>,
    /// Arm tilt joint angle; absent without an arm.
    pub a_t: Option<u64>,
    /// Arm base joint torque; absent without an arm.
    pub tor_b: Option<u64>,
    /// Arm shoulder joint torque; absent without an arm.
    pub tor_s: Option<u64>,
    /// Arm elbow joint torque; absent without an arm.
    pub tor_e: Option<u64>,
    /// Arm hand torque; absent without an arm.
    pub tor_h: Option<u64>,
    /// Pan angle of the camera mount; absent without one.
    pub pan: Option<u64>,
    /// Tilt angle of the camera mount; absent without one.
    pub tilt: Option<u64>,
}

/// One raw IMU sample (inbound tag 1002): gyroscope, accelerometer and
/// magnetometer triplets, each value the bit pattern of the JSON number
/// read as an f64.
#[derive(Debug, PartialEq)]
pub struct IMUData {
    /// Gyroscope x.
    pub gx: u64,
    /// Gyroscope y.
    pub gy: u64,
    /// Gyroscope z.
    pub gz: u64,
    /// Accelerometer x.
    pub ax: u64,
    /// Accelerometer y.
    pub ay: u64,
    /// Accelerometer z.
    pub az: u64,
    /// Magnetometer x.
    pub mx: u64,
    /// Magnetometer y.
    pub my: u64,
    /// Magnetometer z.
    pub mz: u64,
}

/// Stored IMU calibration offsets (inbound tag 129).
#[derive(Debug, PartialEq)]
pub struct IMUOffsetData {
    /// Gyroscope x offset.
    pub gx: u64,
    /// Gyroscope y offset.
    pub gy: u64,
    /// Gyroscope z offset.
    pub gz: u64,
    /// Accelerometer x offset.
    pub ax: u64,
    /// Accelerometer y offset.
    pub ay: u64,
    /// Accelerometer z offset.
    pub az: u64,
    /// Magnetometer x offset.
    pub cx: u64,
    /// Magnetometer y offset.
    pub cy: u64,
    /// Magnetometer z offset.
    pub cz: u64,
}

/// An inbound telemetry record, selected by the wire discriminant "T".
#[derive(Debug, PartialEq)]
pub enum FeedbackMessage {
    /// Base telemetry, tag 1001.
    BaseInfo(BaseInfoData),
    /// Raw IMU sample, tag 1002.
    IMU(IMUData),
    /// Stored IMU offsets, tag 129.  This inbound tag aliases the outbound
    /// `SetIMUOffset` opcode; the two live on separate directions of the
    /// link and must not be conflated.
    IMUOffset(IMUOffsetData),
}

} // verus!
