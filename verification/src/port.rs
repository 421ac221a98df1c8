//! Typed port signatures of the rover's services.

use vstd::prelude::*;

verus! {

/// How a port exchanges values.
#[derive(Clone, Copy, Debug, PartialEq, Eq, Structural)]
pub enum PortKind {
    /// Latest-wins intent that a consumer applies until replaced.
    Setpoint,
    /// Published state that observers read.
    State,
    /// Request/reply commands.
    Commands,
}

/// The identity of one typed port: its endpoint name, the Protobuf service and
/// method behind it, its kind, and its request and reply message names.
pub struct PortSignature {
    pub name: String,
    pub service: String,
    pub method: String,
    pub kind: PortKind,
    pub request_type: String,
    pub reply_type: String,
}

/// `s` carries exactly the given fields.
pub open spec fn signature_is(
    s: PortSignature,
    name: Seq<char>,
    service: Seq<char>,
    method: Seq<char>,
    kind: PortKind,
    request_type: Seq<char>,
    reply_type: Seq<char>,
) -> bool {
    &&& s.name@ == name
    &&& s.service@ == service
    &&& s.method@ == method
    &&& s.kind == kind
    &&& s.request_type@ == request_type
    &&& s.reply_type@ == reply_type
}

impl PortSignature {
    /// Builds a signature from its six parts.
    pub fn new(
        name: &str,
        service: &str,
        method: &str,
        kind: PortKind,
        request_type: &str,
        reply_type: &str,
    ) -> (s: PortSignature)
        ensures
            signature_is(s, name@, service@, method@, kind, request_type@, reply_type@),
    {
        PortSignature {
            name: name.to_owned(),
            service: service.to_owned(),
            method: method.to_owned(),
            kind,
            request_type: request_type.to_owned(),
            reply_type: reply_type.to_owned(),
        }
    }
}

/// The Motion service's manual setpoint port.
pub open spec fn is_motion_manual(s: PortSignature) -> bool {
    signature_is(
        s,
        "motion/manual"@,
        "phoxal.motion.v1.Motion"@,
        "Manual"@,
        PortKind::Setpoint,
        "phoxal.motion.v1.MotionIntent"@,
        "phoxal.motion.v1.MotionIntent"@,
    )
}

/// The Motion service's status state port.
pub open spec fn is_motion_status(s: PortSignature) -> bool {
    signature_is(
        s,
        "motion/status"@,
        "phoxal.motion.v1.Motion"@,
        "Status"@,
        PortKind::State,
        "google.protobuf.Empty"@,
        "phoxal.motion.v1.MotionStatus"@,
    )
}

/// The Safety service's status state port.
pub open spec fn is_safety_status(s: PortSignature) -> bool {
    signature_is(
        s,
        "safety/status"@,
        "phoxal.safety.v1.Safety"@,
        "Status"@,
        PortKind::State,
        "google.protobuf.Empty"@,
        "phoxal.safety.v1.SafetyStatus"@,
    )
}

/// The Motion service's emergency (arm / disarm) command port.
pub open spec fn is_motion_emergency(s: PortSignature) -> bool {
    signature_is(
        s,
        "motion/emergency"@,
        "phoxal.motion.v1.Motion"@,
        "Emergency"@,
        PortKind::Commands,
        "phoxal.motion.v1.ApplyEmergencyRequest"@,
        "phoxal.motion.v1.ApplyEmergencyResponse"@,
    )
}

/// Signature of the Motion/Manual setpoint port.
pub fn manual_setpoint_signature() -> (s: PortSignature)
    ensures
        is_motion_manual(s),
{
    PortSignature::new(
        "motion/manual",
        "phoxal.motion.v1.Motion",
        "Manual",
        PortKind::Setpoint,
        "phoxal.motion.v1.MotionIntent",
        "phoxal.motion.v1.MotionIntent",
    )
}

/// Signature of the Motion/Status state port.
pub fn motion_status_signature() -> (s: PortSignature)
    ensures
        is_motion_status(s),
{
    PortSignature::new(
        "motion/status",
        "phoxal.motion.v1.Motion",
        "Status",
        PortKind::State,
        "google.protobuf.Empty",
        "phoxal.motion.v1.MotionStatus",
    )
}

/// Signature of the Safety/Status state port.
pub fn safety_status_signature() -> (s: PortSignature)
    ensures
        is_safety_status(s),
{
    PortSignature::new(
        "safety/status",
        "phoxal.safety.v1.Safety",
        "Status",
        PortKind::State,
        "google.protobuf.Empty",
        "phoxal.safety.v1.SafetyStatus",
    )
}

/// Signature of the Motion/Emergency command port.
pub fn emergency_signature() -> (s: PortSignature)
    ensures
        is_motion_emergency(s),
{
    PortSignature::new(
        "motion/emergency",
        "phoxal.motion.v1.Motion",
        "Emergency",
        PortKind::Commands,
        "phoxal.motion.v1.ApplyEmergencyRequest",
        "phoxal.motion.v1.ApplyEmergencyResponse",
    )
}

} // verus!
