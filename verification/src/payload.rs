//! The requests that scenario steps hand to the Motion service.
//!
//! Velocities are kept as whole milli-units (millimetres per second and
//! milliradians per second); the program around the library turns them into
//! the wire message's floating-point fields and encodes the message.

use vstd::prelude::*;

verus! {

/// Control mode requested when arming Motion.
#[derive(Clone, Copy, Debug, PartialEq, Eq, Structural)]
pub enum ControlMode {
    Disarmed,
    Manual,
}

/// A manual motion intent: who owns it and the commanded body velocities.
pub struct MotionIntent {
    pub owner_id: String,
    /// Forward velocity along the body x axis, in millimetres per second.
    pub linear_x_mm_per_s: i64,
    /// Counter-clockwise yaw rate around the body z axis, in milliradians per second.
    pub angular_z_mrad_per_s: i64,
}

/// The request carried by a step.
pub enum Payload {
    /// A Motion/Manual intent.
    Intent(MotionIntent),
    /// An emergency request that arms Motion in `mode` for `owner_id`.
    Arm { mode: ControlMode, owner_id: String },
    /// An emergency request that disarms Motion.
    Disarm,
    /// Bytes already encoded by the scenario author.
    Bytes(Vec<u8>),
}

/// `p` is the intent of `owner` with the given velocities.
pub open spec fn intent_is(p: Payload, owner: Seq<char>, linear: int, angular: int) -> bool {
    match p {
        Payload::Intent(i) => {
            &&& i.owner_id@ == owner
            &&& i.linear_x_mm_per_s == linear
            &&& i.angular_z_mrad_per_s == angular
        },
        _ => false,
    }
}

/// `p` is an intent that commands zero velocity.
pub open spec fn is_stop_intent(p: Payload) -> bool {
    match p {
        Payload::Intent(i) => i.linear_x_mm_per_s == 0 && i.angular_z_mrad_per_s == 0,
        _ => false,
    }
}

/// `p` is a manual-mode arm request of `owner`.
pub open spec fn arm_is(p: Payload, owner: Seq<char>) -> bool {
    match p {
        Payload::Arm { mode, owner_id } => mode == ControlMode::Manual && owner_id@ == owner,
        _ => false,
    }
}

/// `p` is exactly the given bytes.
pub open spec fn bytes_are(p: Payload, bytes: Seq<u8>) -> bool {
    match p {
        Payload::Bytes(b) => b@ == bytes,
        _ => false,
    }
}

/// The motion intent of `owner_id` with the given velocities.
pub fn motion_intent(owner_id: &str, linear_x_mm_per_s: i64, angular_z_mrad_per_s: i64) -> (p:
    Payload)
    ensures
        intent_is(p, owner_id@, linear_x_mm_per_s as int, angular_z_mrad_per_s as int),
{
    Payload::Intent(
        MotionIntent { owner_id: owner_id.to_owned(), linear_x_mm_per_s, angular_z_mrad_per_s },
    )
}

/// The request that arms Motion in manual mode for `owner_id`.
pub fn arm_request(owner_id: &str) -> (p: Payload)
    ensures
        arm_is(p, owner_id@),
{
    Payload::Arm { mode: ControlMode::Manual, owner_id: owner_id.to_owned() }
}

/// The request that disarms Motion.
pub fn disarm_request() -> (p: Payload)
    ensures
        p is Disarm,
{
    Payload::Disarm
}

} // verus!
