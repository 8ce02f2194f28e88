//! What the orbiting camera decides: how far its pitch may go.

use vstd::prelude::*;
use crate::scalar::{key_orders_value, Scalar};

verus! {

/// The pattern of the lowest pitch, a tenth of a radian above straight down:
/// `-PI / 2.0 + 0.1` in single precision.
pub const MIN_PITCH_BITS: u32 = 0xbfbc_430e;

/// The pattern of the highest pitch, a tenth of a radian below straight up:
/// `PI / 2.0 - 0.1` in single precision.
pub const MAX_PITCH_BITS: u32 = 0x3fbc_430e;

/// The pitch held between the two bounds; a NaN stays what it is.
pub open spec fn pitch_of(pitch: Scalar) -> Scalar {
    pitch.clamp_of(Scalar { bits: MIN_PITCH_BITS }, Scalar { bits: MAX_PITCH_BITS })
}

/// Keeps the pitch of an orbit away from the poles, where the camera's basis
/// would degenerate: whatever the turn asked for, the pitch that is used lies
/// between the two bounds.
pub fn limit_pitch(pitch: Scalar) -> (limited: Scalar)
    ensures
        limited == pitch_of(pitch),
        pitch.nan() ==> limited == pitch,
        !pitch.nan() ==> !limited.nan() && (Scalar { bits: MIN_PITCH_BITS }).value()
            <= limited.value() <= (Scalar { bits: MAX_PITCH_BITS }).value(),
{
    let low: Scalar = Scalar::from_bits(MIN_PITCH_BITS);
    let high: Scalar = Scalar::from_bits(MAX_PITCH_BITS);
    proof {
        key_orders_value(high, low);
    }
    pitch.clamp(low, high)
}

/// A pitch that is limited once stays where it is when limited again.
pub proof fn limit_pitch_is_idempotent(pitch: Scalar)
    ensures
        pitch_of(pitch_of(pitch)) == pitch_of(pitch),
{
    let low = Scalar { bits: MIN_PITCH_BITS };
    let high = Scalar { bits: MAX_PITCH_BITS };
    key_orders_value(high, low);
    key_orders_value(low, high);
}

} // verus!
