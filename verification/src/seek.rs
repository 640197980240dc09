//! Where a seek leads: the position asked for, from the mode, the amount,
//! the current position and the length of the track. All in whole seconds.
use crate::protocol::SeekMode;
use vstd::prelude::*;

verus! {

/// The absolute value of `x`.
pub open spec fn magnitude(x: int) -> nat {
    if x >= 0 {
        x as nat
    } else {
        (-x) as nat
    }
}

/// `percent` hundredths of `duration`, rounded down.
pub open spec fn percent_of(duration: nat, percent: nat) -> nat {
    duration * percent / 100
}

/// `x`, or 0 where `x` is negative.
pub open spec fn not_below_zero(x: int) -> nat {
    if x >= 0 {
        x as nat
    } else {
        0
    }
}

/// The position that a seek asks for, or `None` where the seek does nothing.
///
/// - `Absolute`: `dt` seconds from the start.
/// - `Relative`: `dt` seconds from the current position.
/// - `AbsolutePercent`: `dt` percent of the length.
/// - `RelativePercent`: `dt` percent of the length from the current
///   position; nothing on media of length zero.
///
/// A position before the start is the start.
pub open spec fn seek_target(mode: SeekMode, dt: int, position: nat, duration: nat) -> Option<
    nat,
> {
    match mode {
        SeekMode::Absolute => Some(not_below_zero(dt)),
        SeekMode::Relative => Some(not_below_zero(position + dt)),
        SeekMode::AbsolutePercent => Some(
            if dt >= 0 {
                percent_of(duration, magnitude(dt))
            } else {
                0
            },
        ),
        SeekMode::RelativePercent => if duration == 0 {
            None
        } else if dt >= 0 {
            Some(position + percent_of(duration, magnitude(dt)))
        } else {
            Some(not_below_zero(position - percent_of(duration, magnitude(dt))))
        },
    }
}

/// `x`, or the largest `u64` where `x` is beyond it.
pub open spec fn saturated(x: nat) -> u64 {
    if x > u64::MAX {
        u64::MAX
    } else {
        x as u64
    }
}

/// The absolute value of `dt`.
fn abs_of(dt: i64) -> (r: u64)
    ensures
        r == magnitude(dt as int),
{
    if dt >= 0 {
        dt as u64
    } else if dt == i64::MIN {
        0x8000_0000_0000_0000u64
    } else {
        (-dt) as u64
    }
}

/// `percent` hundredths of `duration`, rounded down.
fn percent_step(duration: u64, percent: u64) -> (r: u128)
    ensures
        r == percent_of(duration as nat, percent as nat),
        r <= 0xffff_ffff_ffff_ffff * 0xffff_ffff_ffff_ffff,
{
    assert(duration as int * percent as int <= 0xffff_ffff_ffff_ffff * 0xffff_ffff_ffff_ffff)
        by (nonlinear_arith)
        requires
            0 <= duration as int <= 0xffff_ffff_ffff_ffff,
            0 <= percent as int <= 0xffff_ffff_ffff_ffff,
    ;
    let product: u128 = (duration as u128) * (percent as u128);
    product / 100
}

/// `x`, or the largest `u64` where `x` is beyond it.
fn saturate(x: u128) -> (r: u64)
    ensures
        r == saturated(x as nat),
{
    if x > u64::MAX as u128 {
        u64::MAX
    } else {
        x as u64
    }
}

/// The position, in seconds, that a seek by `dt` in `mode` asks for on a
/// track of `duration` seconds played up to `position`; `None` where the seek
/// does nothing. A position that no `u64` holds is given as the largest.
pub fn target_position(mode: SeekMode, dt: i64, position: u64, duration: u64) -> (r: Option<u64>)
    ensures
        r == match seek_target(mode, dt as int, position as nat, duration as nat) {
            Some(t) => Some(saturated(t)),
            None => None,
        },
{
    match mode {
        SeekMode::Absolute => {
            if dt >= 0 {
                Some(dt as u64)
            } else {
                Some(0)
            }
        },
        SeekMode::Relative => {
            let amount: u64 = abs_of(dt);
            if dt >= 0 {
                Some(saturate(position as u128 + amount as u128))
            } else if amount >= position {
                Some(0)
            } else {
                Some(position - amount)
            }
        },
        SeekMode::AbsolutePercent => {
            if dt >= 0 {
                Some(saturate(percent_step(duration, abs_of(dt))))
            } else {
                Some(0)
            }
        },
        SeekMode::RelativePercent => {
            if duration == 0 {
                None
            } else {
                let step: u128 = percent_step(duration, abs_of(dt));
                if dt >= 0 {
                    Some(saturate(position as u128 + step))
                } else if step >= position as u128 {
                    Some(0)
                } else {
                    Some(position - (step as u64))
                }
            }
        },
    }
}

/// Seeking to no percent of a track asks for its start, and seeking to all
/// of it asks for its end; seeking to any share up to the whole never asks
/// for a position beyond the end.
pub proof fn lemma_absolute_percent_bounds(dt: int, position: nat, duration: nat)
    ensures
        seek_target(SeekMode::AbsolutePercent, 0, position, duration) == Some(0nat),
        seek_target(SeekMode::AbsolutePercent, 100, position, duration) == Some(duration),
        0 <= dt <= 100 ==> seek_target(SeekMode::AbsolutePercent, dt, position, duration)->0
            <= duration,
{
    assert(duration * 0 / 100 == 0);
    assert(duration * 100 / 100 == duration);
    if 0 <= dt <= 100 {
        assert(duration * magnitude(dt) <= duration * 100) by (nonlinear_arith)
            requires
                0 <= magnitude(dt) <= 100,
                0 <= duration,
        ;
    }
}

} // verus!
