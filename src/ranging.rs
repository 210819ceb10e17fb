use vstd::prelude::*;

use crate::echo::{consumed, EchoChannel, ECHO_CAPACITY};

verus! {

/// Echo round-trip time, in microseconds, for one centimetre of distance.
pub const MICROS_PER_CM: u64 = 58;

/// Fixed-point scale of every distance: hundredths of a centimetre.
pub const HUNDREDTHS_PER_CM: u64 = 100;

/// Longest wait, in microseconds after the trigger pulse, for both echo edges.
pub const ECHO_TIMEOUT_MICROS: u64 = 60_000;

/// Width of the trigger pulse, in microseconds.
pub const TRIGGER_PULSE_MICROS: u64 = 10;

/// Command byte that asks a serial sensor for one distance reading.
pub const SERIAL_TRIGGER_BYTE: u8 = 0x55;

/// Why a ranging attempt produced no sample.
#[derive(Debug, Clone, Copy, PartialEq, Eq, Structural)]
pub enum RangingError {
    /// The two echo edges did not arrive in time.
    EchoTimeout,
    /// The second edge is older than the first: the pair is not one echo.
    EdgesOutOfOrder,
    /// The echo is too long for a distance to be represented.
    OutOfRange,
}

/// Distance, in hundredths of a centimetre, of an echo that rose at `start`
/// and fell at `end` (microseconds), rounded down.
pub open spec fn echo_hundredths(start: u64, end: u64) -> int {
    (end - start) * HUNDREDTHS_PER_CM / MICROS_PER_CM as int
}

/// What timing an echo pair gives.
pub open spec fn echo_result(start: u64, end: u64) -> Result<u64, RangingError> {
    if end < start {
        Err(RangingError::EdgesOutOfOrder)
    } else if (end - start) * HUNDREDTHS_PER_CM > u64::MAX {
        Err(RangingError::OutOfRange)
    } else {
        Ok(echo_hundredths(start, end) as u64)
    }
}

/// Converts the two edge timestamps of one echo into a distance.
pub fn echo_distance(start: u64, end: u64) -> (r: Result<u64, RangingError>)
    ensures
        r == echo_result(start, end),
{
    if end < start {
        return Err(RangingError::EdgesOutOfOrder);
    }
    let elapsed: u64 = end - start;
    if elapsed > u64::MAX / HUNDREDTHS_PER_CM {
        return Err(RangingError::OutOfRange);
    }
    Ok(elapsed * HUNDREDTHS_PER_CM / MICROS_PER_CM)
}

/// What one poll of a channel holding `items` returns, `waited` microseconds
/// after the trigger pulse.
pub open spec fn poll_result(items: Seq<u64>, waited: u64) -> Option<Result<u64, RangingError>> {
    if items.len() == ECHO_CAPACITY {
        Some(echo_result(items[0], items[1]))
    } else if waited >= ECHO_TIMEOUT_MICROS {
        Some(Err(RangingError::EchoTimeout))
    } else {
        None
    }
}

/// One poll of the measuring task while it waits for an echo, `waited`
/// microseconds after the trigger pulse.
///
/// Once both edges are in, they are taken and the sample (or the reason there
/// is none) is returned. Before that the channel is left alone, and the result
/// is `None` until the timeout, then `EchoTimeout`. Draining the channel
/// (`EchoChannel::drain`) before each trigger pulse keeps a stray edge from
/// spoiling more than the one sample it falls into.
pub fn poll_echo(channel: &mut EchoChannel, waited: u64) -> (r: Option<Result<u64, RangingError>>)
    requires
        old(channel).wf(),
    ensures
        final(channel).wf(),
        r == poll_result(old(channel)@, waited),
        final(channel)@ == if old(channel)@.len() == ECHO_CAPACITY {
            Seq::<u64>::empty()
        } else {
            old(channel)@
        },
{
    if channel.len() == ECHO_CAPACITY {
        let first = channel.consume();
        let second = channel.consume();
        proof {
            assert(consumed(consumed(old(channel)@)) =~= Seq::<u64>::empty());
        }
        match (first, second) {
            (Some(start), Some(end)) => Some(echo_distance(start, end)),
            _ => None,
        }
    } else if waited >= ECHO_TIMEOUT_MICROS {
        Some(Err(RangingError::EchoTimeout))
    } else {
        None
    }
}

/// Distance, in hundredths of a centimetre, that a serial sensor reports in
/// its two response bytes, most significant first.
pub fn serial_distance(first: u8, second: u8) -> (r: u64)
    ensures
        r == first as int * 256 + second as int,
{
    first as u64 * 256 + second as u64
}

/// A distance rounded to the nearest whole centimetre (halves round up).
pub fn rounded_cms(hundredths: u64) -> (r: u64)
    ensures
        r == (hundredths + HUNDREDTHS_PER_CM / 2) / HUNDREDTHS_PER_CM as int,
{
    let whole: u64 = hundredths / HUNDREDTHS_PER_CM;
    if hundredths % HUNDREDTHS_PER_CM >= HUNDREDTHS_PER_CM / 2 {
        whole + 1
    } else {
        whole
    }
}

} // verus!
