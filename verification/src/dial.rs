//! The clock dial: the rays drawn for the hands and tick marks, their order
//! in the clock buffer, and where in that buffer each part is written.

use vstd::prelude::*;

verus! {

/// Bytes of one clock ray: start, end, direction and half thickness, each a
/// single-precision scalar.
pub const CLOCK_RAY_BYTES: u64 = 16;

/// Rays for the hands (hour, minute, second), at the start of the buffer.
pub const HAND_RAY_COUNT: u64 = 3;

/// Hours on the dial, each with one hour tick.
pub const HOURS_ON_DIAL: u32 = 12;

/// Minute ticks between one hour mark and the next, the one under the hour
/// mark included.
pub const MINUTES_PER_HOUR_MARK: u32 = 5;

/// Tick rays: for each hour an hour tick and five minute ticks.
pub const TICK_RAY_COUNT: u64 = 72;

/// All rays of the clock buffer, drawn as instances.
pub const CLOCK_RAY_COUNT: u32 = 75;

/// Vertices of the strip that draws one clock ray.
pub const CLOCK_RAY_VERTICES: u32 = 4;

/// Bytes of the clock buffer.
pub const CLOCK_BUFFER_SIZE: u64 = CLOCK_RAY_BYTES * 75;

/// Byte offset in the clock buffer at which the tick rays are written, after
/// the hand rays.
pub const TICK_RAYS_OFFSET: u64 = CLOCK_RAY_BYTES * HAND_RAY_COUNT;

/// A tick mark of the dial, at the minute `minute` (`0..60`) of the dial.
#[derive(Clone, Copy, Debug, PartialEq, Eq, Structural)]
pub struct TickMark {
    pub minute: u32,
    /// An hour tick (long and thick) rather than a minute tick.
    pub is_hour: bool,
}

/// The tick at position `k` of the tick rays: six per hour `k / 6`, first
/// the hour tick, then the minute ticks of the five minutes from that hour
/// mark on.
pub open spec fn spec_tick(k: int) -> TickMark {
    if k % 6 == 0 {
        TickMark { minute: ((k / 6) * 5) as u32, is_hour: true }
    } else {
        TickMark { minute: ((k / 6) * 5 + k % 6 - 1) as u32, is_hour: false }
    }
}

/// Position among the tick rays of the minute tick of minute `m`.
pub open spec fn minute_tick_position(m: int) -> int {
    6 * (m / 5) + m % 5 + 1
}

/// The tick rays of the dial, in the order they are written to the clock
/// buffer.
pub fn tick_marks() -> (r: Vec<TickMark>)
    ensures
        r.len() == TICK_RAY_COUNT,
        forall|k: int| 0 <= k < r.len() ==> #[trigger] r[k] == spec_tick(k),
{
    let mut r: Vec<TickMark> = Vec::new();
    let mut i: u32 = 0;
    while i < HOURS_ON_DIAL
        invariant
            i <= HOURS_ON_DIAL,
            r.len() == 6 * i,
            forall|k: int| 0 <= k < r.len() ==> #[trigger] r[k] == spec_tick(k),
        decreases HOURS_ON_DIAL - i,
    {
        let hour_mark = i * MINUTES_PER_HOUR_MARK;
        r.push(TickMark { minute: hour_mark, is_hour: true });
        let mut j: u32 = 0;
        while j < MINUTES_PER_HOUR_MARK
            invariant
                i < HOURS_ON_DIAL,
                hour_mark == i * 5,
                j <= MINUTES_PER_HOUR_MARK,
                r.len() == 6 * i + 1 + j,
                forall|k: int| 0 <= k < r.len() ==> #[trigger] r[k] == spec_tick(k),
            decreases MINUTES_PER_HOUR_MARK - j,
        {
            r.push(TickMark { minute: hour_mark + j, is_hour: false });
            j = j + 1;
        }
        i = i + 1;
    }
    r
}

/// Every minute of the dial has exactly one minute tick: the minute tick of
/// minute `m` stands at `minute_tick_position(m)`, and any minute tick for
/// `m` stands there.
pub proof fn lemma_one_minute_tick_per_minute(m: int, k: int)
    requires
        0 <= m < 60,
    ensures
        minute_tick_position(m) == 6 * (m / 5) + m % 5 + 1,
        0 <= 6 * (m / 5) + m % 5 + 1 < 72,
        spec_tick(6 * (m / 5) + m % 5 + 1) == (TickMark { minute: m as u32, is_hour: false }),
        0 <= k < 72 && spec_tick(k) == (TickMark { minute: m as u32, is_hour: false }) ==> k == 6
            * (m / 5) + m % 5 + 1,
{
}

/// The hour ticks stand every sixth ray, at the minutes `0, 5, ..., 55`, and
/// every tick lies on the dial.
pub proof fn lemma_hour_ticks(k: int)
    requires
        0 <= k < 72,
    ensures
        spec_tick(k).is_hour == (k % 6 == 0),
        spec_tick(k).is_hour ==> spec_tick(k).minute == 5 * (k / 6),
        spec_tick(k).minute < 60,
{
}

/// The hand rays and tick rays fill the clock buffer exactly: the ticks
/// start where the hands end and end where the buffer ends, and all of its
/// rays are drawn.
pub proof fn lemma_rays_fill_clock_buffer()
    ensures
        HAND_RAY_COUNT + TICK_RAY_COUNT == CLOCK_RAY_COUNT,
        TICK_RAY_COUNT == HOURS_ON_DIAL * (1 + MINUTES_PER_HOUR_MARK),
        TICK_RAYS_OFFSET + TICK_RAY_COUNT * CLOCK_RAY_BYTES == CLOCK_BUFFER_SIZE,
        CLOCK_BUFFER_SIZE == CLOCK_RAY_COUNT * CLOCK_RAY_BYTES,
{
}

} // verus!
