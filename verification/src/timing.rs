//! Lane quantisation and spawn times.
//!
//! Both computations are pure functions of plain integers.  Their meaning is
//! given by the spec functions [`column_of`] and [`spawn_time_of`]; the laws
//! further down are stated over those.

use vstd::prelude::*;
use crate::error::ConfigurationError;

verus! {

/// Width of the coordinate space in which a chart places its notes.
pub const COORDINATE_SPACE_WIDTH: i64 = 512;

/// Distance in pixels between the top of the playfield and the judgment line.
pub const JUDGMENT_OFFSET: i64 = 40;

/// The lane that holds the horizontal coordinate `raw_x` on a playfield of
/// `lane_count` lanes: `floor(raw_x * lane_count / 512)`, held inside
/// `0 ..= lane_count - 1` for coordinates that lie outside the coordinate
/// space.
pub open spec fn column_of(raw_x: int, lane_count: int) -> int {
    let lane = (raw_x * lane_count) / (COORDINATE_SPACE_WIDTH as int);
    if lane < 0 {
        0
    } else if lane >= lane_count {
        lane_count - 1
    } else {
        lane
    }
}

/// The distance of `x` from zero.
pub open spec fn magnitude(x: int) -> int {
    if x < 0 {
        -x
    } else {
        x
    }
}

/// `n / d` rounded to the nearest integer, halves upwards, for `n` that is
/// not negative and a positive `d`.
pub open spec fn rounded_quotient(n: int, d: int) -> int {
    if 2 * (n % d) >= d {
        n / d + 1
    } else {
        n / d
    }
}

/// `n / d` rounded to the nearest integer, halves away from zero.
pub open spec fn round_div(n: int, d: int) -> int {
    let steps = rounded_quotient(magnitude(n), magnitude(d));
    if (n < 0) != (d < 0) {
        -steps
    } else {
        steps
    }
}

/// Milliseconds that a note needs from the top of a playfield of the given
/// height down to the judgment line, at `scroll_speed` pixels per second.
pub open spec fn travel_time(playfield_height: int, scroll_speed: int) -> int {
    round_div((playfield_height - JUDGMENT_OFFSET as int) * 1000, scroll_speed)
}

/// The moment at which a note that is hit at `hit_time` has to appear.
pub open spec fn spawn_time_of(hit_time: int, playfield_height: int, scroll_speed: int) -> int {
    hit_time - travel_time(playfield_height, scroll_speed)
}

/// What [`compute_spawn_time`] returns.
pub open spec fn checked_spawn_time(
    hit_time: int,
    playfield_height: int,
    scroll_speed: int,
) -> Result<i64, ConfigurationError> {
    let spawn = spawn_time_of(hit_time, playfield_height, scroll_speed);
    if scroll_speed == 0 {
        Err(ConfigurationError::ZeroScrollSpeed)
    } else if i64::MIN <= spawn <= i64::MAX {
        Ok(spawn as i64)
    } else {
        Err(ConfigurationError::SpawnTimeOutOfRange)
    }
}

/// Quantises a horizontal coordinate into a lane index.
pub fn compute_column(raw_x: i64, lane_count: i64) -> (column: i64)
    requires
        lane_count >= 1,
    ensures
        column == column_of(raw_x as int, lane_count as int),
        0 <= column < lane_count,
{
    if raw_x < 0 {
        assert(raw_x * lane_count < 0) by (nonlinear_arith)
            requires
                raw_x < 0,
                lane_count >= 1,
        ;
        0
    } else if raw_x >= COORDINATE_SPACE_WIDTH {
        assert(raw_x * lane_count >= 512 * lane_count) by (nonlinear_arith)
            requires
                raw_x >= 512,
                lane_count >= 1,
        ;
        lane_count - 1
    } else {
        assert(0 <= raw_x * lane_count < 512 * lane_count) by (nonlinear_arith)
            requires
                0 <= raw_x < 512,
                lane_count >= 1,
        ;
        let wide: i128 = (raw_x as i128) * (lane_count as i128);
        (wide / 512) as i64
    }
}

/// Computes when a note has to appear so that it reaches the judgment line
/// at `hit_time`.  A scroll speed of zero is refused; so is a spawn time
/// that 64 bits cannot hold.
pub fn compute_spawn_time(hit_time: i64, playfield_height: i64, scroll_speed: i64) -> (spawn:
    Result<i64, ConfigurationError>)
    ensures
        spawn == checked_spawn_time(hit_time as int, playfield_height as int, scroll_speed as int),
        scroll_speed == 0 <==> spawn == Err::<i64, ConfigurationError>(
            ConfigurationError::ZeroScrollSpeed,
        ),
        spawn matches Ok(moment) ==> moment == spawn_time_of(
            hit_time as int,
            playfield_height as int,
            scroll_speed as int,
        ),
{
    if scroll_speed == 0 {
        return Err(ConfigurationError::ZeroScrollSpeed);
    }
    let distance: i128 = playfield_height as i128 - JUDGMENT_OFFSET as i128;
    let reversed: bool = (distance < 0) != (scroll_speed < 0);
    let span: u128 = if distance < 0 {
        (-distance) as u128
    } else {
        distance as u128
    };
    let speed: u128 = if scroll_speed < 0 {
        (-(scroll_speed as i128)) as u128
    } else {
        scroll_speed as u128
    };
    let way: u128 = span * 1000;
    let whole: u128 = way / speed;
    let steps: u128 = if 2 * (way % speed) >= speed {
        whole + 1
    } else {
        whole
    };
    let travel: i128 = if reversed {
        -(steps as i128)
    } else {
        steps as i128
    };
    let spawn: i128 = hit_time as i128 - travel;
    if spawn < i64::MIN as i128 || spawn > i64::MAX as i128 {
        Err(ConfigurationError::SpawnTimeOutOfRange)
    } else {
        Ok(spawn as i64)
    }
}

/// Every lane index lies on the playfield.
pub proof fn lemma_column_in_range(raw_x: int, lane_count: int)
    requires
        lane_count >= 1,
    ensures
        0 <= column_of(raw_x, lane_count) < lane_count,
{
}

/// Inside the coordinate space the lane index is the plain quotient.
pub proof fn lemma_column_inside_coordinate_space(raw_x: int, lane_count: int)
    requires
        lane_count >= 1,
        0 <= raw_x < COORDINATE_SPACE_WIDTH,
    ensures
        column_of(raw_x, lane_count) == (raw_x * lane_count) / 512,
{
    assert(0 <= raw_x * lane_count < 512 * lane_count) by (nonlinear_arith)
        requires
            0 <= raw_x < 512,
            lane_count >= 1,
    ;
}

/// A note further to the right never lands in a lane further to the left.
pub proof fn lemma_column_monotonic(left_x: int, right_x: int, lane_count: int)
    requires
        lane_count >= 1,
        left_x <= right_x,
    ensures
        column_of(left_x, lane_count) <= column_of(right_x, lane_count),
{
    assert(left_x * lane_count <= right_x * lane_count) by (nonlinear_arith)
        requires
            left_x <= right_x,
            lane_count >= 1,
    ;
}

/// The rounded quotient is a nearest integer: it misses `n / d` by half a
/// unit at most.
pub proof fn lemma_round_div_nearest(n: int, d: int)
    requires
        d != 0,
    ensures
        2 * magnitude(n - round_div(n, d) * d) <= magnitude(d),
{
    let a = magnitude(n);
    let b = magnitude(d);
    let q = rounded_quotient(a, b);
    assert(a == b * (a / b) + a % b && 0 <= a % b < b) by (nonlinear_arith)
        requires
            b > 0,
    ;
    assert(-b <= 2 * (a - q * b) <= b) by (nonlinear_arith)
        requires
            a == b * (a / b) + a % b,
            0 <= a % b < b,
            q == if 2 * (a % b) >= b {
                a / b + 1
            } else {
                a / b
            },
    ;
    let r = round_div(n, d);
    assert(magnitude(n - r * d) == magnitude(a - q * b)) by (nonlinear_arith)
        requires
            a == magnitude(n),
            b == magnitude(d),
            r == if (n < 0) != (d < 0) {
                -q
            } else {
                q
            },
    ;
}

/// A note that is hit later never appears earlier.
pub proof fn lemma_spawn_time_monotonic_in_hit_time(
    earlier_hit: int,
    later_hit: int,
    playfield_height: int,
    scroll_speed: int,
)
    requires
        earlier_hit <= later_hit,
    ensures
        spawn_time_of(earlier_hit, playfield_height, scroll_speed) <= spawn_time_of(
            later_hit,
            playfield_height,
            scroll_speed,
        ),
{
}

/// A faster scroll never lengthens the way down: below a judgment line that
/// lies on the playfield, the travel time does not grow with the scroll
/// speed, and so the spawn time does not fall.
pub proof fn lemma_travel_time_antitone_in_speed(
    hit_time: int,
    playfield_height: int,
    slow: int,
    fast: int,
)
    requires
        0 < slow <= fast,
        playfield_height >= JUDGMENT_OFFSET,
    ensures
        travel_time(playfield_height, fast) <= travel_time(playfield_height, slow),
        spawn_time_of(hit_time, playfield_height, slow) <= spawn_time_of(
            hit_time,
            playfield_height,
            fast,
        ),
{
    let n = (playfield_height - 40) * 1000;
    lemma_rounded_quotient_bounds(n, fast);
    lemma_rounded_quotient_bounds(n, slow);
    let q = rounded_quotient(n, fast);
    let p = rounded_quotient(n, slow);
    assert(q <= p) by (nonlinear_arith)
        requires
            0 <= q,
            2 * fast * q <= 2 * n + fast,
            2 * n + slow < 2 * slow * (p + 1),
            0 < slow <= fast,
            n >= 0,
    ;
}

/// The travel time falls strictly with the scroll speed wherever the two
/// exact travel times, `1000 * distance / speed`, lie a millisecond or more
/// apart.  (Closer than that, both may round to the same millisecond.)
pub proof fn lemma_travel_time_strictly_decreasing_in_speed(
    hit_time: int,
    playfield_height: int,
    slow: int,
    fast: int,
)
    requires
        0 < slow < fast,
        playfield_height > JUDGMENT_OFFSET,
        (playfield_height - JUDGMENT_OFFSET) * 1000 * (fast - slow) >= slow * fast,
    ensures
        travel_time(playfield_height, fast) < travel_time(playfield_height, slow),
        spawn_time_of(hit_time, playfield_height, slow) < spawn_time_of(
            hit_time,
            playfield_height,
            fast,
        ),
{
    let n = (playfield_height - 40) * 1000;
    lemma_rounded_quotient_bounds(n, fast);
    lemma_rounded_quotient_bounds(n, slow);
    let q = rounded_quotient(n, fast);
    let p = rounded_quotient(n, slow);
    assert(q < p) by (nonlinear_arith)
        requires
            0 <= q,
            2 * fast * q <= 2 * n + fast,
            2 * n + slow < 2 * slow * (p + 1),
            0 < slow < fast,
            n * (fast - slow) >= slow * fast,
    ;
}

/// With the judgment line above the top of the playfield the way down is
/// negative, and there the spawn time falls strictly as the scroll speed
/// grows, wherever the two exact travel times lie a millisecond or more
/// apart.
pub proof fn lemma_spawn_time_strictly_decreasing_in_speed(
    hit_time: int,
    playfield_height: int,
    slow: int,
    fast: int,
)
    requires
        0 < slow < fast,
        playfield_height < JUDGMENT_OFFSET,
        (JUDGMENT_OFFSET - playfield_height) * 1000 * (fast - slow) >= slow * fast,
    ensures
        spawn_time_of(hit_time, playfield_height, fast) < spawn_time_of(
            hit_time,
            playfield_height,
            slow,
        ),
{
    let n = (40 - playfield_height) * 1000;
    lemma_rounded_quotient_bounds(n, fast);
    lemma_rounded_quotient_bounds(n, slow);
    let q = rounded_quotient(n, fast);
    let p = rounded_quotient(n, slow);
    assert(q < p) by (nonlinear_arith)
        requires
            0 <= q,
            2 * fast * q <= 2 * n + fast,
            2 * n + slow < 2 * slow * (p + 1),
            0 < slow < fast,
            n * (fast - slow) >= slow * fast,
    ;
}

/// The rounded quotient `q` of `n / d` is the integer with
/// `q - 1/2 <= n / d < q + 1/2`.
proof fn lemma_rounded_quotient_bounds(n: int, d: int)
    requires
        n >= 0,
        d > 0,
    ensures
        0 <= rounded_quotient(n, d),
        2 * d * rounded_quotient(n, d) <= 2 * n + d,
        2 * n + d < 2 * d * (rounded_quotient(n, d) + 1),
{
    assert(n == d * (n / d) + n % d && 0 <= n % d < d && 0 <= n / d) by (nonlinear_arith)
        requires
            n >= 0,
            d > 0,
    ;
    let q = rounded_quotient(n, d);
    assert(2 * d * q <= 2 * n + d < 2 * d * (q + 1)) by (nonlinear_arith)
        requires
            n == d * (n / d) + n % d,
            0 <= n % d < d,
            q == if 2 * (n % d) >= d {
                n / d + 1
            } else {
                n / d
            },
    ;
}

} // verus!
