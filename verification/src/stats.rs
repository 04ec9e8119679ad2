//! Score bookkeeping, the speed curve, and the outbound notifications.

use vstd::prelude::*;

use crate::piece::PieceType;
use crate::timer::MoveDownTimer;

verus! {

/// Cumulative points and cleared-line count of the running session.
#[derive(Debug, Clone, Copy, PartialEq, Eq, Structural)]
pub struct Score {
    pub value: u64,
    pub lines: u64,
}

impl Default for Score {
    /// A zero score.
    fn default() -> (s: Self)
        ensures
            s.value == 0,
            s.lines == 0,
    {
        Self { value: 0, lines: 0 }
    }
}

/// The best score seen so far in this process.
#[derive(Debug, Clone, Copy, PartialEq, Eq, Structural)]
pub struct HighScore(pub Score);

/// Notification that a line clear awarded points.
#[derive(Debug, Clone, Copy, PartialEq, Eq, Structural)]
pub struct ScoreEvent(pub Score);

/// Notification that the preview of the upcoming piece changed.
#[derive(Debug, Clone, Copy, PartialEq, Eq, Structural)]
pub struct NextPieceEvent(pub PieceType);

/// Points awarded for clearing `n` full rows in one pass. More than four
/// rows cannot clear at once, but the curve is total anyway.
pub open spec fn line_clear_score(n: int) -> int {
    if n == 1 {
        40
    } else if n == 2 {
        100
    } else if n == 3 {
        300
    } else if n == 4 {
        1200
    } else {
        0
    }
}

/// The points awarded for clearing `lines` full rows in one pass.
pub fn score_for_lines(lines: u64) -> (v: u64)
    ensures
        v == line_clear_score(lines as int),
{
    match lines {
        1 => 40,
        2 => 100,
        3 => 300,
        4 => 1200,
        _ => 0,
    }
}

/// The auto-drop period for a total score: the level is one step per 500
/// points, each step shortens the period by a tenth of a second, and the
/// period never goes below 50 milliseconds.
pub open spec fn drop_period_ms(value: u64) -> int {
    let level = value as int / 500;
    if level >= 10 {
        50
    } else {
        1000 - level * 100
    }
}

/// Compute the auto-drop period for a total score.
pub fn compute_drop_period(value: u64) -> (p: u64)
    ensures
        p == drop_period_ms(value),
{
    let level = value / 500;
    if level >= 10 {
        50
    } else {
        1000 - level * 100
    }
}

/// Fold one score notification into the totals: add the awarded points
/// and lines, take over the high score when beaten, and speed up the
/// auto-drop timer when the new score's period is shorter — restarting
/// its phase so the new cadence begins fresh. The period never lengthens.
pub fn update_stats(
    score: &mut Score,
    high_score: &mut HighScore,
    drop_timer: &mut MoveDownTimer,
    event: &ScoreEvent,
)
    requires
        old(score).value + event.0.value <= u64::MAX,
        old(score).lines + event.0.lines <= u64::MAX,
        old(drop_timer).0.wf(),
    ensures
        final(score).value == old(score).value + event.0.value,
        final(score).lines == old(score).lines + event.0.lines,
        final(high_score).0 == if final(score).value > old(high_score).0.value {
            *final(score)
        } else {
            old(high_score).0
        },
        final(drop_timer).0.wf(),
        final(drop_timer).0.duration_ms == if old(drop_timer).0.duration_ms > drop_period_ms(
            final(score).value,
        ) {
            drop_period_ms(final(score).value)
        } else {
            old(drop_timer).0.duration_ms as int
        },
        old(drop_timer).0.duration_ms > drop_period_ms(final(score).value) ==> final(
            drop_timer
        ).0.elapsed_ms == 0,
        old(drop_timer).0.duration_ms <= drop_period_ms(final(score).value) ==> final(
            drop_timer
        ).0 == old(drop_timer).0,
{
    score.value += event.0.value;
    score.lines += event.0.lines;

    if score.value > high_score.0.value {
        high_score.0 = *score;
    }

    let new_duration = compute_drop_period(score.value);
    if drop_timer.0.duration_ms > new_duration {
        drop_timer.0.set_duration(new_duration);
        drop_timer.0.reset();
    }
}

} // verus!
