//! The computing parts of the pomodoro timer: entering a number with the
//! mouse wheel, and the minutes left on a running timer.

use vstd::prelude::*;
use crate::api::MouseButton;

verus! {

/// What a click does while a number is being entered.
#[derive(Debug, Clone, Copy, PartialEq, Eq, Structural)]
pub enum NumberInput {
    /// The number is accepted.
    Done(u64),
    /// Entry goes on with this number.
    Editing(u64),
}

/// One click while entering a number: a left click accepts it, the wheel
/// moves it up or down (never below zero nor past the largest `u64`), other
/// buttons leave it.
pub fn read_number_step(number: u64, button: MouseButton) -> (r: NumberInput)
    ensures
        r == match button {
            MouseButton::Left => NumberInput::Done(number),
            MouseButton::WheelUp => NumberInput::Editing(if number == u64::MAX { number } else { (number + 1) as u64 }),
            MouseButton::WheelDown => NumberInput::Editing(if number == 0 { 0 } else { (number - 1) as u64 }),
            _ => NumberInput::Editing(number),
        },
{
    match button {
        MouseButton::Left => NumberInput::Done(number),
        MouseButton::WheelUp => NumberInput::Editing(number.saturating_add(1)),
        MouseButton::WheelDown => NumberInput::Editing(number.saturating_sub(1)),
        _ => NumberInput::Editing(number),
    }
}

/// Whole minutes shown for `left_secs` seconds left, rounded up.
pub fn minutes_left(left_secs: u64) -> (r: u64)
    ensures
        r * 60 >= left_secs,
        left_secs > 0 ==> (r - 1) * 60 < left_secs,
        left_secs == 0 ==> r == 0,
{
    let r = left_secs / 60 + if left_secs % 60 == 0 { 0 } else { 1 };
    r
}

/// The seconds of a phase of `minutes` minutes; `None` when that does not fit.
pub fn phase_secs(minutes: u64) -> (r: Option<u64>)
    ensures
        minutes * 60 <= u64::MAX ==> r == Some((minutes * 60) as u64),
        minutes * 60 > u64::MAX ==> r is None,
{
    minutes.checked_mul(60)
}

/// Whether the pomodoro numbered `index` (from zero) of `count` is the last,
/// after which no break follows.
pub fn is_last_pomodoro(index: u64, count: u64) -> (r: bool)
    requires
        index < count,
    ensures
        r == (index + 1 == count),
{
    index == count - 1
}

/// A timed phase of a session.
#[derive(Debug, Clone, Copy, PartialEq, Eq, Structural)]
pub enum Phase {
    Task,
    Break,
}

/// Where a running session stands: the phase of pomodoro `index` (from
/// zero) of `count`.
#[derive(Debug, Clone, Copy, PartialEq, Eq, Structural)]
pub struct Session {
    pub index: u64,
    pub count: u64,
    pub phase: Phase,
}

impl Session {
    pub open spec fn wf(self) -> bool {
        self.index < self.count
    }

    /// The first task of a session of `count` pomodoros; `None` for none.
    pub fn start(count: u64) -> (r: Option<Session>)
        ensures
            count == 0 ==> r is None,
            count > 0 ==> r == Some(Session { index: 0, count, phase: Phase::Task }),
            r matches Some(s) ==> s.wf(),
    {
        if count == 0 {
            None
        } else {
            Some(Session { index: 0, count, phase: Phase::Task })
        }
    }

    /// The phase after this one has run out and its message was
    /// acknowledged: a task is followed by a break and a break by the next
    /// task, except that the session ends after the last pomodoro.
    pub fn next(self) -> (r: Option<Session>)
        requires
            self.wf(),
        ensures
            self.index + 1 == self.count ==> r is None,
            self.phase == Phase::Task && self.index + 1 < self.count ==> r == Some(Session { phase: Phase::Break, ..self }),
            self.phase == Phase::Break && self.index + 1 < self.count ==> r == Some(Session { index: (self.index + 1) as u64, phase: Phase::Task, ..self }),
            r matches Some(s) ==> s.wf(),
    {
        match self.phase {
            Phase::Task => {
                if is_last_pomodoro(self.index, self.count) {
                    None
                } else {
                    Some(Session { phase: Phase::Break, ..self })
                }
            },
            Phase::Break => {
                if is_last_pomodoro(self.index, self.count) {
                    None
                } else {
                    Some(Session { index: self.index + 1, phase: Phase::Task, ..self })
                }
            },
        }
    }
}

/// What a countdown shows at a tick.
#[derive(Debug, Clone, Copy, PartialEq, Eq, Structural)]
pub enum Tick {
    /// The phase has run out.
    Expired,
    /// Whole minutes left, rounded up.
    Remaining(u64),
}

/// A tick of a phase of `len_secs` seconds, `elapsed_secs` after it began.
pub fn countdown_tick(len_secs: u64, elapsed_secs: u64) -> (r: Tick)
    ensures
        elapsed_secs >= len_secs ==> r == Tick::Expired,
        elapsed_secs < len_secs ==> (r matches Tick::Remaining(m) && m * 60 >= len_secs - elapsed_secs
            && (m - 1) * 60 < len_secs - elapsed_secs),
{
    if elapsed_secs >= len_secs {
        Tick::Expired
    } else {
        Tick::Remaining(minutes_left(len_secs - elapsed_secs))
    }
}

/// Whether a click during a countdown stops the session: a middle click.
pub fn stops_session(button: MouseButton) -> (r: bool)
    ensures
        r == (button == MouseButton::Middle),
{
    match button {
        MouseButton::Middle => true,
        _ => false,
    }
}

} // verus!
