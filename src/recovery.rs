//! Error recovery: the decisions of the retry loop that turns repeated
//! failures of an operation into an interactive degraded display. The caller
//! runs the loop: it performs the operation, sleeps and receives events, and
//! asks this module what to buffer and what to do next.

use vstd::prelude::*;
use crate::api::{BlockEvent, Command, CommonApi, MouseButton, State, has_room, same_but_buffer};

verus! {

/// State of one recovering invocation.
#[derive(Debug, Clone, Copy, PartialEq, Eq, Structural)]
pub struct Recovery {
    /// The full error text is shown in full screen.
    pub focused: bool,
    /// The operation has failed at least once.
    pub been_err: bool,
    /// When the next attempt is due, in milliseconds on the caller's clock.
    pub retry_at: u64,
}

/// What the loop does after waking while degraded.
#[derive(Debug, Clone, Copy, PartialEq, Eq, Structural)]
pub enum RecoveryAction {
    /// Attempt the operation again.
    Retry,
    /// Buffer the degraded display again, flush, and keep waiting.
    Redraw,
    /// Keep waiting on the same deadline.
    Wait,
}

/// Commands buffered when an attempt fails: the display is preserved on the
/// first failure only, then the block turns critical and visible.
pub open spec fn failure_cmds(been_err: bool) -> Seq<Command> {
    let start = if been_err {
        Seq::<Command>::empty()
    } else {
        seq![Command::Preserve]
    };
    start + seq![Command::SetState(State::Critical), Command::Show]
}

/// The text shown while collapsed: the configured error format if any,
/// else the caller's message.
pub open spec fn short_text(error_format: Option<String>, msg: String) -> String {
    match error_format {
        Some(f) => f,
        None => msg,
    }
}

/// Commands that draw the degraded display.
pub open spec fn draw_cmds(focused: bool, err_text: String, short: String) -> Seq<Command> {
    if focused {
        seq![Command::SetText(err_text), Command::SetFullScreen(true)]
    } else {
        seq![Command::SetText(short), Command::SetFullScreen(false)]
    }
}

/// Commands buffered on success: the pre-failure display comes back only
/// after a failure.
pub open spec fn success_cmds(been_err: bool) -> Seq<Command> {
    if been_err {
        seq![Command::SetFullScreen(false), Command::Restore]
    } else {
        Seq::<Command>::empty()
    }
}

/// The action on waking at `now` with `event` received, if any. The deadline
/// wins a tie with an event; a left click toggles the focus; anything else is
/// ignored.
pub open spec fn wake_action(rec: Recovery, now: u64, event: Option<BlockEvent>) -> RecoveryAction {
    if now >= rec.retry_at {
        RecoveryAction::Retry
    } else if is_left_click(event) {
        RecoveryAction::Redraw
    } else {
        RecoveryAction::Wait
    }
}

pub open spec fn is_left_click(event: Option<BlockEvent>) -> bool {
    match event {
        Some(BlockEvent::Click(c)) => c.button == MouseButton::Left,
        _ => false,
    }
}

/// The state after waking: only a left click that came before the deadline
/// changes it, by toggling the focus.
pub open spec fn wake_state(rec: Recovery, now: u64, event: Option<BlockEvent>) -> Recovery {
    if wake_action(rec, now, event) == RecoveryAction::Redraw {
        Recovery { focused: !rec.focused, ..rec }
    } else {
        rec
    }
}

/// The deadline `interval` after `now`, saturating at the clock's end.
pub open spec fn deadline(now: u64, interval: u64) -> u64 {
    if now + interval > u64::MAX {
        u64::MAX
    } else {
        (now + interval) as u64
    }
}

/// Commands buffered by `n` failed attempts in a row, each followed by the
/// collapsed degraded display.
pub open spec fn degraded_run(n: nat, been_err: bool, err_text: String, short: String) -> Seq<Command>
    decreases n,
{
    if n == 0 {
        Seq::<Command>::empty()
    } else {
        failure_cmds(been_err) + draw_cmds(false, err_text, short) + degraded_run((n - 1) as nat, true, err_text, short)
    }
}

/// Four commands from `start` on draw one collapsed degraded display.
pub open spec fn collapsed_at(s: Seq<Command>, start: int, short: String) -> bool {
    &&& s[start] == Command::SetState(State::Critical)
    &&& s[start + 1] == Command::Show
    &&& s[start + 2] == Command::SetText(short)
    &&& s[start + 3] == Command::SetFullScreen(false)
}

proof fn lemma_run_without_preserve(n: nat, err_text: String, short: String)
    ensures
        forall|i: int| 0 <= i < degraded_run(n, true, err_text, short).len()
            ==> !(#[trigger] degraded_run(n, true, err_text, short)[i] is Preserve),
    decreases n,
{
    if n > 0 {
        lemma_run_without_preserve((n - 1) as nat, err_text, short);
        let head = failure_cmds(true) + draw_cmds(false, err_text, short);
        let tail = degraded_run((n - 1) as nat, true, err_text, short);
        assert(degraded_run(n, true, err_text, short) =~= head + tail);
        assert forall|i: int| 0 <= i < (head + tail).len() implies !((head + tail)[i] is Preserve) by {
            if i >= head.len() {
                assert((head + tail)[i] == tail[i - head.len()]);
            }
        }
    }
}

/// An operation that fails `n` times and then succeeds buffers: Preserve
/// once, first; for each failure critical severity, visibility, the short
/// text and full screen off; then full screen off and Restore. Preserve
/// occurs nowhere else, whatever `n` is.
pub proof fn lemma_failures_then_success(n: nat, err_text: String, short: String)
    requires
        n >= 1,
    ensures
        ({
            let all = degraded_run(n, false, err_text, short) + success_cmds(true);
            &&& all.len() == 4 * n + 3
            &&& all[0] is Preserve
            &&& forall|i: int| 1 <= i < all.len() ==> !(#[trigger] all[i] is Preserve)
            &&& forall|k: int| 0 <= k < n ==> #[trigger] collapsed_at(all, 1 + 4 * k, short)
            &&& all[4 * n as int + 1] == Command::SetFullScreen(false)
            &&& all[4 * n as int + 2] == Command::Restore
        }),
{
    lemma_run_shape((n - 1) as nat, err_text, short);
    lemma_run_without_preserve((n - 1) as nat, err_text, short);
    let first = failure_cmds(false) + draw_cmds(false, err_text, short);
    let rest = degraded_run((n - 1) as nat, true, err_text, short);
    let all = degraded_run(n, false, err_text, short) + success_cmds(true);
    assert(all =~= first + rest + success_cmds(true));
    assert(first.len() == 5);
    assert forall|i: int| 1 <= i < all.len() implies !(#[trigger] all[i] is Preserve) by {
        if i >= 5 && i < 5 + rest.len() {
            assert(all[i] == rest[i - 5]);
        }
    }
    assert forall|k: int| 0 <= k < n implies #[trigger] collapsed_at(all, 1 + 4 * k, short) by {
        if k > 0 {
            assert(collapsed_at(rest, 4 * (k - 1), short));
            assert(all[1 + 4 * k] == rest[4 * (k - 1)]);
            assert(all[2 + 4 * k] == rest[4 * (k - 1) + 1]);
            assert(all[3 + 4 * k] == rest[4 * (k - 1) + 2]);
            assert(all[4 + 4 * k] == rest[4 * (k - 1) + 3]);
        }
    }
}

proof fn lemma_run_shape(n: nat, err_text: String, short: String)
    ensures
        ({
            let run = degraded_run(n, true, err_text, short);
            &&& run.len() == 4 * n
            &&& forall|k: int| 0 <= k < n ==> #[trigger] collapsed_at(run, 4 * k, short)
        }),
    decreases n,
{
    if n > 0 {
        lemma_run_shape((n - 1) as nat, err_text, short);
        let head = failure_cmds(true) + draw_cmds(false, err_text, short);
        let tail = degraded_run((n - 1) as nat, true, err_text, short);
        let run = degraded_run(n, true, err_text, short);
        assert(run =~= head + tail);
        assert(head.len() == 4);
        assert forall|k: int| 0 <= k < n implies #[trigger] collapsed_at(run, 4 * k, short) by {
            if k > 0 {
                assert(collapsed_at(tail, 4 * (k - 1), short));
                assert(run[4 * k] == tail[4 * (k - 1)]);
                assert(run[4 * k + 1] == tail[4 * (k - 1) + 1]);
                assert(run[4 * k + 2] == tail[4 * (k - 1) + 2]);
                assert(run[4 * k + 3] == tail[4 * (k - 1) + 3]);
            }
        }
    }
}

/// A left click while degraded and before the deadline switches between the
/// collapsed and the full-screen display of the raw error text and leaves the
/// deadline where it was; the retry then still fires at that deadline.
pub proof fn lemma_click_keeps_deadline(rec: Recovery, now: u64, later: u64, event: Option<BlockEvent>, err_text: String, short: String)
    requires
        now < rec.retry_at,
        is_left_click(event),
        later >= rec.retry_at,
    ensures
        wake_action(rec, now, event) == RecoveryAction::Redraw,
        wake_state(rec, now, event).retry_at == rec.retry_at,
        wake_state(rec, now, event).focused == !rec.focused,
        !rec.focused ==> draw_cmds(wake_state(rec, now, event).focused, err_text, short)
            == seq![Command::SetText(err_text), Command::SetFullScreen(true)],
        wake_action(wake_state(rec, now, event), later, None) == RecoveryAction::Retry,
{
}

impl Recovery {
    /// The state before the first attempt.
    pub fn new() -> (r: Recovery)
        ensures
            !r.focused,
            !r.been_err,
            r.retry_at == 0,
    {
        Recovery { focused: false, been_err: false, retry_at: 0 }
    }

    /// Decides what to do on waking at `now` while degraded, with the event
    /// that arrived, if any.
    pub fn on_wake(&mut self, now: u64, event: Option<BlockEvent>) -> (r: RecoveryAction)
        ensures
            r == wake_action(*old(self), now, event),
            *final(self) == wake_state(*old(self), now, event),
    {
        if now >= self.retry_at {
            return RecoveryAction::Retry;
        }
        match event {
            Some(BlockEvent::Click(c)) => {
                if c.button == MouseButton::Left {
                    self.focused = !self.focused;
                    RecoveryAction::Redraw
                } else {
                    RecoveryAction::Wait
                }
            },
            _ => RecoveryAction::Wait,
        }
    }
}

impl CommonApi {
    /// Records a failed attempt made at `now`: buffers the failure commands
    /// and schedules the retry one error interval later.
    pub fn on_failure(&mut self, rec: &mut Recovery, now: u64)
        requires
            has_room(old(self).cmd_buf, 3),
        ensures
            final(self).commands() == old(self).commands() + failure_cmds(old(rec).been_err),
            same_but_buffer(old(self), final(self)),
            final(rec).been_err,
            final(rec).focused == old(rec).focused,
            final(rec).retry_at == deadline(now, old(self).error_interval),
    {
        if !rec.been_err {
            self.preserve();
            rec.been_err = true;
        }
        rec.retry_at = now.saturating_add(self.error_interval);
        self.set_state(State::Critical);
        self.show();
    }

    /// Buffers the degraded display: the raw error text in full screen when
    /// focused, else the short text.
    pub fn draw_degraded(&mut self, rec: &Recovery, err_text: String, msg: String)
        requires
            has_room(old(self).cmd_buf, 2),
        ensures
            final(self).commands() == old(self).commands() + draw_cmds(rec.focused, err_text, short_text(old(self).error_format, msg)),
            same_but_buffer(old(self), final(self)),
    {
        if rec.focused {
            self.set_text(err_text);
            self.set_full_screen(true);
        } else {
            let short = match &self.error_format {
                Some(f) => f.clone(),
                None => msg,
            };
            self.set_text(short);
            self.set_full_screen(false);
        }
    }

    /// Records a successful attempt: after a failure the pre-failure display
    /// is restored; on a first-attempt success nothing is buffered.
    pub fn on_success(&mut self, rec: &Recovery)
        requires
            has_room(old(self).cmd_buf, 2),
        ensures
            final(self).commands() == old(self).commands() + success_cmds(rec.been_err),
            same_but_buffer(old(self), final(self)),
    {
        if rec.been_err {
            self.set_full_screen(false);
            self.restore();
        }
    }
}

} // verus!
