//! The countdown: its start time and remaining span, the commands that move
//! it, and the application status that the timer's buttons drive.

use vstd::prelude::*;

use crate::clock::{
    elapsed_nanos, local_now_nanos, span_whole_seconds, trunc_seconds, valid_instant, valid_span,
    NANOS_PER_SEC,
};

verus! {

pub const BTN_CONFIRM_STR: &'static str = "Confirm";

pub const BTN_RECHOOSE_STR: &'static str = "Re-Choose";

pub const BTN_PAUSE_STR: &'static str = "PAUSE";

pub const BTN_RESUME_STR: &'static str = "RESUME";

/// The lock button's two labels: open, then locked.
pub const BTN_STATUS_CONF: [&'static str; 2] = [BTN_CONFIRM_STR, BTN_RECHOOSE_STR];

/// The pause button's two labels: running, then paused.
pub const BTN_STATUS_PAUSE: [&'static str; 2] = [BTN_PAUSE_STR, BTN_RESUME_STR];

/// The message of a pause that finds no start time.
pub const START_TIME_MISSING_MSG: &'static str = "!! When running Pause Command: Old start time not found!";

#[derive(Clone, Copy, Debug, PartialEq, Eq, Structural)]
pub enum EnOrDis {
    Enable,
    Disable,
}

/// What a button asks of the countdown.
#[derive(Clone, Copy, Debug, PartialEq, Eq, Structural)]
pub enum RuntimeCommand {
    Run,
    Pause,
    Resume,
    Stop,
}

/// Which phase of the cycle is under way.
#[derive(Clone, Copy, Debug, PartialEq, Eq, Structural)]
pub enum StudyRelaxStatus {
    Study,
    Relax,
}

impl StudyRelaxStatus {
    /// The other phase.
    pub open spec fn other(self) -> StudyRelaxStatus {
        match self {
            StudyRelaxStatus::Study => StudyRelaxStatus::Relax,
            StudyRelaxStatus::Relax => StudyRelaxStatus::Study,
        }
    }
}

impl Default for StudyRelaxStatus {
    fn default() -> (status: Self)
        ensures
            status == StudyRelaxStatus::Study,
    {
        StudyRelaxStatus::Study
    }
}

/// The clock face: hours, minutes and seconds shown.
#[derive(Debug)]
pub struct TimerVals {
    pub hr: u8,
    pub min: u8,
    pub sec: u8,
}

impl Default for TimerVals {
    fn default() -> (vals: Self)
        ensures
            vals.hr == 0,
            vals.min == 0,
            vals.sec == 0,
    {
        TimerVals { hr: 0, min: 0, sec: 0 }
    }
}

/// Why a command was refused.
#[derive(Clone, Copy, Debug, PartialEq, Eq, Structural)]
pub enum CountdownError {
    /// A pause found no start time to measure from.
    StartTimeMissing,
}

impl CountdownError {
    /// The text shown for the error.
    pub fn message(&self) -> (text: &'static str)
        ensures
            text == START_TIME_MISSING_MSG,
    {
        match self {
            CountdownError::StartTimeMissing => START_TIME_MISSING_MSG,
        }
    }
}

/// When the running stretch started (a nanosecond timestamp) and the span
/// (in nanoseconds) that the last pause measured.
#[derive(Clone, Copy, Debug, PartialEq, Eq, Structural)]
pub struct CountdownState {
    pub start_time: Option<i128>,
    pub remaining_time: Option<i128>,
}

impl CountdownState {
    /// The start is a representable instant and the span a representable span.
    pub open spec fn wf(self) -> bool {
        &&& (self.start_time matches Some(t) ==> valid_instant(t))
        &&& (self.remaining_time matches Some(d) ==> valid_span(d))
    }

    /// The state that `command`, issued at instant `now`, leaves behind, or
    /// the reason it is refused.
    pub open spec fn after_command(self, command: RuntimeCommand, now: i128) -> Result<
        CountdownState,
        CountdownError,
    > {
        match command {
            RuntimeCommand::Run => Ok(CountdownState { start_time: Some(now), ..self }),
            RuntimeCommand::Pause => match self.start_time {
                None => Err(CountdownError::StartTimeMissing),
                Some(old) => Ok(
                    CountdownState {
                        start_time: Some(now),
                        remaining_time: Some((now - old) as i128),
                    },
                ),
            },
            RuntimeCommand::Resume => Ok(self),
            RuntimeCommand::Stop => Ok(CountdownState { start_time: None, remaining_time: None }),
        }
    }

    /// `after` and `result` are what `command` at `now` gives from `self`:
    /// the new state and `Ok`, or `self` unchanged and the refusal.
    pub open spec fn settles(
        self,
        command: RuntimeCommand,
        now: i128,
        after: CountdownState,
        result: Result<(), CountdownError>,
    ) -> bool {
        match self.after_command(command, now) {
            Ok(next) => result is Ok && after == next,
            Err(e) => result == Err::<(), CountdownError>(e) && after == self,
        }
    }

    /// A fresh countdown; the span given is not kept.
    pub fn new(_duration: i128) -> (state: Self)
        ensures
            state.start_time is None,
            state.remaining_time is None,
    {
        CountdownState { start_time: None, remaining_time: None }
    }

    /// Replaces the remaining span.
    pub fn update_remaining(&mut self, new_dur: Option<i128>)
        requires
            new_dur matches Some(d) ==> valid_span(d),
        ensures
            final(self).start_time == old(self).start_time,
            final(self).remaining_time == new_dur,
    {
        self.remaining_time = new_dur;
    }

    /// Carries out `command` at instant `now`.
    ///
    /// Run restarts the clock at `now`; Pause measures the span since the
    /// last start, keeps it as the remaining time and restarts the clock, or
    /// fails when there is no start; Resume changes nothing; Stop clears both.
    pub fn apply_command(&mut self, command: RuntimeCommand, now: i128) -> (result: Result<
        (),
        CountdownError,
    >)
        requires
            old(self).wf(),
            valid_instant(now),
        ensures
            final(self).wf(),
            old(self).settles(command, now, *final(self), result),
    {
        match command {
            RuntimeCommand::Run => {
                self.start_time = Some(now);
                Ok(())
            },
            RuntimeCommand::Pause => {
                let old = match self.start_time {
                    Some(time) => time,
                    None => {
                        return Err(CountdownError::StartTimeMissing);
                    },
                };
                self.start_time = Some(now);
                self.remaining_time = Some(elapsed_nanos(now, old));
                Ok(())
            },
            RuntimeCommand::Resume => Ok(()),
            RuntimeCommand::Stop => {
                self.start_time = None;
                self.remaining_time = None;
                Ok(())
            },
        }
    }
}

impl Default for CountdownState {
    fn default() -> (state: Self)
        ensures
            state.start_time is None,
            state.remaining_time is None,
    {
        CountdownState { start_time: None, remaining_time: None }
    }
}

/// How many one-second ticks a countdown of `ns` nanoseconds waits: one
/// fewer than its whole seconds, and none when it has at most one.
pub open spec fn countdown_ticks(ns: i128) -> int {
    let secs = trunc_seconds(ns as int);
    if secs > 1 {
        secs - 1
    } else {
        0
    }
}

/// The state of the timer: the countdown, whether it runs or is paused,
/// the phase, and the two length selectors.
pub struct AppStatus {
    pub shared_state: CountdownState,
    pub is_ongoing: bool,
    pub study_or_relax: StudyRelaxStatus,
    pub is_paused: bool,
    pub study_len: i64,
    pub study_len_slider_enable: bool,
    pub study_len_btn_stat: &'static str,
    pub relax_len: i64,
    pub relax_len_slider_enable: bool,
    pub relax_len_btn_stat: &'static str,
    pub timer_vals: TimerVals,
}

impl Default for AppStatus {
    fn default() -> (status: Self)
        ensures
            status.wf(),
            status.consistent(),
            status.shared_state.start_time is None,
            status.shared_state.remaining_time is None,
            !status.is_ongoing,
            status.study_or_relax == StudyRelaxStatus::Study,
            !status.is_paused,
            status.study_len == 0,
            status.study_len_slider_enable,
            status.study_len_btn_stat == BTN_CONFIRM_STR,
            status.relax_len == 0,
            status.relax_len_slider_enable,
            status.relax_len_btn_stat == BTN_CONFIRM_STR,
            status.timer_vals.hr == 0,
            status.timer_vals.min == 0,
            status.timer_vals.sec == 0,
    {
        AppStatus {
            shared_state: CountdownState::default(),
            study_len_btn_stat: BTN_CONFIRM_STR,
            relax_len_btn_stat: BTN_CONFIRM_STR,
            is_ongoing: false,
            study_or_relax: StudyRelaxStatus::Study,
            is_paused: false,
            study_len: 0,
            study_len_slider_enable: true,
            relax_len: 0,
            relax_len_slider_enable: true,
            timer_vals: TimerVals::default(),
        }
    }
}

impl AppStatus {
    /// The countdown it holds is well formed.
    pub open spec fn wf(&self) -> bool {
        self.shared_state.wf()
    }

    /// The flags agree with the countdown: it is under way exactly while a
    /// start time is set, and only a countdown under way is paused.
    pub open spec fn consistent(&self) -> bool {
        &&& (self.is_ongoing <==> self.shared_state.start_time is Some)
        &&& (self.is_paused ==> self.is_ongoing)
    }

    /// `after` is `self` paused (or resumed, by `should_pause`) at some
    /// instant: the clock restarted there, and the remaining time is the span
    /// since the previous start.
    pub open spec fn paused_into(self, after: AppStatus, should_pause: bool) -> bool {
        match (self.shared_state.start_time, after.shared_state.start_time) {
            (Some(start), Some(now)) => {
                &&& valid_instant(now)
                &&& after == (AppStatus {
                    is_paused: should_pause,
                    shared_state: CountdownState {
                        start_time: Some(now),
                        remaining_time: Some((now - start) as i128),
                    },
                    ..self
                })
            },
            _ => false,
        }
    }

    pub fn is_ongoing(&self) -> (ongoing: bool)
        ensures
            ongoing == self.is_ongoing,
    {
        self.is_ongoing
    }

    pub fn is_paused(&self) -> (paused: bool)
        ensures
            paused == self.is_paused,
    {
        self.is_paused
    }

    /// Started and not paused.
    pub fn is_running(&self) -> (running: bool)
        ensures
            running == (self.is_ongoing && !self.is_paused),
    {
        self.is_ongoing() && !self.is_paused()
    }

    pub fn study_or_relax(&self) -> (status: StudyRelaxStatus)
        ensures
            status == self.study_or_relax,
    {
        self.study_or_relax
    }

    /// Switches to the other phase.
    pub fn revert_study_relax(&mut self)
        ensures
            *final(self) == (AppStatus { study_or_relax: old(self).study_or_relax.other(), ..*old(self) }),
            old(self).consistent() ==> final(self).consistent(),
    {
        self.study_or_relax = match self.study_or_relax {
            StudyRelaxStatus::Study => StudyRelaxStatus::Relax,
            StudyRelaxStatus::Relax => StudyRelaxStatus::Study,
        };
    }

    /// Reads the clock and carries out `command` on the countdown.
    fn execute_command(&mut self, command: RuntimeCommand) -> (result: Result<(), CountdownError>)
        requires
            old(self).wf(),
        ensures
            final(self).wf(),
            *final(self) == (AppStatus { shared_state: final(self).shared_state, ..*old(self) }),
            exists|now: i128|
                valid_instant(now) && #[trigger] old(self).shared_state.settles(
                    command,
                    now,
                    final(self).shared_state,
                    result,
                ),
    {
        let now = local_now_nanos();
        self.shared_state.apply_command(command, now)
    }

    /// Starts the countdown now, marks it running and unpaused, and returns
    /// how many one-second ticks it then waits (counted from the remaining
    /// time that the last pause measured).
    ///
    /// A remaining time must be present: without one there is nothing to
    /// count down.
    pub fn run(&mut self) -> (ticks: i64)
        requires
            old(self).wf(),
            old(self).shared_state.remaining_time is Some,
        ensures
            final(self).wf(),
            final(self).shared_state.start_time is Some,
            *final(self) == (AppStatus {
                is_ongoing: true,
                is_paused: false,
                shared_state: CountdownState {
                    start_time: final(self).shared_state.start_time,
                    remaining_time: old(self).shared_state.remaining_time,
                },
                ..*old(self)
            }),
            ticks == countdown_ticks(old(self).shared_state.remaining_time.unwrap()),
            trunc_seconds(old(self).shared_state.remaining_time.unwrap() as int) > 1 ==> ticks + 1
                == trunc_seconds(old(self).shared_state.remaining_time.unwrap() as int),
            trunc_seconds(old(self).shared_state.remaining_time.unwrap() as int) <= 1 ==> ticks == 0,
            old(self).consistent() ==> final(self).consistent(),
    {
        let result = self.execute_command(RuntimeCommand::Run);
        proof {
            let ghost now = choose|now: i128|
                valid_instant(now) && #[trigger] old(self).shared_state.settles(
                    RuntimeCommand::Run,
                    now,
                    self.shared_state,
                    result,
                );
            assert(old(self).shared_state.settles(RuntimeCommand::Run, now, self.shared_state, result));
        }
        match result {
            Ok(_) => {
                self.is_ongoing = true;
                self.is_paused = false;
                let t_dur = self.shared_state.remaining_time.unwrap();
                let secs = span_whole_seconds(t_dur);
                if secs > 1 {
                    secs - 1
                } else {
                    0
                }
            },
            Err(_) => 0,
        }
    }

    /// Measures the span since the last start, restarts the clock, and sets
    /// the paused flag to `should_pause`; fails, changing nothing, when the
    /// countdown has no start time.
    fn __aux_pause_resume_logic(&mut self, should_pause: bool) -> (result: Result<(), ()>)
        requires
            old(self).wf(),
        ensures
            final(self).wf(),
            result is Ok <==> old(self).shared_state.start_time is Some,
            result is Ok ==> old(self).paused_into(*final(self), should_pause),
            result is Err ==> *final(self) == *old(self),
    {
        let outcome = self.execute_command(RuntimeCommand::Pause);
        proof {
            let ghost now = choose|now: i128|
                valid_instant(now) && #[trigger] old(self).shared_state.settles(
                    RuntimeCommand::Pause,
                    now,
                    self.shared_state,
                    outcome,
                );
            assert(old(self).shared_state.settles(RuntimeCommand::Pause, now, self.shared_state, outcome));
        }
        match outcome {
            Ok(_) => {
                self.is_paused = should_pause;
                Ok(())
            },
            Err(_) => Err(()),
        }
    }

    /// Pauses: see `__aux_pause_resume_logic` with `true`.
    pub fn pause(&mut self) -> (result: Result<(), ()>)
        requires
            old(self).wf(),
        ensures
            final(self).wf(),
            result is Ok <==> old(self).shared_state.start_time is Some,
            result is Ok ==> old(self).paused_into(*final(self), true),
            result is Err ==> *final(self) == *old(self),
            old(self).consistent() ==> final(self).consistent(),
    {
        self.__aux_pause_resume_logic(true)
    }

    /// Resumes: the same measurement as a pause, clearing the paused flag.
    pub fn resume(&mut self) -> (result: Result<(), ()>)
        requires
            old(self).wf(),
        ensures
            final(self).wf(),
            result is Ok <==> old(self).shared_state.start_time is Some,
            result is Ok ==> old(self).paused_into(*final(self), false),
            result is Err ==> *final(self) == *old(self),
            old(self).consistent() ==> final(self).consistent(),
    {
        self.__aux_pause_resume_logic(false)
    }

    /// Stops: clears the countdown and both flags. Always succeeds.
    pub fn stop(&mut self) -> (result: Result<(), ()>)
        requires
            old(self).wf(),
        ensures
            final(self).wf(),
            result is Ok,
            *final(self) == (AppStatus {
                is_ongoing: false,
                is_paused: false,
                shared_state: CountdownState { start_time: None, remaining_time: None },
                ..*old(self)
            }),
            final(self).consistent(),
    {
        let outcome = self.execute_command(RuntimeCommand::Stop);
        proof {
            let ghost now = choose|now: i128|
                valid_instant(now) && #[trigger] old(self).shared_state.settles(
                    RuntimeCommand::Stop,
                    now,
                    self.shared_state,
                    outcome,
                );
            assert(old(self).shared_state.settles(RuntimeCommand::Stop, now, self.shared_state, outcome));
        }
        match outcome {
            Ok(_) => {
                self.is_ongoing = false;
                self.is_paused = false;
                Ok(())
            },
            Err(_) => Err(()),
        }
    }
}


/// The phases alternate: switching changes the phase, and switching twice
/// comes back to it.
pub proof fn lemma_phase_alternates(status: StudyRelaxStatus)
    ensures
        status.other() != status,
        status.other().other() == status,
{
}

/// Every command keeps the countdown well formed.
pub proof fn lemma_command_keeps_wf(state: CountdownState, command: RuntimeCommand, now: i128)
    requires
        state.wf(),
        valid_instant(now),
    ensures
        state.after_command(command, now) matches Ok(next) ==> next.wf(),
{
}

/// A pause measures the time since the run before it: after Run at `t1`
/// and Pause at `t2`, the clock restarts at `t2` and `t2 - t1` remains.
pub proof fn lemma_pause_measures_since_run(state: CountdownState, t1: i128, t2: i128)
    requires
        state.wf(),
        valid_instant(t1),
        valid_instant(t2),
    ensures
        state.after_command(RuntimeCommand::Run, t1) matches Ok(running) && running.after_command(
            RuntimeCommand::Pause,
            t2,
        ) == Ok::<CountdownState, CountdownError>(
            CountdownState { start_time: Some(t2), remaining_time: Some((t2 - t1) as i128) },
        ),
{
}

/// Stop forgets everything: from any two states it leads to the same one,
/// and a pause right after it is refused.
pub proof fn lemma_stop_forgets(a: CountdownState, b: CountdownState, t1: i128, t2: i128, t3: i128)
    ensures
        a.after_command(RuntimeCommand::Stop, t1) == b.after_command(RuntimeCommand::Stop, t2),
        a.after_command(RuntimeCommand::Stop, t1) matches Ok(stopped) && stopped.after_command(
            RuntimeCommand::Pause,
            t3,
        ) == Err::<CountdownState, CountdownError>(CountdownError::StartTimeMissing),
{
}

/// Resume leaves the countdown as it is, whenever it comes.
pub proof fn lemma_resume_changes_nothing(state: CountdownState, now: i128)
    ensures
        state.after_command(RuntimeCommand::Resume, now) == Ok::<CountdownState, CountdownError>(state),
{
}

/// Only a pause can be refused, and only for want of a start time.
pub proof fn lemma_refusal_only_without_start(state: CountdownState, command: RuntimeCommand, now: i128)
    ensures
        state.after_command(command, now) is Err <==> (command == RuntimeCommand::Pause
            && state.start_time is None),
{
}

/// A countdown waits one tick fewer than its whole seconds, and none when it
/// has at most one whole second; one more second of remaining time is one
/// more tick once there is at least one whole second.
pub proof fn lemma_ticks_count_whole_seconds(ns: i128)
    ensures
        trunc_seconds(ns as int) > 1 ==> countdown_ticks(ns) + 1 == trunc_seconds(ns as int),
        trunc_seconds(ns as int) <= 1 ==> countdown_ticks(ns) == 0,
        ns >= 2 * NANOS_PER_SEC ==> countdown_ticks(ns) == ns / NANOS_PER_SEC - 1,
        (ns >= NANOS_PER_SEC && ns + NANOS_PER_SEC <= i128::MAX) ==> countdown_ticks(
            (ns + NANOS_PER_SEC) as i128,
        ) == countdown_ticks(ns) + 1,
{
}

} // verus!
