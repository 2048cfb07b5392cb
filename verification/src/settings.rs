//! The timer's settings: the study and relax lengths with their lock
//! buttons, the sounds played when a phase ends, and the decisions the
//! timer's window and main loop take from them.

use vstd::prelude::*;

use crate::clock::{minutes_to_seconds, valid_minutes};
use crate::countdown::{AppStatus, StudyRelaxStatus, BTN_CONFIRM_STR, BTN_RECHOOSE_STR};

verus! {

/// A length chosen on a slider, in minutes, and the span it was last
/// confirmed as, in seconds.
#[derive(Clone, Copy, Debug, PartialEq, Eq, Structural)]
pub struct DurationWrapper {
    pub mins: i64,
    pub dur: i64,
}

impl Default for DurationWrapper {
    fn default() -> (d: Self)
        ensures
            d.mins == 0,
            d.dur == 0,
    {
        DurationWrapper { mins: 0, dur: minutes_to_seconds(0) }
    }
}

/// The two labels differ, so a label tells a locked slider from an open one.
pub proof fn lemma_labels_differ()
    ensures
        BTN_CONFIRM_STR != BTN_RECHOOSE_STR,
{
    reveal_strlit("Confirm");
    reveal_strlit("Re-Choose");
    assert(BTN_CONFIRM_STR@.len() != BTN_RECHOOSE_STR@.len());
}

/// One length selector is consistent: its minutes are within what `chrono`
/// accepts, its button reads "Confirm" exactly while the slider is open, and
/// a locked slider's span is its minutes in seconds.
pub open spec fn length_wf(len: DurationWrapper, enabled: bool, label: &'static str) -> bool {
    &&& valid_minutes(len.mins)
    &&& (label == BTN_CONFIRM_STR || label == BTN_RECHOOSE_STR)
    &&& (enabled <==> label == BTN_CONFIRM_STR)
    &&& (!enabled ==> len.dur == len.mins * 60)
}

/// What the lock button leaves of a selector: an open slider is locked, its
/// label becomes "Re-Choose" and its span is taken from its minutes; a
/// locked slider is opened again with the label "Confirm".
pub open spec fn toggled_length(len: DurationWrapper, enabled: bool) -> (
    DurationWrapper,
    bool,
    &'static str,
) {
    if enabled {
        (DurationWrapper { mins: len.mins, dur: (len.mins * 60) as i64 }, false, BTN_RECHOOSE_STR)
    } else {
        (len, true, BTN_CONFIRM_STR)
    }
}

/// The study and relax lengths, their sliders and buttons, and the cycle
/// counter.
pub struct TimeSettings {
    pub study_len: DurationWrapper,
    pub study_len_slider_enable: bool,
    pub study_len_btn_stat: &'static str,
    pub relax_len: DurationWrapper,
    pub relax_len_slider_enable: bool,
    pub relax_len_btn_stat: &'static str,
    pub enable_cycles: bool,
    pub cycle_times: i32,
    pub cycle_count: i32,
}

impl Default for TimeSettings {
    fn default() -> (s: Self)
        ensures
            s.wf(),
            s.study_len == (DurationWrapper { mins: 50, dur: 3000 }),
            s.study_len_slider_enable,
            s.study_len_btn_stat == BTN_CONFIRM_STR,
            s.relax_len == (DurationWrapper { mins: 10, dur: 600 }),
            s.relax_len_slider_enable,
            s.relax_len_btn_stat == BTN_CONFIRM_STR,
            !s.enable_cycles,
            s.cycle_times == 3,
            s.cycle_count == 0,
    {
        proof {
            lemma_labels_differ();
        }
        TimeSettings {
            study_len: DurationWrapper { mins: 50, dur: minutes_to_seconds(50) },
            study_len_slider_enable: true,
            study_len_btn_stat: BTN_CONFIRM_STR,
            relax_len: DurationWrapper { mins: 10, dur: minutes_to_seconds(10) },
            relax_len_slider_enable: true,
            relax_len_btn_stat: BTN_CONFIRM_STR,
            enable_cycles: false,
            cycle_times: 3,
            cycle_count: 0,
        }
    }
}

impl TimeSettings {
    /// Both selectors are consistent.
    pub open spec fn wf(&self) -> bool {
        &&& length_wf(self.study_len, self.study_len_slider_enable, self.study_len_btn_stat)
        &&& length_wf(self.relax_len, self.relax_len_slider_enable, self.relax_len_btn_stat)
    }

    /// The span of a phase, in seconds.
    pub open spec fn phase_span(&self, status: StudyRelaxStatus) -> i64 {
        match status {
            StudyRelaxStatus::Study => self.study_len.dur,
            StudyRelaxStatus::Relax => self.relax_len.dur,
        }
    }

    /// The study lock button: locks an open slider (taking its minutes as
    /// the study span) or opens a locked one.
    pub fn toggle_study_lock(&mut self)
        requires
            old(self).wf(),
        ensures
            final(self).wf(),
            ({
                let (len, enabled, label) = toggled_length(
                    old(self).study_len,
                    old(self).study_len_slider_enable,
                );
                *final(self) == TimeSettings {
                    study_len: len,
                    study_len_slider_enable: enabled,
                    study_len_btn_stat: label,
                    ..*old(self)
                }
            }),
    {
        proof {
            lemma_labels_differ();
        }
        if self.study_len_slider_enable {
            self.study_len_slider_enable = false;
            self.study_len_btn_stat = BTN_RECHOOSE_STR;
            self.study_len.dur = minutes_to_seconds(self.study_len.mins);
        } else {
            self.study_len_slider_enable = true;
            self.study_len_btn_stat = BTN_CONFIRM_STR;
        }
    }

    /// The relax lock button, as for study.
    pub fn toggle_relax_lock(&mut self)
        requires
            old(self).wf(),
        ensures
            final(self).wf(),
            ({
                let (len, enabled, label) = toggled_length(
                    old(self).relax_len,
                    old(self).relax_len_slider_enable,
                );
                *final(self) == TimeSettings {
                    relax_len: len,
                    relax_len_slider_enable: enabled,
                    relax_len_btn_stat: label,
                    ..*old(self)
                }
            }),
    {
        proof {
            lemma_labels_differ();
        }
        if self.relax_len_slider_enable {
            self.relax_len_slider_enable = false;
            self.relax_len_btn_stat = BTN_RECHOOSE_STR;
            self.relax_len.dur = minutes_to_seconds(self.relax_len.mins);
        } else {
            self.relax_len_slider_enable = true;
            self.relax_len_btn_stat = BTN_CONFIRM_STR;
        }
    }

    /// The study reset button: zero minutes and a zero span.
    pub fn reset_study(&mut self)
        requires
            old(self).wf(),
        ensures
            final(self).wf(),
            *final(self) == (TimeSettings {
                study_len: DurationWrapper { mins: 0, dur: 0 },
                ..*old(self)
            }),
    {
        self.study_len.mins = 0;
        self.study_len.dur = minutes_to_seconds(0);
    }

    /// The relax reset button: zero minutes and a zero span.
    pub fn reset_relax(&mut self)
        requires
            old(self).wf(),
        ensures
            final(self).wf(),
            *final(self) == (TimeSettings {
                relax_len: DurationWrapper { mins: 0, dur: 0 },
                ..*old(self)
            }),
    {
        self.relax_len.mins = 0;
        self.relax_len.dur = minutes_to_seconds(0);
    }

    /// The study slider: moves only while it is open.
    pub fn set_study_minutes(&mut self, mins: i64)
        requires
            old(self).wf(),
            valid_minutes(mins),
        ensures
            final(self).wf(),
            *final(self) == (if old(self).study_len_slider_enable {
                TimeSettings {
                    study_len: DurationWrapper { mins, ..old(self).study_len },
                    ..*old(self)
                }
            } else {
                *old(self)
            }),
    {
        if self.study_len_slider_enable {
            self.study_len.mins = mins;
        }
    }

    /// The relax slider: moves only while it is open.
    pub fn set_relax_minutes(&mut self, mins: i64)
        requires
            old(self).wf(),
            valid_minutes(mins),
        ensures
            final(self).wf(),
            *final(self) == (if old(self).relax_len_slider_enable {
                TimeSettings {
                    relax_len: DurationWrapper { mins, ..old(self).relax_len },
                    ..*old(self)
                }
            } else {
                *old(self)
            }),
    {
        if self.relax_len_slider_enable {
            self.relax_len.mins = mins;
        }
    }

    /// How long the main loop sleeps through a phase, in seconds: the phase's
    /// span cast to `u64` (so a negative span wraps around).
    pub fn phase_seconds(&self, status: StudyRelaxStatus) -> (secs: u64)
        ensures
            secs == self.phase_span(status) as u64,
            status == StudyRelaxStatus::Study ==> secs == self.study_len.dur as u64,
            status == StudyRelaxStatus::Relax ==> secs == self.relax_len.dur as u64,
    {
        match status {
            StudyRelaxStatus::Study => self.study_len.dur as u64,
            StudyRelaxStatus::Relax => self.relax_len.dur as u64,
        }
    }
}

/// Whether a sound plays when each phase starts, and which file.
pub struct IntercessionMusic {
    pub play_relax_start: bool,
    pub file_path_rlx: String,
    pub play_study_start: bool,
    pub file_path_std: String,
}

impl Default for IntercessionMusic {
    fn default() -> (m: Self)
        ensures
            !m.play_relax_start,
            m.file_path_rlx@ == Seq::<char>::empty(),
            !m.play_study_start,
            m.file_path_std@ == Seq::<char>::empty(),
    {
        IntercessionMusic {
            play_relax_start: false,
            file_path_rlx: String::new(),
            play_study_start: false,
            file_path_std: String::new(),
        }
    }
}

impl IntercessionMusic {
    /// The sound due for `status`: that phase, when its box is ticked.
    pub open spec fn cue_for(&self, status: StudyRelaxStatus) -> Option<StudyRelaxStatus> {
        match status {
            StudyRelaxStatus::Study => if self.play_study_start {
                Some(StudyRelaxStatus::Study)
            } else {
                None
            },
            StudyRelaxStatus::Relax => if self.play_relax_start {
                Some(StudyRelaxStatus::Relax)
            } else {
                None
            },
        }
    }

    /// Which sound to play for `status`, if any.
    pub fn track_to_play(&self, status: StudyRelaxStatus) -> (cue: Option<StudyRelaxStatus>)
        ensures
            cue == self.cue_for(status),
            cue is Some ==> cue == Some(status),
            status == StudyRelaxStatus::Study ==> (cue is Some <==> self.play_study_start),
            status == StudyRelaxStatus::Relax ==> (cue is Some <==> self.play_relax_start),
    {
        match status {
            StudyRelaxStatus::Study => if self.play_study_start {
                Some(StudyRelaxStatus::Study)
            } else {
                None
            },
            StudyRelaxStatus::Relax => if self.play_relax_start {
                Some(StudyRelaxStatus::Relax)
            } else {
                None
            },
        }
    }
}

/// The end of a phase in the main loop: the sound due for the phase that
/// ends, then the switch to the other phase.
pub fn finish_phase(status: &mut AppStatus, music: &IntercessionMusic) -> (cue: Option<
    StudyRelaxStatus,
>)
    ensures
        cue == music.cue_for(old(status).study_or_relax),
        cue is Some ==> cue == Some(old(status).study_or_relax),
        old(status).study_or_relax == StudyRelaxStatus::Study ==> (cue is Some
            <==> music.play_study_start),
        old(status).study_or_relax == StudyRelaxStatus::Relax ==> (cue is Some
            <==> music.play_relax_start),
        *final(status) == (AppStatus {
            study_or_relax: old(status).study_or_relax.other(),
            ..*old(status)
        }),
        old(status).consistent() ==> final(status).consistent(),
{
    let cue = music.track_to_play(status.study_or_relax());
    status.revert_study_relax();
    cue
}

/// Which of the three main buttons can be pressed.
#[derive(Clone, Copy, Debug, PartialEq, Eq, Structural)]
pub struct ControlStates {
    pub start: bool,
    pub pause: bool,
    pub stop: bool,
}

/// The buttons a status offers: start while nothing is under way, pause
/// while not paused, stop while running.
pub open spec fn offered_controls(status: AppStatus) -> ControlStates {
    ControlStates {
        start: !status.is_ongoing,
        pause: !status.is_paused,
        stop: status.is_ongoing && !status.is_paused,
    }
}

/// Which main buttons can be pressed in `status`.
pub fn control_states(status: &AppStatus) -> (controls: ControlStates)
    ensures
        controls == offered_controls(*status),
{
    ControlStates {
        start: !status.is_ongoing(),
        pause: !status.is_paused(),
        stop: status.is_running(),
    }
}

/// Pressing a lock button twice opens or locks the slider as before and
/// restores its label and minutes; a consistent selector stays consistent.
pub proof fn lemma_toggle_twice(len: DurationWrapper, enabled: bool, label: &'static str)
    requires
        length_wf(len, enabled, label),
    ensures
        ({
            let (len1, enabled1, label1) = toggled_length(len, enabled);
            let (len2, enabled2, label2) = toggled_length(len1, enabled1);
            &&& length_wf(len1, enabled1, label1)
            &&& length_wf(len2, enabled2, label2)
            &&& enabled2 == enabled
            &&& label2 == label
            &&& len2.mins == len.mins
            &&& (!enabled ==> len2 == len)
        }),
{
    lemma_labels_differ();
}

/// Start and stop are never offered together: stopping needs a running
/// countdown, starting needs none under way.
pub proof fn lemma_start_excludes_stop(status: AppStatus)
    ensures
        !(offered_controls(status).start && offered_controls(status).stop),
{
}

/// A phase sleeps for its own confirmed span whatever the sliders show:
/// two settings with the same spans give every phase the same length, and a
/// study phase lasts the study span, a relax phase the relax span.
pub proof fn lemma_phase_span_is_the_confirmed_length(a: TimeSettings, b: TimeSettings)
    ensures
        a.phase_span(StudyRelaxStatus::Study) == a.study_len.dur,
        a.phase_span(StudyRelaxStatus::Relax) == a.relax_len.dur,
        (a.study_len.dur == b.study_len.dur && a.relax_len.dur == b.relax_len.dur) ==> forall|
            status: StudyRelaxStatus,
        | #[trigger] a.phase_span(status) == b.phase_span(status),
{
}

/// A phase's sound depends only on that phase's own box: it is due exactly
/// when that box is ticked, it is the phase itself, and the other box does
/// not matter.
pub proof fn lemma_cue_depends_on_own_box(a: IntercessionMusic, b: IntercessionMusic)
    ensures
        a.cue_for(StudyRelaxStatus::Study) is Some <==> a.play_study_start,
        a.cue_for(StudyRelaxStatus::Relax) is Some <==> a.play_relax_start,
        forall|status: StudyRelaxStatus|
            #[trigger] a.cue_for(status) is Some ==> a.cue_for(status) == Some(status),
        a.play_study_start == b.play_study_start ==> a.cue_for(StudyRelaxStatus::Study) == b.cue_for(
            StudyRelaxStatus::Study,
        ),
        a.play_relax_start == b.play_relax_start ==> a.cue_for(StudyRelaxStatus::Relax) == b.cue_for(
            StudyRelaxStatus::Relax,
        ),
{
}

} // verus!
