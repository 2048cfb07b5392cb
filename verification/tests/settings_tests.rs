use pomodoro::countdown::{AppStatus, StudyRelaxStatus};
use pomodoro::settings::{
    control_states, finish_phase, ControlStates, DurationWrapper, IntercessionMusic, TimeSettings,
};

#[test]
fn default_settings() {
    let t = TimeSettings::default();
    assert_eq!(t.study_len, DurationWrapper { mins: 50, dur: 3000 });
    assert_eq!(t.relax_len, DurationWrapper { mins: 10, dur: 600 });
    assert!(t.study_len_slider_enable && t.relax_len_slider_enable);
    assert_eq!(t.study_len_btn_stat, "Confirm");
    assert_eq!(t.relax_len_btn_stat, "Confirm");
    assert!(!t.enable_cycles);
    assert_eq!(t.cycle_times, 3);
    assert_eq!(t.cycle_count, 0);
    assert_eq!(DurationWrapper::default(), DurationWrapper { mins: 0, dur: 0 });
}

#[test]
fn locking_takes_the_minutes_as_the_span() {
    let mut t = TimeSettings::default();
    t.set_study_minutes(25);
    assert_eq!(t.study_len, DurationWrapper { mins: 25, dur: 3000 });
    t.toggle_study_lock();
    assert!(!t.study_len_slider_enable);
    assert_eq!(t.study_len_btn_stat, "Re-Choose");
    assert_eq!(t.study_len, DurationWrapper { mins: 25, dur: 1500 });
    assert_eq!(t.phase_seconds(StudyRelaxStatus::Study), 1500);
}

#[test]
fn locked_slider_does_not_move() {
    let mut t = TimeSettings::default();
    t.toggle_relax_lock();
    t.set_relax_minutes(45);
    assert_eq!(t.relax_len, DurationWrapper { mins: 10, dur: 600 });
    t.toggle_relax_lock();
    assert!(t.relax_len_slider_enable);
    assert_eq!(t.relax_len_btn_stat, "Confirm");
    t.set_relax_minutes(45);
    assert_eq!(t.relax_len.mins, 45);
    assert_eq!(t.phase_seconds(StudyRelaxStatus::Relax), 600);
    t.toggle_relax_lock();
    assert_eq!(t.phase_seconds(StudyRelaxStatus::Relax), 2700);
}

#[test]
fn toggle_twice_restores_button_and_minutes() {
    let mut t = TimeSettings::default();
    t.set_study_minutes(90);
    t.toggle_study_lock();
    t.toggle_study_lock();
    assert!(t.study_len_slider_enable);
    assert_eq!(t.study_len_btn_stat, "Confirm");
    assert_eq!(t.study_len, DurationWrapper { mins: 90, dur: 5400 });
}

#[test]
fn reset_zeroes_one_selector_only() {
    let mut t = TimeSettings::default();
    t.toggle_study_lock();
    t.reset_study();
    assert_eq!(t.study_len, DurationWrapper { mins: 0, dur: 0 });
    assert!(!t.study_len_slider_enable);
    assert_eq!(t.relax_len, DurationWrapper { mins: 10, dur: 600 });
    t.reset_relax();
    assert_eq!(t.relax_len, DurationWrapper { mins: 0, dur: 0 });
    assert_eq!(t.phase_seconds(StudyRelaxStatus::Relax), 0);
}

#[test]
fn negative_span_wraps_when_cast() {
    let mut t = TimeSettings::default();
    t.set_study_minutes(-1);
    t.toggle_study_lock();
    assert_eq!(t.study_len.dur, -60);
    assert_eq!(t.phase_seconds(StudyRelaxStatus::Study), u64::MAX - 59);
}

#[test]
fn music_cues() {
    let mut m = IntercessionMusic::default();
    assert!(m.file_path_rlx.is_empty() && m.file_path_std.is_empty());
    assert_eq!(m.track_to_play(StudyRelaxStatus::Study), None);
    assert_eq!(m.track_to_play(StudyRelaxStatus::Relax), None);
    m.play_study_start = true;
    assert_eq!(m.track_to_play(StudyRelaxStatus::Study), Some(StudyRelaxStatus::Study));
    assert_eq!(m.track_to_play(StudyRelaxStatus::Relax), None);
    m.play_relax_start = true;
    assert_eq!(m.track_to_play(StudyRelaxStatus::Relax), Some(StudyRelaxStatus::Relax));
}

#[test]
fn finishing_phases_alternates() {
    let mut a = AppStatus::default();
    let mut m = IntercessionMusic::default();
    m.play_relax_start = true;
    assert_eq!(finish_phase(&mut a, &m), None);
    assert_eq!(a.study_or_relax(), StudyRelaxStatus::Relax);
    assert_eq!(finish_phase(&mut a, &m), Some(StudyRelaxStatus::Relax));
    assert_eq!(a.study_or_relax(), StudyRelaxStatus::Study);
}

#[test]
fn buttons_follow_the_status() {
    let mut a = AppStatus::default();
    assert_eq!(
        control_states(&a),
        ControlStates { start: true, pause: true, stop: false }
    );
    a.shared_state.update_remaining(Some(3_000_000_000));
    a.run();
    assert_eq!(
        control_states(&a),
        ControlStates { start: false, pause: true, stop: true }
    );
    a.pause().unwrap();
    assert_eq!(
        control_states(&a),
        ControlStates { start: false, pause: false, stop: false }
    );
    a.stop().unwrap();
    assert_eq!(
        control_states(&a),
        ControlStates { start: true, pause: true, stop: false }
    );
}
