//! A pomodoro timer: the countdown state machine, the study/relax settings
//! and the small counting helpers behind generalised derangements.

pub mod derangements;
pub mod clock;
pub mod countdown;
pub mod settings;
pub mod filesys;
