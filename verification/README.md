# pomodoro

A pomodoro timer whose logic is verified with Verus.

- `src/countdown.rs`: the countdown (start instant and remaining span, in
  nanoseconds), the Run/Pause/Resume/Stop commands as a state machine, and
  the application status driven by the timer's buttons.
- `src/settings.rs`: the study/relax length selectors with their lock and
  reset buttons, the sound cues, the end-of-phase step of the main loop and
  which buttons are offered.
- `src/clock.rs`: time as integers; `chrono` reads the clock and converts
  minutes to whole seconds.
- `src/derangements.rs`: the sign, running-product and falling-product
  helpers and the derangement entry point.
- `src/filesys.rs`: the settings file's name and contents.
- `app/`: the eframe window, persistence, sleeping and printing.
