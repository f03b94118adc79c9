# termodoro

A terminal Pomodoro timer. The library under `src/` holds the logic, with
contracts that Verus proves. Three small functions in `persistence` that read
the wall clock through `std::time` (`SystemTime::now`, `duration_since`,
`Duration::as_secs`) are trusted, not proved, and promise nothing about the
time they read:

- `config`: the configuration, its defaults, overrides and validation;
- `domain`: phases, their labels and lengths, and which phase comes next;
- `engine`: the phase timer (pause, resume, time left), the countdown text,
  and `PomodoroSession`, the state machine that decides what the timer loop
  does after each key press and clock reading;
- `cli`: what the commands decide and print;
- `persistence`: the records that are saved, and the wall clock;
- `text`: decimal formatting.

`app/` is the program around it: argument parsing, files, the terminal,
signals, and the loop that drives a `PomodoroSession`.
