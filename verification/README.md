# lux_recorder

The logic of a light-meter station on a Raspberry Pi: a BH1750 sensor is read
without pause, four push buttons begin a run, stop it, flip a user mark and
clear the logs, and readings taken during a run go into three logs (main, user,
range) shown on a full-screen egui window.

- `src/` is the verified library (Verus):
  - `clock`: splitting seconds into hours, minutes and seconds; whole seconds
    elapsed between two clock instants.
  - `latch`: turning sampled button levels into one event per press.
  - `station`: the station's state, its events and the three logs, with a
    spec model (`StationView`) that each operation's contract refers to.
  - `station_laws`: what every event keeps (the run marks of each log,
    the colours), that logs only grow until cleared, and more.
- `app/` is the program around it: GPIO buttons, the I²C sensor, threads, the
  channel and the egui window, and the floating-point comparisons of readings.
- `tests/` runs the library on concrete values.
