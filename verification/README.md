# deepcool_lite

A tray utility for the DeepCool CH270 DIGITAL case display. It shows CPU or
GPU temperature, power, usage and a secondary metric; MIX rotates between
the CPU and GPU pages.

- `src/` is the verified library (Verus): settings (`settings`), the page
  and CPU-detail rotation (`schedule`), sensor-bridge lines (`sensors`,
  `text`), the 64-byte HID report (`packet`), the per-sample decision and
  status lines of a display session (`session`), and the logon-task
  arguments and title-bar style (`system`).
- `app/` is the Windows program around it: the Slint window and tray, the
  HID device, the sensor bridge process, the settings files, the registry,
  the task scheduler and the vendor service check. Sensor values arrive as
  decimal numbers; their rounding stays in `app/readings.rs`, and the
  library works on the rounded results.
- `tests/` runs the library on concrete values.
