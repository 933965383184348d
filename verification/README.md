# steam_controller_dsu

A DSU (CemuHook) UDP server core for Steam controllers, written in Verus.

- `src/` is the verified library: HID report decoding for the 2015 and 2026 Steam
  Controllers, the CemuHook wire format (CRC-32, response and data packets), the reader's
  frozen-IMU state machine, the server's client bookkeeping, and the command-line plans.
  Motion values cross the library as IEEE-754 single-precision bit patterns (`u32`).
- `app/` is the program around it: HID and `hidraw` I/O, the UDP socket and threads, the
  floating-point motion conversions, logging, signal handling and argument parsing.
- `tests/` exercises the library on concrete values.
