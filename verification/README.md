# freezer_monitor

A server that watches freezers: ESP32 sensors post temperature and battery
readings, the server stores them, raises alarms through ntfy, serves firmware
updates and lets Google accounts on an allow list manage everything.

- `src/` is the verified library (Verus). It holds the rules: reading the
  session cookie, the login flow and its answers, the three request guards,
  which alarms a reading raises and when a sensor counts as offline with the
  texts of the notifications, how sensors and alarm settings are created and
  changed, the version in a firmware file name, the error answers and the
  security headers. Calls into `jsonwebtoken` and `chrono` stand behind
  trusted wrappers whose contracts are documented where they are declared.
- `app/` is the server around it: axum routes, SQLite queries, HTTP calls to
  Google and ntfy, files, background loops, and the temperature comparison,
  which is floating point.
- `tests/` runs the library, including the real JWT and time calls.
