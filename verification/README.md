# russessin

A REST service over `systemd-logind`: seventeen `loginctl` commands
(ten on sessions, seven on users) as HTTP endpoints.

- `src/` is the verified library: the route table, request planning and reply statuses
  (`api`), signal parsing (`signal`), configuration defaults and the bind
  address (`config`), the logind operations, their D-Bus calls and failure
  reports, and the decoding of D-Bus properties (`logind`), with shared
  text helpers (`text`) and the error type (`error`).
- `app/` is the program around it: command line, configuration file,
  HTTP routing with axum, and the D-Bus client built on zbus.
- `tests/` exercises the library.
