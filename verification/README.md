# hylarana

The core of Hylarana, a tool for casting a screen to other devices on the
local network, with its behaviour proved.

- `src/` is the library: media stream descriptions, codec selection and
  encoder/decoder set-up, frame and texture layout, the LAN discovery
  registry, the device tables, the framing of the device information
  stream, request routing, the stream status, logging set-up and
  configuration defaults. Every public function states in its contract what
  it returns or how it changes its arguments, and is proved to meet it; the
  laws that relate several operations are public proof functions next to
  them.
- `tests/` exercises the library on concrete values.
- `app/` is the process around it: command line and environment, sockets,
  timers, HTTP and websocket servers, JSON, and the logger. It hands the
  library plain values and performs what the library decides.
