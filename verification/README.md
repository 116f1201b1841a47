# sysaudio_capture

System sound as capture devices. On macOS the devices are the displays, captured through
ScreenCaptureKit; on Windows they are the render endpoints, captured through WASAPI loopback. A
stream can leave the sound of chosen applications out.

The decisions are in `src/`, written in Verus and proved: which applications a filter leaves out,
when a stream refreshes its filter, how sample buffers are interleaved, what a wave format stands
for, which process trees are subtracted, and in which order an audio client is set up and torn
down. Everything that talks to an operating system is in `app/`: it performs what the library asks
for and hands back what came of it, as plain values.

- `src/types.rs`: stream configurations, identifiers, descriptions and errors
- `src/text.rs`: decimal numbers, UTF-16, substring matching, and the functions of the standard
  library that are taken on trust
- `src/screencapturekit/`: displays, applications, content filters and streams on macOS
- `src/wasapi_loopback/`: endpoints, formats, processes and streams on Windows
- `tests/`: tests on concrete values
- `app/`: the hosts themselves, one module per operating system
