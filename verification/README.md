# nep_gw

A verified library for a local gateway that receives the telemetry which NEP
BDM microinverters upload, and the program around it.

`src/` is the library, proved with Verus:

- `checksum`: the additive and XOR checksums over bytes 1-42 of a packet, and
  the proof that any single corrupted byte is detected.
- `telemetry`: decoding of the 45-byte packet into its raw integer fields,
  the error states and operating modes, the firmware version text.
- `text`: decimal and hexadecimal rendering of integers.
- `mqtt`: Home Assistant discovery configurations and the MQTT worker's
  decisions (announce the sensors until one announcement succeeds).
- `metrics`: the Prometheus collectors and their registration.
- `config`: the HTTP port, MQTT broker and upstream settings with defaults.

`app/` is the program: the axum HTTP server, the MQTT client loop, the
upstream relay, reading the environment, and the conversion of raw values to
physical units (floating point).
