# tarantas

Protocol and decision logic of a two-computer robot: a Jetson main system
(`control`) drives an STM32 engine over a serial link.

- `src/` — the verified library (Verus):
  - `lib.rs`, `movements.rs`, `sensors.rs`, `system.rs`: the messages
    (`Command`, `Report`, ...). Single precision values travel as their
    IEEE-754 bit patterns.
  - `codec.rs`: COBS framing. The decoder is a state machine specified by
    `push_step` / `feed_steps`; the laws `law_frame_delivered`,
    `law_oversized_discarded`, `law_wire_frame_delivered`, ... state what a
    stream of bytes yields. Encoding frames a payload through postcard's
    COBS flavor.
  - `engine/`: what the firmware tasks decide (routing of commands, LED
    phases, error handling, emergency stop, sensor poll schedule, distance
    readings, wrapping encoder counters).
  - `control/`: what the control program decides (keyboard mapping,
    heartbeat, session events, report logging).
- `app/` — ordinary Rust around the library: the serde copies of the
  messages and the typed codecs (postcard), tokio codecs, the control
  program (`main.rs`) and the firmware tasks written over embedded-hal.
- `tests/` — tests of the library.
