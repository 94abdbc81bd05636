# mechanix_keyboard

The core of an on-screen keyboard for Wayland, verified with Verus.

- `src/` holds the keyboard's state and all its decisions: the input-method
  client, typing and latched modifiers, view switching, the bar's surface. Each
  handler takes the state and an event and queues requests; its contract gives
  the state afterwards. `src/laws.rs` states what holds across operations.
- `app/` is the ordinary Rust around it: it measures views in floating point,
  compiles the keymap, puts it into shared memory, reads the layout file, and
  carries out the queued requests through traits that a Wayland client, a
  renderer and a gesture recogniser implement.
- `tests/` runs the library on concrete events.

What is trusted: `xkeysym::Keysym::from_char`, whose result is named by
`xkb::char_keysym` (`xkeysym` is the crate that xkbcommon has its `Keysym` from),
and the readings of `std::time::Instant`, of which nothing is claimed.
