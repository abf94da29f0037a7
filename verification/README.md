# native-keyboard

Keyboard pipelines for a Windows desktop overlay, verified with Verus.

* `src/win_hook.rs`: the opt-in low-level keyboard hook, which swallows keys
  while it is installed.
* `src/raw_input.rs`: the passive raw-input observer, which swallows nothing.
* `src/modifiers.rs`, `src/character.rs`, `src/event.rs`, `src/tsfn.rs`,
  `src/error.rs`, `src/win32.rs`: what the two share.
* `src/hook_laws.rs`, `src/observer_laws.rs`: what holds of them over any
  series of events.

The library makes no system call. Its state machines say which call to make
and take the outcome back; `app/` makes the calls and binds the whole to Node.
