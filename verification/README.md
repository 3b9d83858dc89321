# ui_events_adapters

Verified adapters from platform input (Wayland, Win32, winit and the DOM) to
the `ui-events` vocabulary of keys, pointers and text.

- `src/` is the library, checked by Verus: the key, button and code tables,
  the keyboard reducer, the pointer, touch, tablet and seat bookkeeping, the
  click and tap counter, the Win32 message decisions, and the text-input
  conversions. Every public function states in its contract what it returns
  and how it changes its receiver, and the laws that span calls are public
  proof functions.
- `app/` is the ordinary Rust around it: it reads the platform events and
  makes the platform calls, computes the floating-point parts (positions,
  scroll deltas, orientations, pressures) and builds `ui-events` values.
- `tests/` runs the library on concrete inputs.
