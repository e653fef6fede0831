# mad-eye

A macOS menubar Eye that watches an account's subscription usage limits and
grows more agitated as the nearest limit fills: calm, nervous, paranoid,
frantic, and finally shattered at 100%.

## Layout

- `src/` is the verified library (Verus):
  - `usage/types.rs` — Gauge, Mood, Status and the Snapshot the Popover draws.
  - `usage/mood.rs` — the Mood bands and the Driving-Gauge rule, with the
    rule stated as a law (`lemma_driving_gauge_rule`).
  - `usage/client.rs` — how an endpoint response's `limits[]` (or its older
    per-window shape) becomes Gauges, and how an HTTP status and its
    `Retry-After` header are classified.
  - `poll.rs` — one poll tick as a fold over the previous Snapshot (`poll_once`,
    specified by `polled`), the Driving-Gauge reselection, the back-off delay,
    and the laws of the failure policy.
  - `eye/animator.rs` — the Eye's motion decisions: desired state, per-Mood
    timings, the xorshift generator and the dart-to-dart animation step.
  - `keychain/read.rs` — the credentials type and the Keychain status mapping.
  - `tray/mod.rs` — the Popover click decision and its reopen guard.
  - `text.rs`, `clock.rs` — text helpers (Unicode trim, unsigned decimals,
    title case) and the clock readings.
- `app/` is the Tauri shell: the tray and Popover, the Keychain read, the
  HTTP fetch, the JSON (de)serialization, the tiny-skia drawing and the
  threads that poll and animate.
- `tests/` exercises the library.

## Utilization units

Utilizations are fixed-point integers: `PERCENT` (one million) units are one
percentage point, so `26 * PERCENT` is 26% used. The app converts the wire's
floating-point numbers at the boundary.

## Running

The app reads the Keychain service name of the credentials item from
`MAD_EYE_KEYCHAIN_SERVICE` and the `User-Agent` the usage endpoint expects
from `MAD_EYE_USER_AGENT`. `MAD_EYE_FAKE_PCT=<0..100>` drives the Eye from a
fixed percentage, for checking the animation without a live account.
