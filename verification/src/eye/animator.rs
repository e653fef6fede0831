//! The Eye's motion decisions. Each cycle the animation reads the desired
//! [`EyeState`] and answers with one [`EyeAction`]: hold a still frame, or dart
//! the pupil from where it rests to a new one of the 13 positions. Drawing the
//! frames and sleeping between them is the caller's part.

use vstd::prelude::*;

use crate::clock::{duration_subsec_nanos, since_unix_epoch, system_now};
use crate::usage::mood::mood_band;
use crate::usage::types::{Mood, Status, PERCENT};

verus! {

/// How many pupil positions the Eye darts between: the centre, four cardinals
/// and four diagonals at full reach, four cardinals at half reach. Index 0 is
/// the centre.
pub const POSITION_COUNT: usize = 13;

/// How long the still states (Asleep, Blind, Shattered) hold a frame before
/// the state is read again, in milliseconds.
pub const IDLE_TICK_MS: u64 = 500;

/// The frame cadence, in milliseconds (about 30 frames a second).
pub const FRAME_MS: u64 = 33;

/// What the Eye should show this cycle.
#[derive(Clone, Copy, Debug, PartialEq, Eq, Structural)]
pub enum EyeState {
    /// Startup, no data yet: lid closed, no darting.
    Asleep,
    /// Credentials gone or token dead: lid closed, no darting.
    Blind,
    /// A moving Mood: the pupil darts.
    Mood(Mood),
    /// The Driving Gauge is at 100%: frozen wide, pupil centred, cracked.
    Shattered,
}

/// Shattered is its own frozen state; every other Mood is a moving one.
pub fn eye_state_from_mood(mood: Mood) -> (state: EyeState)
    ensures
        state == (if mood == Mood::Shattered {
            EyeState::Shattered
        } else {
            EyeState::Mood(mood)
        }),
{
    match mood {
        Mood::Shattered => EyeState::Shattered,
        other => EyeState::Mood(other),
    }
}

/// The desired Eye state: a development override Mood wins; otherwise, with
/// no app state yet the Eye is asleep; Asleep and Blind show as such; any
/// other status animates the Snapshot's Mood, or sleeps without one.
pub open spec fn desired(fake: Option<Mood>, snapshot: Option<(Status, Option<Mood>)>) -> EyeState {
    let from_mood = |m: Mood|
        if m == Mood::Shattered {
            EyeState::Shattered
        } else {
            EyeState::Mood(m)
        };
    match fake {
        Some(m) => from_mood(m),
        None => match snapshot {
            None => EyeState::Asleep,
            Some((Status::Asleep, _)) => EyeState::Asleep,
            Some((Status::Blind, _)) => EyeState::Blind,
            Some((_, Some(m))) => from_mood(m),
            Some((_, None)) => EyeState::Asleep,
        },
    }
}

/// Decide the desired Eye state from the override Mood (if one is set) and
/// the current Snapshot's status and Mood (if the app state exists yet).
pub fn desired_state(fake: Option<Mood>, snapshot: Option<(Status, Option<Mood>)>) -> (state:
    EyeState)
    ensures
        state == desired(fake, snapshot),
{
    if let Some(mood) = fake {
        return eye_state_from_mood(mood);
    }
    match snapshot {
        None => EyeState::Asleep,
        Some((Status::Asleep, _)) => EyeState::Asleep,
        Some((Status::Blind, _)) => EyeState::Blind,
        Some((_, Some(mood))) => eye_state_from_mood(mood),
        Some((_, None)) => EyeState::Asleep,
    }
}

/// A Driving Gauge at or above 100% shatters the Eye whenever the reading is
/// on show (Normal or Stale).
pub proof fn lemma_full_gauge_shatters(status: Status, pct: int)
    requires
        pct >= 100 * PERCENT,
        status == Status::Normal || status == Status::Stale,
    ensures
        desired(None, Some((status, Some(mood_band(pct))))) == EyeState::Shattered,
{
}

/// The Eye is closed while Asleep (before the first reading) and while Blind,
/// whatever Mood the Snapshot still holds, and asleep before the app state
/// exists.
pub proof fn lemma_closed_eye_states(mood: Option<Mood>)
    ensures
        desired(None, Some((Status::Asleep, mood))) == EyeState::Asleep,
        desired(None, Some((Status::Blind, mood))) == EyeState::Blind,
        desired(None, None) == EyeState::Asleep,
{
}

/// With no override, a reading on show (Normal or Stale) with a moving Mood
/// opens the Eye in that Mood, calm included; the Eye is asleep only before
/// the app state exists, while the status is Asleep, or when the reading on
/// show has no Mood.
pub proof fn lemma_open_eye_follows_mood(status: Status, mood: Option<Mood>)
    ensures
        (status == Status::Normal || status == Status::Stale) && (mood matches Some(m)) && mood
            != Some(Mood::Shattered) ==> desired(None, Some((status, mood))) == EyeState::Mood(
            mood->0,
        ),
        (desired(None, Some((status, mood))) == EyeState::Asleep) <==> (status == Status::Asleep
            || (status != Status::Blind && mood is None)),
        (desired(None, Some((status, mood))) == EyeState::Blind) <==> status == Status::Blind,
{
}

/// How long a dart takes to reach its new position, per Mood, in
/// milliseconds: calmer Moods glide, frantic snaps.
pub open spec fn dart_ms(mood: Mood) -> u64 {
    match mood {
        Mood::Calm => 480,
        Mood::Nervous => 300,
        Mood::Paranoid => 170,
        Mood::Frantic | Mood::Shattered => 100,
    }
}

/// How long the pupil holds still between darts, per Mood, in milliseconds.
pub open spec fn tick_ms(mood: Mood) -> u64 {
    match mood {
        Mood::Calm => 9500,
        Mood::Nervous => 650,
        Mood::Paranoid => 220,
        Mood::Frantic | Mood::Shattered => 60,
    }
}

/// The dart duration for a Mood, in milliseconds.
pub fn dart_duration(mood: &Mood) -> (ms: u64)
    ensures
        ms == dart_ms(*mood),
{
    match mood {
        Mood::Calm => 480,
        Mood::Nervous => 300,
        Mood::Paranoid => 170,
        Mood::Frantic | Mood::Shattered => 100,
    }
}

/// The pause between darts for a Mood, in milliseconds.
pub fn tick_interval(mood: &Mood) -> (ms: u64)
    ensures
        ms == tick_ms(*mood),
{
    match mood {
        Mood::Calm => 9500,
        Mood::Nervous => 650,
        Mood::Paranoid => 220,
        Mood::Frantic | Mood::Shattered => 60,
    }
}

/// How many frames a dart of `ms` milliseconds is drawn in: the nearest whole
/// number of frames, at least one.
pub open spec fn frames_for(ms: int) -> int {
    let nearest = (2 * ms + FRAME_MS) / (2 * FRAME_MS);
    if nearest < 1 {
        1
    } else {
        nearest
    }
}

/// The frame count of a dart lasting `ms` milliseconds.
pub fn dart_frames(ms: u64) -> (frames: u64)
    ensures
        frames == frames_for(ms as int),
{
    let whole = ms / FRAME_MS;
    let rest = ms % FRAME_MS;
    let nearest = if 2 * rest > FRAME_MS {
        whole + 1
    } else {
        whole
    };
    proof {
        assert(ms == whole * 33 + rest) by (nonlinear_arith)
            requires
                whole == ms / 33,
                rest == ms % 33,
        ;
        assert((2 * ms + 33) / 66 == nearest) by (nonlinear_arith)
            requires
                ms == whole * 33 + rest,
                0 <= rest < 33,
                nearest == (if 2 * rest > 33 {
                    whole + 1
                } else {
                    whole as int
                }),
        ;
    }
    if nearest < 1 {
        1
    } else {
        nearest
    }
}

/// One xorshift32 step.
pub open spec fn xorshift(x: u32) -> u32 {
    let a = x ^ (x << 13u32);
    let b = a ^ (a >> 17u32);
    b ^ (b << 5u32)
}

/// Advance the xorshift32 generator and return its new value.
pub fn next_rand(seed: &mut u32) -> (value: u32)
    ensures
        value == xorshift(*old(seed)),
        *final(seed) == value,
{
    let mut x = *seed;
    x ^= x << 13u32;
    x ^= x >> 17u32;
    x ^= x << 5u32;
    *seed = x;
    x
}

/// xorshift32 never reaches zero from a non-zero seed, so the generator never
/// gets stuck.
pub proof fn lemma_xorshift_nonzero(x: u32)
    requires
        x != 0,
    ensures
        xorshift(x) != 0,
{
    assert(x != 0 ==> ((x ^ (x << 13u32)) ^ ((x ^ (x << 13u32)) >> 17u32)) ^ (((x ^ (x
        << 13u32)) ^ ((x ^ (x << 13u32)) >> 17u32)) << 5u32) != 0) by (bit_vector);
}

/// The position a random value picks when the pupil rests at `current`: one
/// of the other twelve, each for an equal share of the values.
pub open spec fn different_position(value: u32, current: usize) -> usize {
    let candidate = (value % 12) as usize;
    if candidate >= current {
        (candidate + 1) as usize
    } else {
        candidate
    }
}

/// Pick a random position index that differs from `current`, so a dart always
/// moves.
pub fn pick_different(seed: &mut u32, current: usize) -> (idx: usize)
    ensures
        idx == different_position(xorshift(*old(seed)), current),
        *final(seed) == xorshift(*old(seed)),
        idx < POSITION_COUNT,
        idx != current,
{
    let value = next_rand(seed);
    let candidate = (value % 12) as usize;
    if candidate >= current {
        candidate + 1
    } else {
        candidate
    }
}

/// The generator seed a clock reading gives: the sub-second nanoseconds with
/// the lowest bit set, or 1 when the clock read before 1970.
pub open spec fn seed_of(nanos: Option<u32>) -> u32 {
    match nanos {
        Some(n) => n | 1,
        None => 1,
    }
}

/// The seed for a clock reading: the sub-second nanoseconds with the lowest
/// bit set, or 1 without a reading. The seed is never zero.
pub fn seed_from_nanos(nanos: Option<u32>) -> (seed: u32)
    ensures
        seed == seed_of(nanos),
        seed != 0,
        seed & 1 == 1,
{
    match nanos {
        Some(n) => {
            assert((n | 1) & 1 == 1 && (n | 1) != 0) by (bit_vector);
            n | 1
        },
        None => {
            assert(1u32 & 1 == 1) by (bit_vector);
            1
        },
    }
}

/// A non-zero generator seed from the launch instant: the clock's sub-second
/// nanoseconds with the lowest bit set (1 if the clock reads before 1970).
pub fn seed_from_time() -> (seed: u32)
    ensures
        seed != 0,
        seed & 1 == 1,
{
    let nanos = match since_unix_epoch(&system_now()) {
        Ok(elapsed) => Some(duration_subsec_nanos(&elapsed)),
        Err(_) => None,
    };
    seed_from_nanos(nanos)
}

/// A still frame the Eye holds.
#[derive(Clone, Copy, Debug, PartialEq, Eq, Structural)]
pub enum StillFrame {
    /// The closed lid of the Asleep and Blind states.
    ClosedLid,
    /// The frozen, cracked, wide-open stare.
    Shattered,
}

/// What to draw this cycle.
#[derive(Clone, Copy, Debug, PartialEq, Eq, Structural)]
pub enum EyeAction {
    /// Draw `frame`, then wait `hold_ms`.
    Still { frame: StillFrame, hold_ms: u64 },
    /// Sweep the pupil from position `from_idx` (as reached at `from_mood`'s
    /// reach) to position `to_idx` at `mood`'s reach, in `frames` frames of
    /// `FRAME_MS` each, then rest `rest_ms`.
    Dart { from_idx: usize, from_mood: Mood, to_idx: usize, mood: Mood, frames: u64, rest_ms: u64 },
}

/// The animation's memory between cycles: the generator seed, and the
/// position (with the Mood whose reach scaled it) where the pupil rests.
/// Position 0 is the centre at any reach.
#[derive(Clone, Copy, Debug)]
pub struct Animation {
    pub seed: u32,
    pub current_idx: usize,
    pub rest_mood: Mood,
}

impl Animation {
    /// A fresh animation: the pupil rests at the centre.
    pub fn new(seed: u32) -> (animation: Animation)
        ensures
            animation.seed == seed,
            animation.current_idx == 0,
    {
        Animation { seed, current_idx: 0, rest_mood: Mood::Calm }
    }

    /// One cycle of the animation loop. The still states draw their frame,
    /// hold for the idle tick and return the pupil to the centre; a moving
    /// Mood darts from where the pupil rests to a different random position,
    /// which is where the next dart starts.
    pub fn step(&mut self, state: EyeState) -> (action: EyeAction)
        ensures
            match state {
                EyeState::Asleep | EyeState::Blind => {
                    &&& action == EyeAction::Still {
                        frame: StillFrame::ClosedLid,
                        hold_ms: IDLE_TICK_MS,
                    }
                    &&& final(self).current_idx == 0
                    &&& final(self).seed == old(self).seed
                },
                EyeState::Shattered => {
                    &&& action == EyeAction::Still {
                        frame: StillFrame::Shattered,
                        hold_ms: IDLE_TICK_MS,
                    }
                    &&& final(self).current_idx == 0
                    &&& final(self).seed == old(self).seed
                },
                EyeState::Mood(mood) => {
                    let to_idx = different_position(xorshift(old(self).seed), old(self).current_idx);
                    &&& action == EyeAction::Dart {
                        from_idx: old(self).current_idx,
                        from_mood: old(self).rest_mood,
                        to_idx,
                        mood,
                        frames: frames_for(dart_ms(mood) as int) as u64,
                        rest_ms: tick_ms(mood),
                    }
                    &&& final(self).seed == xorshift(old(self).seed)
                    &&& final(self).current_idx == to_idx
                    &&& final(self).rest_mood == mood
                },
            },
    {
        match state {
            EyeState::Asleep | EyeState::Blind => {
                self.current_idx = 0;
                self.rest_mood = Mood::Calm;
                EyeAction::Still { frame: StillFrame::ClosedLid, hold_ms: IDLE_TICK_MS }
            },
            EyeState::Shattered => {
                self.current_idx = 0;
                self.rest_mood = Mood::Calm;
                EyeAction::Still { frame: StillFrame::Shattered, hold_ms: IDLE_TICK_MS }
            },
            EyeState::Mood(mood) => {
                let from_idx = self.current_idx;
                let from_mood = self.rest_mood;
                let to_idx = pick_different(&mut self.seed, from_idx);
                let frames = dart_frames(dart_duration(&mood));
                self.current_idx = to_idx;
                self.rest_mood = mood;
                EyeAction::Dart {
                    from_idx,
                    from_mood,
                    to_idx,
                    mood,
                    frames,
                    rest_ms: tick_interval(&mood),
                }
            },
        }
    }
}

} // verus!
