//! Engine core: window settings and errors, asset handles, frame counting, actions and integer rectangles.

use vstd::prelude::*;

verus! {

/// Window settings.
#[derive(Debug)]
pub struct AppConfig {
    pub window_title: String,
    pub window_width: u32,
    pub window_height: u32,
}

impl Default for AppConfig {
    /// "Heat City" in a 1280 x 720 window.
    fn default() -> (c: AppConfig)
        ensures
            c.window_title@ == "Heat City"@,
            c.window_width == 1280,
            c.window_height == 720,
    {
        AppConfig { window_title: "Heat City".to_owned(), window_width: 1280, window_height: 720 }
    }
}

/// Errors of the engine's window, GPU, render and event-loop layers.
#[derive(Debug)]
pub enum AppError {
    Window(String),
    Gpu(String),
    Render(String),
    EventLoop(String),
}

/// Untyped handle to a loaded asset; id 0 is the null handle.
#[derive(Debug, Clone, Copy, PartialEq, Eq, Structural, Hash)]
pub struct Handle {
    pub id: u32,
}

/// Handle to a GPU texture.
pub type TextureHandle = Handle;

impl Handle {
    pub fn id(&self) -> (i: u32)
        ensures
            i == self.id,
    {
        self.id
    }

    /// The null handle (used as a fallback).
    pub fn null() -> (h: Handle)
        ensures
            h.id == 0,
    {
        Handle { id: 0 }
    }

    pub fn is_null(&self) -> (b: bool)
        ensures
            b == (self.id == 0),
    {
        self.id == 0
    }
}

/// Frame timestamps (in nanoseconds of a monotonic clock) seen within the
/// last `window` nanoseconds.
#[derive(Debug)]
pub struct FpsCounter {
    pub samples: Vec<u64>,
    pub window: u64,
}

/// Keeps the samples taken at or after the cutoff.
pub open spec fn at_or_after(cutoff: u64) -> spec_fn(u64) -> bool {
    |t: u64| t >= cutoff
}

/// The oldest time still inside the window ending at `now` (0 when the
/// window reaches back before the clock's start).
pub open spec fn window_start(now: u64, window: u64) -> u64 {
    if now >= window { (now - window) as u64 } else { 0 }
}

impl Default for FpsCounter {
    fn default() -> (f: FpsCounter)
        ensures
            f.samples@.len() == 0,
            f.window == 500_000_000,
    {
        FpsCounter::new()
    }
}

impl FpsCounter {
    /// No samples; a 500 ms window.
    pub fn new() -> (f: FpsCounter)
        ensures
            f.samples@.len() == 0,
            f.window == 500_000_000,
    {
        FpsCounter { samples: Vec::new(), window: 500_000_000 }
    }

    /// Records a frame at `now` and drops samples older than the window.
    pub fn tick(&mut self, now: u64)
        ensures
            final(self).samples@ == old(self).samples@.push(now).filter(
                at_or_after(window_start(now, old(self).window)),
            ),
            final(self).window == old(self).window,
    {
        self.samples.push(now);
        let cutoff = now.saturating_sub(self.window);
        let mut all: Vec<u64> = Vec::new();
        std::mem::swap(&mut all, &mut self.samples);
        let ghost orig = all@;
        let n = all.len();
        let mut i: usize = 0;
        while i < n
            invariant
                n == orig.len(),
                0 <= i <= n,
                all@ == orig,
                cutoff == window_start(now, self.window),
                self.window == old(self).window,
                self.samples@ == orig.take(i as int).filter(at_or_after(cutoff)),
            decreases n - i,
        {
            let t = all[i];
            proof {
                assert(orig.take(i as int + 1) =~= orig.take(i as int).push(t));
                orig.take(i as int).lemma_filter_push(t, at_or_after(cutoff));
            }
            if t >= cutoff {
                self.samples.push(t);
            }
            i = i + 1;
        }
        proof {
            assert(orig.take(n as int) =~= orig);
        }
    }
}

/// A frame just recorded is always counted, and every kept sample lies in
/// the window.
pub proof fn lemma_tick_keeps_window(samples: Seq<u64>, now: u64, window: u64)
    ensures
        samples.push(now).filter(at_or_after(window_start(now, window))).contains(now),
        forall|k: int| 0 <= k < samples.push(now).filter(at_or_after(window_start(now, window))).len()
            ==> #[trigger] samples.push(now).filter(at_or_after(window_start(now, window)))[k]
                >= window_start(now, window),
{
    let f = at_or_after(window_start(now, window));
    samples.lemma_filter_push(now, f);
    assert(samples.filter(f).push(now).last() == now);
    assert forall|k: int| 0 <= k < samples.push(now).filter(f).len()
        implies #[trigger] samples.push(now).filter(f)[k] >= window_start(now, window) by {
        samples.push(now).lemma_filter_pred(f, k);
    }
}

/// High-level game actions that keys are mapped to.
#[derive(Debug, Clone, Copy, PartialEq, Eq, Structural, Hash)]
pub enum Action {
    MoveUp,
    MoveDown,
    MoveLeft,
    MoveRight,
    Sprint,
    Interact,
    Attack,
    ToggleDebug,
    Escape,
}

/// Draw layer of the ground tiles; sprites are drawn in increasing layer
/// order.
pub const LAYER_GROUND: i32 = 0;

/// Draw layer of decals on the ground.
pub const LAYER_DECALS: i32 = 10;

/// Draw layer of characters and vehicles.
pub const LAYER_ENTITIES: i32 = 20;

/// Draw layer of roofs and other overhead sprites.
pub const LAYER_OVERHEAD: i32 = 30;

/// Draw layer of effects.
pub const LAYER_EFFECTS: i32 = 40;

/// Draw layer of the user interface.
pub const LAYER_UI: i32 = 50;

/// Integer rectangle for zone bounds and tile areas.
#[derive(Debug, Clone, Copy, PartialEq, Eq, Structural)]
pub struct Rect {
    pub x: i32,
    pub y: i32,
    pub w: i32,
    pub h: i32,
}

impl Rect {
    pub fn new(x: i32, y: i32, w: i32, h: i32) -> (r: Rect)
        ensures
            r.x == x,
            r.y == y,
            r.w == w,
            r.h == h,
    {
        Rect { x, y, w, h }
    }
}

} // verus!
