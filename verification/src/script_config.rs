//! What scripts see of the game configuration: a cached copy of its
//! integer and flag settings, refreshed from the configuration, and the
//! normalisation of the values scripts ask the engine to set.
use vstd::prelude::*;

use crate::gameconfig::GameConfig;

verus! {

/// Smallest render width a script can request.
pub const MIN_RENDER_WIDTH: u32 = 120;
/// Largest render width a script can request.
pub const MAX_RENDER_WIDTH: u32 = 7680;
/// Smallest render height a script can request.
pub const MIN_RENDER_HEIGHT: u32 = 120;
/// Largest render height a script can request.
pub const MAX_RENDER_HEIGHT: u32 = 4320;
/// Frame rate a script gets when it asks for none in particular.
pub const DEFAULT_SCRIPT_TARGET_FPS: u32 = 60;

/// The configuration values scripts read, cached between frames.
#[derive(Clone, Copy, Debug, PartialEq, Eq, Structural)]
pub struct GameConfigSnapshot {
    pub fullscreen: bool,
    pub vsync: bool,
    pub target_fps: u32,
    pub render_width: u32,
    pub render_height: u32,
    pub background_r: u8,
    pub background_g: u8,
    pub background_b: u8,
    pub pixel_snap_camera: bool,
}

impl Default for GameConfigSnapshot {
    /// The values scripts see before the first refresh.
    fn default() -> (r: Self)
        ensures
            r == (GameConfigSnapshot {
                fullscreen: false,
                vsync: false,
                target_fps: 60,
                render_width: 640,
                render_height: 360,
                background_r: 80,
                background_g: 80,
                background_b: 80,
                pixel_snap_camera: true,
            }),
    {
        GameConfigSnapshot {
            fullscreen: false,
            vsync: false,
            target_fps: 60,
            render_width: 640,
            render_height: 360,
            background_r: 80,
            background_g: 80,
            background_b: 80,
            pixel_snap_camera: true,
        }
    }
}

impl GameConfigSnapshot {
    /// Copy the display flags, frame rate, render size, background color
    /// and pixel-snap flag of `config`.
    pub fn refresh(&mut self, config: &GameConfig)
        ensures
            *final(self) == (GameConfigSnapshot {
                fullscreen: config.fullscreen,
                vsync: config.vsync,
                target_fps: config.target_fps,
                render_width: config.render_width,
                render_height: config.render_height,
                background_r: config.background_color.r,
                background_g: config.background_color.g,
                background_b: config.background_color.b,
                pixel_snap_camera: config.pixel_snap_camera,
            }),
    {
        self.fullscreen = config.fullscreen;
        self.vsync = config.vsync;
        self.target_fps = config.target_fps;
        self.render_width = config.render_width;
        self.render_height = config.render_height;
        self.background_r = config.background_color.r;
        self.background_g = config.background_color.g;
        self.background_b = config.background_color.b;
        self.pixel_snap_camera = config.pixel_snap_camera;
    }
}

/// `v` brought into `lo..=hi`.
pub open spec fn clamped(v: u32, lo: u32, hi: u32) -> u32 {
    if v < lo {
        lo
    } else if v > hi {
        hi
    } else {
        v
    }
}

/// Bringing a value into `lo..=hi` (with `lo <= hi`) gives a value in that
/// range, leaves a value already in it unchanged, and gives the nearer end
/// for one outside it; doing it twice is doing it once.
pub proof fn lemma_clamp_laws(v: u32, lo: u32, hi: u32)
    requires
        lo <= hi,
    ensures
        lo <= clamped(v, lo, hi) <= hi,
        lo <= v <= hi ==> clamped(v, lo, hi) == v,
        v < lo ==> clamped(v, lo, hi) == lo,
        v > hi ==> clamped(v, lo, hi) == hi,
        clamped(clamped(v, lo, hi), lo, hi) == clamped(v, lo, hi),
{
}

/// The render size a script's request for `width` x `height` becomes:
/// each side brought into its allowed range.
pub fn requested_render_size(width: u32, height: u32) -> (r: (u32, u32))
    ensures
        r == (clamped(width, MIN_RENDER_WIDTH, MAX_RENDER_WIDTH), clamped(height, MIN_RENDER_HEIGHT, MAX_RENDER_HEIGHT)),
{
    let w = if width < MIN_RENDER_WIDTH {
        MIN_RENDER_WIDTH
    } else if width > MAX_RENDER_WIDTH {
        MAX_RENDER_WIDTH
    } else {
        width
    };
    let h = if height < MIN_RENDER_HEIGHT {
        MIN_RENDER_HEIGHT
    } else if height > MAX_RENDER_HEIGHT {
        MAX_RENDER_HEIGHT
    } else {
        height
    };
    (w, h)
}

/// The frame rate a script's request becomes: the one it asks for, or the
/// default when it passes none.
pub fn requested_target_fps(fps: Option<u32>) -> (r: u32)
    ensures
        r == match fps {
            Some(f) => f,
            None => DEFAULT_SCRIPT_TARGET_FPS,
        },
{
    match fps {
        Some(f) => f,
        None => DEFAULT_SCRIPT_TARGET_FPS,
    }
}

} // verus!
