//! The rules of the presentation layer: which host key is which pad key, how
//! a framebuffer cell becomes a screen pixel, and what the window loop does
//! on each event.
//!
//! The window itself, the keyboard and the renderer belong to the driver.
//! The driver turns what the host reports into a [`PlatformEvent`], asks
//! [`Platform::handle_event`] what to do, and does it.

use vstd::prelude::*;
use std::convert::Infallible;
use crate::machine::{KEY_COUNT, PIXEL_ON};

verus! {

/// Width of the display surface in pixels.
pub const DISPLAY_WIDTH: u32 = 64;

/// Height of the display surface in pixels.
pub const DISPLAY_HEIGHT: u32 = 32;

/// A key of the host keyboard, named by its position.
///
/// The sixteen keys of the left-hand block stand for the pad. Every other
/// key, and a key that the host cannot name, is `Other`.
#[derive(Clone, Copy, Debug, PartialEq, Eq, Structural)]
pub enum KeyCode {
    Digit1,
    Digit2,
    Digit3,
    Digit4,
    KeyQ,
    KeyW,
    KeyE,
    KeyR,
    KeyA,
    KeyS,
    KeyD,
    KeyF,
    KeyZ,
    KeyX,
    KeyC,
    KeyV,
    Other,
}

/// The pad key that a host key stands for.
///
/// ```text
/// pad          keyboard
/// 1 2 3 C      1 2 3 4
/// 4 5 6 D      Q W E R
/// 7 8 9 E      A S D F
/// A 0 B F      Z X C V
/// ```
pub open spec fn pad_key_of(key_code: KeyCode) -> Option<int> {
    match key_code {
        KeyCode::Digit1 => Some(0x1),
        KeyCode::Digit2 => Some(0x2),
        KeyCode::Digit3 => Some(0x3),
        KeyCode::Digit4 => Some(0xC),
        KeyCode::KeyQ => Some(0x4),
        KeyCode::KeyW => Some(0x5),
        KeyCode::KeyE => Some(0x6),
        KeyCode::KeyR => Some(0xD),
        KeyCode::KeyA => Some(0x7),
        KeyCode::KeyS => Some(0x8),
        KeyCode::KeyD => Some(0x9),
        KeyCode::KeyF => Some(0xE),
        KeyCode::KeyZ => Some(0xA),
        KeyCode::KeyX => Some(0x0),
        KeyCode::KeyC => Some(0xB),
        KeyCode::KeyV => Some(0xF),
        KeyCode::Other => None,
    }
}

/// The key states after a host key went down or up: the pad key that it
/// stands for takes the new state, and a key off the pad changes nothing.
pub open spec fn keys_after(keys: Seq<bool>, key_code: KeyCode, pressed: bool) -> Seq<bool> {
    match pad_key_of(key_code) {
        Some(key) => keys.update(key, pressed),
        None => keys,
    }
}

/// The pad key that a host key stands for, if it stands for one.
pub fn pad_key(key_code: KeyCode) -> (key: Option<usize>)
    ensures
        key matches Some(k) ==> pad_key_of(key_code) == Some(k as int) && k < KEY_COUNT,
        key is None ==> pad_key_of(key_code) is None,
{
    match key_code {
        KeyCode::Digit1 => Some(0x1),
        KeyCode::Digit2 => Some(0x2),
        KeyCode::Digit3 => Some(0x3),
        KeyCode::Digit4 => Some(0xC),
        KeyCode::KeyQ => Some(0x4),
        KeyCode::KeyW => Some(0x5),
        KeyCode::KeyE => Some(0x6),
        KeyCode::KeyR => Some(0xD),
        KeyCode::KeyA => Some(0x7),
        KeyCode::KeyS => Some(0x8),
        KeyCode::KeyD => Some(0x9),
        KeyCode::KeyF => Some(0xE),
        KeyCode::KeyZ => Some(0xA),
        KeyCode::KeyX => Some(0x0),
        KeyCode::KeyC => Some(0xB),
        KeyCode::KeyV => Some(0xF),
        KeyCode::Other => None,
    }
}

/// Records that a host key went down or up.
pub fn handle_key_input(keys: &mut [bool; 16], key_code: KeyCode, pressed: bool)
    ensures
        final(keys)@ == keys_after(old(keys)@, key_code, pressed),
{
    if let Some(key) = pad_key(key_code) {
        keys[key] = pressed;
    }
}

/// The four bytes, red, green, blue and alpha, of a framebuffer cell on
/// screen: opaque white for a lit cell and opaque black for any other.
pub open spec fn pixel_rgba(pixel: u32) -> Seq<u8> {
    if pixel == PIXEL_ON {
        seq![0xFFu8, 0xFFu8, 0xFFu8, 0xFFu8]
    } else {
        seq![0x00u8, 0x00u8, 0x00u8, 0xFFu8]
    }
}

/// Paints the framebuffer into a frame of four bytes per pixel.
///
/// Pixel `i` of the frame shows cell `i` of the framebuffer, so the
/// framebuffer must have a cell for each whole pixel of the frame. Bytes
/// after the last whole pixel stay as they are.
pub fn update_pixels(frame: &mut [u8], chip8_display: &[u32])
    requires
        old(frame)@.len() / 4 <= chip8_display@.len(),
    ensures
        final(frame)@.len() == old(frame)@.len(),
        forall|i: int|
            0 <= i < old(frame)@.len() / 4 * 4 ==> final(frame)@[i] == pixel_rgba(
                chip8_display@[i / 4],
            )[i % 4],
        forall|i: int|
            old(frame)@.len() / 4 * 4 <= i < old(frame)@.len() ==> final(frame)@[i] == old(
                frame,
            )@[i],
{
    let pixels: usize = frame.len() / 4;
    let mut pixel: usize = 0;
    while pixel < pixels
        invariant
            pixel <= pixels,
            pixels == old(frame)@.len() / 4,
            pixels <= chip8_display@.len(),
            frame@.len() == old(frame)@.len(),
            frame@.len() <= usize::MAX,
            forall|i: int|
                0 <= i < pixel * 4 ==> frame@[i] == pixel_rgba(chip8_display@[i / 4])[i % 4],
            forall|i: int| pixel * 4 <= i < frame@.len() ==> frame@[i] == old(frame)@[i],
        decreases pixels - pixel,
    {
        let shade: u8 = if chip8_display[pixel] == PIXEL_ON {
            0xFF
        } else {
            0x00
        };
        let at: usize = pixel * 4;
        frame[at] = shade;
        frame[at + 1] = shade;
        frame[at + 2] = shade;
        frame[at + 3] = 0xFF;
        pixel += 1;
    }
}

/// What the host reports to the window loop.
#[derive(Clone, Copy, Debug, PartialEq, Eq, Structural)]
pub enum PlatformEvent {
    /// The user asked to close the window.
    CloseRequested,
    /// A key went down or up.
    KeyboardInput { key_code: KeyCode, pressed: bool },
    /// The window has a new size.
    Resized { width: u32, height: u32 },
    /// The window wants its contents drawn.
    RedrawRequested,
    /// All pending events were handled.
    AboutToWait,
    /// The surface could not take the size it was asked to take.
    ResizeFailed,
    /// The emulator was updated; `should_quit` is its wish to stop.
    Updated { should_quit: bool },
    /// The frame could not be shown.
    RenderFailed,
    /// Anything else.
    Other,
}

/// What the driver does next.
#[derive(Clone, Copy, Debug, PartialEq, Eq, Structural)]
pub enum PlatformAction {
    /// Nothing: wait for the next event.
    Continue,
    /// Leave the window loop.
    Exit,
    /// Give the surface this size, and report `ResizeFailed` if it refuses.
    ResizeSurface { width: u32, height: u32 },
    /// Update the emulator with the current keys and report `Updated`.
    Update,
    /// Paint the framebuffer into the frame and show it, and report
    /// `RenderFailed` if that fails.
    Present,
    /// Ask the window for a redraw.
    RequestRedraw,
}

/// The action that answers each event.
pub open spec fn action_for(event: PlatformEvent) -> PlatformAction {
    match event {
        PlatformEvent::CloseRequested => PlatformAction::Exit,
        PlatformEvent::KeyboardInput { .. } => PlatformAction::Continue,
        PlatformEvent::Resized { width, height } => PlatformAction::ResizeSurface { width, height },
        PlatformEvent::RedrawRequested => PlatformAction::Update,
        PlatformEvent::AboutToWait => PlatformAction::RequestRedraw,
        PlatformEvent::ResizeFailed => PlatformAction::Exit,
        PlatformEvent::Updated { should_quit } => if should_quit {
            PlatformAction::Exit
        } else {
            PlatformAction::Present
        },
        PlatformEvent::RenderFailed => PlatformAction::Exit,
        PlatformEvent::Other => PlatformAction::Continue,
    }
}

/// The key states after an event: only keyboard input changes them.
pub open spec fn keys_after_event(keys: Seq<bool>, event: PlatformEvent) -> Seq<bool> {
    match event {
        PlatformEvent::KeyboardInput { key_code, pressed } => keys_after(keys, key_code, pressed),
        _ => keys,
    }
}

/// The decisions of the window loop.
#[derive(Clone, Copy, Debug, PartialEq, Eq, Structural)]
pub struct Platform;

impl Platform {
    /// A platform for a window with the given title and size. Always
    /// succeeds; the title and the size are the driver's to use.
    pub fn new(_title: &str, _window_width: u32, _window_height: u32) -> (platform: Result<
        Platform,
        Infallible,
    >)
        ensures
            platform == Ok::<Platform, Infallible>(Platform),
    {
        Ok(Platform)
    }

    /// Handles one event: updates the key states and says what to do next.
    pub fn handle_event(&self, keys: &mut [bool; 16], event: PlatformEvent) -> (action:
        PlatformAction)
        ensures
            action == action_for(event),
            final(keys)@ == keys_after_event(old(keys)@, event),
    {
        match event {
            PlatformEvent::CloseRequested => PlatformAction::Exit,
            PlatformEvent::KeyboardInput { key_code, pressed } => {
                handle_key_input(keys, key_code, pressed);
                PlatformAction::Continue
            },
            PlatformEvent::Resized { width, height } => PlatformAction::ResizeSurface {
                width,
                height,
            },
            PlatformEvent::RedrawRequested => PlatformAction::Update,
            PlatformEvent::AboutToWait => PlatformAction::RequestRedraw,
            PlatformEvent::ResizeFailed => PlatformAction::Exit,
            PlatformEvent::Updated { should_quit } => if should_quit {
                PlatformAction::Exit
            } else {
                PlatformAction::Present
            },
            PlatformEvent::RenderFailed => PlatformAction::Exit,
            PlatformEvent::Other => PlatformAction::Continue,
        }
    }
}

} // verus!
