//! The window shell: a state machine from window events to the actions that
//! the program owning the native window performs.
use vstd::prelude::*;

use crate::frame::{
    filled_frame, fits, frame_len, frame_wf, resized, resized_frame, Frame, FrameView,
};

verus! {

/// Width of the window when it is created, in logical units, and of the
/// first frame, in pixels.
pub const INITIAL_WIDTH: u32 = 800;

/// Height of the window when it is created, in logical units, and of the
/// first frame, in pixels.
pub const INITIAL_HEIGHT: u32 = 600;

/// Where the shell is in its life.
#[derive(Clone, Copy, Debug, PartialEq, Eq, Structural)]
pub enum Phase {
    /// No window exists yet.
    Uninitialized,
    /// The window and its frame exist and events are handled.
    Active,
    /// The event loop has ended; no event changes anything any more.
    Terminated,
}

/// The physical key of a keyboard event, as far as the shell cares.
#[derive(Clone, Copy, Debug, PartialEq, Eq, Structural)]
pub enum Key {
    Escape,
    Other,
}

/// An event delivered by the environment.
#[derive(Clone, Copy, Debug, PartialEq, Eq, Structural)]
pub enum Event {
    /// The application may create its window.
    Resumed,
    /// The user or the system asked to close the window.
    CloseRequested,
    /// The window wants a new frame.
    RedrawRequested,
    /// The window's physical size changed.
    Resized { width: u32, height: u32 },
    /// A key event from some keyboard, for some window.
    KeyboardInput { window: u64, device: u64, key: Key },
    /// Presenting the last frame failed.
    PresentFailed,
    /// Anything else.
    Other,
}

/// What the owner of the window is asked to do after an event.
#[derive(Clone, Copy, Debug, PartialEq, Eq, Structural)]
pub enum Action {
    /// Create the window with this logical size and a presentation surface
    /// whose buffer has this size in pixels, then request a redraw.
    CreateWindow { width: u32, height: u32 },
    /// Present the freshly filled frame, then request the next redraw.
    Present,
    /// Resize the presentation surface and its buffer, then request a redraw.
    Resize { width: u32, height: u32 },
    /// Leave the event loop normally.
    Exit,
    /// The frame cannot take the requested size: stop with a failure.
    Abort,
    /// Nothing to do.
    Ignore,
}

/// What the shell holds: its phase and its frame.
pub struct ShellView {
    pub phase: Phase,
    pub frame: FrameView,
}

/// The shell after one event, and the action that the event asks for.
pub open spec fn step(s: ShellView, e: Event) -> (ShellView, Action) {
    let terminated = ShellView { phase: Phase::Terminated, ..s };
    match s.phase {
        Phase::Uninitialized => match e {
            Event::Resumed => (
                ShellView {
                    phase: Phase::Active,
                    frame: resized_frame(s.frame, INITIAL_WIDTH, INITIAL_HEIGHT),
                },
                Action::CreateWindow { width: INITIAL_WIDTH, height: INITIAL_HEIGHT },
            ),
            _ => (s, Action::Ignore),
        },
        Phase::Active => match e {
            Event::CloseRequested => (terminated, Action::Exit),
            Event::RedrawRequested => (
                ShellView { frame: filled_frame(s.frame), ..s },
                Action::Present,
            ),
            Event::Resized { width, height } => if fits(width, height) {
                (
                    ShellView { frame: resized_frame(s.frame, width, height), ..s },
                    Action::Resize { width, height },
                )
            } else {
                (terminated, Action::Abort)
            },
            Event::KeyboardInput { key: Key::Escape, .. } => (terminated, Action::Exit),
            Event::PresentFailed => (terminated, Action::Exit),
            _ => (s, Action::Ignore),
        },
        Phase::Terminated => (s, Action::Ignore),
    }
}

/// The application state: one window's lifecycle and its frame.
pub struct Shell {
    phase: Phase,
    frame: Frame,
}

impl View for Shell {
    type V = ShellView;

    closed spec fn view(&self) -> ShellView {
        ShellView { phase: self.phase, frame: self.frame@ }
    }
}

impl Shell {
    pub open spec fn wf(&self) -> bool {
        frame_wf(self@.frame)
    }

    /// A shell before its window exists, with an empty frame.
    pub fn new() -> (s: Shell)
        ensures
            s.wf(),
            s@ == (ShellView {
                phase: Phase::Uninitialized,
                frame: FrameView { width: 0, height: 0, bytes: Seq::empty() },
            }),
    {
        Shell { phase: Phase::Uninitialized, frame: Frame::empty() }
    }

    pub fn phase(&self) -> (r: Phase)
        ensures
            r == self@.phase,
    {
        self.phase
    }

    pub fn frame(&self) -> (r: &Frame)
        ensures
            r@ == self@.frame,
    {
        &self.frame
    }

    /// Handles one event: updates the phase and the frame, and says what the
    /// owner of the window has to do.
    pub fn handle(&mut self, event: Event) -> (a: Action)
        requires
            old(self).wf(),
        ensures
            final(self).wf(),
            (final(self)@, a) == step(old(self)@, event),
    {
        match self.phase {
            Phase::Uninitialized => match event {
                Event::Resumed => {
                    let ok = self.frame.resize(INITIAL_WIDTH, INITIAL_HEIGHT);
                    assert(ok);
                    self.phase = Phase::Active;
                    Action::CreateWindow { width: INITIAL_WIDTH, height: INITIAL_HEIGHT }
                },
                _ => Action::Ignore,
            },
            Phase::Active => match event {
                Event::CloseRequested => {
                    self.phase = Phase::Terminated;
                    Action::Exit
                },
                Event::RedrawRequested => {
                    self.frame.fill();
                    Action::Present
                },
                Event::Resized { width, height } => {
                    if self.frame.resize(width, height) {
                        Action::Resize { width, height }
                    } else {
                        self.phase = Phase::Terminated;
                        Action::Abort
                    }
                },
                Event::KeyboardInput { key: Key::Escape, .. } => {
                    self.phase = Phase::Terminated;
                    Action::Exit
                },
                Event::PresentFailed => {
                    self.phase = Phase::Terminated;
                    Action::Exit
                },
                _ => Action::Ignore,
            },
            Phase::Terminated => Action::Ignore,
        }
    }
}

/// Resizing to a size the buffer already has leaves the bytes as they are.
proof fn lemma_resized_to_own_length(bytes: Seq<u8>, len: int)
    requires
        bytes.len() == len,
    ensures
        resized(bytes, len) == bytes,
{
    assert(resized(bytes, len) =~= bytes);
}

/// A second resize to the same size, right after the first, changes nothing:
/// the shell, its frame and the frame's length are those after one resize.
pub proof fn lemma_resize_idempotent(s: ShellView, width: u32, height: u32)
    ensures
        step(step(s, Event::Resized { width, height }).0, Event::Resized { width, height }).0
            == step(s, Event::Resized { width, height }).0,
{
    let once = step(s, Event::Resized { width, height }).0;
    if s.phase == Phase::Active && fits(width, height) {
        let len = frame_len(width as int, height as int);
        assert(resized(s.frame.bytes, len).len() == len);
        lemma_resized_to_own_length(once.frame.bytes, len);
    }
}

/// A close request ends an active shell, and the loop with it.
pub proof fn lemma_close_terminates(s: ShellView)
    requires
        s.phase == Phase::Active,
    ensures
        step(s, Event::CloseRequested).0.phase == Phase::Terminated,
        step(s, Event::CloseRequested).1 == Action::Exit,
{
}

/// Once terminated, every event is ignored: neither the phase nor the frame
/// changes.
pub proof fn lemma_terminated_is_final(s: ShellView, e: Event)
    requires
        s.phase == Phase::Terminated,
    ensures
        step(s, e) == (s, Action::Ignore),
{
}

/// The Escape key ends an active shell, whichever window and keyboard the
/// event came from.
pub proof fn lemma_escape_terminates(s: ShellView, window: u64, device: u64)
    requires
        s.phase == Phase::Active,
    ensures
        step(s, Event::KeyboardInput { window, device, key: Key::Escape }).0.phase
            == Phase::Terminated,
        step(s, Event::KeyboardInput { window, device, key: Key::Escape }).1 == Action::Exit,
{
}

} // verus!
