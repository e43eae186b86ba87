//! The decisions of the window's event loop.
//!
//! The loop itself, the window and the GPU surface live with the caller: it
//! turns each event of the windowing system into a `LoopEvent`, asks
//! `WindowState::decide` what to do, does it, and after a frame was drawn
//! asks `WindowState::after_render` what the outcome calls for.
use vstd::prelude::*;

verus! {

/// A size in physical pixels.
#[derive(Clone, Copy, Debug, PartialEq, Eq, Structural)]
pub struct PhysicalSize {
    pub width: u32,
    pub height: u32,
}

/// A window event, as far as the loop tells them apart.
#[derive(Clone, Copy, Debug, PartialEq, Eq, Structural)]
pub enum WindowInput {
    /// The user asked to close the window.
    CloseRequested,
    /// A key changed state; `escape` when the logical key is the named key
    /// Escape, `pressed` when it went down.
    KeyboardInput { pressed: bool, escape: bool },
    /// The window has a new inner size.
    Resized(PhysicalSize),
    /// The scale factor changed; the new size is the window's inner size.
    ScaleFactorChanged,
    /// The window should draw a frame.
    RedrawRequested,
    /// Any other window event.
    Other,
}

/// An event of the event loop.
#[derive(Clone, Copy, Debug, PartialEq, Eq, Structural)]
pub enum LoopEvent {
    /// An event for a window; `for_this_window` when it is ours.
    Window { for_this_window: bool, input: WindowInput },
    /// The loop is about to wait for new events.
    AboutToWait,
    /// Any other event.
    Other,
}

/// What the loop does with an event.
#[derive(Clone, Copy, Debug, PartialEq, Eq, Structural)]
pub enum Command {
    /// Leave the event loop.
    Exit,
    /// Resize the surface to the given size (see `WindowState::resize`).
    Resize(PhysicalSize),
    /// Resize the surface to the window's current inner size.
    ResizeToInnerSize,
    /// Draw new random keys, then render a frame and hand its outcome to
    /// `WindowState::after_render`.
    UpdateAndRender,
    /// Ask the window for another redraw.
    RequestRedraw,
    /// Nothing to do.
    Ignore,
}

/// How rendering a frame ended.
#[derive(Clone, Copy, Debug, PartialEq, Eq, Structural)]
pub enum RenderOutcome {
    /// The frame was presented.
    Presented,
    /// The surface was lost.
    Lost,
    /// The system is out of memory.
    OutOfMemory,
    /// The surface is outdated.
    Outdated,
    /// Getting the next frame timed out.
    Timeout,
}

/// What a render outcome calls for.
#[derive(Clone, Copy, Debug, PartialEq, Eq, Structural)]
pub enum RenderFollowUp {
    /// Go on with the next event.
    Continue,
    /// Reconfigure the surface with this size.
    Resize(PhysicalSize),
    /// Leave the event loop.
    Exit,
    /// Print the error and go on: the next frame resolves it.
    Report,
}

/// The sizes that the window keeps: the size of the window and the size the
/// GPU surface is configured with. The two are always equal (the type
/// invariant `sizes_agree`).
pub struct WindowState {
    size: PhysicalSize,
    surface_width: u32,
    surface_height: u32,
}

impl WindowState {
    /// The surface is configured with the window size.
    #[verifier::type_invariant]
    spec fn sizes_agree(&self) -> bool {
        self.surface_width == self.size.width && self.surface_height == self.size.height
    }
}

/// `(window size, configured surface size)`.
pub type WindowView = (PhysicalSize, PhysicalSize);

impl View for WindowState {
    type V = WindowView;

    closed spec fn view(&self) -> WindowView {
        (self.size, PhysicalSize { width: self.surface_width, height: self.surface_height })
    }
}

/// A size that the surface can be configured with: neither side is zero.
pub open spec fn is_drawable(size: PhysicalSize) -> bool {
    size.width > 0 && size.height > 0
}

/// The sizes after a resize to `new_size`: both become `new_size` when it is
/// drawable; otherwise nothing changes.
pub open spec fn spec_resized(v: WindowView, new_size: PhysicalSize) -> WindowView {
    if is_drawable(new_size) {
        (new_size, new_size)
    } else {
        v
    }
}

/// Whether the state consumes a window event before the loop sees it:
/// it never does.
pub open spec fn spec_input(input: WindowInput) -> bool {
    false
}

/// What the loop does with an event.
pub open spec fn spec_decide(event: LoopEvent) -> Command {
    match event {
        LoopEvent::Window { for_this_window, input } => {
            if !for_this_window || spec_input(input) {
                Command::Ignore
            } else {
                match input {
                    WindowInput::CloseRequested => Command::Exit,
                    WindowInput::KeyboardInput { pressed, escape } => {
                        if pressed && escape {
                            Command::Exit
                        } else {
                            Command::Ignore
                        }
                    },
                    WindowInput::Resized(size) => Command::Resize(size),
                    WindowInput::ScaleFactorChanged => Command::ResizeToInnerSize,
                    WindowInput::RedrawRequested => Command::UpdateAndRender,
                    WindowInput::Other => Command::Ignore,
                }
            }
        },
        LoopEvent::AboutToWait => Command::RequestRedraw,
        LoopEvent::Other => Command::Ignore,
    }
}

/// What a render outcome calls for, given the current window size.
pub open spec fn spec_after_render(size: PhysicalSize, outcome: RenderOutcome) -> RenderFollowUp {
    match outcome {
        RenderOutcome::Presented => RenderFollowUp::Continue,
        RenderOutcome::Lost => RenderFollowUp::Resize(size),
        RenderOutcome::OutOfMemory => RenderFollowUp::Exit,
        RenderOutcome::Outdated => RenderFollowUp::Report,
        RenderOutcome::Timeout => RenderFollowUp::Report,
    }
}

impl WindowState {
    /// The state of a new window of the given inner size: the surface is
    /// configured with that size.
    pub fn new(size: PhysicalSize) -> (s: WindowState)
        ensures
            s@ == (size, size),
            s@.0 == s@.1,
    {
        WindowState { size, surface_width: size.width, surface_height: size.height }
    }

    /// The window size.
    pub fn size(&self) -> (r: PhysicalSize)
        ensures
            r == self@.0,
            self@.0 == self@.1,
    {
        proof {
            use_type_invariant(self);
        }
        self.size
    }

    /// The size the surface is configured with.
    pub fn surface_size(&self) -> (r: PhysicalSize)
        ensures
            r == self@.1,
            self@.0 == self@.1,
    {
        proof {
            use_type_invariant(self);
        }
        PhysicalSize { width: self.surface_width, height: self.surface_height }
    }

    /// Takes a new window size. A size with a zero side is ignored; any other
    /// becomes the window size and the surface size. Returns whether the
    /// surface has to be reconfigured.
    pub fn resize(&mut self, new_size: PhysicalSize) -> (reconfigure: bool)
        ensures
            reconfigure == is_drawable(new_size),
            final(self)@ == spec_resized(old(self)@, new_size),
            new_size.width > 0 && new_size.height > 0 ==> reconfigure && final(self)@.0 == new_size
                && final(self)@.1 == new_size,
            !(new_size.width > 0 && new_size.height > 0) ==> !reconfigure && final(self)@ == old(
                self,
            )@,
            final(self)@.0 == final(self)@.1,
    {
        proof {
            use_type_invariant(&*self);
        }
        if new_size.width > 0 && new_size.height > 0 {
            *self = WindowState {
                size: new_size,
                surface_width: new_size.width,
                surface_height: new_size.height,
            };
            true
        } else {
            false
        }
    }

    /// Whether the state consumes a window event: it consumes none.
    pub fn input(&self, input: &WindowInput) -> (consumed: bool)
        ensures
            consumed == spec_input(*input),
    {
        false
    }

    /// What the loop does with an event: close requests and a pressed Escape
    /// leave the loop, a resize resizes, a change of scale factor resizes to
    /// the window's inner size, a redraw request draws a frame, and the loop
    /// asks for a redraw each time it is about to wait. Events of other
    /// windows, and all others, are ignored.
    pub fn decide(&self, event: &LoopEvent) -> (command: Command)
        ensures
            command == spec_decide(*event),
            *event matches LoopEvent::Window {
                for_this_window: true,
                input: WindowInput::KeyboardInput { pressed, escape },
            } ==> command == (if pressed && escape {
                Command::Exit
            } else {
                Command::Ignore
            }),
            command == Command::Exit ==> (*event matches LoopEvent::Window {
                for_this_window: true,
                input,
            } && (input == WindowInput::CloseRequested || input == (WindowInput::KeyboardInput {
                pressed: true,
                escape: true,
            }))),
    {
        match event {
            LoopEvent::Window { for_this_window, input } => {
                if !*for_this_window || self.input(input) {
                    Command::Ignore
                } else {
                    match input {
                        WindowInput::CloseRequested => Command::Exit,
                        WindowInput::KeyboardInput { pressed, escape } => {
                            if *pressed && *escape {
                                Command::Exit
                            } else {
                                Command::Ignore
                            }
                        },
                        WindowInput::Resized(size) => Command::Resize(*size),
                        WindowInput::ScaleFactorChanged => Command::ResizeToInnerSize,
                        WindowInput::RedrawRequested => Command::UpdateAndRender,
                        WindowInput::Other => Command::Ignore,
                    }
                }
            },
            LoopEvent::AboutToWait => Command::RequestRedraw,
            LoopEvent::Other => Command::Ignore,
        }
    }

    /// What a render outcome calls for: a lost surface is reconfigured with
    /// the current size, running out of memory leaves the loop, an outdated
    /// surface or a timeout is reported and left to the next frame.
    pub fn after_render(&self, outcome: RenderOutcome) -> (follow_up: RenderFollowUp)
        ensures
            follow_up == spec_after_render(self@.0, outcome),
    {
        match outcome {
            RenderOutcome::Presented => RenderFollowUp::Continue,
            RenderOutcome::Lost => RenderFollowUp::Resize(self.size),
            RenderOutcome::OutOfMemory => RenderFollowUp::Exit,
            RenderOutcome::Outdated => RenderFollowUp::Report,
            RenderOutcome::Timeout => RenderFollowUp::Report,
        }
    }
}

/// Every state that a window can reach by `new` and any run of resizes has
/// its surface configured with the window size.
pub open spec fn reachable(v: WindowView, sizes: Seq<PhysicalSize>, start: PhysicalSize) -> bool
    decreases sizes.len(),
{
    if sizes.len() == 0 {
        v == (start, start)
    } else {
        exists|prev: WindowView|
            reachable(prev, sizes.drop_last(), start) && v == spec_resized(prev, sizes.last())
    }
}

/// The surface is always configured with the window size: true of a new
/// window and kept by every resize.
pub proof fn lemma_surface_matches_window(v: WindowView, sizes: Seq<PhysicalSize>, start: PhysicalSize)
    requires
        reachable(v, sizes, start),
    ensures
        v.0 == v.1,
    decreases sizes.len(),
{
    if sizes.len() > 0 {
        let prev = choose|prev: WindowView|
            reachable(prev, sizes.drop_last(), start) && v == spec_resized(prev, sizes.last());
        lemma_surface_matches_window(prev, sizes.drop_last(), start);
    }
}

/// Resizing twice to the same size is resizing once, and a resize to a size
/// with a zero side changes nothing.
pub proof fn lemma_resize_idempotent(v: WindowView, new_size: PhysicalSize)
    ensures
        spec_resized(spec_resized(v, new_size), new_size) == spec_resized(v, new_size),
        !is_drawable(new_size) ==> spec_resized(v, new_size) == v,
{
}

/// Reconfiguring a lost surface with the current size leaves the sizes as
/// they are.
pub proof fn lemma_lost_surface_keeps_size(v: WindowView, size: PhysicalSize)
    requires
        v.0 == v.1,
        spec_after_render(v.0, RenderOutcome::Lost) == RenderFollowUp::Resize(size),
    ensures
        spec_resized(v, size) == v,
{
}

/// A close request or a pressed Escape for this window always leaves the
/// loop; events for other windows never do anything.
pub proof fn lemma_exit_events(input: WindowInput)
    ensures
        (input == WindowInput::CloseRequested || input == (WindowInput::KeyboardInput {
            pressed: true,
            escape: true,
        })) ==> spec_decide(LoopEvent::Window { for_this_window: true, input }) == Command::Exit,
        spec_decide(LoopEvent::Window { for_this_window: false, input }) == Command::Ignore,
{
}

/// A keyboard event for this window leaves the loop exactly when the key
/// went down and is Escape; every other key event, a release of Escape
/// included, is ignored.
pub proof fn lemma_keyboard_exits_only_on_pressed_escape(pressed: bool, escape: bool)
    ensures
        spec_decide(
            LoopEvent::Window {
                for_this_window: true,
                input: WindowInput::KeyboardInput { pressed, escape },
            },
        ) == (if pressed && escape {
            Command::Exit
        } else {
            Command::Ignore
        }),
{
}

/// The loop is left only on a close request or a pressed Escape for this
/// window; no other event of any kind leads to `Exit`.
pub proof fn lemma_only_close_or_escape_exit(event: LoopEvent)
    ensures
        spec_decide(event) == Command::Exit <==> (event == LoopEvent::Window {
            for_this_window: true,
            input: WindowInput::CloseRequested,
        } || event == LoopEvent::Window {
            for_this_window: true,
            input: WindowInput::KeyboardInput { pressed: true, escape: true },
        }),
{
}

/// A new size with both sides non-zero always becomes both the window size
/// and the surface size, whatever the sizes were before; a size with a zero
/// side leaves them as they were.
pub proof fn lemma_drawable_resize_takes_new_size(v: WindowView, new_size: PhysicalSize)
    ensures
        new_size.width > 0 && new_size.height > 0 ==> spec_resized(v, new_size).0 == new_size
            && spec_resized(v, new_size).1 == new_size,
        new_size.width == 0 || new_size.height == 0 ==> spec_resized(v, new_size) == v,
{
}

} // verus!
