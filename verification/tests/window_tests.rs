use deterministic_ball_sim::window::{
    Command, LoopEvent, PhysicalSize, RenderFollowUp, RenderOutcome, WindowInput, WindowState,
};

fn size(width: u32, height: u32) -> PhysicalSize {
    PhysicalSize { width, height }
}

fn ours(input: WindowInput) -> LoopEvent {
    LoopEvent::Window { for_this_window: true, input }
}

#[test]
fn new_window_configures_surface_with_its_size() {
    let s = WindowState::new(size(800, 600));
    assert_eq!(s.size(), size(800, 600));
    assert_eq!(s.surface_size(), size(800, 600));
}

#[test]
fn resize_to_drawable_size_updates_both_sizes() {
    let mut s = WindowState::new(size(800, 600));
    assert!(s.resize(size(1024, 768)));
    assert_eq!(s.size(), size(1024, 768));
    assert_eq!(s.surface_size(), size(1024, 768));
    assert!(s.resize(size(1024, 768)));
    assert_eq!(s.size(), size(1024, 768));
}

#[test]
fn resize_with_a_zero_side_is_ignored() {
    let mut s = WindowState::new(size(800, 600));
    assert!(!s.resize(size(0, 600)));
    assert!(!s.resize(size(800, 0)));
    assert!(!s.resize(size(0, 0)));
    assert_eq!(s.size(), size(800, 600));
    assert_eq!(s.surface_size(), size(800, 600));
}

#[test]
fn close_and_escape_exit() {
    let s = WindowState::new(size(10, 10));
    assert_eq!(s.decide(&ours(WindowInput::CloseRequested)), Command::Exit);
    assert_eq!(
        s.decide(&ours(WindowInput::KeyboardInput { pressed: true, escape: true })),
        Command::Exit
    );
    assert_eq!(
        s.decide(&ours(WindowInput::KeyboardInput { pressed: false, escape: true })),
        Command::Ignore
    );
    assert_eq!(
        s.decide(&ours(WindowInput::KeyboardInput { pressed: true, escape: false })),
        Command::Ignore
    );
}

#[test]
fn other_events_map_to_their_commands() {
    let s = WindowState::new(size(10, 10));
    assert_eq!(s.decide(&ours(WindowInput::Resized(size(3, 4)))), Command::Resize(size(3, 4)));
    assert_eq!(s.decide(&ours(WindowInput::ScaleFactorChanged)), Command::ResizeToInnerSize);
    assert_eq!(s.decide(&ours(WindowInput::RedrawRequested)), Command::UpdateAndRender);
    assert_eq!(s.decide(&ours(WindowInput::Other)), Command::Ignore);
    assert_eq!(s.decide(&LoopEvent::AboutToWait), Command::RequestRedraw);
    assert_eq!(s.decide(&LoopEvent::Other), Command::Ignore);
}

#[test]
fn events_of_other_windows_are_ignored() {
    let s = WindowState::new(size(10, 10));
    let event = LoopEvent::Window { for_this_window: false, input: WindowInput::CloseRequested };
    assert_eq!(s.decide(&event), Command::Ignore);
    assert!(!s.input(&WindowInput::CloseRequested));
}

#[test]
fn render_outcomes_call_for_their_follow_ups() {
    let mut s = WindowState::new(size(640, 480));
    assert_eq!(s.after_render(RenderOutcome::Presented), RenderFollowUp::Continue);
    assert_eq!(s.after_render(RenderOutcome::Lost), RenderFollowUp::Resize(size(640, 480)));
    assert_eq!(s.after_render(RenderOutcome::OutOfMemory), RenderFollowUp::Exit);
    assert_eq!(s.after_render(RenderOutcome::Outdated), RenderFollowUp::Report);
    assert_eq!(s.after_render(RenderOutcome::Timeout), RenderFollowUp::Report);
    // Reconfiguring a lost surface with the current size changes nothing.
    if let RenderFollowUp::Resize(current) = s.after_render(RenderOutcome::Lost) {
        assert!(s.resize(current));
    }
    assert_eq!(s.size(), size(640, 480));
    assert_eq!(s.surface_size(), size(640, 480));
}
