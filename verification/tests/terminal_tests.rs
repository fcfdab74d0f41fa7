//! The orchestrator: frame counting, run state, event handling and draw
//! planning.

use glerminal::GlermError;
use glerminal::font::{DecodedImage, Font, ParsedDescription};
use glerminal::terminal::{
    DEBUG_TOGGLE_KEY, DrawableBuffer, FrameCounter, GraphicsBackend, MeshLayer, ProgramSet,
    RunState, Terminal, WindowEvent,
};
use glerminal::viewport::Ratio;

fn tiny_font() -> Font {
    let desc = ParsedDescription {
        name: String::from("tiny"),
        line_height: 2,
        size: 1,
        glyphs: Vec::new(),
    };
    let image = DecodedImage { width: 1, height: 1, channels: 4, pixels: vec![0u8; 4] };
    Font::from_parts(desc, image).unwrap()
}

fn headless_terminal() -> Terminal {
    Terminal::new_at(tiny_font(), (1280, 720), GraphicsBackend::Headless, true, 0)
}

fn windowed_terminal() -> Terminal {
    let programs = ProgramSet { program: 10, background_program: 20, debug_program: 30 };
    Terminal::new_at(tiny_font(), (1280, 720), GraphicsBackend::Active(programs), true, 1000)
}

#[test]
fn test_frame_counter_stays_zero_within_first_second() {
    let mut counter = FrameCounter::new_at(0);
    for i in 0..30u64 {
        counter.update_at(i * 30);
        assert_eq!(counter.get_fps(), 0);
    }
}

#[test]
fn test_frame_counter_commits_after_one_second() {
    // Twenty-nine frames inside the first second, the thirtieth past it:
    // the committed value becomes thirty and the tally starts over.
    let mut counter = FrameCounter::new_at(0);
    for i in 0..29u64 {
        counter.update_at(i * 30);
    }
    assert_eq!(counter.get_fps(), 0);
    counter.update_at(1001);
    assert_eq!(counter.get_fps(), 30);
    counter.update_at(1031);
    assert_eq!(counter.get_fps(), 30);
}

#[test]
fn test_frame_counter_boundary_is_strict() {
    // Exactly one second has not yet passed the checkpoint.
    let mut counter = FrameCounter::new_at(0);
    counter.update_at(1000);
    assert_eq!(counter.get_fps(), 0);
    counter.update_at(1001);
    assert_eq!(counter.get_fps(), 2);
}

#[test]
fn test_frame_counter_wall_clock_update() {
    let mut counter = FrameCounter::new();
    counter.update();
    assert!(counter.frames == 1 || counter.frames == 0);
}

#[test]
fn test_close_twice_is_terminal() {
    let mut terminal = headless_terminal();
    assert!(matches!(terminal.state, RunState::Active));
    terminal.close();
    assert!(matches!(terminal.state, RunState::Closing));
    terminal.close();
    assert!(matches!(terminal.state, RunState::Closing));
    assert!(!terminal.refresh());
    assert!(!terminal.refresh());
}

#[test]
fn test_refresh_reports_running() {
    let mut terminal = headless_terminal();
    assert!(terminal.refresh());
    terminal.close();
    assert!(!terminal.refresh());
}

#[test]
fn test_refresh_close_event() {
    let mut terminal = windowed_terminal();
    let events = vec![WindowEvent::Closed];
    assert!(!terminal.refresh_at(&events, 0));
    assert!(matches!(terminal.state, RunState::Closing));
    // Still closing, whatever comes later.
    assert!(!terminal.refresh_at(&Vec::new(), 0));
}

#[test]
fn test_refresh_applies_last_resize() {
    let mut terminal = windowed_terminal();
    let events = vec![
        WindowEvent::Resized(100, 100),
        WindowEvent::Resized(1920, 1080),
    ];
    assert!(terminal.refresh_at(&events, 0));
    assert_eq!(terminal.viewport.window_width, 1920);
    assert_eq!(terminal.viewport.window_height, 1080);
    // The target ratio is driven by buffers, not by resizes.
    assert_eq!(terminal.viewport.target_aspect_ratio, Ratio { num: 1280, den: 720 });
}

#[test]
fn test_debug_toggle_on_key_edge() {
    let mut terminal = windowed_terminal();
    assert!(!terminal.debug);
    let press = vec![WindowEvent::KeyboardInput(DEBUG_TOGGLE_KEY, true)];
    terminal.refresh_at(&press, 0);
    assert!(terminal.debug);
    // Held down: no second toggle.
    terminal.refresh_at(&press, 0);
    assert!(terminal.debug);
    let release = vec![WindowEvent::KeyboardInput(DEBUG_TOGGLE_KEY, false)];
    terminal.refresh_at(&release, 0);
    assert!(terminal.debug);
    terminal.refresh_at(&press, 0);
    assert!(!terminal.debug);
}

#[test]
fn test_debug_toggle_ignored_when_headless() {
    let mut terminal = headless_terminal();
    let press = vec![WindowEvent::KeyboardInput(DEBUG_TOGGLE_KEY, true)];
    terminal.refresh_at(&press, 0);
    assert!(!terminal.debug);
}

#[test]
fn test_other_keys_do_not_toggle() {
    let mut terminal = windowed_terminal();
    let press = vec![WindowEvent::KeyboardInput(DEBUG_TOGGLE_KEY + 1, true)];
    terminal.refresh_at(&press, 0);
    assert!(!terminal.debug);
}

#[test]
fn test_set_debug() {
    let mut terminal = windowed_terminal();
    terminal.set_debug(true);
    assert!(terminal.debug);
    terminal.set_debug(false);
    assert!(!terminal.debug);
    let mut headless = headless_terminal();
    headless.set_debug(true);
    assert!(!headless.debug);
}

#[test]
fn test_get_program_selection() {
    let mut terminal = windowed_terminal();
    assert_eq!(terminal.get_program(), Ok(10));
    assert_eq!(terminal.get_background_program(), Ok(20));
    terminal.set_debug(true);
    assert_eq!(terminal.get_program(), Ok(30));
    assert_eq!(terminal.get_background_program(), Ok(30));
}

#[test]
fn test_get_program_headless_fails() {
    let terminal = headless_terminal();
    assert_eq!(terminal.get_program(), Err(GlermError::UnsupportedOperation));
    assert_eq!(terminal.get_background_program(), Err(GlermError::UnsupportedOperation));
}

#[test]
fn test_draw_headless_fails() {
    let mut terminal = headless_terminal();
    let buffer = DrawableBuffer { aspect_ratio: Ratio { num: 1, den: 1 }, flushed: true };
    assert!(matches!(
        terminal.draw(&buffer),
        Err(GlermError::UnsupportedOperation)
    ));
    assert!(matches!(
        terminal.draw_multiple(&vec![buffer]),
        Err(GlermError::UnsupportedOperation)
    ));
}

#[test]
fn test_draw_unflushed_buffer_is_no_op() {
    let mut terminal = windowed_terminal();
    let buffer = DrawableBuffer { aspect_ratio: Ratio { num: 2, den: 1 }, flushed: false };
    let before = terminal.viewport.target_aspect_ratio;
    let plan = terminal.draw(&buffer).unwrap();
    assert!(!plan.clear);
    assert!(plan.calls.is_empty());
    assert_eq!(terminal.viewport.target_aspect_ratio, before);
}

#[test]
fn test_draw_emits_background_then_foreground() {
    let mut terminal = windowed_terminal();
    let buffer = DrawableBuffer { aspect_ratio: Ratio { num: 1280, den: 720 }, flushed: true };
    let plan = terminal.draw_at(&buffer, 3500).unwrap();
    assert!(plan.clear);
    assert_eq!(plan.calls.len(), 2);
    assert!(matches!(plan.calls[0].layer, MeshLayer::Background));
    assert!(matches!(plan.calls[1].layer, MeshLayer::Foreground));
    assert_eq!(plan.calls[0].program, 20);
    assert_eq!(plan.calls[1].program, 10);
    assert_eq!(plan.calls[0].elapsed_ms, 2500);
    assert_eq!(plan.calls[1].elapsed_ms, 2500);
    assert_eq!(plan.calls[0].projection, plan.calls[1].projection);
}

#[test]
fn test_draw_debug_uses_debug_program_for_both_layers() {
    let mut terminal = windowed_terminal();
    terminal.set_debug(true);
    let buffer = DrawableBuffer { aspect_ratio: Ratio { num: 1, den: 1 }, flushed: true };
    let plan = terminal.draw_at(&buffer, 1000).unwrap();
    assert_eq!(plan.calls[0].program, 30);
    assert_eq!(plan.calls[1].program, 30);
}

#[test]
fn test_draw_buffer_drives_aspect_ratio() {
    let mut terminal = windowed_terminal();
    let buffer = DrawableBuffer { aspect_ratio: Ratio { num: 2, den: 1 }, flushed: true };
    terminal.draw_at(&buffer, 1000).unwrap();
    assert_eq!(terminal.viewport.target_aspect_ratio, Ratio { num: 2, den: 1 });
}

#[test]
fn test_draw_window_driven_aspect_ratio_is_kept() {
    let programs = ProgramSet { program: 1, background_program: 2, debug_program: 3 };
    let mut terminal =
        Terminal::new_at(tiny_font(), (1280, 720), GraphicsBackend::Active(programs), false, 0);
    let buffer = DrawableBuffer { aspect_ratio: Ratio { num: 2, den: 1 }, flushed: true };
    terminal.draw_at(&buffer, 0).unwrap();
    assert_eq!(terminal.viewport.target_aspect_ratio, Ratio { num: 1280, den: 720 });
}

#[test]
fn test_draw_multiple_clears_once_and_skips_unflushed() {
    let mut terminal = windowed_terminal();
    let buffers = vec![
        DrawableBuffer { aspect_ratio: Ratio { num: 1, den: 1 }, flushed: true },
        DrawableBuffer { aspect_ratio: Ratio { num: 3, den: 1 }, flushed: false },
        DrawableBuffer { aspect_ratio: Ratio { num: 2, den: 1 }, flushed: true },
    ];
    let plan = terminal.draw_multiple_at(&buffers, 1000).unwrap();
    assert!(plan.clear);
    assert_eq!(plan.calls.len(), 4);
    assert_eq!(plan.calls[0].buffer_index, 0);
    assert_eq!(plan.calls[1].buffer_index, 0);
    assert_eq!(plan.calls[2].buffer_index, 2);
    assert_eq!(plan.calls[3].buffer_index, 2);
    // The unflushed 3:1 buffer never retargeted the viewport; the last
    // flushed one did.
    assert_eq!(terminal.viewport.target_aspect_ratio, Ratio { num: 2, den: 1 });
    // Later buffers are drawn under the projection their own retarget
    // produced.
    assert_ne!(plan.calls[0].projection, plan.calls[2].projection);
}

#[test]
fn test_draw_multiple_no_buffers_still_clears() {
    let mut terminal = windowed_terminal();
    let plan = terminal.draw_multiple_at(&Vec::new(), 0).unwrap();
    assert!(plan.clear);
    assert!(plan.calls.is_empty());
}

#[test]
fn test_terminal_get_fps_starts_at_zero() {
    let terminal = windowed_terminal();
    assert_eq!(terminal.get_fps(), 0);
}

#[test]
fn test_terminal_refresh_counts_frames() {
    let mut terminal = windowed_terminal();
    // The session started at 1000; thirty frames within the next second
    // leave the committed value at zero, one more past it commits.
    for i in 0..30u64 {
        terminal.refresh_at(&Vec::new(), 1000 + i * 30);
    }
    assert_eq!(terminal.get_fps(), 0);
    terminal.refresh_at(&Vec::new(), 2001);
    assert_eq!(terminal.get_fps(), 31);
}
