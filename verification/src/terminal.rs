//! The render-orchestration state machine: a terminal session that owns the
//! viewport state, selects between a normal-mode and a debug-mode shader
//! program pair, counts frames, and sequences draw calls for one or many
//! drawable text buffers.
//!
//! The orchestrator decides; it does not touch the platform.  The window and
//! event backend hands pending events in as plain [`WindowEvent`] values, and
//! drawing hands a [`DrawPlan`] back out: which buffers to draw with which
//! program, projection and elapsed time, and whether to clear the frame
//! first.  A session constructed without a graphics backend is headless:
//! drawing and program queries fail loudly with `UnsupportedOperation`
//! instead of silently doing nothing.

use vstd::prelude::*;
use crate::GlermError;
use crate::font::Font;
use crate::viewport::{Ratio, ProjMatrix, ViewportState, projection_spec, ratio_equiv, same_ratio};

verus! {

/// The keycode the orchestrator treats as the debug toggle.  The event
/// backend maps its native code for the F3 key to this value.
pub const DEBUG_TOGGLE_KEY: u32 = 3;

/// Relies on `std::time::SystemTime::now`, read as whole milliseconds since
/// the Unix epoch.  Nothing is promised of the value: the wall clock may
/// jump, even backwards, between two reads.
#[verifier::external_body]
fn now_millis() -> u64 {
    match std::time::SystemTime::now().duration_since(std::time::UNIX_EPOCH) {
        Ok(d) => d.as_millis() as u64,
        Err(_) => 0,
    }
}

/// `f` bumped by one frame, capped at the type's maximum.
pub open spec fn bump(f: u32) -> u32 {
    if f < 0xffff_ffffu32 {
        (f + 1) as u32
    } else {
        f
    }
}

/// Tracks elapsed frames per wall-clock second.  `update` tallies one frame
/// per call; once more than a second has passed since the last checkpoint,
/// the tally becomes the committed frames-per-second value, the tally
/// resets, and the checkpoint advances.  During the first partial second the
/// committed value is zero.
#[derive(Clone, Copy, Debug, PartialEq, Eq, Structural)]
pub struct FrameCounter {
    /// Frames tallied since the last checkpoint.
    pub frames: u32,
    /// The checkpoint, in milliseconds.
    pub last_check: u64,
    /// The last committed frames-per-second value.
    pub fps: u32,
}

impl FrameCounter {
    /// A fresh counter whose checkpoint is the given instant.
    pub fn new_at(now_ms: u64) -> (c: FrameCounter)
        ensures
            c == (FrameCounter { frames: 0, last_check: now_ms, fps: 0 }),
    {
        FrameCounter { frames: 0, last_check: now_ms, fps: 0 }
    }

    /// A fresh counter whose checkpoint is the wall clock's now.
    pub fn new() -> (c: FrameCounter)
        ensures
            c.frames == 0,
            c.fps == 0,
    {
        FrameCounter::new_at(now_millis())
    }

    /// One frame at the given instant: the tally grows by one; if more than
    /// one second has passed since the checkpoint, the grown tally is
    /// committed as the frames-per-second value, the tally resets and the
    /// checkpoint advances to `now_ms`.
    pub fn update_at(&mut self, now_ms: u64)
        ensures
            now_ms > old(self).last_check + 1000 ==> *final(self) == (FrameCounter {
                frames: 0,
                last_check: now_ms,
                fps: bump(old(self).frames),
            }),
            now_ms <= old(self).last_check + 1000 ==> *final(self) == (FrameCounter {
                frames: bump(old(self).frames),
                last_check: old(self).last_check,
                fps: old(self).fps,
            }),
    {
        let tally = if self.frames < 0xffff_ffffu32 {
            self.frames + 1
        } else {
            self.frames
        };
        let elapsed = if now_ms >= self.last_check {
            now_ms - self.last_check
        } else {
            0
        };
        if elapsed > 1000 {
            self.fps = tally;
            self.last_check = now_ms;
            self.frames = 0;
        } else {
            self.frames = tally;
        }
    }

    /// One frame at the wall clock's now: either only the tally grows, or
    /// the grown tally is committed and the tally resets.
    pub fn update(&mut self)
        ensures
            *final(self) == (FrameCounter {
                frames: bump(old(self).frames),
                last_check: old(self).last_check,
                fps: old(self).fps,
            }) || (final(self).frames == 0 && final(self).fps == bump(old(self).frames)),
    {
        let now = now_millis();
        self.update_at(now);
    }

    /// The last committed frames-per-second value; stale between
    /// checkpoints.
    pub fn get_fps(&self) -> (r: u32)
        ensures
            r == self.fps,
    {
        self.fps
    }
}

/// The handles of the three compiled shader programs a windowed session
/// draws with.  A handle is an opaque nonzero identifier minted by the
/// graphics backend.
#[derive(Clone, Copy, Debug, PartialEq, Eq, Structural)]
pub struct ProgramSet {
    /// The normal-mode foreground program.
    pub program: u32,
    /// The normal-mode background program.
    pub background_program: u32,
    /// The debug-mode program, used for both layers.
    pub debug_program: u32,
}

/// Either no graphics backend at all, or a set of real program handles.
#[derive(Clone, Copy, Debug, PartialEq, Eq, Structural)]
pub enum GraphicsBackend {
    /// A logic-only session: no window, no programs, drawing fails loudly.
    Headless,
    /// A windowed session with its compiled programs.
    Active(ProgramSet),
}

impl GraphicsBackend {
    /// No handle is the reserved "no program" value zero.
    pub open spec fn wf(self) -> bool {
        match self {
            GraphicsBackend::Headless => true,
            GraphicsBackend::Active(p) => p.program != 0 && p.background_program != 0
                && p.debug_program != 0,
        }
    }
}

/// One pending platform event, already decoded to plain values by the event
/// backend.
#[derive(Clone, Copy, Debug, PartialEq, Eq, Structural)]
pub enum WindowEvent {
    /// The user asked to close the window.
    Closed,
    /// The window was resized to the given pixel dimensions.
    Resized(u32, u32),
    /// A key changed state: its keycode, and whether it is now pressed.
    KeyboardInput(u32, bool),
}

/// Whether the close of the window was requested somewhere in the batch.
pub open spec fn close_requested(events: Seq<WindowEvent>) -> bool {
    exists|i: int| 0 <= i < events.len() && events[i] is Closed
}

/// The dimensions of the last resize in the batch, if any: later resizes
/// overwrite earlier ones, and only the final size is applied.
pub open spec fn last_resize(events: Seq<WindowEvent>) -> Option<(u32, u32)>
    decreases events.len(),
{
    if events.len() == 0 {
        None
    } else {
        match events.last() {
            WindowEvent::Resized(w, h) => Some((w, h)),
            _ => last_resize(events.drop_last()),
        }
    }
}

/// Whether the debug-toggle key is held down after the batch, given whether
/// it was held before it.
pub open spec fn toggle_down_after(init: bool, events: Seq<WindowEvent>) -> bool
    decreases events.len(),
{
    if events.len() == 0 {
        init
    } else {
        match events.last() {
            WindowEvent::KeyboardInput(key, pressed) => if key == DEBUG_TOGGLE_KEY {
                pressed
            } else {
                toggle_down_after(init, events.drop_last())
            },
            _ => toggle_down_after(init, events.drop_last()),
        }
    }
}

/// Whether the debug-toggle key went from up to down somewhere in the batch.
pub open spec fn toggle_just_pressed(init: bool, events: Seq<WindowEvent>) -> bool
    decreases events.len(),
{
    if events.len() == 0 {
        false
    } else {
        toggle_just_pressed(init, events.drop_last()) || (match events.last() {
            WindowEvent::KeyboardInput(key, pressed) => key == DEBUG_TOGGLE_KEY && pressed
                && !toggle_down_after(init, events.drop_last()),
            _ => false,
        })
    }
}

/// A drawable text buffer as the orchestrator sees it: its own aspect
/// ratio, and whether it has been flushed, that is whether both its
/// foreground and background meshes are ready for a draw call.
#[derive(Clone, Copy, Debug, PartialEq, Eq, Structural)]
pub struct DrawableBuffer {
    /// The buffer's own width-over-height ratio.
    pub aspect_ratio: Ratio,
    /// Whether both meshes are present; an unflushed buffer is skipped.
    pub flushed: bool,
}

/// Which of a buffer's two meshes a draw call targets.
#[derive(Clone, Copy, Debug, PartialEq, Eq, Structural)]
pub enum MeshLayer {
    Background,
    Foreground,
}

/// One draw call for the graphics backend to issue: which buffer's mesh,
/// with which program, projection and frame-relative time.
#[derive(Clone, Copy, Debug, PartialEq, Eq, Structural)]
pub struct DrawCall {
    /// Index of the buffer, in the order the buffers were handed in.
    pub buffer_index: usize,
    /// Which of its meshes to draw.
    pub layer: MeshLayer,
    /// The program handle to draw with; never the reserved zero.
    pub program: u32,
    /// The projection in force for this call.
    pub projection: ProjMatrix,
    /// Milliseconds since the session started.
    pub elapsed_ms: u64,
}

/// What one drawing operation asks of the graphics backend: whether to
/// clear the frame first, and which draw calls to issue, in order.
#[derive(Clone, Debug)]
pub struct DrawPlan {
    pub clear: bool,
    pub calls: Vec<DrawCall>,
}

/// The session state: the graphics backend, the run state, the debug flag,
/// the session font, the viewport and the frame counter.
pub struct Terminal {
    /// The graphics backend: headless, or three program handles.
    pub graphics: GraphicsBackend,
    /// Selects the debug program pair instead of the normal one.
    pub debug: bool,
    /// `Active` until a close is requested; then `Closing`, forever.
    pub state: RunState,
    /// The reference instant captured at construction, in milliseconds.
    pub since_start: u64,
    /// The loaded font this session renders with.
    pub font: Font,
    /// The per-second frame counter.
    pub frame_counter: FrameCounter,
    /// Whether drawn buffers drive the target aspect ratio, instead of the
    /// window's own shape.
    pub text_buffer_aspect_ratio: bool,
    /// Window dimensions, target ratio and derived projection.
    pub viewport: ViewportState,
    /// Whether the debug-toggle key is currently held down.
    pub toggle_key_down: bool,
}

/// The orchestrator's run state.  The one transition is `Active` to
/// `Closing`, and it is terminal.
#[derive(Clone, Copy, Debug, PartialEq, Eq, Structural)]
pub enum RunState {
    Active,
    Closing,
}

impl Terminal {
    /// The backend handles are real and the projection is never stale.
    pub open spec fn wf(self) -> bool {
        self.graphics.wf() && self.viewport.wf()
    }

    /// The foreground program the current mode selects.
    pub open spec fn spec_program(self) -> u32
        recommends
            self.graphics is Active,
    {
        if self.debug {
            self.graphics->Active_0.debug_program
        } else {
            self.graphics->Active_0.program
        }
    }

    /// The background program the current mode selects.
    pub open spec fn spec_background_program(self) -> u32
        recommends
            self.graphics is Active,
    {
        if self.debug {
            self.graphics->Active_0.debug_program
        } else {
            self.graphics->Active_0.background_program
        }
    }

    /// A fresh session at the given instant: running, not in debug mode,
    /// with a zeroed frame counter and a viewport sized to the window.
    pub fn new_at(
        font: Font,
        dimensions: (u32, u32),
        graphics: GraphicsBackend,
        text_buffer_aspect_ratio: bool,
        now_ms: u64,
    ) -> (t: Terminal)
        requires
            graphics.wf(),
        ensures
            t.graphics == graphics,
            t.debug == false,
            t.state is Active,
            t.since_start == now_ms,
            t.font == font,
            t.frame_counter == (FrameCounter { frames: 0, last_check: now_ms, fps: 0 }),
            t.text_buffer_aspect_ratio == text_buffer_aspect_ratio,
            t.viewport.window_width == dimensions.0,
            t.viewport.window_height == dimensions.1,
            t.viewport.target_aspect_ratio == (Ratio { num: dimensions.0, den: dimensions.1 }),
            t.toggle_key_down == false,
            t.wf(),
    {
        Terminal {
            graphics,
            debug: false,
            state: RunState::Active,
            since_start: now_ms,
            font,
            frame_counter: FrameCounter::new_at(now_ms),
            text_buffer_aspect_ratio,
            viewport: ViewportState::new(dimensions.0, dimensions.1),
            toggle_key_down: false,
        }
    }

    /// A fresh session whose reference instant is the wall clock's now.
    pub fn new(
        font: Font,
        dimensions: (u32, u32),
        graphics: GraphicsBackend,
        text_buffer_aspect_ratio: bool,
    ) -> (t: Terminal)
        requires
            graphics.wf(),
        ensures
            t.graphics == graphics,
            t.debug == false,
            t.state is Active,
            t.font == font,
            t.frame_counter.frames == 0,
            t.frame_counter.fps == 0,
            t.text_buffer_aspect_ratio == text_buffer_aspect_ratio,
            t.viewport.window_width == dimensions.0,
            t.viewport.window_height == dimensions.1,
            t.viewport.target_aspect_ratio == (Ratio { num: dimensions.0, den: dimensions.1 }),
            t.toggle_key_down == false,
            t.wf(),
    {
        let now = now_millis();
        Terminal::new_at(font, dimensions, graphics, text_buffer_aspect_ratio, now)
    }

    /// Sets debug mode.  On a headless session this does nothing, since
    /// there is no program pair to switch.
    pub fn set_debug(&mut self, debug: bool)
        ensures
            old(self).graphics is Active ==> final(self).debug == debug,
            old(self).graphics is Headless ==> final(self).debug == old(self).debug,
            *final(self) == (Terminal { debug: final(self).debug, ..*old(self) }),
    {
        match self.graphics {
            GraphicsBackend::Active(_) => {
                self.debug = debug;
            },
            GraphicsBackend::Headless => {},
        }
    }

    /// Closes the session: the state becomes `Closing` and stays there.
    /// Calling this again is a no-op.
    pub fn close(&mut self)
        ensures
            final(self).state is Closing,
            *final(self) == (Terminal { state: RunState::Closing, ..*old(self) }),
    {
        self.state = RunState::Closing;
    }

    /// One frame's bookkeeping at the given instant: tallies the frame,
    /// drains the pending events (a close request makes the state
    /// `Closing`, the last resize is applied to the viewport, the
    /// debug-toggle key's edges are tracked), flips debug mode when the
    /// toggle key was just pressed on a windowed session, and reports
    /// whether the session should continue, that is whether it is still
    /// `Active`.
    pub fn refresh_at(&mut self, events: &Vec<WindowEvent>, now_ms: u64) -> (running: bool)
        ensures
            running == (final(self).state is Active),
            final(self).state is Closing <==> (old(self).state is Closing || close_requested(
                events@,
            )),
            final(self).toggle_key_down == toggle_down_after(old(self).toggle_key_down, events@),
            final(self).debug == (if old(self).graphics is Active && toggle_just_pressed(
                old(self).toggle_key_down,
                events@,
            ) {
                !old(self).debug
            } else {
                old(self).debug
            }),
            match last_resize(events@) {
                Some(dims) => final(self).viewport.window_width == dims.0
                    && final(self).viewport.window_height == dims.1
                    && final(self).viewport.target_aspect_ratio
                    == old(self).viewport.target_aspect_ratio,
                None => final(self).viewport == old(self).viewport,
            },
            old(self).wf() ==> final(self).wf(),
            now_ms > old(self).frame_counter.last_check + 1000 ==> final(self).frame_counter
                == (FrameCounter {
                frames: 0,
                last_check: now_ms,
                fps: bump(old(self).frame_counter.frames),
            }),
            now_ms <= old(self).frame_counter.last_check + 1000 ==> final(self).frame_counter
                == (FrameCounter {
                frames: bump(old(self).frame_counter.frames),
                last_check: old(self).frame_counter.last_check,
                fps: old(self).frame_counter.fps,
            }),
            final(self).graphics == old(self).graphics,
            final(self).since_start == old(self).since_start,
            final(self).font == old(self).font,
            final(self).text_buffer_aspect_ratio == old(self).text_buffer_aspect_ratio,
    {
        self.frame_counter.update_at(now_ms);

        let ghost mid = *self;
        let ghost init_down = self.toggle_key_down;
        let mut closed = false;
        let mut resize: Option<(u32, u32)> = None;
        let mut just_pressed = false;
        let mut i: usize = 0;
        while i < events.len()
            invariant
                0 <= i <= events@.len(),
                closed == close_requested(events@.subrange(0, i as int)),
                resize == last_resize(events@.subrange(0, i as int)),
                self.toggle_key_down == toggle_down_after(init_down, events@.subrange(0, i as int)),
                just_pressed == toggle_just_pressed(init_down, events@.subrange(0, i as int)),
                *self == (Terminal { toggle_key_down: self.toggle_key_down, ..mid }),
            decreases events@.len() - i,
        {
            let ghost pre = events@.subrange(0, i as int);
            let ghost post = events@.subrange(0, i + 1 as int);
            proof {
                assert(post.drop_last() =~= pre);
                assert(post.last() == events@[i as int]);
            }
            match events[i] {
                WindowEvent::Closed => {
                    closed = true;
                    proof {
                        assert(post[i as int] is Closed);
                    }
                },
                WindowEvent::Resized(w, h) => {
                    resize = Some((w, h));
                },
                WindowEvent::KeyboardInput(key, pressed) => {
                    if key == DEBUG_TOGGLE_KEY {
                        if pressed && !self.toggle_key_down {
                            just_pressed = true;
                        }
                        self.toggle_key_down = pressed;
                    }
                },
            }
            proof {
                if closed {
                    assert(close_requested(post)) by {
                        if !close_requested(pre) {
                            assert(post[i as int] is Closed);
                        } else {
                            let j = choose|j: int| 0 <= j < pre.len() && pre[j] is Closed;
                            assert(post[j] is Closed);
                        }
                    }
                } else {
                    assert(!close_requested(post)) by {
                        if close_requested(post) {
                            let j = choose|j: int| 0 <= j < post.len() && post[j] is Closed;
                            if j < i {
                                assert(pre[j] is Closed);
                            }
                        }
                    }
                }
            }
            i = i + 1;
        }
        proof {
            assert(events@.subrange(0, events@.len() as int) =~= events@);
        }

        if let Some((w, h)) = resize {
            self.viewport.set_window_size(w, h);
        }
        if closed {
            self.state = RunState::Closing;
        }
        if just_pressed {
            match self.graphics {
                GraphicsBackend::Active(_) => {
                    self.debug = !self.debug;
                },
                GraphicsBackend::Headless => {},
            }
        }
        match self.state {
            RunState::Active => true,
            RunState::Closing => false,
        }
    }

    /// One frame's bookkeeping at the wall clock's now.
    pub fn refresh_with_events(&mut self, events: &Vec<WindowEvent>) -> (running: bool)
        ensures
            running == (final(self).state is Active),
            final(self).state is Closing <==> (old(self).state is Closing || close_requested(
                events@,
            )),
            final(self).toggle_key_down == toggle_down_after(old(self).toggle_key_down, events@),
            final(self).debug == (if old(self).graphics is Active && toggle_just_pressed(
                old(self).toggle_key_down,
                events@,
            ) {
                !old(self).debug
            } else {
                old(self).debug
            }),
            match last_resize(events@) {
                Some(dims) => final(self).viewport.window_width == dims.0
                    && final(self).viewport.window_height == dims.1
                    && final(self).viewport.target_aspect_ratio
                    == old(self).viewport.target_aspect_ratio,
                None => final(self).viewport == old(self).viewport,
            },
            old(self).wf() ==> final(self).wf(),
            final(self).frame_counter == (FrameCounter {
                frames: bump(old(self).frame_counter.frames),
                last_check: old(self).frame_counter.last_check,
                fps: old(self).frame_counter.fps,
            }) || (final(self).frame_counter.frames == 0 && final(self).frame_counter.fps == bump(
                old(self).frame_counter.frames,
            )),
            final(self).graphics == old(self).graphics,
            final(self).since_start == old(self).since_start,
            final(self).font == old(self).font,
            final(self).text_buffer_aspect_ratio == old(self).text_buffer_aspect_ratio,
    {
        let now = now_millis();
        self.refresh_at(events, now)
    }

    /// One frame's bookkeeping with no pending events, as a headless
    /// session or a windowed session with an idle event queue sees it:
    /// tallies the frame and reports whether the session should continue.
    pub fn refresh(&mut self) -> (running: bool)
        ensures
            running == (final(self).state is Active),
            final(self).state == old(self).state,
            final(self).debug == old(self).debug,
            final(self).viewport == old(self).viewport,
            final(self).toggle_key_down == old(self).toggle_key_down,
            final(self).graphics == old(self).graphics,
            final(self).since_start == old(self).since_start,
            final(self).font == old(self).font,
            final(self).text_buffer_aspect_ratio == old(self).text_buffer_aspect_ratio,
            old(self).wf() ==> final(self).wf(),
    {
        let events: Vec<WindowEvent> = Vec::new();
        self.refresh_with_events(&events)
    }

    /// The foreground program of the current mode, or
    /// `UnsupportedOperation` on a headless session: asking a session
    /// without a backend for a program is a programming error, and it fails
    /// loudly instead of handing out the reserved zero handle.
    pub fn get_program(&self) -> (r: Result<u32, GlermError>)
        ensures
            self.graphics is Headless ==> r == Err::<u32, GlermError>(
                GlermError::UnsupportedOperation,
            ),
            self.graphics is Active ==> r == Ok::<u32, GlermError>(self.spec_program()),
    {
        match &self.graphics {
            GraphicsBackend::Headless => Err(GlermError::UnsupportedOperation),
            GraphicsBackend::Active(p) => Ok(
                if self.debug {
                    p.debug_program
                } else {
                    p.program
                },
            ),
        }
    }

    /// The background program of the current mode, or
    /// `UnsupportedOperation` on a headless session.
    pub fn get_background_program(&self) -> (r: Result<u32, GlermError>)
        ensures
            self.graphics is Headless ==> r == Err::<u32, GlermError>(
                GlermError::UnsupportedOperation,
            ),
            self.graphics is Active ==> r == Ok::<u32, GlermError>(self.spec_background_program()),
    {
        match &self.graphics {
            GraphicsBackend::Headless => Err(GlermError::UnsupportedOperation),
            GraphicsBackend::Active(p) => Ok(
                if self.debug {
                    p.debug_program
                } else {
                    p.background_program
                },
            ),
        }
    }

    /// The current frames-per-second value; updates once a second.
    pub fn get_fps(&self) -> (r: u32)
        ensures
            r == self.frame_counter.fps,
    {
        self.frame_counter.get_fps()
    }

    /// Plans the drawing of one buffer at the given instant.
    ///
    /// On a headless session this fails with `UnsupportedOperation`.  A
    /// buffer that has not been flushed is silently skipped: the plan is
    /// empty, nothing is cleared, nothing changes.  Otherwise, if buffers
    /// drive the target aspect ratio and this buffer's ratio differs from
    /// the current target, the viewport is retargeted first; the plan then
    /// clears the frame and draws the background mesh, then the foreground
    /// mesh, with the mode's programs, the current projection, and the
    /// session-relative time.
    pub fn draw_at(&mut self, buffer: &DrawableBuffer, now_ms: u64) -> (r: Result<
        DrawPlan,
        GlermError,
    >)
        requires
            old(self).wf(),
        ensures
            final(self).wf(),
            draw_outcome(*old(self), *buffer, now_ms, *final(self), r),
    {
        match &self.graphics {
            GraphicsBackend::Headless => {
                return Err(GlermError::UnsupportedOperation);
            },
            GraphicsBackend::Active(_) => {},
        }
        if !buffer.flushed {
            return Ok(DrawPlan { clear: false, calls: Vec::new() });
        }
        if self.text_buffer_aspect_ratio && !same_ratio(
            buffer.aspect_ratio,
            self.viewport.get_target_aspect_ratio(),
        ) {
            self.viewport.set_target_aspect_ratio(buffer.aspect_ratio);
        }
        let elapsed = if now_ms >= self.since_start {
            now_ms - self.since_start
        } else {
            0
        };
        let (fg, bg) = match &self.graphics {
            GraphicsBackend::Headless => {
                return Err(GlermError::UnsupportedOperation);
            },
            GraphicsBackend::Active(p) => (
                if self.debug {
                    p.debug_program
                } else {
                    p.program
                },
                if self.debug {
                    p.debug_program
                } else {
                    p.background_program
                },
            ),
        };
        let projection = self.viewport.projection_matrix();
        let mut calls: Vec<DrawCall> = Vec::new();
        calls.push(
            DrawCall {
                buffer_index: 0,
                layer: MeshLayer::Background,
                program: bg,
                projection,
                elapsed_ms: elapsed,
            },
        );
        calls.push(
            DrawCall {
                buffer_index: 0,
                layer: MeshLayer::Foreground,
                program: fg,
                projection,
                elapsed_ms: elapsed,
            },
        );
        proof {
            assert(calls@ =~= seq![
                DrawCall {
                    buffer_index: 0,
                    layer: MeshLayer::Background,
                    program: old(self).spec_background_program(),
                    projection: self.viewport.projection,
                    elapsed_ms: elapsed_since(old(self).since_start, now_ms),
                },
                DrawCall {
                    buffer_index: 0,
                    layer: MeshLayer::Foreground,
                    program: old(self).spec_program(),
                    projection: self.viewport.projection,
                    elapsed_ms: elapsed_since(old(self).since_start, now_ms),
                },
            ]);
        }
        Ok(DrawPlan { clear: true, calls })
    }

    /// Plans the drawing of one buffer at the wall clock's now: as
    /// [`Terminal::draw_at`], at some instant.
    pub fn draw(&mut self, buffer: &DrawableBuffer) -> (r: Result<DrawPlan, GlermError>)
        requires
            old(self).wf(),
        ensures
            final(self).wf(),
            exists|t: u64| draw_outcome(*old(self), *buffer, t, *final(self), r),
    {
        let now = now_millis();
        let r = self.draw_at(buffer, now);
        proof {
            assert(draw_outcome(*old(self), *buffer, now, *self, r));
        }
        r
    }

    /// Plans the drawing of many buffers at the given instant.
    ///
    /// On a headless session this fails with `UnsupportedOperation`.
    /// Otherwise the frame is cleared once, before any buffer and whether
    /// or not any is flushed, and the buffers are then drawn in order:
    /// each unflushed buffer is skipped, and each flushed one may retarget
    /// the viewport before contributing its background and foreground
    /// calls, so one buffer's shape can drive the letterboxing of those
    /// after it.
    pub fn draw_multiple_at(&mut self, buffers: &Vec<DrawableBuffer>, now_ms: u64) -> (r: Result<
        DrawPlan,
        GlermError,
    >)
        requires
            old(self).wf(),
        ensures
            final(self).wf(),
            draw_multiple_outcome(*old(self), buffers@, now_ms, *final(self), r),
    {
        let ghost pre = *old(self);
        match &self.graphics {
            GraphicsBackend::Headless => {
                return Err(GlermError::UnsupportedOperation);
            },
            GraphicsBackend::Active(_) => {},
        }
        let elapsed = if now_ms >= self.since_start {
            now_ms - self.since_start
        } else {
            0
        };
        let (fg, bg) = match &self.graphics {
            GraphicsBackend::Headless => {
                return Err(GlermError::UnsupportedOperation);
            },
            GraphicsBackend::Active(p) => (
                if self.debug {
                    p.debug_program
                } else {
                    p.program
                },
                if self.debug {
                    p.debug_program
                } else {
                    p.background_program
                },
            ),
        };
        let mut calls: Vec<DrawCall> = Vec::new();
        let mut i: usize = 0;
        while i < buffers.len()
            invariant
                0 <= i <= buffers@.len(),
                pre.wf(),
                pre.graphics is Active,
                self.wf(),
                *self == (Terminal { viewport: self.viewport, ..pre }),
                self.viewport.window_width == pre.viewport.window_width,
                self.viewport.window_height == pre.viewport.window_height,
                self.viewport.target_aspect_ratio == multi_target(
                    pre.viewport.target_aspect_ratio,
                    buffers@.subrange(0, i as int),
                    pre.text_buffer_aspect_ratio,
                ),
                calls@ == multi_calls(pre, buffers@.subrange(0, i as int), now_ms),
                fg == pre.spec_program(),
                bg == pre.spec_background_program(),
                elapsed == elapsed_since(pre.since_start, now_ms),
            decreases buffers@.len() - i,
        {
            let ghost prefix = buffers@.subrange(0, i as int);
            let ghost post = buffers@.subrange(0, i + 1 as int);
            proof {
                assert(post.drop_last() =~= prefix);
                assert(post.last() == buffers@[i as int]);
            }
            let b = buffers[i];
            if b.flushed {
                if self.text_buffer_aspect_ratio && !same_ratio(
                    b.aspect_ratio,
                    self.viewport.get_target_aspect_ratio(),
                ) {
                    self.viewport.set_target_aspect_ratio(b.aspect_ratio);
                }
                let projection = self.viewport.projection_matrix();
                calls.push(
                    DrawCall {
                        buffer_index: i,
                        layer: MeshLayer::Background,
                        program: bg,
                        projection,
                        elapsed_ms: elapsed,
                    },
                );
                calls.push(
                    DrawCall {
                        buffer_index: i,
                        layer: MeshLayer::Foreground,
                        program: fg,
                        projection,
                        elapsed_ms: elapsed,
                    },
                );
                proof {
                    assert(calls@ =~= multi_calls(pre, prefix, now_ms) + seq![
                        DrawCall {
                            buffer_index: i,
                            layer: MeshLayer::Background,
                            program: pre.spec_background_program(),
                            projection: self.viewport.projection,
                            elapsed_ms: elapsed_since(pre.since_start, now_ms),
                        },
                        DrawCall {
                            buffer_index: i,
                            layer: MeshLayer::Foreground,
                            program: pre.spec_program(),
                            projection: self.viewport.projection,
                            elapsed_ms: elapsed_since(pre.since_start, now_ms),
                        },
                    ]);
                }
            }
            i = i + 1;
        }
        proof {
            assert(buffers@.subrange(0, buffers@.len() as int) =~= buffers@);
        }
        Ok(DrawPlan { clear: true, calls })
    }

    /// Plans the drawing of many buffers at the wall clock's now: as
    /// [`Terminal::draw_multiple_at`], at some instant.
    pub fn draw_multiple(&mut self, buffers: &Vec<DrawableBuffer>) -> (r: Result<
        DrawPlan,
        GlermError,
    >)
        requires
            old(self).wf(),
        ensures
            final(self).wf(),
            exists|t: u64| draw_multiple_outcome(*old(self), buffers@, t, *final(self), r),
    {
        let now = now_millis();
        let r = self.draw_multiple_at(buffers, now);
        proof {
            assert(draw_multiple_outcome(*old(self), buffers@, now, *self, r));
        }
        r
    }
}

/// Milliseconds from `start` to `now_ms`; zero when the clock went
/// backwards.
pub open spec fn elapsed_since(start: u64, now_ms: u64) -> u64 {
    if now_ms >= start {
        (now_ms - start) as u64
    } else {
        0
    }
}

/// The target aspect ratio in force after the buffers have been processed
/// in order, starting from `init`: each flushed buffer whose ratio differs
/// from the current target retargets the viewport, when buffers drive the
/// ratio at all (`tba`).
pub open spec fn multi_target(init: Ratio, bufs: Seq<DrawableBuffer>, tba: bool) -> Ratio
    decreases bufs.len(),
{
    if bufs.len() == 0 {
        init
    } else {
        let prev = multi_target(init, bufs.drop_last(), tba);
        let b = bufs.last();
        if b.flushed && tba && !ratio_equiv(b.aspect_ratio, prev) {
            b.aspect_ratio
        } else {
            prev
        }
    }
}

/// The draw calls that processing the buffers in order emits, for a session
/// in state `pre`: two calls per flushed buffer, background first, each
/// with the projection in force once that buffer has been processed.
pub open spec fn multi_calls(pre: Terminal, bufs: Seq<DrawableBuffer>, now_ms: u64) -> Seq<
    DrawCall,
>
    decreases bufs.len(),
{
    if bufs.len() == 0 {
        Seq::empty()
    } else {
        let prefix = multi_calls(pre, bufs.drop_last(), now_ms);
        let b = bufs.last();
        if b.flushed {
            let target = multi_target(
                pre.viewport.target_aspect_ratio,
                bufs,
                pre.text_buffer_aspect_ratio,
            );
            let proj = projection_spec(
                pre.viewport.window_width,
                pre.viewport.window_height,
                target,
            );
            let e = elapsed_since(pre.since_start, now_ms);
            let idx = (bufs.len() - 1) as usize;
            prefix + seq![
                DrawCall {
                    buffer_index: idx,
                    layer: MeshLayer::Background,
                    program: pre.spec_background_program(),
                    projection: proj,
                    elapsed_ms: e,
                },
                DrawCall {
                    buffer_index: idx,
                    layer: MeshLayer::Foreground,
                    program: pre.spec_program(),
                    projection: proj,
                    elapsed_ms: e,
                },
            ]
        } else {
            prefix
        }
    }
}

/// Everything drawing one buffer does, as a relation between the session
/// before (`pre`) and after (`post`), the instant, and the result.
pub open spec fn draw_outcome(
    pre: Terminal,
    buffer: DrawableBuffer,
    now_ms: u64,
    post: Terminal,
    r: Result<DrawPlan, GlermError>,
) -> bool {
    if pre.graphics is Headless {
        &&& r == Err::<DrawPlan, GlermError>(GlermError::UnsupportedOperation)
        &&& post == pre
    } else if !buffer.flushed {
        &&& r is Ok
        &&& r->Ok_0.clear == false
        &&& r->Ok_0.calls@ == Seq::<DrawCall>::empty()
        &&& post == pre
    } else {
        let target = if pre.text_buffer_aspect_ratio && !ratio_equiv(
            buffer.aspect_ratio,
            pre.viewport.target_aspect_ratio,
        ) {
            buffer.aspect_ratio
        } else {
            pre.viewport.target_aspect_ratio
        };
        let vp = ViewportState {
            target_aspect_ratio: target,
            projection: projection_spec(
                pre.viewport.window_width,
                pre.viewport.window_height,
                target,
            ),
            ..pre.viewport
        };
        let e = elapsed_since(pre.since_start, now_ms);
        &&& post == (Terminal { viewport: vp, ..pre })
        &&& r is Ok
        &&& r->Ok_0.clear == true
        &&& r->Ok_0.calls@ == seq![
            DrawCall {
                buffer_index: 0,
                layer: MeshLayer::Background,
                program: pre.spec_background_program(),
                projection: vp.projection,
                elapsed_ms: e,
            },
            DrawCall {
                buffer_index: 0,
                layer: MeshLayer::Foreground,
                program: pre.spec_program(),
                projection: vp.projection,
                elapsed_ms: e,
            },
        ]
    }
}

/// Everything drawing many buffers does, as a relation between the session
/// before (`pre`) and after (`post`), the instant, and the result.  The
/// frame is cleared once, whether or not any buffer is flushed.
pub open spec fn draw_multiple_outcome(
    pre: Terminal,
    bufs: Seq<DrawableBuffer>,
    now_ms: u64,
    post: Terminal,
    r: Result<DrawPlan, GlermError>,
) -> bool {
    if pre.graphics is Headless {
        &&& r == Err::<DrawPlan, GlermError>(GlermError::UnsupportedOperation)
        &&& post == pre
    } else {
        let target = multi_target(
            pre.viewport.target_aspect_ratio,
            bufs,
            pre.text_buffer_aspect_ratio,
        );
        let vp = ViewportState {
            target_aspect_ratio: target,
            projection: projection_spec(
                pre.viewport.window_width,
                pre.viewport.window_height,
                target,
            ),
            ..pre.viewport
        };
        &&& post == (Terminal { viewport: vp, ..pre })
        &&& r is Ok
        &&& r->Ok_0.clear == true
        &&& r->Ok_0.calls@ == multi_calls(pre, bufs, now_ms)
    }
}

} // verus!
