//! The differential renderer: owns all terminal output for one playback
//! session, draws each frame with the fewest terminal writes, and keeps
//! the previously drawn frame to diff the next one against.
//!
//! The terminal itself is driven through crossterm; every crossterm call
//! sits in a small trusted wrapper, and everything around the calls —
//! which pixels are drawn, where, and in what state the session is — is
//! verified.

use vstd::prelude::*;
use crate::diff;
use crate::diff::DrawOp;
use crate::frame::{Frame, Pixel};
use crossterm::ExecutableCommand;
use crossterm::QueueableCommand;
use crossterm::style::Stylize;
use std::io::Write;

verus! {

/// Playback configuration: the target inter-frame interval, in
/// microseconds (the interval is 1/fps; the hosting process converts
/// its frame-rate setting before constructing the renderer).
#[derive(Clone, Copy, Debug, PartialEq, Eq, Structural)]
pub struct RenderSetting {
    pub frame_interval_micros: u64,
}

/// Failures of the renderer.
#[derive(Clone, Copy, Debug, PartialEq, Eq, Structural)]
pub enum RenderError {
    /// A frame was handed to a renderer whose `init` has not run.
    NotInitialized,
    /// A frame's dimensions differ from the cached previous frame's.
    DimensionMismatch,
    /// A terminal query or write failed.
    Terminal,
}

impl RenderError {
    /// A human-readable description, for the hosting process to print.
    pub fn message(&self) -> (m: &'static str)
        ensures
            *self is NotInitialized ==> m@ == "Renderer not inited"@,
            *self is DimensionMismatch ==> m@ == "Frame size differs from the previous frame"@,
            *self is Terminal ==> m@ == "Terminal write failed"@,
    {
        match self {
            RenderError::NotInitialized => "Renderer not inited",
            RenderError::DimensionMismatch => "Frame size differs from the previous frame",
            RenderError::Terminal => "Terminal write failed",
        }
    }
}

#[verifier::external_type_specification]
#[verifier::external_body]
pub struct ExIoError(std::io::Error);

/// Relies on crossterm::terminal::size: the terminal's current
/// (columns, rows); the answer depends on the environment.
#[verifier::external_body]
fn query_term_size() -> (r: Result<(u16, u16), std::io::Error>) {
    crossterm::terminal::size()
}

/// Relies on crossterm's EnterAlternateScreen command: switches the
/// terminal to the alternate screen buffer.
#[verifier::external_body]
fn term_enter_alternate_screen() -> (r: Result<(), std::io::Error>) {
    std::io::stdout().execute(crossterm::terminal::EnterAlternateScreen).map(|_| ())
}

/// Relies on crossterm's LeaveAlternateScreen command: restores the
/// terminal's normal screen buffer.
#[verifier::external_body]
fn term_leave_alternate_screen() -> (r: Result<(), std::io::Error>) {
    std::io::stdout().execute(crossterm::terminal::LeaveAlternateScreen).map(|_| ())
}

/// Relies on crossterm's cursor::Hide command: hides the cursor.
#[verifier::external_body]
fn term_hide_cursor() -> (r: Result<(), std::io::Error>) {
    std::io::stdout().execute(crossterm::cursor::Hide).map(|_| ())
}

/// Relies on crossterm's cursor::Show command: shows the cursor again.
#[verifier::external_body]
fn term_show_cursor() -> (r: Result<(), std::io::Error>) {
    std::io::stdout().execute(crossterm::cursor::Show).map(|_| ())
}

/// Relies on crossterm's Clear command: clears the whole screen.
#[verifier::external_body]
fn term_clear_all() -> (r: Result<(), std::io::Error>) {
    std::io::stdout().execute(crossterm::terminal::Clear(
        crossterm::terminal::ClearType::All,
    )).map(|_| ())
}

/// Relies on crossterm's BeginSynchronizedUpdate command: opens an
/// atomic update scope so a partially drawn frame is never shown.
#[verifier::external_body]
fn term_begin_sync_update() -> (r: Result<(), std::io::Error>) {
    std::io::stdout().execute(crossterm::terminal::BeginSynchronizedUpdate).map(|_| ())
}

/// Relies on crossterm's EndSynchronizedUpdate command: closes the
/// atomic update scope, presenting the buffered writes at once.
#[verifier::external_body]
fn term_end_sync_update() -> (r: Result<(), std::io::Error>) {
    std::io::stdout().execute(crossterm::terminal::EndSynchronizedUpdate).map(|_| ())
}

/// Relies on crossterm's MoveTo command: queues an absolute move of the
/// write cursor to screen column `x`, screen row `y`. Its ANSI writer
/// adds 1 to each coordinate in `u16`, so the largest value is left out.
#[verifier::external_body]
fn queue_move_to(x: u16, y: u16) -> (r: Result<(), std::io::Error>)
    requires
        x < u16::MAX,
        y < u16::MAX,
{
    std::io::stdout().queue(crossterm::cursor::MoveTo(x, y)).map(|_| ())
}

/// Relies on crossterm's PrintStyledContent command: queues one solid
/// block glyph with the pixel's RGB as true-color foreground.
#[verifier::external_body]
fn queue_block(color: Pixel) -> (r: Result<(), std::io::Error>) {
    std::io::stdout().queue(crossterm::style::PrintStyledContent(
        "\u{2588}".with(crossterm::style::Color::Rgb { r: color.r, g: color.g, b: color.b }),
    )).map(|_| ())
}

/// Relies on crossterm's Print command: writes the per-frame header —
/// the frame number and the static label.
#[verifier::external_body]
fn print_frame_header(frame_no: u64) -> (r: Result<(), std::io::Error>) {
    std::io::stdout().execute(crossterm::style::Print(
        format!("Frame {}\nBy NoFun", frame_no),
    )).map(|_| ())
}

/// Relies on std's Write::flush for stdout: pushes the queued commands
/// out to the terminal.
#[verifier::external_body]
fn flush_stdout() -> (r: Result<(), std::io::Error>) {
    std::io::stdout().flush()
}

/// The screen column of a frame's left edge: a frame narrower than the
/// terminal is horizontally centered, one at least as wide starts at
/// the left edge.
pub fn origin_col(term_width: u16, frame_width: u16) -> (col: u16)
    ensures
        frame_width <= term_width ==> col == term_width / 2 - frame_width / 2,
        frame_width > term_width ==> col == 0,
        col + frame_width <= 65535,
{
    if frame_width <= term_width {
        term_width / 2 - frame_width / 2
    } else {
        0
    }
}

/// Whether `data`'s dimensions differ from those of a cached previous
/// frame. With no cached frame nothing can mismatch.
pub open spec fn dim_mismatch(cache: Option<Frame>, data: Frame) -> bool {
    match cache {
        Option::Some(p) => p.spec_width() != data.spec_width() || p.spec_height()
            != data.spec_height(),
        Option::None => false,
    }
}

/// The differential renderer. It refuses to draw before `init` has
/// run, draws only pixels that changed since the previous frame, and
/// keeps the last drawn frame as the baseline for the next diff.
#[derive(Debug)]
pub struct Renderer {
    /// Terminal size (columns, rows), snapshotted at construction.
    terminal_size: (u16, u16),
    /// Frame size (columns, rows); starts out as the terminal size.
    frame_size: (u16, u16),
    /// Number of frames rendered this session.
    frame_now: u64,
    /// Whether `init` has run.
    initialized: bool,
    /// The last drawn frame, the baseline for diffing.
    last_frame: Option<Frame>,
    setting: RenderSetting,
}

impl Renderer {
    /// A cached frame, once present, is itself well-formed.
    pub open spec fn wf(self) -> bool {
        match self.cached() {
            Option::Some(f) => f.wf(),
            Option::None => true,
        }
    }

    pub closed spec fn spec_initialized(self) -> bool {
        self.initialized
    }

    /// How many frames this session has rendered.
    pub closed spec fn spec_frame_now(self) -> u64 {
        self.frame_now
    }

    /// The cached last drawn frame.
    pub closed spec fn cached(self) -> Option<Frame> {
        self.last_frame
    }

    pub closed spec fn spec_term_size(self) -> (u16, u16) {
        self.terminal_size
    }

    pub closed spec fn spec_frame_size(self) -> (u16, u16) {
        self.frame_size
    }

    pub closed spec fn spec_setting(self) -> RenderSetting {
        self.setting
    }

    /// The draw plan `plan_frame` promises for `data` against the
    /// state the renderer was called in.
    pub open spec fn planned_ops(self, data: Frame) -> Seq<DrawOp> {
        diff::draw_seq(
            match self.cached() {
                Option::Some(p) => Option::Some(p.grid()),
                Option::None => Option::None,
            },
            data.grid(),
            data.spec_width() as int,
            (if data.spec_width() <= self.spec_term_size().0 {
                self.spec_term_size().0 / 2 - data.spec_width() / 2
            } else {
                0
            }) as int,
            0,
        )
    }

    /// Law (no-op diffing): a frame whose pixel data is identical to
    /// the cached previous frame's is planned with zero draw commands —
    /// only the header changes.
    pub proof fn lemma_no_op_diffing(self, data: Frame)
        requires
            self.cached() matches Some(p) && p.grid() == data.grid(),
        ensures
            self.planned_ops(data).len() == 0,
    {
        diff::lemma_identical_no_ops(
            data.grid(),
            data.spec_width() as int,
            (if data.spec_width() <= self.spec_term_size().0 {
                self.spec_term_size().0 / 2 - data.spec_width() / 2
            } else {
                0
            }) as int,
            0,
        );
    }

    /// Law (full redraw on the first frame): with nothing cached yet,
    /// exactly width × height draw commands are planned, whatever the
    /// frame's content.
    pub proof fn lemma_full_redraw(self, data: Frame)
        requires
            self.cached() is None,
            data.wf(),
        ensures
            self.planned_ops(data).len() == data.spec_width() * data.spec_height(),
    {
        diff::lemma_full_redraw(
            data.grid(),
            data.spec_width() as int,
            (if data.spec_width() <= self.spec_term_size().0 {
                self.spec_term_size().0 / 2 - data.spec_width() / 2
            } else {
                0
            }) as int,
            0,
        );
    }

    /// Law (partial diffing): against a cached previous frame, exactly
    /// one draw command is planned per pixel position whose color
    /// differs between the two frames.
    pub proof fn lemma_partial_diffing(self, data: Frame)
        requires
            self.cached() matches Some(p),
        ensures
            self.cached() matches Some(p) ==> self.planned_ops(data).len()
                == diff::changed_count(
                Option::Some(p.grid()),
                data.grid(),
                data.grid().len() as int,
            ),
            self.cached() matches Some(p) ==> self.planned_ops(data).len()
                == diff::changed_positions(
                Option::Some(p.grid()),
                data.grid(),
                data.grid().len() as int,
            ).len(),
    {
        if let Option::Some(p) = self.cached() {
            diff::lemma_partial_diff(
                p.grid(),
                data.grid(),
                data.spec_width() as int,
                (if data.spec_width() <= self.spec_term_size().0 {
                    self.spec_term_size().0 / 2 - data.spec_width() / 2
                } else {
                    0
                }) as int,
                0,
            );
        }
    }

    /// Law (centering): on the first frame of a session, a frame no
    /// wider than the terminal has its first drawn pixel at column
    /// `terminal_width / 2 - frame_width / 2` of row 0.
    pub proof fn lemma_centering(self, data: Frame)
        requires
            self.cached() is None,
            data.wf(),
            data.grid().len() > 0,
            0 < data.spec_width() <= self.spec_term_size().0,
        ensures
            self.planned_ops(data)[0] == (DrawOp {
                x: (self.spec_term_size().0 / 2 - data.spec_width() / 2) as u16,
                y: 0,
                color: data.grid()[0],
            }),
    {
        diff::lemma_first_op_at_origin(
            data.grid(),
            data.spec_width() as int,
            (self.spec_term_size().0 / 2 - data.spec_width() / 2) as int,
            0,
        );
    }

    /// Builds a renderer for a terminal of the given size
    /// (columns, rows): uninitialized, with no frame rendered yet and
    /// nothing cached.
    pub fn with_term_size(setting: RenderSetting, term_size: (u16, u16)) -> (r: Renderer)
        ensures
            r.wf(),
            !r.spec_initialized(),
            r.spec_frame_now() == 0,
            r.cached() is None,
            r.spec_term_size() == term_size,
            r.spec_frame_size() == term_size,
            r.spec_setting() == setting,
    {
        Renderer {
            terminal_size: term_size,
            frame_size: term_size,
            frame_now: 0,
            initialized: false,
            last_frame: None,
            setting,
        }
    }

    /// Builds a renderer, snapshotting the current terminal size. Fails
    /// only when the terminal size cannot be queried.
    pub fn new(setting: RenderSetting) -> (r: Result<Renderer, RenderError>)
        ensures
            r matches Ok(rd) ==> rd.wf() && !rd.spec_initialized() && rd.spec_frame_now() == 0
                && rd.cached() is None && rd.spec_frame_size() == rd.spec_term_size()
                && rd.spec_setting() == setting,
            r matches Err(e) ==> e == RenderError::Terminal,
    {
        match query_term_size() {
            Ok(sz) => Ok(Renderer::with_term_size(setting, sz)),
            Err(_) => Err(RenderError::Terminal),
        }
    }

    /// Overrides the stored frame size (columns, rows); nothing else
    /// changes.
    pub fn set_frame_size(&mut self, size: (u16, u16))
        ensures
            final(self).spec_frame_size() == size,
            final(self).spec_term_size() == old(self).spec_term_size(),
            final(self).spec_frame_now() == old(self).spec_frame_now(),
            final(self).spec_initialized() == old(self).spec_initialized(),
            final(self).cached() == old(self).cached(),
            final(self).spec_setting() == old(self).spec_setting(),
    {
        self.frame_size = size;
    }

    pub fn frame_size(&self) -> (s: (u16, u16))
        ensures
            s == self.spec_frame_size(),
    {
        self.frame_size
    }

    pub fn term_size(&self) -> (s: (u16, u16))
        ensures
            s == self.spec_term_size(),
    {
        self.terminal_size
    }

    pub fn setting(&self) -> (s: RenderSetting)
        ensures
            s == self.spec_setting(),
    {
        self.setting
    }

    /// How many frames this session has rendered so far.
    pub fn frames_rendered(&self) -> (n: u64)
        ensures
            n == self.spec_frame_now(),
    {
        self.frame_now
    }

    /// Enters the exclusive rendering mode: alternate screen buffer,
    /// hidden cursor, cleared screen. Must run before the first frame.
    pub fn init(&mut self) -> (r: Result<(), RenderError>)
        ensures
            final(self).spec_term_size() == old(self).spec_term_size(),
            final(self).spec_frame_size() == old(self).spec_frame_size(),
            final(self).spec_frame_now() == old(self).spec_frame_now(),
            final(self).cached() == old(self).cached(),
            final(self).spec_setting() == old(self).spec_setting(),
            final(self).wf() == old(self).wf(),
            r is Ok ==> final(self).spec_initialized(),
            r matches Err(e) ==> e == RenderError::Terminal && final(self).spec_initialized()
                == old(self).spec_initialized(),
    {
        if term_enter_alternate_screen().is_err() {
            return Err(RenderError::Terminal);
        }
        if term_hide_cursor().is_err() {
            return Err(RenderError::Terminal);
        }
        if term_clear_all().is_err() {
            return Err(RenderError::Terminal);
        }
        self.initialized = true;
        Ok(())
    }

    /// Leaves the rendering mode again: normal screen buffer restored,
    /// cursor shown. After a successful teardown the renderer refuses
    /// to draw until `init` runs again.
    pub fn teardown(&mut self) -> (r: Result<(), RenderError>)
        ensures
            final(self).spec_term_size() == old(self).spec_term_size(),
            final(self).spec_frame_size() == old(self).spec_frame_size(),
            final(self).spec_frame_now() == old(self).spec_frame_now(),
            final(self).cached() == old(self).cached(),
            final(self).spec_setting() == old(self).spec_setting(),
            final(self).wf() == old(self).wf(),
            r is Ok ==> !final(self).spec_initialized(),
            r matches Err(e) ==> e == RenderError::Terminal && final(self).spec_initialized()
                == old(self).spec_initialized(),
    {
        if term_leave_alternate_screen().is_err() {
            return Err(RenderError::Terminal);
        }
        if term_show_cursor().is_err() {
            return Err(RenderError::Terminal);
        }
        self.initialized = false;
        Ok(())
    }

    /// Advances the session by one frame without touching the terminal:
    /// checks the session state, bumps the frame counter, computes the
    /// draw commands against the cached previous frame, and replaces
    /// the cache with this frame (the frame moves in, so later changes
    /// to the caller's data cannot reach the cache).
    pub fn plan_frame(&mut self, data: Frame) -> (r: Result<Vec<DrawOp>, RenderError>)
        requires
            old(self).wf(),
            data.wf(),
            old(self).spec_frame_now() < u64::MAX,
        ensures
            final(self).wf(),
            !old(self).spec_initialized() ==> r == Err::<Vec<DrawOp>, RenderError>(
                RenderError::NotInitialized,
            ) && *final(self) == *old(self),
            old(self).spec_initialized() && dim_mismatch(old(self).cached(), data) ==> r
                == Err::<Vec<DrawOp>, RenderError>(RenderError::DimensionMismatch) && *final(self)
                == *old(self),
            old(self).spec_initialized() && !dim_mismatch(old(self).cached(), data) ==> {
                &&& r matches Ok(ops)
                &&& ops@ == old(self).planned_ops(data)
                &&& (forall|j: int|
                    0 <= j < ops@.len() ==> ops@[j].x < u16::MAX && ops@[j].y < u16::MAX)
                &&& final(self).spec_frame_now() == old(self).spec_frame_now() + 1
                &&& final(self).cached() == Some(data)
                &&& final(self).spec_initialized()
                &&& final(self).spec_term_size() == old(self).spec_term_size()
                &&& final(self).spec_frame_size() == old(self).spec_frame_size()
                &&& final(self).spec_setting() == old(self).spec_setting()
            },
    {
        if !self.initialized {
            return Err(RenderError::NotInitialized);
        }
        match &self.last_frame {
            Some(p) => {
                if p.width() != data.width() || p.height() != data.height() {
                    return Err(RenderError::DimensionMismatch);
                }
            },
            None => {},
        }
        self.frame_now = self.frame_now + 1;
        let ox = origin_col(self.terminal_size.0, data.width());
        let ops = diff::diff_ops(self.last_frame.as_ref(), &data, ox, 0);
        self.last_frame = Some(data);
        Ok(ops)
    }

    /// Draws one frame: plans the changed pixels, then writes the
    /// header and the planned commands inside one synchronized update.
    /// The session state advances exactly as in `plan_frame`; a failed
    /// terminal write surfaces as a `Terminal` error after the state
    /// has advanced.
    #[verifier::loop_isolation(false)]
    pub fn render_frame(&mut self, data: Frame) -> (r: Result<(), RenderError>)
        requires
            old(self).wf(),
            data.wf(),
            old(self).spec_frame_now() < u64::MAX,
        ensures
            final(self).wf(),
            !old(self).spec_initialized() ==> r == Err::<(), RenderError>(
                RenderError::NotInitialized,
            ) && *final(self) == *old(self),
            old(self).spec_initialized() && dim_mismatch(old(self).cached(), data) ==> r
                == Err::<(), RenderError>(RenderError::DimensionMismatch) && *final(self) == *old(
                self,
            ),
            old(self).spec_initialized() && !dim_mismatch(old(self).cached(), data) ==> {
                &&& (r is Ok || r == Err::<(), RenderError>(RenderError::Terminal))
                &&& final(self).spec_frame_now() == old(self).spec_frame_now() + 1
                &&& final(self).cached() == Some(data)
                &&& final(self).spec_initialized()
                &&& final(self).spec_term_size() == old(self).spec_term_size()
                &&& final(self).spec_frame_size() == old(self).spec_frame_size()
                &&& final(self).spec_setting() == old(self).spec_setting()
            },
    {
        let ops = match self.plan_frame(data) {
            Ok(ops) => ops,
            Err(e) => {
                return Err(e);
            },
        };
        if queue_move_to(0, 0).is_err() {
            return Err(RenderError::Terminal);
        }
        if print_frame_header(self.frame_now).is_err() {
            return Err(RenderError::Terminal);
        }
        if term_begin_sync_update().is_err() {
            return Err(RenderError::Terminal);
        }
        let mut i: usize = 0;
        while i < ops.len()
            invariant
                i <= ops@.len(),
            decreases ops@.len() - i,
        {
            let op = ops[i];
            if queue_move_to(op.x, op.y).is_err() {
                return Err(RenderError::Terminal);
            }
            if queue_block(op.color).is_err() {
                return Err(RenderError::Terminal);
            }
            i = i + 1;
        }
        if flush_stdout().is_err() {
            return Err(RenderError::Terminal);
        }
        if term_end_sync_update().is_err() {
            return Err(RenderError::Terminal);
        }
        Ok(())
    }
}

} // verus!
