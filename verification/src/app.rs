//! The animation loop's state and decisions.
//!
//! One application instance owns the quit and switch flags, the active
//! output configuration, the noise field with the size it was built
//! for, the frame counter and the frame-rate tracker. Each iteration of
//! the driving loop ticks the counters, rebuilds the field only when
//! the surface size changed, composites a frame, and folds the polled
//! key event into the flags. The loop itself, the terminal and the
//! clock live outside; they feed in sizes, times and key events as
//! plain values and carry the finished frame to the screen.

use vstd::prelude::*;

use crate::color::Rgb;
use crate::compose::compose;
use crate::compose::composed;
use crate::compose::CellPaint;
use crate::cycle::label_spec;
use crate::cycle::IoStream;
use crate::fps::spec_tick;
use crate::fps::Fps;
use crate::layout::split_header;
use crate::layout::split_title;
use crate::layout::Rect;
use crate::noise::generate;
use crate::noise::grid_ok;
use crate::numtext::format_fps;
use crate::numtext::fps_text_spec;
use crate::rng::fresh_rng;

verus! {

/// A key event as the loop cares about it: which character key, and
/// whether this is the press (rather than release or repeat).
#[derive(Clone, Copy, PartialEq, Eq, Structural, Debug)]
pub struct KeyInput {
    pub code: char,
    pub press: bool,
}

/// Where one loop iteration leaves the session: still running, or
/// terminated by one of the two requests.
#[derive(Clone, Copy, PartialEq, Eq, Structural, Debug)]
pub enum LoopState {
    Running,
    SwitchRequested,
    QuitRequested,
}

/// A polled event that requests quitting: the press of `q`.
pub open spec fn is_quit_input(ev: Option<KeyInput>) -> bool {
    match ev {
        Some(k) => k.press && k.code == 'q',
        None => false,
    }
}

/// A polled event that requests switching streams: the press of space.
pub open spec fn is_switch_input(ev: Option<KeyInput>) -> bool {
    match ev {
        Some(k) => k.press && k.code == ' ',
        None => false,
    }
}

/// A polled event that ends the session one way or the other.
pub open spec fn decides(ev: Option<KeyInput>) -> bool {
    is_quit_input(ev) || is_switch_input(ev)
}

/// The animation loop's state.
#[derive(Debug)]
pub struct App {
    pub should_quit: bool,
    pub switch_stream: bool,
    pub current_stream: IoStream,
    pub colors: Vec<Vec<Rgb>>,
    pub last_width: u16,
    pub last_height: u16,
    pub fps: Fps,
    pub frame_count: u64,
}

/// The session state that the two flags encode, quitting taking
/// precedence.
pub open spec fn status_of(app: App) -> LoopState {
    if app.should_quit {
        LoopState::QuitRequested
    } else if app.switch_stream {
        LoopState::SwitchRequested
    } else {
        LoopState::Running
    }
}

/// The grid matches the size it was last built for.
pub open spec fn app_wf(app: App) -> bool {
    grid_ok(app.colors@, app.last_width as int, app.last_height as int)
}

/// How many iterations a session driven by `inputs` runs: one per
/// event, stopping right after the first deciding one.
pub open spec fn session_steps(inputs: Seq<Option<KeyInput>>) -> int
    decreases inputs.len(),
{
    if inputs.len() == 0 {
        0
    } else if decides(inputs[0]) {
        1
    } else {
        1 + session_steps(inputs.drop_first())
    }
}

/// Where a session driven by `inputs` ends up: the request of the first
/// deciding event, or still running if there is none.
pub open spec fn session_outcome(inputs: Seq<Option<KeyInput>>) -> LoopState
    decreases inputs.len(),
{
    if inputs.len() == 0 {
        LoopState::Running
    } else if is_quit_input(inputs[0]) {
        LoopState::QuitRequested
    } else if is_switch_input(inputs[0]) {
        LoopState::SwitchRequested
    } else {
        session_outcome(inputs.drop_first())
    }
}

impl App {
    /// A fresh instance on the given output configuration, with both
    /// flags clear, no grid yet, and counters starting now.
    pub fn new(stream: IoStream, now_millis: u64) -> (app: App)
        ensures
            !app.should_quit,
            !app.switch_stream,
            app.current_stream == stream,
            app.colors@.len() == 0,
            app.last_width == 0 && app.last_height == 0,
            app.fps == (Fps { frame_count: 0, last_millis: now_millis, reading: None::<u128> }),
            app.frame_count == 0,
            app_wf(app),
    {
        App {
            should_quit: false,
            switch_stream: false,
            current_stream: stream,
            colors: Vec::new(),
            last_width: 0,
            last_height: 0,
            fps: Fps::new(now_millis),
            frame_count: 0,
        }
    }

    /// Count one frame: advance the frame counter and give the
    /// frame-rate tracker the current time.
    pub fn tick(&mut self, now_millis: u64)
        requires
            old(self).frame_count < u64::MAX,
            old(self).fps.frame_count < u64::MAX,
            old(self).fps.last_millis <= now_millis,
        ensures
            final(self).frame_count == old(self).frame_count + 1,
            final(self).fps == spec_tick(old(self).fps, now_millis as int),
            final(self).should_quit == old(self).should_quit,
            final(self).switch_stream == old(self).switch_stream,
            final(self).current_stream == old(self).current_stream,
            final(self).colors == old(self).colors,
            final(self).last_width == old(self).last_width,
            final(self).last_height == old(self).last_height,
    {
        self.frame_count = self.frame_count + 1;
        self.fps.tick(now_millis);
    }

    /// Rebuild the noise field for a new surface size; on an unchanged
    /// size this does nothing at all, so the grid is built at most once
    /// per distinct size.
    pub fn setup_colors(&mut self, width: u16, height: u16)
        ensures
            width == old(self).last_width && height == old(self).last_height ==> *final(self)
                == *old(self),
            width != old(self).last_width || height != old(self).last_height ==> {
                &&& final(self).last_width == width
                &&& final(self).last_height == height
                &&& grid_ok(final(self).colors@, width as int, height as int)
                &&& final(self).should_quit == old(self).should_quit
                &&& final(self).switch_stream == old(self).switch_stream
                &&& final(self).current_stream == old(self).current_stream
                &&& final(self).fps == old(self).fps
                &&& final(self).frame_count == old(self).frame_count
            },
            app_wf(*old(self)) ==> app_wf(*final(self)),
    {
        if self.last_width == width && self.last_height == height {
            return ;
        }
        self.last_width = width;
        self.last_height = height;
        let mut rng = fresh_rng();
        self.colors = generate(width, height, &mut rng);
    }

    /// Fold one polled event into the flags: the press of `q` requests
    /// quitting, the press of space requests a stream switch, and
    /// anything else changes nothing.
    pub fn handle_events(&mut self, event: Option<KeyInput>)
        ensures
            final(self).should_quit == (old(self).should_quit || is_quit_input(event)),
            final(self).switch_stream == (old(self).switch_stream || is_switch_input(event)),
            final(self).current_stream == old(self).current_stream,
            final(self).colors == old(self).colors,
            final(self).last_width == old(self).last_width,
            final(self).last_height == old(self).last_height,
            final(self).fps == old(self).fps,
            final(self).frame_count == old(self).frame_count,
    {
        match event {
            Some(k) => {
                if k.press && k.code == 'q' {
                    self.should_quit = true;
                }
                if k.press && k.code == ' ' {
                    self.switch_stream = true;
                }
            },
            None => {},
        }
    }

    /// The session state the flags currently encode.
    pub fn status(&self) -> (st: LoopState)
        ensures
            st == status_of(*self),
    {
        if self.should_quit {
            LoopState::QuitRequested
        } else if self.switch_stream {
            LoopState::SwitchRequested
        } else {
            LoopState::Running
        }
    }

    /// Build the model of one rendered frame for a surface the grid was
    /// built for: the layout split, the header texts, and the
    /// composited color cells of the field below the header.
    pub fn build_frame(&self, width: u16, height: u16) -> (f: FrameModel)
        requires
            self.last_width == width,
            self.last_height == height,
            app_wf(*self),
        ensures
            f.header.x == 0 && f.header.y == 0 && f.header.width == width,
            f.header.height == if height == 0 { 0int } else { 1int },
            f.field.x == 0 && f.field.y == f.header.height && f.field.width == width,
            f.field.height == height - f.header.height,
            f.fps_area.width == if width < 8 { width as int } else { 8int },
            f.title_area == (Rect {
                x: 0,
                y: 0,
                width: (width - f.fps_area.width) as u16,
                height: f.header.height as u16,
            }),
            f.fps_area.x == f.title_area.width && f.fps_area.y == 0 && f.fps_area.height
                == f.header.height,
            f.title@ == label_spec(self.current_stream),
            f.fps_text is Some <==> self.fps.reading is Some,
            self.fps.reading is Some ==> f.fps_text->Some_0@ == fps_text_spec(
                self.fps.reading->Some_0 as int,
            ),
            composed(
                self.colors@,
                self.frame_count as int,
                width as int,
                f.field.height as int,
                f.cells@,
            ),
    {
        let area = Rect { x: 0, y: 0, width, height };
        let (header, field) = split_header(area);
        let (title_area, fps_area) = split_title(header);
        let title = self.current_stream.label();
        let fps_text = match self.fps.current_reading() {
            Some(v) => Some(format_fps(v)),
            None => None,
        };
        let cells = compose(&self.colors, self.frame_count, width, field.height);
        FrameModel { header, title_area, fps_area, field, title, fps_text, cells }
    }

    /// Drive the session over a fixed schedule of polled events, one
    /// iteration per event, until one of them decides or the schedule
    /// runs out. Returns how many iterations ran; the resulting state
    /// is the first deciding event's request.
    pub fn run_events(&mut self, inputs: &Vec<Option<KeyInput>>, now_millis: u64) -> (n: usize)
        requires
            !old(self).should_quit,
            !old(self).switch_stream,
            old(self).frame_count + inputs@.len() <= u64::MAX,
            old(self).fps.frame_count + inputs@.len() <= u64::MAX,
            old(self).fps.last_millis <= now_millis,
        ensures
            n == session_steps(inputs@),
            n <= inputs@.len(),
            status_of(*final(self)) == session_outcome(inputs@),
            final(self).frame_count == old(self).frame_count + n,
    {
        let mut i: usize = 0;
        while i < inputs.len()
            invariant
                0 <= i <= inputs@.len(),
                !self.should_quit,
                !self.switch_stream,
                forall|j: int| 0 <= j < i ==> !decides(#[trigger] inputs@[j]),
                self.frame_count == old(self).frame_count + i,
                self.frame_count + (inputs@.len() - i) <= u64::MAX,
                self.fps.frame_count + (inputs@.len() - i) <= u64::MAX,
                self.fps.last_millis <= now_millis,
            decreases inputs@.len() - i,
        {
            let ev = inputs[i];
            self.tick(now_millis);
            self.handle_events(ev);
            i = i + 1;
            if self.should_quit || self.switch_stream {
                proof {
                    lemma_session_prefix(inputs@, i - 1);
                    assert(inputs@.skip(i - 1)[0] == inputs@[i - 1]);
                    assert(inputs@.skip(i - 1).len() > 0);
                    assert(session_steps(inputs@) == i);
                }
                return i;
            }
            proof {
                assert(!decides(inputs@[i - 1]));
            }
        }
        proof {
            lemma_session_prefix(inputs@, inputs@.len() as int);
            assert(inputs@.skip(inputs@.len() as int).len() == 0);
        }
        i
    }
}

/// The model of one rendered frame: where each region sits, what the
/// header says, and the color pair of every field cell.
pub struct FrameModel {
    pub header: Rect,
    pub title_area: Rect,
    pub fps_area: Rect,
    pub field: Rect,
    pub title: &'static str,
    pub fps_text: Option<Vec<u8>>,
    pub cells: Vec<Vec<CellPaint>>,
}

/// Skipping a non-deciding prefix only shifts a session: its length and
/// outcome are those of the rest, plus the prefix's iterations.
proof fn lemma_session_prefix(inputs: Seq<Option<KeyInput>>, k: int)
    requires
        0 <= k <= inputs.len(),
        forall|j: int| 0 <= j < k ==> !decides(#[trigger] inputs[j]),
    ensures
        session_steps(inputs) == k + session_steps(inputs.skip(k)),
        session_outcome(inputs) == session_outcome(inputs.skip(k)),
    decreases k,
{
    if k == 0 {
        assert(inputs.skip(0) =~= inputs);
    } else {
        lemma_session_prefix(inputs, k - 1);
        let rest = inputs.skip(k - 1);
        assert(rest[0] == inputs[k - 1]);
        assert(!decides(rest[0]));
        assert(rest.drop_first() =~= inputs.skip(k));
        assert(session_steps(rest) == 1 + session_steps(inputs.skip(k)));
        assert(session_outcome(rest) == session_outcome(inputs.skip(k)));
    }
}

/// A session fed any number of empty polls and then the press of `q`
/// terminates as quit-requested after exactly one iteration per event:
/// the empty polls keep it running, the quit press ends it.
pub proof fn lemma_quit_terminates(inputs: Seq<Option<KeyInput>>, n: int)
    requires
        0 <= n,
        inputs.len() == n + 1,
        forall|j: int| 0 <= j < n ==> inputs[j] is None,
        is_quit_input(inputs[n]),
    ensures
        session_steps(inputs) == n + 1,
        session_outcome(inputs) == LoopState::QuitRequested,
{
    lemma_session_prefix(inputs, n);
    let rest = inputs.skip(n);
    assert(rest.len() == 1);
    assert(rest[0] == inputs[n]);
    assert(session_steps(rest) == 1);
    assert(session_outcome(rest) == LoopState::QuitRequested);
}

/// A session whose very first polled event is the press of space
/// terminates as switch-requested after that single iteration, never
/// having requested a quit.
pub proof fn lemma_switch_immediate(inputs: Seq<Option<KeyInput>>)
    requires
        inputs.len() >= 1,
        is_switch_input(inputs[0]),
    ensures
        session_steps(inputs) == 1,
        session_outcome(inputs) == LoopState::SwitchRequested,
        session_outcome(inputs) != LoopState::QuitRequested,
{
}

} // verus!
