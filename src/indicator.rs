use vstd::prelude::*;
use crate::style::{bold, cyan, styled};

verus! {

/// Number of frames in the spinner's cycle.
pub const FRAME_COUNT: usize = 10;

/// Milliseconds between two ticks of the spinner.
pub const TICK_MILLIS: u64 = 120;

/// The glyph of frame `i` of the cycle.
pub open spec fn glyph(i: int) -> Seq<char> {
    let k = i % (FRAME_COUNT as int);
    if k == 0 {
        "⠋"@
    } else if k == 1 {
        "⠙"@
    } else if k == 2 {
        "⠹"@
    } else if k == 3 {
        "⠸"@
    } else if k == 4 {
        "⠼"@
    } else if k == 5 {
        "⠴"@
    } else if k == 6 {
        "⠦"@
    } else if k == 7 {
        "⠧"@
    } else if k == 8 {
        "⠇"@
    } else {
        "⠏"@
    }
}

/// The text drawn for frame `i`: back to the start of the line, the cyan
/// glyph, and the bold status text.
pub open spec fn frame_line(i: int) -> Seq<char> {
    "\r"@ + styled("36"@, glyph(i)) + " "@ + styled("1"@, "Processing clipboard image"@)
}

/// The glyph of frame `i` of the cycle.
fn frame_glyph(i: usize) -> (r: &'static str)
    ensures
        r@ == glyph(i as int),
{
    let k = i % FRAME_COUNT;
    if k == 0 {
        "⠋"
    } else if k == 1 {
        "⠙"
    } else if k == 2 {
        "⠹"
    } else if k == 3 {
        "⠸"
    } else if k == 4 {
        "⠼"
    } else if k == 5 {
        "⠴"
    } else if k == 6 {
        "⠦"
    } else if k == 7 {
        "⠧"
    } else if k == 8 {
        "⠇"
    } else {
        "⠏"
    }
}

/// The text drawn for frame `i`.
pub fn render_frame(i: usize) -> (r: String)
    ensures
        r@ == frame_line(i as int),
{
    let g = cyan(frame_glyph(i));
    let t = bold("Processing clipboard image");
    String::from_str("\r").concat(g.as_str()).concat(" ").concat(t.as_str())
}

/// What a tick puts on the terminal.
pub enum Shown {
    /// A frame is drawn.
    Line(Seq<char>),
    /// The line is erased; the animation is over.
    Erase,
    /// Nothing is written.
    Nothing,
}

/// What the animation task is to do after a tick.
#[derive(Debug)]
pub enum SpinnerAction {
    /// Draw this text.
    Render(String),
    /// Erase the line and end the task.
    Erase,
    /// Write nothing; the animation has already ended.
    Idle,
}

impl SpinnerAction {
    /// What the action puts on the terminal.
    pub open spec fn view(&self) -> Shown {
        match self {
            SpinnerAction::Render(s) => Shown::Line(s@),
            SpinnerAction::Erase => Shown::Erase,
            SpinnerAction::Idle => Shown::Nothing,
        }
    }
}

/// The progress indicator's state: the next frame to draw, and whether the
/// stop signal has been observed. It goes from running to stopped once and
/// never back.
#[derive(Debug)]
pub struct Spinner {
    /// The frame drawn at the next tick, taken modulo the cycle's length.
    pub frame: usize,
    /// Whether the stop signal has been observed.
    pub stopped: bool,
}

/// One tick from state `s`, with `stop` telling whether the stop signal is set.
pub open spec fn step(s: Spinner, stop: bool) -> (Spinner, Shown) {
    if s.stopped {
        (s, Shown::Nothing)
    } else if stop {
        (Spinner { frame: s.frame, stopped: true }, Shown::Erase)
    } else {
        (
            Spinner { frame: (((s.frame as int) % (FRAME_COUNT as int) + 1) % (FRAME_COUNT as int)) as usize, stopped: false },
            Shown::Line(frame_line(s.frame as int)),
        )
    }
}

/// What a sequence of ticks from `s` writes, one entry per tick; `signals`
/// holds the stop signal as each tick sees it.
pub open spec fn run(s: Spinner, signals: Seq<bool>) -> Seq<Shown>
    decreases signals.len(),
{
    if signals.len() == 0 {
        Seq::empty()
    } else {
        let (next, shown) = step(s, signals[0]);
        seq![shown] + run(next, signals.drop_first())
    }
}

/// A run writes one entry per tick.
proof fn lemma_run_len(s: Spinner, signals: Seq<bool>)
    ensures
        run(s, signals).len() == signals.len(),
    decreases signals.len(),
{
    if signals.len() > 0 {
        let (next, shown) = step(s, signals[0]);
        lemma_run_len(next, signals.drop_first());
    }
}

impl Spinner {
    /// Starts the indicator: returns the first frame, to be drawn at once,
    /// and the running state that draws the following ones.
    pub fn start() -> (r: (Spinner, String))
        ensures
            !r.0.stopped,
            r.0.frame == 1,
            r.1@ == frame_line(0),
    {
        let first = render_frame(0);
        (Spinner { frame: 1, stopped: false }, first)
    }

    /// One tick of the animation. A running spinner erases the line and
    /// stops when the stop signal is set, and otherwise draws its next frame;
    /// a stopped one writes nothing.
    pub fn tick(&mut self, stop: bool) -> (r: SpinnerAction)
        ensures
            (*final(self), r.view()) == step(*old(self), stop),
    {
        if self.stopped {
            SpinnerAction::Idle
        } else if stop {
            self.stopped = true;
            SpinnerAction::Erase
        } else {
            let line = render_frame(self.frame);
            self.frame = (self.frame % FRAME_COUNT + 1) % FRAME_COUNT;
            SpinnerAction::Render(line)
        }
    }
}

/// Once stopped, the indicator writes nothing more, whatever the signal.
pub proof fn lemma_stopped_stays_silent(s: Spinner, signals: Seq<bool>)
    requires
        s.stopped,
    ensures
        forall|i: int| 0 <= i < signals.len() ==> #[trigger] run(s, signals)[i] == Shown::Nothing,
    decreases signals.len(),
{
    lemma_run_len(s, signals);
    if signals.len() > 0 {
        lemma_run_len(s, signals.drop_first());
        lemma_stopped_stays_silent(s, signals.drop_first());
        assert forall|i: int| 0 <= i < signals.len() implies #[trigger] run(s, signals)[i]
            == Shown::Nothing by {
            if i > 0 {
                assert(run(s, signals)[i] == run(s, signals.drop_first())[i - 1]);
            }
        }
    }
}

/// No frame is drawn after the line has been erased.
pub proof fn lemma_no_frame_after_erase(s: Spinner, signals: Seq<bool>, i: int, j: int)
    requires
        0 <= i < j < signals.len(),
        run(s, signals)[i] == Shown::Erase,
    ensures
        run(s, signals)[j] == Shown::Nothing,
    decreases signals.len(),
{
    let (next, shown) = step(s, signals[0]);
    lemma_run_len(s, signals);
    lemma_run_len(next, signals.drop_first());
    assert(run(s, signals)[j] == run(next, signals.drop_first())[j - 1]);
    if i == 0 {
        lemma_stopped_stays_silent(next, signals.drop_first());
    } else {
        assert(run(s, signals)[i] == run(next, signals.drop_first())[i - 1]);
        lemma_no_frame_after_erase(next, signals.drop_first(), i - 1, j - 1);
    }
}

/// A running indicator reacts to the stop signal at the first tick that
/// sees it: that tick erases the line, and no earlier tick has.
pub proof fn lemma_stop_seen_at_next_tick(s: Spinner, signals: Seq<bool>, i: int)
    requires
        !s.stopped,
        0 <= i < signals.len(),
        signals[i],
        forall|k: int| 0 <= k < i ==> !signals[k],
    ensures
        run(s, signals)[i] == Shown::Erase,
        forall|k: int| 0 <= k < i ==> run(s, signals)[k] is Line,
    decreases signals.len(),
{
    let (next, shown) = step(s, signals[0]);
    lemma_run_len(s, signals);
    lemma_run_len(next, signals.drop_first());
    if i > 0 {
        assert forall|k: int| 0 <= k < i - 1 implies !signals.drop_first()[k] by {
            assert(signals.drop_first()[k] == signals[k + 1]);
        }
        lemma_stop_seen_at_next_tick(next, signals.drop_first(), i - 1);
        assert forall|k: int| 0 <= k < i implies run(s, signals)[k] is Line by {
            if k > 0 {
                assert(run(s, signals)[k] == run(next, signals.drop_first())[k - 1]);
            }
        }
        assert(run(s, signals)[i] == run(next, signals.drop_first())[i - 1]);
    }
}

} // verus!
