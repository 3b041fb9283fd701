//! The novelty gate and the election of the best frame between two dispatches.
use std::sync::Arc;

use image::DynamicImage;
use std::time::Instant;
use vstd::prelude::*;

verus! {

/// Novelty scores are carried in millionths: this value stands for a score of one.
pub const SCORE_ONE: u64 = 1_000_000;

/// Frames whose score (in millionths) is below this value are redundant once a previous frame
/// exists: six thousandths.
pub const SKIP_THRESHOLD: u64 = 6_000;

/// One window captured with a frame: its image, application name, window name and whether it
/// had input focus.
pub type WindowImage = (DynamicImage, String, String, bool);

/// The best frame seen since the last dispatch.
pub struct MaxAverageFrame {
    pub image: Arc<DynamicImage>,
    pub window_images: Vec<WindowImage>,
    pub image_hash: u64,
    pub frame_number: u64,
    pub timestamp: Instant,
    /// The frame's novelty score, in millionths.
    pub average: u64,
}

/// What one offered frame led to.
#[derive(PartialEq, Eq, Structural, Clone, Copy, Debug)]
pub enum Verdict {
    /// The frame was redundant and has been dropped.
    Skip,
    /// A best frame is held and no recognition task runs: it may be dispatched now.
    Eligible,
    /// The frame was recorded; nothing can be dispatched yet.
    Buffer,
}

/// The counter after one more frame; it wraps to zero past the largest value.
pub open spec fn next_count(n: u64) -> u64 {
    if n == u64::MAX {
        0
    } else {
        (n + 1) as u64
    }
}

/// The score that the selector acts on: the first frame of a run always counts as fully novel,
/// and a score that could not be computed counts as no change.
pub open spec fn effective_score(has_previous: bool, score: Option<u64>) -> u64 {
    if !has_previous {
        SCORE_ONE
    } else {
        match score {
            Some(s) => s,
            None => 0,
        }
    }
}

/// Whether a frame with this effective score is dropped as redundant.
pub open spec fn is_redundant(has_previous: bool, effective: u64) -> bool {
    has_previous && effective < SKIP_THRESHOLD
}

/// The largest value of a sequence of scores; zero for none.
pub open spec fn max_score(s: Seq<u64>) -> u64
    decreases s.len(),
{
    if s.len() == 0 {
        0
    } else {
        let rest = max_score(s.drop_last());
        if s.last() > rest {
            s.last()
        } else {
            rest
        }
    }
}

/// The largest accepted score is at least every accepted score, and is one of them when any
/// was accepted.
pub proof fn lemma_max_score_bounds(s: Seq<u64>)
    ensures
        forall|i: int| 0 <= i < s.len() ==> s[i] <= max_score(s),
        s.len() > 0 ==> s.contains(max_score(s)),
    decreases s.len(),
{
    if s.len() > 0 {
        let rest = s.drop_last();
        lemma_max_score_bounds(rest);
        assert forall|i: int| 0 <= i < s.len() implies s[i] <= max_score(s) by {
            if i < s.len() - 1 {
                assert(s[i] == rest[i]);
            }
        }
        if rest.len() > 0 && s.last() <= max_score(rest) {
            let j = choose|j: int| 0 <= j < rest.len() && rest[j] == max_score(rest);
            assert(s[j] == max_score(s));
        } else {
            assert(s[s.len() - 1] == max_score(s));
        }
    }
}

/// Appending a score raises the maximum to it exactly when it is larger.
pub proof fn lemma_max_score_push(s: Seq<u64>, x: u64)
    ensures
        max_score(s.push(x)) == if x > max_score(s) { x } else { max_score(s) },
{
    assert(s.push(x).drop_last() =~= s);
}

fn wrapping_increment(n: u64) -> (r: u64)
    ensures
        r == next_count(n),
{
    if n == u64::MAX {
        0
    } else {
        n + 1
    }
}

/// One capture handed to the selector: the full monitor image, its windows, and the capture's
/// fingerprint.
pub struct FrameSample {
    pub image: Arc<DynamicImage>,
    pub window_images: Vec<WindowImage>,
    pub image_hash: u64,
}

/// What one tick of the capture loop decided.
pub struct TickOutcome {
    /// Whether the captured frame passed the novelty threshold; its image is then the one the
    /// next frame is scored against.
    pub accepted: bool,
    /// The frame to hand to a new recognition task, if one may start now.
    pub dispatch: Option<MaxAverageFrame>,
}

/// The state carried from one capture to the next between dispatches.
pub struct FrameSelector {
    /// Whether a frame has been accepted since the run began.
    pub has_previous: bool,
    /// The best frame since the last dispatch.
    pub best: Option<MaxAverageFrame>,
    /// Its score in millionths; zero when none is held.
    pub best_score: u64,
    /// Frames since the last dispatch.
    pub frame_counter: u64,
    /// Frames dropped as redundant over the whole run.
    pub skipped_frames: u64,
    /// The effective scores of the frames accepted since the last dispatch.
    pub accepted_scores: Ghost<Seq<u64>>,
}

impl FrameSelector {
    /// The held best frame is the first frame with the largest score accepted since the last
    /// dispatch.
    pub open spec fn wf(&self) -> bool {
        &&& self.best_score == max_score(self.accepted_scores@)
        &&& (self.best is None <==> self.accepted_scores@.len() == 0)
        &&& (self.best matches Some(c) ==> c.average == self.best_score)
    }

    /// The state after accepting a frame whose effective score is `e`.
    pub open spec fn accepted(self, sample: FrameSample, e: u64, timestamp: Instant) -> FrameSelector {
        let elected = e > self.best_score;
        FrameSelector {
            has_previous: true,
            best: if elected {
                Some(
                    MaxAverageFrame {
                        image: sample.image,
                        window_images: sample.window_images,
                        image_hash: sample.image_hash,
                        frame_number: self.frame_counter,
                        timestamp,
                        average: e,
                    },
                )
            } else {
                self.best
            },
            best_score: if elected { e } else { self.best_score },
            frame_counter: self.frame_counter,
            skipped_frames: self.skipped_frames,
            accepted_scores: Ghost(self.accepted_scores@.push(e)),
        }
    }

    /// The state once the best frame has been handed to a recognition task.
    pub open spec fn dispatched(self) -> FrameSelector {
        FrameSelector {
            has_previous: self.has_previous,
            best: None,
            best_score: 0,
            frame_counter: 0,
            skipped_frames: self.skipped_frames,
            accepted_scores: Ghost(Seq::empty()),
        }
    }

    /// The state after a frame was dropped as redundant.
    pub open spec fn skipped(self) -> FrameSelector {
        FrameSelector { skipped_frames: next_count(self.skipped_frames), ..self }
    }

    /// The state at the end of a tick.
    pub open spec fn counted(self) -> FrameSelector {
        FrameSelector { frame_counter: next_count(self.frame_counter), ..self }
    }

    /// The state and the dispatched frame after one tick.
    pub open spec fn next(
        self,
        capture: Option<FrameSample>,
        score: Option<u64>,
        timestamp: Instant,
        ocr_idle: bool,
    ) -> (FrameSelector, Option<MaxAverageFrame>) {
        match capture {
            None => (self.counted(), None),
            Some(sample) => {
                let e = effective_score(self.has_previous, score);
                if is_redundant(self.has_previous, e) {
                    (self.skipped().counted(), None)
                } else {
                    let s = self.accepted(sample, e, timestamp);
                    if ocr_idle {
                        (s.dispatched().counted(), s.best)
                    } else {
                        (s.counted(), None)
                    }
                }
            },
        }
    }

    /// The state before any frame.
    pub open spec fn initial() -> FrameSelector {
        FrameSelector {
            has_previous: false,
            best: None,
            best_score: 0,
            frame_counter: 0,
            skipped_frames: 0,
            accepted_scores: Ghost(Seq::empty()),
        }
    }

    pub fn new() -> (r: FrameSelector)
        ensures
            r.wf(),
            r == FrameSelector::initial(),
    {
        FrameSelector {
            has_previous: false,
            best: None,
            best_score: 0,
            frame_counter: 0,
            skipped_frames: 0,
            accepted_scores: Ghost(Seq::empty()),
        }
    }

    /// Offers one capture with the score the scorer gave it (`None` when scoring failed).
    /// A redundant frame leaves the state untouched; any other becomes the new best when its
    /// score is strictly above the held one, so that on a tie the earlier frame stays.
    pub fn offer(&mut self, sample: FrameSample, score: Option<u64>, timestamp: Instant, ocr_idle: bool) -> (v: Verdict)
        requires
            old(self).wf(),
        ensures
            final(self).wf(),
            ({
                let e = effective_score(old(self).has_previous, score);
                if is_redundant(old(self).has_previous, e) {
                    v == Verdict::Skip && *final(self) == *old(self)
                } else {
                    &&& *final(self) == old(self).accepted(sample, e, timestamp)
                    &&& v == if ocr_idle { Verdict::Eligible } else { Verdict::Buffer }
                }
            }),
    {
        let e: u64 = if !self.has_previous {
            SCORE_ONE
        } else {
            match score {
                Some(s) => s,
                None => 0,
            }
        };
        if self.has_previous && e < SKIP_THRESHOLD {
            return Verdict::Skip;
        }
        proof {
            lemma_max_score_push(self.accepted_scores@, e);
        }
        if e > self.best_score {
            self.best = Some(
                MaxAverageFrame {
                    image: sample.image,
                    window_images: sample.window_images,
                    image_hash: sample.image_hash,
                    frame_number: self.frame_counter,
                    timestamp,
                    average: e,
                },
            );
            self.best_score = e;
        }
        self.has_previous = true;
        self.accepted_scores = Ghost(self.accepted_scores@.push(e));
        if ocr_idle {
            Verdict::Eligible
        } else {
            Verdict::Buffer
        }
    }

    /// Hands out the best frame and starts a new period: no best, a score of zero and a frame
    /// counter of zero. The frame handed out scored at least as high as every frame accepted
    /// since the previous dispatch.
    pub fn take_best(&mut self) -> (r: Option<MaxAverageFrame>)
        requires
            old(self).wf(),
        ensures
            final(self).wf(),
            r == old(self).best,
            *final(self) == old(self).dispatched(),
            r matches Some(c) ==> {
                &&& old(self).accepted_scores@.contains(c.average)
                &&& forall|i: int|
                    0 <= i < old(self).accepted_scores@.len() ==> old(self).accepted_scores@[i]
                        <= c.average
            },
    {
        proof {
            lemma_max_score_bounds(self.accepted_scores@);
        }
        let r = self.best.take();
        self.best_score = 0;
        self.frame_counter = 0;
        self.accepted_scores = Ghost(Seq::empty());
        r
    }

    /// Closes a tick: one more frame since the last dispatch.
    pub fn end_tick(&mut self)
        requires
            old(self).wf(),
        ensures
            final(self).wf(),
            *final(self) == old(self).counted(),
    {
        self.frame_counter = wrapping_increment(self.frame_counter);
    }

    /// Runs the decisions of one tick of the capture loop. `capture` is `None` when capturing
    /// failed. A frame is dispatched only when no recognition task runs (`ocr_idle`), and the
    /// frame dispatched scored highest among those accepted since the last dispatch.
    pub fn tick(&mut self, capture: Option<FrameSample>, score: Option<u64>, timestamp: Instant, ocr_idle: bool) -> (r: TickOutcome)
        requires
            old(self).wf(),
        ensures
            final(self).wf(),
            r.dispatch is Some ==> ocr_idle,
            r.accepted == (capture is Some && !is_redundant(
                old(self).has_previous,
                effective_score(old(self).has_previous, score),
            )),
            (*final(self), r.dispatch) == old(self).next(capture, score, timestamp, ocr_idle),
            !old(self).has_previous && capture is Some && ocr_idle ==> r.dispatch is Some,
            old(self).has_previous && below_threshold(score) ==> r.dispatch is None,
            r.dispatch matches Some(c) ==> {
                &&& c.average >= effective_score(old(self).has_previous, score)
                &&& forall|i: int|
                    0 <= i < old(self).accepted_scores@.len() ==> old(self).accepted_scores@[i]
                        <= c.average
            },
    {
        let ghost before = self.accepted_scores@;
        let mut accepted = false;
        let r = match capture {
            None => None,
            Some(sample) => {
                let v = self.offer(sample, score, timestamp, ocr_idle);
                accepted = v != Verdict::Skip;
                match v {
                    Verdict::Skip => {
                        self.skipped_frames = wrapping_increment(self.skipped_frames);
                        None
                    },
                    Verdict::Eligible => {
                        let ghost scores = self.accepted_scores@;
                        let r = self.take_best();
                        proof {
                            let c = r.unwrap();
                            assert(scores[scores.len() - 1] <= c.average);
                            assert forall|i: int| 0 <= i < before.len() implies before[i]
                                <= c.average by {
                                assert(scores[i] == before[i]);
                            }
                        }
                        r
                    },
                    Verdict::Buffer => None,
                }
            },
        };
        self.end_tick();
        TickOutcome { accepted, dispatch: r }
    }
}

/// One tick's inputs: the capture (`None` when it failed), its score (`None` when scoring
/// failed), the instant, and whether no recognition task runs.
pub type TickInput = (Option<FrameSample>, Option<u64>, Instant, bool);

/// How many frames a run of ticks dispatches from state `s`.
pub open spec fn dispatch_count(s: FrameSelector, ticks: Seq<TickInput>) -> nat
    decreases ticks.len(),
{
    if ticks.len() == 0 {
        0
    } else {
        let t = ticks[0];
        let (after, d) = s.next(t.0, t.1, t.2, t.3);
        (if d is Some { 1nat } else { 0nat }) + dispatch_count(after, ticks.drop_first())
    }
}

/// Whether a score was computed and is below the redundancy threshold.
pub open spec fn below_threshold(score: Option<u64>) -> bool {
    match score {
        Some(x) => x < SKIP_THRESHOLD,
        None => false,
    }
}

/// Whether every tick of a run scored below the redundancy threshold.
pub open spec fn all_redundant_scores(ticks: Seq<TickInput>) -> bool {
    forall|i: int| 0 <= i < ticks.len() ==> below_threshold((#[trigger] ticks[i]).1)
}

/// Once a frame has been accepted, ticks whose scores are all below the threshold dispatch
/// nothing, whether or not a recognition task runs meanwhile.
pub proof fn lemma_redundant_run_dispatches_nothing(s: FrameSelector, ticks: Seq<TickInput>)
    requires
        s.has_previous,
        all_redundant_scores(ticks),
    ensures
        dispatch_count(s, ticks) == 0,
    decreases ticks.len(),
{
    if ticks.len() > 0 {
        let t = ticks[0];
        let (after, d) = s.next(t.0, t.1, t.2, t.3);
        assert(below_threshold(ticks[0].1));
        let rest = ticks.drop_first();
        assert forall|i: int| 0 <= i < rest.len() implies below_threshold((#[trigger] rest[i]).1) by {
            assert(rest[i] == ticks[i + 1]);
        }
        lemma_redundant_run_dispatches_nothing(after, rest);
    }
}

/// From the start of a run, ticks whose scores are all below the threshold dispatch at most
/// one frame: the first one captured.
pub proof fn lemma_duplicates_dispatch_at_most_once(ticks: Seq<TickInput>)
    requires
        all_redundant_scores(ticks),
    ensures
        dispatch_count(FrameSelector::initial(), ticks) <= 1,
{
    lemma_cold_run_dispatches_at_most_once(FrameSelector::initial(), ticks);
}

proof fn lemma_cold_run_dispatches_at_most_once(s: FrameSelector, ticks: Seq<TickInput>)
    requires
        all_redundant_scores(ticks),
    ensures
        dispatch_count(s, ticks) <= 1,
    decreases ticks.len(),
{
    if ticks.len() > 0 {
        let t = ticks[0];
        let (after, d) = s.next(t.0, t.1, t.2, t.3);
        let rest = ticks.drop_first();
        assert forall|i: int| 0 <= i < rest.len() implies below_threshold((#[trigger] rest[i]).1) by {
            assert(rest[i] == ticks[i + 1]);
        }
        if after.has_previous {
            lemma_redundant_run_dispatches_nothing(after, rest);
        } else {
            assert(d is None);
            lemma_cold_run_dispatches_at_most_once(after, rest);
        }
    }
}

} // verus!
