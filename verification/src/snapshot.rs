//! A self-compressing tape of console snapshots: full state at growing
//! intervals, run-length-encoded button masks in between, and re-simulation
//! to step back through the compressed stretches. Memory use is O(sqrt(T))
//! snapshots plus O(T) packed button runs for a history of T frames, and
//! both recording and rewinding cost amortized O(1) frame evaluations.
//!
//! The tape has three zones along the time axis, oldest first: finalized
//! checkpoints (a base state plus packed button runs), the checkpoint being
//! packed (its not-yet-packed frames still expanded), and the snapshot
//! cache of the newest frames.

use vstd::prelude::*;
use crate::console::ConsoleState;
use crate::controller::ButtonState;
use crate::ppu::Screen;

verus! {

/// A run of identical button masks over consecutive frames.
#[derive(Clone, Copy)]
pub struct ButtonSequence {
    pub buttons: ButtonState,
    /// How many frames the run covers; always at least 1.
    pub count: u8,
}

/// A finalized stretch of history: the state that began it and the packed
/// button runs of the frames after it.
pub struct Checkpoint {
    pub base_state: ConsoleState,
    /// Stored newest-run-last is the packing order; the run covering the
    /// frames right after the base sits at the end.
    pub buttons_rle: Vec<ButtonSequence>,
}

/// How many frames a run list covers.
pub open spec fn rle_frames(s: Seq<ButtonSequence>) -> int
    decreases s.len(),
{
    if s.len() == 0 {
        0
    } else {
        rle_frames(s.drop_last()) + s.last().count
    }
}

/// Every run covers at least one frame.
pub open spec fn runs_positive(s: Seq<ButtonSequence>) -> bool {
    forall|i: int| 0 <= i < s.len() ==> #[trigger] s[i].count >= 1
}

/// How many frames a list of checkpoints covers: each base state is one
/// frame, its runs cover the rest.
pub open spec fn checkpoints_frames(s: Seq<Checkpoint>) -> int
    decreases s.len(),
{
    if s.len() == 0 {
        0
    } else {
        checkpoints_frames(s.drop_last()) + 1 + rle_frames(s.last().buttons_rle@)
    }
}

/// Every state held in a (state, buttons) zone is sound.
pub open spec fn entries_wf(s: Seq<(ConsoleState, ButtonState)>) -> bool {
    forall|i: int| 0 <= i < s.len() ==> (#[trigger] s[i]).0.wf()
}

/// The run list is non-trivial and covers any frames at all.
pub proof fn lemma_rle_frames_nonneg(s: Seq<ButtonSequence>)
    ensures
        rle_frames(s) >= 0,
    decreases s.len(),
{
    if s.len() > 0 {
        lemma_rle_frames_nonneg(s.drop_last());
    }
}

/// A checkpoint list covers at least one frame per checkpoint.
pub proof fn lemma_checkpoints_frames_bounds(s: Seq<Checkpoint>)
    ensures
        checkpoints_frames(s) >= s.len(),
    decreases s.len(),
{
    if s.len() > 0 {
        lemma_checkpoints_frames_bounds(s.drop_last());
        lemma_rle_frames_nonneg(s.last().buttons_rle@);
    }
}

/// The tape itself.
pub struct RewindTape {
    /// Finalized history, oldest checkpoint first.
    pub stored_checkpoints: Vec<Checkpoint>,
    /// The checkpoint being packed: its frames still expanded, oldest first.
    pub decoded_snapshots: Vec<(ConsoleState, ButtonState)>,
    /// The runs already packed out of the expanded frames; the run covering
    /// the oldest packed frame sits at the end.
    pub buttons_rle: Vec<ButtonSequence>,
    /// The newest frames, fully expanded, oldest first.
    pub snapshot_cache: Vec<(ConsoleState, ButtonState)>,
    /// How many frames the cache may hold before it is packed; grows by one
    /// per packed checkpoint, which spaces checkpoints O(sqrt(T)) apart.
    pub cache_size: usize,
    /// The cache capacity the tape was born with.
    pub initial_step: usize,
    /// Total frames of history on the tape.
    pub frames: usize,
}

impl RewindTape {
    /// The tape's bookkeeping invariant. Chief among its clauses: the frame
    /// counter equals the history the three zones can represent, checkpoint
    /// n covers exactly `initial_step + n` frames, and the cache is empty
    /// only when the whole tape is.
    pub open spec fn wf(&self) -> bool {
        &&& 1 <= self.initial_step < usize::MAX / 2
        &&& self.frames == checkpoints_frames(self.stored_checkpoints@)
            + self.decoded_snapshots@.len() + rle_frames(self.buttons_rle@)
            + self.snapshot_cache@.len()
        &&& self.cache_size == self.initial_step + self.stored_checkpoints@.len() + (
        if self.decoded_snapshots@.len() > 0 {
            1int
        } else {
            0int
        })
        &&& self.decoded_snapshots@.len() == 0 ==> self.buttons_rle@.len() == 0
        &&& self.decoded_snapshots@.len() > 0 ==> self.decoded_snapshots@.len() + rle_frames(
            self.buttons_rle@,
        ) == self.initial_step + self.stored_checkpoints@.len()
        &&& self.decoded_snapshots@.len() > 0 ==> self.decoded_snapshots@.len()
            + self.snapshot_cache@.len() <= self.cache_size
        &&& self.snapshot_cache@.len() <= self.cache_size
        &&& self.snapshot_cache@.len() == 0 ==> self.frames == 0
        &&& runs_positive(self.buttons_rle@)
        &&& entries_wf(self.decoded_snapshots@)
        &&& entries_wf(self.snapshot_cache@)
        &&& forall|i: int| 0 <= i < self.stored_checkpoints@.len() ==> {
            let c = #[trigger] self.stored_checkpoints@[i];
            &&& c.base_state.wf()
            &&& runs_positive(c.buttons_rle@)
            &&& 1 + rle_frames(c.buttons_rle@) == self.initial_step + i
        }
    }

    /// An empty tape whose cache holds `initial_step` frames. The bound on
    /// `initial_step` is a machine limit: together with `push_back`'s frame
    /// bound it keeps the growing cache step within `usize`.
    pub fn new(initial_step: usize) -> (r: RewindTape)
        requires
            1 <= initial_step < usize::MAX / 2,
        ensures
            r.wf(),
            r.frames == 0,
            r.initial_step == initial_step,
    {
        RewindTape {
            stored_checkpoints: Vec::new(),
            decoded_snapshots: Vec::new(),
            buttons_rle: Vec::new(),
            snapshot_cache: Vec::with_capacity(initial_step),
            cache_size: initial_step,
            initial_step,
            frames: 0,
        }
    }

    /// Record one frame: pack one expanded frame of the previous checkpoint
    /// into its run list (finalizing the checkpoint when the last one
    /// leaves), then append the new frame to the cache — and when the cache
    /// is full, roll it over into a fresh packing area and grow the cache
    /// by one.
    pub fn push_back(&mut self, state: ConsoleState)
        requires
            old(self).wf(),
            state.wf(),
            old(self).frames < usize::MAX / 2,
        ensures
            final(self).wf(),
            final(self).frames == old(self).frames + 1,
            final(self).initial_step == old(self).initial_step,
            final(self).snapshot_cache@.len() >= 1,
            final(self).snapshot_cache@.last() == (state, state.bus.controller.button_state),
            old(self).snapshot_cache@.len() < old(self).cache_size ==> {
                &&& final(self).snapshot_cache@ == old(self).snapshot_cache@.push(
                    (state, state.bus.controller.button_state),
                )
                &&& final(self).cache_size == old(self).cache_size
                &&& final(self).stored_checkpoints@.len() >= old(self).stored_checkpoints@.len()
            },
            old(self).snapshot_cache@.len() == old(self).cache_size ==> {
                &&& final(self).cache_size == old(self).cache_size + 1
                &&& final(self).decoded_snapshots@ == old(self).snapshot_cache@
                &&& final(self).snapshot_cache@ == seq![
                    (state, state.bus.controller.button_state),
                ]
                &&& final(self).stored_checkpoints == old(self).stored_checkpoints
            },
    {
        proof {
            lemma_rle_frames_nonneg(self.buttons_rle@);
            lemma_checkpoints_frames_bounds(self.stored_checkpoints@);
        }
        let buttons = state.bus.controller.button_state;

        // pack one frame of the previous checkpoint, newest first; the last
        // expanded frame left is the checkpoint's base
        if let Some((base_state, next_buttons)) = self.decoded_snapshots.pop() {
            if self.decoded_snapshots.len() == 0 {
                let stored_rle = self.buttons_rle.split_off(0);
                proof {
                    assert(self.buttons_rle@ =~= Seq::<ButtonSequence>::empty());
                }
                self.stored_checkpoints.push(Checkpoint { base_state, buttons_rle: stored_rle });
                proof {
                    assert(self.stored_checkpoints@.drop_last() =~= old(
                        self,
                    ).stored_checkpoints@);
                    assert(stored_rle@ == old(self).buttons_rle@);
                }
            } else {
                let n = self.buttons_rle.len();
                if n > 0 && self.buttons_rle[n - 1].buttons.0 == next_buttons.0
                    && self.buttons_rle[n - 1].count < 255 {
                    let run = self.buttons_rle[n - 1];
                    self.buttons_rle[n - 1] = ButtonSequence {
                        buttons: run.buttons,
                        count: run.count + 1,
                    };
                    proof {
                        assert(self.buttons_rle@.drop_last() =~= old(
                            self,
                        ).buttons_rle@.drop_last());
                    }
                } else {
                    self.buttons_rle.push(ButtonSequence { buttons: next_buttons, count: 1 });
                    proof {
                        assert(self.buttons_rle@.drop_last() =~= old(self).buttons_rle@);
                    }
                }
            }
        }

        // add the new frame to the cache, rolling the full cache over into
        // the packing area first
        if self.snapshot_cache.len() < self.cache_size {
            self.snapshot_cache.push((state, buttons));
        } else {
            self.decoded_snapshots = self.snapshot_cache.split_off(0);
            self.buttons_rle.truncate(0);
            self.cache_size = self.cache_size + 1;
            self.snapshot_cache.push((state, buttons));
        }

        self.frames = self.frames + 1;
    }

    /// Re-simulate one packed frame back into the expanded area: clone the
    /// newest expanded state, latch the packed buttons, run it one frame
    /// forward, and consume one frame of the newest run.
    fn expand_one(&mut self, screen: &mut Screen)
        requires
            old(self).decoded_snapshots@.len() > 0,
            old(self).buttons_rle@.len() > 0,
            runs_positive(old(self).buttons_rle@),
            entries_wf(old(self).decoded_snapshots@),
        ensures
            final(self).decoded_snapshots@.len() == old(self).decoded_snapshots@.len() + 1,
            rle_frames(final(self).buttons_rle@) == rle_frames(old(self).buttons_rle@) - 1,
            runs_positive(final(self).buttons_rle@),
            entries_wf(final(self).decoded_snapshots@),
            final(self).stored_checkpoints == old(self).stored_checkpoints,
            final(self).snapshot_cache == old(self).snapshot_cache,
            final(self).cache_size == old(self).cache_size,
            final(self).initial_step == old(self).initial_step,
            final(self).frames == old(self).frames,
    {
        let last = self.decoded_snapshots.len() - 1;
        let prev_state = self.decoded_snapshots[last].0.clone();
        let ridx = self.buttons_rle.len() - 1;
        let run = self.buttons_rle[ridx];

        let mut next_state = prev_state;
        next_state.bus.controller.update_buttons(run.buttons);
        next_state.wait_vblank(screen);
        self.decoded_snapshots.push((next_state, run.buttons));

        if run.count == 1 {
            self.buttons_rle.pop();
            proof {
                assert(self.buttons_rle@ =~= old(self).buttons_rle@.drop_last());
            }
        } else {
            self.buttons_rle[ridx] = ButtonSequence { buttons: run.buttons, count: run.count - 1 };
            proof {
                assert(self.buttons_rle@.drop_last() =~= old(self).buttons_rle@.drop_last());
            }
        }
    }

    /// Pop the newest frame off the tape. When that empties the cache, the
    /// previous checkpoint is expanded back out — re-simulating its packed
    /// stretch — and becomes the cache, shrinking the cache step by one;
    /// when nothing is being packed, the newest finalized checkpoint is
    /// reopened the same way.
    ///
    /// The popped value is exactly the newest cache entry, and `push_back`
    /// guarantees the recorded frame becomes that entry: frames recorded
    /// and popped while cache-resident round-trip in exact reverse order,
    /// and frames popped out of a packed stretch are re-simulated from the
    /// recorded base state and button runs.
    pub fn pop_back(&mut self, screen: &mut Screen) -> (r: Option<ConsoleState>)
        requires
            old(self).wf(),
        ensures
            final(self).wf(),
            r is Some <==> old(self).frames > 0,
            r is Some ==> r->Some_0 == old(self).snapshot_cache@.last().0 && final(self).frames
                == old(self).frames - 1 && r->Some_0.wf(),
            old(self).snapshot_cache@.len() > 1 ==> final(self).snapshot_cache@
                == old(self).snapshot_cache@.drop_last() && final(self).cache_size
                == old(self).cache_size && final(self).decoded_snapshots
                == old(self).decoded_snapshots && final(self).buttons_rle == old(self).buttons_rle
                && final(self).stored_checkpoints == old(self).stored_checkpoints,
            final(self).initial_step == old(self).initial_step,
            r is None ==> *final(self) == *old(self) && *final(screen) == *old(screen),
    {
        proof {
            lemma_rle_frames_nonneg(self.buttons_rle@);
            lemma_checkpoints_frames_bounds(self.stored_checkpoints@);
        }
        if self.snapshot_cache.len() == 0 {
            return None;
        }
        let popped = match self.snapshot_cache.pop() {
            None => {
                return None;
            },
            Some((latest_snapshot, _)) => latest_snapshot,
        };

        if self.snapshot_cache.len() == 0 {
            if self.decoded_snapshots.len() > 0 {
                // expand what was already packed, then the whole area
                // becomes the cache again
                while self.buttons_rle.len() > 0
                    invariant
                        self.decoded_snapshots@.len() > 0,
                        runs_positive(self.buttons_rle@),
                        entries_wf(self.decoded_snapshots@),
                        self.decoded_snapshots@.len() + rle_frames(self.buttons_rle@) == old(
                            self,
                        ).initial_step + old(self).stored_checkpoints@.len(),
                        self.stored_checkpoints == old(self).stored_checkpoints,
                        self.snapshot_cache@.len() == 0,
                        self.cache_size == old(self).cache_size,
                        self.initial_step == old(self).initial_step,
                        self.frames == old(self).frames,
                    decreases rle_frames(self.buttons_rle@),
                {
                    proof {
                        lemma_rle_frames_nonneg(self.buttons_rle@.drop_last());
                    }
                    self.expand_one(screen);
                }
                self.snapshot_cache = self.decoded_snapshots.split_off(0);
                proof {
                    assert(self.decoded_snapshots@ =~= Seq::<(ConsoleState, ButtonState)>::empty());
                    assert(self.buttons_rle@ =~= Seq::<ButtonSequence>::empty());
                }
                self.cache_size = self.cache_size - 1;
            } else if self.stored_checkpoints.len() > 0 {
                // reopen the newest finalized checkpoint
                let checkpoint = match self.stored_checkpoints.pop() {
                    Some(c) => c,
                    None => {
                        return None;
                    },
                };
                let buttons = checkpoint.base_state.bus.controller.button_state;
                self.decoded_snapshots.push((checkpoint.base_state, buttons));
                self.buttons_rle = checkpoint.buttons_rle;
                while self.buttons_rle.len() > 0
                    invariant
                        self.decoded_snapshots@.len() > 0,
                        runs_positive(self.buttons_rle@),
                        entries_wf(self.decoded_snapshots@),
                        self.decoded_snapshots@.len() + rle_frames(self.buttons_rle@) == old(
                            self,
                        ).initial_step + old(self).stored_checkpoints@.len() - 1,
                        self.stored_checkpoints@ == old(self).stored_checkpoints@.drop_last(),
                        self.snapshot_cache@.len() == 0,
                        self.cache_size == old(self).cache_size,
                        self.initial_step == old(self).initial_step,
                        self.frames == old(self).frames,
                    decreases rle_frames(self.buttons_rle@),
                {
                    proof {
                        lemma_rle_frames_nonneg(self.buttons_rle@.drop_last());
                    }
                    self.expand_one(screen);
                }
                self.snapshot_cache = self.decoded_snapshots.split_off(0);
                proof {
                    assert(self.decoded_snapshots@ =~= Seq::<(ConsoleState, ButtonState)>::empty());
                    assert(self.buttons_rle@ =~= Seq::<ButtonSequence>::empty());
                }
                self.cache_size = self.cache_size - 1;
            }
        }

        self.frames = self.frames - 1;
        Some(popped)
    }
}

} // verus!
