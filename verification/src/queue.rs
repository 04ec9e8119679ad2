//! The randomized queue of upcoming pieces.

use std::collections::VecDeque;

use vstd::prelude::*;

use rand::Rng;

use crate::common::CACHED_PIECES;
use crate::piece::PieceType;

verus! {

/// Relies on `rand::Rng::gen_range` on `rand::thread_rng`: it returns a
/// uniformly distributed value of the half-open range `0..bound`, and
/// panics only on an empty range, which the precondition rules out.
/// Nothing more is assumed of the value than its bound.
#[verifier::external_body]
fn random_below(bound: usize) -> (r: usize)
    requires
        bound > 0,
    ensures
        r < bound,
{
    rand::thread_rng().gen_range(0..bound)
}

/// The seven kinds as a vector, in catalog order.
fn all_kinds() -> (v: Vec<PieceType>)
    ensures
        v@.len() == 7,
        v@[0] == PieceType::I,
        v@[1] == PieceType::J,
        v@[2] == PieceType::L,
        v@[3] == PieceType::O,
        v@[4] == PieceType::S,
        v@[5] == PieceType::T,
        v@[6] == PieceType::Z,
        v@.no_duplicates(),
{
    let v: Vec<PieceType> = vec![
        PieceType::I,
        PieceType::J,
        PieceType::L,
        PieceType::O,
        PieceType::S,
        PieceType::T,
        PieceType::Z,
    ];
    proof {
        assert forall|i: int, j: int| 0 <= i < j < v@.len() implies v@[i] != v@[j] by {
            if i == 0 {
            } else if i == 1 {
            } else if i == 2 {
            } else if i == 3 {
            } else if i == 4 {
            } else if i == 5 {
            }
        }
    }
    v
}

/// The ordered sequence of upcoming piece kinds. After each draw it still
/// holds at least `CACHED_PIECES` entries. Only the batch generated at
/// construction is guaranteed duplicate-free; a refill batch avoids
/// duplicates within itself but may repeat a kind still waiting in the
/// queue. That looser refill is part of the game's observable behavior.
#[derive(Debug, Clone, PartialEq, Eq)]
pub struct PiecesQueue {
    queue: VecDeque<PieceType>,
}

impl View for PiecesQueue {
    type V = Seq<PieceType>;

    closed spec fn view(&self) -> Seq<PieceType> {
        self.queue@
    }
}

impl PiecesQueue {
    /// A fresh queue holding one duplicate-free batch of all upcoming
    /// kinds.
    pub fn new() -> (q: Self)
        ensures
            q@.len() == CACHED_PIECES,
            q@.no_duplicates(),
    {
        let mut result = Self { queue: VecDeque::new() };
        result.generate();
        result
    }

    /// Refill the queue with one batch of kinds drawn uniformly at random,
    /// each draw avoiding the kinds already drawn into this batch — and
    /// only those: a kind still waiting in the queue may well come up
    /// again. The batch tops the queue up to `CACHED_PIECES` entries, or
    /// holds a single kind when the queue is already that long.
    fn generate(&mut self)
        requires
            old(self)@.len() <= CACHED_PIECES,
        ensures
            final(self)@.len() == if old(self)@.len() < CACHED_PIECES {
                CACHED_PIECES as int
            } else {
                old(self)@.len() + 1int
            },
            final(self)@.subrange(0, old(self)@.len() as int) == old(self)@,
            forall|i: int, j: int|
                old(self)@.len() <= i < j < final(self)@.len() ==> final(self)@[i] != final(
                    self
                )@[j],
    {
        let target: usize = if self.queue.len() < CACHED_PIECES {
            CACHED_PIECES - self.queue.len()
        } else {
            1
        };

        // Draw without replacement from the kinds not yet in this batch:
        // a uniformly drawn kind that is already in the batch would be
        // rejected and redrawn, which picks uniformly among the rest.
        let mut remaining = all_kinds();
        let mut batch: Vec<PieceType> = Vec::new();
        while batch.len() < target
            invariant
                target <= CACHED_PIECES,
                self == old(self),
                batch@.len() + remaining@.len() == 7,
                batch@.len() <= target,
                batch@.no_duplicates(),
                remaining@.no_duplicates(),
                forall|i: int, j: int|
                    0 <= i < batch@.len() && 0 <= j < remaining@.len() ==> batch@[i] != remaining@[j],
            decreases target - batch@.len(),
        {
            let r = random_below(remaining.len());
            let ghost old_remaining = remaining@;
            let ghost old_batch = batch@;
            let kind = remaining.remove(r);
            batch.push(kind);
            proof {
                assert(remaining@ == old_remaining.remove(r as int));
                assert forall|j: int| 0 <= j < remaining@.len() implies #[trigger] remaining@[j]
                    == if j < r {
                    old_remaining[j]
                } else {
                    old_remaining[j + 1]
                } by {}
                assert(batch@ =~= old_batch.push(kind));
            }
        }

        // Append the batch to the queue.
        let ghost entry = self.queue@;
        let ghost drawn = batch@;
        let mut k: usize = 0;
        while k < batch.len()
            invariant
                0 <= k <= batch@.len(),
                batch@ == drawn,
                self.queue@ == entry + drawn.take(k as int),
            decreases batch@.len() - k,
        {
            self.queue.push_back(batch[k]);
            proof {
                assert(entry + drawn.take(k + 1 as int) =~= (entry + drawn.take(k as int)).push(
                    drawn[k as int],
                ));
            }
            k += 1;
        }
        proof {
            assert(drawn.take(drawn.len() as int) =~= drawn);
            assert(self.queue@.subrange(0, entry.len() as int) =~= entry);
        }
    }

    /// Whether the queue holds nothing.
    pub fn is_empty(&self) -> (r: bool)
        ensures
            r == (self@.len() == 0),
    {
        self.queue.len() == 0
    }

    /// Draw the next kind, refilling first so that the queue never runs
    /// dry: after the draw at least `CACHED_PIECES` entries remain
    /// whenever at least that many were present before.
    pub fn next(&mut self) -> (t: PieceType)
        ensures
            old(self)@.len() > 0 ==> t == old(self)@[0],
            forall|i: int| 1 <= i < old(self)@.len() ==> final(self)@[i - 1] == old(self)@[i],
            final(self)@.len() == if old(self)@.len() < CACHED_PIECES {
                CACHED_PIECES - 1
            } else if old(self)@.len() == CACHED_PIECES {
                CACHED_PIECES as int
            } else {
                old(self)@.len() - 1
            },
    {
        if self.queue.len() <= CACHED_PIECES {
            self.generate();
        }
        let t = self.queue.pop_front();
        match t {
            Some(kind) => kind,
            None => {
                // Unreachable: the refill above leaves the queue nonempty.
                proof {
                    assert(false);
                }
                PieceType::I
            },
        }
    }

    /// The kind the next draw will return, without consuming it.
    pub fn peek(&self) -> (t: Option<PieceType>)
        ensures
            match t {
                Some(kind) => self@.len() > 0 && kind == self@[0],
                None => self@.len() == 0,
            },
    {
        if self.queue.len() == 0 {
            None
        } else {
            Some(self.queue[0])
        }
    }
}

} // verus!
