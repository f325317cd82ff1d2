//! The arena's allocation and commit state machine.
//!
//! An arena owns one contiguous reserved range of address space and serves
//! aligned allocations by advancing a cursor, asking the platform to commit
//! further pages on demand.  The platform's reserve and commit calls are made
//! by the embedding program; this module decides what to ask for, checks every
//! answer, and keeps the bookkeeping invariants:
//! `pos <= commit_pos <= reserve_size`, with `commit_pos` and `reserve_size`
//! whole multiples of the page size.

use crate::align::{
    align_up, lemma_align_up, lemma_align_up_monotone, lemma_align_up_pad,
    lemma_multiple_of_multiple, spec_align_pad, spec_align_up,
};
use vstd::arithmetic::div_mod::{lemma_mod_self_0, lemma_small_mod};
use vstd::prelude::*;

verus! {

/// Alignment, in bytes, of every address a push hands out.
pub const PUSH_ALIGNMENT: usize = 8;

/// A reservation-and-commit bump allocator over one range of address space.
pub struct Arena {
    /// Address of the start of the reserved range; fixed at construction.
    pub base: usize,
    /// Total reserved bytes; a multiple of the page size.
    pub reserve_size: usize,
    /// Granularity, in bytes, in which further memory is committed; a
    /// multiple of the page size.
    pub commit_size: usize,
    /// The platform's page size.
    pub page_size: usize,
    /// The logical cursor: bytes from `base` currently in use.
    pub pos: usize,
    /// Bytes from `base` that are physically committed.
    pub commit_pos: usize,
}

/// What the platform must do before a push can advance the cursor.
#[derive(Debug)]
pub enum PushPlan {
    /// The push cannot succeed: it would run past the reservation.
    OutOfReserve,
    /// The new region already lies in committed memory; no platform call
    /// is needed.
    Committed,
    /// The platform must commit `len` further bytes starting `start` bytes
    /// past the base before the push can succeed.
    NeedsCommit { start: usize, len: usize },
}

impl Arena {
    /// The bookkeeping invariants every operation preserves.
    pub open spec fn wf(self) -> bool {
        &&& 0 < self.page_size
        &&& 0 < self.commit_size
        &&& 0 < self.reserve_size
        &&& self.base != 0
        &&& self.base % PUSH_ALIGNMENT == 0
        &&& self.base + self.reserve_size <= usize::MAX
        &&& self.reserve_size % self.page_size == 0
        &&& self.commit_size % self.page_size == 0
        &&& self.commit_pos % self.page_size == 0
        &&& self.pos <= self.commit_pos
        &&& self.commit_pos <= self.reserve_size
    }

    /// The cursor rounded up to the allocation alignment: the offset at
    /// which the next push places its region.
    pub open spec fn aligned_cursor(self) -> int {
        spec_align_up(self.pos as int, PUSH_ALIGNMENT as int)
    }

    /// The address the next successful push returns.
    pub open spec fn next_addr(self) -> int {
        self.base + self.aligned_cursor()
    }

    /// Offset one past the end of the region a push of `size` bytes
    /// would occupy.
    pub open spec fn push_end(self, size: usize) -> int {
        self.aligned_cursor() + size
    }

    /// Whether a push of `size` bytes fits inside the reservation.
    pub open spec fn push_fits(self, size: usize) -> bool {
        self.push_end(size) <= self.reserve_size
    }

    /// Whether a push of `size` bytes needs more committed memory first.
    pub open spec fn push_needs_commit(self, size: usize) -> bool {
        self.push_end(size) > self.commit_pos
    }

    /// An end offset rounded up to the commit granularity and clamped to
    /// the reservation: the committed boundary after growing to cover it.
    pub open spec fn commit_ceiling(self, end: int) -> int {
        let rounded = spec_align_up(end, self.commit_size as int);
        if rounded > self.reserve_size {
            self.reserve_size as int
        } else {
            rounded
        }
    }

    /// The committed boundary after a push of `size` bytes that needs
    /// more memory.
    pub open spec fn commit_target(self, size: usize) -> int {
        self.commit_ceiling(self.push_end(size))
    }

    /// Whether a push of `size` bytes succeeds when the platform's answer
    /// to the requested commit — if one was requested — is `commit_granted`.
    pub open spec fn push_ok(self, size: usize, commit_granted: bool) -> bool {
        self.push_fits(size) && (commit_granted || !self.push_needs_commit(size))
    }

    /// The arena after a push of `size` bytes with platform answer
    /// `commit_granted`: on success the cursor advances past the new region
    /// and the committed boundary covers it; on failure nothing changes.
    pub open spec fn push_state(self, size: usize, commit_granted: bool) -> Arena {
        if !self.push_ok(size, commit_granted) {
            self
        } else {
            (Arena {
                pos: self.push_end(size) as usize,
                commit_pos: if self.push_needs_commit(size) {
                    self.commit_target(size) as usize
                } else {
                    self.commit_pos
                },
                ..self
            })
        }
    }

    /// The arena after rewinding the cursor to `target`.
    pub open spec fn popped_to(self, target: usize) -> Arena {
        (Arena { pos: target, ..self })
    }

    /// Rounds the requested sizes up to whole pages and says what the
    /// platform must reserve and commit before an arena can exist.
    /// Returns `None` when either size is zero, or when rounding it up
    /// would not fit in a machine word: no reservation can serve those.
    pub fn prepare(reserve_size: usize, commit_size: usize, page_size: usize) -> (r: Option<
        ReserveRequest,
    >)
        requires
            0 < page_size,
        ensures
            match r {
                None => reserve_size == 0 || commit_size == 0 || reserve_size + page_size - 1
                    > usize::MAX || commit_size + page_size - 1 > usize::MAX,
                Some(req) => {
                    &&& reserve_size != 0 && commit_size != 0
                    &&& reserve_size + page_size - 1 <= usize::MAX
                    &&& commit_size + page_size - 1 <= usize::MAX
                    &&& req.wf()
                    &&& req.page_size == page_size
                    &&& req.reserve_size == spec_align_up(reserve_size as int, page_size as int)
                    &&& req.commit_size == spec_align_up(commit_size as int, page_size as int)
                },
            },
    {
        if reserve_size == 0 || commit_size == 0 {
            return None;
        }
        if reserve_size - 1 > usize::MAX - page_size || commit_size - 1 > usize::MAX - page_size {
            return None;
        }
        let actual_reserve: usize = align_up(reserve_size, page_size);
        let actual_commit: usize = align_up(commit_size, page_size);
        let initial_commit: usize = if actual_commit > actual_reserve {
            actual_reserve
        } else {
            actual_commit
        };
        Some(
            ReserveRequest {
                reserve_size: actual_reserve,
                commit_size: actual_commit,
                initial_commit,
                page_size,
            },
        )
    }

    /// Builds the arena over a reservation the platform granted: `base` is
    /// the address of `request.reserve_size` reserved bytes whose first
    /// `request.initial_commit` bytes the platform has committed.
    pub fn new(request: ReserveRequest, base: usize) -> (arena: Arena)
        requires
            request.wf(),
            base != 0,
            base % PUSH_ALIGNMENT == 0,
            base + request.reserve_size <= usize::MAX,
        ensures
            arena.wf(),
            arena == (Arena {
                base,
                reserve_size: request.reserve_size,
                commit_size: request.commit_size,
                page_size: request.page_size,
                pos: 0,
                commit_pos: request.initial_commit,
            }),
    {
        Arena {
            base,
            reserve_size: request.reserve_size,
            commit_size: request.commit_size,
            page_size: request.page_size,
            pos: 0,
            commit_pos: request.initial_commit,
        }
    }

    /// The committed boundary needed to cover offsets below `end`: `end`
    /// rounded up to the commit granularity, clamped to the reservation.
    /// The padding is computed and compared before any addition, so no
    /// intermediate value can overflow.
    fn commit_boundary(&self, end: usize) -> (r: usize)
        requires
            self.wf(),
            0 < end <= self.reserve_size,
        ensures
            r == self.commit_ceiling(end as int),
            end <= r <= self.reserve_size,
            r % self.page_size == 0,
    {
        let rem: usize = end % self.commit_size;
        let pad: usize = if rem == 0 {
            0
        } else {
            self.commit_size - rem
        };
        proof {
            lemma_align_up(end as int, self.commit_size as int);
            lemma_align_up_pad(end as int, self.commit_size as int);
            lemma_mod_self_0(self.commit_size as int);
            if rem != 0 {
                lemma_small_mod((self.commit_size - rem) as nat, self.commit_size as nat);
            }
            assert(pad == spec_align_pad(end as int, self.commit_size as int));
            lemma_multiple_of_multiple(
                spec_align_up(end as int, self.commit_size as int),
                self.commit_size as int,
                self.page_size as int,
            );
        }
        let remaining: usize = self.reserve_size - end;
        if pad > remaining {
            self.reserve_size
        } else {
            end + pad
        }
    }

    /// Says what the platform must do before `size` more bytes can be
    /// pushed: nothing, commit a further range, or nothing can help because
    /// the reservation is exhausted.
    pub fn plan_push(&self, size: usize) -> (plan: PushPlan)
        requires
            self.wf(),
        ensures
            match plan {
                PushPlan::OutOfReserve => !self.push_fits(size),
                PushPlan::Committed => self.push_fits(size) && !self.push_needs_commit(size),
                PushPlan::NeedsCommit { start, len } => {
                    &&& self.push_fits(size)
                    &&& self.push_needs_commit(size)
                    &&& start == self.commit_pos
                    &&& 0 < len
                    &&& start + len == self.commit_target(size)
                    &&& start % self.page_size == 0
                    &&& (start + len) % (self.page_size as int) == 0
                },
            },
    {
        let position_aligned: usize = align_up(self.pos, PUSH_ALIGNMENT);
        if position_aligned > self.reserve_size || size > self.reserve_size - position_aligned {
            return PushPlan::OutOfReserve;
        }
        let new_position: usize = position_aligned + size;
        if new_position <= self.commit_pos {
            return PushPlan::Committed;
        }
        let new_commit_pos: usize = self.commit_boundary(new_position);
        PushPlan::NeedsCommit { start: self.commit_pos, len: new_commit_pos - self.commit_pos }
    }

    /// Advances the cursor over an aligned region of `size` bytes and
    /// returns the region's address.  `commit_granted` is the platform's
    /// answer to the commit that `plan_push` requested; it is ignored when
    /// none was requested.  On failure — the reservation is exhausted, or
    /// the platform refused the commit — nothing changes.
    pub fn push(&mut self, size: usize, commit_granted: bool) -> (r: Option<usize>)
        requires
            old(self).wf(),
        ensures
            final(self).wf(),
            *final(self) == old(self).push_state(size, commit_granted),
            r is Some <==> old(self).push_ok(size, commit_granted),
            (r matches Some(addr) ==> {
                &&& addr == old(self).next_addr()
                &&& addr % PUSH_ALIGNMENT == 0
                &&& old(self).push_end(size) <= final(self).commit_pos
            }),
    {
        let position_aligned: usize = align_up(self.pos, PUSH_ALIGNMENT);
        if position_aligned > self.reserve_size || size > self.reserve_size - position_aligned {
            return None;
        }
        let new_position: usize = position_aligned + size;
        if new_position > self.commit_pos {
            if !commit_granted {
                return None;
            }
            let new_commit_pos: usize = self.commit_boundary(new_position);
            self.commit_pos = new_commit_pos;
        }
        self.pos = new_position;
        Some(self.base + position_aligned)
    }

    /// Returns the current cursor, to be saved as a checkpoint before
    /// allocations a caller may want to discard.
    pub fn pos(&self) -> (p: usize)
        ensures
            p == self.pos,
    {
        self.pos
    }

    /// Rewinds the cursor to `target_pos`, instantly discarding everything
    /// pushed since that value was observed.  Rejects a rollback target of
    /// zero and a target past the cursor — both signal corrupted caller
    /// bookkeeping — and then changes nothing.  Committed memory stays
    /// committed either way.
    pub fn pop_to(&mut self, target_pos: usize) -> (ok: bool)
        requires
            old(self).wf(),
        ensures
            final(self).wf(),
            ok <==> 0 < target_pos <= old(self).pos,
            ok ==> *final(self) == old(self).popped_to(target_pos),
            !ok ==> *final(self) == *old(self),
    {
        if target_pos == 0 || target_pos > self.pos {
            return false;
        }
        self.pos = target_pos;
        true
    }
}

impl Arena {
    /// The arena after a sequence of pushes, each given with its size and
    /// the platform's answer to the commit it requested.
    pub open spec fn push_seq_state(self, requests: Seq<(usize, bool)>) -> Arena
        decreases requests.len(),
    {
        if requests.len() == 0 {
            self
        } else {
            self.push_state(requests[0].0, requests[0].1).push_seq_state(requests.drop_first())
        }
    }
}

/// One operation of the arena's lifetime, as a value: a push with the
/// platform's answer to its commit request, or a rollback to a checkpoint.
pub enum ArenaOp {
    Push { size: usize, commit_granted: bool },
    PopTo { target: usize },
}

impl Arena {
    /// The arena after one operation.  A rollback to an invalid target is
    /// rejected and changes nothing, as `pop_to` does.
    pub open spec fn op_state(self, op: ArenaOp) -> Arena {
        match op {
            ArenaOp::Push { size, commit_granted } => self.push_state(size, commit_granted),
            ArenaOp::PopTo { target } => if 0 < target <= self.pos {
                self.popped_to(target)
            } else {
                self
            },
        }
    }

    /// The arena after a whole sequence of pushes and rollbacks.
    pub open spec fn ops_state(self, ops: Seq<ArenaOp>) -> Arena
        decreases ops.len(),
    {
        if ops.len() == 0 {
            self
        } else {
            self.op_state(ops[0]).ops_state(ops.drop_first())
        }
    }
}

/// Over any sequence of pushes and rollbacks the arena stays well formed,
/// the base and the sizes never change, and the committed boundary never
/// moves backwards: committed pages are never uncommitted.
pub proof fn lemma_ops_preserve_invariants(a: Arena, ops: Seq<ArenaOp>)
    requires
        a.wf(),
    ensures
        ({
            let b = a.ops_state(ops);
            &&& b.wf()
            &&& b.commit_pos >= a.commit_pos
            &&& b.base == a.base
            &&& b.reserve_size == a.reserve_size
            &&& b.commit_size == a.commit_size
            &&& b.page_size == a.page_size
        }),
    decreases ops.len(),
{
    if ops.len() != 0 {
        match ops[0] {
            ArenaOp::Push { size, commit_granted } => {
                lemma_push_state(a, size, commit_granted);
            },
            ArenaOp::PopTo { .. } => {},
        }
        lemma_ops_preserve_invariants(a.op_state(ops[0]), ops.drop_first());
    }
}

/// One push, whatever the platform answered, leaves the arena well formed,
/// never moves the cursor backwards, never uncommits memory, and never
/// changes the base or the sizes.
pub proof fn lemma_push_state(a: Arena, size: usize, commit_granted: bool)
    requires
        a.wf(),
    ensures
        ({
            let b = a.push_state(size, commit_granted);
            &&& b.wf()
            &&& b.pos >= a.pos
            &&& b.commit_pos >= a.commit_pos
            &&& b.base == a.base
            &&& b.reserve_size == a.reserve_size
            &&& b.commit_size == a.commit_size
            &&& b.page_size == a.page_size
        }),
{
    if a.push_ok(size, commit_granted) {
        lemma_align_up(a.pos as int, PUSH_ALIGNMENT as int);
        if a.push_needs_commit(size) {
            lemma_align_up(a.push_end(size), a.commit_size as int);
            let rounded = spec_align_up(a.push_end(size), a.commit_size as int);
            if rounded <= a.reserve_size {
                lemma_multiple_of_multiple(rounded, a.commit_size as int, a.page_size as int);
            }
        }
    }
}

/// Any sequence of pushes leaves the arena well formed, never moves the
/// cursor backwards, never uncommits memory, and never changes the base or
/// the sizes.
pub proof fn lemma_push_seq_state(a: Arena, requests: Seq<(usize, bool)>)
    requires
        a.wf(),
    ensures
        ({
            let b = a.push_seq_state(requests);
            &&& b.wf()
            &&& b.pos >= a.pos
            &&& b.commit_pos >= a.commit_pos
            &&& b.base == a.base
            &&& b.reserve_size == a.reserve_size
            &&& b.commit_size == a.commit_size
            &&& b.page_size == a.page_size
        }),
    decreases requests.len(),
{
    if requests.len() != 0 {
        lemma_push_state(a, requests[0].0, requests[0].1);
        lemma_push_seq_state(a.push_state(requests[0].0, requests[0].1), requests.drop_first());
    }
}

/// Successive live allocations never overlap: a second successful push
/// begins at or past the end of the region the first one handed out.
pub proof fn lemma_pushes_disjoint(a: Arena, s1: usize, g1: bool, s2: usize, g2: bool)
    requires
        a.wf(),
        a.push_ok(s1, g1),
        a.push_state(s1, g1).push_ok(s2, g2),
    ensures
        a.next_addr() + s1 <= a.push_state(s1, g1).next_addr(),
{
    let b = a.push_state(s1, g1);
    lemma_push_state(a, s1, g1);
    lemma_align_up(a.pos as int, PUSH_ALIGNMENT as int);
    lemma_align_up(b.pos as int, PUSH_ALIGNMENT as int);
}

/// A region handed out by a successful push stays clear of everything the
/// arena hands out later: however many pushes follow, the next address is
/// always at or past the end of that region — until a rollback rewinds the
/// cursor past its start.
pub proof fn lemma_region_stays_clear(a: Arena, s1: usize, g1: bool, requests: Seq<(usize, bool)>)
    requires
        a.wf(),
        a.push_ok(s1, g1),
    ensures
        a.next_addr() + s1 <= a.push_state(s1, g1).push_seq_state(requests).next_addr(),
{
    let b = a.push_state(s1, g1);
    let c = b.push_seq_state(requests);
    lemma_push_state(a, s1, g1);
    lemma_push_seq_state(b, requests);
    lemma_align_up(a.pos as int, PUSH_ALIGNMENT as int);
    lemma_align_up(b.pos as int, PUSH_ALIGNMENT as int);
    lemma_align_up_monotone(b.pos as int, c.pos as int, PUSH_ALIGNMENT as int);
}

/// The address a push hands out depends only on the base and the cursor,
/// never on what has been committed.
pub proof fn lemma_push_addr_from_cursor(a: Arena, b: Arena)
    requires
        a.base == b.base,
        a.pos == b.pos,
    ensures
        a.next_addr() == b.next_addr(),
{
}

/// Rolling back to a checkpoint taken before any sequence of pushes is a
/// valid rollback, restores the cursor exactly, and makes the next push
/// hand out the same address a push made at the checkpoint would have:
/// memory reuse after a rollback is deterministic.
pub proof fn lemma_rollback_reuse(a: Arena, requests: Seq<(usize, bool)>)
    requires
        a.wf(),
        0 < a.pos,
    ensures
        0 < a.pos <= a.push_seq_state(requests).pos,
        a.push_seq_state(requests).popped_to(a.pos).pos == a.pos,
        a.push_seq_state(requests).popped_to(a.pos).next_addr() == a.next_addr(),
{
    lemma_push_seq_state(a, requests);
}

/// What the constructor asks of the platform: sizes rounded up to whole
/// pages, and the initial commit that must succeed before an arena exists.
#[derive(Clone, Copy, Debug)]
pub struct ReserveRequest {
    /// Bytes of address space to reserve; a multiple of the page size.
    pub reserve_size: usize,
    /// The commit granularity the arena will use; a multiple of the page
    /// size.
    pub commit_size: usize,
    /// Bytes to commit at the base before the arena is built: one commit
    /// granule, clamped to the reservation.
    pub initial_commit: usize,
    /// The platform's page size.
    pub page_size: usize,
}

impl ReserveRequest {
    /// Soundness of a request: positive page-rounded sizes, and an initial
    /// commit of one granule clamped to the reservation.
    pub open spec fn wf(self) -> bool {
        &&& 0 < self.page_size
        &&& 0 < self.commit_size
        &&& 0 < self.reserve_size
        &&& self.reserve_size % self.page_size == 0
        &&& self.commit_size % self.page_size == 0
        &&& self.initial_commit == if self.commit_size > self.reserve_size {
            self.reserve_size
        } else {
            self.commit_size
        }
    }
}

} // verus!
