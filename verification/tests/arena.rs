use mem_arena::align::align_up;
use mem_arena::arena::{Arena, PushPlan};

const PAGE: usize = 4096;
const BASE: usize = 65536;

fn arena_with(reserve: usize, commit: usize) -> Arena {
    let req = Arena::prepare(reserve, commit, PAGE).expect("sizes are representable");
    Arena::new(req, BASE)
}

/// Pushes `size` bytes, granting whatever commit the plan asks for.
fn push_granted(arena: &mut Arena, size: usize) -> Option<usize> {
    let granted = match arena.plan_push(size) {
        PushPlan::OutOfReserve => false,
        PushPlan::Committed => true,
        PushPlan::NeedsCommit { .. } => true,
    };
    arena.push(size, granted)
}

#[test]
fn align_up_rounds_to_next_multiple() {
    assert_eq!(align_up(0, 8), 0);
    assert_eq!(align_up(1, 8), 8);
    assert_eq!(align_up(8, 8), 8);
    assert_eq!(align_up(10, 8), 16);
    assert_eq!(align_up(100, PAGE), PAGE);
    assert_eq!(align_up(PAGE + 1, PAGE), 2 * PAGE);
    assert_eq!(align_up(5000, 12288), 12288);
}

#[test]
fn construction_rounds_sizes_to_pages() {
    let req = Arena::prepare(100, 200, PAGE).expect("valid sizes");
    assert_eq!(req.reserve_size % PAGE, 0);
    assert_eq!(req.commit_size % PAGE, 0);
    assert_eq!(req.reserve_size, PAGE);
    assert_eq!(req.commit_size, PAGE);
    assert_eq!(req.initial_commit, PAGE);

    let arena = Arena::new(req, BASE);
    assert_eq!(arena.pos(), 0);
    assert_eq!(arena.commit_pos, req.initial_commit);
    assert_eq!(arena.reserve_size % PAGE, 0);
    assert_eq!(arena.commit_size % PAGE, 0);
}

#[test]
fn initial_commit_is_clamped_to_reservation() {
    let req = Arena::prepare(PAGE, 8 * PAGE, PAGE).expect("valid sizes");
    assert_eq!(req.reserve_size, PAGE);
    assert_eq!(req.commit_size, 8 * PAGE);
    assert_eq!(req.initial_commit, PAGE);
}

#[test]
fn construction_rejects_zero_sizes() {
    assert!(Arena::prepare(0, PAGE, PAGE).is_none());
    assert!(Arena::prepare(PAGE, 0, PAGE).is_none());
    assert!(Arena::prepare(0, 0, PAGE).is_none());
}

#[test]
fn construction_rejects_unrepresentable_rounding() {
    assert!(Arena::prepare(usize::MAX, PAGE, PAGE).is_none());
    assert!(Arena::prepare(PAGE, usize::MAX - 1, PAGE).is_none());
}

#[test]
fn pushed_regions_are_aligned_and_disjoint() {
    let mut arena = arena_with(64 * PAGE, 32 * PAGE);
    let mut previous_end = BASE;
    for size in [10usize, 3, 5, 64, 1] {
        let addr = push_granted(&mut arena, size).expect("fits in the reservation");
        assert_eq!(addr % 8, 0);
        assert!(addr >= previous_end);
        previous_end = addr + size;
    }
}

#[test]
fn push_past_reservation_fails_and_changes_nothing() {
    let mut arena = arena_with(2 * PAGE, PAGE);
    let pos_before = arena.pos();
    let commit_before = arena.commit_pos;
    assert_eq!(arena.push(2 * PAGE + 1, true), None);
    assert!(matches!(arena.plan_push(2 * PAGE + 1), PushPlan::OutOfReserve));
    assert_eq!(arena.pos(), pos_before);
    assert_eq!(arena.commit_pos, commit_before);
}

#[test]
fn refused_commit_fails_and_changes_nothing() {
    let mut arena = arena_with(4 * PAGE, PAGE);
    let pos_before = arena.pos();
    let commit_before = arena.commit_pos;
    // Needs a second commit granule, which the platform refuses.
    assert!(matches!(
        arena.plan_push(2 * PAGE),
        PushPlan::NeedsCommit { .. }
    ));
    assert_eq!(arena.push(2 * PAGE, false), None);
    assert_eq!(arena.pos(), pos_before);
    assert_eq!(arena.commit_pos, commit_before);
}

#[test]
fn pop_to_zero_is_rejected() {
    let mut arena = arena_with(4 * PAGE, PAGE);
    push_granted(&mut arena, 100).expect("fits");
    let pos_before = arena.pos();
    assert!(!arena.pop_to(0));
    assert_eq!(arena.pos(), pos_before);
}

#[test]
fn pop_past_cursor_is_rejected() {
    let mut arena = arena_with(4 * PAGE, PAGE);
    push_granted(&mut arena, 100).expect("fits");
    let pos_before = arena.pos();
    assert!(!arena.pop_to(pos_before + 1));
    assert_eq!(arena.pos(), pos_before);
}

#[test]
fn rollback_restores_cursor_and_reuses_addresses() {
    let mut arena = arena_with(64 * PAGE, 32 * PAGE);
    push_granted(&mut arena, 8).expect("fits");
    let checkpoint = arena.pos();

    let first = push_granted(&mut arena, 16).expect("fits");
    push_granted(&mut arena, 24).expect("fits");
    push_granted(&mut arena, 2 * 32 * PAGE - PAGE).expect("fits");

    assert!(arena.pop_to(checkpoint));
    assert_eq!(arena.pos(), checkpoint);

    let again = push_granted(&mut arena, 16).expect("fits");
    assert_eq!(again, first);
}

#[test]
fn rollback_never_uncommits_memory() {
    let mut arena = arena_with(64 * PAGE, 8 * PAGE);
    push_granted(&mut arena, 8).expect("fits");
    let checkpoint = arena.pos();
    push_granted(&mut arena, 16 * PAGE).expect("fits");
    let committed = arena.commit_pos;
    assert!(committed > 8 * PAGE);

    assert!(arena.pop_to(checkpoint));
    assert_eq!(arena.commit_pos, committed);

    // Pushing into the rewound space needs no new commit.
    assert!(matches!(arena.plan_push(16 * PAGE), PushPlan::Committed));
}

#[test]
fn growth_commits_the_rounded_shortfall_clamped_to_the_reservation() {
    // Reserve 64 pages with a commit granularity of 32 pages.
    let mut arena = arena_with(64 * PAGE, 32 * PAGE);
    assert_eq!(arena.commit_pos, 32 * PAGE);

    // A small push stays inside the initial commit.
    let addr = push_granted(&mut arena, 10).expect("fits");
    assert_eq!(addr, BASE);
    assert_eq!(arena.pos(), 10);
    assert_eq!(arena.commit_pos, 32 * PAGE);

    // The next push runs past the committed boundary: the plan asks for the
    // shortfall rounded up to the granularity, clamped to the reservation.
    match arena.plan_push(32 * PAGE) {
        PushPlan::NeedsCommit { start, len } => {
            assert_eq!(start, 32 * PAGE);
            assert_eq!(len, 32 * PAGE);
        }
        other => panic!("expected a commit request, got {:?}", other),
    }
    let commit_before = arena.commit_pos;
    let addr = arena.push(32 * PAGE, true).expect("fits");
    assert_eq!(addr, BASE + 16);
    assert_eq!(arena.pos(), 16 + 32 * PAGE);
    assert_eq!(arena.commit_pos, commit_before + 32 * PAGE);
    assert_eq!(arena.commit_pos, arena.reserve_size);
}
