use vstd::prelude::*;

verus! {

/// The states a foreign allocator handle can pass through, as seen from the
/// facade that owns it.
///
/// `Unconstructed` is the state before any handle was requested. A request
/// either yields a non-null handle (`Live`) or reports that no allocator is
/// available (`Unavailable`). A live facade is destroyed exactly once, which
/// moves it to `Released`. Both `Released` and `Unavailable` are terminal.
pub enum FacadeState {
    Unconstructed,
    Live { handle: usize },
    Released,
    Unavailable,
}

/// Outcome of requesting an allocator handle from the native runtime:
/// a null handle means no backend is available; any other value yields a
/// live facade owning exactly that handle.
pub open spec fn create_step(raw_handle: usize) -> FacadeState {
    if raw_handle == 0 {
        FacadeState::Unavailable
    } else {
        FacadeState::Live { handle: raw_handle }
    }
}

/// One destruction attempt: a live facade moves to `Released` and emits
/// exactly one native release of its handle; a terminal facade stays where
/// it is and emits nothing, so a second attempt can never release again.
pub open spec fn destroy_step(state: FacadeState) -> (FacadeState, nat) {
    match state {
        FacadeState::Live { handle } => (FacadeState::Released, 1nat),
        _ => (state, 0nat),
    }
}

/// How many native releases are emitted by `attempts` consecutive
/// destruction attempts starting from `state`.
pub open spec fn releases_after(state: FacadeState, attempts: nat) -> nat
    decreases attempts,
{
    if attempts == 0 {
        0
    } else {
        destroy_step(state).1 + releases_after(destroy_step(state).0, (attempts - 1) as nat)
    }
}

proof fn lemma_terminal_releases_none(state: FacadeState, attempts: nat)
    requires
        state is Released || state is Unavailable,
    ensures
        releases_after(state, attempts) == 0,
    decreases attempts,
{
    if attempts > 0 {
        lemma_terminal_releases_none(state, (attempts - 1) as nat);
    }
}

/// For any successfully created facade, the native release runs exactly once
/// however many times its destruction is attempted (normal scope exit, early
/// return, or unwinding): the first attempt emits one release and every later
/// attempt finds a terminal facade and emits none.
pub proof fn lemma_release_exactly_once(raw_handle: usize, attempts: nat)
    requires
        raw_handle != 0,
        attempts >= 1,
    ensures
        create_step(raw_handle) is Live,
        releases_after(create_step(raw_handle), attempts) == 1,
{
    lemma_terminal_releases_none(FacadeState::Released, (attempts - 1) as nat);
}

/// When no handle was obtained, the facade is unavailable and no destruction
/// attempt ever emits a native release.
pub proof fn lemma_no_handle_never_released(attempts: nat)
    ensures
        create_step(0) is Unavailable,
        releases_after(create_step(0), attempts) == 0,
{
    lemma_terminal_releases_none(FacadeState::Unavailable, attempts);
}

} // verus!
