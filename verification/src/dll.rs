//! Reference counts that decide when the text-service library may be unloaded.
//!
//! Live COM objects and worker activities each hold one object reference;
//! `LockServer(TRUE)` calls each hold one lock. The library may only be
//! unloaded while both counts are zero.
use vstd::prelude::*;

verus! {

/// The two counters the unload decision reads.
#[derive(Debug)]
pub struct DllState {
    obj_count: i32,
    lock_count: i32,
}

impl DllState {
    /// Live objects and activities executing code from the library.
    pub closed spec fn objects(self) -> int {
        self.obj_count as int
    }

    /// Outstanding `LockServer(TRUE)` calls.
    pub closed spec fn locks(self) -> int {
        self.lock_count as int
    }

    /// Neither count is ever negative: nothing is given back that was not taken.
    #[verifier::type_invariant]
    closed spec fn counts_not_negative(self) -> bool {
        self.obj_count >= 0 && self.lock_count >= 0
    }

    /// What every state the library builds satisfies: both counts lie
    /// between zero and `i32::MAX`.
    pub open spec fn wf(self) -> bool {
        &&& 0 <= self.objects() <= i32::MAX
        &&& 0 <= self.locks() <= i32::MAX
    }

    /// A freshly loaded library: nothing alive, nothing locked.
    pub fn new() -> (state: Self)
        ensures
            state.wf(),
            state.objects() == 0,
            state.locks() == 0,
    {
        DllState { obj_count: 0, lock_count: 0 }
    }
}

/// Count one more live object.
pub fn obj_add(state: &mut DllState)
    requires
        old(state).objects() < i32::MAX,
    ensures
        final(state).wf(),
        final(state).objects() == old(state).objects() + 1,
        final(state).locks() == old(state).locks(),
{
    proof {
        use_type_invariant(&*state);
    }
    state.obj_count = state.obj_count + 1;
}

/// Count one object less. Releasing more objects than were added is a bug
/// the caller must not commit.
pub fn obj_release(state: &mut DllState)
    requires
        old(state).objects() > 0,
    ensures
        final(state).wf(),
        final(state).objects() == old(state).objects() - 1,
        final(state).locks() == old(state).locks(),
{
    proof {
        use_type_invariant(&*state);
    }
    state.obj_count = state.obj_count - 1;
}

/// `LockServer`: `true` takes a lock, `false` gives one back.
pub fn lock_server(state: &mut DllState, lock: bool)
    requires
        lock ==> old(state).locks() < i32::MAX,
        !lock ==> old(state).locks() > 0,
    ensures
        final(state).wf(),
        final(state).locks() == (if lock { old(state).locks() + 1 } else { old(state).locks() - 1 }),
        final(state).objects() == old(state).objects(),
{
    proof {
        use_type_invariant(&*state);
    }
    if lock {
        state.lock_count = state.lock_count + 1;
    } else {
        state.lock_count = state.lock_count - 1;
    }
}

/// True when the library can be safely unloaded.
pub fn can_unload(state: &DllState) -> (b: bool)
    ensures
        state.wf(),
        b == (state.objects() == 0 && state.locks() == 0),
{
    proof {
        use_type_invariant(state);
    }
    state.obj_count == 0 && state.lock_count == 0
}

/// Keeps the library loaded for the lifetime of an object or background task.
/// The activity ends with `release`, which gives the reference back.
#[must_use]
#[derive(Debug)]
pub struct DllActivityGuard {
    _private: (),
}

impl DllActivityGuard {
    /// Take one object reference for the activity.
    pub fn new(state: &mut DllState) -> (guard: Self)
        requires
            old(state).objects() < i32::MAX,
        ensures
            final(state).wf(),
            final(state).objects() == old(state).objects() + 1,
            final(state).locks() == old(state).locks(),
    {
        obj_add(state);
        DllActivityGuard { _private: () }
    }

    /// End the activity and give its reference back.
    pub fn release(self, state: &mut DllState)
        requires
            old(state).objects() > 0,
        ensures
            final(state).wf(),
            final(state).objects() == old(state).objects() - 1,
            final(state).locks() == old(state).locks(),
    {
        obj_release(state);
    }
}

/// An activity that starts and ends (an `obj_add` then an `obj_release`,
/// or a guard taken then released) keeps the library loaded while it runs and
/// leaves the unload decision where it was.
pub proof fn lemma_activity_round_trip(before: DllState, during: DllState, after: DllState)
    requires
        before.wf(),
        during.objects() == before.objects() + 1,
        during.locks() == before.locks(),
        after.objects() == during.objects() - 1,
        after.locks() == during.locks(),
    ensures
        !(during.objects() == 0 && during.locks() == 0),
        (after.objects() == 0 && after.locks() == 0) <==> (before.objects() == 0 && before.locks() == 0),
{
}

} // verus!
