//! The callback bridge: typed, closure-based registration over the native
//! single-function-pointer callback mechanism, with one-time reclamation of
//! each closure capsule.
//!
//! Registration moves a closure to the heap and hands the native side an
//! opaque capsule pointer. The library models the capsule's lifecycle in a
//! `CallbackRegistry`: every registration allocates exactly one capsule, and
//! the move-only `Registration` token makes the removal path the unique
//! consumer of it — a second removal through the same token is a type error,
//! and a stale or foreign token is answered with a reported misuse, never a
//! second reclamation.

use vstd::prelude::*;
use crate::handle::Handle;
use crate::time::{Time, WireTime};

verus! {

/// A trigger condition the host kernel recognizes.
#[derive(Clone, Copy, Debug, PartialEq, Eq, Structural)]
pub enum CbReason {
    ValueChange,
    Stmt,
    Force,
    Release,
    AtStartOfSimTime,
    ReadWriteSynch,
    ReadOnlySynch,
    NextSimTime,
    AfterDelay,
    EndOfCompile,
    StartOfSimulation,
    EndOfSimulation,
    Error,
    TchkViolation,
    StartOfSave,
    EndOfSave,
    StartOfRestart,
    EndOfRestart,
    StartOfReset,
    EndOfReset,
    EnterInteractive,
    ExitInteractive,
    InteractiveScopeChange,
    UnresolvedSystf,
    Assign,
    Deassign,
    Disable,
    PLIError,
    Signal,
    NBASynch,
    AtEndOfSimTime,
}

impl CbReason {
    /// The native integer code of this reason.
    pub open spec fn spec_code(self) -> i32 {
        match self {
            CbReason::ValueChange => 1,
            CbReason::Stmt => 2,
            CbReason::Force => 3,
            CbReason::Release => 4,
            CbReason::AtStartOfSimTime => 5,
            CbReason::ReadWriteSynch => 6,
            CbReason::ReadOnlySynch => 7,
            CbReason::NextSimTime => 8,
            CbReason::AfterDelay => 9,
            CbReason::EndOfCompile => 10,
            CbReason::StartOfSimulation => 11,
            CbReason::EndOfSimulation => 12,
            CbReason::Error => 13,
            CbReason::TchkViolation => 14,
            CbReason::StartOfSave => 15,
            CbReason::EndOfSave => 16,
            CbReason::StartOfRestart => 17,
            CbReason::EndOfRestart => 18,
            CbReason::StartOfReset => 19,
            CbReason::EndOfReset => 20,
            CbReason::EnterInteractive => 21,
            CbReason::ExitInteractive => 22,
            CbReason::InteractiveScopeChange => 23,
            CbReason::UnresolvedSystf => 24,
            CbReason::Assign => 25,
            CbReason::Deassign => 26,
            CbReason::Disable => 27,
            CbReason::PLIError => 28,
            CbReason::Signal => 29,
            CbReason::NBASynch => 30,
            CbReason::AtEndOfSimTime => 31,
        }
    }

    /// The native integer code of this reason.
    pub fn code(&self) -> (r: i32)
        ensures
            r == self.spec_code(),
    {
        match self {
            CbReason::ValueChange => 1,
            CbReason::Stmt => 2,
            CbReason::Force => 3,
            CbReason::Release => 4,
            CbReason::AtStartOfSimTime => 5,
            CbReason::ReadWriteSynch => 6,
            CbReason::ReadOnlySynch => 7,
            CbReason::NextSimTime => 8,
            CbReason::AfterDelay => 9,
            CbReason::EndOfCompile => 10,
            CbReason::StartOfSimulation => 11,
            CbReason::EndOfSimulation => 12,
            CbReason::Error => 13,
            CbReason::TchkViolation => 14,
            CbReason::StartOfSave => 15,
            CbReason::EndOfSave => 16,
            CbReason::StartOfRestart => 17,
            CbReason::EndOfRestart => 18,
            CbReason::StartOfReset => 19,
            CbReason::EndOfReset => 20,
            CbReason::EnterInteractive => 21,
            CbReason::ExitInteractive => 22,
            CbReason::InteractiveScopeChange => 23,
            CbReason::UnresolvedSystf => 24,
            CbReason::Assign => 25,
            CbReason::Deassign => 26,
            CbReason::Disable => 27,
            CbReason::PLIError => 28,
            CbReason::Signal => 29,
            CbReason::NBASynch => 30,
            CbReason::AtEndOfSimTime => 31,
        }
    }
}

/// The event context a registered closure is invoked with: the triggering
/// object, held purely by reference and cleared again after the closure
/// returns, since the wrapper owns no native object.
pub struct CbData {
    pub obj: Handle,
}

/// The plain fields of the native registration descriptor: the reason code,
/// the target object (null when the reason needs none), and the scheduled
/// time in wire form, absent when the registration carries no time.
#[derive(Clone, Copy, Debug)]
pub struct CbDescriptor {
    pub reason: i32,
    pub obj: Handle,
    pub time: Option<WireTime>,
}

/// The registration descriptor for a plain callback: the reason's code, no
/// target object, no scheduled time.
pub fn cb_descriptor(reason: &CbReason) -> (d: CbDescriptor)
    ensures
        d.reason == reason.spec_code(),
        d.obj.spec_is_null(),
        d.time is None,
{
    CbDescriptor { reason: reason.code(), obj: Handle::null(), time: None }
}

/// The registration descriptor for a callback scheduled at a time: the
/// reason's code, no target object, and the time in wire form.
pub fn cb_descriptor_with_time(reason: &CbReason, time: &Time) -> (d: CbDescriptor)
    ensures
        d.reason == reason.spec_code(),
        d.obj.spec_is_null(),
        d.time == Some(time.spec_to_wire()),
{
    CbDescriptor { reason: reason.code(), obj: Handle::null(), time: Some(time.to_wire()) }
}

/// The trampoline's decision on one host invocation: a missing event payload
/// or a missing capsule is a silent no-op (success, no closure invoked);
/// otherwise the closure is invoked once, by reference, with the triggering
/// object's handle as context.
pub fn trampoline_event(payload_present: bool, capsule_present: bool, obj_raw: usize) -> (r:
    Option<CbData>)
    ensures
        (r is Some) == (payload_present && capsule_present),
        r matches Some(d) ==> d.obj.addr() == obj_raw,
{
    if payload_present && capsule_present {
        Some(CbData { obj: Handle::from_raw(obj_raw) })
    } else {
        None
    }
}

/// The lifecycle state of one closure capsule: live on the native side, or
/// already reclaimed.
#[derive(Clone, Copy, Debug)]
pub enum CapsuleState {
    Active(Handle),
    Removed,
}

/// How many capsules of a lifecycle history have been reclaimed.
pub open spec fn removed_count(s: Seq<CapsuleState>) -> nat
    decreases s.len(),
{
    if s.len() == 0 {
        0
    } else {
        removed_count(s.drop_last()) + (if s.last() is Removed {
            1nat
        } else {
            0nat
        })
    }
}

/// Reclaiming never outruns allocating: a history of `n` registrations has
/// at most `n` reclamations, so no capsule is ever freed twice.
pub proof fn lemma_no_capsule_freed_twice(s: Seq<CapsuleState>)
    ensures
        removed_count(s) <= s.len(),
    decreases s.len(),
{
    if s.len() > 0 {
        lemma_no_capsule_freed_twice(s.drop_last());
    }
}

/// Appending a state to a history adds its own reclamation count and nothing
/// else.
proof fn lemma_removed_count_push(s: Seq<CapsuleState>, x: CapsuleState)
    ensures
        removed_count(s.push(x)) == removed_count(s) + (if x is Removed {
            1nat
        } else {
            0nat
        }),
{
    assert(s.push(x).drop_last() =~= s);
    assert(s.push(x).last() == x);
}

/// Marking one entry changes the reclamation count by exactly the difference
/// the entry contributes.
proof fn lemma_removed_count_update(s: Seq<CapsuleState>, i: int, x: CapsuleState)
    requires
        0 <= i < s.len(),
    ensures
        removed_count(s.update(i, x)) + (if s[i] is Removed {
            1nat
        } else {
            0nat
        }) == removed_count(s) + (if x is Removed {
            1nat
        } else {
            0nat
        }),
    decreases s.len(),
{
    if i == s.len() - 1 {
        assert(s.update(i, x).drop_last() =~= s.drop_last());
        assert(s.update(i, x).last() == x);
    } else {
        assert(s.update(i, x).drop_last() =~= s.drop_last().update(i, x));
        assert(s.update(i, x).last() == s.last());
        lemma_removed_count_update(s.drop_last(), i, x);
    }
}

/// The reported contract violation when removal is asked of a capsule that
/// this registry never issued or has already reclaimed.
#[derive(Clone, Copy, Debug, PartialEq, Eq, Structural)]
pub enum CapsuleError {
    Misuse,
}

/// The single-owner token for one registration's capsule. It cannot be
/// copied or cloned, and removal consumes it: the type system makes a second
/// removal through the same token impossible.
pub struct Registration {
    id: usize,
}

impl Registration {
    /// The index of this registration in its registry's history.
    pub closed spec fn spec_id(self) -> usize {
        self.id
    }

    /// The index of this registration in its registry's history.
    pub fn id(&self) -> (r: usize)
        ensures
            r == self.spec_id(),
    {
        self.id
    }
}

/// The model of every closure capsule handed to the native side: one entry
/// per registration, in registration order. An entry is the capsule's whole
/// lifecycle: allocated on registration, reclaimed exactly once on removal.
pub struct CallbackRegistry {
    states: Vec<CapsuleState>,
}

impl CallbackRegistry {
    /// The lifecycle history, one entry per capsule ever allocated.
    pub closed spec fn states(self) -> Seq<CapsuleState> {
        self.states@
    }

    /// How many capsules were allocated: one per registration.
    pub open spec fn spec_allocations(self) -> nat {
        self.states().len()
    }

    /// How many capsules were reclaimed: one per successful removal.
    pub open spec fn spec_deallocations(self) -> nat {
        removed_count(self.states())
    }

    /// A registry with no registrations.
    pub fn new() -> (r: Self)
        ensures
            r.states() == Seq::<CapsuleState>::empty(),
    {
        CallbackRegistry { states: Vec::new() }
    }

    /// How many capsules were allocated: one per registration.
    pub fn allocations(&self) -> (n: usize)
        ensures
            n == self.spec_allocations(),
    {
        self.states.len()
    }

    /// How many capsules were reclaimed: one per successful removal.
    pub fn deallocations(&self) -> (n: usize)
        ensures
            n == self.spec_deallocations(),
    {
        let mut n: usize = 0;
        let mut i: usize = 0;
        while i < self.states.len()
            invariant
                i <= self.states@.len(),
                n == removed_count(self.states@.take(i as int)),
                n <= i,
            decreases self.states@.len() - i,
        {
            proof {
                assert(self.states@.take(i + 1).drop_last() =~= self.states@.take(i as int));
                assert(self.states@.take(i + 1).last() == self.states@[i as int]);
            }
            if matches!(self.states[i], CapsuleState::Removed) {
                n = n + 1;
            }
            i = i + 1;
        }
        proof {
            assert(self.states@.take(self.states@.len() as int) =~= self.states@);
        }
        n
    }

    /// Record one registration: the capsule identified by the returned token
    /// is now allocated and live on the native side under the given native
    /// registration handle. Exactly one allocation, no reclamation.
    pub fn register(&mut self, handle: Handle) -> (t: Registration)
        ensures
            final(self).states() == old(self).states().push(CapsuleState::Active(handle)),
            t.spec_id() == old(self).spec_allocations(),
            final(self).spec_allocations() == old(self).spec_allocations() + 1,
            final(self).spec_deallocations() == old(self).spec_deallocations(),
    {
        let id = self.states.len();
        self.states.push(CapsuleState::Active(handle));
        proof {
            lemma_removed_count_push(old(self).states@, CapsuleState::Active(handle));
        }
        Registration { id }
    }

    /// Reclaim the capsule of one registration, consuming its token. On the
    /// token this registry issued for a live capsule, the answer is the
    /// native registration handle to pass to the native removal call, the
    /// capsule is marked reclaimed, and the counts move by exactly one
    /// reclamation; on any other token the registry is unchanged and the
    /// misuse is reported instead of reclaiming anything twice.
    pub fn remove(&mut self, t: Registration) -> (r: Result<Handle, CapsuleError>)
        ensures
            t.spec_id() < old(self).states().len() ==> (old(self).states()[t.spec_id() as int]
                matches CapsuleState::Active(h) ==> {
                &&& r == Ok::<Handle, CapsuleError>(h)
                &&& final(self).states() == old(self).states().update(
                    t.spec_id() as int,
                    CapsuleState::Removed,
                )
                &&& final(self).spec_deallocations() == old(self).spec_deallocations() + 1
                &&& final(self).spec_allocations() == old(self).spec_allocations()
            }),
            !(t.spec_id() < old(self).states().len() && old(self).states()[t.spec_id() as int]
                is Active) ==> {
                &&& r == Err::<Handle, CapsuleError>(CapsuleError::Misuse)
                &&& final(self).states() == old(self).states()
            },
    {
        if t.id < self.states.len() {
            match self.states[t.id] {
                CapsuleState::Active(h) => {
                    proof {
                        lemma_removed_count_update(
                            self.states@,
                            t.id as int,
                            CapsuleState::Removed,
                        );
                    }
                    self.states.set(t.id, CapsuleState::Removed);
                    Ok(h)
                },
                CapsuleState::Removed => Err(CapsuleError::Misuse),
            }
        } else {
            Err(CapsuleError::Misuse)
        }
    }
}

/// Registering a callback and then removing it is balanced: the registration
/// allocates exactly one capsule and reclaims none, and the removal reclaims
/// exactly one and allocates none — no leak and no double free. Stated over
/// the lifecycle history that `register` appends to and `remove` marks.
pub proof fn lemma_register_then_remove_balanced(s: Seq<CapsuleState>, handle: Handle)
    ensures
        ({
            let registered = s.push(CapsuleState::Active(handle));
            let removed = registered.update(s.len() as int, CapsuleState::Removed);
            &&& registered.len() == s.len() + 1
            &&& removed_count(registered) == removed_count(s)
            &&& removed.len() == s.len() + 1
            &&& removed_count(removed) == removed_count(s) + 1
        }),
{
    let registered = s.push(CapsuleState::Active(handle));
    lemma_removed_count_push(s, CapsuleState::Active(handle));
    lemma_removed_count_update(registered, s.len() as int, CapsuleState::Removed);
}

} // verus!
