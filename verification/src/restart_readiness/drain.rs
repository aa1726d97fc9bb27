//! In-process admission fence used by the identity-bound restart drain protocol.

use vstd::prelude::*;

pub(crate) mod key;

pub use key::{DrainFenceKey, DrainFenceKeyView};

verus! {

/// Why the admission fence refused an operation.
#[derive(Clone, Debug, PartialEq, Eq)]
pub enum DrainGateError {
    /// A drain key part is malformed.
    InvalidKey,
    /// Admission is sealed until the runtime restarts.
    Sealed,
    /// The key does not match the one the fence is sealed with.
    FenceMismatch,
    /// The fence state could not be used.
    LockPoisoned,
    /// Waiting for in-flight work to drain timed out.
    Timeout { timeout_ms: u128 },
}

} // verus!

verus! {

/// The abstract state of the admission fence.
pub struct GateView {
    /// Admission permits currently held.
    pub active: nat,
    /// The key the fence is sealed with, if sealed.
    pub sealed: Option<DrainFenceKeyView>,
    /// Whether control operations may still enter a sealed fence.
    pub controls_open: bool,
}

/// Whether an entry of the given kind is refused because the fence is sealed.
pub open spec fn entry_blocked(g: GateView, control: bool) -> bool {
    g.sealed is Some && !(control && g.controls_open)
}

/// The outcome of sealing `g` with `key`.
pub open spec fn seal_outcome(g: GateView, key: DrainFenceKeyView) -> (GateView, Result<(), DrainGateError>) {
    match g.sealed {
        None => (GateView { sealed: Some(key), controls_open: true, ..g }, Ok(())),
        Some(active) => if active == key {
            (g, Ok(()))
        } else {
            (g, Err(DrainGateError::FenceMismatch))
        },
    }
}

/// The outcome of admitting work of the given kind into `g`.
pub open spec fn enter_outcome(g: GateView, control: bool) -> (GateView, Result<bool, DrainGateError>) {
    if entry_blocked(g, control) {
        (g, Err(DrainGateError::Sealed))
    } else if g.active >= usize::MAX {
        (g, Err(DrainGateError::LockPoisoned))
    } else {
        (GateView { active: g.active + 1, ..g }, Ok(g.sealed is Some))
    }
}

/// The outcome of closing (`open` false) or reopening (`open` true) the
/// controls of `g` for `key`.
pub open spec fn controls_outcome(g: GateView, key: DrainFenceKeyView, open: bool) -> (GateView, Result<(), DrainGateError>) {
    if g.sealed == Some(key) {
        (GateView { controls_open: open, ..g }, Ok(()))
    } else {
        (g, Err(DrainGateError::FenceMismatch))
    }
}

/// The state of `g` after one permit is dropped.
pub open spec fn drop_outcome(g: GateView) -> GateView {
    GateView { active: if g.active > 0 { (g.active - 1) as nat } else { 0 }, ..g }
}

/// The outcome of releasing `g` for `key`.
pub open spec fn release_outcome(g: GateView, key: DrainFenceKeyView) -> (GateView, bool) {
    if g.active == 0 && g.sealed == Some(key) {
        (GateView { sealed: None, controls_open: false, ..g }, true)
    } else {
        (g, false)
    }
}

/// Admission fence: counts in-flight work and, once sealed for a drain key,
/// refuses new ordinary work while control work may still enter until the
/// controls are closed.
pub struct AdmissionGate {
    active: usize,
    sealed: Option<DrainFenceKey>,
    controls_open: bool,
}

impl View for AdmissionGate {
    type V = GateView;

    closed spec fn view(&self) -> GateView {
        GateView {
            active: self.active as nat,
            sealed: match self.sealed {
                Some(k) => Some(k@),
                None => None,
            },
            controls_open: self.controls_open,
        }
    }
}

impl AdmissionGate {
    /// The count of permits in flight fits a `usize`.
    pub proof fn lemma_active_fits(&self)
        ensures
            self@.active <= usize::MAX,
    {
    }

    /// An open fence with nothing in flight.
    pub fn new() -> (g: Self)
        ensures
            g@ == (GateView { active: 0, sealed: None, controls_open: false }),
    {
        AdmissionGate { active: 0, sealed: None, controls_open: false }
    }

    fn sealed_with(&self, key: &DrainFenceKey) -> (r: bool)
        ensures
            r == (self@.sealed == Some(key@)),
    {
        match &self.sealed {
            Some(active) => active.same_as(key),
            None => false,
        }
    }

    /// Admits one unit of work; `control` work may enter a sealed fence while
    /// its controls are open. On success returns whether the fence was sealed.
    pub fn try_enter_kind(&mut self, control: bool) -> (r: Result<bool, DrainGateError>)
        ensures
            (final(self)@, r) == enter_outcome(old(self)@, control),
    {
        if self.sealed.is_some() && !(control && self.controls_open) {
            return Err(DrainGateError::Sealed);
        }
        if self.active == usize::MAX {
            return Err(DrainGateError::LockPoisoned);
        }
        self.active = self.active + 1;
        Ok(self.sealed.is_some())
    }

    /// Admits ordinary work.
    pub fn try_enter(&mut self) -> (r: Result<(), DrainGateError>)
        ensures
            old(self)@.sealed is Some ==> r == Err::<(), DrainGateError>(DrainGateError::Sealed)
                && final(self)@ == old(self)@,
            old(self)@.sealed is None && old(self)@.active < usize::MAX ==> r is Ok
                && final(self)@ == (GateView { active: old(self)@.active + 1, ..old(self)@ }),
            old(self)@.sealed is None && old(self)@.active == usize::MAX ==> r == Err::<
                (),
                DrainGateError,
            >(DrainGateError::LockPoisoned) && final(self)@ == old(self)@,
    {
        match self.try_enter_kind(false) {
            Ok(_) => Ok(()),
            Err(e) => Err(e),
        }
    }

    /// Admits control work, which a sealed fence still lets in while its
    /// controls are open.
    pub fn try_enter_control(&mut self) -> (r: Result<(), DrainGateError>)
        ensures
            entry_blocked(old(self)@, true) ==> r == Err::<(), DrainGateError>(
                DrainGateError::Sealed,
            ) && final(self)@ == old(self)@,
            !entry_blocked(old(self)@, true) && old(self)@.active < usize::MAX ==> r is Ok
                && final(self)@ == (GateView { active: old(self)@.active + 1, ..old(self)@ }),
            !entry_blocked(old(self)@, true) && old(self)@.active == usize::MAX ==> r == Err::<
                (),
                DrainGateError,
            >(DrainGateError::LockPoisoned) && final(self)@ == old(self)@,
    {
        match self.try_enter_kind(true) {
            Ok(_) => Ok(()),
            Err(e) => Err(e),
        }
    }

    /// Control admission that also reports whether the fence was sealed.
    pub fn try_enter_control_observed(&mut self) -> (r: Result<bool, DrainGateError>)
        ensures
            (final(self)@, r) == enter_outcome(old(self)@, true),
    {
        self.try_enter_kind(true)
    }

    /// A permit was duplicated: one more unit of work is in flight.
    pub fn permit_cloned(&mut self)
        ensures
            final(self)@ == (GateView {
                active: if old(self)@.active < usize::MAX {
                    old(self)@.active + 1
                } else {
                    old(self)@.active
                },
                ..old(self)@
            }),
    {
        if self.active < usize::MAX {
            self.active = self.active + 1;
        }
    }

    /// A permit was dropped; returns whether nothing is in flight any more,
    /// which is when waiters must be woken.
    pub fn permit_dropped(&mut self) -> (drained: bool)
        ensures
            final(self)@ == drop_outcome(old(self)@),
            drained == (final(self)@.active == 0),
    {
        if self.active > 0 {
            self.active = self.active - 1;
        }
        self.active == 0
    }

    /// Seals the fence for `key`; sealing again with the same key is a no-op,
    /// and a different key is refused.
    pub fn seal(&mut self, key: &DrainFenceKey) -> (r: Result<(), DrainGateError>)
        ensures
            (final(self)@, r) == seal_outcome(old(self)@, key@),
    {
        match &self.sealed {
            None => {
                self.sealed = Some(key.duplicate());
                self.controls_open = true;
                Ok(())
            },
            Some(active) => {
                if active.same_as(key) {
                    Ok(())
                } else {
                    Err(DrainGateError::FenceMismatch)
                }
            },
        }
    }

    /// Whether the fence is sealed.
    pub fn is_sealed(&self) -> (r: bool)
        ensures
            r == (self@.sealed is Some),
    {
        self.sealed.is_some()
    }

    /// Stops control work from entering the fence sealed for `key`.
    pub fn close_controls(&mut self, key: &DrainFenceKey) -> (r: Result<(), DrainGateError>)
        ensures
            old(self)@.sealed == Some(key@) ==> r is Ok && final(self)@ == (GateView {
                controls_open: false,
                ..old(self)@
            }),
            old(self)@.sealed != Some(key@) ==> r == Err::<(), DrainGateError>(
                DrainGateError::FenceMismatch,
            ) && final(self)@ == old(self)@,
            (final(self)@, r) == controls_outcome(old(self)@, key@, false),
    {
        if !self.sealed_with(key) {
            return Err(DrainGateError::FenceMismatch);
        }
        self.controls_open = false;
        Ok(())
    }

    /// Lets control work enter the fence sealed for `key` again.
    pub fn open_controls(&mut self, key: &DrainFenceKey) -> (r: Result<(), DrainGateError>)
        ensures
            old(self)@.sealed == Some(key@) ==> r is Ok && final(self)@ == (GateView {
                controls_open: true,
                ..old(self)@
            }),
            old(self)@.sealed != Some(key@) ==> r == Err::<(), DrainGateError>(
                DrainGateError::FenceMismatch,
            ) && final(self)@ == old(self)@,
            (final(self)@, r) == controls_outcome(old(self)@, key@, true),
    {
        if !self.sealed_with(key) {
            return Err(DrainGateError::FenceMismatch);
        }
        self.controls_open = true;
        Ok(())
    }

    /// Whether the fence is sealed for `key` with nothing in flight.
    pub fn is_drained_for(&self, key: &DrainFenceKey) -> (r: bool)
        ensures
            r == (self@.active == 0 && self@.sealed == Some(key@)),
    {
        self.active == 0 && self.sealed_with(key)
    }

    /// One check of a drain wait: an error when the fence is not sealed for
    /// `key`, otherwise whether the in-flight work has drained.
    pub fn drained_status(&self, key: &DrainFenceKey) -> (r: Result<bool, DrainGateError>)
        ensures
            self@.sealed != Some(key@) ==> r == Err::<bool, DrainGateError>(
                DrainGateError::FenceMismatch,
            ),
            self@.sealed == Some(key@) ==> r == Ok::<bool, DrainGateError>(self@.active == 0),
    {
        if !self.sealed_with(key) {
            return Err(DrainGateError::FenceMismatch);
        }
        Ok(self.active == 0)
    }

    /// Reopens a fence sealed for `key` once nothing is in flight.
    pub fn release(&mut self, key: &DrainFenceKey) -> (r: bool)
        ensures
            (final(self)@, r) == release_outcome(old(self)@, key@),
    {
        if self.active != 0 || !self.sealed_with(key) {
            return false;
        }
        self.sealed = None;
        self.controls_open = false;
        true
    }
}

} // verus!

verus! {

/// A sealed fence admits no ordinary work, whatever its controls.
pub proof fn law_sealed_gate_refuses_ordinary_work(g: GateView)
    requires
        g.sealed is Some,
    ensures
        enter_outcome(g, false) == (g, Err::<bool, DrainGateError>(DrainGateError::Sealed)),
{
}

/// Once the controls of a sealed fence are closed, control work is refused too.
pub proof fn law_closed_controls_refuse_control_work(g: GateView)
    requires
        g.sealed is Some,
        !g.controls_open,
    ensures
        enter_outcome(g, true).1 == Err::<bool, DrainGateError>(DrainGateError::Sealed),
{
}

/// Admitting work and dropping its permit leaves the fence as it was.
pub proof fn law_enter_then_drop_restores(g: GateView, control: bool)
    requires
        enter_outcome(g, control).1 is Ok,
    ensures
        drop_outcome(enter_outcome(g, control).0) == g,
{
}

/// A fence with work in flight cannot be released, and is left unchanged.
pub proof fn law_release_waits_for_drain(g: GateView, key: DrainFenceKeyView)
    requires
        g.active > 0,
    ensures
        release_outcome(g, key) == (g, false),
{
}

/// Sealing an open, idle fence and releasing it with the same key reopens it
/// with the controls closed.
pub proof fn law_seal_then_release_reopens(g: GateView, key: DrainFenceKeyView)
    requires
        g.sealed is None,
        g.active == 0,
    ensures
        seal_outcome(g, key).1 is Ok,
        release_outcome(seal_outcome(g, key).0, key) == (
            GateView { sealed: None, controls_open: false, ..g },
            true,
        ),
{
}

/// A fence sealed for one key refuses to be sealed or released for another,
/// and keeps its fence.
pub proof fn law_fence_is_exclusive(g: GateView, key: DrainFenceKeyView, other: DrainFenceKeyView)
    requires
        g.sealed == Some(key),
        other != key,
    ensures
        seal_outcome(g, other) == (g, Err::<(), DrainGateError>(DrainGateError::FenceMismatch)),
        release_outcome(g, other) == (g, false),
{
}

/// Sealing twice with the same key changes nothing the second time.
pub proof fn law_seal_is_idempotent(g: GateView, key: DrainFenceKeyView)
    ensures
        seal_outcome(seal_outcome(g, key).0, key).0 == seal_outcome(g, key).0,
{
}

/// Ordinary work is refused as sealed exactly when the fence is sealed;
/// admitted work keeps the fence from being drained or released under any
/// key until its permit is dropped.
pub proof fn law_admission_blocks_drain(g: GateView, control: bool, key: DrainFenceKeyView)
    ensures
        (enter_outcome(g, false).1 == Err::<bool, DrainGateError>(DrainGateError::Sealed)) <==> g.sealed is Some,
        g.active < usize::MAX && !entry_blocked(g, control) ==> enter_outcome(g, control).1 is Ok,
        enter_outcome(g, control).1 is Ok ==> enter_outcome(g, control).0.active > 0 && release_outcome(
            enter_outcome(g, control).0,
            key,
        ).1 == false,
{
}

/// Sealing an open fence lets control work in while ordinary work is
/// refused; closing the controls refuses control work, reopening them
/// admits it again; another key changes neither the controls nor the fence.
pub proof fn law_controls_follow_their_key(g: GateView, key: DrainFenceKeyView, other: DrainFenceKeyView)
    requires
        g.sealed is None,
        g.active < usize::MAX,
        other != key,
    ensures
        ({
            let sealed = seal_outcome(g, key).0;
            let closed = controls_outcome(sealed, key, false).0;
            let reopened = controls_outcome(closed, key, true).0;
            &&& enter_outcome(sealed, true).1 is Ok
            &&& enter_outcome(sealed, false).1 == Err::<bool, DrainGateError>(DrainGateError::Sealed)
            &&& controls_outcome(sealed, key, false).1 is Ok
            &&& enter_outcome(closed, true).1 == Err::<bool, DrainGateError>(DrainGateError::Sealed)
            &&& controls_outcome(closed, key, true).1 is Ok
            &&& enter_outcome(reopened, true).1 is Ok
            &&& controls_outcome(sealed, other, false) == (sealed, Err::<(), DrainGateError>(
                DrainGateError::FenceMismatch,
            ))
            &&& controls_outcome(sealed, other, true) == (sealed, Err::<(), DrainGateError>(
                DrainGateError::FenceMismatch,
            ))
        }),
{
}

} // verus!
