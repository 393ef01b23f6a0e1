//! The session lock.

use crate::desk::Desk;
use crate::gestures::Gestures;
use crate::keyboard::KeyRepeat;
use crate::pointer::PointerMemory;
use vstd::prelude::*;

verus! {

use crate::desk::DeskView;
use crate::gestures::GesturesView;

/// Whether the session is locked.
#[derive(Clone, Copy, Debug, PartialEq, Eq, Structural)]
pub enum SessionLock {
    Unlocked,
    /// Asked for, and not yet covered by a lock surface.
    Pending,
    Locked,
}

/// The lock and its surfaces.
pub struct Session {
    pub lock: SessionLock,
    /// Outputs with their lock surfaces.
    pub lock_surfaces: Vec<(u64, u64)>,
}

/// The lock surface of an output among some pairs.
pub open spec fn surface_of(pairs: Seq<(u64, u64)>, output: u64) -> Option<u64>
    decreases pairs.len(),
{
    if pairs.len() == 0 {
        None
    } else if pairs.last().0 == output {
        Some(pairs.last().1)
    } else {
        surface_of(pairs.drop_last(), output)
    }
}

/// Whether a surface is among the pairs.
pub open spec fn covers(pairs: Seq<(u64, u64)>, surface: u64) -> bool {
    exists|k: int| 0 <= k < pairs.len() && (#[trigger] pairs[k]).1 == surface
}

/// The pairs without an output.
pub open spec fn uncovered(pairs: Seq<(u64, u64)>, output: u64) -> Seq<(u64, u64)>
    decreases pairs.len(),
{
    if pairs.len() == 0 {
        seq![]
    } else if pairs.last().0 == output {
        uncovered(pairs.drop_last(), output)
    } else {
        uncovered(pairs.drop_last(), output).push(pairs.last())
    }
}

impl Session {
    /// The session is not locked.
    pub fn new() -> (r: Session)
        ensures
            r.lock == SessionLock::Unlocked,
            r.lock_surfaces@ == Seq::<(u64, u64)>::empty(),
    {
        Session { lock: SessionLock::Unlocked, lock_surfaces: Vec::new() }
    }

    /// Takes a request to lock. Nothing that input has begun goes on: no
    /// gesture, no repeated action, no click that was held back, no waiting
    /// cursor.
    pub fn lock<V, Z>(
        &mut self,
        desk: &mut Desk<V>,
        gestures: &mut Gestures<Z>,
        key_repeat: &mut KeyRepeat,
        pointer: &mut PointerMemory,
    )
        ensures
            final(self).lock == SessionLock::Pending,
            final(self).lock_surfaces == old(self).lock_surfaces,
            final(desk)@ == (DeskView { exec_cursor: None, ..old(desk)@ }),
            final(gestures)@ == (GesturesView::<Z> { state: None, output: old(gestures).output }),
            final(key_repeat)@ is None,
            *final(pointer) == (PointerMemory { pending_middle_click: None, ..*old(pointer) }),
    {
        self.lock = SessionLock::Pending;
        gestures.state = None;
        key_repeat.held = None;
        pointer.pending_middle_click = None;
        desk.exec_cursor = None;
    }

    /// Takes a lock surface for an output: the one it names, else the active
    /// one. Returns the output that it covers.
    pub fn new_surface(&mut self, surface: u64, named: Option<u64>, active: Option<u64>) -> (r: Option<
        u64,
    >)
        ensures
            r == if named is Some {
                named
            } else {
                active
            },
            final(self).lock == old(self).lock,
            final(self).lock_surfaces@ == match r {
                Some(output) => uncovered(old(self).lock_surfaces@, output).push(
                    (output, surface),
                ),
                None => old(self).lock_surfaces@,
            },
    {
        let output: u64 = match named {
            Some(o) => o,
            None => match active {
                Some(o) => o,
                None => {
                    return None;
                },
            },
        };
        self.output_gone(output);
        self.lock_surfaces.push((output, surface));
        Some(output)
    }

    /// The lock surface of an output, if it has one.
    pub fn surface_for(&self, output: u64) -> (r: Option<u64>)
        ensures
            r == surface_of(self.lock_surfaces@, output),
    {
        let mut left: usize = self.lock_surfaces.len();
        assert(self.lock_surfaces@.take(left as int) =~= self.lock_surfaces@);
        while left > 0
            invariant
                left <= self.lock_surfaces@.len(),
                surface_of(self.lock_surfaces@, output) == surface_of(
                    self.lock_surfaces@.take(left as int),
                    output,
                ),
            decreases left,
        {
            assert(self.lock_surfaces@.take(left as int).drop_last() =~= self.lock_surfaces@.take(
                left - 1,
            ));
            left -= 1;
            if self.lock_surfaces[left].0 == output {
                return Some(self.lock_surfaces[left].1);
            }
        }
        None
    }

    /// Forgets the lock surface of an output that is gone.
    pub fn output_gone(&mut self, output: u64)
        ensures
            final(self).lock == old(self).lock,
            final(self).lock_surfaces@ == uncovered(old(self).lock_surfaces@, output),
    {
        let mut kept: Vec<(u64, u64)> = Vec::new();
        let mut i: usize = 0;
        while i < self.lock_surfaces.len()
            invariant
                i <= self.lock_surfaces@.len(),
                self.lock == old(self).lock,
                self.lock_surfaces@ == old(self).lock_surfaces@,
                kept@ == uncovered(self.lock_surfaces@.take(i as int), output),
            decreases self.lock_surfaces.len() - i,
        {
            let pair = self.lock_surfaces[i];
            assert(self.lock_surfaces@.take(i + 1).drop_last() =~= self.lock_surfaces@.take(
                i as int,
            ));
            if pair.0 != output {
                kept.push(pair);
            }
            i += 1;
        }
        assert(self.lock_surfaces@.take(i as int) =~= self.lock_surfaces@);
        self.lock_surfaces = kept;
    }

    /// Takes a commit of a surface. The first one of a lock surface puts a
    /// pending lock in force; then it returns true, and the surface is to be
    /// focused.
    pub fn commit(&mut self, surface: u64) -> (r: bool)
        ensures
            r == (old(self).lock == SessionLock::Pending && covers(
                old(self).lock_surfaces@,
                surface,
            )),
            final(self).lock == if r {
                SessionLock::Locked
            } else {
                old(self).lock
            },
            final(self).lock_surfaces == old(self).lock_surfaces,
    {
        if self.lock != SessionLock::Pending {
            return false;
        }
        let mut i: usize = 0;
        while i < self.lock_surfaces.len()
            invariant
                i <= self.lock_surfaces@.len(),
                self.lock == SessionLock::Pending,
                *self == *old(self),
                forall|k: int| 0 <= k < i ==> (#[trigger] self.lock_surfaces@[k]).1 != surface,
            decreases self.lock_surfaces.len() - i,
        {
            if self.lock_surfaces[i].1 == surface {
                assert(covers(self.lock_surfaces@, surface));
                self.lock = SessionLock::Locked;
                return true;
            }
            i += 1;
        }
        false
    }

    /// Unlocks. Returns the window that gets the keyboard: the one used last.
    pub fn unlock<V>(&mut self, desk: &Desk<V>) -> (r: Option<u64>)
        ensures
            final(self).lock == SessionLock::Unlocked,
            final(self).lock_surfaces@ == Seq::<(u64, u64)>::empty(),
            r == if desk@.focus_history.len() > 0 {
                Some(desk@.focus_history[0])
            } else {
                None
            },
    {
        self.lock = SessionLock::Unlocked;
        self.lock_surfaces.clear();
        if desk.focus_history.len() > 0 {
            Some(desk.focus_history[0])
        } else {
            None
        }
    }
}

/// An output has the lock surface that came last for it, and no other output
/// loses its own.
pub proof fn last_lock_surface_counts(pairs: Seq<(u64, u64)>, output: u64, surface: u64, other: u64)
    ensures
        surface_of(uncovered(pairs, output).push((output, surface)), output) == Some(surface),
        other != output ==> surface_of(uncovered(pairs, output).push((output, surface)), other)
            == surface_of(pairs, other),
{
    let kept = uncovered(pairs, output);
    assert(kept.push((output, surface)).drop_last() =~= kept);
    if other != output {
        others_keep_their_surface(pairs, output, other);
    }
}

proof fn others_keep_their_surface(pairs: Seq<(u64, u64)>, output: u64, other: u64)
    requires
        other != output,
    ensures
        surface_of(uncovered(pairs, output), other) == surface_of(pairs, other),
    decreases pairs.len(),
{
    if pairs.len() > 0 {
        others_keep_their_surface(pairs.drop_last(), output, other);
        let kept = uncovered(pairs.drop_last(), output);
        if pairs.last().0 != output {
            assert(kept.push(pairs.last()).drop_last() =~= kept);
        }
    }
}

} // verus!
