//! Captures of the screen: whose turn it is, what is in them, and what is kept
//! from one to the next.

use crate::geometry::Size;
use crate::protocols::screencopy::Screencopy;
use crate::text::join3;
use vstd::prelude::*;

verus! {

/// The captures of an output, and those that are left, when the list is gone
/// through from a place. A capture that is taken out is replaced by the last
/// one of the list.
pub open spec fn taken_from(list: Seq<Screencopy>, output: u64, from: int) -> (
    Seq<Screencopy>,
    Seq<Screencopy>,
)
    decreases list.len() - from,
{
    if from < 0 || from >= list.len() {
        (seq![], list)
    } else if list[from].info.output == output {
        let (taken, left) = taken_from(
            list.update(from, list.last()).drop_last(),
            output,
            from,
        );
        (seq![list[from]] + taken, left)
    } else {
        taken_from(list, output, from + 1)
    }
}

/// Takes the captures of an output out of a list.
pub fn take_for_output(pending: &mut Vec<Screencopy>, output: u64) -> (r: Vec<Screencopy>)
    ensures
        (r@, final(pending)@) == taken_from(old(pending)@, output, 0),
{
    let mut taken: Vec<Screencopy> = Vec::new();
    let mut i: usize = 0;
    assert(taken@ + taken_from(pending@, output, 0).0 =~= taken_from(pending@, output, 0).0);
    while i < pending.len()
        invariant
            i <= pending@.len(),
            taken_from(old(pending)@, output, 0).0 == taken@ + taken_from(
                pending@,
                output,
                i as int,
            ).0,
            taken_from(old(pending)@, output, 0).1 == taken_from(pending@, output, i as int).1,
        decreases pending.len() - i,
    {
        if pending[i].info.output == output {
            let ghost before = pending@;
            let ghost so_far = taken@;
            let copy = pending.swap_remove(i);
            taken.push(copy);
            assert(pending@ =~= before.update(i as int, before.last()).drop_last());
            assert(so_far + (seq![copy] + taken_from(pending@, output, i as int).0) =~= taken@
                + taken_from(pending@, output, i as int).0);
        } else {
            i += 1;
        }
    }
    assert(taken@ + Seq::<Screencopy>::empty() =~= taken@);
    taken
}

/// Every capture of an output is taken, none of another is, and none is lost.
pub proof fn captures_are_parted(list: Seq<Screencopy>, output: u64, from: int)
    requires
        0 <= from <= list.len(),
        forall|k: int| 0 <= k < from ==> (#[trigger] list[k]).info.output != output,
    ensures
        ({
            let (taken, left) = taken_from(list, output, from);
            &&& taken.len() + left.len() == list.len()
            &&& forall|k: int| 0 <= k < taken.len() ==> (#[trigger] taken[k]).info.output == output
            &&& forall|k: int| 0 <= k < left.len() ==> (#[trigger] left[k]).info.output != output
            &&& taken.to_multiset().add(left.to_multiset()) =~= list.to_multiset()
        }),
    decreases list.len() - from,
{
    if from < list.len() {
        if list[from].info.output == output {
            let shorter = list.update(from, list.last()).drop_last();
            captures_are_parted(shorter, output, from);
            let (taken, left) = taken_from(shorter, output, from);
            let all = seq![list[from]] + taken;
            assert(all =~= taken.insert(0, list[from]));
            let x = list[from];
            let others = list.remove(from);
            vstd::seq_lib::to_multiset_insert(taken, 0, x);
            vstd::seq_lib::to_multiset_remove(list, from);
            vstd::seq_lib::to_multiset_contains(list, x);
            if from == list.len() - 1 {
                assert(shorter =~= others);
            } else {
                let rest = others.drop_last();
                assert(others =~= rest.push(list.last()));
                assert(shorter =~= rest.insert(from, list.last()));
                vstd::seq_lib::to_multiset_build(rest, list.last());
                vstd::seq_lib::to_multiset_insert(rest, from, list.last());
            }
            assert(list.contains(x));
            assert(all.to_multiset() == taken.to_multiset().insert(x));
            assert(shorter.to_multiset() == list.to_multiset().remove(x));
            assert(taken.to_multiset().add(left.to_multiset()) == shorter.to_multiset());
            assert(list.to_multiset().remove(x).insert(x) =~= list.to_multiset());
            assert(taken.to_multiset().insert(x).add(left.to_multiset())
                =~= taken.to_multiset().add(left.to_multiset()).insert(x));
        } else {
            captures_are_parted(list, output, from + 1);
        }
    } else {
        let none = Seq::<Screencopy>::empty();
        assert forall|x: Screencopy| none.to_multiset().count(x) == 0 by {
            vstd::seq_lib::to_multiset_contains(none, x);
        }
        assert(none.to_multiset().add(list.to_multiset()) =~= list.to_multiset());
    }
}

/// What is kept of the captures of a whole output.
#[derive(Clone, Copy, Debug, PartialEq, Eq, Structural)]
pub struct CaptureState {
    /// The size of the picture that is kept, if there is one.
    pub texture: Option<Size>,
    /// How many captures old it is; only what has changed since is drawn.
    pub age: usize,
    pub last_paint_cursors: bool,
}

/// Whether a capture is of the whole output, so that something is kept.
pub fn is_persistent(buffer_size: Size, output_size: Size) -> (r: bool)
    ensures
        r == (buffer_size == output_size),
{
    buffer_size.w == output_size.w && buffer_size.h == output_size.h
}

impl CaptureState {
    /// Nothing is kept yet.
    pub fn new(paint_cursors: bool) -> (r: CaptureState)
        ensures
            r == (CaptureState { texture: None, age: 0, last_paint_cursors: paint_cursors }),
    {
        CaptureState { texture: None, age: 0, last_paint_cursors: paint_cursors }
    }

    /// Takes whether the next capture has the cursor in it. A change makes
    /// what is kept useless.
    pub fn set_paint_cursors(&mut self, paint_cursors: bool)
        ensures
            *final(self) == if old(self).last_paint_cursors != paint_cursors {
                CaptureState { age: 0, last_paint_cursors: paint_cursors, ..*old(self) }
            } else {
                *old(self)
            },
    {
        if self.last_paint_cursors != paint_cursors {
            self.age = 0;
            self.last_paint_cursors = paint_cursors;
        }
    }

    /// Takes the size of the next capture. Returns whether a new picture is
    /// needed.
    pub fn fit(&mut self, size: Size) -> (r: bool)
        ensures
            r == (old(self).texture != Some(size)),
            *final(self) == if r {
                CaptureState { texture: Some(size), age: 0, ..*old(self) }
            } else {
                *old(self)
            },
    {
        let kept = match self.texture {
            Some(t) => t.w == size.w && t.h == size.h,
            None => false,
        };
        if kept {
            return false;
        }
        self.texture = Some(size);
        self.age = 0;
        true
    }

    /// Takes a capture that was drawn.
    pub fn drawn(&mut self)
        requires
            old(self).age < usize::MAX,
        ensures
            *final(self) == (CaptureState { age: (old(self).age + 1) as usize, ..*old(self) }),
    {
        self.age += 1;
    }
}

/// The pieces of a frame that are in a capture, among the first `n`: all, or
/// all but the cursor.
pub open spec fn captured(is_cursor: Seq<bool>, paint_cursors: bool, n: nat) -> Seq<usize>
    decreases n,
{
    if n == 0 {
        seq![]
    } else {
        let before = captured(is_cursor, paint_cursors, (n - 1) as nat);
        if paint_cursors || !is_cursor[n - 1] {
            before.push((n - 1) as usize)
        } else {
            before
        }
    }
}

/// The places of the pieces of a frame that are in a capture.
pub fn captured_elements(is_cursor: &Vec<bool>, paint_cursors: bool) -> (r: Vec<usize>)
    ensures
        r@ == captured(is_cursor@, paint_cursors, is_cursor@.len()),
{
    let mut list: Vec<usize> = Vec::new();
    let mut i: usize = 0;
    while i < is_cursor.len()
        invariant
            i <= is_cursor@.len(),
            list@ == captured(is_cursor@, paint_cursors, i as nat),
        decreases is_cursor.len() - i,
    {
        if paint_cursors || !is_cursor[i] {
            list.push(i);
        }
        i += 1;
    }
    list
}

/// The key under which captures of an output are kept.
pub fn capture_key(protocol: &str, output_name: &str) -> (r: String)
    ensures
        r@ == protocol@ + ":"@ + output_name@,
{
    join3(protocol, ":", output_name)
}

} // verus!
