//! The composed bar: one slot per registered feed. Each feed's timer
//! rewrites only its own slot; the displayed line is the ordered
//! concatenation of every slot, each wrapped in its padding.

use vstd::prelude::*;
use crate::segment::Segment;

verus! {

/// `n` spaces.
pub open spec fn spaces(n: nat) -> Seq<char>
    decreases n,
{
    if n == 0 {
        Seq::empty()
    } else {
        spaces((n - 1) as nat).push(' ')
    }
}

/// One slot's contribution to the line: its text between its padding.
pub open spec fn seg_render(text: Seq<char>, pad: nat) -> Seq<char> {
    spaces(pad) + text + spaces(pad)
}

/// The whole line: every slot's rendering, in registration order.
pub open spec fn bar_render(slots: Seq<(Seq<char>, nat)>) -> Seq<char>
    decreases slots.len(),
{
    if slots.len() == 0 {
        Seq::empty()
    } else {
        bar_render(slots.drop_last()) + seg_render(slots.last().0, slots.last().1)
    }
}

/// What a slot list displays.
pub open spec fn slot_views(s: Seq<Segment>) -> Seq<(Seq<char>, nat)> {
    Seq::new(
        s.len(),
        |k: int|
            if 0 <= k < s.len() {
                (s[k].text@, s[k].pad as nat)
            } else {
                (Seq::empty(), 0)
            },
    )
}

/// The bar: the latest rendered segment of every registered feed. Slots are
/// written one at a time; a slow feed rewrites only its own slot.
pub struct Bar {
    pub slots: Vec<Segment>,
}

fn push_spaces(s: &mut String, n: u32)
    ensures
        final(s)@ == old(s)@ + spaces(n as nat),
{
    let mut k: u32 = 0;
    while k < n
        invariant
            0 <= k <= n,
            s@ == old(s)@ + spaces(k as nat),
        decreases n - k,
    {
        s.append(" ");
        proof {
            reveal_strlit(" ");
            assert(old(s)@ + spaces(k as nat) + " "@ =~= old(s)@ + spaces((k + 1) as nat));
        }
        k = k + 1;
    }
}

impl Bar {
    /// An empty bar: no feeds registered yet.
    pub fn new() -> (b: Bar)
        ensures
            b.slots@.len() == 0,
    {
        Bar { slots: Vec::new() }
    }

    /// Registers one more feed at the end of the line.
    pub fn add(&mut self, seg: Segment)
        ensures
            final(self).slots@ == old(self).slots@.push(seg),
    {
        self.slots.push(seg);
    }

    /// One feed's tick: rewrites that feed's slot and no other.
    pub fn set(&mut self, i: usize, seg: Segment)
        requires
            i < old(self).slots@.len(),
        ensures
            final(self).slots@ == old(self).slots@.update(i as int, seg),
    {
        self.slots.set(i, seg);
    }

    /// The displayed line.
    #[verifier::loop_isolation(false)]
    pub fn compose(&self) -> (r: String)
        ensures
            r@ == bar_render(slot_views(self.slots@)),
    {
        let ghost views = slot_views(self.slots@);
        let mut line = String::new();
        let mut i: usize = 0;
        while i < self.slots.len()
            invariant
                0 <= i <= self.slots@.len(),
                line@ == bar_render(views.take(i as int)),
            decreases self.slots@.len() - i,
        {
            let seg = &self.slots[i];
            push_spaces(&mut line, seg.pad);
            line.append(seg.text.as_str());
            push_spaces(&mut line, seg.pad);
            proof {
                assert(views.take(i + 1 as int).drop_last() =~= views.take(i as int));
                assert(views.take(i + 1 as int).last() == views[i as int]);
                assert(line@ =~= bar_render(views.take(i + 1 as int)));
            }
            i = i + 1;
        }
        proof {
            assert(views.take(views.len() as int) =~= views);
        }
        line
    }
}

} // verus!
