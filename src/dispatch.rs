use vstd::prelude::*;

use crate::classify::{KeyEvent, Transition};

verus! {

/// Whether an event goes on to the next handler or stops here.
#[derive(Clone, Copy, Debug, PartialEq, Eq, Structural)]
pub enum Decision {
    Forward,
    Suppress,
}

/// The key codes whose events are swallowed. With none, every event is
/// only observed and passed on.
pub struct Policy {
    pub suppressed: Vec<u64>,
}

impl View for Policy {
    type V = Seq<u64>;

    open spec fn view(&self) -> Seq<u64> {
        self.suppressed@
    }
}

/// The decision for `e` under a policy that suppresses the keys in
/// `suppressed`. An event of unknown transition is always forwarded.
pub open spec fn spec_decide(suppressed: Seq<u64>, e: KeyEvent) -> Decision {
    if e.transition != Transition::Unknown && suppressed.contains(e.key_code) {
        Decision::Suppress
    } else {
        Decision::Forward
    }
}

impl Policy {
    /// A policy that forwards every event.
    pub fn observe_only() -> (r: Policy)
        ensures
            r@ == Seq::<u64>::empty(),
    {
        Policy { suppressed: Vec::new() }
    }

    /// A policy that swallows the events of the keys in `keys`.
    pub fn suppressing(keys: Vec<u64>) -> (r: Policy)
        ensures
            r@ == keys@,
    {
        Policy { suppressed: keys }
    }

    pub fn suppresses(&self, key_code: u64) -> (r: bool)
        ensures
            r == self@.contains(key_code),
    {
        let mut i: usize = 0;
        while i < self.suppressed.len()
            invariant
                i <= self@.len(),
                forall|j: int| 0 <= j < i ==> self@[j] != key_code,
            decreases self@.len() - i,
        {
            if self.suppressed[i] == key_code {
                return true;
            }
            i = i + 1;
        }
        false
    }

    pub fn decide(&self, e: &KeyEvent) -> (r: Decision)
        ensures
            r == spec_decide(self@, *e),
    {
        if e.transition != Transition::Unknown && self.suppresses(e.key_code) {
            Decision::Suppress
        } else {
            Decision::Forward
        }
    }
}

/// An event whose transition is unknown is forwarded, whatever the policy.
pub proof fn lemma_unknown_is_forwarded(suppressed: Seq<u64>, e: KeyEvent)
    requires
        e.transition == Transition::Unknown,
    ensures
        spec_decide(suppressed, e) == Decision::Forward,
{
}

} // verus!
