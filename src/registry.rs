use vstd::prelude::*;

verus! {

/// An interception target: the whole process, or one window by its handle.
#[derive(Clone, Copy, Debug, PartialEq, Eq, Structural)]
pub enum Target {
    ProcessWide,
    Window(isize),
}

/// The next thing to call for an intercepted event, tagged by the kind of
/// handler it is, so that a chain link is always invoked as what it is.
#[derive(Clone, Copy, Debug, PartialEq, Eq, Structural)]
pub enum HandlerRef {
    /// A window procedure, by its address.
    WindowProc(isize),
    /// A hook handle in the OS-maintained hook chain.
    Hook(isize),
    /// The OS default window procedure.
    DefaultProc,
}

/// Why a registry call did not go through.
#[derive(Clone, Copy, Debug, PartialEq, Eq, Structural)]
pub enum RegistryError {
    /// The target already has an original handler recorded.
    DuplicateTarget,
    /// The target has no original handler recorded.
    UnknownTarget,
}

/// What `record` does to a registry whose contents are `m`.
pub open spec fn spec_record(m: Map<isize, HandlerRef>, target: isize, handler: HandlerRef) -> Result<
    Map<isize, HandlerRef>,
    RegistryError,
> {
    if m.contains_key(target) {
        Err(RegistryError::DuplicateTarget)
    } else {
        Ok(m.insert(target, handler))
    }
}

/// What `lookup` returns on a registry whose contents are `m`.
pub open spec fn spec_lookup(m: Map<isize, HandlerRef>, target: isize) -> Result<
    HandlerRef,
    RegistryError,
> {
    if m.contains_key(target) {
        Ok(m[target])
    } else {
        Err(RegistryError::UnknownTarget)
    }
}

/// What `remove` leaves of a registry whose contents are `m`.
pub open spec fn spec_remove(m: Map<isize, HandlerRef>, target: isize) -> Map<isize, HandlerRef> {
    m.remove(target)
}

/// The original handler of each window under interception, in the order in
/// which they were recorded. Keys are unique.
pub struct HandlerRegistry {
    entries: Vec<(isize, HandlerRef)>,
    contents: Ghost<Map<isize, HandlerRef>>,
}

impl View for HandlerRegistry {
    type V = Map<isize, HandlerRef>;

    closed spec fn view(&self) -> Map<isize, HandlerRef> {
        self.contents@
    }
}

impl HandlerRegistry {
    /// The entries in the order of recording.
    pub closed spec fn entries(&self) -> Seq<(isize, HandlerRef)> {
        self.entries@
    }

    pub closed spec fn wf(&self) -> bool {
        &&& forall|i: int, j: int|
            0 <= i < j < self.entries@.len() ==> #[trigger] self.entries@[i].0
                != #[trigger] self.entries@[j].0
        &&& forall|i: int|
            0 <= i < self.entries@.len() ==> self.contents@.contains_key(
                #[trigger] self.entries@[i].0,
            ) && self.contents@[self.entries@[i].0] == self.entries@[i].1
        &&& forall|k: isize|
            #[trigger] self.contents@.contains_key(k) ==> exists|i: int|
                0 <= i < self.entries@.len() && #[trigger] self.entries@[i].0 == k
    }

    /// The entries hold exactly the contents, each key once.
    pub broadcast proof fn lemma_entries_match(&self)
        requires
            self.wf(),
        ensures
            #[trigger] self.entries().len() == self@.len(),
            forall|i: int|
                0 <= i < self.entries().len() ==> self@.contains_key(#[trigger] self.entries()[i].0)
                    && self@[self.entries()[i].0] == self.entries()[i].1,
            forall|i: int, j: int|
                0 <= i < j < self.entries().len() ==> #[trigger] self.entries()[i].0
                    != #[trigger] self.entries()[j].0,
            forall|k: isize|
                #[trigger] self@.contains_key(k) ==> exists|i: int|
                    0 <= i < self.entries().len() && #[trigger] self.entries()[i].0 == k,
    {
        let keys = self.entries@.map_values(|e: (isize, HandlerRef)| e.0);
        assert(keys.no_duplicates()) by {
            assert forall|i: int, j: int| 0 <= i < keys.len() && 0 <= j < keys.len() && i != j
                implies keys[i] != keys[j] by {
                if i < j {
                    assert(self.entries@[i].0 != self.entries@[j].0);
                } else {
                    assert(self.entries@[j].0 != self.entries@[i].0);
                }
            }
        }
        assert(keys.to_set() =~= self@.dom()) by {
            assert forall|k: isize| keys.to_set().contains(k) implies self@.dom().contains(k) by {
                let i = choose|i: int| 0 <= i < keys.len() && keys[i] == k;
                assert(self.entries@[i].0 == k);
            }
            assert forall|k: isize| self@.dom().contains(k) implies keys.to_set().contains(k) by {
                let i = choose|i: int| 0 <= i < self.entries@.len() && self.entries@[i].0 == k;
                assert(keys[i] == k);
            }
        }
        keys.unique_seq_to_set();
    }

    pub fn new() -> (r: HandlerRegistry)
        ensures
            r.wf(),
            r@ == Map::<isize, HandlerRef>::empty(),
            r.entries() == Seq::<(isize, HandlerRef)>::empty(),
    {
        HandlerRegistry { entries: Vec::new(), contents: Ghost(Map::empty()) }
    }

    /// Where `target` stands among the entries, if it has one.
    fn position(&self, target: isize) -> (r: Option<usize>)
        requires
            self.wf(),
        ensures
            match r {
                Some(i) => i < self.entries@.len() && self.entries@[i as int].0 == target,
                None => !self@.contains_key(target),
            },
    {
        let mut i: usize = 0;
        while i < self.entries.len()
            invariant
                self.wf(),
                i <= self.entries@.len(),
                forall|j: int| 0 <= j < i ==> self.entries@[j].0 != target,
            decreases self.entries@.len() - i,
        {
            if self.entries[i].0 == target {
                return Some(i);
            }
            i = i + 1;
        }
        None
    }

    pub fn contains(&self, target: isize) -> (r: bool)
        requires
            self.wf(),
        ensures
            r == self@.contains_key(target),
    {
        self.position(target).is_some()
    }

    pub fn len(&self) -> (r: usize)
        requires
            self.wf(),
        ensures
            r == self@.len(),
    {
        proof {
            self.lemma_entries_match();
        }
        self.entries.len()
    }

    /// Records the original handler of `target`; refuses a target that
    /// already has one.
    pub fn record(&mut self, target: isize, handler: HandlerRef) -> (r: Result<(), RegistryError>)
        requires
            old(self).wf(),
        ensures
            final(self).wf(),
            match spec_record(old(self)@, target, handler) {
                Ok(m) => r is Ok && final(self)@ == m && final(self).entries() == old(
                    self,
                ).entries().push((target, handler)),
                Err(e) => r == Err::<(), RegistryError>(e) && *final(self) == *old(self),
            },
    {
        if self.position(target).is_some() {
            return Err(RegistryError::DuplicateTarget);
        }
        let ghost old_entries = self.entries@;
        self.entries.push((target, handler));
        self.contents = Ghost(self.contents@.insert(target, handler));
        assert forall|k: isize| #[trigger]
            self.contents@.contains_key(k) implies exists|j: int|
            0 <= j < self.entries@.len() && #[trigger] self.entries@[j].0 == k by {
            if k == target {
                assert(self.entries@[old_entries.len() as int].0 == k);
            } else {
                let j = choose|j: int| 0 <= j < old_entries.len() && old_entries[j].0 == k;
                assert(self.entries@[j].0 == k);
            }
        }
        Ok(())
    }

    /// The original handler recorded for `target`.
    pub fn lookup(&self, target: isize) -> (r: Result<HandlerRef, RegistryError>)
        requires
            self.wf(),
        ensures
            r == spec_lookup(self@, target),
    {
        match self.position(target) {
            Some(i) => Ok(self.entries[i].1),
            None => Err(RegistryError::UnknownTarget),
        }
    }

    /// Drops the entry of `target`; a target without one is left as it is.
    pub fn remove(&mut self, target: isize) -> (r: Option<HandlerRef>)
        requires
            old(self).wf(),
        ensures
            final(self).wf(),
            final(self)@ == spec_remove(old(self)@, target),
            r == spec_lookup(old(self)@, target).ok(),
    {
        match self.position(target) {
            Some(i) => {
                let ghost old_entries = self.entries@;
                let e = self.entries.remove(i);
                self.contents = Ghost(self.contents@.remove(target));
                assert forall|k: isize| #[trigger]
                    self.contents@.contains_key(k) implies exists|j: int|
                    0 <= j < self.entries@.len() && #[trigger] self.entries@[j].0 == k by {
                    let j = choose|j: int| 0 <= j < old_entries.len() && old_entries[j].0 == k;
                    if j < i {
                        assert(self.entries@[j].0 == k);
                    } else {
                        assert(self.entries@[j - 1].0 == k);
                    }
                }
                Some(e.1)
            },
            None => {
                assert(self.contents@.remove(target) =~= self.contents@);
                None
            },
        }
    }

    /// Empties the registry and hands back its entries, oldest first.
    pub fn drain(&mut self) -> (r: Vec<(isize, HandlerRef)>)
        requires
            old(self).wf(),
        ensures
            final(self).wf(),
            final(self)@ == Map::<isize, HandlerRef>::empty(),
            final(self).entries() == Seq::<(isize, HandlerRef)>::empty(),
            r@ == old(self).entries(),
    {
        let mut out: Vec<(isize, HandlerRef)> = Vec::new();
        std::mem::swap(&mut out, &mut self.entries);
        self.contents = Ghost(Map::empty());
        out
    }
}

/// Looking a target up right after recording a handler for it gives exactly
/// that handler; any other target keeps what it had.
pub proof fn lemma_lookup_after_record(
    m: Map<isize, HandlerRef>,
    target: isize,
    handler: HandlerRef,
    other: isize,
)
    requires
        !m.contains_key(target),
    ensures
        spec_record(m, target, handler) matches Ok(n) && spec_lookup(n, target) == Ok::<
            HandlerRef,
            RegistryError,
        >(handler) && (other != target ==> spec_lookup(n, other) == spec_lookup(m, other)),
{
}

/// Removing a target a second time changes nothing.
pub proof fn lemma_remove_idempotent(m: Map<isize, HandlerRef>, target: isize)
    ensures
        spec_remove(spec_remove(m, target), target) == spec_remove(m, target),
{
    assert(m.remove(target).remove(target) =~= m.remove(target));
}

} // verus!
