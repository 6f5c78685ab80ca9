//! The view registry: an ordered collection of views, one per mapped
//! toplevel surface, in map order.  Insertion order establishes the default
//! focus fallback order, and no two entries ever share a shell identity.

use vstd::prelude::*;
use vstd::view::View as _;
use crate::shell::Shell;
use crate::view::View;

verus! {

/// Ordered sequence of views; index 0 is the oldest mapped view.
#[derive(Clone, Debug, PartialEq, Eq)]
pub struct ViewRegistry {
    pub entries: Vec<View>,
}

impl ViewRegistry {
    /// Whether some entry carries the identity `shell`.
    pub open spec fn contains_shell(self, shell: Shell) -> bool {
        exists|i: int| 0 <= i < self.entries@.len() && (#[trigger] self.entries@[i]).shell == shell
    }

    /// No two entries share a shell identity.
    pub open spec fn unique_shells(self) -> bool {
        forall|i: int, j: int|
            0 <= i < j < self.entries@.len() ==> (#[trigger] self.entries@[i]).shell != (
            #[trigger] self.entries@[j]).shell
    }

    pub fn new() -> (r: ViewRegistry)
        ensures
            r.entries@ == Seq::<View>::empty(),
    {
        ViewRegistry { entries: Vec::new() }
    }

    pub fn len(&self) -> (n: usize)
        ensures
            n == self.entries@.len(),
    {
        self.entries.len()
    }

    /// Index of the first entry with identity `shell`, by linear scan; the
    /// expected view counts are small (tens, not thousands), so O(n) is
    /// acceptable.
    pub fn index_of(&self, shell: Shell) -> (r: Option<usize>)
        ensures
            match r {
                Some(i) => {
                    &&& i < self.entries@.len()
                    &&& self.entries@[i as int].shell == shell
                    &&& forall|j: int| 0 <= j < i ==> (#[trigger] self.entries@[j]).shell != shell
                },
                None => !self.contains_shell(shell),
            },
    {
        let mut i: usize = 0;
        while i < self.entries.len()
            invariant
                i <= self.entries@.len(),
                forall|j: int| 0 <= j < i ==> (#[trigger] self.entries@[j]).shell != shell,
            decreases self.entries@.len() - i,
        {
            if self.entries[i].shell == shell {
                return Some(i);
            }
            i = i + 1;
        }
        None
    }

    /// The entry with identity `shell`, if one is present.
    pub fn find_by_shell(&self, shell: Shell) -> (r: Option<&View>)
        ensures
            (r is Some) == self.contains_shell(shell),
            (r matches Some(v) ==> v.shell == shell && exists|i: int|
                0 <= i < self.entries@.len() && *v == self.entries@[i]),
    {
        match self.index_of(shell) {
            Some(i) => Some(&self.entries[i]),
            None => None,
        }
    }

    /// Appends `view` unless a view with the same shell identity is already
    /// present; a duplicate insertion is a no-op and reports failure.
    pub fn insert(&mut self, view: View) -> (inserted: bool)
        ensures
            inserted == !old(self).contains_shell(view.shell),
            inserted ==> final(self).entries@ == old(self).entries@.push(view),
            !inserted ==> *final(self) == *old(self),
    {
        match self.index_of(view.shell) {
            Some(_) => false,
            None => {
                self.entries.push(view);
                true
            },
        }
    }

    /// Removes every entry with identity `shell`; removal of an absent
    /// identity is a no-op, since destroy callbacks may race with other
    /// removal paths.
    pub fn remove_by_shell(&mut self, shell: Shell)
        ensures
            final(self).entries@ == old(self).entries@.filter(|v: View| v.shell != shell),
    {
        let ghost pred = |v: View| v.shell != shell;
        let mut kept: Vec<View> = Vec::new();
        let mut i: usize = 0;
        proof {
            assert(old(self).entries@.subrange(0, 0) =~= Seq::<View>::empty());
            reveal(Seq::filter);
        }
        while i < self.entries.len()
            invariant
                i <= self.entries@.len(),
                self.entries@ == old(self).entries@,
                kept@ == old(self).entries@.subrange(0, i as int).filter(pred),
                pred == (|v: View| v.shell != shell),
            decreases self.entries@.len() - i,
        {
            let v = self.entries[i];
            proof {
                let sub = old(self).entries@.subrange(0, i as int);
                assert(old(self).entries@.subrange(0, i as int + 1) =~= sub.push(v));
                reveal(Seq::filter);
                assert(sub.push(v).drop_last() =~= sub);
            }
            if v.shell != shell {
                kept.push(v);
            }
            i = i + 1;
        }
        proof {
            assert(old(self).entries@.subrange(0, old(self).entries@.len() as int) =~= old(
                self,
            ).entries@);
        }
        self.entries = kept;
    }

    /// The oldest mapped view, used as the focus fallback after a removal.
    pub fn first(&self) -> (r: Option<&View>)
        ensures
            match r {
                Some(v) => self.entries@.len() > 0 && *v == self.entries@[0],
                None => self.entries@.len() == 0,
            },
    {
        if self.entries.len() > 0 {
            Some(&self.entries[0])
        } else {
            None
        }
    }
}

} // verus!
