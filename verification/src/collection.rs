//! The ordered collection of overlays: the authoritative UI-visible state.
//!
//! Order reflects display order. Insertion is append-only; spawn completion
//! mutates the last entry in place; a close request mutates its entry in
//! place; close completion removes the matched entry and preserves the
//! relative order of the rest. All mutation happens on the UI's single
//! serialized mutation loop, so every mutator takes `&mut self` exclusively.

use vstd::prelude::*;
use crate::overlay::Overlay;

verus! {

/// Index of the first entry that is `Closing(id)`, if any.
///
/// A close-completion notification is correlated to its overlay by scanning
/// the entries currently in `Closing` state for the matching identifier.
pub open spec fn find_closing(s: Seq<Overlay>, id: u64) -> Option<int>
    decreases s.len(),
{
    if s.len() == 0 {
        None
    } else if s[0] == Overlay::Closing(id) {
        Some(0)
    } else {
        match find_closing(s.drop_first(), id) {
            Some(i) => Some(i + 1),
            None => None,
        }
    }
}

/// What `find_closing` returns: a found index is the first entry equal to
/// `Closing(id)`, and absence means no entry equals `Closing(id)`.
pub proof fn lemma_find_closing(s: Seq<Overlay>, id: u64)
    ensures
        match find_closing(s, id) {
            Some(i) => 0 <= i < s.len() && s[i] == Overlay::Closing(id)
                && (forall|j: int| 0 <= j < i ==> s[j] != Overlay::Closing(id)),
            None => forall|j: int| 0 <= j < s.len() ==> s[j] != Overlay::Closing(id),
        },
    decreases s.len(),
{
    if s.len() > 0 && s[0] != Overlay::Closing(id) {
        lemma_find_closing(s.drop_first(), id);
        assert(forall|j: int| 1 <= j < s.len() ==> s[j] == s.drop_first()[j - 1]);
    }
}

/// The state the UI renders: an ordered sequence of overlays.
#[derive(Debug, Clone)]
pub struct AppData {
    pub overlays: Vec<Overlay>,
}

impl View for AppData {
    type V = Seq<Overlay>;

    open spec fn view(&self) -> Seq<Overlay> {
        self.overlays@
    }
}

impl AppData {
    /// The initial state: no overlays.
    pub fn new() -> (r: AppData)
        ensures
            r@ == Seq::<Overlay>::empty(),
    {
        AppData { overlays: Vec::new() }
    }

    /// Number of entries currently displayed.
    pub fn len(&self) -> (n: usize)
        ensures
            n == self@.len(),
    {
        self.overlays.len()
    }

    /// The entry at a display position.
    pub fn get(&self, index: usize) -> (ov: Overlay)
        requires
            index < self@.len(),
        ensures
            ov == self@[index as int],
    {
        self.overlays[index]
    }

    /// Record a creation request: a new `Spawning` entry at the tail.
    pub fn append_spawning(&mut self)
        ensures
            final(self)@ == old(self)@.push(Overlay::Spawning),
    {
        self.overlays.push(Overlay::Spawning);
    }

    /// Resolve a spawn completion: the last entry, which must be the
    /// `Spawning` one the completion correlates to, becomes `Live(id)`.
    ///
    /// A last entry that is not `Spawning` indicates a correlation bug; the
    /// caller must detect that case first (see the router) instead of calling
    /// this.
    pub fn promote_last_spawning(&mut self, id: u64)
        requires
            old(self)@.len() > 0,
            old(self)@.last() is Spawning,
        ensures
            final(self)@ == old(self)@.update(old(self)@.len() - 1, Overlay::Live(id)),
    {
        let last: usize = self.overlays.len() - 1;
        let slot = &mut self.overlays[last];
        *slot = Overlay::Live(id);
    }

    /// Record a close request: the `Live(id)` entry at `index` becomes
    /// `Closing(id)` in place, before the runtime is asked to close it, so
    /// the UI immediately reflects the pending close.
    pub fn mark_closing(&mut self, index: usize, id: u64)
        requires
            index < old(self)@.len(),
            old(self)@[index as int] == Overlay::Live(id),
        ensures
            final(self)@ == old(self)@.update(index as int, Overlay::Closing(id)),
    {
        let slot = &mut self.overlays[index];
        *slot = Overlay::Closing(id);
    }

    /// Index of the first `Closing(id)` entry, if any, as `find_closing`
    /// gives it.
    pub fn find_closing_index(&self, id: u64) -> (r: Option<usize>)
        ensures
            match r {
                Some(i) => find_closing(self@, id) == Some(i as int),
                None => find_closing(self@, id) is None,
            },
    {
        proof {
            lemma_find_closing(self@, id);
        }
        let n = self.overlays.len();
        let mut i: usize = 0;
        while i < n
            invariant
                n == self@.len(),
                i <= n,
                forall|j: int| 0 <= j < i ==> self@[j] != Overlay::Closing(id),
            decreases n - i,
        {
            if self.overlays[i] == Overlay::Closing(id) {
                proof {
                    lemma_find_closing_at(self@, id, i as int);
                }
                return Some(i);
            }
            i = i + 1;
        }
        proof {
            lemma_find_closing(self@, id);
        }
        None
    }

    /// Resolve a close completion: remove the first `Closing(id)` entry,
    /// preserving the relative order of the remaining entries.
    ///
    /// An identifier that matches no `Closing` entry indicates a correlation
    /// bug; the caller must detect that case first (see the router) instead
    /// of calling this.
    pub fn remove_by_id(&mut self, id: u64)
        requires
            find_closing(old(self)@, id) is Some,
        ensures
            final(self)@ == old(self)@.remove(find_closing(old(self)@, id)->Some_0),
    {
        proof {
            lemma_find_closing(self@, id);
        }
        let found = self.find_closing_index(id);
        match found {
            Some(i) => {
                self.overlays.remove(i);
            }
            None => {
                proof {
                    assert(false);
                }
            }
        }
    }
}

/// If nothing before `i` is `Closing(id)` and the entry at `i` is, then
/// `find_closing` finds exactly `i`.
proof fn lemma_find_closing_at(s: Seq<Overlay>, id: u64, i: int)
    requires
        0 <= i < s.len(),
        s[i] == Overlay::Closing(id),
        forall|j: int| 0 <= j < i ==> s[j] != Overlay::Closing(id),
    ensures
        find_closing(s, id) == Some(i),
    decreases s.len(),
{
    if i > 0 {
        assert(forall|j: int| 0 <= j < i - 1 ==> s.drop_first()[j] == s[j + 1]);
        lemma_find_closing_at(s.drop_first(), id, i - 1);
    }
}

} // verus!
