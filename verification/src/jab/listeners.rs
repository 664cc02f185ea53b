//! The registry of event listeners: which listener hears which event, and when the bridge's
//! native callback for a kind of event has to be installed.
use vstd::prelude::*;

verus! {

/// The kinds of events a listener can be added for.
#[derive(Debug, Clone, Copy, PartialEq, Eq, Structural)]
pub enum EventKind {
    CaretUpdate,
    FocusGained,
    MouseClicked,
    MouseEntered,
    MouseExited,
    MousePressed,
    MouseReleased,
    MenuCanceled,
    MenuDeselected,
    MenuSelected,
    PopupMenuCanceled,
    PopupMenuWillBecomeInvisible,
    PopupMenuWillBecomeVisible,
    PropertySelectionChange,
    PropertyTextChange,
    PropertyVisibleDataChange,
    PropertyChange,
    PropertyNameChange,
    PropertyDescriptionChange,
    PropertyStateChange,
    PropertyValueChange,
    PropertyCaretChange,
    PropertyChildChange,
    PropertyActiveDescendentChange,
    PropertyTableModelChange,
    JavaShutdown,
}

/// The positions, in registration order, of the listeners of `kind` among `listeners`.
pub open spec fn indices_of(listeners: Seq<EventKind>, kind: EventKind) -> Seq<usize>
    decreases listeners.len(),
{
    if listeners.len() == 0 {
        Seq::empty()
    } else {
        let before = indices_of(listeners.drop_last(), kind);
        if listeners.last() == kind {
            before.push((listeners.len() - 1) as usize)
        } else {
            before
        }
    }
}

/// The listeners added so far, by kind and in the order they were added, and the kinds whose
/// native callback has been installed.
pub struct ListenerRegistry {
    listeners: Vec<EventKind>,
    hooked: Vec<EventKind>,
}

impl ListenerRegistry {
    /// The kinds of the listeners, in the order they were added.
    pub closed spec fn listeners(&self) -> Seq<EventKind> {
        self.listeners@
    }

    /// The kinds whose native callback has been installed.
    pub closed spec fn hooked(&self) -> Set<EventKind> {
        self.hooked@.to_set()
    }

    /// A registry with no listener and no installed callback.
    pub fn new() -> (registry: Self)
        ensures
            registry.listeners() == Seq::<EventKind>::empty(),
            registry.hooked() == Set::<EventKind>::empty(),
    {
        let registry = ListenerRegistry { listeners: Vec::new(), hooked: Vec::new() };
        assert(registry.hooked@.to_set() =~= Set::<EventKind>::empty());
        registry
    }

    /// Adds a listener of `kind`. Returns whether the native callback for `kind` has to be
    /// installed now: only the first time a listener of that kind is added, removals
    /// notwithstanding.
    pub fn add(&mut self, kind: EventKind) -> (install: bool)
        ensures
            final(self).listeners() == old(self).listeners().push(kind),
            install == !old(self).hooked().contains(kind),
            final(self).hooked() == old(self).hooked().insert(kind),
    {
        self.listeners.push(kind);
        let mut k: usize = 0;
        let n = self.hooked.len();
        while k < n
            invariant
                n == self.hooked@.len(),
                k <= n,
                self.listeners@ == old(self).listeners@.push(kind),
                self.hooked@ == old(self).hooked@,
                forall|j: int| 0 <= j < k ==> self.hooked@[j] != kind,
            decreases n - k,
        {
            if self.hooked[k] == kind {
                assert(self.hooked@.to_set().contains(kind)) by {
                    assert(self.hooked@.contains(kind));
                }
                assert(self.hooked@.to_set().insert(kind) =~= self.hooked@.to_set());
                return false;
            }
            k = k + 1;
        }
        let ghost before = self.hooked@;
        assert(!before.contains(kind));
        self.hooked.push(kind);
        assert(self.hooked@.to_set() =~= before.to_set().insert(kind)) by {
            assert forall|e: EventKind| self.hooked@.contains(e) <==> (before.contains(e) || e == kind) by {
                if self.hooked@.contains(e) {
                    let j = choose|j: int| 0 <= j < self.hooked@.len() && self.hooked@[j] == e;
                    if j < before.len() {
                        assert(before[j] == e);
                    }
                }
                if before.contains(e) {
                    let j = choose|j: int| 0 <= j < before.len() && before[j] == e;
                    assert(self.hooked@[j] == e);
                }
                if e == kind {
                    assert(self.hooked@[before.len() as int] == e);
                }
            }
        }
        true
    }

    /// Removes every listener. Installed callbacks stay installed.
    pub fn remove_all(&mut self)
        ensures
            final(self).listeners() == Seq::<EventKind>::empty(),
            final(self).hooked() == old(self).hooked(),
    {
        self.listeners.clear();
    }

    /// The number of listeners.
    pub fn len(&self) -> (n: usize)
        ensures
            n == self.listeners().len(),
    {
        self.listeners.len()
    }

    /// The positions of the listeners that hear an event of `kind`, in the order they were added.
    pub fn listeners_for(&self, kind: EventKind) -> (indices: Vec<usize>)
        ensures
            indices@ == indices_of(self.listeners(), kind),
    {
        let mut indices: Vec<usize> = Vec::new();
        let n = self.listeners.len();
        let mut k: usize = 0;
        while k < n
            invariant
                n == self.listeners@.len(),
                k <= n,
                indices@ == indices_of(self.listeners@.take(k as int), kind),
            decreases n - k,
        {
            assert(self.listeners@.take(k + 1).drop_last() =~= self.listeners@.take(k as int));
            if self.listeners[k] == kind {
                indices.push(k);
            }
            k = k + 1;
        }
        assert(self.listeners@.take(n as int) =~= self.listeners@);
        indices
    }
}

/// The listeners of a kind hear events in the order they were added, each exactly once:
/// the positions are increasing, each names a listener of that kind, and every listener of that
/// kind is named.
pub proof fn lemma_indices_of_exact(listeners: Seq<EventKind>, kind: EventKind)
    requires
        listeners.len() <= usize::MAX,
    ensures
        forall|a: int, b: int| 0 <= a < b < indices_of(listeners, kind).len() ==>
            indices_of(listeners, kind)[a] < indices_of(listeners, kind)[b],
        forall|a: int| 0 <= a < indices_of(listeners, kind).len() ==>
            indices_of(listeners, kind)[a] < listeners.len()
            && listeners[indices_of(listeners, kind)[a] as int] == kind,
        forall|i: int| 0 <= i < listeners.len() && listeners[i] == kind ==>
            indices_of(listeners, kind).contains(i as usize),
    decreases listeners.len(),
{
    if listeners.len() > 0 {
        let before = listeners.drop_last();
        lemma_indices_of_exact(before, kind);
        let s = indices_of(listeners, kind);
        let t = indices_of(before, kind);
        if listeners.last() == kind {
            assert(s == t.push((listeners.len() - 1) as usize));
            assert forall|a: int, b: int| 0 <= a < b < s.len() implies s[a] < s[b] by {
                assert(s[a] == t[a]);
                if b == s.len() - 1 {
                    assert(t[a] < before.len());
                    assert(s[b] == before.len());
                } else {
                    assert(s[b] == t[b]);
                }
            }
            assert forall|a: int| 0 <= a < s.len() implies s[a] < listeners.len()
                && listeners[s[a] as int] == kind by {
                if a < t.len() {
                    assert(s[a] == t[a]);
                    assert(before[t[a] as int] == kind);
                    assert(listeners[t[a] as int] == before[t[a] as int]);
                } else {
                    assert(s[a] == (listeners.len() - 1) as usize);
                }
            }
        } else {
            assert(s == t);
            assert forall|a: int| 0 <= a < s.len() implies s[a] < listeners.len()
                && listeners[s[a] as int] == kind by {
                assert(before[t[a] as int] == kind);
            }
        }
        assert forall|i: int| 0 <= i < listeners.len() && listeners[i] == kind implies s.contains(i as usize) by {
            if i < before.len() {
                assert(before[i] == kind);
                assert(t.contains(i as usize));
                let a = choose|a: int| 0 <= a < t.len() && t[a] == i as usize;
                assert(s[a] == i as usize);
            } else {
                assert(s[s.len() - 1] == i as usize);
            }
        }
    }
}

/// A listener added for one kind is heard by that kind's events, after the listeners added
/// before it; the other kinds' events are heard by the same listeners as before.
pub proof fn lemma_add_then_dispatch(listeners: Seq<EventKind>, added: EventKind, kind: EventKind)
    ensures
        indices_of(listeners.push(added), kind) == if added == kind {
            indices_of(listeners, kind).push(listeners.len() as usize)
        } else {
            indices_of(listeners, kind)
        },
{
    assert(listeners.push(added).drop_last() =~= listeners);
}

/// After every listener is removed, no event of any kind is heard.
pub proof fn lemma_remove_all_then_dispatch(kind: EventKind)
    ensures
        indices_of(Seq::<EventKind>::empty(), kind) == Seq::<usize>::empty(),
{
}

/// Once a kind's callback is installed, adding more listeners of that kind never asks to
/// install it again, whatever is added or removed in between.
pub proof fn lemma_install_once(hooked: Set<EventKind>, kind: EventKind, later: EventKind)
    ensures
        hooked.insert(kind).insert(later).contains(kind),
        hooked.insert(kind).contains(kind),
{
}

} // verus!
