//! Runtime decisions of a generated dispatcher.
//!
//! The synthesized dispatcher holds one optional child widget per variant,
//! one optional default child, and the discriminant it last observed during
//! a lifecycle pass. Which child a lifecycle call reaches is a pure function
//! of that state and of the aggregate value's current variant; this module
//! states and proves those decisions over a model that records, per variant,
//! whether a child is installed. Variants are identified by their position
//! in the declaration.

use vstd::prelude::*;

verus! {

/// What the update pass does: forward to the current variant's child, do
/// nothing because that variant has no child, or tell the host that the
/// children changed because the variant itself changed.
pub enum UpdateDecision {
    Forward(usize),
    Skip,
    ChildrenChanged,
}

/// The dispatcher's mutable state: which variants have a child installed,
/// whether a default child is installed, and the last observed discriminant.
pub struct MatcherState {
    pub children: Vec<bool>,
    pub has_default: bool,
    pub last_seen: Option<usize>,
}

impl MatcherState {
    /// A fresh dispatcher for `n` variants: every slot empty, no default,
    /// no variant observed yet.
    pub fn new(n: usize) -> (r: MatcherState)
        ensures
            r.children@.len() == n,
            forall|i: int| 0 <= i < n ==> !r.children@[i],
            !r.has_default,
            r.last_seen is None,
    {
        let mut children: Vec<bool> = Vec::new();
        let mut i: usize = 0;
        while i < n
            invariant
                i <= n,
                children@.len() == i,
                forall|j: int| 0 <= j < i ==> !children@[j],
            decreases n - i,
        {
            children.push(false);
            i += 1;
        }
        MatcherState { children, has_default: false, last_seen: Option::None }
    }

    /// Installs the child for variant `i`; the builder setter for that
    /// variant does exactly this.
    pub fn with_child(self, i: usize) -> (r: MatcherState)
        requires
            i < self.children@.len(),
        ensures
            r.children@ == self.children@.update(i as int, true),
            r.has_default == self.has_default,
            r.last_seen == self.last_seen,
    {
        let mut children = self.children;
        children.set(i, true);
        MatcherState { children, has_default: self.has_default, last_seen: self.last_seen }
    }

    /// Installs the default child; the `default` setter and its
    /// empty-placeholder convenience form both do this. The default child
    /// only suppresses the authoring-time warnings: no lifecycle call is
    /// routed to it.
    pub fn with_default(self) -> (r: MatcherState)
        ensures
            r.children@ == self.children@,
            r.has_default,
            r.last_seen == self.last_seen,
    {
        MatcherState { children: self.children, has_default: true, last_seen: self.last_seen }
    }

    /// Where an event goes: to the current variant's child only when that
    /// variant was already observed in a lifecycle pass and its child is
    /// installed; otherwise nowhere.
    pub open spec fn spec_route_event(self, current: usize) -> Option<usize> {
        if self.last_seen == Option::Some(current) && current < self.children@.len()
            && self.children@[current as int] {
            Option::Some(current)
        } else {
            Option::None
        }
    }

    /// Decides event routing, as [`Self::spec_route_event`] prescribes.
    pub fn route_event(&self, current: usize) -> (r: Option<usize>)
        requires
            current < self.children@.len(),
        ensures
            r == self.spec_route_event(current),
    {
        let guard = match self.last_seen {
            Option::Some(v) => v == current,
            Option::None => false,
        };
        if guard && self.children[current] {
            Option::Some(current)
        } else {
            Option::None
        }
    }

    /// True of a variant that would warn on an "added to tree" pass: it has
    /// neither its own child nor a default to fall back on.
    pub open spec fn spec_lacks_child(children: Seq<bool>, has_default: bool, i: int) -> bool {
        !children[i] && !has_default
    }

    /// The variants among the first `n` that lack both a specific and a
    /// default child, in declaration order.
    pub open spec fn spec_warned_upto(children: Seq<bool>, has_default: bool, n: int) -> Seq<usize>
        decreases n,
    {
        if n <= 0 {
            Seq::empty()
        } else {
            Self::spec_warned_upto(children, has_default, n - 1) + (if MatcherState::spec_lacks_child(
                children,
                has_default,
                n - 1,
            ) {
                seq![(n - 1) as usize]
            } else {
                Seq::empty()
            })
        }
    }

    /// Where a read-only pass over the current variant goes: to that
    /// variant's child when one is installed, else nowhere.
    pub open spec fn spec_route_current(self, current: usize) -> Option<usize> {
        if current < self.children@.len() && self.children@[current as int] {
            Option::Some(current)
        } else {
            Option::None
        }
    }

    /// A lifecycle pass: unconditionally records the current discriminant —
    /// this is the only place it is refreshed — and forwards to the current
    /// variant's child if installed. On an "added to tree" pass it returns
    /// the variants to warn about: exactly those lacking both a specific
    /// and a default child.
    pub fn on_lifecycle(&mut self, current: usize, widget_added: bool) -> (r: (
        Vec<usize>,
        Option<usize>,
    ))
        requires
            current < old(self).children@.len(),
        ensures
            final(self).children@ == old(self).children@,
            final(self).has_default == old(self).has_default,
            final(self).last_seen == Option::Some(current),
            r.0@ == if widget_added {
                MatcherState::spec_warned_upto(
                    old(self).children@,
                    old(self).has_default,
                    old(self).children@.len() as int,
                )
            } else {
                Seq::<usize>::empty()
            },
            r.1 == old(self).spec_route_current(current),
    {
        self.last_seen = Option::Some(current);
        let mut warned: Vec<usize> = Vec::new();
        if widget_added {
            let n = self.children.len();
            let mut i: usize = 0;
            while i < n
                invariant
                    i <= n,
                    n == self.children@.len(),
                    warned@ == MatcherState::spec_warned_upto(
                        self.children@,
                        self.has_default,
                        i as int,
                    ),
                decreases n - i,
            {
                if !self.children[i] && !self.has_default {
                    warned.push(i);
                }
                i += 1;
            }
        }
        let target = if self.children[current] {
            Option::Some(current)
        } else {
            Option::None
        };
        (warned, target)
    }

    /// What the update pass decides: when old and new values hold the same
    /// variant, forward to that variant's child (or do nothing when it has
    /// none); when the variant changed, the host must be told the children
    /// changed, and no per-variant update fires.
    pub open spec fn spec_route_update(self, old_variant: usize, new_variant: usize)
        -> UpdateDecision {
        if old_variant != new_variant {
            UpdateDecision::ChildrenChanged
        } else if new_variant < self.children@.len() && self.children@[new_variant as int] {
            UpdateDecision::Forward(new_variant)
        } else {
            UpdateDecision::Skip
        }
    }

    /// Decides update routing, as [`Self::spec_route_update`] prescribes.
    pub fn route_update(&self, old_variant: usize, new_variant: usize) -> (r: UpdateDecision)
        requires
            new_variant < self.children@.len(),
        ensures
            r == self.spec_route_update(old_variant, new_variant),
    {
        if old_variant != new_variant {
            UpdateDecision::ChildrenChanged
        } else if self.children[new_variant] {
            UpdateDecision::Forward(new_variant)
        } else {
            UpdateDecision::Skip
        }
    }

    /// Decides layout routing: the current variant's child if installed;
    /// `None` means the dispatcher reports the minimal size the host's
    /// constraints allow.
    pub fn route_layout(&self, current: usize) -> (r: Option<usize>)
        requires
            current < self.children@.len(),
        ensures
            r == self.spec_route_current(current),
    {
        if self.children[current] {
            Option::Some(current)
        } else {
            Option::None
        }
    }

    /// Decides paint routing: the current variant's child if installed;
    /// `None` means the paint pass does nothing.
    pub fn route_paint(&self, current: usize) -> (r: Option<usize>)
        requires
            current < self.children@.len(),
        ensures
            r == self.spec_route_current(current),
    {
        if self.children[current] {
            Option::Some(current)
        } else {
            Option::None
        }
    }
}

/// Event-guard law: an event arriving while the recorded discriminant does
/// not match the value's current variant reaches no child at all.
pub proof fn lemma_event_guard_blocks(m: MatcherState, current: usize)
    requires
        m.last_seen != Option::Some(current),
    ensures
        m.spec_route_event(current) is None,
{
}

/// Update law, unchanged variant: the decision is never a re-mount; it
/// forwards to the variant's child exactly when one is installed.
pub proof fn lemma_update_same_variant(m: MatcherState, v: usize)
    requires
        v < m.children@.len(),
    ensures
        m.spec_route_update(v, v) != UpdateDecision::ChildrenChanged,
        m.children@[v as int] ==> m.spec_route_update(v, v) == UpdateDecision::Forward(v),
        !m.children@[v as int] ==> m.spec_route_update(v, v) == UpdateDecision::Skip,
{
}

/// Update law, changed variant: no per-variant update fires; the host is
/// told that the children changed.
pub proof fn lemma_update_changed_variant(m: MatcherState, old_variant: usize, new_variant: usize)
    requires
        old_variant != new_variant,
    ensures
        m.spec_route_update(old_variant, new_variant) == UpdateDecision::ChildrenChanged,
{
}

/// Warning law: an "added to tree" pass warns about a variant if and only
/// if it lacks both a specific and a default child, and warns about it only
/// once — the warned list is strictly increasing.
pub proof fn lemma_warned_exact(children: Seq<bool>, has_default: bool, n: int)
    requires
        0 <= n <= children.len(),
        n <= usize::MAX,
    ensures
        forall|v: usize|
            #![trigger MatcherState::spec_warned_upto(children, has_default, n).contains(v)]
            MatcherState::spec_warned_upto(children, has_default, n).contains(v) <==> (v < n
                && MatcherState::spec_lacks_child(children, has_default, v as int)),
        forall|j: int, k: int|
            0 <= j < k < MatcherState::spec_warned_upto(children, has_default, n).len()
                ==> MatcherState::spec_warned_upto(children, has_default, n)[j]
                < MatcherState::spec_warned_upto(children, has_default, n)[k],
    decreases n,
{
    if n > 0 {
        lemma_warned_exact(children, has_default, n - 1);
        let prev = MatcherState::spec_warned_upto(children, has_default, n - 1);
        let whole = MatcherState::spec_warned_upto(children, has_default, n);
        if MatcherState::spec_lacks_child(children, has_default, n - 1) {
            assert(whole == prev + seq![(n - 1) as usize]);
            assert forall|v: usize| whole.contains(v) implies (v < n
                && MatcherState::spec_lacks_child(children, has_default, v as int)) by {
                let j = choose|j: int| 0 <= j < whole.len() && whole[j] == v;
                if j < prev.len() {
                    assert(prev[j] == v);
                    assert(prev.contains(v));
                } else {
                    assert(whole[j] == (n - 1) as usize);
                }
            }
            assert forall|v: usize|
                (v < n && MatcherState::spec_lacks_child(children, has_default, v as int))
                implies whole.contains(v) by {
                if v < n - 1 {
                    assert(prev.contains(v));
                    let j = choose|j: int| 0 <= j < prev.len() && prev[j] == v;
                    assert(whole[j] == v);
                } else {
                    assert(v == (n - 1) as usize);
                    assert(whole[whole.len() - 1] == v);
                }
            }
            assert forall|j: int, k: int| 0 <= j < k < whole.len() implies whole[j] < whole[k] by {
                if k < prev.len() {
                } else {
                    assert(k == prev.len());
                    assert(whole[k] == (n - 1) as usize);
                    assert(prev[j] == whole[j]);
                    assert(prev.contains(prev[j]));
                    assert(prev[j] < n - 1);
                }
            }
        } else {
            assert(whole =~= prev);
            assert forall|v: usize| whole.contains(v) implies (v < n
                && MatcherState::spec_lacks_child(children, has_default, v as int)) by {
                assert(prev.contains(v));
            }
            assert forall|v: usize|
                (v < n && MatcherState::spec_lacks_child(children, has_default, v as int))
                implies whole.contains(v) by {
                assert(v != (n - 1) as usize);
                assert(v < n - 1);
                assert(prev.contains(v));
            }
        }
    }
}

} // verus!
