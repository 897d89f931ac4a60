//! The tabular value store: bindings from (state, action) to a fixed-point
//! estimate, kept in insertion order so that every lookup is deterministic.

use vstd::laws_eq::obeys_concrete_eq;
use vstd::prelude::*;

verus! {

/// One binding: the estimate for taking `action` in `state`.
pub struct QEntry<S, A> {
    pub state: S,
    pub action: A,
    pub value: i64,
}

/// A value table over structural state and action keys. An absent binding
/// reads as zero; among equal estimates the earliest-inserted binding is
/// preferred, which makes the tie-break reproducible.
pub struct QTable<S, A> {
    pub entries: Vec<QEntry<S, A>>,
}

impl<S, A> View for QTable<S, A> {
    type V = Seq<QEntry<S, A>>;

    open spec fn view(&self) -> Seq<QEntry<S, A>> {
        self.entries@
    }
}

/// Whether `e` is the binding for `(s, a)`.
pub open spec fn entry_matches<S, A>(e: QEntry<S, A>, s: S, a: A) -> bool {
    e.state == s && e.action == a
}

/// The index of the first binding for `(s, a)`, if any.
pub open spec fn q_find<S, A>(t: Seq<QEntry<S, A>>, s: S, a: A) -> Option<int>
    decreases t.len(),
{
    if t.len() == 0 {
        None
    } else if entry_matches(t[0], s, a) {
        Some(0int)
    } else {
        match q_find(t.drop_first(), s, a) {
            Some(i) => Some(i + 1),
            None => None,
        }
    }
}

/// The estimate bound to `(s, a)`, zero when absent.
pub open spec fn q_get<S, A>(t: Seq<QEntry<S, A>>, s: S, a: A) -> int {
    match q_find(t, s, a) {
        Some(i) => t[i].value as int,
        None => 0,
    }
}

/// The table after binding `(s, a)` to `v`: the first existing binding is
/// rewritten in place, or a fresh one goes to the end.
pub open spec fn q_set<S, A>(t: Seq<QEntry<S, A>>, s: S, a: A, v: i64) -> Seq<QEntry<S, A>> {
    match q_find(t, s, a) {
        Some(i) => t.update(i, QEntry { state: t[i].state, action: t[i].action, value: v }),
        None => t.push(QEntry { state: s, action: a, value: v }),
    }
}

/// The best binding for `s`: the earliest one whose estimate no later
/// binding for `s` exceeds, as an (action, estimate) pair.
pub open spec fn best_pair<S, A>(t: Seq<QEntry<S, A>>, s: S) -> Option<(A, i64)>
    decreases t.len(),
{
    if t.len() == 0 {
        None
    } else {
        let rest = best_pair(t.drop_first(), s);
        if t[0].state == s {
            match rest {
                None => Some((t[0].action, t[0].value)),
                Some(p) => if t[0].value >= p.1 {
                    Some((t[0].action, t[0].value))
                } else {
                    Some(p)
                },
            }
        } else {
            rest
        }
    }
}

/// The largest estimate bound under `s`, zero when `s` has no bindings.
pub open spec fn max_q<S, A>(t: Seq<QEntry<S, A>>, s: S) -> int {
    match best_pair(t, s) {
        None => 0,
        Some(p) => p.1 as int,
    }
}

/// Structural equality, executed: under `obeys_concrete_eq`, what `==`
/// returns is what it means in contracts.
pub(crate) fn keys_equal<T: PartialEq>(x: &T, y: &T) -> (r: bool)
    requires
        obeys_concrete_eq::<T>(),
    ensures
        r == (*x == *y),
{
    let r = x == y;
    proof {
        reveal(vstd::laws_eq::obeys_concrete_eq);
    }
    r
}

impl<S: PartialEq, A: PartialEq> QTable<S, A> {
    /// An empty table.
    pub fn new() -> (t: Self)
        ensures
            t@.len() == 0,
    {
        QTable { entries: Vec::new() }
    }

    /// The index of the first binding for `(s, a)`, if any.
    fn find(&self, s: &S, a: &A) -> (r: Option<usize>)
        requires
            obeys_concrete_eq::<S>(),
            obeys_concrete_eq::<A>(),
        ensures
            match r {
                Some(i) => i < self@.len() && q_find(self@, *s, *a) == Some(i as int),
                None => q_find(self@, *s, *a) is None,
            },
    {
        let mut i = self.entries.len();
        let mut found: Option<usize> = None;
        while i > 0
            invariant
                obeys_concrete_eq::<S>(),
                obeys_concrete_eq::<A>(),
                i <= self@.len(),
                match found {
                    Some(k) => i <= k < self@.len() && q_find(self@.skip(i as int), *s, *a)
                        == Some(k - i),
                    None => q_find(self@.skip(i as int), *s, *a) is None,
                },
            decreases i,
        {
            i = i - 1;
            let e = &self.entries[i];
            let matched = keys_equal(&e.state, s) && keys_equal(&e.action, a);
            if matched {
                found = Some(i);
            }
            proof {
                let t = self@.skip(i as int);
                assert(t.drop_first() =~= self@.skip(i as int + 1));
                assert(t[0] == self@[i as int]);
            }
        }
        proof {
            assert(self@.skip(0) =~= self@);
        }
        found
    }

    /// The estimate for `(s, a)`, zero when the binding is absent.
    pub fn get(&self, s: &S, a: &A) -> (v: i64)
        requires
            obeys_concrete_eq::<S>(),
            obeys_concrete_eq::<A>(),
        ensures
            v == q_get(self@, *s, *a),
    {
        match self.find(s, a) {
            Some(i) => self.entries[i].value,
            None => 0,
        }
    }

    /// Binds `(s, a)` to `v`, exactly as [`q_set`] states it.
    pub fn set(&mut self, s: S, a: A, v: i64)
        requires
            obeys_concrete_eq::<S>(),
            obeys_concrete_eq::<A>(),
        ensures
            final(self)@ == q_set(old(self)@, s, a, v),
    {
        match self.find(&s, &a) {
            Some(i) => {
                let e = &mut self.entries[i];
                e.value = v;
            },
            None => {
                self.entries.push(QEntry { state: s, action: a, value: v });
            },
        }
    }

    /// The largest estimate bound under `s`, zero when `s` has none.
    pub fn max_for(&self, s: &S) -> (m: i64)
        requires
            obeys_concrete_eq::<S>(),
        ensures
            m == max_q(self@, *s),
    {
        let mut i = self.entries.len();
        let mut acc: Option<i64> = None;
        while i > 0
            invariant
                obeys_concrete_eq::<S>(),
                i <= self@.len(),
                match acc {
                    Some(v) => best_pair(self@.skip(i as int), *s) matches Some(p) && p.1 == v,
                    None => best_pair(self@.skip(i as int), *s) is None,
                },
            decreases i,
        {
            i = i - 1;
            let e = &self.entries[i];
            if keys_equal(&e.state, s) {
                acc = match acc {
                    Some(v) => if e.value >= v {
                        Some(e.value)
                    } else {
                        Some(v)
                    },
                    None => Some(e.value),
                };
            }
            proof {
                let t = self@.skip(i as int);
                assert(t.drop_first() =~= self@.skip(i as int + 1));
                assert(t[0] == self@[i as int]);
            }
        }
        proof {
            assert(self@.skip(0) =~= self@);
        }
        match acc {
            Some(v) => v,
            None => 0,
        }
    }

    /// The action of the best binding for `s`, if `s` has any: the
    /// earliest-inserted among those with the largest estimate.
    pub fn best_for(&self, s: &S) -> (r: Option<&A>)
        requires
            obeys_concrete_eq::<S>(),
        ensures
            match r {
                Some(a) => best_pair(self@, *s) matches Some(p) && *a == p.0,
                None => best_pair(self@, *s) is None,
            },
    {
        let mut i = self.entries.len();
        let mut bi: Option<usize> = None;
        while i > 0
            invariant
                obeys_concrete_eq::<S>(),
                i <= self@.len(),
                match bi {
                    Some(j) => {
                        &&& i <= j < self@.len()
                        &&& best_pair(self@.skip(i as int), *s) matches Some(p)
                            && self@[j as int].action == p.0 && self@[j as int].value == p.1
                    },
                    None => best_pair(self@.skip(i as int), *s) is None,
                },
            decreases i,
        {
            i = i - 1;
            let e = &self.entries[i];
            if keys_equal(&e.state, s) {
                bi = match bi {
                    Some(j) => if e.value >= self.entries[j].value {
                        Some(i)
                    } else {
                        Some(j)
                    },
                    None => Some(i),
                };
            }
            proof {
                let t = self@.skip(i as int);
                assert(t.drop_first() =~= self@.skip(i as int + 1));
                assert(t[0] == self@[i as int]);
            }
        }
        proof {
            assert(self@.skip(0) =~= self@);
        }
        match bi {
            Some(j) => Some(&self.entries[j].action),
            None => None,
        }
    }
}

} // verus!
