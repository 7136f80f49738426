//! The pointer-button event map: binds button codes to shell-command actions.
//! Bindings are kept in insertion order; a later binding for the same code
//! shadows an earlier one, so the last write for a duplicate key wins.
//! Dispatch only resolves the action — launching it, detached from the UI
//! thread, is the caller's business.

use vstd::prelude::*;

verus! {

/// The action bound most recently to `code` in a sequence of bindings, or
/// `None` when no binding carries that code.
pub open spec fn lookup_pairs(s: Seq<(u32, Seq<char>)>, code: u32) -> Option<Seq<char>>
    decreases s.len(),
{
    if s.len() == 0 {
        None
    } else if s.last().0 == code {
        Some(s.last().1)
    } else {
        lookup_pairs(s.drop_last(), code)
    }
}

/// The abstract content of a list of (code, action string) pairs.
pub open spec fn pairs_view(s: Seq<(u32, String)>) -> Seq<(u32, Seq<char>)> {
    s.map_values(|p: (u32, String)| (p.0, p.1@))
}

/// Mapping from pointer-button code to the shell command to run when that
/// button is pressed on the widget.
#[derive(Debug)]
pub struct EventMap {
    entries: Vec<(u32, String)>,
}

impl EventMap {
    /// The bindings, newest last.
    pub closed spec fn bindings(self) -> Seq<(u32, Seq<char>)> {
        pairs_view(self.entries@)
    }

    /// The action currently bound to `code`.
    pub open spec fn spec_lookup(self, code: u32) -> Option<Seq<char>> {
        lookup_pairs(self.bindings(), code)
    }

    /// An empty map: no code is bound.
    pub fn new() -> (m: EventMap)
        ensures
            m.bindings() == Seq::<(u32, Seq<char>)>::empty(),
            forall|code: u32| m.spec_lookup(code) is None,
    {
        let m = EventMap { entries: Vec::new() };
        proof {
            assert(m.bindings() =~= Seq::<(u32, Seq<char>)>::empty());
        }
        m
    }

    /// Binds `code` to `action`; an earlier binding for the same code is
    /// shadowed, every other code keeps its action.
    pub fn insert(&mut self, code: u32, action: String)
        ensures
            final(self).bindings() == old(self).bindings().push((code, action@)),
            final(self).spec_lookup(code) == Some::<Seq<char>>(action@),
            forall|k: u32|
                k != code ==> final(self).spec_lookup(k) == old(self).spec_lookup(k),
    {
        self.entries.push((code, action));
        proof {
            assert(self.bindings() =~= old(self).bindings().push((code, action@)));
            assert(self.bindings().drop_last() =~= old(self).bindings());
        }
    }

    /// Resolves the action for a pressed button. An unknown code is no
    /// error: the result is simply `None` and nothing else happens.
    pub fn dispatch(&self, code: u32) -> (r: Option<String>)
        ensures
            match r {
                Some(action) => self.spec_lookup(code) == Some::<Seq<char>>(action@),
                None => self.spec_lookup(code) is None,
            },
    {
        let n = self.entries.len();
        let mut i = n;
        proof {
            assert(self.bindings().take(n as int) =~= self.bindings());
        }
        while i > 0
            invariant
                i <= n,
                n == self.entries.len(),
                lookup_pairs(self.bindings(), code) == lookup_pairs(
                    self.bindings().take(i as int),
                    code,
                ),
            decreases i,
        {
            i = i - 1;
            proof {
                assert(self.bindings().take(i + 1).last() == self.bindings()[i as int]);
                assert(self.bindings().take(i + 1).drop_last() =~= self.bindings().take(i as int));
            }
            if self.entries[i].0 == code {
                return Some(self.entries[i].1.clone());
            }
        }
        proof {
            assert(self.bindings().take(0) =~= Seq::<(u32, Seq<char>)>::empty());
        }
        None
    }

    /// Builds a map from raw (code, command) pairs, in order, so that for a
    /// duplicate code the last pair wins.
    pub fn from_pairs(pairs: &Vec<(u32, String)>) -> (m: EventMap)
        ensures
            m.bindings() == pairs_view(pairs@),
            forall|code: u32| m.spec_lookup(code) == lookup_pairs(pairs_view(pairs@), code),
    {
        let n = pairs.len();
        let mut m = EventMap::new();
        let mut i: usize = 0;
        while i < n
            invariant
                i <= n,
                n == pairs.len(),
                m.bindings() == pairs_view(pairs@.take(i as int)),
            decreases n - i,
        {
            let code = pairs[i].0;
            let action = pairs[i].1.clone();
            m.insert(code, action);
            proof {
                assert(pairs_view(pairs@.take(i + 1)) =~= pairs_view(pairs@.take(i as int)).push(
                    (pairs@[i as int].0, pairs@[i as int].1@),
                ));
            }
            i = i + 1;
        }
        proof {
            assert(pairs@.take(n as int) =~= pairs@);
        }
        m
    }
}

} // verus!
