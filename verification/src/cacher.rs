//! An optional target-set cache for the scan loop.  Built from `None`
//! it filters nothing: no identifier is ever reported as cached and the
//! scan never finishes on its own.  Built from a list it answers, for
//! each observed identifier, whether it has already been reported, and
//! whether every requested identifier has been observed.

use crate::util::{distinct_views, in_views, remove_str};
use vstd::prelude::*;

verus! {

/// The identifiers still waiting to be observed, or `None` when no
/// target list was given.
#[derive(Debug)]
pub struct Cacher {
    unseen: Option<Vec<String>>,
}

impl Cacher {
    /// Whether a target list was given at all.
    pub closed spec fn spec_filtering(self) -> bool {
        self.unseen is Some
    }

    /// Whether `x` is among the identifiers not observed yet.
    pub closed spec fn spec_unseen(self, x: Seq<char>) -> bool {
        match self.unseen {
            Some(v) => in_views(v@, x),
            None => false,
        }
    }

    /// The cache holds each identifier at most once.
    pub closed spec fn wf(self) -> bool {
        match self.unseen {
            Some(v) => distinct_views(v@),
            None => true,
        }
    }

    /// Builds the cache: from `Some` list the set of its identifiers,
    /// from `None` a cache that filters nothing.
    pub fn from(opt_v: Option<Vec<String>>) -> (r: Cacher)
        ensures
            r.wf(),
            r.spec_filtering() == (opt_v is Some),
            forall|x: Seq<char>|
                #[trigger] r.spec_unseen(x) <==> (opt_v matches Some(v) && in_views(v@, x)),
    {
        match opt_v {
            None => Cacher { unseen: None },
            Some(v) => Cacher { unseen: Some(crate::util::dedup_strings(&v)) },
        }
    }

    /// Whether the identifier was already reported (or was never asked
    /// for): false exactly on the first observation of an identifier
    /// that a target list is still waiting for, and always false
    /// without a target list.  Removes the identifier from the waiting
    /// set as a side effect.
    pub fn has_cached(&mut self, s: &String) -> (r: bool)
        requires
            old(self).wf(),
        ensures
            final(self).wf(),
            final(self).spec_filtering() == old(self).spec_filtering(),
            r == (old(self).spec_filtering() && !old(self).spec_unseen(s@)),
            forall|x: Seq<char>|
                #[trigger] final(self).spec_unseen(x) <==> (old(self).spec_unseen(x) && x != s@),
    {
        match &mut self.unseen {
            Some(hs) => {
                let removed = remove_str(hs, s);
                !removed
            },
            None => false,
        }
    }

    /// Whether a target list was given and every identifier on it has
    /// been observed; without a target list the scan is never done.
    pub fn is_done(&self) -> (r: bool)
        ensures
            r == (self.spec_filtering() && (forall|x: Seq<char>|
                !(#[trigger] self.spec_unseen(x)))),
    {
        match &self.unseen {
            Some(hs) => {
                let r = hs.len() == 0;
                proof {
                    if !r {
                        assert(in_views(hs@, hs@[0]@));
                        assert(self.spec_unseen(hs@[0]@));
                    }
                }
                r
            },
            None => false,
        }
    }
}

} // verus!
