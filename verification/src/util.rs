//! Target-set bookkeeping for the scan loop: which of the requested
//! device identifiers have not been observed yet.  A trivial
//! set-membership cache — stop-after-N-devices logic, not a decoder.

use vstd::prelude::*;

verus! {

/// Whether some string among `vs` has contents `x`.
pub open spec fn in_views(vs: Seq<String>, x: Seq<char>) -> bool {
    exists|i: int| 0 <= i < vs.len() && vs[i]@ == x
}

/// Whether some string among the first `k` of `vs` has contents `x`.
pub open spec fn in_prefix(vs: Seq<String>, k: int, x: Seq<char>) -> bool {
    exists|i: int| 0 <= i < k && vs[i]@ == x
}

/// Whether no two strings among `vs` share their contents.
pub open spec fn distinct_views(vs: Seq<String>) -> bool {
    forall|i: int, j: int| 0 <= i < j < vs.len() ==> vs[i]@ != vs[j]@
}

/// Whether `s` occurs in `v`, compared by contents.
pub(crate) fn contains_str(v: &Vec<String>, s: &String) -> (r: bool)
    ensures
        r == in_views(v@, s@),
{
    let mut k: usize = 0;
    while k < v.len()
        invariant
            k <= v@.len(),
            forall|i: int| 0 <= i < k ==> #[trigger] v@[i]@ != s@,
        decreases v@.len() - k,
    {
        if v[k] == *s {
            proof {
                assert(in_views(v@, s@));
            }
            return true;
        }
        k = k + 1;
    }
    proof {
        if in_views(v@, s@) {
            let i = choose|i: int| 0 <= i < v@.len() && v@[i]@ == s@;
            assert(false);
        }
    }
    false
}

/// Copies `v` keeping only the first string of each contents.
pub(crate) fn dedup_strings(v: &Vec<String>) -> (r: Vec<String>)
    ensures
        distinct_views(r@),
        forall|x: Seq<char>| #[trigger] in_views(r@, x) <==> in_views(v@, x),
{
    let mut out: Vec<String> = Vec::new();
    let mut k: usize = 0;
    while k < v.len()
        invariant
            k <= v@.len(),
            distinct_views(out@),
            forall|x: Seq<char>| #[trigger] in_views(out@, x) <==> in_prefix(v@, k as int, x),
        decreases v@.len() - k,
    {
        let ghost prev = out@;
        if !contains_str(&out, &v[k]) {
            out.push(v[k].clone());
            proof {
                assert forall|x: Seq<char>|
                    #[trigger] in_views(out@, x) <==> in_prefix(v@, k as int + 1, x) by {
                    if in_views(out@, x) {
                        let i = choose|i: int| 0 <= i < out@.len() && out@[i]@ == x;
                        if i < prev.len() {
                            assert(prev[i]@ == x);
                            assert(in_views(prev, x));
                        } else {
                            assert(v@[k as int]@ == x);
                        }
                    }
                    if in_prefix(v@, k as int + 1, x) {
                        let i = choose|i: int| 0 <= i < k + 1 && v@[i]@ == x;
                        if i < k {
                            assert(in_prefix(v@, k as int, x));
                            assert(in_views(prev, x));
                            let j = choose|j: int| 0 <= j < prev.len() && prev[j]@ == x;
                            assert(out@[j]@ == x);
                        } else {
                            assert(out@[out@.len() - 1]@ == x);
                        }
                    }
                }
            }
        } else {
            proof {
                assert forall|x: Seq<char>|
                    #[trigger] in_views(out@, x) <==> in_prefix(v@, k as int + 1, x) by {
                    if in_views(out@, x) {
                        assert(in_prefix(v@, k as int, x));
                        let i = choose|i: int| 0 <= i < k && v@[i]@ == x;
                        assert(in_prefix(v@, k as int + 1, x));
                    }
                    if in_prefix(v@, k as int + 1, x) {
                        let i = choose|i: int| 0 <= i < k + 1 && v@[i]@ == x;
                        if i == k {
                            assert(in_views(out@, x));
                        } else {
                            assert(in_prefix(v@, k as int, x));
                        }
                    }
                }
            }
        }
        k = k + 1;
    }
    proof {
        assert forall|x: Seq<char>| #[trigger] in_views(out@, x) <==> in_views(v@, x) by {
            if in_views(v@, x) {
                let i = choose|i: int| 0 <= i < v@.len() && v@[i]@ == x;
                assert(in_prefix(v@, k as int, x));
            }
        }
    }
    out
}

/// Removes the string with contents `s` from `v`, reporting whether it
/// was there; `v` must hold each contents at most once.
#[verifier::loop_isolation(false)]
pub(crate) fn remove_str(v: &mut Vec<String>, s: &String) -> (r: bool)
    requires
        distinct_views(old(v)@),
    ensures
        distinct_views(final(v)@),
        r == in_views(old(v)@, s@),
        forall|x: Seq<char>| #[trigger] in_views(final(v)@, x) <==> (in_views(old(v)@, x) && x
            != s@),
{
    let ghost prev = v@;
    let mut k: usize = 0;
    while k < v.len()
        invariant
            k <= v@.len(),
            v@ == prev,
            forall|i: int| 0 <= i < k ==> prev[i]@ != s@,
        decreases v@.len() - k,
    {
        if v[k] == *s {
            proof {
                assert(prev[k as int]@ == s@);
                assert(in_views(prev, s@));
            }
            v.remove(k);
            proof {
                prev.remove_ensures(k as int);
                assert(v@ == prev.remove(k as int));
                assert forall|x: Seq<char>|
                    #[trigger] in_views(v@, x) <==> (in_views(prev, x) && x != s@) by {
                    if in_views(v@, x) {
                        let i = choose|i: int| 0 <= i < v@.len() && v@[i]@ == x;
                        if i < k {
                            assert(prev.remove(k as int)[i] == prev[i]);
                            assert(prev[i]@ == x);
                            assert(in_views(prev, x));
                        } else {
                            assert(prev.remove(k as int)[i] == prev[i + 1]);
                            assert(prev[i + 1]@ == x);
                            assert(in_views(prev, x));
                            assert(prev[k as int]@ != prev[i + 1]@);
                        }
                    }
                    if in_views(prev, x) && x != s@ {
                        let i = choose|i: int| 0 <= i < prev.len() && prev[i]@ == x;
                        assert(i != k);
                        if i < k {
                            assert(prev.remove(k as int)[i] == prev[i]);
                            assert(in_views(v@, x));
                        } else {
                            assert(prev.remove(k as int)[i - 1] == prev[i]);
                            assert(in_views(v@, x));
                        }
                    }
                }
                assert forall|i: int, j: int| 0 <= i < j < v@.len() implies v@[i]@ != v@[j]@ by {
                    let pi: int = if i < k {
                        i
                    } else {
                        i + 1
                    };
                    let pj: int = if j < k {
                        j
                    } else {
                        j + 1
                    };
                    assert(prev.remove(k as int)[i] == prev[pi]);
                    assert(prev.remove(k as int)[j] == prev[pj]);
                    assert(prev[pi]@ != prev[pj]@);
                }
            }
            return true;
        }
        k = k + 1;
    }
    proof {
        assert forall|x: Seq<char>|
            #[trigger] in_views(v@, x) <==> (in_views(prev, x) && x != s@) by {
            if in_views(prev, x) && x == s@ {
                let i = choose|i: int| 0 <= i < prev.len() && prev[i]@ == x;
                assert(false);
            }
        }
    }
    false
}

/// The set of device identifiers not seen yet.  Each identifier is held
/// at most once, however often the caller listed it.
#[derive(Debug)]
pub struct Cacher {
    unseen: Vec<String>,
}

impl Cacher {
    /// Whether `x` is among the identifiers not seen yet.
    pub closed spec fn spec_unseen(self, x: Seq<char>) -> bool {
        in_views(self.unseen@, x)
    }

    /// The cache holds each identifier at most once.
    pub closed spec fn wf(self) -> bool {
        distinct_views(self.unseen@)
    }

    /// Builds the cache of identifiers to wait for; an empty list is
    /// refused, since the scan would have nothing to stop on.
    pub fn new(to_be_seen: &Vec<String>) -> (r: Result<Cacher, &'static str>)
        ensures
            (match r {
                Ok(c) => to_be_seen@.len() > 0 && c.wf() && (forall|x: Seq<char>|
                    #[trigger] c.spec_unseen(x) <==> in_views(to_be_seen@, x)),
                Err(m) => to_be_seen@.len() == 0 && m@ == "Must have 1 or more mac addresses"@,
            }),
    {
        if to_be_seen.len() == 0 {
            return Err("Must have 1 or more mac addresses");
        }
        Ok(Cacher { unseen: dedup_strings(to_be_seen) })
    }

    /// Marks an identifier as seen: removes it from the cache and
    /// reports whether it was still waiting to be seen.
    pub fn see(&mut self, s: &String) -> (r: bool)
        requires
            old(self).wf(),
        ensures
            final(self).wf(),
            r == old(self).spec_unseen(s@),
            forall|x: Seq<char>|
                #[trigger] final(self).spec_unseen(x) <==> (old(self).spec_unseen(x) && x != s@),
    {
        remove_str(&mut self.unseen, s)
    }

    /// Whether every requested identifier has been seen.
    pub fn all_seen(&self) -> (r: bool)
        ensures
            r <==> (forall|x: Seq<char>| !(#[trigger] self.spec_unseen(x))),
    {
        let r = self.unseen.len() == 0;
        proof {
            if !r {
                assert(in_views(self.unseen@, self.unseen@[0]@));
                assert(self.spec_unseen(self.unseen@[0]@));
            }
        }
        r
    }
}

} // verus!
