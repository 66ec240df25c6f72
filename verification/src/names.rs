//! A set of generated names, with fresh-name synthesis.
//!
//! Generated symbols must never collide. [`NameSet::insert`] registers a name
//! and reports an already-defined name as an error instead of silently
//! accepting it; [`NameSet::tmp`] synthesizes a fresh name from a stem by
//! appending the smallest decimal counter that avoids every name defined so
//! far.

use crate::text::{chars_eq, dec_digits, lemma_concat_cancel_left, lemma_dec_digits_injective,
    push_chars, push_usize};
use vstd::prelude::*;
use vstd::set_lib::lemma_len_subset;

verus! {

/// The candidate name `stem` followed by the decimal counter `j`.
pub open spec fn stem_cand(stem: Seq<char>, j: int) -> Seq<char> {
    stem + dec_digits(j as nat)
}

/// A set of defined names.
pub struct NameSet {
    defined: Vec<Vec<char>>,
}

impl NameSet {
    /// Whether `s` is among the defined names.
    pub closed spec fn contains(self, s: Seq<char>) -> bool {
        exists|i: int| 0 <= i < self.defined.len() && self.defined[i]@ == s
    }

    /// The empty set.
    pub fn new() -> (r: NameSet)
        ensures
            forall|s: Seq<char>| !r.contains(s),
    {
        NameSet { defined: Vec::new() }
    }

    /// Whether `v` is among the defined names.
    pub fn contains_name(&self, v: &Vec<char>) -> (r: bool)
        ensures
            r == self.contains(v@),
    {
        let mut i: usize = 0;
        while i < self.defined.len()
            invariant
                i <= self.defined.len(),
                forall|j: int| 0 <= j < i ==> self.defined[j]@ != v@,
            decreases self.defined.len() - i,
        {
            if chars_eq(&self.defined[i], v) {
                return true;
            }
            i += 1;
        }
        false
    }

    /// Register `name`; a second registration of the same name is refused.
    pub fn insert(&mut self, name: &Vec<char>) -> (r: Result<(), crate::err::GenError>)
        ensures
            r is Ok <==> !old(self).contains(name@),
            r is Err ==> *final(self) == *old(self),
            r is Ok ==> final(self).contains(name@),
            forall|s: Seq<char>| old(self).contains(s) ==> final(self).contains(s),
            forall|s: Seq<char>| final(self).contains(s) ==> old(self).contains(s) || s == name@,
    {
        if self.contains_name(name) {
            return Err(crate::err::GenError::AlreadyDefined);
        }
        let mut copy: Vec<char> = Vec::new();
        push_chars(&mut copy, name);
        let ghost n = self.defined@.len() as int;
        self.defined.push(copy);
        proof {
            assert(self.defined[n]@ == name@);
            assert forall|s: Seq<char>| old(self).contains(s) implies self.contains(s) by {
                let i = choose|i: int|
                    0 <= i < old(self).defined.len() && old(self).defined[i]@ == s;
                assert(self.defined[i]@ == s);
            }
        }
        Ok(())
    }

    /// A fresh name built from `stem`: `stem` itself if it is free, else
    /// `stem` followed by the smallest decimal counter that is free. The
    /// result is registered.
    pub fn tmp(&mut self, stem: &Vec<char>) -> (r: Vec<char>)
        ensures
            !old(self).contains(r@),
            final(self).contains(r@),
            forall|s: Seq<char>| old(self).contains(s) ==> final(self).contains(s),
            forall|s: Seq<char>| final(self).contains(s) ==> old(self).contains(s) || s == r@,
            !old(self).contains(stem@) ==> r@ == stem@,
    {
        if !self.contains_name(stem) {
            let mut copy: Vec<char> = Vec::new();
            push_chars(&mut copy, stem);
            let mut r: Vec<char> = Vec::new();
            push_chars(&mut r, stem);
            let ghost n = self.defined@.len() as int;
            self.defined.push(copy);
            proof {
                assert(self.defined[n]@ == stem@);
                assert forall|s: Seq<char>| old(self).contains(s) implies self.contains(s) by {
                    let i = choose|i: int|
                        0 <= i < old(self).defined.len() && old(self).defined[i]@ == s;
                    assert(self.defined[i]@ == s);
                }
            }
            return r;
        }
        let ghost names = self.defined@;
        let defined_len = self.defined.len();
        let ghost len = defined_len as int;
        let mut k: usize = 0;
        let mut cand: Vec<char> = Vec::new();
        push_chars(&mut cand, stem);
        push_usize(&mut cand, k);
        let ghost seen = Set::<int>::empty();
        let ghost mut seen = seen;
        while self.contains_name(&cand)
            invariant
                names == self.defined@,
                len == names.len(),
                len == defined_len as int,
                cand@ == stem@ + dec_digits(k as nat),
                seen.finite(),
                seen.len() == k as nat,
                forall|i: int| seen.contains(i) ==> 0 <= i < len,
                forall|i: int|
                    seen.contains(i) ==> exists|j: int|
                        0 <= j < k && names[i]@ == #[trigger] stem_cand(stem@, j),
                k <= len,
            decreases len - k,
        {
            proof {
                assert(self.contains(cand@));
                let i = choose|i: int| 0 <= i < self.defined.len() && self.defined[i]@ == cand@;
                assert(names[i]@ == cand@);
                assert(names[i]@ == stem_cand(stem@, k as int));
                assert(!seen.contains(i)) by {
                    if seen.contains(i) {
                        let j = choose|j: int|
                            0 <= j < k && names[i]@ == #[trigger] stem_cand(stem@, j);
                        assert(stem@ + dec_digits(j as nat) == stem@ + dec_digits(k as nat));
                        lemma_concat_cancel_left(
                            stem@,
                            dec_digits(j as nat),
                            dec_digits(k as nat),
                        );
                        lemma_dec_digits_injective(j as nat, k as nat);
                    }
                }
                let seen0 = seen;
                seen = seen.insert(i);
                assert(seen.len() == k + 1);
                // The matched indices all lie in the table, so there can be at
                // most `len` of them.
                assert forall|x: int| seen.contains(x) implies vstd::set_lib::set_int_range(
                    0,
                    len,
                ).contains(x) by {
                    if x == i {
                        assert(0 <= x < len);
                    } else {
                        assert(seen0.contains(x));
                        assert(0 <= x < len);
                    }
                }
                assert(seen.subset_of(vstd::set_lib::set_int_range(0, len)));
                vstd::set_lib::lemma_int_range(0, len);
                lemma_len_subset(seen, vstd::set_lib::set_int_range(0, len));
                assert(k + 1 <= len);
                assert forall|x: int| seen.contains(x) implies exists|j: int|
                    0 <= j < k + 1 && names[x]@ == #[trigger] stem_cand(stem@, j) by {
                    if x == i {
                        assert(names[x]@ == stem_cand(stem@, k as int));
                    } else {
                        assert(seen0.contains(x));
                        let j = choose|j: int|
                            0 <= j < k && names[x]@ == #[trigger] stem_cand(stem@, j);
                        assert(0 <= j < k + 1 && names[x]@ == stem_cand(stem@, j));
                    }
                }
            }
            k = k + 1;
            cand = Vec::new();
            push_chars(&mut cand, stem);
            push_usize(&mut cand, k);
        }
        let mut copy: Vec<char> = Vec::new();
        push_chars(&mut copy, &cand);
        let ghost n = self.defined@.len() as int;
        self.defined.push(copy);
        proof {
            assert(self.defined[n]@ == cand@);
            assert forall|s: Seq<char>| old(self).contains(s) implies self.contains(s) by {
                let i = choose|i: int|
                    0 <= i < old(self).defined.len() && old(self).defined[i]@ == s;
                assert(self.defined[i]@ == s);
            }
        }
        cand
    }
}

} // verus!
