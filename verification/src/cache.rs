use vstd::prelude::*;
use crate::bytecode::Bytecode;
use crate::bytecode::keccak_of;
use crate::values::Hash256;

verus! {

/// Whether some entry of `s` carries the hash `h`.
spec fn spec_has(s: Seq<Bytecode>, h: Seq<u8>) -> bool {
    exists|i: int| 0 <= i < s.len() && (#[trigger] s[i]).hash_view() == h
}

/// The index of an entry of `s` carrying the hash `h`.
spec fn spec_index_of(s: Seq<Bytecode>, h: Seq<u8>) -> int {
    choose|i: int| 0 <= i < s.len() && (#[trigger] s[i]).hash_view() == h
}

/// The entries of `s` read as a map from code hash to code bytes.
spec fn hashes_map(s: Seq<Bytecode>) -> Map<Seq<u8>, Seq<u8>> {
    Map::new(|h: Seq<u8>| spec_has(s, h), |h: Seq<u8>| s[spec_index_of(s, h)]@)
}

/// All entries well-formed, no two entries under one hash.
spec fn entries_wf(s: Seq<Bytecode>) -> bool {
    &&& forall|i: int| 0 <= i < s.len() ==> (#[trigger] s[i]).wf()
    &&& forall|i: int, j: int|
        0 <= i < j < s.len() ==> (#[trigger] s[i]).hash_view() != (#[trigger] s[j]).hash_view()
}

/// A content-addressed store of bytecode, keyed by its Keccak-256 hash.
/// An entry, once inserted, is never overwritten: the hash determines the
/// content. Entries are never evicted.
pub struct CodeCache {
    entries: Vec<Bytecode>,
}

impl View for CodeCache {
    type V = Map<Seq<u8>, Seq<u8>>;

    closed spec fn view(&self) -> Map<Seq<u8>, Seq<u8>> {
        hashes_map(self.entries@)
    }
}

impl CodeCache {
    pub closed spec fn wf(&self) -> bool {
        entries_wf(self.entries@)
    }

    /// An empty cache.
    pub fn new() -> (r: CodeCache)
        ensures
            r.wf(),
            r@ == Map::<Seq<u8>, Seq<u8>>::empty(),
    {
        let r = CodeCache { entries: Vec::new() };
        proof {
            assert(r@ =~= Map::<Seq<u8>, Seq<u8>>::empty());
        }
        r
    }

    /// Looks a hash up; on a hit the returned entry is the cached bytecode
    /// under exactly that hash.
    pub fn get(&self, h: &Hash256) -> (r: Option<&Bytecode>)
        requires
            self.wf(),
        ensures
            match r {
                Some(b) => self@.dom().contains(h@) && b@ == self@[h@] && b.wf()
                    && b.hash_view() == h@,
                None => !self@.dom().contains(h@),
            },
    {
        let n = self.entries.len();
        let mut i: usize = 0;
        while i < n
            invariant
                self.wf(),
                n == self.entries@.len(),
                i <= n,
                forall|j: int| 0 <= j < i ==> (#[trigger] self.entries@[j]).hash_view() != h@,
            decreases n - i,
        {
            let e = &self.entries[i];
            if e.code_hash().equals(h) {
                proof {
                    let s = self.entries@;
                    assert(s[i as int].hash_view() == h@);
                    assert(spec_has(s, h@));
                    let w = spec_index_of(s, h@);
                    assert(0 <= w < s.len() && s[w].hash_view() == h@);
                    if w < i as int {
                        assert(s[w].hash_view() != s[i as int].hash_view());
                    } else if w > i as int {
                        assert(s[i as int].hash_view() != s[w].hash_view());
                    }
                    assert(w == i as int);
                    assert(self@[h@] == s[i as int]@);
                }
                return Some(e);
            }
            i += 1;
        }
        proof {
            assert(!spec_has(self.entries@, h@));
        }
        None
    }

    /// Whether a hash is cached.
    pub fn contains(&self, h: &Hash256) -> (r: bool)
        requires
            self.wf(),
        ensures
            r == self@.dom().contains(h@),
    {
        match self.get(h) {
            Some(_) => true,
            None => false,
        }
    }

    /// Enters decoded bytecode under its own hash. An entry already present
    /// for that hash is left exactly as it was; otherwise the bytecode is
    /// added under its hash.
    pub fn insert(&mut self, code: Bytecode)
        requires
            old(self).wf(),
            code.wf(),
        ensures
            final(self).wf(),
            old(self)@.dom().contains(code.hash_view()) ==> final(self)@ == old(self)@,
            !old(self)@.dom().contains(code.hash_view()) ==> final(self)@ == old(self)@.insert(
                code.hash_view(),
                code@,
            ),
    {
        let present = self.contains(code.code_hash());
        if !present {
            let ghost s1 = self.entries@;
            let ghost h = code.hash_view();
            self.entries.push(code);
            proof {
                let s2 = self.entries@;
                assert(s2 == s1.push(code));
                assert(s2[s1.len() as int] == code);
                assert forall|i: int| 0 <= i < s1.len() implies s2[i] == s1[i] by {}
                // the new entry's hash was absent, so well-formedness is kept
                assert(!spec_has(s1, h));
                assert forall|i: int, j: int| 0 <= i < j < s2.len() implies (
                #[trigger] s2[i]).hash_view() != (#[trigger] s2[j]).hash_view() by {
                    if j < s1.len() {
                        assert(s1[i].hash_view() != s1[j].hash_view());
                    } else {
                        assert(s2[j] == code);
                        if s1[i].hash_view() == h {
                            assert(spec_has(s1, h));
                        }
                    }
                }
                assert(entries_wf(s2));
                // the map gains exactly the one binding
                assert forall|k: Seq<u8>| spec_has(s2, k) implies (spec_has(s1, k) || k == h) by {
                    let i = choose|i: int| 0 <= i < s2.len() && (#[trigger] s2[i]).hash_view()
                        == k;
                    if i < s1.len() {
                        assert(s1[i].hash_view() == k);
                    } else {
                        assert(s2[i] == code);
                    }
                }
                assert forall|k: Seq<u8>| spec_has(s1, k) implies spec_has(s2, k) by {
                    let i = choose|i: int| 0 <= i < s1.len() && (#[trigger] s1[i]).hash_view()
                        == k;
                    assert(s2[i].hash_view() == k);
                }
                assert(spec_has(s2, h)) by {
                    assert(s2[s1.len() as int].hash_view() == h);
                }
                assert forall|k: Seq<u8>| #[trigger]
                    spec_has(s2, k) implies hashes_map(s2)[k] == hashes_map(s1).insert(h, code@)[k]
                    by {
                    let w = spec_index_of(s2, k);
                    assert(0 <= w < s2.len() && s2[w].hash_view() == k);
                    if k == h {
                        // uniqueness in s2 pins the witness to the new entry
                        if w < s1.len() {
                            assert(s1[w].hash_view() == h);
                            assert(spec_has(s1, h));
                        }
                        assert(s2[w] == code);
                    } else {
                        assert(w < s1.len());
                        assert(spec_has(s1, k));
                        let w1 = spec_index_of(s1, k);
                        assert(0 <= w1 < s1.len() && s1[w1].hash_view() == k);
                        if w < w1 {
                            assert(s2[w].hash_view() != s2[w1].hash_view());
                        } else if w1 < w {
                            assert(s2[w1].hash_view() != s2[w].hash_view());
                        }
                        assert(w == w1);
                    }
                }
                assert(hashes_map(s2) =~= hashes_map(s1).insert(h, code@));
            }
        }
    }

    /// How many distinct code hashes the cache holds.
    pub fn len(&self) -> (r: usize)
        requires
            self.wf(),
        ensures
            r == self@.dom().len(),
            self@.dom().finite(),
    {
        proof {
            lemma_hashes_map_card(self.entries@);
        }
        self.entries.len()
    }

    /// Content addressing: every key of the cache is the digest of the bytes
    /// it maps to.
    pub proof fn lemma_content_addressed(&self)
        requires
            self.wf(),
        ensures
            forall|h: Seq<u8>| self@.dom().contains(h) ==> keccak_of(#[trigger] self@[h]) == h,
    {
        let s = self.entries@;
        assert forall|h: Seq<u8>| self@.dom().contains(h) implies keccak_of(#[trigger] self@[h])
            == h by {
            let w = spec_index_of(s, h);
            assert(0 <= w < s.len() && s[w].hash_view() == h);
            assert(s[w].wf());
            s[w].lemma_wf_hash();
            assert(self@[h] == s[w]@);
        }
    }
}

/// A cache with pairwise-distinct hashes holds exactly one map binding per
/// entry.
proof fn lemma_hashes_map_card(s: Seq<Bytecode>)
    requires
        entries_wf(s),
    ensures
        hashes_map(s).dom().finite(),
        hashes_map(s).dom().len() == s.len(),
    decreases s.len(),
{
    broadcast use vstd::set::group_set_axioms;

    if s.len() == 0 {
        assert(hashes_map(s).dom() =~= Set::<Seq<u8>>::empty());
    } else {
        let prefix = s.drop_last();
        let last = s.last();
        assert(entries_wf(prefix)) by {
            assert forall|i: int| 0 <= i < prefix.len() implies (#[trigger] prefix[i]).wf() by {
                assert(prefix[i] == s[i]);
            }
            assert forall|i: int, j: int| 0 <= i < j < prefix.len() implies (
            #[trigger] prefix[i]).hash_view() != (#[trigger] prefix[j]).hash_view() by {
                assert(prefix[i] == s[i] && prefix[j] == s[j]);
            }
        }
        lemma_hashes_map_card(prefix);
        assert(!spec_has(prefix, last.hash_view())) by {
            if spec_has(prefix, last.hash_view()) {
                let i = choose|i: int|
                    0 <= i < prefix.len() && (#[trigger] prefix[i]).hash_view()
                        == last.hash_view();
                assert(s[i].hash_view() != s[s.len() - 1].hash_view());
            }
        }
        assert(hashes_map(s).dom() =~= hashes_map(prefix).dom().insert(last.hash_view())) by {
            assert forall|k: Seq<u8>| spec_has(s, k) implies (spec_has(prefix, k) || k
                == last.hash_view()) by {
                let i = choose|i: int| 0 <= i < s.len() && (#[trigger] s[i]).hash_view() == k;
                if i < s.len() - 1 {
                    assert(prefix[i].hash_view() == k);
                }
            }
            assert forall|k: Seq<u8>| spec_has(prefix, k) implies spec_has(s, k) by {
                let i = choose|i: int| 0 <= i < prefix.len() && (#[trigger] prefix[i]).hash_view()
                    == k;
                assert(s[i].hash_view() == k);
            }
            assert(s[s.len() - 1].hash_view() == last.hash_view());
        }
    }
}

} // verus!
