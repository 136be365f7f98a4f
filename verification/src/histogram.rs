//! Status-code histogram: counts per HTTP status code, viewed in
//! specifications as a map from code to count.

use vstd::prelude::*;

verus! {

/// Count of occurrences per HTTP status code.
///
/// Code `0` is a sentinel for "unknown" and is never stored. Every stored
/// count is at least one, and each code appears at most once.
pub struct CodeHistogram {
    entries: Vec<(u16, i64)>,
}

impl CodeHistogram {
    /// Map from a sequence of entries, later entries winning.
    pub open spec fn map_of(s: Seq<(u16, i64)>) -> Map<u16, int>
        decreases s.len(),
    {
        if s.len() == 0 {
            Map::empty()
        } else {
            Self::map_of(s.drop_last()).insert(s.last().0, s.last().1 as int)
        }
    }

    pub closed spec fn view(&self) -> Map<u16, int> {
        Self::map_of(self.entries@)
    }

    /// No duplicate codes, no sentinel code `0`, every count positive.
    pub open spec fn entries_wf(s: Seq<(u16, i64)>) -> bool {
        &&& forall|i: int, j: int| 0 <= i < j < s.len() ==> s[i].0 != s[j].0
        &&& forall|i: int| 0 <= i < s.len() ==> (#[trigger] s[i]).0 != 0
        &&& forall|i: int| 0 <= i < s.len() ==> (#[trigger] s[i]).1 >= 1
    }

    pub closed spec fn wf(&self) -> bool {
        Self::entries_wf(self.entries@)
    }

    /// Count stored for `code`, zero when the code is absent.
    pub open spec fn spec_count(m: Map<u16, int>, code: u16) -> int {
        if m.contains_key(code) {
            m[code]
        } else {
            0
        }
    }

    /// A key is in the map exactly when some entry carries it.
    proof fn lemma_map_of_dom(s: Seq<(u16, i64)>, code: u16)
        ensures
            Self::map_of(s).contains_key(code) <==> exists|i: int|
                0 <= i < s.len() && (#[trigger] s[i]).0 == code,
        decreases s.len(),
    {
        if s.len() > 0 {
            Self::lemma_map_of_dom(s.drop_last(), code);
            if s.last().0 == code {
                assert(s[s.len() - 1].0 == code);
            } else {
                if Self::map_of(s).contains_key(code) {
                    let i = choose|i: int|
                        0 <= i < s.drop_last().len() && (#[trigger] s.drop_last()[i]).0 == code;
                    assert(s[i].0 == code);
                }
                if exists|i: int| 0 <= i < s.len() && (#[trigger] s[i]).0 == code {
                    let i = choose|i: int| 0 <= i < s.len() && (#[trigger] s[i]).0 == code;
                    assert(s.drop_last()[i].0 == code);
                }
            }
        }
    }

    /// With distinct codes, the map reads back each entry's count.
    proof fn lemma_map_of_index(s: Seq<(u16, i64)>, i: int)
        requires
            forall|p: int, q: int| 0 <= p < q < s.len() ==> s[p].0 != s[q].0,
            0 <= i < s.len(),
        ensures
            Self::map_of(s).contains_key(s[i].0),
            Self::map_of(s)[s[i].0] == s[i].1 as int,
        decreases s.len(),
    {
        if i == s.len() - 1 {
        } else {
            Self::lemma_map_of_index(s.drop_last(), i);
            assert(s.drop_last()[i] == s[i]);
            assert(s.last().0 != s[i].0);
        }
    }

    /// Updating the count at one entry updates the map at its code.
    proof fn lemma_map_of_update(s: Seq<(u16, i64)>, i: int, v: i64)
        requires
            forall|p: int, q: int| 0 <= p < q < s.len() ==> s[p].0 != s[q].0,
            0 <= i < s.len(),
        ensures
            Self::map_of(s.update(i, (s[i].0, v))) =~= Self::map_of(s).insert(s[i].0, v as int),
        decreases s.len(),
    {
        let t = s.update(i, (s[i].0, v));
        if i == s.len() - 1 {
            assert(t.drop_last() =~= s.drop_last());
        } else {
            Self::lemma_map_of_update(s.drop_last(), i, v);
            assert(t.drop_last() =~= s.drop_last().update(i, (s[i].0, v)));
            assert(t.last() == s.last());
            assert(s.last().0 != s[i].0);
        }
    }

    /// When every count in the map stays under `bound`, so does every
    /// count in the entry list the map was read from.
    pub proof fn lemma_entries_bounded(s: Seq<(u16, i64)>, bound: int)
        requires
            Self::entries_wf(s),
            forall|c: u16| #[trigger]
                Self::map_of(s).contains_key(c) ==> Self::map_of(s)[c] <= bound,
        ensures
            forall|i: int| 0 <= i < s.len() ==> (#[trigger] s[i]).1 <= bound,
    {
        assert forall|i: int| 0 <= i < s.len() implies (#[trigger] s[i]).1 <= bound by {
            Self::lemma_map_of_index(s, i);
        }
    }

    /// Empty histogram.
    pub fn new() -> (r: Self)
        ensures
            r@ =~= Map::<u16, int>::empty(),
            r.wf(),
    {
        CodeHistogram { entries: Vec::new() }
    }

    /// Adds one occurrence of `code`, which must not be the sentinel `0`.
    pub fn increment(&mut self, code: u16)
        requires
            old(self).wf(),
            code != 0,
            Self::spec_count(old(self)@, code) < i64::MAX,
        ensures
            final(self).wf(),
            final(self)@ =~= old(self)@.insert(code, Self::spec_count(old(self)@, code) + 1),
    {
        let n = self.entries.len();
        let ghost s = old(self).entries@;
        let mut i: usize = 0;
        while i < n
            invariant
                self.entries@ == s,
                old(self).entries@ == s,
                n == s.len(),
                i <= n,
                Self::entries_wf(s),
                code != 0,
                Self::spec_count(Self::map_of(s), code) < i64::MAX,
                forall|j: int| 0 <= j < i ==> s[j].0 != code,
            decreases n - i,
        {
            if self.entries[i].0 == code {
                proof {
                    Self::lemma_map_of_index(s, i as int);
                }
                let c = self.entries[i].1;
                self.entries.set(i, (code, c + 1));
                proof {
                    Self::lemma_map_of_update(s, i as int, (c + 1) as i64);
                    assert(self@ =~= Self::map_of(s).insert(code, c as int + 1));
                }
                return;
            }
            i = i + 1;
        }
        proof {
            Self::lemma_map_of_dom(s, code);
        }
        self.entries.push((code, 1));
        proof {
            assert(self.entries@.drop_last() =~= s);
        }
    }

    /// Copy of the entries, code paired with count.
    pub fn to_entries(&self) -> (r: Vec<(u16, i64)>)
        requires
            self.wf(),
        ensures
            Self::map_of(r@) == self@,
            Self::entries_wf(r@),
    {
        let n = self.entries.len();
        let mut out: Vec<(u16, i64)> = Vec::new();
        let mut i: usize = 0;
        while i < n
            invariant
                n == self.entries@.len(),
                i <= n,
                out@ =~= self.entries@.subrange(0, i as int),
            decreases n - i,
        {
            out.push(self.entries[i]);
            i = i + 1;
        }
        proof {
            assert(out@ =~= self.entries@);
        }
        out
    }
}

} // verus!
