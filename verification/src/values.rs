//! A string-keyed value map as handed in by a link definition, and its
//! case-normalized form with provably distinct keys.

use vstd::prelude::*;

use crate::strutil::{ascii_lower, ascii_upper, spec_lower, spec_upper};

verus! {

/// Raw key-value pairs supplied with a link, in the order given.  Keys may
/// repeat and may use any case; [`NormValues`] is the cleaned-up form.
pub struct RawValues {
    /// The pairs, in the order they were supplied.
    pub entries: Vec<(String, String)>,
}

impl View for RawValues {
    type V = Seq<(Seq<char>, Seq<char>)>;

    open spec fn view(&self) -> Seq<(Seq<char>, Seq<char>)> {
        self.entries.deep_view()
    }
}

impl RawValues {
    /// An empty map.
    pub fn new() -> (r: RawValues)
        ensures
            r@ == Seq::<(Seq<char>, Seq<char>)>::empty(),
    {
        let r = RawValues { entries: Vec::new() };
        proof {
            assert(r@ =~= Seq::<(Seq<char>, Seq<char>)>::empty());
        }
        r
    }

    /// Appends one pair.
    pub fn put(&mut self, key: String, value: String)
        ensures
            final(self)@ == old(self)@.push((key@, value@)),
    {
        let ghost before = self@;
        self.entries.push((key, value));
        proof {
            assert(self@ =~= before.push((self.entries@.last().0@, self.entries@.last().1@)));
        }
    }

    /// Number of pairs.
    pub fn len(&self) -> (n: usize)
        ensures
            n == self@.len(),
    {
        self.entries.len()
    }
}

/// Keys normalized with [`spec_upper`] (when `upper` holds) or
/// [`spec_lower`], values unchanged.
pub open spec fn spec_norm_keys(
    s: Seq<(Seq<char>, Seq<char>)>,
    upper: bool,
) -> Seq<(Seq<char>, Seq<char>)> {
    s.map_values(
        |p: (Seq<char>, Seq<char>)|
            (if upper {
                spec_upper(p.0)
            } else {
                spec_lower(p.0)
            }, p.1),
    )
}

/// No two pairs share a key.
pub open spec fn spec_distinct_keys(s: Seq<(Seq<char>, Seq<char>)>) -> bool {
    forall|i: int, j: int| 0 <= i < j < s.len() ==> (#[trigger] s[i]).0 != (#[trigger] s[j]).0
}

/// The map holding each pair of `s`; on a repeated key the later pair wins.
pub open spec fn spec_as_map(s: Seq<(Seq<char>, Seq<char>)>) -> Map<Seq<char>, Seq<char>>
    decreases s.len(),
{
    if s.len() == 0 {
        Map::empty()
    } else {
        spec_as_map(s.drop_last()).insert(s.last().0, s.last().1)
    }
}

/// Every pair of a distinct-keyed sequence is in its map, and every key of
/// the map comes from some pair.
pub proof fn lemma_as_map_covers(s: Seq<(Seq<char>, Seq<char>)>)
    requires
        spec_distinct_keys(s),
    ensures
        forall|j: int|
            0 <= j < s.len() ==> spec_as_map(s).contains_pair(#[trigger] s[j].0, s[j].1),
        forall|k: Seq<char>|
            spec_as_map(s).contains_key(k) ==> exists|j: int|
                0 <= j < s.len() && (#[trigger] s[j]).0 == k,
    decreases s.len(),
{
    if s.len() > 0 {
        let sub = s.drop_last();
        assert(spec_distinct_keys(sub)) by {
            assert(forall|i: int, j: int|
                0 <= i < j < sub.len() ==> (#[trigger] sub[i]).0 != (#[trigger] sub[j]).0) by {
                assert(forall|i: int, j: int| 0 <= i < j < sub.len() ==> sub[i] == s[i] && sub[j]
                    == s[j]);
            }
        }
        lemma_as_map_covers(sub);
        assert forall|j: int| 0 <= j < s.len() implies spec_as_map(s).contains_pair(
            #[trigger] s[j].0,
            s[j].1,
        ) by {
            if j < s.len() - 1 {
                assert(sub[j] == s[j]);
                assert(spec_as_map(sub).contains_pair(s[j].0, s[j].1));
                assert(s[j].0 != s.last().0);
            }
        }
        assert forall|k: Seq<char>| spec_as_map(s).contains_key(k) implies exists|j: int|
            0 <= j < s.len() && (#[trigger] s[j]).0 == k by {
            if k != s.last().0 {
                assert(spec_as_map(sub).contains_key(k));
                let j = choose|j: int| 0 <= j < sub.len() && (#[trigger] sub[j]).0 == k;
                assert(s[j] == sub[j]);
            } else {
                assert(s[s.len() - 1].0 == k);
            }
        }
    }
}

/// Key-value pairs whose keys are provably pairwise distinct, viewed as a
/// map from key to value.
pub struct NormValues {
    /// The pairs; no key occurs twice.
    pub entries: Vec<(String, String)>,
}

impl NormValues {
    /// The well-formedness of the table: keys are pairwise distinct.
    pub open spec fn wf(&self) -> bool {
        spec_distinct_keys(self.entries.deep_view())
    }
}

impl View for NormValues {
    type V = Map<Seq<char>, Seq<char>>;

    open spec fn view(&self) -> Map<Seq<char>, Seq<char>> {
        spec_as_map(self.entries.deep_view())
    }
}

impl NormValues {
    /// Looks a key up; `Some` exactly when the key is present.
    pub fn get(&self, key: &str) -> (r: Option<&String>)
        requires
            self.wf(),
        ensures
            r is Some <==> self@.contains_key(key@),
            r matches Some(v) ==> self@.contains_key(key@) && self@[key@] == v@,
    {
        proof {
            lemma_as_map_covers(self.entries.deep_view());
        }
        let n = self.entries.len();
        let mut j: usize = 0;
        while j < n
            invariant
                n == self.entries.len(),
                j <= n,
                self.wf(),
                spec_as_map(self.entries.deep_view()) == self@,
                forall|i: int|
                    0 <= i < j ==> (#[trigger] self.entries.deep_view()[i]).0 != key@,
                forall|i: int|
                    0 <= i < n ==> self@.contains_pair(
                        (#[trigger] self.entries.deep_view()[i]).0,
                        self.entries.deep_view()[i].1,
                    ),
                forall|k: Seq<char>|
                    self@.contains_key(k) ==> exists|i: int|
                        0 <= i < n && (#[trigger] self.entries.deep_view()[i]).0 == k,
            decreases n - j,
        {
            let k = key.to_owned();
            if self.entries[j].0 == k {
                assert(self.entries.deep_view()[j as int].0 == key@);
                return Some(&self.entries[j].1);
            }
            assert(self.entries.deep_view()[j as int].0 != key@);
            j = j + 1;
        }
        proof {
            if self@.contains_key(key@) {
                let i = choose|i: int|
                    0 <= i < n && (#[trigger] self.entries.deep_view()[i]).0 == key@;
                assert(false);
            }
        }
        None
    }

    /// Whether the key is present.
    pub fn has(&self, key: &str) -> (r: bool)
        requires
            self.wf(),
        ensures
            r == self@.contains_key(key@),
    {
        self.get(key).is_some()
    }
}

/// Normalizes every key of `raw` (uppercase when `upper` holds, lowercase
/// otherwise) and rejects the map when two keys collide after normalization.
pub fn normalize_keys(raw: &RawValues, upper: bool) -> (r: Option<NormValues>)
    ensures
        r is Some <==> spec_distinct_keys(spec_norm_keys(raw@, upper)),
        r matches Some(nv) ==> nv.wf() && nv.entries.deep_view() == spec_norm_keys(raw@, upper)
            && nv@ == spec_as_map(spec_norm_keys(raw@, upper)),
{
    let ghost goal = spec_norm_keys(raw@, upper);
    let n = raw.entries.len();
    let mut out: Vec<(String, String)> = Vec::new();
    let mut i: usize = 0;
    proof {
        assert(out.deep_view() =~= goal.subrange(0, 0));
    }
    while i < n
        invariant
            n == raw.entries.len(),
            i <= n,
            goal == spec_norm_keys(raw@, upper),
            goal.len() == n,
            out.deep_view() == goal.subrange(0, i as int),
            out.len() == i,
            spec_distinct_keys(out.deep_view()),
        decreases n - i,
    {
        let key_n = if upper {
            ascii_upper(raw.entries[i].0.as_str())
        } else {
            ascii_lower(raw.entries[i].0.as_str())
        };
        assert(key_n@ == goal[i as int].0);
        // a collision with an earlier key rejects the whole map
        let mut j: usize = 0;
        while j < out.len()
            invariant
                j <= out.len(),
                out.len() == i,
                out.deep_view() == goal.subrange(0, i as int),
                goal == spec_norm_keys(raw@, upper),
                i < goal.len(),
                key_n@ == goal[i as int].0,
                forall|p: int| 0 <= p < j ==> (#[trigger] out.deep_view()[p]).0 != key_n@,
            decreases out.len() - j,
        {
            if out[j].0 == key_n {
                assert(goal.subrange(0, i as int)[j as int].0 == goal[i as int].0);
                assert(!spec_distinct_keys(goal));
                return None;
            }
            assert(out.deep_view()[j as int].0 != key_n@);
            j = j + 1;
        }
        let value = raw.entries[i].1.clone();
        assert(value@ == goal[i as int].1);
        let ghost before = out.deep_view();
        let ghost pushed = (key_n@, value@);
        out.push((key_n, value));
        proof {
            assert(out.deep_view() =~= before.push(pushed));
            assert(out.deep_view() =~= goal.subrange(0, i + 1));
            assert forall|p: int, q: int|
                0 <= p < q < out.deep_view().len() implies (#[trigger] out.deep_view()[p]).0
                != (#[trigger] out.deep_view()[q]).0 by {
                if q == out.deep_view().len() - 1 {
                    assert(out.deep_view()[p] == before[p]);
                }
            }
        }
        i = i + 1;
    }
    proof {
        assert(out.deep_view() =~= goal);
    }
    Some(NormValues { entries: out })
}

} // verus!
