//! Resource attributes: ordered sets of string key-value pairs with a
//! schema tag, and their precedence-respecting merge.

use vstd::prelude::*;

verus! {

/// One resource attribute: a string key with a string value.
pub struct Attr {
    pub key: String,
    pub value: String,
}

/// The mathematical shape of one attribute: its key and value as
/// character sequences.
pub type AttrView = (Seq<char>, Seq<char>);

impl View for Attr {
    type V = AttrView;

    open spec fn view(&self) -> AttrView {
        (self.key@, self.value@)
    }
}

impl Clone for Attr {
    fn clone(&self) -> (r: Self)
        ensures
            r@ == self@,
    {
        Attr { key: self.key.clone(), value: self.value.clone() }
    }
}

/// The views of a vector of attributes, in order.
pub open spec fn attrs_view(v: Seq<Attr>) -> Seq<AttrView> {
    v.map_values(|a: Attr| a@)
}

/// Whether some pair in `s` carries the key `k`.
pub open spec fn has_key(s: Seq<AttrView>, k: Seq<char>) -> bool {
    exists|i: int| 0 <= i < s.len() && s[i].0 == k
}

/// The value of the first pair in `s` whose key is `k`; the empty
/// sequence when no pair carries `k`.
pub open spec fn lookup(s: Seq<AttrView>, k: Seq<char>) -> Seq<char>
    decreases s.len(),
{
    if s.len() == 0 {
        Seq::empty()
    } else if s[0].0 == k {
        s[0].1
    } else {
        lookup(s.drop_first(), k)
    }
}

/// No two pairs of `s` share a key.
pub open spec fn distinct_keys(s: Seq<AttrView>) -> bool {
    forall|i: int, j: int| 0 <= i < j < s.len() ==> s[i].0 != s[j].0
}

/// The pairs of `low` whose keys do not occur in `high`, in order.
pub open spec fn minus_keys(low: Seq<AttrView>, high: Seq<AttrView>) -> Seq<AttrView>
    decreases low.len(),
{
    if low.len() == 0 {
        Seq::empty()
    } else if has_key(high, low[0].0) {
        minus_keys(low.drop_first(), high)
    } else {
        seq![low[0]] + minus_keys(low.drop_first(), high)
    }
}

/// The merge of two pair sequences: all of `high`, then every pair of
/// `low` whose key `high` does not claim. On key collision `high` wins.
pub open spec fn merged(high: Seq<AttrView>, low: Seq<AttrView>) -> Seq<AttrView> {
    high + minus_keys(low, high)
}

/// The schema tag of a merged set: equal tags are kept, an absent tag
/// defers to the other side, and two different non-empty tags cancel out.
pub open spec fn merged_schema(high: Seq<char>, low: Seq<char>) -> Seq<char> {
    if high == low {
        high
    } else if high.len() == 0 {
        low
    } else if low.len() == 0 {
        high
    } else {
        Seq::empty()
    }
}

/// An ordered set of resource attributes plus a schema tag.
pub struct AttributeSet {
    pub attrs: Vec<Attr>,
    pub schema_url: String,
}

impl View for AttributeSet {
    type V = Seq<AttrView>;

    open spec fn view(&self) -> Seq<AttrView> {
        attrs_view(self.attrs@)
    }
}

impl AttributeSet {
    /// A well-formed set carries each key at most once.
    pub open spec fn wf(self) -> bool {
        distinct_keys(self@)
    }

    /// The set with no attributes and no schema tag.
    pub fn empty() -> (r: AttributeSet)
        ensures
            r@ =~= Seq::<AttrView>::empty(),
            r.wf(),
            r.schema_url@ == Seq::<char>::empty(),
    {
        AttributeSet { attrs: Vec::new(), schema_url: String::new() }
    }

    /// Whether the set carries the key.
    pub fn contains_key(&self, key: &String) -> (r: bool)
        ensures
            r == has_key(self@, key@),
    {
        let mut i: usize = 0;
        while i < self.attrs.len()
            invariant
                i <= self.attrs.len(),
                self@.len() == self.attrs@.len(),
                forall|j: int| 0 <= j < i ==> self@[j].0 != key@,
            decreases self.attrs.len() - i,
        {
            assert(self@[i as int] == self.attrs@[i as int]@);
            if self.attrs[i].key.eq(key) {
                assert(self@[i as int].0 == key@);
                return true;
            }
            i = i + 1;
        }
        false
    }

    /// The value stored under the key, or `None` when the key is absent.
    pub fn get(&self, key: &String) -> (r: Option<String>)
        ensures
            has_key(self@, key@) ==> (r matches Some(v) && v@ == lookup(self@, key@)),
            !has_key(self@, key@) ==> r is None,
    {
        let mut i: usize = 0;
        while i < self.attrs.len()
            invariant
                i <= self.attrs.len(),
                self@.len() == self.attrs@.len(),
                forall|j: int| 0 <= j < i ==> self@[j].0 != key@,
            decreases self.attrs.len() - i,
        {
            assert(self@[i as int] == self.attrs@[i as int]@);
            if self.attrs[i].key.eq(key) {
                proof {
                    lemma_lookup_at(self@, key@, i as int);
                }
                return Some(self.attrs[i].value.clone());
            }
            i = i + 1;
        }
        None
    }
}

impl AttributeSet {
    /// Merge two sets into their union, `self` taking precedence: every
    /// pair of `self` is kept, and a pair of `low` survives exactly when
    /// `self` does not claim its key.
    pub fn merge(&self, low: &AttributeSet) -> (r: AttributeSet)
        ensures
            r@ == merged(self@, low@),
            r.schema_url@ == merged_schema(self.schema_url@, low.schema_url@),
            self.wf() && low.wf() ==> r.wf(),
    {
        let mut out: Vec<Attr> = Vec::new();
        let mut i: usize = 0;
        while i < self.attrs.len()
            invariant
                i <= self.attrs.len(),
                out@.len() == i,
                forall|m: int| 0 <= m < i ==> attrs_view(out@)[m] == self@[m],
            decreases self.attrs.len() - i,
        {
            let a = self.attrs[i].clone();
            proof {
                assert(a@ == self@[i as int]);
            }
            let ghost out0 = out@;
            out.push(a);
            proof {
                assert(forall|m: int|
                    0 <= m < out0.len() ==> attrs_view(out@)[m] == attrs_view(out0)[m]);
            }
            i = i + 1;
        }
        assert(attrs_view(out@) =~= self@);
        proof {
            assert(low@.skip(0) =~= low@);
        }
        let mut j: usize = 0;
        while j < low.attrs.len()
            invariant
                j <= low.attrs.len(),
                attrs_view(out@) + minus_keys(low@.skip(j as int), self@) == merged(self@, low@),
            decreases low.attrs.len() - j,
        {
            let ghost pending = low@.skip(j as int);
            proof {
                assert(pending[0] == low@[j as int]);
                assert(pending.drop_first() =~= low@.skip(j + 1));
            }
            let a = low.attrs[j].clone();
            proof {
                assert(a@ == low@[j as int]);
            }
            if !self.contains_key(&a.key) {
                let ghost out0 = attrs_view(out@);
                let ghost aview = a@;
                out.push(a);
                proof {
                    assert(attrs_view(out@) =~= out0.push(aview));
                    assert(out0.push(aview) =~= out0 + seq![aview]);
                    assert((out0 + seq![aview]) + minus_keys(pending.drop_first(), self@)
                        =~= out0 + (seq![aview] + minus_keys(pending.drop_first(), self@)));
                    assert(minus_keys(pending, self@) == seq![aview] + minus_keys(
                        pending.drop_first(),
                        self@,
                    ));
                }
            }
            j = j + 1;
        }
        proof {
            assert(low@.skip(low@.len() as int) =~= Seq::<AttrView>::empty());
            assert(attrs_view(out@) + Seq::<AttrView>::empty() =~= attrs_view(out@));
            if self.wf() && low.wf() {
                lemma_merged_distinct(self@, low@);
            }
        }
        let schema_url = if self.schema_url.eq(&low.schema_url) {
            self.schema_url.clone()
        } else if self.schema_url.as_str().is_empty() {
            low.schema_url.clone()
        } else if low.schema_url.as_str().is_empty() {
            self.schema_url.clone()
        } else {
            String::new()
        };
        AttributeSet { attrs: out, schema_url }
    }
}

/// A non-empty sequence carries a key exactly when its first pair does or
/// its remainder does.
pub proof fn lemma_has_key_cons(s: Seq<AttrView>, k: Seq<char>)
    requires
        s.len() > 0,
    ensures
        has_key(s, k) <==> (s[0].0 == k || has_key(s.drop_first(), k)),
{
    if has_key(s, k) {
        let i = choose|i: int| 0 <= i < s.len() && s[i].0 == k;
        if i > 0 {
            assert(s.drop_first()[i - 1] == s[i]);
        }
    }
    if has_key(s.drop_first(), k) {
        let i = choose|i: int| 0 <= i < s.drop_first().len() && s.drop_first()[i].0 == k;
        assert(s[i + 1] == s.drop_first()[i]);
    }
}

/// Looking a key up in a concatenation: a key of `a` resolves in `a`.
pub proof fn lemma_lookup_left(a: Seq<AttrView>, b: Seq<AttrView>, k: Seq<char>)
    requires
        has_key(a, k),
    ensures
        has_key(a + b, k),
        lookup(a + b, k) == lookup(a, k),
    decreases a.len(),
{
    let i = choose|i: int| 0 <= i < a.len() && a[i].0 == k;
    assert((a + b)[i] == a[i]);
    assert(has_key(a + b, k));
    assert((a + b)[0] == a[0]);
    if a[0].0 != k {
        assert(a.drop_first()[i - 1] == a[i]);
        assert(has_key(a.drop_first(), k));
        assert((a + b).drop_first() =~= a.drop_first() + b);
        lemma_lookup_left(a.drop_first(), b, k);
    }
}

/// Looking a key up in a concatenation: a key absent from `a` resolves
/// in `b`.
pub proof fn lemma_lookup_right(a: Seq<AttrView>, b: Seq<AttrView>, k: Seq<char>)
    requires
        !has_key(a, k),
    ensures
        has_key(a + b, k) <==> has_key(b, k),
        lookup(a + b, k) == lookup(b, k),
    decreases a.len(),
{
    if a.len() == 0 {
        assert(a + b =~= b);
    } else {
        assert(a[0].0 != k);
        assert((a + b)[0] == a[0]);
        assert(forall|i: int|
            0 <= i < a.drop_first().len() ==> a.drop_first()[i] == a[i + 1]);
        assert(!has_key(a.drop_first(), k));
        assert((a + b).drop_first() =~= a.drop_first() + b);
        lemma_lookup_right(a.drop_first(), b, k);
        lemma_has_key_cons(a + b, k);
    }
}

/// What `minus_keys` keeps of `low`: exactly the keys that `high` does
/// not claim, each with the value `low` gives it first.
pub proof fn lemma_minus_keys(low: Seq<AttrView>, high: Seq<AttrView>, k: Seq<char>)
    ensures
        has_key(minus_keys(low, high), k) <==> (has_key(low, k) && !has_key(high, k)),
        has_key(low, k) && !has_key(high, k) ==> lookup(minus_keys(low, high), k) == lookup(
            low,
            k,
        ),
    decreases low.len(),
{
    if low.len() > 0 {
        lemma_minus_keys(low.drop_first(), high, k);
        lemma_has_key_cons(low, k);
        if has_key(high, low[0].0) {
            if low[0].0 == k {
                assert(has_key(high, k));
            }
        } else {
            let m = seq![low[0]] + minus_keys(low.drop_first(), high);
            assert(m[0] == low[0]);
            assert(m.drop_first() =~= minus_keys(low.drop_first(), high));
            lemma_has_key_cons(m, k);
        }
    }
}

/// `lemma_minus_keys`, quantified over every key.
pub proof fn lemma_minus_keys_all(low: Seq<AttrView>, high: Seq<AttrView>)
    ensures
        forall|k: Seq<char>|
            has_key(minus_keys(low, high), k) <==> (has_key(low, k) && !has_key(high, k)),
{
    assert forall|k: Seq<char>|
        has_key(minus_keys(low, high), k) <==> (has_key(low, k) && !has_key(high, k)) by {
        lemma_minus_keys(low, high, k);
    }
}

/// `minus_keys` keeps at most one pair per key when `low` does.
pub proof fn lemma_minus_keys_distinct(low: Seq<AttrView>, high: Seq<AttrView>)
    requires
        distinct_keys(low),
    ensures
        distinct_keys(minus_keys(low, high)),
    decreases low.len(),
{
    if low.len() > 0 {
        assert(forall|i: int|
            0 <= i < low.drop_first().len() ==> low.drop_first()[i] == low[i + 1]);
        assert(distinct_keys(low.drop_first()));
        lemma_minus_keys_distinct(low.drop_first(), high);
        if !has_key(high, low[0].0) {
            let m = seq![low[0]] + minus_keys(low.drop_first(), high);
            lemma_minus_keys(low.drop_first(), high, low[0].0);
            assert(!has_key(low.drop_first(), low[0].0));
            assert(forall|i: int| 1 <= i < m.len() ==> m[i] == minus_keys(
                low.drop_first(),
                high,
            )[i - 1]);
            assert forall|i: int, j: int| 0 <= i < j < m.len() implies m[i].0 != m[j].0 by {
                if i == 0 {
                    if m[j].0 == m[0].0 {
                        assert(has_key(minus_keys(low.drop_first(), high), m[0].0));
                    }
                }
            }
        }
    }
}

/// Merging two well-formed sets yields a well-formed set.
pub proof fn lemma_merged_distinct(high: Seq<AttrView>, low: Seq<AttrView>)
    requires
        distinct_keys(high),
        distinct_keys(low),
    ensures
        distinct_keys(merged(high, low)),
{
    let m = minus_keys(low, high);
    lemma_minus_keys_distinct(low, high);
    lemma_minus_keys_all(low, high);
    let r = merged(high, low);
    assert forall|i: int, j: int| 0 <= i < j < r.len() implies r[i].0 != r[j].0 by {
        if i < high.len() && j >= high.len() {
            assert(r[i] == high[i]);
            assert(r[j] == m[j - high.len()]);
            if r[i].0 == r[j].0 {
                assert(has_key(high, m[j - high.len()].0));
                assert(has_key(m, m[j - high.len()].0));
            }
        } else if i >= high.len() {
            assert(r[i] == m[i - high.len()]);
            assert(r[j] == m[j - high.len()]);
        } else {
            assert(r[i] == high[i]);
            assert(r[j] == high[j]);
        }
    }
}

/// Law: the merge prefers the higher-precedence side. A key that `high`
/// claims keeps `high`'s value in the merged set, whatever `low` says.
pub proof fn lemma_merge_prefers_high(high: Seq<AttrView>, low: Seq<AttrView>, k: Seq<char>)
    requires
        has_key(high, k),
    ensures
        has_key(merged(high, low), k),
        lookup(merged(high, low), k) == lookup(high, k),
{
    lemma_lookup_left(high, minus_keys(low, high), k);
}

/// Law: the merge is a union. A key that `high` does not claim survives
/// exactly when `low` carries it, and then keeps `low`'s value.
pub proof fn lemma_merge_keeps_low(high: Seq<AttrView>, low: Seq<AttrView>, k: Seq<char>)
    requires
        !has_key(high, k),
    ensures
        has_key(merged(high, low), k) <==> has_key(low, k),
        has_key(low, k) ==> lookup(merged(high, low), k) == lookup(low, k),
{
    lemma_lookup_right(high, minus_keys(low, high), k);
    lemma_minus_keys(low, high, k);
}

/// When the first occurrence of `k` in `s` stands at `i`, `lookup` yields
/// that pair's value.
pub proof fn lemma_lookup_at(s: Seq<AttrView>, k: Seq<char>, i: int)
    requires
        0 <= i < s.len(),
        s[i].0 == k,
        forall|j: int| 0 <= j < i ==> s[j].0 != k,
    ensures
        has_key(s, k),
        lookup(s, k) == s[i].1,
    decreases i,
{
    if i > 0 {
        lemma_lookup_at(s.drop_first(), k, i - 1);
    }
}

} // verus!
