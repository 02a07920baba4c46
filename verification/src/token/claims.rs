//! The claims a token carries: string keys mapped to string values, held as
//! pairs with no key occurring twice.

use vstd::prelude::*;

verus! {

/// The pairs, read as text.
pub open spec fn pair_texts(entries: Seq<(String, String)>) -> Seq<(Seq<char>, Seq<char>)> {
    entries.map_values(|p: (String, String)| (p.0@, p.1@))
}

/// No key occurs twice among the pairs.
pub open spec fn keys_distinct(s: Seq<(Seq<char>, Seq<char>)>) -> bool {
    forall|i: int, j: int| 0 <= i < j < s.len() ==> s[i].0 != s[j].0
}

/// `a` comes before `b` in the order of `String`: character by character
/// (by code point, which is the order of their UTF-8 bytes), a proper prefix
/// first.
pub open spec fn text_less(a: Seq<char>, b: Seq<char>) -> bool
    decreases a.len(),
{
    if a.len() == 0 {
        b.len() > 0
    } else if b.len() == 0 {
        false
    } else if a[0] != b[0] {
        (a[0] as int) < (b[0] as int)
    } else {
        text_less(a.skip(1), b.skip(1))
    }
}

/// No text comes before itself.
pub proof fn lemma_text_less_irreflexive(a: Seq<char>)
    ensures
        !text_less(a, a),
    decreases a.len(),
{
    if a.len() > 0 {
        lemma_text_less_irreflexive(a.skip(1));
    }
}

/// The order of texts is transitive.
pub proof fn lemma_text_less_transitive(a: Seq<char>, b: Seq<char>, c: Seq<char>)
    requires
        text_less(a, b),
        text_less(b, c),
    ensures
        text_less(a, c),
    decreases a.len(),
{
    if a.len() > 0 && b.len() > 0 && c.len() > 0 && a[0] == b[0] && b[0] == c[0] {
        lemma_text_less_transitive(a.skip(1), b.skip(1), c.skip(1));
    }
}

/// Of two different texts, one comes before the other.
pub proof fn lemma_text_less_total(a: Seq<char>, b: Seq<char>)
    requires
        a != b,
    ensures
        text_less(a, b) || text_less(b, a),
    decreases a.len(),
{
    if a.len() > 0 && b.len() > 0 && a[0] == b[0] {
        if a.skip(1) == b.skip(1) {
            assert(a =~= seq![a[0]] + a.skip(1));
            assert(b =~= seq![b[0]] + b.skip(1));
        }
        lemma_text_less_total(a.skip(1), b.skip(1));
    } else if a.len() == 0 && b.len() == 0 {
        assert(a =~= b);
    }
}

/// The keys of the pairs come in increasing order.
pub open spec fn keys_sorted(s: Seq<(Seq<char>, Seq<char>)>) -> bool {
    forall|i: int, j: int| 0 <= i < j < s.len() ==> text_less(#[trigger] s[i].0, #[trigger] s[j].0)
}

/// Keys in increasing order occur once each.
pub proof fn lemma_sorted_distinct(s: Seq<(Seq<char>, Seq<char>)>)
    requires
        keys_sorted(s),
    ensures
        keys_distinct(s),
{
    assert forall|i: int, j: int| 0 <= i < j < s.len() implies s[i].0 != s[j].0 by {
        if s[i].0 == s[j].0 {
            lemma_text_less_irreflexive(s[i].0);
        }
    }
}

/// Whether `a` comes before `b`.
pub fn text_less_than(a: &str, b: &str) -> (r: bool)
    ensures
        r == text_less(a@, b@),
{
    let la = a.unicode_len();
    let lb = b.unicode_len();
    let mut i: usize = 0;
    assert(a@.skip(0) =~= a@ && b@.skip(0) =~= b@);
    while i < la && i < lb
        invariant
            i <= la,
            i <= lb,
            la == a@.len(),
            lb == b@.len(),
            text_less(a@, b@) == text_less(a@.skip(i as int), b@.skip(i as int)),
        decreases la - i,
    {
        let ca = a.get_char(i);
        let cb = b.get_char(i);
        assert(a@.skip(i as int)[0] == ca && b@.skip(i as int)[0] == cb);
        if ca != cb {
            return (ca as u32) < (cb as u32);
        }
        assert(a@.skip(i as int).skip(1) =~= a@.skip(i + 1));
        assert(b@.skip(i as int).skip(1) =~= b@.skip(i + 1));
        i += 1;
    }
    i == la && i < lb
}

/// The map that the pairs spell out, a later pair overriding an earlier one.
pub open spec fn pairs_map(s: Seq<(Seq<char>, Seq<char>)>) -> Map<Seq<char>, Seq<char>>
    decreases s.len(),
{
    if s.len() == 0 {
        Map::empty()
    } else {
        pairs_map(s.drop_last()).insert(s.last().0, s.last().1)
    }
}

/// A key is in the map the pairs spell out exactly when some pair has it.
pub proof fn lemma_pairs_map_dom(s: Seq<(Seq<char>, Seq<char>)>, k: Seq<char>)
    ensures
        pairs_map(s).contains_key(k) <==> exists|i: int| 0 <= i < s.len() && s[i].0 == k,
    decreases s.len(),
{
    if s.len() > 0 {
        lemma_pairs_map_dom(s.drop_last(), k);
        if pairs_map(s).contains_key(k) && k != s.last().0 {
            let i = choose|i: int| 0 <= i < s.drop_last().len() && s.drop_last()[i].0 == k;
            assert(s[i].0 == k);
        }
        if exists|i: int| 0 <= i < s.len() && s[i].0 == k {
            let i = choose|i: int| 0 <= i < s.len() && s[i].0 == k;
            if i < s.len() - 1 {
                assert(s.drop_last()[i].0 == k);
            }
        }
    }
}

/// With no key twice, each pair's value is what the map holds for its key.
pub proof fn lemma_pairs_map_value(s: Seq<(Seq<char>, Seq<char>)>, i: int)
    requires
        keys_distinct(s),
        0 <= i < s.len(),
    ensures
        pairs_map(s).contains_key(s[i].0),
        pairs_map(s)[s[i].0] == s[i].1,
    decreases s.len(),
{
    if i < s.len() - 1 {
        lemma_pairs_map_value(s.drop_last(), i);
    }
}

/// Replacing one pair's value updates that key in the map and keeps the
/// keys distinct.
pub proof fn lemma_pairs_map_update(s: Seq<(Seq<char>, Seq<char>)>, i: int, v: Seq<char>)
    requires
        keys_distinct(s),
        0 <= i < s.len(),
    ensures
        keys_distinct(s.update(i, (s[i].0, v))),
        pairs_map(s.update(i, (s[i].0, v))) == pairs_map(s).insert(s[i].0, v),
    decreases s.len(),
{
    let t = s.update(i, (s[i].0, v));
    if i == s.len() - 1 {
        assert(t.drop_last() =~= s.drop_last());
    } else {
        lemma_pairs_map_update(s.drop_last(), i, v);
        assert(t.drop_last() =~= s.drop_last().update(i, (s[i].0, v)));
    }
    assert(pairs_map(t) =~= pairs_map(s).insert(s[i].0, v));
}

/// Putting a pair with a new key anywhere among pairs with distinct keys
/// adds that key to the map they spell out.
pub proof fn lemma_pairs_map_insert_at(s: Seq<(Seq<char>, Seq<char>)>, i: int, p: (Seq<char>, Seq<char>))
    requires
        keys_distinct(s),
        0 <= i <= s.len(),
        forall|j: int| 0 <= j < s.len() ==> s[j].0 != p.0,
    ensures
        keys_distinct(s.insert(i, p)),
        pairs_map(s.insert(i, p)) == pairs_map(s).insert(p.0, p.1),
{
    let t = s.insert(i, p);
    assert forall|a: int, b: int| 0 <= a < b < t.len() implies t[a].0 != t[b].0 by {
        if a < i && b < i {
            assert(t[a] == s[a] && t[b] == s[b]);
        } else if a < i && b == i {
            assert(t[a] == s[a]);
        } else if a < i {
            assert(t[a] == s[a] && t[b] == s[b - 1]);
        } else if a == i {
            assert(t[b] == s[b - 1]);
        } else {
            assert(t[a] == s[a - 1] && t[b] == s[b - 1]);
        }
    }
    let m = pairs_map(s).insert(p.0, p.1);
    assert forall|k: Seq<char>| pairs_map(t).contains_key(k) <==> m.contains_key(k) by {
        lemma_pairs_map_dom(t, k);
        lemma_pairs_map_dom(s, k);
        if exists|j: int| 0 <= j < t.len() && t[j].0 == k {
            let j = choose|j: int| 0 <= j < t.len() && t[j].0 == k;
            if j < i {
                assert(s[j].0 == k);
            } else if j > i {
                assert(s[j - 1].0 == k);
            }
        }
        if exists|j: int| 0 <= j < s.len() && s[j].0 == k {
            let j = choose|j: int| 0 <= j < s.len() && s[j].0 == k;
            if j < i {
                assert(t[j].0 == k);
            } else {
                assert(t[j + 1].0 == k);
            }
        }
        if k == p.0 {
            assert(t[i].0 == k);
        }
    }
    assert forall|k: Seq<char>| m.contains_key(k) implies pairs_map(t)[k] == m[k] by {
        if k == p.0 {
            lemma_pairs_map_value(t, i);
        } else {
            lemma_pairs_map_dom(s, k);
            let j = choose|j: int| 0 <= j < s.len() && s[j].0 == k;
            lemma_pairs_map_value(s, j);
            if j < i {
                assert(t[j] == s[j]);
                lemma_pairs_map_value(t, j);
            } else {
                assert(t[j + 1] == s[j]);
                lemma_pairs_map_value(t, j + 1);
            }
        }
    }
    assert(pairs_map(t) =~= m);
}

/// A set of claims, held as pairs in increasing order of their keys.
pub struct Claims {
    entries: Vec<(String, String)>,
}

impl View for Claims {
    type V = Map<Seq<char>, Seq<char>>;

    open spec fn view(&self) -> Map<Seq<char>, Seq<char>> {
        pairs_map(self.pairs())
    }
}

impl Claims {
    /// The pairs, read as text, in the order they are held.
    pub closed spec fn pairs(self) -> Seq<(Seq<char>, Seq<char>)> {
        pair_texts(self.entries@)
    }

    /// Claims made of pairs whose keys come in increasing order.
    pub fn from_sorted_pairs(entries: Vec<(String, String)>) -> (r: Claims)
        requires
            keys_sorted(pair_texts(entries@)),
        ensures
            r.wf(),
            r.pairs() == pair_texts(entries@),
            r@ == pairs_map(pair_texts(entries@)),
    {
        Claims { entries }
    }

    /// The pairs, in increasing order of their keys.
    pub fn entries(&self) -> (r: &Vec<(String, String)>)
        requires
            self.wf(),
        ensures
            pair_texts(r@) == self.pairs(),
            keys_sorted(pair_texts(r@)),
            keys_distinct(pair_texts(r@)),
            pairs_map(pair_texts(r@)) == self@,
    {
        proof {
            lemma_sorted_distinct(self.pairs());
        }
        &self.entries
    }

    /// Well-formed: the keys come in increasing order (so none occurs twice).
    pub open spec fn wf(self) -> bool {
        keys_sorted(self.pairs())
    }

    /// No claims.
    pub fn new() -> (r: Claims)
        ensures
            r.wf(),
            r@ == Map::<Seq<char>, Seq<char>>::empty(),
    {
        let r = Claims { entries: Vec::new() };
        proof {
            assert(r.pairs().len() == 0);
        }
        r
    }

    /// The number of claims.
    pub fn len(&self) -> (r: usize)
        requires
            self.wf(),
        ensures
            r == self@.len(),
    {
        proof {
            self.lemma_len();
        }
        self.entries.len()
    }

    /// Well-formed claims are as many as the pairs that hold them.
    pub proof fn lemma_len(self)
        requires
            self.wf(),
        ensures
            self@.dom().finite(),
            self@.len() == self.pairs().len(),
    {
        lemma_sorted_distinct(self.pairs());
        lemma_distinct_map_len(self.pairs());
    }

    /// The value claimed under `key`, if any.
    pub fn get(&self, key: &str) -> (r: Option<&String>)
        requires
            self.wf(),
        ensures
            r is Some <==> self@.contains_key(key@),
            r matches Some(v) ==> v@ == self@[key@],
    {
        proof {
            lemma_sorted_distinct(self.pairs());
        }
        let wanted = key.to_owned();
        let n = self.entries.len();
        let mut i: usize = 0;
        while i < n
            invariant
                n == self.entries@.len(),
                i <= n,
                wanted@ == key@,
                keys_distinct(self.pairs()),
                forall|j: int| 0 <= j < i ==> self.pairs()[j].0 != key@,
            decreases n - i,
        {
            if self.entries[i].0 == wanted {
                proof {
                    lemma_pairs_map_value(self.pairs(), i as int);
                }
                return Some(&self.entries[i].1);
            }
            i += 1;
        }
        proof {
            lemma_pairs_map_dom(self.pairs(), key@);
        }
        None
    }

    /// Claims `value` under `key`, replacing what was claimed under it; a new
    /// key takes its place in the order.
    pub fn insert(&mut self, key: String, value: String)
        requires
            old(self).wf(),
        ensures
            final(self).wf(),
            final(self)@ == old(self)@.insert(key@, value@),
    {
        proof {
            lemma_sorted_distinct(self.pairs());
        }
        let n = self.entries.len();
        let mut i: usize = 0;
        loop
            invariant
                n == self.entries@.len(),
                i <= n,
                self.entries@ == old(self).entries@,
                self.wf(),
                forall|j: int| 0 <= j < i ==> text_less(#[trigger] self.pairs()[j].0, key@),
            ensures
                n == self.entries@.len(),
                i <= n,
                self.entries@ == old(self).entries@,
                forall|j: int| 0 <= j < i ==> text_less(#[trigger] self.pairs()[j].0, key@),
                i < n ==> !text_less(self.pairs()[i as int].0, key@),
            decreases n - i,
        {
            if i == n {
                break;
            }
            if !text_less_than(self.entries[i].0.as_str(), key.as_str()) {
                break;
            }
            i += 1;
        }
        let ghost before = self.pairs();
        if i < n && self.entries[i].0 == key {
            proof {
                lemma_sorted_distinct(before);
                lemma_pairs_map_update(before, i as int, value@);
            }
            self.entries.set(i, (key, value));
            proof {
                assert(self.pairs() =~= before.update(i as int, (before[i as int].0, value@)));
                assert forall|a: int, b: int| 0 <= a < b < self.pairs().len() implies text_less(
                    #[trigger] self.pairs()[a].0,
                    #[trigger] self.pairs()[b].0,
                ) by {
                    assert(self.pairs()[a].0 == before[a].0 && self.pairs()[b].0 == before[b].0);
                }
            }
        } else {
            proof {
                lemma_sorted_distinct(before);
                assert forall|j: int| 0 <= j < before.len() implies before[j].0 != key@ by {
                    if j < i {
                        assert(text_less(before[j].0, key@));
                        lemma_text_less_irreflexive(key@);
                    } else {
                        assert(before[i as int].0 != key@);
                        lemma_text_less_total(before[i as int].0, key@);
                        if j > i {
                            lemma_text_less_transitive(key@, before[i as int].0, before[j].0);
                            lemma_text_less_irreflexive(key@);
                        }
                    }
                }
                lemma_pairs_map_insert_at(before, i as int, (key@, value@));
            }
            self.entries.insert(i, (key, value));
            proof {
                let t = before.insert(i as int, (key@, value@));
                assert(self.pairs() =~= t);
                if i < n {
                    lemma_text_less_total(before[i as int].0, key@);
                }
                assert forall|a: int, b: int| 0 <= a < b < t.len() implies text_less(
                    #[trigger] t[a].0,
                    #[trigger] t[b].0,
                ) by {
                    if a < i && b < i {
                        assert(t[a] == before[a] && t[b] == before[b]);
                    } else if a < i && b == i {
                        assert(t[a] == before[a]);
                    } else if a < i {
                        assert(t[a] == before[a] && t[b] == before[b - 1]);
                    } else if a == i {
                        assert(t[b] == before[b - 1]);
                        if b - 1 > i {
                            lemma_text_less_transitive(key@, before[i as int].0, before[b - 1].0);
                        }
                    } else {
                        assert(t[a] == before[a - 1] && t[b] == before[b - 1]);
                    }
                }
            }
        }
    }
}

/// With no key twice, the map the pairs spell out has one key per pair.
pub proof fn lemma_distinct_map_len(s: Seq<(Seq<char>, Seq<char>)>)
    requires
        keys_distinct(s),
    ensures
        pairs_map(s).dom().finite(),
        pairs_map(s).len() == s.len(),
    decreases s.len(),
{
    if s.len() > 0 {
        let t = s.drop_last();
        assert(keys_distinct(t));
        lemma_distinct_map_len(t);
        lemma_pairs_map_dom(t, s.last().0);
        if pairs_map(t).contains_key(s.last().0) {
            let i = choose|i: int| 0 <= i < t.len() && t[i].0 == s.last().0;
            assert(s[i].0 == s[s.len() - 1].0);
        }
    }
}

} // verus!
