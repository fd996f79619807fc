//! Maps and sets of structured keys, kept as lists of entries.
use vstd::prelude::*;

verus! {

/// A key that can be compared and copied. What a key stands for is its view.
pub trait Key: View + Sized {
    /// Whether a key comes before another.
    spec fn before(a: Self::V, b: Self::V) -> bool;

    /// Of two different keys, exactly one comes first.
    proof fn order_is_total(a: Self::V, b: Self::V)
        ensures
            a == b ==> !Self::before(a, b),
            a != b ==> Self::before(a, b) != Self::before(b, a),
    ;

    /// The order of keys is transitive.
    proof fn order_is_transitive(a: Self::V, b: Self::V, c: Self::V)
        requires
            Self::before(a, b),
            Self::before(b, c),
        ensures
            Self::before(a, c),
    ;

    /// Whether the key comes before another.
    fn comes_before(&self, other: &Self) -> (r: bool)
        ensures
            r == Self::before(self@, other@),
    ;

    /// Whether two keys stand for the same thing.
    fn same_key(&self, other: &Self) -> (r: bool)
        ensures
            r == (self@ == other@),
    ;

    /// A copy of the key.
    fn copy_key(&self) -> (r: Self)
        ensures
            r@ == self@,
    ;
}

impl Key for String {
    open spec fn before(a: Seq<char>, b: Seq<char>) -> bool {
        crate::order::text_less(a, b)
    }

    proof fn order_is_total(a: Seq<char>, b: Seq<char>) {
        crate::order::law_text_order_is_total(a, b);
    }

    proof fn order_is_transitive(a: Seq<char>, b: Seq<char>, c: Seq<char>) {
        crate::order::law_text_order_is_transitive(a, b, c);
    }

    fn comes_before(&self, other: &Self) -> (r: bool) {
        let r: bool = crate::order::less(self.as_str(), other.as_str());
        assert(r == crate::order::text_less(self@, other@));
        assert(Self::before(self@, other@) == crate::order::text_less(self@, other@)) by {
            reveal(<String as Key>::before);
        }
        r
    }

    fn same_key(&self, other: &Self) -> (r: bool) {
        crate::text::same(self.as_str(), other.as_str())
    }

    fn copy_key(&self) -> (r: Self) {
        self.clone()
    }
}

impl Key for u64 {
    open spec fn before(a: u64, b: u64) -> bool {
        a < b
    }

    proof fn order_is_total(a: u64, b: u64) {
    }

    proof fn order_is_transitive(a: u64, b: u64, c: u64) {
    }

    fn comes_before(&self, other: &Self) -> (r: bool) {
        *self < *other
    }

    fn same_key(&self, other: &Self) -> (r: bool) {
        *self == *other
    }

    fn copy_key(&self) -> (r: Self) {
        *self
    }
}

/// Whether a pair of keys comes before another: the first keys decide, and the second
/// ones where the first are the same.
pub open spec fn pair_before<A: Key, B: Key>(a: A::V, b: B::V, c: A::V, d: B::V) -> bool {
    A::before(a, c) || (a == c && B::before(b, d))
}

/// The order of pairs is total where those of the parts are.
pub proof fn lemma_pair_order_is_total<A: Key, B: Key>(a: A::V, b: B::V, c: A::V, d: B::V)
    ensures
        a == c && b == d ==> !pair_before::<A, B>(a, b, c, d),
        a != c || b != d ==> pair_before::<A, B>(a, b, c, d) != pair_before::<A, B>(c, d, a, b),
{
    A::order_is_total(a, c);
    B::order_is_total(b, d);
}

/// The order of pairs is transitive where those of the parts are.
pub proof fn lemma_pair_order_is_transitive<A: Key, B: Key>(
    a: A::V,
    b: B::V,
    c: A::V,
    d: B::V,
    e: A::V,
    f: B::V,
)
    requires
        pair_before::<A, B>(a, b, c, d),
        pair_before::<A, B>(c, d, e, f),
    ensures
        pair_before::<A, B>(a, b, e, f),
{
    if A::before(a, c) && A::before(c, e) {
        A::order_is_transitive(a, c, e);
    }
    if B::before(b, d) && B::before(d, f) {
        B::order_is_transitive(b, d, f);
    }
}

/// What a list of keys stands for.
pub open spec fn key_views<K: View>(keys: Seq<K>) -> Seq<K::V> {
    Seq::new(keys.len(), |i: int| keys[i]@)
}

/// Whether each key of a list comes before the ones behind it.
pub open spec fn in_order<K: Key>(keys: Seq<K::V>) -> bool {
    forall|i: int, j: int|
        #![trigger keys[i], keys[j]]
        0 <= i < j < keys.len() ==> K::before(keys[i], keys[j])
}

/// Whether a list holds exactly the keys of a set, in their order.
pub open spec fn lists<K: Key>(keys: Seq<K::V>, set: Set<K::V>) -> bool {
    &&& in_order::<K>(keys)
    &&& forall|key: K::V| #[trigger] keys.contains(key) <==> set.contains(key)
}

/// The keys of a finite set, in their order.
pub open spec fn ordered<K: Key>(set: Set<K::V>) -> Seq<K::V> {
    choose|keys: Seq<K::V>| lists::<K>(keys, set)
}

proof fn lemma_first_is_shared<K: Key>(a: Seq<K::V>, b: Seq<K::V>)
    requires
        in_order::<K>(a),
        in_order::<K>(b),
        a.len() > 0,
        forall|key: K::V| #[trigger] a.contains(key) <==> b.contains(key),
    ensures
        b.len() > 0,
        a[0] == b[0],
{
    assert(a.contains(a[0]));
    let j = choose|j: int| 0 <= j < b.len() && b[j] == a[0];
    assert(b.contains(b[0]));
    assert(a.contains(b[0]));
    let i = choose|i: int| 0 <= i < a.len() && a[i] == b[0];
    K::order_is_total(a[0], b[0]);
    if i > 0 && j > 0 {
        assert(K::before(a[0], a[i]));
        assert(K::before(b[0], b[j]));
    }
}

proof fn lemma_same_list<K: Key>(a: Seq<K::V>, b: Seq<K::V>)
    requires
        in_order::<K>(a),
        in_order::<K>(b),
        forall|key: K::V| #[trigger] a.contains(key) <==> b.contains(key),
    ensures
        a == b,
    decreases a.len(),
{
    if a.len() == 0 {
        if b.len() > 0 {
            assert(b.contains(b[0]));
            assert(a.contains(b[0]));
        }
        assert(a =~= b);
    } else {
        lemma_first_is_shared::<K>(a, b);
        let x = a.skip(1);
        let y = b.skip(1);
        assert forall|i: int, j: int| 0 <= i < j < x.len() implies K::before(
            #[trigger] x[i],
            #[trigger] x[j],
        ) by {
            assert(K::before(a[i + 1], a[j + 1]));
        }
        assert forall|i: int, j: int| 0 <= i < j < y.len() implies K::before(
            #[trigger] y[i],
            #[trigger] y[j],
        ) by {
            assert(K::before(b[i + 1], b[j + 1]));
        }
        assert forall|key: K::V| #[trigger] x.contains(key) <==> y.contains(key) by {
            if x.contains(key) {
                let i = choose|i: int| 0 <= i < x.len() && x[i] == key;
                assert(a[i + 1] == key);
                assert(a.contains(key));
                K::order_is_total(a[0], a[i + 1]);
                let j = choose|j: int| 0 <= j < b.len() && b[j] == key;
                assert(y[j - 1] == key);
            }
            if y.contains(key) {
                let i = choose|i: int| 0 <= i < y.len() && y[i] == key;
                assert(b[i + 1] == key);
                assert(b.contains(key));
                assert(a.contains(key));
                K::order_is_total(b[0], b[i + 1]);
                let j = choose|j: int| 0 <= j < a.len() && a[j] == key;
                assert(x[j - 1] == key);
            }
        }
        lemma_same_list::<K>(x, y);
        assert(a =~= seq![a[0]] + x);
        assert(b =~= seq![b[0]] + y);
    }
}

/// A set has only one list of its keys in their order.
pub proof fn lemma_ordered_is_unique<K: Key>(keys: Seq<K::V>, set: Set<K::V>)
    requires
        lists::<K>(keys, set),
    ensures
        keys == ordered::<K>(set),
{
    let other = ordered::<K>(set);
    assert(lists::<K>(other, set));
    assert forall|key: K::V| #[trigger] keys.contains(key) <==> other.contains(key) by {
        assert(keys.contains(key) <==> set.contains(key));
        assert(other.contains(key) <==> set.contains(key));
    }
    lemma_same_list::<K>(keys, other);
}

proof fn lemma_place_for<K: Key>(keys: Seq<K::V>, key: K::V, n: nat) -> (at: int)
    requires
        n <= keys.len(),
        in_order::<K>(keys),
        !keys.contains(key),
        forall|i: int| n <= i < keys.len() ==> K::before(key, #[trigger] keys[i]),
    ensures
        0 <= at <= keys.len(),
        forall|i: int| 0 <= i < at ==> K::before(#[trigger] keys[i], key),
        forall|i: int| at <= i < keys.len() ==> K::before(key, #[trigger] keys[i]),
    decreases n,
{
    if n == 0 {
        0
    } else {
        let last = keys[n - 1];
        assert(keys.contains(last));
        K::order_is_total(last, key);
        if K::before(last, key) {
            assert forall|i: int| 0 <= i < n implies K::before(#[trigger] keys[i], key) by {
                if i < n - 1 {
                    K::order_is_transitive(keys[i], last, key);
                }
            }
            n as int
        } else {
            lemma_place_for::<K>(keys, key, (n - 1) as nat)
        }
    }
}

/// Every finite set has a list of its keys in their order.
pub proof fn lemma_ordered_exists<K: Key>(set: Set<K::V>)
    requires
        set.finite(),
    ensures
        lists::<K>(ordered::<K>(set), set),
    decreases set.len(),
{
    if set.len() == 0 {
        let keys = Seq::<K::V>::empty();
        assert(set =~= Set::empty());
        assert(lists::<K>(keys, set));
    } else {
        let key = set.choose();
        let rest = set.remove(key);
        lemma_ordered_exists::<K>(rest);
        let keys = ordered::<K>(rest);
        assert(!keys.contains(key));
        let at = lemma_place_for::<K>(keys, key, keys.len());
        let all = keys.insert(at, key);
        assert forall|i: int, j: int| 0 <= i < j < all.len() implies K::before(
            #[trigger] all[i],
            #[trigger] all[j],
        ) by {
            let a = if i < at {
                i
            } else {
                i - 1
            };
            let b = if j < at {
                j
            } else {
                j - 1
            };
            if i != at {
                assert(all[i] == keys[a]);
            }
            if j != at {
                assert(all[j] == keys[b]);
            }
        }
        assert forall|other: K::V| #[trigger] all.contains(other) <==> set.contains(other) by {
            if all.contains(other) && other != key {
                let i = choose|i: int| 0 <= i < all.len() && all[i] == other;
                let a = if i < at {
                    i
                } else {
                    i - 1
                };
                assert(keys[a] == other);
                assert(keys.contains(other));
            }
            if other == key {
                assert(all[at] == key);
            } else if set.contains(other) {
                assert(keys.contains(other));
                let i = choose|i: int| 0 <= i < keys.len() && keys[i] == other;
                let a = if i < at {
                    i
                } else {
                    i + 1
                };
                assert(all[a] == other);
            }
        }
        assert(lists::<K>(all, set));
    }
}

/// Puts a key where it belongs in an ordered list that does not hold it yet.
fn insert_in_order<K: Key>(keys: &mut Vec<K>, key: K)
    requires
        in_order::<K>(key_views(old(keys)@)),
    ensures
        in_order::<K>(key_views(final(keys)@)),
        forall|k: K::V| #[trigger]
            key_views(final(keys)@).contains(k) <==> key_views(old(keys)@).contains(k) || k == key@,
{
    let ghost all = key_views(keys@);
    let mut at: usize = 0;
    while at < keys.len() && keys[at].comes_before(&key)
        invariant
            at <= keys.len(),
            all == key_views(keys@),
            in_order::<K>(all),
            forall|i: int| 0 <= i < at ==> K::before(#[trigger] all[i], key@),
        decreases keys.len() - at,
    {
        assert(all[at as int] == keys@[at as int]@);
        at += 1;
    }
    if at < keys.len() {
        assert(all[at as int] == keys@[at as int]@);
        if keys[at].same_key(&key) {
            assert(all.contains(key@));
            return;
        }
        proof {
            K::order_is_total(all[at as int], key@);
            assert forall|i: int| at <= i < all.len() implies K::before(
                key@,
                #[trigger] all[i],
            ) by {
                if i > at {
                    K::order_is_transitive(key@, all[at as int], all[i]);
                }
            }
        }
    }
    let ghost value = key@;
    keys.insert(at, key);
    proof {
        let now = key_views(keys@);
        assert(now =~= all.insert(at as int, value));
        assert forall|i: int, j: int| 0 <= i < j < now.len() implies K::before(
            #[trigger] now[i],
            #[trigger] now[j],
        ) by {
            if i < at {
                assert(now[i] == all[i]);
                if j < at {
                    assert(now[j] == all[j]);
                } else if j > at {
                    assert(now[j] == all[j - 1]);
                }
            } else {
                assert(now[j] == all[j - 1]);
                if i > at {
                    assert(now[i] == all[i - 1]);
                }
            }
        }
        assert forall|k: K::V| #[trigger] now.contains(k) <==> all.contains(k) || k == value by {
            if all.contains(k) {
                let i = choose|i: int| 0 <= i < all.len() && all[i] == k;
                if i < at {
                    assert(now[i] == k);
                } else {
                    assert(now[i + 1] == k);
                }
            }
            if k == value {
                assert(now[at as int] == k);
            }
            if now.contains(k) && k != value {
                let i = choose|i: int| 0 <= i < now.len() && now[i] == k;
                if i < at {
                    assert(all[i] == k);
                } else {
                    assert(all[i - 1] == k);
                }
            }
        }
    }
}

/// A list of the keys of a set has as many items as the set.
pub proof fn lemma_list_length<K: Key>(keys: Seq<K::V>, set: Set<K::V>)
    requires
        lists::<K>(keys, set),
    ensures
        set.finite(),
        set.len() == keys.len(),
{
    assert forall|i: int, j: int| 0 <= i < j < keys.len() implies keys[i] != keys[j] by {
        K::order_is_total(keys[i], keys[j]);
    }
    keys.unique_seq_to_set();
    assert(keys.to_set() =~= set);
    vstd::seq_lib::seq_to_set_is_finite(keys);
}

/// A map: the first entry with a key holds the key's value.
pub struct Table<K, V> {
    entries: Vec<(K, V)>,
}

/// The value of the first entry with a key.
pub open spec fn lookup<K: View, V>(entries: Seq<(K, V)>, key: K::V) -> Option<V>
    decreases entries.len(),
{
    if entries.len() == 0 {
        None
    } else if entries[0].0@ == key {
        Some(entries[0].1)
    } else {
        lookup(entries.skip(1), key)
    }
}

proof fn lemma_lookup_concat<K: View, V>(a: Seq<(K, V)>, b: Seq<(K, V)>, key: K::V)
    ensures
        lookup(a + b, key) == (match lookup(a, key) {
            Some(value) => Some(value),
            None => lookup(b, key),
        }),
    decreases a.len(),
{
    if a.len() == 0 {
        assert(a + b =~= b);
    } else {
        assert((a + b).skip(1) =~= a.skip(1) + b);
        lemma_lookup_concat(a.skip(1), b, key);
    }
}

proof fn lemma_lookup_one<K: View, V>(entry: (K, V), key: K::V)
    ensures
        lookup(seq![entry], key) == (if entry.0@ == key {
            Some(entry.1)
        } else {
            None
        }),
{
    assert(seq![entry].skip(1) =~= Seq::<(K, V)>::empty());
    assert(lookup(Seq::<(K, V)>::empty(), key) is None);
}

proof fn lemma_lookup_absent<K: View, V>(entries: Seq<(K, V)>, key: K::V)
    requires
        forall|i: int| 0 <= i < entries.len() ==> (#[trigger] entries[i]).0@ != key,
    ensures
        lookup(entries, key) is None,
    decreases entries.len(),
{
    if entries.len() > 0 {
        assert forall|i: int| 0 <= i < entries.skip(1).len() implies (
        #[trigger] entries.skip(1)[i]).0@ != key by {
            assert(entries.skip(1)[i] == entries[i + 1]);
        }
        lemma_lookup_absent(entries.skip(1), key);
    }
}

proof fn lemma_lookup_present<K: View, V>(entries: Seq<(K, V)>, i: int)
    requires
        0 <= i < entries.len(),
    ensures
        lookup(entries, entries[i].0@) is Some,
    decreases i,
{
    if i > 0 && entries[0].0@ != entries[i].0@ {
        assert(entries.skip(1)[i - 1] == entries[i]);
        lemma_lookup_present(entries.skip(1), i - 1);
    }
}

impl<K: Key, V> Table<K, V> {
    /// The map that the entries stand for.
    pub closed spec fn view(&self) -> Map<K::V, V> {
        Map::new(
            |key: K::V| lookup(self.entries@, key) is Some,
            |key: K::V| lookup(self.entries@, key)->0,
        )
    }

    /// A map with no entries.
    pub fn new() -> (r: Self)
        ensures
            r@ == Map::<K::V, V>::empty(),
    {
        let r = Table { entries: Vec::new() };
        assert(r@ =~= Map::<K::V, V>::empty());
        r
    }

    fn position(&self, key: &K) -> (r: Option<usize>)
        ensures
            match r {
                Some(i) => {
                    &&& i < self.entries.len()
                    &&& self.entries@[i as int].0@ == key@
                    &&& forall|k: int| 0 <= k < i ==> (#[trigger] self.entries@[k]).0@ != key@
                },
                None => forall|k: int|
                    0 <= k < self.entries.len() ==> (#[trigger] self.entries@[k]).0@ != key@,
            },
    {
        let mut i: usize = 0;
        while i < self.entries.len()
            invariant
                i <= self.entries.len(),
                forall|k: int| 0 <= k < i ==> (#[trigger] self.entries@[k]).0@ != key@,
            decreases self.entries.len() - i,
        {
            if self.entries[i].0.same_key(key) {
                return Some(i);
            }
            i += 1;
        }
        None
    }

    proof fn lemma_position(&self, key: K::V, i: int)
        requires
            0 <= i < self.entries@.len(),
            self.entries@[i].0@ == key,
            forall|k: int| 0 <= k < i ==> (#[trigger] self.entries@[k]).0@ != key,
        ensures
            lookup(self.entries@, key) == Some(self.entries@[i].1),
    {
        let head = self.entries@.take(i);
        let tail = self.entries@.skip(i);
        assert(self.entries@ =~= head + tail);
        assert forall|k: int| 0 <= k < head.len() implies (#[trigger] head[k]).0@ != key by {
            assert(head[k] == self.entries@[k]);
        }
        lemma_lookup_absent(head, key);
        lemma_lookup_concat(head, tail, key);
    }

    /// The value of a key.
    pub fn get(&self, key: &K) -> (r: Option<&V>)
        ensures
            match r {
                Some(value) => self@.dom().contains(key@) && *value == self@[key@],
                None => !self@.dom().contains(key@),
            },
    {
        match self.position(key) {
            Some(i) => {
                proof {
                    self.lemma_position(key@, i as int);
                }
                Some(&self.entries[i].1)
            },
            None => {
                proof {
                    lemma_lookup_absent(self.entries@, key@);
                }
                None
            },
        }
    }

    /// Whether a key has a value.
    pub fn contains(&self, key: &K) -> (r: bool)
        ensures
            r == self@.dom().contains(key@),
    {
        self.get(key).is_some()
    }

    /// Gives a key a value, in place of the value that it had.
    pub fn insert(&mut self, key: K, value: V)
        ensures
            final(self)@ == old(self)@.insert(key@, value),
    {
        let found: Option<usize> = self.position(&key);
        let ghost before = self.entries@;
        let ghost k0 = key@;
        match found {
            Some(i) => {
                self.entries.set(i, (key, value));
                proof {
                    let head = before.take(i as int);
                    let tail = before.skip(i + 1);
                    let now = (key, value);
                    assert(self.entries@ =~= head + seq![now] + tail);
                    assert(before =~= head + seq![before[i as int]] + tail);
                    assert forall|k: K::V| #[trigger] lookup(self.entries@, k) == (if k == k0 {
                        Some(value)
                    } else {
                        lookup(before, k)
                    }) by {
                        lemma_lookup_concat(head + seq![now], tail, k);
                        lemma_lookup_concat(head, seq![now], k);
                        lemma_lookup_concat(head + seq![before[i as int]], tail, k);
                        lemma_lookup_concat(head, seq![before[i as int]], k);
                        lemma_lookup_one(now, k);
                        lemma_lookup_one(before[i as int], k);
                        if k == k0 {
                            assert forall|j: int| 0 <= j < head.len() implies (
                            #[trigger] head[j]).0@ != k by {
                                assert(head[j] == before[j]);
                            }
                            lemma_lookup_absent(head, k);
                        }
                    }
                }
            },
            None => {
                self.entries.push((key, value));
                proof {
                    let now = (key, value);
                    assert(self.entries@ =~= before + seq![now]);
                    assert forall|k: K::V| #[trigger] lookup(self.entries@, k) == (if k == k0 {
                        Some(value)
                    } else {
                        lookup(before, k)
                    }) by {
                        lemma_lookup_concat(before, seq![now], k);
                        lemma_lookup_one(now, k);
                        if k == k0 {
                            lemma_lookup_absent(before, k);
                        }
                    }
                }
            },
        }
        assert(self@ =~= old(self)@.insert(key@, value));
    }

    /// Takes a key and its value out.
    pub fn remove(&mut self, key: &K) -> (r: Option<V>)
        ensures
            final(self)@ == old(self)@.remove(key@),
            match r {
                Some(value) => old(self)@.dom().contains(key@) && value == old(self)@[key@],
                None => !old(self)@.dom().contains(key@),
            },
    {
        let mut kept: Vec<(K, V)> = Vec::new();
        let mut first: Option<V> = None;
        let ghost before = self.entries@;
        let mut rest: Vec<(K, V)> = Vec::new();
        std::mem::swap(&mut rest, &mut self.entries);
        assert(before.skip(0) =~= before);
        while rest.len() > 0
            invariant
                rest@.len() <= before.len(),
                rest@ == before.skip(before.len() - rest@.len()),
                forall|k: K::V| k != key@ ==> #[trigger] lookup(kept@, k) == lookup(
                    before.take(before.len() - rest@.len()),
                    k,
                ),
                lookup(kept@, key@) is None,
                first == lookup(before.take(before.len() - rest@.len()), key@),
            decreases rest.len(),
        {
            let ghost done = before.take(before.len() - rest@.len());
            let ghost at = before.len() - rest@.len();
            let entry: (K, V) = rest.remove(0);
            assert(entry == before[at]);
            assert(rest@ =~= before.skip(at + 1));
            assert(before.take(at + 1) =~= done + seq![entry]);
            proof {
                assert forall|k: K::V| #[trigger] lookup(before.take(at + 1), k) == (match lookup(
                    done,
                    k,
                ) {
                    Some(value) => Some(value),
                    None => if entry.0@ == k {
                        Some(entry.1)
                    } else {
                        None
                    },
                }) by {
                    lemma_lookup_concat(done, seq![entry], k);
                    lemma_lookup_one(entry, k);
                }
            }
            if entry.0.same_key(key) {
                let (_, value) = entry;
                if first.is_none() {
                    first = Some(value);
                }
            } else {
                let ghost kept_before = kept@;
                kept.push(entry);
                proof {
                    assert(kept@ =~= kept_before + seq![entry]);
                    assert forall|k: K::V| #[trigger] lookup(kept@, k) == (match lookup(
                        kept_before,
                        k,
                    ) {
                        Some(value) => Some(value),
                        None => if entry.0@ == k {
                            Some(entry.1)
                        } else {
                            None
                        },
                    }) by {
                        lemma_lookup_concat(kept_before, seq![entry], k);
                        lemma_lookup_one(entry, k);
                    }
                }
            }
        }
        assert(before.take(before.len() as int) =~= before);
        self.entries = kept;
        assert(self@ =~= old(self)@.remove(key@));
        first
    }

    /// The keys of the map, in their order.
    pub fn keys(&self) -> (r: Vec<K>)
        ensures
            lists::<K>(key_views(r@), self@.dom()),
    {
        let mut out: Vec<K> = Vec::new();
        let mut i: usize = 0;
        assert(key_views(out@) =~= Seq::<K::V>::empty());
        while i < self.entries.len()
            invariant
                i <= self.entries.len(),
                in_order::<K>(key_views(out@)),
                forall|j: int|
                    0 <= j < i ==> key_views(out@).contains((#[trigger] self.entries@[j]).0@),
                forall|k: K::V| #[trigger]
                    key_views(out@).contains(k) ==> lookup(self.entries@, k) is Some,
            decreases self.entries.len() - i,
        {
            insert_in_order(&mut out, self.entries[i].0.copy_key());
            proof {
                lemma_lookup_present(self.entries@, i as int);
            }
            i += 1;
        }
        proof {
            assert forall|k: K::V| #[trigger]
                key_views(out@).contains(k) <==> self@.dom().contains(k) by {
                if lookup(self.entries@, k) is Some && !key_views(out@).contains(k) {
                    lemma_lookup_absent(self.entries@, k);
                }
            }
        }
        out
    }

    /// How many keys the map has.
    pub fn len(&self) -> (r: usize)
        ensures
            r == self@.dom().len(),
            self@.dom().finite(),
    {
        let keys: Vec<K> = self.keys();
        proof {
            lemma_list_length::<K>(key_views(keys@), self@.dom());
        }
        keys.len()
    }

    /// Whether the map has no entries.
    pub fn is_empty(&self) -> (r: bool)
        ensures
            r == (self@.dom() == Set::<K::V>::empty()),
    {
        let r: bool = self.entries.len() == 0;
        proof {
            if r {
                assert(self@.dom() =~= Set::<K::V>::empty());
            } else {
                self.lemma_position(self.entries@[0].0@, 0);
                assert(self@.dom().contains(self.entries@[0].0@));
            }
        }
        r
    }
}

/// A set of structured keys.
pub struct KeySet<K> {
    table: Table<K, ()>,
}

impl<K: Key> KeySet<K> {
    /// The set that the keys make up.
    pub closed spec fn view(&self) -> Set<K::V> {
        self.table@.dom()
    }

    /// A set without keys.
    pub fn new() -> (r: Self)
        ensures
            r@ == Set::<K::V>::empty(),
    {
        let r = KeySet { table: Table::new() };
        assert(r@ =~= Set::<K::V>::empty());
        r
    }

    /// Whether a key is in the set.
    pub fn contains(&self, key: &K) -> (r: bool)
        ensures
            r == self@.contains(key@),
    {
        self.table.contains(key)
    }

    /// Puts a key into the set; says whether it was not there before.
    pub fn insert(&mut self, key: K) -> (r: bool)
        ensures
            final(self)@ == old(self)@.insert(key@),
            r == !old(self)@.contains(key@),
    {
        let fresh: bool = !self.table.contains(&key);
        self.table.insert(key, ());
        assert(self@ =~= old(self)@.insert(key@));
        fresh
    }

    /// Takes a key out of the set; says whether it was there.
    pub fn remove(&mut self, key: &K) -> (r: bool)
        ensures
            final(self)@ == old(self)@.remove(key@),
            r == old(self)@.contains(key@),
    {
        let there: bool = self.table.remove(key).is_some();
        assert(self@ =~= old(self)@.remove(key@));
        there
    }

    /// The keys of the set, in their order.
    pub fn keys(&self) -> (r: Vec<K>)
        ensures
            lists::<K>(key_views(r@), self@),
            key_views(r@) == ordered::<K>(self@),
    {
        let r: Vec<K> = self.table.keys();
        proof {
            lemma_ordered_is_unique::<K>(key_views(r@), self@);
        }
        r
    }

    /// How many keys the set has.
    pub fn len(&self) -> (r: usize)
        ensures
            r == self@.len(),
            self@.finite(),
    {
        self.table.len()
    }

    /// Whether the set has no keys.
    pub fn is_empty(&self) -> (r: bool)
        ensures
            r == (self@ == Set::<K::V>::empty()),
    {
        self.table.is_empty()
    }
}

} // verus!
