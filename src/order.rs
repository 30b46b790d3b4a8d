//! Stable orderings: texts in descending code-point order, addresses in
//! ascending order. Each is an insertion order on indices.
use vstd::prelude::*;

verus! {

broadcast use vstd::string::group_string_axioms;

/// `a` comes strictly before `b` in lexicographic code-point order.
pub open spec fn lex_less(a: Seq<char>, b: Seq<char>) -> bool
    decreases a.len(),
{
    if a.len() == 0 {
        b.len() > 0
    } else if b.len() == 0 {
        false
    } else if a[0] != b[0] {
        a[0] < b[0]
    } else {
        lex_less(a.drop_first(), b.drop_first())
    }
}

/// Whether `a` is strictly before `b` in lexicographic code-point order.
pub fn text_less(a: &str, b: &str) -> (r: bool)
    ensures
        r == lex_less(a@, b@),
{
    let n = a.unicode_len();
    let m = b.unicode_len();
    let mut i: usize = 0;
    assert(a@.subrange(0, n as int) =~= a@);
    assert(b@.subrange(0, m as int) =~= b@);
    while i < n && i < m
        invariant
            n == a@.len(),
            m == b@.len(),
            i <= n,
            i <= m,
            lex_less(a@, b@) == lex_less(a@.subrange(i as int, n as int), b@.subrange(i as int, m as int)),
        decreases n - i,
    {
        let x = a.get_char(i);
        let y = b.get_char(i);
        let ghost sa = a@.subrange(i as int, n as int);
        let ghost sb = b@.subrange(i as int, m as int);
        assert(sa[0] == x && sb[0] == y);
        if x != y {
            return x < y;
        }
        assert(sa.drop_first() =~= a@.subrange(i + 1, n as int));
        assert(sb.drop_first() =~= b@.subrange(i + 1, m as int));
        i = i + 1;
    }
    let ghost sa = a@.subrange(i as int, n as int);
    let ghost sb = b@.subrange(i as int, m as int);
    assert(sa.len() == 0 || sb.len() == 0);
    i == n && i < m
}

/// Where a text goes among `order` (indices into `keys`) in descending order:
/// after every entry not below it, so that equal texts keep their order.
pub open spec fn desc_pos(order: Seq<usize>, keys: Seq<Seq<char>>, k: Seq<char>) -> nat
    decreases order.len(),
{
    if order.len() == 0 {
        0
    } else if lex_less(keys[order[0] as int], k) {
        0
    } else {
        1 + desc_pos(order.drop_first(), keys, k)
    }
}

/// The indices of the first `n` keys, in descending order of key, equal keys
/// in the order given.
pub open spec fn desc_order(keys: Seq<Seq<char>>, n: nat) -> Seq<usize>
    decreases n,
{
    if n == 0 {
        Seq::empty()
    } else {
        let o = desc_order(keys, (n - 1) as nat);
        o.insert(desc_pos(o, keys, keys[n - 1]) as int, (n - 1) as usize)
    }
}

proof fn lemma_desc_pos(order: Seq<usize>, keys: Seq<Seq<char>>, k: Seq<char>, j: int)
    requires
        0 <= j <= order.len(),
        forall|t: int| 0 <= t < j ==> !lex_less(#[trigger] keys[order[t] as int], k),
        j == order.len() || lex_less(keys[order[j] as int], k),
    ensures
        desc_pos(order, keys, k) == j,
    decreases order.len(),
{
    if order.len() > 0 && j > 0 {
        assert(!lex_less(keys[order[0] as int], k));
        assert forall|t: int| 0 <= t < j - 1 implies !lex_less(#[trigger] keys[order.drop_first()[t] as int], k) by {
            assert(order.drop_first()[t] == order[t + 1]);
        }
        lemma_desc_pos(order.drop_first(), keys, k, j - 1);
    }
}

pub proof fn lemma_desc_order_len(keys: Seq<Seq<char>>, n: nat)
    requires
        n <= keys.len(),
    ensures
        desc_order(keys, n).len() == n,
        forall|t: int| 0 <= t < n ==> (#[trigger] desc_order(keys, n)[t]) < n,
    decreases n,
{
    if n > 0 {
        lemma_desc_order_len(keys, (n - 1) as nat);
        let o = desc_order(keys, (n - 1) as nat);
        lemma_desc_pos_bound(o, keys, keys[n - 1]);
    }
}

proof fn lemma_desc_pos_bound(order: Seq<usize>, keys: Seq<Seq<char>>, k: Seq<char>)
    ensures
        desc_pos(order, keys, k) <= order.len(),
    decreases order.len(),
{
    if order.len() > 0 {
        lemma_desc_pos_bound(order.drop_first(), keys, k);
    }
}

/// The positions of `keys` in descending order of text, equal texts in
/// the order given.
pub fn order_desc(keys: &Vec<String>) -> (r: Vec<usize>)
    ensures
        r@ == desc_order(keys@.map_values(|s: String| s@), keys@.len()),
{
    let ghost ks = keys@.map_values(|s: String| s@);
    let mut order: Vec<usize> = Vec::new();
    let mut i: usize = 0;
    while i < keys.len()
        invariant
            i <= keys@.len(),
            ks == keys@.map_values(|s: String| s@),
            order@ == desc_order(ks, i as nat),
        decreases keys@.len() - i,
    {
        proof {
            lemma_desc_order_len(ks, i as nat);
        }
        let mut j: usize = 0;
        while j < order.len() && !text_less(keys[order[j]].as_str(), keys[i].as_str())
            invariant
                i < keys@.len(),
                ks == keys@.map_values(|s: String| s@),
                order@ == desc_order(ks, i as nat),
                order@.len() == i,
                forall|t: int| 0 <= t < i ==> (#[trigger] order@[t]) < i,
                j <= order@.len(),
                forall|t: int| 0 <= t < j ==> !lex_less(#[trigger] ks[order@[t] as int], ks[i as int]),
            decreases order@.len() - j,
        {
            j = j + 1;
        }
        proof {
            lemma_desc_pos(order@, ks, ks[i as int], j as int);
        }
        order.insert(j, i);
        i = i + 1;
    }
    order
}

/// The order of addresses: every IPv4 address before every IPv6 one, then
/// by numeric value.
pub open spec fn ip_less(a: (bool, u128), b: (bool, u128)) -> bool {
    (!a.0 && b.0) || (a.0 == b.0 && a.1 < b.1)
}

/// Where an address goes among `order` in ascending order: after every
/// entry not above it.
pub open spec fn asc_pos(order: Seq<usize>, keys: Seq<(bool, u128)>, k: (bool, u128)) -> nat
    decreases order.len(),
{
    if order.len() == 0 {
        0
    } else if ip_less(k, keys[order[0] as int]) {
        0
    } else {
        1 + asc_pos(order.drop_first(), keys, k)
    }
}

/// The indices of the first `n` addresses in ascending order.
pub open spec fn asc_order(keys: Seq<(bool, u128)>, n: nat) -> Seq<usize>
    decreases n,
{
    if n == 0 {
        Seq::empty()
    } else {
        let o = asc_order(keys, (n - 1) as nat);
        o.insert(asc_pos(o, keys, keys[n - 1]) as int, (n - 1) as usize)
    }
}

proof fn lemma_asc_pos(order: Seq<usize>, keys: Seq<(bool, u128)>, k: (bool, u128), j: int)
    requires
        0 <= j <= order.len(),
        forall|t: int| 0 <= t < j ==> !ip_less(k, #[trigger] keys[order[t] as int]),
        j == order.len() || ip_less(k, keys[order[j] as int]),
    ensures
        asc_pos(order, keys, k) == j,
    decreases order.len(),
{
    if order.len() > 0 && j > 0 {
        assert(!ip_less(k, keys[order[0] as int]));
        assert forall|t: int| 0 <= t < j - 1 implies !ip_less(k, #[trigger] keys[order.drop_first()[t] as int]) by {
            assert(order.drop_first()[t] == order[t + 1]);
        }
        lemma_asc_pos(order.drop_first(), keys, k, j - 1);
    }
}

proof fn lemma_asc_pos_bound(order: Seq<usize>, keys: Seq<(bool, u128)>, k: (bool, u128))
    ensures
        asc_pos(order, keys, k) <= order.len(),
    decreases order.len(),
{
    if order.len() > 0 {
        lemma_asc_pos_bound(order.drop_first(), keys, k);
    }
}

pub proof fn lemma_asc_order_len(keys: Seq<(bool, u128)>, n: nat)
    requires
        n <= keys.len(),
    ensures
        asc_order(keys, n).len() == n,
        forall|t: int| 0 <= t < n ==> (#[trigger] asc_order(keys, n)[t]) < n,
    decreases n,
{
    if n > 0 {
        lemma_asc_order_len(keys, (n - 1) as nat);
        let o = asc_order(keys, (n - 1) as nat);
        lemma_asc_pos_bound(o, keys, keys[n - 1]);
    }
}

/// The positions of `keys` in ascending address order, equal addresses in
/// the order given.
pub fn order_asc(keys: &Vec<(bool, u128)>) -> (r: Vec<usize>)
    ensures
        r@ == asc_order(keys@, keys@.len()),
{
    let mut order: Vec<usize> = Vec::new();
    let mut i: usize = 0;
    while i < keys.len()
        invariant
            i <= keys@.len(),
            order@ == asc_order(keys@, i as nat),
        decreases keys@.len() - i,
    {
        proof {
            lemma_asc_order_len(keys@, i as nat);
        }
        let k = keys[i];
        let mut j: usize = 0;
        while j < order.len() && !(
            (!k.0 && keys[order[j]].0) || (k.0 == keys[order[j]].0 && k.1 < keys[order[j]].1))
            invariant
                i < keys@.len(),
                k == keys@[i as int],
                order@ == asc_order(keys@, i as nat),
                order@.len() == i,
                forall|t: int| 0 <= t < i ==> (#[trigger] order@[t]) < i,
                j <= order@.len(),
                forall|t: int| 0 <= t < j ==> !ip_less(k, #[trigger] keys@[order@[t] as int]),
            decreases order@.len() - j,
        {
            j = j + 1;
        }
        proof {
            lemma_asc_pos(order@, keys@, k, j as int);
        }
        order.insert(j, i);
        i = i + 1;
    }
    order
}

proof fn lemma_lex_asymmetric(a: Seq<char>, b: Seq<char>)
    ensures
        lex_less(a, b) ==> !lex_less(b, a),
    decreases a.len(),
{
    if a.len() > 0 && b.len() > 0 && a[0] == b[0] {
        lemma_lex_asymmetric(a.drop_first(), b.drop_first());
    }
}

proof fn lemma_lex_total(a: Seq<char>, b: Seq<char>)
    ensures
        a == b || lex_less(a, b) || lex_less(b, a),
    decreases a.len(),
{
    if a.len() > 0 && b.len() > 0 && a[0] == b[0] {
        lemma_lex_total(a.drop_first(), b.drop_first());
        if a.drop_first() == b.drop_first() {
            assert(a =~= seq![a[0]] + a.drop_first());
            assert(b =~= seq![b[0]] + b.drop_first());
        }
    } else if a.len() == 0 && b.len() == 0 {
        assert(a =~= b);
    }
}

proof fn lemma_lex_transitive(a: Seq<char>, b: Seq<char>, c: Seq<char>)
    requires
        lex_less(a, b),
        lex_less(b, c),
    ensures
        lex_less(a, c),
    decreases a.len(),
{
    if a.len() > 0 && b.len() > 0 && c.len() > 0 && a[0] == b[0] && b[0] == c[0] {
        lemma_lex_transitive(a.drop_first(), b.drop_first(), c.drop_first());
    }
}

proof fn lemma_desc_pos_props(order: Seq<usize>, keys: Seq<Seq<char>>, k: Seq<char>)
    ensures
        desc_pos(order, keys, k) <= order.len(),
        forall|t: int| 0 <= t < desc_pos(order, keys, k) ==> !lex_less(#[trigger] keys[order[t] as int], k),
        desc_pos(order, keys, k) < order.len() ==> lex_less(keys[order[desc_pos(order, keys, k) as int] as int], k),
    decreases order.len(),
{
    if order.len() > 0 && !lex_less(keys[order[0] as int], k) {
        let rest = order.drop_first();
        lemma_desc_pos_props(rest, keys, k);
        assert forall|t: int| 0 <= t < desc_pos(order, keys, k) implies !lex_less(#[trigger] keys[order[t] as int], k) by {
            if t > 0 {
                assert(order[t] == rest[t - 1]);
            }
        }
    }
}

/// The order lists keys from largest to smallest.
pub open spec fn desc_sorted(keys: Seq<Seq<char>>, o: Seq<usize>) -> bool {
    forall|i: int, j: int| 0 <= i < j < o.len() ==> !lex_less(#[trigger] keys[o[i] as int], #[trigger] keys[o[j] as int])
}

/// The descending order is a permutation of the first `n` positions under
/// which no key comes before a larger one.
pub proof fn lemma_desc_order_sorted(keys: Seq<Seq<char>>, n: nat)
    requires
        n <= keys.len(),
        n <= usize::MAX,
    ensures
        desc_order(keys, n).len() == n,
        forall|t: int| 0 <= t < n ==> (#[trigger] desc_order(keys, n)[t]) < n,
        desc_order(keys, n).no_duplicates(),
        desc_sorted(keys, desc_order(keys, n)),
    decreases n,
{
    lemma_desc_order_len(keys, n);
    if n > 0 {
        let o = desc_order(keys, (n - 1) as nat);
        let k = keys[n - 1];
        let p = desc_pos(o, keys, k) as int;
        let o2 = desc_order(keys, n);
        lemma_desc_order_sorted(keys, (n - 1) as nat);
        lemma_desc_pos_props(o, keys, k);
        assert(o2 == o.insert(p, (n - 1) as usize));
        o.insert_ensures(p, (n - 1) as usize);
        assert forall|i: int, j: int| 0 <= i < j < o2.len() implies !lex_less(
            #[trigger] keys[o2[i] as int],
            #[trigger] keys[o2[j] as int],
        ) by {
            if i == p && j > p {
                assert(o2[j] == o[j - 1]);
                let x = keys[o[p] as int];
                let y = keys[o[j - 1] as int];
                assert(lex_less(x, k));
                if j - 1 > p {
                    assert(!lex_less(keys[o[p] as int], keys[o[j - 1] as int]));
                }
                lemma_lex_total(x, y);
                if lex_less(y, x) {
                    lemma_lex_transitive(y, x, k);
                }
                lemma_lex_asymmetric(y, k);
            } else if i < p && j > p {
                assert(o2[j] == o[j - 1] && o2[i] == o[i]);
                assert(!lex_less(keys[o[i] as int], keys[o[j - 1] as int]));
            } else if i > p {
                assert(o2[j] == o[j - 1] && o2[i] == o[i - 1]);
                assert(!lex_less(keys[o[i - 1] as int], keys[o[j - 1] as int]));
            } else if j < p {
                assert(o2[j] == o[j] && o2[i] == o[i]);
                assert(!lex_less(keys[o[i] as int], keys[o[j] as int]));
            } else {
                assert(o2[i] == o[i]);
            }
        }
        assert forall|i: int, j: int| 0 <= i < o2.len() && 0 <= j < o2.len() && i != j implies o2[i] != o2[j] by {
            let a = if i < p { i } else { i - 1 };
            let b = if j < p { j } else { j - 1 };
            if i != p {
                assert(o2[i] == o[a]);
            }
            if j != p {
                assert(o2[j] == o[b]);
            }
            if i != p && j != p {
                assert(o[a] != o[b]);
            }
        }
    }
}

proof fn lemma_asc_pos_props(order: Seq<usize>, keys: Seq<(bool, u128)>, k: (bool, u128))
    ensures
        asc_pos(order, keys, k) <= order.len(),
        forall|t: int| 0 <= t < asc_pos(order, keys, k) ==> !ip_less(k, #[trigger] keys[order[t] as int]),
        asc_pos(order, keys, k) < order.len() ==> ip_less(k, keys[order[asc_pos(order, keys, k) as int] as int]),
    decreases order.len(),
{
    if order.len() > 0 && !ip_less(k, keys[order[0] as int]) {
        let rest = order.drop_first();
        lemma_asc_pos_props(rest, keys, k);
        assert forall|t: int| 0 <= t < asc_pos(order, keys, k) implies !ip_less(k, #[trigger] keys[order[t] as int]) by {
            if t > 0 {
                assert(order[t] == rest[t - 1]);
            }
        }
    }
}

/// The order lists addresses from smallest to largest.
pub open spec fn asc_sorted(keys: Seq<(bool, u128)>, o: Seq<usize>) -> bool {
    forall|i: int, j: int| 0 <= i < j < o.len() ==> !ip_less(#[trigger] keys[o[j] as int], #[trigger] keys[o[i] as int])
}

/// The ascending order is a permutation of the first `n` positions under
/// which no address comes before a smaller one.
pub proof fn lemma_asc_order_sorted(keys: Seq<(bool, u128)>, n: nat)
    requires
        n <= keys.len(),
        n <= usize::MAX,
    ensures
        asc_order(keys, n).len() == n,
        forall|t: int| 0 <= t < n ==> (#[trigger] asc_order(keys, n)[t]) < n,
        asc_order(keys, n).no_duplicates(),
        asc_sorted(keys, asc_order(keys, n)),
    decreases n,
{
    lemma_asc_order_len(keys, n);
    if n > 0 {
        let o = asc_order(keys, (n - 1) as nat);
        let k = keys[n - 1];
        let p = asc_pos(o, keys, k) as int;
        let o2 = asc_order(keys, n);
        lemma_asc_order_sorted(keys, (n - 1) as nat);
        lemma_asc_pos_props(o, keys, k);
        assert(o2 == o.insert(p, (n - 1) as usize));
        o.insert_ensures(p, (n - 1) as usize);
        assert forall|i: int, j: int| 0 <= i < j < o2.len() implies !ip_less(
            #[trigger] keys[o2[j] as int],
            #[trigger] keys[o2[i] as int],
        ) by {
            if i == p && j > p {
                assert(o2[j] == o[j - 1]);
                assert(ip_less(k, keys[o[p] as int]));
                if j - 1 > p {
                    assert(!ip_less(keys[o[j - 1] as int], keys[o[p] as int]));
                }
            } else if i < p && j > p {
                assert(o2[j] == o[j - 1] && o2[i] == o[i]);
                assert(!ip_less(keys[o[j - 1] as int], keys[o[i] as int]));
            } else if i > p {
                assert(o2[j] == o[j - 1] && o2[i] == o[i - 1]);
                assert(!ip_less(keys[o[j - 1] as int], keys[o[i - 1] as int]));
            } else if j < p {
                assert(o2[j] == o[j] && o2[i] == o[i]);
                assert(!ip_less(keys[o[j] as int], keys[o[i] as int]));
            } else {
                assert(o2[i] == o[i]);
            }
        }
        assert forall|i: int, j: int| 0 <= i < o2.len() && 0 <= j < o2.len() && i != j implies o2[i] != o2[j] by {
            let a = if i < p { i } else { i - 1 };
            let b = if j < p { j } else { j - 1 };
            if i != p {
                assert(o2[i] == o[a]);
            }
            if j != p {
                assert(o2[j] == o[b]);
            }
            if i != p && j != p {
                assert(o[a] != o[b]);
            }
        }
    }
}

} // verus!
