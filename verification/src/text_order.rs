use vstd::prelude::*;
use crate::util::chars_of;

verus! {

/// The two texts agree in their first `k` characters.
pub open spec fn agree_up_to(a: Seq<char>, b: Seq<char>, k: int) -> bool {
    0 <= k <= a.len() && k <= b.len() && forall|j: int| 0 <= j < k ==> a[j] == b[j]
}

/// After `k` characters in which they agree, `a` ends and `b` goes on, or
/// `a` goes on with a smaller character than `b`.
pub open spec fn less_at(a: Seq<char>, b: Seq<char>, k: int) -> bool {
    agree_up_to(a, b, k) && (k < b.len()) && (k == a.len() || a[k] < b[k])
}

/// `a` comes before `b` in the order of the dictionary, character by
/// character.
pub open spec fn text_lt(a: Seq<char>, b: Seq<char>) -> bool {
    exists|k: int| less_at(a, b, k)
}

/// How two texts stand to each other.
#[derive(Clone, Copy, Debug, PartialEq, Eq)]
pub enum Order {
    Before,
    Same,
    After,
}

/// How `a` stands to `b`.
pub open spec fn order_of(a: Seq<char>, b: Seq<char>) -> Order {
    if text_lt(a, b) {
        Order::Before
    } else if a == b {
        Order::Same
    } else {
        Order::After
    }
}

/// No text comes before itself.
pub proof fn lemma_lt_irreflexive(a: Seq<char>)
    ensures
        !text_lt(a, a),
{
}

/// Where two texts first part decides their order: a place at which `a` is
/// less, and a place at which `b` is less, cannot both be.
pub proof fn lemma_lt_asymmetric(a: Seq<char>, b: Seq<char>)
    requires
        text_lt(a, b),
    ensures
        !text_lt(b, a),
        a != b,
{
    if text_lt(b, a) {
        let k = choose|k: int| less_at(a, b, k);
        let m = choose|m: int| less_at(b, a, m);
        assert(k == m);
    }
}

/// The order is transitive.
pub proof fn lemma_lt_transitive(a: Seq<char>, b: Seq<char>, c: Seq<char>)
    requires
        text_lt(a, b),
        text_lt(b, c),
    ensures
        text_lt(a, c),
{
    let k = choose|k: int| less_at(a, b, k);
    let m = choose|m: int| less_at(b, c, m);
    if k <= m {
        assert forall|j: int| 0 <= j < k implies a[j] == c[j] by {}
        assert(less_at(a, c, k));
    } else {
        assert forall|j: int| 0 <= j < m implies a[j] == c[j] by {}
        assert(less_at(a, c, m));
    }
}

/// Of two texts that agree in their first `k` characters, one comes before
/// the other or they are the same.
proof fn lemma_total_from(a: Seq<char>, b: Seq<char>, k: int)
    requires
        agree_up_to(a, b, k),
    ensures
        text_lt(a, b) || a == b || text_lt(b, a),
    decreases a.len() - k,
{
    if k == a.len() && k == b.len() {
        assert(a =~= b);
    } else if k == a.len() {
        assert(less_at(a, b, k));
    } else if k == b.len() {
        assert(less_at(b, a, k));
    } else if a[k] < b[k] {
        assert(less_at(a, b, k));
    } else if b[k] < a[k] {
        assert(less_at(b, a, k));
    } else {
        lemma_total_from(a, b, k + 1);
    }
}

/// The order is total: of two texts one comes before the other, or they are
/// the same.
pub proof fn lemma_lt_total(a: Seq<char>, b: Seq<char>)
    ensures
        text_lt(a, b) || a == b || text_lt(b, a),
{
    lemma_total_from(a, b, 0);
}

/// Tells how `a` stands to `b` in the order of the dictionary.
pub fn compare_text(a: &str, b: &str) -> (r: Order)
    ensures
        r == order_of(a@, b@),
        r == Order::After ==> text_lt(b@, a@),
{
    let ca = chars_of(a);
    let cb = chars_of(b);
    let la = ca.len();
    let lb = cb.len();
    let mut i: usize = 0;
    while i < la && i < lb
        invariant
            ca@ == a@,
            cb@ == b@,
            la == a@.len(),
            lb == b@.len(),
            i <= la,
            i <= lb,
            forall|j: int| 0 <= j < i ==> a@[j] == b@[j],
        decreases la - i,
    {
        let x = ca[i];
        let y = cb[i];
        if x < y {
            proof {
                assert(less_at(a@, b@, i as int));
                lemma_lt_asymmetric(a@, b@);
            }
            return Order::Before;
        }
        if y < x {
            proof {
                assert(less_at(b@, a@, i as int));
                lemma_lt_asymmetric(b@, a@);
            }
            return Order::After;
        }
        i += 1;
    }
    if la < lb {
        proof {
            assert(less_at(a@, b@, i as int));
        }
        Order::Before
    } else if lb < la {
        proof {
            assert(less_at(b@, a@, i as int));
            lemma_lt_asymmetric(b@, a@);
        }
        Order::After
    } else {
        proof {
            assert(a@ =~= b@);
            lemma_lt_irreflexive(a@);
        }
        Order::Same
    }
}

/// Each text comes before the next.
pub open spec fn ascending(s: Seq<Seq<char>>) -> bool {
    forall|i: int, j: int| 0 <= i < j < s.len() ==> text_lt(#[trigger] s[i], #[trigger] s[j])
}

/// Texts in ascending order are distinct.
pub proof fn lemma_ascending_distinct(s: Seq<Seq<char>>)
    requires
        ascending(s),
    ensures
        s.no_duplicates(),
{
    assert forall|i: int, j: int| 0 <= i < s.len() && 0 <= j < s.len() && i != j implies s[i]
        != s[j] by {
        if i < j {
            lemma_lt_asymmetric(s[i], s[j]);
        } else {
            lemma_lt_asymmetric(s[j], s[i]);
        }
    }
}

/// The place of `x` among the ascending texts `s`: before it stand the
/// texts that come before `x`, and no others.
pub open spec fn is_place(s: Seq<Seq<char>>, x: Seq<char>, i: int) -> bool {
    &&& 0 <= i <= s.len()
    &&& forall|j: int| 0 <= j < i ==> text_lt(#[trigger] s[j], x)
    &&& forall|j: int| i <= j < s.len() ==> !text_lt(#[trigger] s[j], x)
}

/// Where `x` stands among ascending texts, there is its place.
pub proof fn lemma_place_found(s: Seq<Seq<char>>, x: Seq<char>, i: int)
    requires
        ascending(s),
        0 <= i < s.len(),
        forall|j: int| 0 <= j < i ==> text_lt(#[trigger] s[j], x),
        s[i] == x,
    ensures
        is_place(s, x, i),
        s.contains(x),
{
    assert forall|j: int| i <= j < s.len() implies !text_lt(#[trigger] s[j], x) by {
        if j > i {
            lemma_lt_asymmetric(s[i], s[j]);
        }
    }
}

/// Where the texts before `x` end and a text after `x` follows, or none,
/// there is the place of `x`, and `x` is not among the texts.
pub proof fn lemma_place_absent(s: Seq<Seq<char>>, x: Seq<char>, i: int)
    requires
        ascending(s),
        0 <= i <= s.len(),
        forall|j: int| 0 <= j < i ==> text_lt(#[trigger] s[j], x),
        i < s.len() ==> text_lt(x, s[i]),
    ensures
        is_place(s, x, i),
        !s.contains(x),
{
    assert forall|j: int| i <= j < s.len() implies text_lt(x, #[trigger] s[j]) by {
        if j > i {
            lemma_lt_transitive(x, s[i], s[j]);
        }
    }
    assert forall|j: int| i <= j < s.len() implies !text_lt(#[trigger] s[j], x) by {
        lemma_lt_asymmetric(x, s[j]);
    }
    assert forall|j: int| 0 <= j < s.len() implies s[j] != x by {
        if j < i {
            lemma_lt_asymmetric(s[j], x);
        } else {
            lemma_lt_asymmetric(x, s[j]);
        }
    }
}

/// The place of `x` among the texts `s`: how many of them come before `x`.
pub open spec fn place_of(s: Seq<Seq<char>>, x: Seq<char>) -> int
    decreases s.len(),
{
    if s.len() == 0 {
        0
    } else {
        place_of(s.drop_last(), x) + if text_lt(s.last(), x) {
            1int
        } else {
            0int
        }
    }
}

/// Among ascending texts every text has a place.
pub proof fn lemma_place_exists(s: Seq<Seq<char>>, x: Seq<char>)
    requires
        ascending(s),
    ensures
        is_place(s, x, place_of(s, x)),
    decreases s.len(),
{
    if s.len() > 0 {
        let rest = s.drop_last();
        assert forall|i: int, j: int| 0 <= i < j < rest.len() implies text_lt(
            #[trigger] rest[i],
            #[trigger] rest[j],
        ) by {}
        lemma_place_exists(rest, x);
        let p = place_of(rest, x);
        if text_lt(s.last(), x) {
            if p < rest.len() {
                assert(rest[p] == s[p]);
                lemma_lt_transitive(s[p], s.last(), x);
            }
            assert forall|j: int| 0 <= j < p + 1 implies text_lt(#[trigger] s[j], x) by {
                if j < p {
                    assert(rest[j] == s[j]);
                }
            }
        } else {
            assert forall|j: int| 0 <= j < p implies text_lt(#[trigger] s[j], x) by {
                assert(rest[j] == s[j]);
            }
            assert forall|j: int| p <= j < s.len() implies !text_lt(#[trigger] s[j], x) by {
                if j < rest.len() {
                    assert(rest[j] == s[j]);
                }
            }
        }
    }
}

/// Putting a text that is new to ascending texts at its place keeps them
/// ascending.
pub proof fn lemma_place_new(s: Seq<Seq<char>>, x: Seq<char>)
    requires
        ascending(s),
        !s.contains(x),
    ensures
        ascending(s.insert(place_of(s, x), x)),
        is_place(s, x, place_of(s, x)),
{
    lemma_place_exists(s, x);
    let p = place_of(s, x);
    if p < s.len() {
        lemma_lt_total(x, s[p]);
    }
    lemma_insert_ascending(s, x, p);
}

/// Among ascending texts the place of `x` is where the texts before `x`
/// end.
pub proof fn lemma_place(s: Seq<Seq<char>>, x: Seq<char>, i: int)
    requires
        is_place(s, x, i),
    ensures
        place_of(s, x) == i,
    decreases s.len(),
{
    if s.len() > 0 {
        let rest = s.drop_last();
        if i == s.len() {
            assert forall|j: int| 0 <= j < i - 1 implies text_lt(#[trigger] rest[j], x) by {}
            lemma_place(rest, x, i - 1);
        } else {
            assert forall|j: int| 0 <= j < i implies text_lt(#[trigger] rest[j], x) by {}
            assert forall|j: int| i <= j < rest.len() implies !text_lt(#[trigger] rest[j], x) by {}
            lemma_place(rest, x, i);
        }
    }
}

/// Putting a text that is new to ascending texts at its place keeps them
/// ascending.
pub proof fn lemma_insert_ascending(s: Seq<Seq<char>>, x: Seq<char>, i: int)
    requires
        ascending(s),
        is_place(s, x, i),
        i < s.len() ==> text_lt(x, s[i]),
    ensures
        ascending(s.insert(i, x)),
{
    let t = s.insert(i, x);
    assert forall|p: int, q: int| 0 <= p < q < t.len() implies text_lt(
        #[trigger] t[p],
        #[trigger] t[q],
    ) by {
        if p < i && i < q {
            if q - 1 == i {
                lemma_lt_transitive(s[p], x, s[i]);
            } else {
                lemma_lt_transitive(x, s[i], s[q - 1]);
                lemma_lt_transitive(s[p], x, s[q - 1]);
            }
        } else if p == i && i < q - 1 {
            lemma_lt_transitive(x, s[i], s[q - 1]);
        }
    }
}

/// Taking a text out of ascending texts keeps them ascending.
pub proof fn lemma_remove_ascending(s: Seq<Seq<char>>, i: int)
    requires
        ascending(s),
        0 <= i < s.len(),
    ensures
        ascending(s.remove(i)),
{
    let t = s.remove(i);
    assert forall|p: int, q: int| 0 <= p < q < t.len() implies text_lt(
        #[trigger] t[p],
        #[trigger] t[q],
    ) by {}
}

} // verus!
