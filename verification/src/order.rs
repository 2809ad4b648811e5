use vstd::prelude::*;
use crate::index::{bytes_before, bytes_key_order, key_order};
use crate::text::text_before;

verus! {

/// `before` holds of no key and itself, and holds of a first and a third key
/// where it holds of the first and a second and of the second and the third.
pub open spec fn strict_order<K>(before: spec_fn(K, K) -> bool) -> bool {
    &&& forall|a: K| !#[trigger] before(a, a)
    &&& forall|a: K, b: K, c: K| #[trigger] before(a, b) && #[trigger] before(b, c) ==> before(a, c)
}

/// Every key of `keys` comes before the keys behind it.
pub open spec fn ascending<K>(keys: Seq<K>, before: spec_fn(K, K) -> bool) -> bool {
    forall|i: int, j: int| 0 <= i < j < keys.len() ==> before(#[trigger] keys[i], #[trigger] keys[j])
}

/// No text comes before itself.
pub proof fn text_before_is_irreflexive(a: Seq<char>)
    ensures
        !text_before(a, a),
    decreases a.len(),
{
    if a.len() > 0 {
        text_before_is_irreflexive(a.drop_first());
    }
}

/// A text that comes before a second, which comes before a third, comes
/// before the third.
pub proof fn text_before_is_transitive(a: Seq<char>, b: Seq<char>, c: Seq<char>)
    requires
        text_before(a, b),
        text_before(b, c),
    ensures
        text_before(a, c),
    decreases a.len(),
{
    if a.len() > 0 && b.len() > 0 && c.len() > 0 && a[0] == b[0] && b[0] == c[0] {
        text_before_is_transitive(a.drop_first(), b.drop_first(), c.drop_first());
    }
}

/// Of two different texts one comes before the other.
pub proof fn text_before_is_total(a: Seq<char>, b: Seq<char>)
    ensures
        a == b || text_before(a, b) || text_before(b, a),
    decreases a.len(),
{
    if a.len() > 0 && b.len() > 0 {
        if a[0] == b[0] {
            text_before_is_total(a.drop_first(), b.drop_first());
            if a.drop_first() == b.drop_first() {
                assert(a =~= seq![a[0]] + a.drop_first());
                assert(b =~= seq![b[0]] + b.drop_first());
            }
        } else if a[0] as u32 == b[0] as u32 {
            vstd::utf8::char_u32_cast(a[0], a[0] as u32);
            vstd::utf8::char_u32_cast(b[0], b[0] as u32);
        }
    } else if a.len() == 0 && b.len() == 0 {
        assert(a =~= b);
    }
}

/// No byte string comes before itself.
pub proof fn bytes_before_is_irreflexive(a: Seq<u8>)
    ensures
        !bytes_before(a, a),
    decreases a.len(),
{
    if a.len() > 0 {
        bytes_before_is_irreflexive(a.drop_first());
    }
}

/// A byte string that comes before a second, which comes before a third,
/// comes before the third.
pub proof fn bytes_before_is_transitive(a: Seq<u8>, b: Seq<u8>, c: Seq<u8>)
    requires
        bytes_before(a, b),
        bytes_before(b, c),
    ensures
        bytes_before(a, c),
    decreases a.len(),
{
    if a.len() > 0 && b.len() > 0 && c.len() > 0 && a[0] == b[0] && b[0] == c[0] {
        bytes_before_is_transitive(a.drop_first(), b.drop_first(), c.drop_first());
    }
}

/// Two ascending listings of the same keys are the same listing.
pub proof fn ascending_listing_is_unique<K>(a: Seq<K>, b: Seq<K>, before: spec_fn(K, K) -> bool)
    requires
        strict_order(before),
        ascending(a, before),
        ascending(b, before),
        a.to_set() == b.to_set(),
    ensures
        a == b,
    decreases a.len(),
{
    assert(a.no_duplicates()) by {
        assert forall|i: int, j: int| 0 <= i < a.len() && 0 <= j < a.len() && i != j implies a[i]
            != a[j] by {
            if i < j {
                assert(before(a[i], a[j]));
            } else {
                assert(before(a[j], a[i]));
            }
        }
    }
    assert(b.no_duplicates()) by {
        assert forall|i: int, j: int| 0 <= i < b.len() && 0 <= j < b.len() && i != j implies b[i]
            != b[j] by {
            if i < j {
                assert(before(b[i], b[j]));
            } else {
                assert(before(b[j], b[i]));
            }
        }
    }
    a.unique_seq_to_set();
    b.unique_seq_to_set();
    if a.len() > 0 {
        assert(a.to_set().contains(a[0]));
        assert(b.contains(a[0]));
        let k = choose|k: int| 0 <= k < b.len() && b[k] == a[0];
        assert(b.to_set().contains(b[0]));
        assert(a.contains(b[0]));
        let m = choose|m: int| 0 <= m < a.len() && a[m] == b[0];
        if k > 0 {
            assert(before(b[0], b[k]));
            if m > 0 {
                assert(before(a[0], a[m]));
            }
            assert(false);
        }
        let ra = a.drop_first();
        let rb = b.drop_first();
        assert forall|x: K| ra.to_set().contains(x) <==> rb.to_set().contains(x) by {
            if ra.contains(x) {
                let i = choose|i: int| 0 <= i < ra.len() && ra[i] == x;
                assert(a[i + 1] == x);
                assert(a.to_set().contains(x));
                assert(b.contains(x));
                let j = choose|j: int| 0 <= j < b.len() && b[j] == x;
                assert(j > 0);
                assert(rb[j - 1] == x);
            }
            if rb.contains(x) {
                let i = choose|i: int| 0 <= i < rb.len() && rb[i] == x;
                assert(b[i + 1] == x);
                assert(b.to_set().contains(x));
                assert(a.contains(x));
                let j = choose|j: int| 0 <= j < a.len() && a[j] == x;
                assert(j > 0);
                assert(ra[j - 1] == x);
            }
        }
        assert(ra.to_set() =~= rb.to_set());
        assert forall|i: int, j: int| 0 <= i < j < ra.len() implies before(
            #[trigger] ra[i],
            #[trigger] ra[j],
        ) by {
            assert(before(a[i + 1], a[j + 1]));
        }
        assert forall|i: int, j: int| 0 <= i < j < rb.len() implies before(
            #[trigger] rb[i],
            #[trigger] rb[j],
        ) by {
            assert(before(b[i + 1], b[j + 1]));
        }
        ascending_listing_is_unique(ra, rb, before);
        assert(a =~= seq![a[0]] + ra);
        assert(b =~= seq![b[0]] + rb);
    } else {
        assert(a =~= b);
    }
}

/// The keys of a table have one listing in ascending order, so what an
/// operation lists in that order is one list.
pub proof fn key_order_is_unique(a: Seq<Seq<char>>, b: Seq<Seq<char>>, dom: Set<Seq<char>>)
    requires
        key_order(a, dom),
        key_order(b, dom),
    ensures
        a == b,
{
    let before = |x: Seq<char>, y: Seq<char>| text_before(x, y);
    assert forall|x: Seq<char>| !#[trigger] before(x, x) by {
        text_before_is_irreflexive(x);
    }
    assert forall|x: Seq<char>, y: Seq<char>, z: Seq<char>| #[trigger]
        before(x, y) && #[trigger] before(y, z) implies before(x, z) by {
        text_before_is_transitive(x, y, z);
    }
    ascending_listing_is_unique(a, b, before);
}

/// The same for tables with byte-string keys.
pub proof fn bytes_key_order_is_unique(a: Seq<Seq<u8>>, b: Seq<Seq<u8>>, dom: Set<Seq<u8>>)
    requires
        bytes_key_order(a, dom),
        bytes_key_order(b, dom),
    ensures
        a == b,
{
    let before = |x: Seq<u8>, y: Seq<u8>| bytes_before(x, y);
    assert forall|x: Seq<u8>| !#[trigger] before(x, x) by {
        bytes_before_is_irreflexive(x);
    }
    assert forall|x: Seq<u8>, y: Seq<u8>, z: Seq<u8>| #[trigger]
        before(x, y) && #[trigger] before(y, z) implies before(x, z) by {
        bytes_before_is_transitive(x, y, z);
    }
    ascending_listing_is_unique(a, b, before);
}

} // verus!
