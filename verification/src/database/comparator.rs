//! All keys in leveldb are compared by their binary value unless
//! defined otherwise.
//!
//! Comparators allow to override this comparison.
//! The ordering of keys introduced by the comparator influences iteration order.
//! Databases written with one Comparator cannot be opened with another.
//!
//! The engine calls a comparator through three callbacks: one for its name,
//! one that compares two keys, one that releases it. What the first two
//! answer is decided here, by `name` and `compare`.
use vstd::prelude::*;

verus! {

/// How one key stands to another.
#[derive(Clone, Copy, Debug, PartialEq, Eq, Structural)]
pub enum Order {
    /// The first key comes before the second.
    Less,
    /// The two keys are the same key.
    Equal,
    /// The first key comes after the second.
    Greater,
}

/// A comparator has two important functions:
///
/// * the name function returns a fixed name to detect errors when
///   opening databases with a different name
/// * The comparison implementation
///
/// The comparison must be a total order on keys: see `is_total_order`. The
/// engine's behaviour under a comparison that is none is undefined.
///
/// `name_of` and `order` say what `name` and `compare` compute. A comparator
/// that is verified defines them, and its `name` and `compare` are proved
/// against them. A comparator that is not verified leaves them as they are
/// here, and is taken on trust to answer the same question the same way
/// every time: what this crate proves of a database speaks of the order that
/// its comparator computes.
pub trait Comparator {
    /// The name of the comparator.
    open spec fn name_of(&self) -> Seq<char> {
        arbitrary()
    }

    /// How `a` stands to `b`.
    open spec fn order(&self, a: Seq<u8>, b: Seq<u8>) -> Order {
        arbitrary()
    }

    /// Return the name of the Comparator
    fn name(&self) -> (name: String)
        ensures
            name@ == self.name_of(),
    ;

    /// compare two keys. This must implement a total ordering.
    fn compare(&self, a: &[u8], b: &[u8]) -> (order: Order)
        ensures
            order == self.order(a@, b@),
    ;
}

/// Whether the comparison of `comparator` is a total order: two keys are equal
/// under it exactly if they are the same key, swapping the keys swaps `Less`
/// and `Greater`, and `Less` is transitive.
pub open spec fn is_total_order<C: Comparator>(comparator: C) -> bool {
    &&& forall|a: Seq<u8>, b: Seq<u8>| #[trigger]
        comparator.order(a, b) == Order::Equal <==> a == b
    &&& forall|a: Seq<u8>, b: Seq<u8>| #[trigger]
        comparator.order(a, b) == Order::Less <==> comparator.order(b, a) == Order::Greater
    &&& forall|a: Seq<u8>, b: Seq<u8>, c: Seq<u8>|
        #![trigger comparator.order(a, b), comparator.order(b, c)]
        comparator.order(a, b) == Order::Less && comparator.order(b, c) == Order::Less
            ==> comparator.order(a, c) == Order::Less
}

/// The number that the engine's comparison callback answers for an order:
/// negative for `Less`, zero for `Equal`, positive for `Greater`.
pub open spec fn sign_of(order: Order) -> int {
    match order {
        Order::Less => -1,
        Order::Equal => 0,
        Order::Greater => 1,
    }
}

/// What the engine's name callback answers for the comparator `state`.
pub fn name<C: Comparator>(state: &C) -> (name: String)
    ensures
        name@ == state.name_of(),
{
    state.name()
}

/// What the engine's comparison callback answers for the comparator `state`
/// and the keys `a` and `b`.
pub fn compare<C: Comparator>(state: &C, a: &[u8], b: &[u8]) -> (sign: i32)
    ensures
        sign == sign_of(state.order(a@, b@)),
{
    match state.compare(a, b) {
        Order::Less => -1,
        Order::Equal => 0,
        Order::Greater => 1,
    }
}

/// The order of two keys by their bytes: the first byte in which they differ
/// decides, and where there is none, the shorter key comes first.
pub open spec fn bytewise(a: Seq<u8>, b: Seq<u8>) -> Order
    decreases a.len(),
{
    if a.len() == 0 {
        if b.len() == 0 {
            Order::Equal
        } else {
            Order::Less
        }
    } else if b.len() == 0 {
        Order::Greater
    } else if a[0] < b[0] {
        Order::Less
    } else if a[0] > b[0] {
        Order::Greater
    } else {
        bytewise(a.drop_first(), b.drop_first())
    }
}

/// Keys that agree in their first `n` bytes are ordered as what follows those
/// bytes.
pub proof fn bytewise_after_common_prefix(a: Seq<u8>, b: Seq<u8>, n: int)
    requires
        0 <= n <= a.len(),
        n <= b.len(),
        forall|i: int| 0 <= i < n ==> a[i] == b[i],
    ensures
        bytewise(a, b) == bytewise(a.subrange(n, a.len() as int), b.subrange(n, b.len() as int)),
    decreases n,
{
    if n == 0 {
        assert(a.subrange(0, a.len() as int) =~= a);
        assert(b.subrange(0, b.len() as int) =~= b);
    } else {
        let a1 = a.drop_first();
        let b1 = b.drop_first();
        assert forall|i: int| 0 <= i < n - 1 implies a1[i] == b1[i] by {
            assert(a1[i] == a[i + 1]);
            assert(b1[i] == b[i + 1]);
        }
        bytewise_after_common_prefix(a1, b1, n - 1);
        assert(a1.subrange(n - 1, a1.len() as int) =~= a.subrange(n, a.len() as int));
        assert(b1.subrange(n - 1, b1.len() as int) =~= b.subrange(n, b.len() as int));
        assert(a[0] == b[0]);
    }
}

/// Two keys are equal by their bytes exactly if they are the same key.
pub proof fn bytewise_equal(a: Seq<u8>, b: Seq<u8>)
    ensures
        bytewise(a, b) == Order::Equal <==> a == b,
    decreases a.len(),
{
    if a.len() == 0 || b.len() == 0 {
        if a.len() == 0 && b.len() == 0 {
            assert(a =~= b);
        }
    } else {
        bytewise_equal(a.drop_first(), b.drop_first());
        if a[0] == b[0] && a.drop_first() == b.drop_first() {
            assert(a =~= seq![a[0]] + a.drop_first());
            assert(b =~= seq![b[0]] + b.drop_first());
        }
    }
}

/// Swapping two keys swaps `Less` and `Greater`.
pub proof fn bytewise_swap(a: Seq<u8>, b: Seq<u8>)
    ensures
        bytewise(a, b) == Order::Less <==> bytewise(b, a) == Order::Greater,
    decreases a.len(),
{
    if a.len() != 0 && b.len() != 0 && a[0] == b[0] {
        bytewise_swap(a.drop_first(), b.drop_first());
    }
}

/// `Less` by the bytes is transitive.
pub proof fn bytewise_transitive(a: Seq<u8>, b: Seq<u8>, c: Seq<u8>)
    requires
        bytewise(a, b) == Order::Less,
        bytewise(b, c) == Order::Less,
    ensures
        bytewise(a, c) == Order::Less,
    decreases a.len(),
{
    if a.len() != 0 && a[0] == b[0] && b[0] == c[0] {
        bytewise_transitive(a.drop_first(), b.drop_first(), c.drop_first());
    }
}

/// OrdComparator is a comparator comparing keys by the natural order of
/// their bytes.
#[derive(Clone, Copy, Debug)]
pub struct OrdComparator;

impl Comparator for OrdComparator {
    open spec fn name_of(&self) -> Seq<char> {
        "ord_comparator"@
    }

    open spec fn order(&self, a: Seq<u8>, b: Seq<u8>) -> Order {
        bytewise(a, b)
    }

    fn name(&self) -> (name: String) {
        "ord_comparator".to_owned()
    }

    fn compare(&self, a: &[u8], b: &[u8]) -> (order: Order) {
        let mut i: usize = 0;
        while i < a.len() && i < b.len()
            invariant
                i <= a.len(),
                i <= b.len(),
                forall|j: int| 0 <= j < i ==> a@[j] == b@[j],
            decreases a.len() - i,
        {
            if a[i] < b[i] {
                proof {
                    bytewise_after_common_prefix(a@, b@, i as int);
                }
                return Order::Less;
            }
            if a[i] > b[i] {
                proof {
                    bytewise_after_common_prefix(a@, b@, i as int);
                }
                return Order::Greater;
            }
            i += 1;
        }
        proof {
            bytewise_after_common_prefix(a@, b@, i as int);
        }
        if i < b.len() {
            Order::Less
        } else if i < a.len() {
            Order::Greater
        } else {
            Order::Equal
        }
    }
}

/// The comparison of `OrdComparator` is the ascending order of the keys by
/// their bytes, which is a total order.
pub proof fn ord_comparator_is_total_order()
    ensures
        is_total_order(OrdComparator),
        forall|a: Seq<u8>, b: Seq<u8>| #[trigger] OrdComparator.order(a, b) == bytewise(a, b),
{
    assert forall|a: Seq<u8>, b: Seq<u8>| #[trigger]
        OrdComparator.order(a, b) == Order::Equal <==> a == b by {
        bytewise_equal(a, b);
    }
    assert forall|a: Seq<u8>, b: Seq<u8>| #[trigger]
        OrdComparator.order(a, b) == Order::Less <==> OrdComparator.order(b, a)
            == Order::Greater by {
        bytewise_swap(a, b);
    }
    assert forall|a: Seq<u8>, b: Seq<u8>, c: Seq<u8>|
        #![trigger OrdComparator.order(a, b), OrdComparator.order(b, c)]
        OrdComparator.order(a, b) == Order::Less && OrdComparator.order(b, c)
            == Order::Less implies OrdComparator.order(a, c) == Order::Less by {
        bytewise_transitive(a, b, c);
    }
}

} // verus!
