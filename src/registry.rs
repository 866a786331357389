use vstd::prelude::*;
use vstd::multiset::group_multiset_axioms;
use vstd::seq_lib::{group_to_multiset_ensures, to_multiset_build, to_multiset_contains, to_multiset_remove};

verus! {

/// The elements of `s` whose flag is `keep`, in their order in `s`.
pub open spec fn select<T>(s: Seq<T>, flags: Seq<bool>, keep: bool) -> Seq<T>
    decreases s.len(),
{
    if s.len() == 0 || flags.len() == 0 {
        Seq::empty()
    } else {
        let earlier = select(s.drop_last(), flags.drop_last(), keep);
        if flags.last() == keep {
            earlier.push(s.last())
        } else {
            earlier
        }
    }
}

/// What `select` keeps comes from `s`.
pub proof fn lemma_select_contained<T>(s: Seq<T>, flags: Seq<bool>, keep: bool)
    requires
        flags.len() == s.len(),
    ensures
        forall|x: T| select(s, flags, keep).contains(x) ==> s.contains(x),
    decreases s.len(),
{
    if s.len() > 0 {
        let p = s.drop_last();
        let fl = flags.drop_last();
        lemma_select_contained(p, fl, keep);
        let e = select(p, fl, keep);
        let all = select(s, flags, keep);
        assert(all == if flags.last() == keep {
            e.push(s.last())
        } else {
            e
        });
        assert forall|x: T| all.contains(x) implies s.contains(x) by {
            let j = choose|j: int| 0 <= j < all.len() && all[j] == x;
            if j < e.len() {
                assert(e[j] == x);
                assert(e.contains(x));
                assert(p.contains(x));
                let k = choose|k: int| 0 <= k < p.len() && p[k] == x;
                assert(s[k] == x);
            } else {
                assert(s[s.len() - 1] == x);
            }
        }
    }
}

/// Selecting from a sequence without duplicates gives two parts without
/// duplicates that share no element.
pub proof fn lemma_select_distinct<T>(s: Seq<T>, flags: Seq<bool>)
    requires
        flags.len() == s.len(),
        s.no_duplicates(),
    ensures
        select(s, flags, true).no_duplicates(),
        select(s, flags, false).no_duplicates(),
        forall|x: T| !(select(s, flags, true).contains(x) && select(s, flags, false).contains(x)),
    decreases s.len(),
{
    if s.len() > 0 {
        let p = s.drop_last();
        let fl = flags.drop_last();
        let x = s.last();
        assert(p.no_duplicates());
        lemma_select_distinct(p, fl);
        lemma_select_contained(p, fl, true);
        lemma_select_contained(p, fl, false);
        assert(!p.contains(x)) by {
            if p.contains(x) {
                let k = choose|k: int| 0 <= k < p.len() && p[k] == x;
                assert(s[k] == s[s.len() - 1]);
            }
        }
        let t = select(p, fl, true);
        let f = select(p, fl, false);
        assert(!t.contains(x));
        assert(!f.contains(x));
        if flags.last() {
            assert(select(s, flags, true) == t.push(x));
            assert(select(s, flags, false) == f);
            assert(forall|y: T| t.push(x).contains(y) ==> t.contains(y) || y == x);
        } else {
            assert(select(s, flags, true) == t);
            assert(select(s, flags, false) == f.push(x));
            assert(forall|y: T| f.push(x).contains(y) ==> f.contains(y) || y == x);
        }
    }
}

/// How many elements `select` keeps depends on the flags alone.
pub proof fn lemma_select_same_length<T, U>(a: Seq<T>, b: Seq<U>, flags: Seq<bool>, keep: bool)
    requires
        a.len() == flags.len(),
        b.len() == flags.len(),
    ensures
        select(a, flags, keep).len() == select(b, flags, keep).len(),
    decreases flags.len(),
{
    if flags.len() > 0 {
        lemma_select_same_length(a.drop_last(), b.drop_last(), flags.drop_last(), keep);
    }
}

/// Moves every element of `v` on which `f` answers `true` out into the
/// returned vector; the elements on which it answers `false` stay in `v`.
/// Both parts keep the order the elements had in `v`; no element is lost or
/// duplicated.
pub fn drain_filter<T, F: Fn(&T) -> bool>(v: &mut Vec<T>, f: F) -> (r: Vec<T>)
    requires
        forall|x: &T| f.requires((x,)),
    ensures
        exists|flags: Seq<bool>|
            #![trigger select(old(v)@, flags, true)]
            flags.len() == old(v)@.len() && (forall|j: int|
                0 <= j < flags.len() ==> f.ensures((&old(v)@[j],), #[trigger] flags[j]))
                && final(v)@ == select(old(v)@, flags, false) && r@ == select(
                old(v)@,
                flags,
                true,
            ),
        old(v)@.to_multiset() == final(v)@.to_multiset().add(r@.to_multiset()),
        old(v)@.len() == final(v)@.len() + r@.len(),
        forall|i: int| 0 <= i < r@.len() ==> f.ensures((&r@[i],), true),
        forall|i: int| 0 <= i < final(v)@.len() ==> f.ensures((&final(v)@[i],), false),
{
    broadcast use group_to_multiset_ensures, group_multiset_axioms;

    let ghost orig = v@;
    let ghost mut flags: Seq<bool> = Seq::empty();
    let mut r: Vec<T> = Vec::new();
    let mut i: usize = 0;
    while i < v.len()
        invariant
            forall|x: &T| f.requires((x,)),
            0 <= i <= v@.len(),
            orig == old(v)@,
            old(v)@.to_multiset() == v@.to_multiset().add(r@.to_multiset()),
            old(v)@.len() == v@.len() + r@.len(),
            forall|k: int| 0 <= k < r@.len() ==> f.ensures((&r@[k],), true),
            forall|k: int| 0 <= k < i ==> f.ensures((&v@[k],), false),
            flags.len() == i + r@.len(),
            flags.len() <= orig.len(),
            select(orig.take(flags.len() as int), flags, false).len() == i,
            v@ == select(orig.take(flags.len() as int), flags, false) + orig.skip(
                flags.len() as int,
            ),
            r@ == select(orig.take(flags.len() as int), flags, true),
            forall|j: int| 0 <= j < flags.len() ==> f.ensures((&orig[j],), #[trigger] flags[j]),
        decreases v@.len() - i,
    {
        let ghost k = flags.len() as int;
        let ghost kept = select(orig.take(k), flags, false);
        assert(v@[i as int] == orig[k]);
        let b = f(&v[i]);
        proof {
            let fl2 = flags.push(b);
            assert(orig.take(k + 1).drop_last() == orig.take(k));
            assert(fl2.drop_last() == flags);
            assert(orig.take(k + 1).last() == orig[k]);
            flags = fl2;
        }
        if b {
            let ghost before = v@;
            let ghost taken = r@;
            let x = v.remove(i);
            proof {
                to_multiset_remove(before, i as int);
                to_multiset_build(taken, x);
                assert forall|q: int| 0 <= q < i implies f.ensures((&v@[q],), false) by {
                    assert(v@[q] == before[q]);
                }
                assert(v@ == kept + orig.skip(k + 1));
            }
            r.push(x);
            proof {
                let m = before.to_multiset();
                assert(before[i as int] == x);
                to_multiset_contains(before, x);
                assert(m.count(x) > 0);
                assert(m.remove(x).insert(x) =~= m);
                assert(v@.to_multiset().add(r@.to_multiset()) =~= m.remove(x).insert(x).add(
                    taken.to_multiset(),
                ));
            }
        } else {
            proof {
                assert(v@ == kept.push(orig[k]) + orig.skip(k + 1));
            }
            i = i + 1;
        }
    }
    proof {
        assert(orig.skip(flags.len() as int).len() == 0);
        assert(orig.take(flags.len() as int) == orig);
        assert(v@ == select(orig, flags, false));
    }
    r
}

/// What resolving a ready completer does with its response channel.
#[derive(Clone, Copy, Debug, PartialEq, Eq, Structural)]
pub enum Resolution {
    /// Extract the settled promise's value and send it on the channel.
    Forward,
    /// The caller dropped the channel: discard the completer, run no user code.
    Discard,
}

/// A parked completer is ready when its promise has settled, or when its
/// caller has gone and closed the response channel (cancellation).
pub fn completer_ready(sender_closed: bool, promise_pending: bool) -> (r: bool)
    ensures
        r == (sender_closed || !promise_pending),
{
    sender_closed || !promise_pending
}

/// A ready completer forwards its value unless its channel is closed.
pub fn resolution(sender_closed: bool) -> (r: Resolution)
    ensures
        r == (if sender_closed {
            Resolution::Discard
        } else {
            Resolution::Forward
        }),
{
    if sender_closed {
        Resolution::Discard
    } else {
        Resolution::Forward
    }
}

} // verus!
