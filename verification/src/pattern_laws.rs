//! What makes a pattern, and what lets two of them stand in one router, said of their characters
//! alone.

use crate::pattern::{
    compatible, in_wildcard, is_mountable, mark_in_place, mountable, parameters, parse, shape,
    well_formed, Endpoint, RouteKey,
};
use vstd::prelude::*;

verus! {

/// A wildcard opens at position `m` of `path`, and no slash ends it before position `n`.
pub open spec fn open_between(path: Seq<char>, m: int, n: int) -> bool {
    &&& 0 <= m < n
    &&& path[m] == ':' || path[m] == '*'
    &&& forall|k: int| m < k < n ==> path[k] != '/'
}

proof fn lemma_in_wildcard(path: Seq<char>, n: int)
    requires
        0 <= n <= path.len(),
    ensures
        in_wildcard(path.take(n)) <==> exists|m: int| open_between(path, m, n),
    decreases n,
{
    if n > 0 {
        let before = n - 1;
        lemma_in_wildcard(path, before);
        assert(path.take(n).drop_last() =~= path.take(n - 1));
        assert(path.take(n).last() == path[n - 1]);
        if in_wildcard(path.take(n)) {
            if path[n - 1] == ':' || path[n - 1] == '*' {
                assert(open_between(path, n - 1, n));
            } else {
                let m = choose|m: int| open_between(path, m, before);
                assert(open_between(path, m, n));
            }
        }
        if exists|m: int| open_between(path, m, n) {
            let m = choose|m: int| open_between(path, m, n);
            if m < n - 1 {
                assert(open_between(path, m, before));
            }
        }
    }
}

proof fn lemma_parameters(path: Seq<char>)
    ensures
        parameters(path) == path.filter(|c: char| c == ':').len(),
    decreases path.len(),
{
    reveal(Seq::filter);
    if path.len() > 0 {
        lemma_parameters(path.drop_last());
    }
}

/// A pattern starts with a slash. Each of its wildcards has a name, there is at most one of them
/// between two slashes, and no more than 25 of them are parameters. A `*` follows a slash and has
/// no slash behind it.
pub proof fn law_well_formed(path: Seq<char>)
    ensures
        well_formed(path) <==> {
            &&& path.len() > 0 && path[0] == '/'
            &&& forall|m: int|
                #![trigger path[m]]
                0 <= m < path.len() && (path[m] == ':' || path[m] == '*') ==> m + 1 < path.len()
                    && path[m + 1] != '/'
            &&& forall|m: int, n: int|
                #![trigger path[m], path[n]]
                0 <= m < n < path.len() && (path[m] == ':' || path[m] == '*') && (path[n] == ':'
                    || path[n] == '*') ==> exists|k: int| m < k < n && path[k] == '/'
            &&& forall|m: int|
                #![trigger path[m]]
                0 <= m < path.len() && path[m] == '*' ==> 0 < m && path[m - 1] == '/' && (forall|
                    k: int,
                |
                    m < k < path.len() ==> path[k] != '/')
            &&& path.filter(|c: char| c == ':').len() <= 25
        },
{
    lemma_parameters(path);
    if well_formed(path) {
        assert forall|m: int, n: int|
            #![trigger path[m], path[n]]
            0 <= m < n < path.len() && (path[m] == ':' || path[m] == '*') && (path[n] == ':'
                || path[n] == '*') implies exists|k: int| m < k < n && path[k] == '/' by {
            assert(mark_in_place(path, n));
            lemma_in_wildcard(path, n);
            assert(!open_between(path, m, n));
        }
    } else if {
        &&& path.len() > 0 && path[0] == '/'
        &&& forall|m: int|
            #![trigger path[m]]
            0 <= m < path.len() && (path[m] == ':' || path[m] == '*') ==> m + 1 < path.len()
                && path[m + 1] != '/'
        &&& forall|m: int, n: int|
            #![trigger path[m], path[n]]
            0 <= m < n < path.len() && (path[m] == ':' || path[m] == '*') && (path[n] == ':'
                || path[n] == '*') ==> exists|k: int| m < k < n && path[k] == '/'
        &&& forall|m: int|
            #![trigger path[m]]
            0 <= m < path.len() && path[m] == '*' ==> 0 < m && path[m - 1] == '/' && (forall|
                k: int,
            |
                m < k < path.len() ==> path[k] != '/')
        &&& path.filter(|c: char| c == ':').len() <= 25
    } {
        let i = choose|i: int| #![trigger path[i]] 0 <= i < path.len() && !mark_in_place(path, i);
        lemma_in_wildcard(path, i);
        if exists|m: int| open_between(path, m, i) {
            let m = choose|m: int| open_between(path, m, i);
            assert(path[m] == path[m] && path[i] == path[i]);
        }
        assert(false);
    }
}

/// The shape of a path is the path without the characters that stand inside a wildcard, behind its
/// mark: `kept` lists the positions of the others.
pub proof fn law_shape(path: Seq<char>) -> (kept: Seq<int>)
    ensures
        kept.len() == shape(path).len(),
        forall|i: int, j: int|
            #![trigger kept[i], kept[j]]
            0 <= i < j < kept.len() ==> kept[i] < kept[j],
        forall|i: int|
            #![trigger kept[i]]
            0 <= i < kept.len() ==> 0 <= kept[i] < path.len() && shape(path)[i] == path[kept[i]],
        forall|n: int|
            #![trigger path[n]]
            0 <= n < path.len() ==> (kept.contains(n) <==> path[n] == '/' || !(exists|m: int|
                open_between(path, m, n))),
    decreases path.len(),
{
    if path.len() == 0 {
        Seq::empty()
    } else {
        let start = path.drop_last();
        let before = law_shape(start);
        let last = path.len() - 1;
        assert(path.take(last) =~= start);
        lemma_in_wildcard(path, last);
        let kept = if in_wildcard(start) && path.last() != '/' {
            before
        } else {
            before.push(last)
        };
        assert forall|n: int| #![trigger path[n]] 0 <= n < path.len() implies (kept.contains(n)
            <==> path[n] == '/' || !(exists|m: int| open_between(path, m, n))) by {
            if n < last {
                assert(start[n] == path[n]);
                assert forall|m: int| #[trigger]
                    open_between(start, m, n) <==> open_between(path, m, n) by {
                    assert(forall|k: int| m < k < n ==> 0 <= m ==> start[k] == path[k]);
                }
                assert forall|m: int| #[trigger] open_between(path, m, n) implies open_between(
                    start,
                    m,
                    n,
                ) by {}
                assert(kept.contains(n) <==> before.contains(n)) by {
                    if before.contains(n) {
                        let i = before.index_of(n);
                        assert(kept[i] == n);
                    }
                }
            } else {
                if kept.len() > before.len() {
                    assert(kept[kept.len() - 1] == last);
                } else {
                    assert(forall|i: int| 0 <= i < before.len() ==> before[i] < last);
                }
            }
        }
        kept
    }
}

/// [`parse`] gives the shape of the paths that are patterns, and of no others.
pub proof fn law_parse(path: &str, r: Option<Vec<char>>)
    requires
        call_ensures(parse, (path,), r),
    ensures
        r is Some <==> well_formed(path@),
        r matches Some(out) ==> out@ == shape(path@),
{
}

proof fn lemma_same_start(a: Seq<char>, b: Seq<char>, n: int)
    requires
        0 <= n <= a.len(),
        n <= b.len(),
    ensures
        a.take(n) == b.take(n) <==> forall|k: int| #![trigger a[k]] 0 <= k < n ==> a[k] == b[k],
{
    if a.take(n) == b.take(n) {
        assert forall|k: int| #![trigger a[k]] 0 <= k < n implies a[k] == b[k] by {
            assert(a.take(n)[k] == b.take(n)[k]);
        }
    } else if forall|k: int| #![trigger a[k]] 0 <= k < n ==> a[k] == b[k] {
        assert(a.take(n) =~= b.take(n));
    }
}

/// Two routes can stand in one router where, on one path, they answer different methods and where,
/// on two paths, the shapes differ and neither closes with a `*` where the other has a wildcard
/// after the same start.
pub proof fn law_compatible(a: RouteKey, b: RouteKey, x: Seq<char>, y: Seq<char>)
    requires
        x == shape(a.path),
        y == shape(b.path),
    ensures
        a.path == b.path ==> (compatible(a, b) <==> a.verb != b.verb),
        a.path != b.path ==> (compatible(a, b) <==> {
            &&& x != y
            &&& !({
                &&& 0 < x.len() <= y.len()
                &&& x[x.len() - 1] == '*'
                &&& y[x.len() - 1] == ':' || y[x.len() - 1] == '*'
                &&& forall|k: int| #![trigger x[k]] 0 <= k < x.len() - 1 ==> x[k] == y[k]
            })
            &&& !({
                &&& 0 < y.len() <= x.len()
                &&& y[y.len() - 1] == '*'
                &&& x[y.len() - 1] == ':' || x[y.len() - 1] == '*'
                &&& forall|k: int| #![trigger y[k]] 0 <= k < y.len() - 1 ==> y[k] == x[k]
            })
        }),
{
    if 0 < x.len() <= y.len() {
        lemma_same_start(x, y, x.len() - 1);
        assert(x.drop_last() =~= x.take(x.len() - 1));
    }
    if 0 < y.len() <= x.len() {
        lemma_same_start(y, x, y.len() - 1);
        assert(y.drop_last() =~= y.take(y.len() - 1));
    }
}

/// A router takes a list of routes where each has a pattern and every two of them are compatible.
pub proof fn law_mountable(keys: Seq<RouteKey>)
    ensures
        mountable(keys) <==> {
            &&& forall|i: int| #![trigger keys[i]] 0 <= i < keys.len() ==> well_formed(keys[i].path)
            &&& forall|i: int, j: int|
                #![trigger keys[i], keys[j]]
                0 <= i < keys.len() && 0 <= j < keys.len() && i != j ==> compatible(
                    keys[i],
                    keys[j],
                )
        },
{
}

/// [`is_mountable`] tells whether a router takes a list of endpoints.
pub proof fn law_is_mountable(endpoints: &Vec<Endpoint>, r: bool)
    requires
        call_ensures(is_mountable, (endpoints,), r),
    ensures
        r == mountable(
            Seq::new(
                endpoints@.len(),
                |i: int| RouteKey { path: endpoints@[i].path@, verb: endpoints@[i].verb },
            ),
        ),
{
    assert(Seq::new(
        endpoints@.len(),
        |i: int| RouteKey { path: endpoints@[i].path@, verb: endpoints@[i].verb },
    ) =~= endpoints@.map_values(|e: Endpoint| e@));
}

/// Every path and every list of endpoints can be tested.
pub proof fn law_every_pattern_can_be_tested(path: &str, endpoints: &Vec<Endpoint>)
    ensures
        call_requires(parse, (path,)),
        call_requires(is_mountable, (endpoints,)),
{
}

} // verus!
