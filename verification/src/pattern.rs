//! Route patterns: which of them a router takes, and which of them can stand beside each other.
//!
//! A pattern is a path in which `:name` stands for one path segment, or the end of one, and a
//! closing `*name` stands for the rest of the path.

use vstd::prelude::*;
use vstd::string::*;

verus! {

/// The most `:name` parameters that one pattern can hold.
pub const MAX_PARAMETERS: usize = 25;

/// The HTTP method that a route answers. `Get` answers `HEAD` requests too.
#[derive(Clone, Copy, Debug, PartialEq, Eq, Structural)]
pub enum Verb {
    Get,
    Post,
}

/// What one route of a router is known by.
pub struct RouteKey {
    pub path: Seq<char>,
    pub verb: Verb,
}

/// A pattern together with the method that is answered there.
#[derive(Debug)]
pub struct Endpoint {
    pub path: String,
    pub verb: Verb,
}

impl View for Endpoint {
    type V = RouteKey;

    open spec fn view(&self) -> RouteKey {
        RouteKey { path: self.path@, verb: self.verb }
    }
}

/// The route that answers `GET` on `path`.
pub open spec fn get_on(path: Seq<char>) -> RouteKey {
    RouteKey { path, verb: Verb::Get }
}

/// The route that answers `POST` on `path`.
pub open spec fn post_on(path: Seq<char>) -> RouteKey {
    RouteKey { path, verb: Verb::Post }
}

/// `c` opens a wildcard.
pub open spec fn is_mark(c: char) -> bool {
    c == ':' || c == '*'
}

/// `path` ends inside a wildcard: its last segment holds a mark.
pub open spec fn in_wildcard(path: Seq<char>) -> bool
    decreases path.len(),
{
    path.len() > 0 && path.last() != '/' && (is_mark(path.last()) || in_wildcard(path.drop_last()))
}

/// The number of `:name` parameters of `path`.
pub open spec fn parameters(path: Seq<char>) -> nat
    decreases path.len(),
{
    if path.len() == 0 {
        0
    } else if path.last() == ':' {
        parameters(path.drop_last()) + 1
    } else {
        parameters(path.drop_last())
    }
}

/// A mark at position `i` opens a wildcard that has a name and no second mark, and a `*` there
/// fills a whole segment, the last one.
pub open spec fn mark_in_place(path: Seq<char>, i: int) -> bool {
    &&& is_mark(path[i]) ==> {
        &&& !in_wildcard(path.take(i))
        &&& i + 1 < path.len()
        &&& path[i + 1] != '/'
    }
    &&& path[i] == '*' ==> {
        &&& 0 < i
        &&& path[i - 1] == '/'
        &&& forall|j: int| i < j < path.len() ==> path[j] != '/'
    }
}

/// `path` is a pattern that a router takes.
pub open spec fn well_formed(path: Seq<char>) -> bool {
    &&& path.len() > 0
    &&& path[0] == '/'
    &&& forall|i: int| #![trigger path[i]] 0 <= i < path.len() ==> mark_in_place(path, i)
    &&& parameters(path) <= MAX_PARAMETERS
}

/// `path` with the name of every wildcard left out. Two patterns of one shape match the same
/// requests.
pub open spec fn shape(path: Seq<char>) -> Seq<char>
    decreases path.len(),
{
    if path.len() == 0 {
        Seq::empty()
    } else if in_wildcard(path.drop_last()) && path.last() != '/' {
        shape(path.drop_last())
    } else {
        shape(path.drop_last()).push(path.last())
    }
}

/// The shape `a` closes with a `*` where the shape `b` has a wildcard too.
pub open spec fn catches(a: Seq<char>, b: Seq<char>) -> bool {
    &&& 0 < a.len() <= b.len()
    &&& a.last() == '*'
    &&& b.take(a.len() - 1) == a.drop_last()
    &&& is_mark(b[a.len() - 1])
}

/// A router cannot hold two different patterns of the shapes `a` and `b`.
pub open spec fn clash(a: Seq<char>, b: Seq<char>) -> bool {
    a == b || catches(a, b) || catches(b, a)
}

/// The two routes can stand in one router: on one pattern they answer different methods, and two
/// different patterns do not clash.
pub open spec fn compatible(a: RouteKey, b: RouteKey) -> bool {
    if a.path == b.path {
        a.verb != b.verb
    } else {
        !clash(shape(a.path), shape(b.path))
    }
}

/// A router takes all of `keys`.
pub open spec fn mountable(keys: Seq<RouteKey>) -> bool {
    &&& forall|i: int| #![trigger keys[i]] 0 <= i < keys.len() ==> well_formed(keys[i].path)
    &&& forall|i: int, j: int|
        #![trigger keys[i], keys[j]]
        0 <= i < j < keys.len() ==> compatible(keys[i], keys[j])
}

proof fn lemma_parameters_grow(path: Seq<char>, n: int)
    requires
        0 <= n <= path.len(),
    ensures
        parameters(path.take(n)) <= parameters(path),
    decreases path.len(),
{
    if n == path.len() {
        assert(path.take(n) =~= path);
    } else {
        assert(path.drop_last().take(n) =~= path.take(n));
        lemma_parameters_grow(path.drop_last(), n);
    }
}

/// The shape of `path`, or `None` where `path` is not well formed.
pub fn parse(path: &str) -> (r: Option<Vec<char>>)
    ensures
        r is Some <==> well_formed(path@),
        r matches Some(out) ==> out@ == shape(path@),
{
    let mut out: Vec<char> = Vec::new();
    let mut started: bool = false;
    let mut inside: bool = false;
    let mut closing: bool = false;
    let mut previous: char = '/';
    let mut count: usize = 0;
    assert(path@.take(0) =~= Seq::<char>::empty());
    for c in it: path.chars()
        invariant
            it.seq() == path@,
            started <==> it.index() > 0,
            !started ==> previous == '/',
            started ==> path@[0] == '/' && previous == path@[it.index() - 1],
            inside == in_wildcard(path@.take(it.index() as int)),
            closing <==> exists|i: int| 0 <= i < it.index() && path@[i] == '*',
            count == parameters(path@.take(it.index() as int)),
            count <= MAX_PARAMETERS,
            out@ == shape(path@.take(it.index() as int)),
            forall|i: int|
                #![trigger path@[i]]
                0 <= i < it.index() && is_mark(path@[i]) ==> !in_wildcard(path@.take(i)) && (i + 1
                    < it.index() ==> path@[i + 1] != '/'),
            forall|i: int|
                #![trigger path@[i]]
                0 <= i < it.index() && path@[i] == '*' ==> 0 < i && path@[i - 1] == '/' && (forall|
                    j: int,
                |
                    i < j < it.index() ==> path@[j] != '/'),
    {
        let ghost k = it.index() as int;
        assert(c == path@[k]);
        assert(path@.take(k + 1).drop_last() =~= path@.take(k));
        assert(path@.take(k + 1).last() == c);
        if !started && c != '/' {
            return None;
        }
        if c == '/' {
            if previous == ':' || previous == '*' || closing {
                proof {
                    if closing {
                        let i = choose|i: int| 0 <= i < k && path@[i] == '*';
                        assert(!mark_in_place(path@, i));
                    } else {
                        assert(!mark_in_place(path@, k - 1));
                    }
                }
                return None;
            }
            inside = false;
            out.push(c);
        } else if c == ':' {
            if inside || count == MAX_PARAMETERS {
                proof {
                    lemma_parameters_grow(path@, k + 1);
                    assert(inside ==> !mark_in_place(path@, k));
                }
                return None;
            }
            count = count + 1;
            inside = true;
            out.push(c);
        } else if c == '*' {
            if inside || previous != '/' {
                assert(!mark_in_place(path@, k));
                return None;
            }
            inside = true;
            closing = true;
            out.push(c);
        } else if !inside {
            out.push(c);
        }
        started = true;
        previous = c;
    }
    assert(path@.take(path@.len() as int) =~= path@);
    if !started {
        return None;
    }
    if previous == ':' || previous == '*' {
        assert(!mark_in_place(path@, path@.len() - 1));
        return None;
    }
    Some(out)
}

/// The first `n` characters of `a` and `b` are the same.
fn same_start(a: &Vec<char>, b: &Vec<char>, n: usize) -> (r: bool)
    requires
        n <= a.len(),
        n <= b.len(),
    ensures
        r == (a@.take(n as int) == b@.take(n as int)),
{
    for i in 0..n
        invariant
            n <= a.len(),
            n <= b.len(),
            a@.take(i as int) == b@.take(i as int),
    {
        if a[i] != b[i] {
            assert(a@.take(n as int)[i as int] != b@.take(n as int)[i as int]);
            return false;
        }
        assert(a@.take(i + 1) =~= a@.take(i as int).push(a@[i as int]));
        assert(b@.take(i + 1) =~= b@.take(i as int).push(b@[i as int]));
    }
    true
}

/// Whether the shape `a` closes with a `*` where the shape `b` has a wildcard too.
fn shape_catches(a: &Vec<char>, b: &Vec<char>) -> (r: bool)
    ensures
        r == catches(a@, b@),
{
    let n = a.len();
    if n == 0 || n > b.len() {
        return false;
    }
    assert(a@.take(n - 1) =~= a@.drop_last());
    a[n - 1] == '*' && (b[n - 1] == ':' || b[n - 1] == '*') && same_start(a, b, n - 1)
}

/// Whether patterns of the two shapes clash.
fn shapes_clash(a: &Vec<char>, b: &Vec<char>) -> (r: bool)
    ensures
        r == clash(a@, b@),
{
    assert(a@.take(a@.len() as int) =~= a@);
    assert(b@.take(b@.len() as int) =~= b@);
    (a.len() == b.len() && same_start(a, b, a.len())) || shape_catches(a, b) || shape_catches(b, a)
}

/// Whether a router takes all of `endpoints`.
pub fn is_mountable(endpoints: &Vec<Endpoint>) -> (r: bool)
    ensures
        r == mountable(endpoints@.map_values(|e: Endpoint| e@)),
{
    let ghost keys = endpoints@.map_values(|e: Endpoint| e@);
    let mut shapes: Vec<Vec<char>> = Vec::new();
    for i in 0..endpoints.len()
        invariant
            keys == endpoints@.map_values(|e: Endpoint| e@),
            shapes.len() == i,
            forall|k: int|
                #![trigger keys[k]]
                0 <= k < i ==> well_formed(keys[k].path) && shapes@[k]@ == shape(keys[k].path),
            forall|k: int, j: int|
                #![trigger keys[k], keys[j]]
                0 <= k < j < i ==> compatible(keys[k], keys[j]),
    {
        assert(keys[i as int] == endpoints@[i as int]@);
        let own = match parse(endpoints[i].path.as_str()) {
            Some(own) => own,
            None => {
                return false;
            },
        };
        for k in 0..i
            invariant
                i < endpoints.len(),
                keys == endpoints@.map_values(|e: Endpoint| e@),
                keys[i as int] == endpoints@[i as int]@,
                own@ == shape(keys[i as int].path),
                shapes.len() == i,
                forall|j: int|
                    #![trigger keys[j]]
                    0 <= j < i ==> shapes@[j]@ == shape(keys[j].path),
                forall|j: int|
                    #![trigger keys[j]]
                    0 <= j < k ==> compatible(keys[j], keys[i as int]),
        {
            assert(keys[k as int] == endpoints@[k as int]@);
            let free = if endpoints[k].path == endpoints[i].path {
                endpoints[k].verb != endpoints[i].verb
            } else {
                !shapes_clash(&shapes[k], &own)
            };
            if !free {
                assert(!compatible(keys[k as int], keys[i as int]));
                return false;
            }
        }
        shapes.push(own);
    }
    true
}

/// `prefix` followed by `suffix`.
pub(crate) fn join(prefix: &str, suffix: &str) -> (path: String)
    ensures
        path@ == prefix@ + suffix@,
{
    let mut path: String = prefix.to_owned();
    path.append(suffix);
    path
}

/// `GET` on `path`.
pub(crate) fn get_endpoint(path: &str) -> (r: Endpoint)
    ensures
        r@ == get_on(path@),
{
    Endpoint { path: path.to_owned(), verb: Verb::Get }
}

/// `POST` on `path`.
pub(crate) fn post_endpoint(path: &str) -> (r: Endpoint)
    ensures
        r@ == post_on(path@),
{
    Endpoint { path: path.to_owned(), verb: Verb::Post }
}

} // verus!
