//! The route table: an ordered list of routes in which no two entries
//! share a method and a path.

use vstd::prelude::*;
use vstd::string::StringExecFns;
use crate::method::Method;
use crate::text::str_eq;

verus! {

/// One entry of a route table: a method, a path and the handler bound to them.
#[derive(Debug)]
pub struct Route<H> {
    pub method: Method,
    pub path: String,
    pub handler: H,
}

/// What a `Route` means in contracts.
pub struct RouteSpec<H> {
    pub method: Method,
    pub path: Seq<char>,
    pub handler: H,
}

impl<H> View for Route<H> {
    type V = RouteSpec<H>;

    open spec fn view(&self) -> RouteSpec<H> {
        RouteSpec { method: self.method, path: self.path@, handler: self.handler }
    }
}

impl<H> RouteSpec<H> {
    /// A route serves a request whose method and path are exactly its own.
    pub open spec fn serves(self, method: Method, path: Seq<char>) -> bool {
        self.method == method && self.path == path
    }
}

/// Some entry of `routes` serves the pair.
pub open spec fn binds<H>(routes: Seq<RouteSpec<H>>, method: Method, path: Seq<char>) -> bool {
    exists|i: int| 0 <= i < routes.len() && (#[trigger] routes[i]).serves(method, path)
}

/// No two entries of `routes` share a method and a path.
pub open spec fn distinct<H>(routes: Seq<RouteSpec<H>>) -> bool {
    forall|i: int, j: int|
        0 <= i < j < routes.len() ==> !(#[trigger] routes[i]).serves(
            routes[j].method,
            (#[trigger] routes[j]).path,
        )
}

/// The handler bound to the pair, if any.
pub open spec fn resolve<H>(routes: Seq<RouteSpec<H>>, method: Method, path: Seq<char>) -> Option<
    H,
> {
    if binds(routes, method, path) {
        let i = choose|i: int| 0 <= i < routes.len() && (#[trigger] routes[i]).serves(method, path);
        Some(routes[i].handler)
    } else {
        None
    }
}

/// The entries of `inner` with `prefix` put in front of each path.
pub open spec fn nested<H>(prefix: Seq<char>, inner: Seq<RouteSpec<H>>) -> Seq<RouteSpec<H>> {
    Seq::new(
        inner.len(),
        |i: int| RouteSpec { method: inner[i].method, path: prefix + inner[i].path, handler: inner[i].handler },
    )
}

/// `added[k]` is the first entry of `added` that `routes` already binds.
pub open spec fn first_collision<H>(
    routes: Seq<RouteSpec<H>>,
    added: Seq<RouteSpec<H>>,
    k: int,
) -> bool {
    &&& 0 <= k < added.len()
    &&& binds(routes, added[k].method, added[k].path)
    &&& forall|j: int| 0 <= j < k ==> !binds(routes, (#[trigger] added[j]).method, added[j].path)
}

/// None of `added` is bound in `routes`.
pub open spec fn disjoint<H>(routes: Seq<RouteSpec<H>>, added: Seq<RouteSpec<H>>) -> bool {
    forall|j: int| 0 <= j < added.len() ==> !binds(routes, (#[trigger] added[j]).method, added[j].path)
}

/// In a table without collisions the entry that serves a pair decides its handler.
pub proof fn lemma_resolve_at<H>(routes: Seq<RouteSpec<H>>, i: int, method: Method, path: Seq<char>)
    requires
        distinct(routes),
        0 <= i < routes.len(),
        routes[i].serves(method, path),
    ensures
        resolve(routes, method, path) == Some(routes[i].handler),
{
}

/// Nesting keeps a table free of collisions.
pub proof fn lemma_nested_distinct<H>(prefix: Seq<char>, inner: Seq<RouteSpec<H>>)
    requires
        distinct(inner),
    ensures
        distinct(nested(prefix, inner)),
{
    let outer = nested(prefix, inner);
    assert forall|i: int, j: int| 0 <= i < j < outer.len() implies !(#[trigger] outer[i]).serves(
        outer[j].method,
        (#[trigger] outer[j]).path,
    ) by {
        prefix.lemma_concat_injective(inner[i].path, inner[j].path);
    }
}

/// Two tables without collisions, neither binding a pair of the other, join into one.
pub proof fn lemma_joined_distinct<H>(routes: Seq<RouteSpec<H>>, added: Seq<RouteSpec<H>>)
    requires
        distinct(routes),
        distinct(added),
        disjoint(routes, added),
    ensures
        distinct(routes + added),
{
    let all = routes + added;
    assert forall|i: int, j: int| 0 <= i < j < all.len() implies !(#[trigger] all[i]).serves(
        all[j].method,
        (#[trigger] all[j]).path,
    ) by {}
}

/// Joined tables resolve a pair as the first table does where it binds the
/// pair, and as the second does where it does not.
pub proof fn lemma_joined_resolves<H>(
    routes: Seq<RouteSpec<H>>,
    added: Seq<RouteSpec<H>>,
    method: Method,
    path: Seq<char>,
)
    requires
        distinct(routes),
        distinct(added),
        disjoint(routes, added),
    ensures
        resolve(routes + added, method, path) == if binds(routes, method, path) {
            resolve(routes, method, path)
        } else {
            resolve(added, method, path)
        },
{
    let all = routes + added;
    lemma_joined_distinct(routes, added);
    if binds(routes, method, path) {
        let i = choose|i: int| 0 <= i < routes.len() && (#[trigger] routes[i]).serves(method, path);
        lemma_resolve_at(all, i, method, path);
    } else if binds(added, method, path) {
        let i = choose|i: int| 0 <= i < added.len() && (#[trigger] added[i]).serves(method, path);
        lemma_resolve_at(all, routes.len() + i, method, path);
    } else {
        assert forall|k: int| 0 <= k < all.len() implies !(#[trigger] all[k]).serves(method, path) by {}
    }
}

/// After a registration the new pair resolves to its handler, and every
/// other pair resolves as it did before.
pub proof fn lemma_route_resolves<H>(
    routes: Seq<RouteSpec<H>>,
    entry: RouteSpec<H>,
    method: Method,
    path: Seq<char>,
)
    requires
        distinct(routes),
        !binds(routes, entry.method, entry.path),
    ensures
        resolve(routes.push(entry), method, path) == if entry.serves(method, path) {
            Some(entry.handler)
        } else {
            resolve(routes, method, path)
        },
{
    let added = seq![entry];
    assert(routes.push(entry) =~= routes + added);
    lemma_joined_resolves(routes, added, method, path);
    if entry.serves(method, path) {
        lemma_resolve_at(added, 0, method, path);
    }
}

/// Under a prefix, a nested table binds only paths that start with the
/// prefix, and resolves the prefix followed by a path as the inner table
/// resolves that path.
pub proof fn lemma_nested_resolves<H>(
    prefix: Seq<char>,
    inner: Seq<RouteSpec<H>>,
    method: Method,
    path: Seq<char>,
)
    requires
        distinct(inner),
    ensures
        resolve(nested(prefix, inner), method, prefix + path) == resolve(inner, method, path),
        binds(nested(prefix, inner), method, path) ==> prefix.is_prefix_of(path),
{
    let outer = nested(prefix, inner);
    lemma_nested_distinct(prefix, inner);
    if binds(inner, method, path) {
        let i = choose|i: int| 0 <= i < inner.len() && (#[trigger] inner[i]).serves(method, path);
        lemma_resolve_at(outer, i, method, prefix + path);
        lemma_resolve_at(inner, i, method, path);
    } else {
        assert forall|k: int| 0 <= k < outer.len() implies !(#[trigger] outer[k]).serves(
            method,
            prefix + path,
        ) by {
            prefix.lemma_concat_injective(inner[k].path, path);
        }
    }
}

/// The meaning of each route of a list, in order.
pub open spec fn views<H>(routes: Seq<Route<H>>) -> Seq<RouteSpec<H>> {
    routes.map_values(|r: Route<H>| r@)
}

/// The pair that a registration found already bound.
#[derive(Debug, PartialEq, Eq)]
pub struct Collision {
    pub method: Method,
    pub path: String,
}

/// An ordered table of routes. No two of its entries share a method and a path.
#[derive(Debug)]
pub struct RouteTable<H> {
    routes: Vec<Route<H>>,
}

impl<H> View for RouteTable<H> {
    type V = Seq<RouteSpec<H>>;

    closed spec fn view(&self) -> Seq<RouteSpec<H>> {
        views(self.routes@)
    }
}

impl<H> RouteTable<H> {
    #[verifier::type_invariant]
    spec fn collision_free(self) -> bool {
        distinct(self@)
    }

    /// An empty table.
    pub fn new() -> (table: Self)
        ensures
            table@ == Seq::<RouteSpec<H>>::empty(),
    {
        let table = RouteTable { routes: Vec::new() };
        table
    }

    /// The number of routes. No two of them share a method and a path.
    pub fn len(&self) -> (n: usize)
        ensures
            n == self@.len(),
            distinct(self@),
    {
        proof {
            use_type_invariant(self);
        }
        self.routes.len()
    }

    /// The route at position `i`, in the order of registration.
    pub fn get(&self, i: usize) -> (route: Option<&Route<H>>)
        ensures
            i < self@.len() ==> route is Some && route->0@ == self@[i as int],
            i >= self@.len() ==> route is None,
    {
        if i < self.routes.len() {
            Some(&self.routes[i])
        } else {
            None
        }
    }

    fn position(&self, method: Method, path: &str) -> (at: Option<usize>)
        ensures
            match at {
                Some(i) => i < self@.len() && self@[i as int].serves(method, path@),
                None => !binds(self@, method, path@),
            },
    {
        let mut i: usize = 0;
        while i < self.routes.len()
            invariant
                i <= self.routes@.len(),
                forall|j: int| 0 <= j < i ==> !(#[trigger] self@[j]).serves(method, path@),
            decreases self.routes@.len() - i,
        {
            let route = &self.routes[i];
            if route.method == method && str_eq(route.path.as_str(), path) {
                return Some(i);
            }
            i += 1;
        }
        None
    }

    /// Whether some route is bound to the pair.
    pub fn contains(&self, method: Method, path: &str) -> (bound: bool)
        ensures
            bound == binds(self@, method, path@),
    {
        self.position(method, path).is_some()
    }

    /// The handler bound to the pair, if any.
    pub fn lookup(&self, method: Method, path: &str) -> (handler: Option<&H>)
        ensures
            match handler {
                Some(h) => resolve(self@, method, path@) == Some(*h),
                None => resolve(self@, method, path@) is None,
            },
    {
        match self.position(method, path) {
            Some(i) => {
                proof {
                    use_type_invariant(self);
                    lemma_resolve_at(self@, i as int, method, path@);
                }
                Some(&self.routes[i].handler)
            },
            None => None,
        }
    }

    fn extend(&mut self, added: Vec<Route<H>>)
        requires
            distinct(old(self)@),
            distinct(views(added@)),
            disjoint(old(self)@, views(added@)),
        ensures
            final(self)@ == old(self)@ + views(added@),
            distinct(final(self)@),
    {
        let ghost before = self@;
        let mut added = added;
        let mut routes: Vec<Route<H>> = Vec::new();
        proof {
            lemma_joined_distinct(before, views(added@));
            assert(views(self.routes@ + added@) =~= before + views(added@));
        }
        std::mem::swap(&mut self.routes, &mut routes);
        routes.append(&mut added);
        std::mem::swap(&mut self.routes, &mut routes);
    }

    /// Binds `handler` to the pair, after the routes already there.
    /// A pair that is already bound is refused and the table stays as it was.
    pub fn route(&mut self, method: Method, path: &str, handler: H) -> (outcome: Result<
        (),
        Collision,
    >)
        ensures
            outcome is Ok <==> !binds(old(self)@, method, path@),
            outcome is Ok ==> final(self)@ == old(self)@.push(
                RouteSpec { method, path: path@, handler },
            ),
            outcome is Err ==> final(self)@ == old(self)@ && outcome->Err_0.method == method
                && outcome->Err_0.path@ == path@,
            distinct(final(self)@),
    {
        proof {
            use_type_invariant(&*self);
        }
        if self.contains(method, path) {
            return Err(Collision { method, path: String::from_str(path) });
        }
        let mut added: Vec<Route<H>> = Vec::new();
        added.push(Route { method, path: String::from_str(path), handler });
        self.extend(added);
        Ok(())
    }

    /// Binds every route of `inner` under `prefix`: each path becomes `prefix`
    /// followed by the path it had, in the order of `inner`, after the routes
    /// already there. If any such pair is already bound, the first of them is
    /// reported and the table stays as it was.
    pub fn nest(&mut self, prefix: &str, inner: RouteTable<H>) -> (outcome: Result<(), Collision>)
        ensures
            outcome is Ok <==> disjoint(old(self)@, nested(prefix@, inner@)),
            outcome is Ok ==> final(self)@ == old(self)@ + nested(prefix@, inner@),
            outcome is Err ==> final(self)@ == old(self)@ && exists|k: int|
                first_collision(old(self)@, nested(prefix@, inner@), k)
                    && (#[trigger] nested(prefix@, inner@)[k]).serves(
                    outcome->Err_0.method,
                    outcome->Err_0.path@,
                ),
            distinct(final(self)@),
    {
        proof {
            use_type_invariant(&*self);
            use_type_invariant(&inner);
        }
        let ghost before = self@;
        let ghost added = nested(prefix@, inner@);
        let mut i: usize = 0;
        while i < inner.routes.len()
            invariant
                i <= inner.routes@.len(),
                inner.routes@.len() == inner@.len(),
                self@ == before,
                distinct(before),
                added == nested(prefix@, inner@),
                forall|j: int| 0 <= j < i ==> !binds(before, (#[trigger] added[j]).method, added[j].path),
            decreases inner.routes@.len() - i,
        {
            let route = &inner.routes[i];
            let path = String::from_str(prefix).concat(route.path.as_str());
            if self.contains(route.method, path.as_str()) {
                assert(first_collision(before, added, i as int));
                return Err(Collision { method: route.method, path });
            }
            i += 1;
        }
        let mut moved: Vec<Route<H>> = Vec::new();
        let rest = inner.routes;
        let ghost items = rest@;
        for route in it: rest
            invariant
                it.seq() == items,
                added == nested(prefix@, views(items)),
                moved@.len() == it.index(),
                forall|j: int| 0 <= j < moved@.len() ==> (#[trigger] moved@[j])@ == added[j],
        {
            let Route { method, path, handler } = route;
            moved.push(Route { method, path: String::from_str(prefix).concat(path.as_str()), handler });
        }
        proof {
            lemma_nested_distinct(prefix@, inner@);
        }
        self.extend(moved);
        Ok(())
    }
}

} // verus!
