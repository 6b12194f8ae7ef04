use vstd::hash_map::StringHashMap;
use vstd::prelude::*;
use vstd::string::StringExecFns;

verus! {

/// The key under which the route for `path` and `method` is kept: the path,
/// a hyphen, the method.
pub open spec fn route_key(path: Seq<char>, method: Seq<char>) -> Seq<char> {
    path + seq!['-'] + method
}

/// A table from a path and a method to a handler, with one handler for all
/// that the table does not name.
#[verifier::reject_recursive_types(H)]
pub struct Router<H> {
    default_route: H,
    routes: StringHashMap<H>,
}

impl<H> Router<H> {
    /// The handler for what no route names.
    pub closed spec fn default_route(&self) -> H {
        self.default_route
    }

    /// The routes that were set, by key.
    pub closed spec fn routes(&self) -> Map<Seq<char>, H> {
        self.routes@
    }

    /// The handler that answers `method` on `path`.
    pub open spec fn target(&self, path: Seq<char>, method: Seq<char>) -> H {
        if self.routes().contains_key(route_key(path, method)) {
            self.routes()[route_key(path, method)]
        } else {
            self.default_route()
        }
    }

    fn create_key(path: &str, method: &str) -> (key: String)
        ensures
            key@ == route_key(path@, method@),
    {
        let mut key = String::from_str(path);
        proof {
            reveal_strlit("-");
        }
        key.append("-");
        key.append(method);
        key
    }

    /// A router without routes.
    pub fn new(default_route: H) -> (router: Self)
        ensures
            router.default_route() == default_route,
            router.routes() == Map::<Seq<char>, H>::empty(),
    {
        Router { default_route, routes: StringHashMap::new() }
    }

    /// Sets the handler for `method` on `path`, in place of an earlier one
    /// under the same key.
    pub fn set(&mut self, path: &str, method: &str, target: H)
        ensures
            final(self).routes() == old(self).routes().insert(route_key(path@, method@), target),
            final(self).default_route() == old(self).default_route(),
    {
        self.routes.insert(Self::create_key(path, method), target);
    }

    /// The handler for `method` on `path`: the one set under their key, or
    /// the default.
    pub fn get(&self, path: &str, method: &str) -> (found: &H)
        ensures
            *found == self.target(path@, method@),
    {
        let key = Self::create_key(path, method);
        match self.routes.get(key.as_str()) {
            Some(target) => target,
            None => &self.default_route,
        }
    }

    /// The number of routes that are set.
    pub fn len(&self) -> (count: usize)
        ensures
            count == self.routes().len(),
    {
        self.routes.len()
    }
}

} // verus!
