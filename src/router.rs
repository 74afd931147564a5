//! The exact-path router: a table from path to handler, with a "not found"
//! fallback.

use vstd::prelude::*;
use vstd::string::*;
use crate::site::{
    bare, not_found, serve_spec, Response, ResponseView, Route, Site, SiteView, STATUS_NOT_FOUND,
};

verus! {

/// The handler bound to `path` by a list of registrations, the latest
/// registration of a path winning.
pub open spec fn lookup(entries: Seq<(Seq<char>, Route)>, path: Seq<char>) -> Option<Route>
    decreases entries.len(),
{
    if entries.len() == 0 {
        None
    } else if entries.last().0 == path {
        Some(entries.last().1)
    } else {
        lookup(entries.drop_last(), path)
    }
}

/// The route table as a map from path to handler.
pub open spec fn table_of(entries: Seq<(Seq<char>, Route)>) -> Map<Seq<char>, Route> {
    Map::new(|p: Seq<char>| lookup(entries, p) is Some, |p: Seq<char>| lookup(entries, p).unwrap())
}

/// The canonical form of a request path: its segments joined by `/`, with no
/// leading slash.
pub open spec fn join_segments(segments: Seq<Seq<char>>) -> Seq<char>
    decreases segments.len(),
{
    if segments.len() == 0 {
        Seq::empty()
    } else if segments.len() == 1 {
        segments[0]
    } else {
        join_segments(segments.drop_last()) + "/"@ + segments.last()
    }
}

/// What dispatching `path` through `table` gives: the bound handler's
/// response, or 404 with an empty body.
pub open spec fn dispatch(table: Map<Seq<char>, Route>, site: SiteView, path: Seq<char>) -> ResponseView {
    if table.contains_key(path) {
        serve_spec(site, table[path])
    } else {
        bare(STATUS_NOT_FOUND)
    }
}

/// Maps paths to handlers by exact match.
pub struct Router {
    routes: Vec<(String, Route)>,
}

impl Router {
    /// The registrations in order, as mathematical values.
    pub closed spec fn entries(&self) -> Seq<(Seq<char>, Route)> {
        self.routes@.map_values(|e: (String, Route)| (e.0@, e.1))
    }
}

impl View for Router {
    type V = Map<Seq<char>, Route>;

    open spec fn view(&self) -> Map<Seq<char>, Route> {
        table_of(self.entries())
    }
}

impl Router {
    /// A router with no routes.
    pub fn new() -> (r: Self)
        ensures
            r@ == Map::<Seq<char>, Route>::empty(),
    {
        let r = Router { routes: Vec::new() };
        assert(r.entries() =~= Seq::<(Seq<char>, Route)>::empty());
        assert(r@ =~= Map::<Seq<char>, Route>::empty());
        r
    }

    /// Binds `path` to `handler`, replacing any earlier binding of that path.
    pub fn add_route(&mut self, path: String, handler: Route)
        ensures
            final(self)@ == old(self)@.insert(path@, handler),
    {
        let ghost p = path@;
        self.routes.push((path, handler));
        proof {
            let s = old(self).entries();
            let t = final(self).entries();
            assert(t =~= s.push((p, handler)));
            assert(t.drop_last() =~= s);
            assert forall|q: Seq<char>| lookup(t, q) == if q == p { Some(handler) } else { lookup(s, q) } by {}
            assert(final(self)@ =~= old(self)@.insert(p, handler));
        }
    }

    /// The handler bound to exactly `path`, if any.
    pub fn route_for(&self, path: &String) -> (r: Option<Route>)
        ensures
            r == (if self@.contains_key(path@) { Some(self@[path@]) } else { None }),
    {
        let ghost s = self.entries();
        let mut i: usize = self.routes.len();
        assert(s.take(i as int) =~= s);
        while i > 0
            invariant
                i <= self.routes.len(),
                s == self.entries(),
                lookup(s, path@) == lookup(s.take(i as int), path@),
            decreases i,
        {
            let ghost pre = s.take(i as int);
            assert(pre.drop_last() =~= s.take(i - 1));
            assert(pre.last() == s[i - 1]);
            if self.routes[i - 1].0 == *path {
                return Some(self.routes[i - 1].1);
            }
            i = i - 1;
        }
        assert(s.take(0) =~= Seq::<(Seq<char>, Route)>::empty());
        None
    }

    /// Dispatches a request whose path has the given segments: the handler
    /// bound to the joined path answers, or a 404 with an empty body.
    pub fn handle(&self, site: &Site, segments: &Vec<String>) -> (r: Response)
        ensures
            r@ == dispatch(self@, site@, join_segments(segments@.map_values(|s: String| s@))),
    {
        let path = canonical_path(segments);
        match self.route_for(&path) {
            Some(route) => site.serve(route),
            None => not_found(),
        }
    }
}

/// The route table of the server: the index at the root, the four content
/// resources, and the error route.
pub open spec fn standard_routes() -> Map<Seq<char>, Route> {
    map![
        ""@ => Route::Index,
        "res/image1"@ => Route::Image,
        "res/pdf1"@ => Route::Pdf,
        "res/text1"@ => Route::Text,
        "html"@ => Route::Html,
        "error"@ => Route::Error,
    ]
}

/// Builds the server's router, registering each fixed route once.
pub fn site_router() -> (r: Router)
    ensures
        r@ == standard_routes(),
{
    let mut r = Router::new();
    r.add_route("".to_owned(), Route::Index);
    r.add_route("res/image1".to_owned(), Route::Image);
    r.add_route("res/pdf1".to_owned(), Route::Pdf);
    r.add_route("res/text1".to_owned(), Route::Text);
    r.add_route("html".to_owned(), Route::Html);
    r.add_route("error".to_owned(), Route::Error);
    assert(r@ =~= standard_routes());
    r
}

/// Joins the segments of a request path with `/`.
pub fn canonical_path(segments: &Vec<String>) -> (r: String)
    ensures
        r@ == join_segments(segments@.map_values(|s: String| s@)),
{
    let ghost all = segments@.map_values(|s: String| s@);
    let mut out = String::new();
    let mut i: usize = 0;
    while i < segments.len()
        invariant
            i <= segments.len(),
            all == segments@.map_values(|s: String| s@),
            out@ == join_segments(all.take(i as int)),
        decreases segments.len() - i,
    {
        if i > 0 {
            out.append("/");
        }
        out.append(segments[i].as_str());
        assert(all.take(i + 1).drop_last() =~= all.take(i as int));
        i = i + 1;
    }
    assert(all.take(i as int) =~= all);
    out
}

} // verus!
