use vstd::prelude::*;

use super::{opt_view, FaucetServerBuilder, FaucetServerConfig};
use crate::client::load_balancing::{IpExtractor, Strategy};
use crate::client::worker::WorkerType;
use crate::error::{FaucetError, FaucetResult};
use crate::text::{str_ends_with, str_equals, str_starts_with};

verus! {

/// The path and query of a request target.
pub struct PathAndQuery {
    pub path: String,
    pub query: Option<String>,
}

/// The text of a path and query.
pub open spec fn pq_view(pq: &PathAndQuery) -> (Seq<char>, Option<Seq<char>>) {
    (pq.path@, opt_view(pq.query))
}

/// The target that a route with a prefix not ending in `/` hands on: the
/// root, with the query kept, when the path is exactly the prefix.
pub open spec fn spec_strip_prefix_exact(pq: (Seq<char>, Option<Seq<char>>), prefix: Seq<char>) -> Option<
    (Seq<char>, Option<Seq<char>>),
> {
    if pq.0 == prefix {
        Some(("/"@, pq.1))
    } else {
        None
    }
}

/// The target that a route with a prefix ending in `/` hands on: the rest of
/// the path after the prefix, made to start with `/`, with the query kept.
pub open spec fn spec_strip_prefix_relative(
    pq: (Seq<char>, Option<Seq<char>>),
    prefix: Seq<char>,
) -> Option<(Seq<char>, Option<Seq<char>>)> {
    if prefix.len() <= pq.0.len() && pq.0.subrange(0, prefix.len() as int) == prefix {
        let after = pq.0.subrange(prefix.len() as int, pq.0.len() as int);
        if after.len() > 0 && after[0] == '/' {
            Some((after, pq.1))
        } else {
            Some(("/"@ + after, pq.1))
        }
    } else {
        None
    }
}

/// The target handed on to a route, `None` where the route does not match.
pub open spec fn spec_strip_prefix(pq: Option<(Seq<char>, Option<Seq<char>>)>, prefix: Seq<char>) -> Option<
    (Seq<char>, Option<Seq<char>>),
> {
    match pq {
        None => None,
        Some(pq) => if prefix.len() > 0 && prefix.last() == '/' {
            spec_strip_prefix_relative(pq, prefix)
        } else {
            spec_strip_prefix_exact(pq, prefix)
        },
    }
}

fn clone_query(q: &Option<String>) -> (r: Option<String>)
    ensures
        opt_view(r) == opt_view(*q),
{
    match q {
        Some(s) => Some(s.clone()),
        None => None,
    }
}

/// Matches a path against a route prefix that does not end in `/`.
pub fn strip_prefix_exact(pq: &PathAndQuery, prefix: &str) -> (r: Option<PathAndQuery>)
    ensures
        match r {
            Some(p) => spec_strip_prefix_exact(pq_view(pq), prefix@) == Some(pq_view(&p)),
            None => spec_strip_prefix_exact(pq_view(pq), prefix@) is None,
        },
{
    if str_equals(pq.path.as_str(), prefix) {
        return Some(PathAndQuery { path: String::from_str("/"), query: clone_query(&pq.query) });
    }
    None
}

/// Matches a path against a route prefix that ends in `/`.
pub fn strip_prefix_relative(pq: &PathAndQuery, prefix: &str) -> (r: Option<PathAndQuery>)
    ensures
        match r {
            Some(p) => spec_strip_prefix_relative(pq_view(pq), prefix@) == Some(pq_view(&p)),
            None => spec_strip_prefix_relative(pq_view(pq), prefix@) is None,
        },
{
    let path = pq.path.as_str();
    if !str_starts_with(path, prefix) {
        return None;
    }
    let n = path.unicode_len();
    let m = prefix.unicode_len();
    let after = path.substring_char(m, n);
    let start_slash = after.unicode_len() > 0 && after.get_char(0) == '/';
    let new_path = if start_slash {
        String::from_str(after)
    } else {
        let mut p = String::from_str("/");
        p.append(after);
        p
    };
    Some(PathAndQuery { path: new_path, query: clone_query(&pq.query) })
}

/// The target that a route hands on to its server, `None` where the route
/// does not match the request target (or there is none).
pub fn strip_prefix(pq: Option<&PathAndQuery>, prefix: &str) -> (r: Option<PathAndQuery>)
    ensures
        match r {
            Some(p) => spec_strip_prefix(
                match pq {
                    Some(x) => Some(pq_view(x)),
                    None => None,
                },
                prefix@,
            ) == Some(pq_view(&p)),
            None => spec_strip_prefix(
                match pq {
                    Some(x) => Some(pq_view(x)),
                    None => None,
                },
                prefix@,
            ) is None,
        },
{
    let pq = match pq {
        None => {
            return None;
        },
        Some(pq) => pq,
    };
    if str_ends_with(prefix, "/") {
        proof {
            reveal_strlit("/");
            if prefix@.len() > 0 {
                assert(prefix@.subrange(prefix@.len() - 1, prefix@.len() as int)[0] == prefix@.last());
            }
        }
        strip_prefix_relative(pq, prefix)
    } else {
        proof {
            reveal_strlit("/");
            if prefix@.len() > 0 && prefix@.last() == '/' {
                assert(prefix@.subrange(prefix@.len() - 1, prefix@.len() as int) =~= "/"@);
            }
        }
        strip_prefix_exact(pq, prefix)
    }
}

/// The first route, in order, that matches a target, with the target it
/// hands on.
pub open spec fn spec_route(
    routes: Seq<Seq<char>>,
    pq: Option<(Seq<char>, Option<Seq<char>>)>,
    from: int,
) -> Option<(int, (Seq<char>, Option<Seq<char>>))>
    decreases routes.len() - from,
{
    if from >= routes.len() || from < 0 {
        None
    } else {
        match spec_strip_prefix(pq, routes[from]) {
            Some(t) => Some((from, t)),
            None => spec_route(routes, pq, from + 1),
        }
    }
}

/// The texts of a list of strings.
pub open spec fn strings_view(v: Seq<String>) -> Seq<Seq<char>> {
    v.map_values(|s: String| s@)
}

/// The routes of a router, in the order in which they are tried.
pub struct RouterService {
    pub routes: Vec<String>,
}

impl RouterService {
    /// Finds the route of a request: the index of the first route whose
    /// prefix matches, and the target handed on to its server. `None`
    /// means that no route matches (answered with 404).
    pub fn route(&self, pq: Option<&PathAndQuery>) -> (r: Option<(usize, PathAndQuery)>)
        ensures
            match r {
                Some((i, p)) => spec_route(
                    strings_view(self.routes@),
                    match pq {
                        Some(x) => Some(pq_view(x)),
                        None => None,
                    },
                    0,
                ) == Some((i as int, pq_view(&p))),
                None => spec_route(
                    strings_view(self.routes@),
                    match pq {
                        Some(x) => Some(pq_view(x)),
                        None => None,
                    },
                    0,
                ) is None,
            },
    {
        let ghost routes = strings_view(self.routes@);
        let ghost target = match pq {
            Some(x) => Some(pq_view(x)),
            None => None,
        };
        let mut i: usize = 0;
        while i < self.routes.len()
            invariant
                i <= self.routes@.len(),
                routes == strings_view(self.routes@),
                routes.len() == self.routes@.len(),
                target == (match pq {
                    Some(x) => Some(pq_view(x)),
                    None => None,
                }),
                spec_route(routes, target, 0) == spec_route(routes, target, i as int),
            decreases self.routes.len() - i,
        {
            let route = self.routes[i].as_str();
            match strip_prefix(pq, route) {
                Some(p) => {
                    return Some((i, p));
                },
                None => {},
            }
            i = i + 1;
        }
        None
    }
}

/// A route whose prefix ends in `/` matches every path that starts with the
/// prefix, and only those. It hands on the rest of the path, starting with
/// `/` (a `/` is put in front where the rest has none, so a path equal to the
/// prefix is handed on as `/`), and the query unchanged.
pub proof fn lemma_prefix_route_hands_on_rest(
    prefix: Seq<char>,
    path: Seq<char>,
    rest: Seq<char>,
    query: Option<Seq<char>>,
)
    requires
        prefix.len() > 0,
        prefix.last() == '/',
    ensures
        path == prefix + rest ==> {
            &&& rest.len() == 0 ==> spec_strip_prefix(Some((path, query)), prefix) == Some(
                (seq!['/'], query),
            )
            &&& (rest.len() > 0 && rest[0] == '/') ==> spec_strip_prefix(Some((path, query)), prefix)
                == Some((rest, query))
            &&& (rest.len() > 0 && rest[0] != '/') ==> spec_strip_prefix(Some((path, query)), prefix)
                == Some((seq!['/'] + rest, query))
        },
        !prefix.is_prefix_of(path) ==> spec_strip_prefix(Some((path, query)), prefix) is None,
{
    reveal_strlit("/");
    if path == prefix + rest {
        assert(path.subrange(0, prefix.len() as int) =~= prefix);
        assert(path.subrange(prefix.len() as int, path.len() as int) =~= rest);
        assert("/"@ + rest =~= seq!['/'] + rest);
    }
    if !prefix.is_prefix_of(path) {
        if prefix.len() <= path.len() && path.subrange(0, prefix.len() as int) == prefix {
            assert(prefix =~= path.subrange(0, prefix.len() as int));
        }
    }
}

/// A route whose prefix does not end in `/` matches only the path that is
/// the prefix itself, and hands on `/` with the query unchanged.
pub proof fn lemma_exact_route_matches_only_itself(
    prefix: Seq<char>,
    path: Seq<char>,
    query: Option<Seq<char>>,
)
    requires
        prefix.len() == 0 || prefix.last() != '/',
    ensures
        path == prefix ==> spec_strip_prefix(Some((path, query)), prefix) == Some((seq!['/'], query)),
        path != prefix ==> spec_strip_prefix(Some((path, query)), prefix) is None,
{
    reveal_strlit("/");
    assert("/"@ =~= seq!['/']);
}

/// A request with no target matches no route.
pub proof fn lemma_no_target_no_route(routes: Seq<Seq<char>>)
    ensures
        spec_route(routes, None, 0) is None,
{
    lemma_route_first_match(routes, None, 0);
}

/// The route of a target is the first route, counted from `from`, that
/// matches it: route `i` is chosen, handing on `t`, exactly when route `i`
/// matches and hands on `t` and no route between `from` and `i` matches;
/// no route is chosen exactly when none matches.
pub proof fn lemma_route_first_match(
    routes: Seq<Seq<char>>,
    pq: Option<(Seq<char>, Option<Seq<char>>)>,
    from: int,
)
    requires
        0 <= from,
    ensures
        forall|i: int, t: (Seq<char>, Option<Seq<char>>)|
            spec_route(routes, pq, from) == Some((i, t)) <==> (from <= i < routes.len()
                && spec_strip_prefix(pq, routes[i]) == Some(t) && forall|j: int|
                from <= j < i ==> #[trigger] spec_strip_prefix(pq, routes[j]) is None),
        spec_route(routes, pq, from) is None <==> forall|j: int|
            from <= j < routes.len() ==> #[trigger] spec_strip_prefix(pq, routes[j]) is None,
    decreases routes.len() - from,
{
    if from < routes.len() {
        lemma_route_first_match(routes, pq, from + 1);
        assert forall|i: int, t: (Seq<char>, Option<Seq<char>>)|
            spec_route(routes, pq, from) == Some((i, t)) <==> (from <= i < routes.len()
                && spec_strip_prefix(pq, routes[i]) == Some(t) && forall|j: int|
                from <= j < i ==> #[trigger] spec_strip_prefix(pq, routes[j]) is None) by {
            if spec_strip_prefix(pq, routes[from]) is None {
                if from <= i < routes.len() && spec_strip_prefix(pq, routes[i]) == Some(t) && (forall|j: int|
                    from <= j < i ==> #[trigger] spec_strip_prefix(pq, routes[j]) is None) {
                    assert(i != from);
                    assert forall|j: int| from + 1 <= j < i implies #[trigger] spec_strip_prefix(
                        pq,
                        routes[j],
                    ) is None by {}
                }
                if spec_route(routes, pq, from) == Some((i, t)) {
                    assert(spec_route(routes, pq, from + 1) == Some((i, t)));
                    assert(from + 1 <= i);
                    assert forall|j: int| from <= j < i implies #[trigger] spec_strip_prefix(
                        pq,
                        routes[j],
                    ) is None by {
                        if j > from {
                            assert(from + 1 <= j < i);
                        }
                    }
                }
            } else {
                if from <= i < routes.len() && spec_strip_prefix(pq, routes[i]) == Some(t) && (forall|j: int|
                    from <= j < i ==> #[trigger] spec_strip_prefix(pq, routes[j]) is None) {
                    if i > from {
                        assert(spec_strip_prefix(pq, routes[from]) is None);
                    }
                }
            }
        }
        if spec_strip_prefix(pq, routes[from]) is None {
            assert((forall|j: int| from <= j < routes.len() ==> #[trigger] spec_strip_prefix(pq, routes[j]) is None)
                <==> (forall|j: int| from + 1 <= j < routes.len() ==> #[trigger] spec_strip_prefix(pq, routes[j]) is None)) by {
                if forall|j: int| from + 1 <= j < routes.len() ==> #[trigger] spec_strip_prefix(pq, routes[j]) is None {
                    assert forall|j: int| from <= j < routes.len() implies #[trigger] spec_strip_prefix(pq, routes[j]) is None by {
                        if j > from {
                            assert(from + 1 <= j);
                        }
                    }
                }
            }
        }
    }
}

/// The working directory of a route that names none.
pub fn default_workdir() -> (w: String)
    ensures
        w@ == "."@,
{
    String::from_str(".")
}

/// The server settings of one route.
pub struct ReducedServerConfig {
    pub strategy: Option<Strategy>,
    pub workdir: String,
    pub app_dir: Option<String>,
    /// At least 1.
    pub workers: usize,
    pub server_type: WorkerType,
    pub qmd: Option<String>,
}

/// One route of a router: a path prefix and the server behind it.
pub struct RouteConfig {
    pub route: String,
    pub config: ReducedServerConfig,
}

/// The routes of a router, in the order in which they are tried.
pub struct RouterConfig {
    pub route: Vec<RouteConfig>,
}

impl ReducedServerConfig {
    /// The settings of a route with the working directory defaulting to `.`.
    pub fn new(
        strategy: Option<Strategy>,
        workdir: Option<String>,
        app_dir: Option<String>,
        workers: usize,
        server_type: WorkerType,
        qmd: Option<String>,
    ) -> (c: Self)
        ensures
            c.strategy == strategy,
            c.workdir@ == (match workdir {
                Some(w) => w@,
                None => "."@,
            }),
            c.app_dir == app_dir,
            c.workers == workers,
            c.server_type == server_type,
            c.qmd == qmd,
    {
        let workdir = match workdir {
            Some(w) => w,
            None => default_workdir(),
        };
        ReducedServerConfig { strategy, workdir, app_dir, workers, server_type, qmd }
    }
}

/// Whether a list of route names has a name twice.
pub open spec fn has_duplicate(routes: Seq<Seq<char>>) -> bool {
    exists|i: int, j: int| 0 <= i < j < routes.len() && routes[i] == routes[j]
}

/// The route names of a router configuration.
pub open spec fn route_names(routes: Seq<RouteConfig>) -> Seq<Seq<char>> {
    routes.map_values(|r: RouteConfig| r.route@)
}

proof fn lemma_no_duplicate_push(s: Seq<Seq<char>>, x: Seq<char>)
    requires
        !has_duplicate(s),
        !s.contains(x),
    ensures
        !has_duplicate(s.push(x)),
{
    let t = s.push(x);
    if has_duplicate(t) {
        let (i, j) = choose|i: int, j: int| 0 <= i < j < t.len() && t[i] == t[j];
        if j == s.len() {
            assert(s[i] == x);
        } else {
            assert(s[i] == s[j]);
        }
    }
}

fn contains_route(seen: &Vec<String>, name: &str) -> (r: bool)
    ensures
        r == strings_view(seen@).contains(name@),
{
    let mut i: usize = 0;
    while i < seen.len()
        invariant
            i <= seen@.len(),
            forall|j: int| 0 <= j < i ==> seen@[j]@ != name@,
        decreases seen.len() - i,
    {
        if str_equals(seen[i].as_str(), name) {
            assert(strings_view(seen@)[i as int] == name@);
            return true;
        }
        i = i + 1;
    }
    assert forall|j: int| 0 <= j < strings_view(seen@).len() implies strings_view(seen@)[j] != name@ by {
        assert(strings_view(seen@)[j] == seen@[j]@);
    }
    false
}

impl RouterConfig {
    /// The settings of the server behind every route, in order, with the
    /// address source and the commands shared by all. A route name given
    /// twice is refused, naming the first name that repeats.
    pub fn into_configs(self, rscript: &str, quarto: &str, ip_from: IpExtractor) -> (r: FaucetResult<
        (Vec<String>, Vec<FaucetServerConfig<()>>),
    >)
        requires
            forall|i: int| 0 <= i < self.route@.len() ==> #[trigger] self.route@[i].config.workers > 0,
        ensures
            match r {
                Ok((names, configs)) => {
                    &&& !has_duplicate(route_names(self.route@))
                    &&& strings_view(names@) == route_names(self.route@)
                    &&& configs@.len() == self.route@.len()
                    &&& forall|i: int|
                        0 <= i < configs@.len() ==> {
                            let c = #[trigger] configs@[i];
                            let rc = self.route@[i];
                            &&& c.server_type == rc.config.server_type
                            &&& c.strategy == super::spec_determine_strategy(
                                rc.config.server_type,
                                rc.config.strategy,
                            )
                            &&& c.n_workers == rc.config.workers
                            &&& c.workdir@ == rc.config.workdir@
                            &&& c.rscript@ == rscript@
                            &&& c.quarto@ == quarto@
                            &&& c.extractor == ip_from
                            &&& opt_view(c.app_dir) == opt_view(rc.config.app_dir)
                            &&& opt_view(c.qmd) == opt_view(rc.config.qmd)
                            &&& c.bind is None
                            &&& c.route is None
                        }
                },
                Err(e) => e matches FaucetError::DuplicateRoute(name) && exists|i: int|
                    0 <= i < self.route@.len() && #[trigger] route_names(self.route@)[i] == name@
                        && route_names(self.route@).subrange(0, i).contains(name@)
                        && !has_duplicate(route_names(self.route@).subrange(0, i)),
            },
    {
        let ghost all = self.route@;
        let mut routes = self.route;
        let n = routes.len();
        let mut names: Vec<String> = Vec::new();
        let mut configs: Vec<FaucetServerConfig<()>> = Vec::new();
        let mut rest: Vec<RouteConfig> = Vec::new();
        // Walk the routes in order: move them out back to front first.
        let mut k: usize = n;
        while k > 0
            invariant
                k <= n,
                routes@.len() == k,
                rest@.len() == n - k,
                routes@ == all.subrange(0, k as int),
                forall|j: int| 0 <= j < n - k ==> #[trigger] rest@[j] == all[n - 1 - j],
                n == all.len(),
            decreases k,
        {
            let r = routes.pop().unwrap();
            rest.push(r);
            k = k - 1;
            assert(routes@ =~= all.subrange(0, k as int));
        }
        let mut i: usize = 0;
        while i < n
            invariant
                i <= n,
                n == all.len(),
                all == self.route@,
                rest@.len() == n - i,
                forall|j: int| 0 <= j < n - i ==> #[trigger] rest@[j] == all[n - 1 - j],
                forall|j: int| 0 <= j < all.len() ==> #[trigger] all[j].config.workers > 0,
                strings_view(names@) == route_names(all).subrange(0, i as int),
                !has_duplicate(route_names(all).subrange(0, i as int)),
                configs@.len() == i,
                forall|j: int|
                    0 <= j < i ==> {
                        let c = #[trigger] configs@[j];
                        let rc = all[j];
                        &&& c.server_type == rc.config.server_type
                        &&& c.strategy == super::spec_determine_strategy(
                            rc.config.server_type,
                            rc.config.strategy,
                        )
                        &&& c.n_workers == rc.config.workers
                        &&& c.workdir@ == rc.config.workdir@
                        &&& c.rscript@ == rscript@
                        &&& c.quarto@ == quarto@
                        &&& c.extractor == ip_from
                        &&& opt_view(c.app_dir) == opt_view(rc.config.app_dir)
                        &&& opt_view(c.qmd) == opt_view(rc.config.qmd)
                        &&& c.bind is None
                        &&& c.route is None
                    },
            decreases n - i,
        {
            let rc = rest.pop().unwrap();
            assert(rc == all[i as int]);
            let ghost names_before = route_names(all).subrange(0, i as int);
            if contains_route(&names, rc.route.as_str()) {
                proof {
                    let j = choose|j: int| 0 <= j < strings_view(names@).len() && strings_view(names@)[j] == rc.route@;
                    assert(strings_view(names@)[j] == route_names(all)[j]);
                    assert(route_names(all)[i as int] == rc.route@);
                    assert(route_names(all)[j] == route_names(all)[i as int]);
                    assert(0 <= j < i < route_names(all).len());
                    assert(route_names(all).subrange(0, i as int)[j] == rc.route@);
                    assert(route_names(all).subrange(0, i as int).contains(rc.route@));
                }
                return Err(FaucetError::DuplicateRoute(rc.route));
            }
            proof {
                assert(route_names(all).subrange(0, i + 1) =~= names_before.push(rc.route@));
                assert(strings_view(names@) == names_before);
                lemma_no_duplicate_push(names_before, rc.route@);
            }
            let ReducedServerConfig { strategy, workdir, app_dir, workers, server_type, qmd } =
                rc.config;
            let config = FaucetServerBuilder::<()>::new().workdir(workdir).server_type(
                server_type,
            ).strategy(strategy).rscript(String::from_str(rscript)).quarto(
                String::from_str(quarto),
            ).qmd(qmd).workers(workers).extractor(ip_from).app_dir(app_dir).build();
            let config = match config {
                Ok(c) => c,
                Err(_) => {
                    assert(false);
                    return Err(FaucetError::MissingArgument("server_type"));
                },
            };
            names.push(rc.route);
            configs.push(config);
            i = i + 1;
        }
        assert(route_names(all).subrange(0, n as int) =~= route_names(all));
        Ok((names, configs))
    }
}

} // verus!
