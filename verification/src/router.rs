//! The dispatch table: which handler answers a request path.
//!
//! Three kinds of handler exist. Paths below the reserved prefix go to the
//! server-function endpoint, whatever routes are registered. Of the
//! remaining paths, one that a registered route accepts is rendered by the
//! first such route. Every other path falls back to static assets.
//!
//! A handler answers only the request methods it admits: the
//! server-function endpoint admits `POST` alone, a route the methods it was
//! registered with, the fallback every method.

use vstd::prelude::*;
use vstd::string::StrSliceExecFns;
use crate::config::ServerOptions;
use crate::pattern::{accepts, route_accepts};

verus! {

/// The method of a request.
#[derive(Clone, Copy, Debug, PartialEq, Eq, Structural)]
pub enum Method {
    Get,
    Post,
    Put,
    Delete,
    Patch,
    /// Any method that no route can be registered with.
    Other,
}

/// A route of the application: the paths it accepts and the methods it admits.
#[derive(Clone, Debug, PartialEq, Eq)]
pub struct Route {
    /// The pattern of the paths it accepts.
    pub pattern: String,
    /// The methods the route was registered with.
    pub methods: Vec<Method>,
}

/// Who answers a request.
#[derive(Clone, Copy, Debug, PartialEq, Eq, Structural)]
pub enum Handler {
    /// The endpoint that runs server functions.
    ServerFunction,
    /// The renderer, for the registered route with this index.
    Render(usize),
    /// The handler of everything else.
    Fallback,
}

/// What becomes of a request.
#[derive(Clone, Copy, Debug, PartialEq, Eq, Structural)]
pub enum Decision {
    /// It is handed to this handler.
    Serve(Handler),
    /// Its path has a handler, which does not admit its method.
    MethodNotAllowed,
}

/// What the fallback handler answers with.
#[derive(Clone, Copy, Debug, PartialEq, Eq, Structural)]
pub enum FallbackResponse {
    /// The file found at the requested path.
    StaticAsset,
    /// The error page.
    ErrorPage,
}

/// The dispatch table of a site.
#[derive(Clone, Debug, PartialEq, Eq)]
pub struct Router {
    /// The configuration every handler is given.
    pub options: ServerOptions,
    /// The application's routes, in the order they were found.
    pub routes: Vec<Route>,
}

/// The prefix reserved for server functions: `/api/`.
pub open spec fn server_fn_prefix() -> Seq<char> {
    seq!['/', 'a', 'p', 'i', '/']
}

/// Whether `path` names a server function: the reserved prefix and at least
/// one character behind it.
pub open spec fn names_server_fn(path: Seq<char>) -> bool {
    path.len() > server_fn_prefix().len() && path.subrange(0, server_fn_prefix().len() as int)
        == server_fn_prefix()
}

/// The name of the server function that `path` names: what stands behind
/// the reserved prefix.
pub open spec fn name_behind_prefix(path: Seq<char>) -> Seq<char> {
    path.subrange(server_fn_prefix().len() as int, path.len() as int)
}

/// The patterns of `routes` as texts.
pub open spec fn pattern_views(routes: Seq<Route>) -> Seq<Seq<char>> {
    Seq::new(routes.len(), |i: int| routes[i].pattern@)
}

/// The index of the first `true` among `answers` at or behind `from`.
pub open spec fn first_true(answers: Seq<bool>, from: int) -> Option<int>
    decreases answers.len() - from,
{
    if from < 0 || from >= answers.len() {
        None
    } else if answers[from] {
        Some(from)
    } else {
        first_true(answers, from + 1)
    }
}

/// The handler for a path, given whether it is reserved and, route by
/// route, whether the route accepts it.
pub open spec fn chosen(reserved: bool, answers: Seq<bool>) -> Handler {
    if reserved {
        Handler::ServerFunction
    } else {
        match first_true(answers, 0) {
            Some(i) => Handler::Render(i as usize),
            None => Handler::Fallback,
        }
    }
}

/// Route by route, whether the route accepts `path`.
pub open spec fn answers(routes: Seq<Seq<char>>, path: Seq<char>) -> Seq<bool> {
    Seq::new(routes.len(), |i: int| accepts(routes[i], path))
}

/// The handler that answers `path` when `routes` are registered.
pub open spec fn target(routes: Seq<Seq<char>>, path: Seq<char>) -> Handler {
    chosen(names_server_fn(path), answers(routes, path))
}

/// Whether `handler` admits requests of `method`.
pub open spec fn admits(routes: Seq<Route>, handler: Handler, method: Method) -> bool {
    match handler {
        Handler::ServerFunction => method == Method::Post,
        Handler::Render(i) => i < routes.len() && routes[i as int].methods@.contains(method),
        Handler::Fallback => true,
    }
}

/// What becomes of a request of `method` for `path` when `routes` are registered.
pub open spec fn decision(routes: Seq<Route>, method: Method, path: Seq<char>) -> Decision {
    let handler = target(pattern_views(routes), path);
    if admits(routes, handler, method) {
        Decision::Serve(handler)
    } else {
        Decision::MethodNotAllowed
    }
}

/// What the fallback answers with, given whether a file exists at the path.
pub open spec fn fallback_answer(asset_present: bool) -> FallbackResponse {
    if asset_present {
        FallbackResponse::StaticAsset
    } else {
        FallbackResponse::ErrorPage
    }
}

/// Decides whether `path` names a server function.
pub fn is_server_fn_path(path: &str) -> (r: bool)
    ensures
        r == names_server_fn(path@),
{
    if path.unicode_len() <= 5 {
        return false;
    }
    let r: bool = path.get_char(0) == '/' && path.get_char(1) == 'a' && path.get_char(2) == 'p'
        && path.get_char(3) == 'i' && path.get_char(4) == '/';
    proof {
        let head = path@.subrange(0, 5);
        if r {
            assert(head =~= server_fn_prefix());
        } else {
            assert(head[0] == path@[0] && head[1] == path@[1] && head[2] == path@[2] && head[3]
                == path@[3] && head[4] == path@[4]);
        }
    }
    r
}

/// The name of the server function that `path` names, if it names one.
pub fn server_fn_name<'a>(path: &'a str) -> (name: Option<&'a str>)
    ensures
        match name {
            Some(text) => names_server_fn(path@) && text@ == name_behind_prefix(path@),
            None => !names_server_fn(path@),
        },
{
    if is_server_fn_path(path) {
        let end: usize = path.unicode_len();
        Some(path.substring_char(5, end))
    } else {
        None
    }
}

/// Chooses the handler for a path, given whether it is reserved and, route
/// by route, whether the route accepts it: the server-function endpoint
/// for a reserved path, else the first route that accepts, else the fallback.
pub fn choose_handler(reserved: bool, answers: &[bool]) -> (handler: Handler)
    ensures
        handler == chosen(reserved, answers@),
{
    if reserved {
        return Handler::ServerFunction;
    }
    let mut i: usize = 0;
    while i < answers.len()
        invariant
            i <= answers.len(),
            !reserved,
            first_true(answers@, i as int) == first_true(answers@, 0),
        decreases answers.len() - i,
    {
        if answers[i] {
            return Handler::Render(i);
        }
        i += 1;
    }
    Handler::Fallback
}

/// Builds the dispatch table for `routes`, every handler of which is given `options`.
pub fn build_router(options: ServerOptions, routes: Vec<Route>) -> (router: Router)
    ensures
        router == (Router { options, routes }),
{
    Router { options, routes }
}

/// Decides what the fallback handler answers with.
pub fn fallback_response(asset_present: bool) -> (r: FallbackResponse)
    ensures
        r == fallback_answer(asset_present),
{
    if asset_present {
        FallbackResponse::StaticAsset
    } else {
        FallbackResponse::ErrorPage
    }
}

impl Router {
    /// The registered patterns as texts.
    pub open spec fn patterns(self) -> Seq<Seq<char>> {
        pattern_views(self.routes@)
    }

    /// The configuration every handler is given.
    pub fn options(&self) -> (options: &ServerOptions)
        ensures
            *options == self.options,
    {
        &self.options
    }

    /// The number of registered routes.
    pub fn route_count(&self) -> (n: usize)
        ensures
            n == self.patterns().len(),
    {
        self.routes.len()
    }

    /// Finds the handler that answers `path`.
    pub fn dispatch(&self, path: &str) -> (handler: Handler)
        ensures
            handler == target(self.patterns(), path@),
    {
        if is_server_fn_path(path) {
            return Handler::ServerFunction;
        }
        let mut accepted: Vec<bool> = Vec::new();
        let mut i: usize = 0;
        while i < self.routes.len()
            invariant
                i <= self.routes.len(),
                accepted@.len() == i,
                forall|k: int|
                    0 <= k < i ==> accepted@[k] == accepts(self.routes@[k].pattern@, path@),
            decreases self.routes.len() - i,
        {
            accepted.push(route_accepts(self.routes[i].pattern.as_str(), path));
            i += 1;
        }
        assert(accepted@ =~= answers(self.patterns(), path@));
        choose_handler(false, accepted.as_slice())
    }

    /// Decides whether `handler` admits requests of `method`.
    pub fn handler_admits(&self, handler: Handler, method: Method) -> (r: bool)
        ensures
            r == admits(self.routes@, handler, method),
    {
        match handler {
            Handler::ServerFunction => method == Method::Post,
            Handler::Render(i) => {
                if i >= self.routes.len() {
                    return false;
                }
                let methods: &Vec<Method> = &self.routes[i].methods;
                let mut k: usize = 0;
                while k < methods.len()
                    invariant
                        k <= methods.len(),
                        i < self.routes.len(),
                        handler == Handler::Render(i),
                        methods@ == self.routes@[i as int].methods@,
                        forall|m: int| 0 <= m < k ==> methods@[m] != method,
                    decreases methods.len() - k,
                {
                    if methods[k] == method {
                        return true;
                    }
                    k += 1;
                }
                false
            },
            Handler::Fallback => true,
        }
    }

    /// Decides what becomes of a request of `method` for `path`.
    pub fn respond(&self, method: Method, path: &str) -> (r: Decision)
        ensures
            r == decision(self.routes@, method, path@),
    {
        let handler: Handler = self.dispatch(path);
        if self.handler_admits(handler, method) {
            Decision::Serve(handler)
        } else {
            Decision::MethodNotAllowed
        }
    }
}

/// A path below the reserved prefix is answered by the server-function
/// endpoint, whatever routes are registered.
pub proof fn server_functions_come_first(routes: Seq<Seq<char>>, path: Seq<char>)
    requires
        names_server_fn(path),
    ensures
        target(routes, path) == Handler::ServerFunction,
{
}

/// What `first_true` finds is the least index at or behind `from` that
/// holds `true`; it finds nothing only where none does.
pub proof fn first_true_is_least(answers: Seq<bool>, from: int)
    requires
        0 <= from,
    ensures
        match first_true(answers, from) {
            Some(i) => {
                &&& from <= i < answers.len()
                &&& answers[i]
                &&& forall|k: int| from <= k < i ==> !answers[k]
            },
            None => forall|k: int| from <= k < answers.len() ==> !answers[k],
        },
    decreases answers.len() - from,
{
    if from < answers.len() && !answers[from] {
        first_true_is_least(answers, from + 1);
    }
}

/// A path outside the reserved prefix that some registered route accepts is
/// rendered, by the first route that accepts it, and never falls back.
pub proof fn accepted_paths_are_rendered(routes: Seq<Seq<char>>, path: Seq<char>, i: int)
    requires
        !names_server_fn(path),
        0 <= i < routes.len(),
        accepts(routes[i], path),
    ensures
        target(routes, path) != Handler::Fallback,
        exists|k: int|
            0 <= k <= i && target(routes, path) == Handler::Render(k as usize) && accepts(
                #[trigger] routes[k],
                path,
            ),
        (forall|k: int| 0 <= k < i ==> !accepts(#[trigger] routes[k], path)) ==> target(
            routes,
            path,
        ) == Handler::Render(i as usize),
{
    let given = answers(routes, path);
    first_true_is_least(given, 0);
    assert(given[i]);
    let k = first_true(given, 0).unwrap();
    assert(given[k] == accepts(routes[k], path));
    if forall|k: int| 0 <= k < i ==> !accepts(#[trigger] routes[k], path) {
        if k < i {
            assert(!accepts(routes[k], path));
        }
    }
}

/// A path outside the reserved prefix that no registered route accepts
/// falls back, and only such a path does.
pub proof fn unmatched_paths_fall_back(routes: Seq<Seq<char>>, path: Seq<char>)
    ensures
        target(routes, path) == Handler::Fallback <==> (!names_server_fn(path) && forall|k: int|
            0 <= k < routes.len() ==> !accepts(#[trigger] routes[k], path)),
{
    let given = answers(routes, path);
    first_true_is_least(given, 0);
    if first_true(given, 0) is Some {
        let k = first_true(given, 0).unwrap();
        assert(given[k] == accepts(routes[k], path));
    } else {
        assert forall|k: int| 0 <= k < routes.len() implies !accepts(
            #[trigger] routes[k],
            path,
        ) by {
            assert(given[k] == accepts(routes[k], path));
        }
    }
}

/// A request below the reserved prefix is served if and only if it is a
/// `POST`, and then by the server-function endpoint; no request is refused
/// for its method where its path falls back.
pub proof fn methods_are_checked_last(routes: Seq<Route>, method: Method, path: Seq<char>)
    ensures
        names_server_fn(path) ==> (decision(routes, method, path) == Decision::Serve(
            Handler::ServerFunction,
        ) <==> method == Method::Post),
        target(pattern_views(routes), path) == Handler::Fallback ==> decision(routes, method, path)
            == Decision::Serve(Handler::Fallback),
        decision(routes, method, path) == Decision::MethodNotAllowed || decision(
            routes,
            method,
            path,
        ) == Decision::Serve(target(pattern_views(routes), path)),
{
}

/// The fallback answers with the file where one exists at the path, and
/// with the error page where none does.
pub proof fn fallback_prefers_assets(asset_present: bool)
    ensures
        fallback_answer(asset_present) == FallbackResponse::StaticAsset <==> asset_present,
        fallback_answer(asset_present) == FallbackResponse::ErrorPage <==> !asset_present,
{
}

} // verus!
