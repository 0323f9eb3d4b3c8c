use site_bootstrap::config::{Environment, Host, ServerOptions, SiteAddr};
use site_bootstrap::router::{
    build_router, choose_handler, fallback_response, is_server_fn_path, server_fn_name, Decision,
    FallbackResponse, Handler, Method, Route, Router,
};

fn options() -> ServerOptions {
    ServerOptions {
        site_addr: SiteAddr { host: Host::V4([127, 0, 0, 1]), port: 3000 },
        output_name: String::from("site"),
        site_root: String::from("target/site"),
        site_pkg_dir: String::from("pkg"),
        environment: Environment::Development,
        reload_port: 3001,
    }
}

fn route(pattern: &str, methods: Vec<Method>) -> Route {
    Route { pattern: String::from(pattern), methods }
}

fn site(patterns: &[&str]) -> Router {
    let routes: Vec<Route> = patterns.iter().map(|p| route(p, vec![Method::Get])).collect();
    build_router(options(), routes)
}

#[test]
fn build_router_keeps_options_and_routes() {
    let routes = vec![route("/", vec![Method::Get]), route("/form", vec![Method::Get, Method::Post])];
    let router = build_router(options(), routes.clone());
    assert_eq!(router.options(), &options());
    assert_eq!(router.options().site_addr(), SiteAddr { host: Host::V4([127, 0, 0, 1]), port: 3000 });
    assert_eq!(router.routes, routes);
    assert_eq!(router.route_count(), 2);
}

#[test]
fn api_paths_go_to_the_server_function_endpoint() {
    let router = site(&["/"]);
    assert_eq!(router.dispatch("/api/anything"), Handler::ServerFunction);
    assert_eq!(router.dispatch("/api/a/b/c"), Handler::ServerFunction);
}

#[test]
fn api_paths_win_over_registered_routes() {
    let router = site(&["/api/anything", "/api/:name", "/*any"]);
    assert_eq!(router.dispatch("/api/anything"), Handler::ServerFunction);
    let empty = site(&[]);
    assert_eq!(empty.dispatch("/api/anything"), Handler::ServerFunction);
}

#[test]
fn the_bare_prefix_names_no_server_function() {
    assert!(is_server_fn_path("/api/x"));
    assert!(!is_server_fn_path("/api/"));
    assert!(!is_server_fn_path("/api"));
    assert!(!is_server_fn_path("/apix/y"));
    assert!(!is_server_fn_path("api/x"));
    assert!(!is_server_fn_path("/API/x"));
    assert!(!is_server_fn_path("/v1/api/x"));
    assert!(!is_server_fn_path(""));
    assert!(is_server_fn_path("/api/\u{e9}"));
    assert!(!is_server_fn_path("/\u{e9}pi/x"));
    let router = site(&["/api/"]);
    assert_eq!(router.dispatch("/api/"), Handler::Render(0));
    assert_eq!(router.dispatch("/api"), Handler::Fallback);
}

#[test]
fn the_name_of_a_server_function_stands_behind_the_prefix() {
    assert_eq!(server_fn_name("/api/add_item"), Some("add_item"));
    assert_eq!(server_fn_name("/api/a/b"), Some("a/b"));
    assert_eq!(server_fn_name("/api/\u{e9}t\u{e9}"), Some("\u{e9}t\u{e9}"));
    assert_eq!(server_fn_name("/api/"), None);
    assert_eq!(server_fn_name("/api"), None);
    assert_eq!(server_fn_name("/about"), None);
    assert_eq!(server_fn_name(""), None);
}

#[test]
fn a_path_of_a_registered_route_is_rendered() {
    let router = site(&["/", "/about", "/users/:id"]);
    assert_eq!(router.dispatch("/"), Handler::Render(0));
    assert_eq!(router.dispatch("/about"), Handler::Render(1));
    assert_eq!(router.dispatch("/users/42"), Handler::Render(2));
}

#[test]
fn the_first_accepting_route_wins() {
    let router = site(&["/users/:id", "/users/me", "/*any", "/users/:id"]);
    assert_eq!(router.dispatch("/users/me"), Handler::Render(0));
    assert_eq!(router.dispatch("/users/me/x"), Handler::Render(2));
    assert_eq!(router.dispatch("/other"), Handler::Render(2));
    let other = site(&["/users/me", "/users/:id"]);
    assert_eq!(other.dispatch("/users/me"), Handler::Render(0));
    assert_eq!(other.dispatch("/users/you"), Handler::Render(1));
}

#[test]
fn the_first_answer_chooses_the_route() {
    assert_eq!(choose_handler(false, &[false, true, true]), Handler::Render(1));
    assert_eq!(choose_handler(false, &[true, false]), Handler::Render(0));
    assert_eq!(choose_handler(false, &[false, false, false, true]), Handler::Render(3));
    assert_eq!(choose_handler(false, &[false, false]), Handler::Fallback);
    assert_eq!(choose_handler(false, &[]), Handler::Fallback);
    assert_eq!(choose_handler(true, &[true, true]), Handler::ServerFunction);
    assert_eq!(choose_handler(true, &[false]), Handler::ServerFunction);
    assert_eq!(choose_handler(true, &[]), Handler::ServerFunction);
}

#[test]
fn an_unmatched_path_falls_back() {
    let router = site(&["/", "/about"]);
    assert_eq!(router.dispatch("/favicon.ico"), Handler::Fallback);
    assert_eq!(router.dispatch("/about/"), Handler::Fallback);
    assert_eq!(site(&[]).dispatch("/"), Handler::Fallback);
}

#[test]
fn a_route_with_too_many_parameters_is_passed_over() {
    let long: String = "/:p".repeat(26);
    let path: String = "/x".repeat(26);
    let router = site(&[long.as_str(), "/*any"]);
    assert_eq!(router.dispatch(&path), Handler::Render(1));
    let alone = site(&[long.as_str()]);
    assert_eq!(alone.dispatch(&path), Handler::Fallback);
}

#[test]
fn the_reserved_prefix_agrees_with_its_pattern() {
    for path in ["/api/anything", "/api/a/b", "/api/", "/api", "/", "/apix/y", "/v1/api/x"] {
        assert_eq!(
            is_server_fn_path(path),
            site_bootstrap::pattern::route_accepts("/api/*fn_name", path)
        );
    }
}

#[test]
fn the_fallback_serves_the_asset_or_the_error_page() {
    assert_eq!(fallback_response(true), FallbackResponse::StaticAsset);
    assert_eq!(fallback_response(false), FallbackResponse::ErrorPage);
}

#[test]
fn server_functions_admit_post_alone() {
    let router = site(&["/"]);
    assert_eq!(router.respond(Method::Post, "/api/add"), Decision::Serve(Handler::ServerFunction));
    assert_eq!(router.respond(Method::Get, "/api/add"), Decision::MethodNotAllowed);
    assert_eq!(router.respond(Method::Put, "/api/add"), Decision::MethodNotAllowed);
    assert_eq!(router.respond(Method::Other, "/api/add"), Decision::MethodNotAllowed);
}

#[test]
fn a_route_admits_the_methods_it_was_registered_with() {
    let routes = vec![
        route("/", vec![Method::Get]),
        route("/form", vec![Method::Get, Method::Post]),
        route("/none", vec![]),
    ];
    let router = build_router(options(), routes);
    assert_eq!(router.respond(Method::Get, "/"), Decision::Serve(Handler::Render(0)));
    assert_eq!(router.respond(Method::Post, "/"), Decision::MethodNotAllowed);
    assert_eq!(router.respond(Method::Get, "/form"), Decision::Serve(Handler::Render(1)));
    assert_eq!(router.respond(Method::Post, "/form"), Decision::Serve(Handler::Render(1)));
    assert_eq!(router.respond(Method::Delete, "/form"), Decision::MethodNotAllowed);
    assert_eq!(router.respond(Method::Get, "/none"), Decision::MethodNotAllowed);
    assert!(router.handler_admits(Handler::Render(1), Method::Post));
    assert!(!router.handler_admits(Handler::Render(3), Method::Get));
}

#[test]
fn the_fallback_admits_every_method() {
    let router = site(&["/"]);
    assert_eq!(router.respond(Method::Get, "/style.css"), Decision::Serve(Handler::Fallback));
    assert_eq!(router.respond(Method::Post, "/style.css"), Decision::Serve(Handler::Fallback));
    assert_eq!(router.respond(Method::Other, "/style.css"), Decision::Serve(Handler::Fallback));
}
