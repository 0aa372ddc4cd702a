use static_text::config::Config;
use static_text::reply::Reply;
use static_text::router::{route, Method, Route};
use static_text::site::Site;

fn text(status: u16, body: &str) -> Reply {
    Reply::Text { status, body: body.to_string() }
}

#[test]
fn exact_paths_route() {
    let g = Method::Get;
    assert_eq!(route(g, "/favicon.ico"), Route::Favicon);
    assert_eq!(route(g, "/health"), Route::Health);
    assert_eq!(route(g, "/liveness"), Route::Liveness);
    assert_eq!(route(g, "/readiness"), Route::Readiness);
    assert_eq!(route(g, "/hostname"), Route::Hostname);
    assert_eq!(route(g, "/config"), Route::Config);
    assert_eq!(route(g, "/secret"), Route::Secret);
    assert_eq!(route(g, "/config_file"), Route::ConfigFile);
    assert_eq!(route(g, "/config_map_file"), Route::ConfigMapFile);
    assert_eq!(route(g, "/config_secret_file"), Route::ConfigSecretFile);
}

#[test]
fn chapter_paths_route() {
    let g = Method::Get;
    assert_eq!(route(g, "/enchiridion/1"), Route::Chapter(1));
    assert_eq!(route(g, "/enchiridion/42"), Route::Chapter(42));
    assert_eq!(route(g, "/enchiridion/0"), Route::Chapter(0));
    assert_eq!(route(g, "/enchiridion/007"), Route::Chapter(7));
    assert_eq!(route(g, "/enchiridion/+3"), Route::Chapter(3));
    assert_eq!(route(g, "/enchiridion/18446744073709551615"), Route::Chapter(usize::MAX));
}

#[test]
fn non_numeric_chapter_is_not_found() {
    let g = Method::Get;
    assert_eq!(route(g, "/enchiridion/abc"), Route::NotFound);
    assert_eq!(route(g, "/enchiridion/1a"), Route::NotFound);
    assert_eq!(route(g, "/enchiridion/-1"), Route::NotFound);
    assert_eq!(route(g, "/enchiridion/+"), Route::NotFound);
    assert_eq!(route(g, "/enchiridion/"), Route::NotFound);
    assert_eq!(route(g, "/enchiridion/3/"), Route::NotFound);
    assert_eq!(route(g, "/enchiridion/18446744073709551616"), Route::NotFound);
    assert_eq!(route(g, "/enchiridion/99999999999999999999999"), Route::NotFound);
}

#[test]
fn unmatched_paths() {
    assert_eq!(route(Method::Get, "/nowhere"), Route::NotFound);
    assert_eq!(route(Method::Get, "/health/"), Route::NotFound);
    assert_eq!(route(Method::Get, ""), Route::NotFound);
    assert_eq!(route(Method::Post, "/nowhere"), Route::MethodNotAllowed);
    assert_eq!(route(Method::Delete, "/health"), Route::MethodNotAllowed);
    assert_eq!(route(Method::Head, "/enchiridion/1"), Route::MethodNotAllowed);
    assert_eq!(route(Method::Other, ""), Route::MethodNotAllowed);
}

#[test]
fn site_serves_chapters() {
    let mut s = Site::new("A****B****C", Config::new("0.0.0.0:8080".to_string()));
    assert_eq!(s.handle(Method::Get, "/enchiridion/1"), text(200, "A"));
    assert_eq!(s.handle(Method::Get, "/enchiridion/2"), text(200, "B"));
    assert_eq!(s.handle(Method::Get, "/enchiridion/3"), text(200, "C"));
    assert_eq!(s.handle(Method::Get, "/enchiridion/4"), Reply::NotFoundPage);
    assert_eq!(s.handle(Method::Get, "/enchiridion/0"), Reply::NotFoundPage);
    assert_eq!(s.handle(Method::Get, "/enchiridion/x"), Reply::NotFoundPage);
}

#[test]
fn site_health_sequence() {
    let mut s = Site::new("", Config::new("0.0.0.0:8080".to_string()));
    assert_eq!(s.handle(Method::Get, "/liveness"), text(200, "Ok"));
    for i in 0..5 {
        assert_eq!(s.handle(Method::Get, "/health"), text(200, &format!("Ok - {}", i)));
        assert_eq!(s.handle(Method::Get, "/readiness"), text(200, "Ok"));
    }
    assert_eq!(s.handle(Method::Get, "/health"), text(500, "Definitely Not Ok"));
    assert_eq!(s.handle(Method::Post, "/health"), Reply::MethodNotAllowed);
    assert_eq!(s.health.calls(), 6);
    assert_eq!(s.handle(Method::Get, "/liveness"), text(200, "Ok"));
}

#[test]
fn site_config_and_fallbacks() {
    let mut c = Config::new("127.0.0.1:9000".to_string());
    c.config_key = Some("cfg".to_string());
    let mut s = Site::new("x", c);
    assert_eq!(s.handle(Method::Get, "/config"), text(200, "cfg"));
    assert_eq!(s.handle(Method::Get, "/secret"), text(404, "Not Configured"));
    assert_eq!(s.handle(Method::Get, "/config_file"), Reply::NotFoundPage);
    assert_eq!(s.handle(Method::Get, "/favicon.ico"), Reply::File { path: "static/favicon.ico".to_string() });
    assert_eq!(s.handle(Method::Get, "/missing"), Reply::NotFoundPage);
    assert_eq!(s.handle(Method::Put, "/missing").status(), 405);
    assert_eq!(s.respond(Route::NotFound).status(), 404);
}
