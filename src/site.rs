//! The whole service: routes a request and answers it from the chapter store,
//! the settings and the health probe.
use vstd::prelude::*;
use crate::chapters::{chapter_view, Chapters};
use crate::config::{file_view, str_view, Config};
use crate::probe::{health_view, hostname, hostname_view, liveness, readiness, HealthProbe};
use crate::reply::{favicon, favicon_path, status_of, text_view, Reply, ReplyView, STATUS_OK};
use crate::router::{chapter_number, chapter_prefix, route, route_of, segment_value, Method, Route};
use crate::text::opt_view;

verus! {

/// The reply to `route`, given the chapters, the settings, the number of
/// earlier health checks and, for a hostname request, the host name.
pub open spec fn reply_of(
    chapters: Seq<Seq<char>>,
    config: Config,
    calls: nat,
    route: Route,
    host: Option<Seq<char>>,
) -> ReplyView {
    match route {
        Route::Favicon => ReplyView::File { path: favicon_path() },
        Route::Health => health_view(calls),
        Route::Liveness => text_view(STATUS_OK, "Ok"@),
        Route::Readiness => text_view(STATUS_OK, "Ok"@),
        Route::Hostname => hostname_view(host),
        Route::Chapter(n) => chapter_view(chapters, n as int),
        Route::Config => str_view(opt_view(config.config_key)),
        Route::Secret => str_view(opt_view(config.secret_key)),
        Route::ConfigFile => file_view(opt_view(config.config_file)),
        Route::ConfigMapFile => file_view(opt_view(config.config_map_file)),
        Route::ConfigSecretFile => file_view(opt_view(config.secret_map_file)),
        Route::NotFound => ReplyView::NotFoundPage,
        Route::MethodNotAllowed => ReplyView::MethodNotAllowed,
    }
}

/// The paths that GET requests are routed by exactly.
pub open spec fn exact_paths() -> Seq<Seq<char>> {
    seq![
        "/favicon.ico"@,
        "/health"@,
        "/liveness"@,
        "/readiness"@,
        "/hostname"@,
        "/config"@,
        "/secret"@,
        "/config_file"@,
        "/config_map_file"@,
        "/config_secret_file"@,
    ]
}

/// A running service's state.
pub struct Site {
    pub chapters: Chapters,
    pub config: Config,
    pub health: HealthProbe,
}

impl Site {
    /// A service over the chapters of `text`, with a fresh health probe.
    pub fn new(text: &str, config: Config) -> (r: Site)
        ensures
            r.chapters@ == crate::chapters::chapters_of(text@),
            r.config == config,
            r.health.spec_calls() == 0,
    {
        Site { chapters: Chapters::from_text(text), config, health: HealthProbe::new() }
    }

    /// Answers a request already routed to `route`. Only a health check
    /// changes the state: it counts one more check.
    pub fn respond(&mut self, route: Route) -> (r: Reply)
        ensures
            exists|h: Option<Seq<char>>|
                r@ == reply_of(
                    old(self).chapters@,
                    old(self).config,
                    old(self).health.spec_calls(),
                    route,
                    h,
                ),
            route != Route::Hostname ==> r@ == reply_of(
                old(self).chapters@,
                old(self).config,
                old(self).health.spec_calls(),
                route,
                None,
            ),
            final(self).chapters@ == old(self).chapters@,
            final(self).config == old(self).config,
            final(self).health.spec_calls() == if route == Route::Health && old(
                self,
            ).health.spec_calls() < usize::MAX {
                old(self).health.spec_calls() + 1
            } else {
                old(self).health.spec_calls()
            },
    {
        let ghost cs = self.chapters@;
        let ghost calls = self.health.spec_calls();
        let r = match route {
            Route::Favicon => favicon(),
            Route::Health => self.health.check(),
            Route::Liveness => liveness(),
            Route::Readiness => readiness(),
            Route::Hostname => hostname(),
            Route::Chapter(n) => self.chapters.chapter_reply(n),
            Route::Config => self.config.config_key(),
            Route::Secret => self.config.secret_key(),
            Route::ConfigFile => self.config.config_file(),
            Route::ConfigMapFile => self.config.config_map_file(),
            Route::ConfigSecretFile => self.config.secret_map_file(),
            Route::NotFound => Reply::NotFoundPage,
            Route::MethodNotAllowed => Reply::MethodNotAllowed,
        };
        assert(route != Route::Hostname ==> r@ == reply_of(cs, self.config, calls, route, None));
        r
    }

    /// Routes a request with method `method` and path `path` and answers it.
    pub fn handle(&mut self, method: Method, path: &str) -> (r: Reply)
        ensures
            exists|h: Option<Seq<char>>|
                r@ == reply_of(
                    old(self).chapters@,
                    old(self).config,
                    old(self).health.spec_calls(),
                    route_of(method, path@),
                    h,
                ),
            route_of(method, path@) != Route::Hostname ==> r@ == reply_of(
                old(self).chapters@,
                old(self).config,
                old(self).health.spec_calls(),
                route_of(method, path@),
                None,
            ),
            final(self).chapters@ == old(self).chapters@,
            final(self).config == old(self).config,
            final(self).health.spec_calls() == if route_of(method, path@) == Route::Health && old(
                self,
            ).health.spec_calls() < usize::MAX {
                old(self).health.spec_calls() + 1
            } else {
                old(self).health.spec_calls()
            },
    {
        let route = route(method, path);
        self.respond(route)
    }
}

/// A GET request for `/enchiridion/` followed by a segment that spells the
/// number `n` gets chapter `n` with status 200 where `1 <= n <= len`, and the
/// not-found page with status 404 for 0 and past the last chapter.
pub proof fn lemma_chapter_request(
    chapters: Seq<Seq<char>>,
    config: Config,
    calls: nat,
    seg: Seq<char>,
    n: usize,
)
    requires
        chapter_number(seg) == Some(n),
    ensures
        route_of(Method::Get, chapter_prefix() + seg) == Route::Chapter(n),
        1 <= n <= chapters.len() ==> reply_of(
            chapters,
            config,
            calls,
            route_of(Method::Get, chapter_prefix() + seg),
            None,
        ) == text_view(STATUS_OK, chapters[n - 1]),
        !(1 <= n <= chapters.len()) ==> reply_of(
            chapters,
            config,
            calls,
            route_of(Method::Get, chapter_prefix() + seg),
            None,
        ) == ReplyView::NotFoundPage,
{
    let p = chapter_prefix() + seg;
    assert(p.subrange(0, chapter_prefix().len() as int) =~= chapter_prefix());
    assert(p.subrange(chapter_prefix().len() as int, p.len() as int) =~= seg);
}

/// A GET request for `/enchiridion/` followed by a segment that spells no
/// number matches no route: it gets the not-found page.
pub proof fn lemma_non_numeric_chapter(
    chapters: Seq<Seq<char>>,
    config: Config,
    calls: nat,
    seg: Seq<char>,
)
    requires
        segment_value(seg) is None,
    ensures
        route_of(Method::Get, chapter_prefix() + seg) == Route::NotFound,
        reply_of(chapters, config, calls, route_of(Method::Get, chapter_prefix() + seg), None)
            == ReplyView::NotFoundPage,
{
    let p = chapter_prefix() + seg;
    assert(p.subrange(0, chapter_prefix().len() as int) =~= chapter_prefix());
    assert(p.subrange(chapter_prefix().len() as int, p.len() as int) =~= seg);
}

/// Liveness and readiness answer 200 "Ok" whatever the state and however
/// often they are asked.
pub proof fn lemma_probes_always_ok(
    chapters: Seq<Seq<char>>,
    config: Config,
    calls: nat,
    host: Option<Seq<char>>,
)
    ensures
        reply_of(chapters, config, calls, Route::Liveness, host) == text_view(STATUS_OK, "Ok"@),
        reply_of(chapters, config, calls, Route::Readiness, host) == text_view(STATUS_OK, "Ok"@),
{
}

/// A request with another method than GET gets status 405; a GET request
/// for a path that no route matches gets the not-found page with status 404.
pub proof fn lemma_unmatched_requests(
    chapters: Seq<Seq<char>>,
    config: Config,
    calls: nat,
    m: Method,
    p: Seq<char>,
)
    ensures
        m != Method::Get ==> status_of(
            reply_of(chapters, config, calls, route_of(m, p), None),
        ) == crate::reply::STATUS_METHOD_NOT_ALLOWED,
        m == Method::Get && !chapter_prefix().is_prefix_of(p) && !exact_paths().contains(p)
            ==> reply_of(chapters, config, calls, route_of(m, p), None) == ReplyView::NotFoundPage
            && status_of(ReplyView::NotFoundPage) == crate::reply::STATUS_NOT_FOUND,
{
    if m == Method::Get && !chapter_prefix().is_prefix_of(p) && !exact_paths().contains(p) {
        assert(exact_paths()[0] == "/favicon.ico"@);
        assert(exact_paths()[1] == "/health"@);
        assert(exact_paths()[2] == "/liveness"@);
        assert(exact_paths()[3] == "/readiness"@);
        assert(exact_paths()[4] == "/hostname"@);
        assert(exact_paths()[5] == "/config"@);
        assert(exact_paths()[6] == "/secret"@);
        assert(exact_paths()[7] == "/config_file"@);
        assert(exact_paths()[8] == "/config_map_file"@);
        assert(exact_paths()[9] == "/config_secret_file"@);
    }
}

} // verus!
