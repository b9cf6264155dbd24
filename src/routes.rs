//! Which response a page request gets.
use vstd::prelude::*;
use crate::registry::{Game, bowling_game, cube_game, games};

verus! {

/// `p` begins `s`.
pub open spec fn is_prefix(p: Seq<char>, s: Seq<char>) -> bool {
    p.len() <= s.len() && s.subrange(0, p.len() as int) == p
}

/// `p` ends `s`.
pub open spec fn is_suffix(p: Seq<char>, s: Seq<char>) -> bool {
    p.len() <= s.len() && s.subrange(s.len() - p.len(), s.len() as int) == p
}

/// `p` occurs somewhere in `s`.
pub open spec fn occurs_in(p: Seq<char>, s: Seq<char>) -> bool {
    exists|i: int| 0 <= i && i + p.len() <= s.len() && #[trigger] s.subrange(i, i + p.len()) == p
}

/// The content type a served file is labelled with.
#[derive(Debug, Clone, Copy, PartialEq, Eq, Structural)]
pub enum ContentType {
    /// `text/javascript`
    JavaScript,
    /// `application/wasm`
    Wasm,
}

/// The response a request gets.
#[derive(Debug, Clone, PartialEq, Eq)]
pub enum Route {
    /// The file at this path, relative to the server's directory, with a
    /// content type where one is set.
    File(String, Option<ContentType>),
    /// The list of games.
    GameList,
    /// The list of controllers waiting to be paired.
    PairingList,
    /// A listener claims the pairing id given in the query.
    Connect,
    /// The page of this game.
    Scene(Game),
    /// No such page.
    NotFound,
    /// Only reads are served.
    MethodNotAllowed,
}

/// A response, as contracts see it.
pub enum RouteView {
    File(Seq<char>, Option<ContentType>),
    GameList,
    PairingList,
    Connect,
    Scene(Game),
    NotFound,
    MethodNotAllowed,
}

impl View for Route {
    type V = RouteView;

    open spec fn view(&self) -> RouteView {
        match self {
            Route::File(p, t) => RouteView::File(p@, *t),
            Route::GameList => RouteView::GameList,
            Route::PairingList => RouteView::PairingList,
            Route::Connect => RouteView::Connect,
            Route::Scene(g) => RouteView::Scene(*g),
            Route::NotFound => RouteView::NotFound,
            Route::MethodNotAllowed => RouteView::MethodNotAllowed,
        }
    }
}

/// The first of `gs[i..]` whose name occurs in `path`.
pub open spec fn first_named(gs: Seq<Game>, path: Seq<char>, i: int) -> Option<Game>
    decreases gs.len() - i,
{
    if i < 0 || i >= gs.len() {
        None
    } else if occurs_in(gs[i].name@, path) {
        Some(gs[i])
    } else {
        first_named(gs, path, i + 1)
    }
}

/// The content type of a served file at `path`.
pub open spec fn file_type(path: Seq<char>) -> Option<ContentType> {
    if !is_prefix("/wasm"@, path) {
        None
    } else if is_suffix("js"@, path) {
        Some(ContentType::JavaScript)
    } else if is_suffix("wasm"@, path) {
        Some(ContentType::Wasm)
    } else {
        None
    }
}

/// The response to a request for `path`, a read where `is_get`.
pub open spec fn route_of(is_get: bool, path: Seq<char>) -> RouteView {
    if !is_get {
        RouteView::MethodNotAllowed
    } else if path == "/"@ {
        RouteView::File("frontend/index.html"@, None)
    } else if path == "/game"@ {
        RouteView::File("frontend/game.html"@, None)
    } else if path == "/games"@ {
        RouteView::GameList
    } else if path == "/controllers"@ {
        RouteView::PairingList
    } else if path == "/favicon.ico"@ {
        RouteView::File("frontend/favicon.ico"@, None)
    } else if path == "/connect"@ {
        RouteView::Connect
    } else if is_prefix("/frontend/"@, path) || is_prefix("/wasm"@, path) {
        RouteView::File(path.subrange(1, path.len() as int), file_type(path))
    } else if is_prefix("/sports/"@, path) {
        match first_named(seq![cube_game(), bowling_game()], path, 0) {
            Some(g) => RouteView::Scene(g),
            None => RouteView::NotFound,
        }
    } else {
        RouteView::NotFound
    }
}

fn matches_at(s: &str, p: &str, at: usize) -> (r: bool)
    requires
        at + p@.len() <= s@.len(),
    ensures
        r == (s@.subrange(at as int, at + p@.len()) == p@),
{
    let n = p.unicode_len();
    let sl = s.unicode_len();
    let mut j: usize = 0;
    while j < n
        invariant
            n == p@.len(),
            sl == s@.len(),
            at + n <= s@.len(),
            j <= n,
            s@.subrange(at as int, at + j) == p@.subrange(0, j as int),
        decreases n - j,
    {
        if s.get_char(at + j) != p.get_char(j) {
            assert(s@.subrange(at as int, at + n)[j as int] != p@[j as int]);
            return false;
        }
        assert(s@.subrange(at as int, at + j + 1) =~= p@.subrange(0, j + 1));
        j += 1;
    }
    assert(p@.subrange(0, n as int) =~= p@);
    true
}

pub(crate) fn text_eq(s: &str, p: &str) -> (r: bool)
    ensures
        r == (s@ == p@),
{
    if s.unicode_len() != p.unicode_len() {
        return false;
    }
    let r = matches_at(s, p, 0);
    assert(s@.subrange(0, s@.len() as int) =~= s@);
    r
}

fn starts_with(s: &str, p: &str) -> (r: bool)
    ensures
        r == is_prefix(p@, s@),
{
    if p.unicode_len() > s.unicode_len() {
        return false;
    }
    matches_at(s, p, 0)
}

fn ends_with(s: &str, p: &str) -> (r: bool)
    ensures
        r == is_suffix(p@, s@),
{
    let n = s.unicode_len();
    let m = p.unicode_len();
    if m > n {
        return false;
    }
    matches_at(s, p, n - m)
}

fn occurs(p: &str, s: &str) -> (r: bool)
    ensures
        r == occurs_in(p@, s@),
{
    let n = s.unicode_len();
    let m = p.unicode_len();
    if m > n {
        return false;
    }
    let last = n - m;
    let mut i: usize = 0;
    while i < last
        invariant
            n == s@.len(),
            m == p@.len(),
            last == n - m,
            i <= last,
            forall|k: int| 0 <= k < i ==> #[trigger] s@.subrange(k, k + m) != p@,
        decreases last - i,
    {
        if matches_at(s, p, i) {
            return true;
        }
        i += 1;
    }
    matches_at(s, p, last)
}

fn game_named_in(path: &str) -> (r: Option<Game>)
    ensures
        r == first_named(seq![cube_game(), bowling_game()], path@, 0),
{
    let gs = games();
    let ghost all = gs@;
    let mut i: usize = 0;
    while i < gs.len()
        invariant
            gs@ == all,
            all == seq![cube_game(), bowling_game()],
            i <= gs@.len(),
            first_named(all, path@, 0) == first_named(all, path@, i as int),
        decreases gs@.len() - i,
    {
        if occurs(gs[i].name, path) {
            return Some(gs[i]);
        }
        i += 1;
    }
    None
}

/// Decides the response to a request for `path`: fixed pages, the two
/// lists, the pairing claim, files under `/frontend/` and `/wasm`, and the
/// page of the first game whose name the path holds under `/sports/`.
pub fn route(is_get: bool, path: &str) -> (r: Route)
    ensures
        r@ == route_of(is_get, path@),
{
    if !is_get {
        Route::MethodNotAllowed
    } else if text_eq(path, "/") {
        Route::File(String::from_str("frontend/index.html"), None)
    } else if text_eq(path, "/game") {
        Route::File(String::from_str("frontend/game.html"), None)
    } else if text_eq(path, "/games") {
        Route::GameList
    } else if text_eq(path, "/controllers") {
        Route::PairingList
    } else if text_eq(path, "/favicon.ico") {
        Route::File(String::from_str("frontend/favicon.ico"), None)
    } else if text_eq(path, "/connect") {
        Route::Connect
    } else if starts_with(path, "/frontend/") || starts_with(path, "/wasm") {
        let n = path.unicode_len();
        proof {
            reveal_strlit("/wasm");
            reveal_strlit("/frontend/");
        }
        let rest = path.substring_char(1, n);
        let kind = if !starts_with(path, "/wasm") {
            None
        } else if ends_with(path, "js") {
            Some(ContentType::JavaScript)
        } else if ends_with(path, "wasm") {
            Some(ContentType::Wasm)
        } else {
            None
        };
        Route::File(String::from_str(rest), kind)
    } else if starts_with(path, "/sports/") {
        match game_named_in(path) {
            Some(g) => Route::Scene(g),
            None => Route::NotFound,
        }
    } else {
        Route::NotFound
    }
}

} // verus!
