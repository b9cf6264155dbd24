use spjorts::registry::games;
use spjorts::routes::{route, ContentType, Route};

fn file(p: &str, t: Option<ContentType>) -> Route {
    Route::File(p.to_string(), t)
}

#[test]
fn fixed_pages() {
    assert_eq!(route(true, "/"), file("frontend/index.html", None));
    assert_eq!(route(true, "/game"), file("frontend/game.html", None));
    assert_eq!(route(true, "/favicon.ico"), file("frontend/favicon.ico", None));
    assert_eq!(route(true, "/games"), Route::GameList);
    assert_eq!(route(true, "/controllers"), Route::PairingList);
    assert_eq!(route(true, "/connect"), Route::Connect);
}

#[test]
fn only_reads_are_served() {
    assert_eq!(route(false, "/"), Route::MethodNotAllowed);
    assert_eq!(route(false, "/games"), Route::MethodNotAllowed);
}

#[test]
fn files_and_content_types() {
    assert_eq!(route(true, "/frontend/style/game.css"), file("frontend/style/game.css", None));
    assert_eq!(
        route(true, "/wasm/cube/out/cube.js"),
        file("wasm/cube/out/cube.js", Some(ContentType::JavaScript))
    );
    assert_eq!(
        route(true, "/wasm/cube/out/cube_bg.wasm"),
        file("wasm/cube/out/cube_bg.wasm", Some(ContentType::Wasm))
    );
    assert_eq!(route(true, "/wasm/readme.txt"), file("wasm/readme.txt", None));
    assert_eq!(route(true, "/frontend/app.js"), file("frontend/app.js", None));
}

#[test]
fn game_scenes() {
    let gs = games();
    assert_eq!(route(true, "/sports/Bowling"), Route::Scene(gs[1]));
    assert_eq!(route(true, "/sports/THE_CUBE"), Route::Scene(gs[0]));
    assert_eq!(route(true, "/sports/Chess"), Route::NotFound);
}

#[test]
fn unknown_paths() {
    assert_eq!(route(true, "/nope"), Route::NotFound);
    assert_eq!(route(true, ""), Route::NotFound);
    assert_eq!(route(true, "/connect/"), Route::NotFound);
}
