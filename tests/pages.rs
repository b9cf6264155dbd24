use spjorts::registry::{games, render_game_list, render_id_connection, render_id_list, Game};

fn id_box(id: u64) -> String {
    format!(
        "\n            <div class=\"id-box\" hx-get=\"/connect?id={}\" hx-swap=\"none\" value=\"{}\">\n                <div class=\"name\">#{}</div>\n            </div>\n            ",
        id, id, id
    )
}

#[test]
fn id_box_names_the_id() {
    assert_eq!(render_id_connection(42), id_box(42));
    assert_eq!(render_id_connection(0), id_box(0));
    assert_eq!(render_id_connection(u64::MAX), id_box(u64::MAX));
}

#[test]
fn id_list_joins_with_space() {
    assert_eq!(render_id_list(&vec![]), "");
    assert_eq!(render_id_list(&vec![7, 8]), format!("{} {}", id_box(7), id_box(8)));
}

#[test]
fn game_box_and_scene() {
    let g = Game { wasm_path: "/w/x.js", img: "/i.png", name: "Demo", multiplayer: true };
    let html = g.render_html();
    assert_eq!(
        html,
        "\n            <div class=\"game-box\"  hx-get=\"sports/Demo\" hx-target=\"body\">\n                <img src=\"/i.png\" alt=\"Demo\" class=\"game-thumbnail\" />\n                <div class=\"game-name\">Demo</div>\n            </div>\n            "
    );
    let scene = g.render_game_scene();
    assert!(scene.contains("<title>Demo</title>"));
    assert!(scene.contains("import init, { Runner } from '/w/x.js'"));
    assert!(scene.contains("if (true) {"));
    assert!(scene.contains("(function () {"));
    let single = Game { multiplayer: false, ..g };
    assert!(single.render_game_scene().contains("if (false) {"));
}

#[test]
fn registered_games() {
    let gs = games();
    assert_eq!(gs.len(), 2);
    assert_eq!(gs[0].name, "THE_CUBE");
    assert_eq!(gs[1].name, "Bowling");
    assert!(gs[1].multiplayer);
    let list = render_game_list(&gs);
    assert_eq!(list, format!("{} {}", gs[0].render_html(), gs[1].render_html()));
}
