//! The pages that list games and pairable controllers, and a game's page.
use vstd::prelude::*;
use crate::control::ControllerId;
use crate::text::{decimal, push_decimal};

verus! {

/// Start of a pairable id's box, up to the id in its link.
pub const ID_BOX_OPEN: &'static str = r#"
            <div class="id-box" hx-get="/connect?id="#;

/// Between the link's id and the id in the box's value.
pub const ID_BOX_VALUE: &'static str = r#"" hx-swap="none" value=""#;

/// Between the value's id and the displayed id.
pub const ID_BOX_NAME: &'static str = r#"">
                <div class="name">#"#;

/// End of a pairable id's box.
pub const ID_BOX_CLOSE: &'static str = r#"</div>
            </div>
            "#;

/// Start of a game's box, up to the game's name in its link.
pub const GAME_BOX_OPEN: &'static str = r#"
            <div class="game-box"  hx-get="sports/"#;

/// Between the link and the thumbnail's path.
pub const GAME_BOX_IMG: &'static str = r#"" hx-target="body">
                <img src=""#;

/// Between the thumbnail's path and its alternative text.
pub const GAME_BOX_ALT: &'static str = r#"" alt=""#;

/// Between the alternative text and the displayed name.
pub const GAME_BOX_NAME: &'static str = r#"" class="game-thumbnail" />
                <div class="game-name">"#;

/// End of a game's box.
pub const GAME_BOX_CLOSE: &'static str = r#"</div>
            </div>
            "#;

/// Start of a game page, up to its title.
pub const SCENE_OPEN: &'static str = r#"
            <!DOCTYPE html>
            <html>
                <head>
                    <meta charset="UTF-8" />
                    <link rel="stylesheet" href="frontend/style/game.css">
                </head>
                <body>
                    <title>"#;

/// Between the title and the path of the game's script.
pub const SCENE_SCRIPT: &'static str = r#"</title>
                    <div class="loader"></div>
                    <script>
                        (function () {
                            const audioContextList = [];

                            const userInputEventNames = [
                                "click",
                                "contextmenu",
                                "auxclick",
                                "dblclick",
                                "mousedown",
                                "mouseup",
                                "pointerup",
                                "touchend",
                                "keydown",
                                "keyup",
                            ];

                            self.AudioContext = new Proxy(self.AudioContext, {
                                construct(target, args) {
                                    const result = new target(...args);
                                    audioContextList.push(result);
                                    return result;
                                },
                            });

                            function resumeAllContexts(_event) {
                                let count = 0;

                                audioContextList.forEach((context) => {
                                    if (context.state !== "running") {
                                        context.resume();
                                    } else {
                                        count++;
                                    }
                                });

                                if (count > 0 && count === audioContextList.length) {
                                    userInputEventNames.forEach((eventName) => {
                                        document.removeEventListener(eventName, resumeAllContexts);
                                    });
                                }
                            }

                            userInputEventNames.forEach((eventName) => {
                                document.addEventListener(eventName, resumeAllContexts);
                            });
                        })();
                    </script>

                    <script type="module">
                        import init, { Runner } from '"#;

/// Between the script's path and whether the game asks for a player count.
pub const SCENE_MULTIPLAYER: &'static str = r#"'

                        const socket = new WebSocket("/");
                        socket.binaryType = "arraybuffer";

                        socket.addEventListener("open", () => {
                            console.log("WebSocket connection opened");
                            let id = parseInt(localStorage.getItem("ID"));
                            console.log(`ID: ${id}`);
                            const buffer = createWsMessage(1, id);

                            socket.send(buffer);
                            console.log("ArrayBuffer sent:", buffer);
                        });

                        function createWsMessage(id, payload) {
                            const buffer = new ArrayBuffer(9);
                            const dataView = new DataView(buffer);

                            dataView.setUint8(0, id);

                            const bigIntPayload = BigInt(payload);
                            dataView.setBigUint64(1, bigIntPayload, true); 

                            return buffer;
                        }

                        init().then(() => {
                            let runner = new Runner();
                            let send = runner.get_send();

                            if ("#;

/// End of a game page.
pub const SCENE_CLOSE: &'static str = r#") {
                                let players = parseInt(prompt("How many players:"));
                                send.set_players(players);
                            }

                            socket.addEventListener("message", (event) => {
                                const buffer = event.data;
                                const dataView = new DataView(buffer);
                                const id = dataView.getUint8(0);

                                switch (id) {
                                    case 2:
                                        // Button A
                                        send.press_a();
                                        break;
                                    case 3:
                                        // Button B
                                        send.press_b();
                                        break;
                                    case 4:
                                        // Angle data
                                        const pitch = dataView.getFloat32(1, true);
                                        const yaw = dataView.getFloat32(5, true);
                                        const roll = dataView.getFloat32(9, true);
                                        send.rotate(pitch, yaw, roll);
                                        break;
                                    default:
                                        console.log("Unknown ID found: ", id);
                                }

                            });

                            socket.addEventListener("error", (error) => {
                                console.error("WebSocket error:", error);
                            });

                            socket.addEventListener("close", () => {
                                console.log("WebSocket connection closed");
                            });
                            
                            console.log("Run has begun");
                            runner.run();
                        });

                    </script>
                </body>
            </html>
            "#;

/// Game information for rendering.
#[derive(Debug, Clone, Copy, PartialEq, Eq)]
pub struct Game {
    /// Path to the game's script.
    pub wasm_path: &'static str,
    /// Path to the thumbnail image.
    pub img: &'static str,
    /// The game's name.
    pub name: &'static str,
    /// Whether the game asks for a player count.
    pub multiplayer: bool,
}

/// The box that offers the pairable controller `id`.
pub open spec fn id_connection_text(id: ControllerId) -> Seq<char> {
    ID_BOX_OPEN@ + decimal(id as nat) + ID_BOX_VALUE@ + decimal(id as nat) + ID_BOX_NAME@
        + decimal(id as nat) + ID_BOX_CLOSE@
}

/// The text of a boolean in a page's script.
pub open spec fn bool_text(b: bool) -> Seq<char> {
    if b {
        "true"@
    } else {
        "false"@
    }
}

/// The box that offers a game.
pub open spec fn game_box_text(g: Game) -> Seq<char> {
    GAME_BOX_OPEN@ + g.name@ + GAME_BOX_IMG@ + g.img@ + GAME_BOX_ALT@ + g.name@ + GAME_BOX_NAME@
        + g.name@ + GAME_BOX_CLOSE@
}

/// The page on which a game runs.
pub open spec fn game_scene_text(g: Game) -> Seq<char> {
    SCENE_OPEN@ + g.name@ + SCENE_SCRIPT@ + g.wasm_path@ + SCENE_MULTIPLAYER@ + bool_text(
        g.multiplayer,
    ) + SCENE_CLOSE@
}

/// Render valid html for an id being connected to.
pub fn render_id_connection(id: ControllerId) -> (r: String)
    ensures
        r@ == id_connection_text(id),
{
    let mut out = String::from_str(ID_BOX_OPEN);
    push_decimal(&mut out, id);
    out.append(ID_BOX_VALUE);
    push_decimal(&mut out, id);
    out.append(ID_BOX_NAME);
    push_decimal(&mut out, id);
    out.append(ID_BOX_CLOSE);
    assert(out@ =~= id_connection_text(id));
    out
}

impl Game {
    /// Creates renderable html for the game's box.
    pub fn render_html(&self) -> (r: String)
        ensures
            r@ == game_box_text(*self),
    {
        let mut out = String::from_str(GAME_BOX_OPEN);
        out.append(self.name);
        out.append(GAME_BOX_IMG);
        out.append(self.img);
        out.append(GAME_BOX_ALT);
        out.append(self.name);
        out.append(GAME_BOX_NAME);
        out.append(self.name);
        out.append(GAME_BOX_CLOSE);
        assert(out@ =~= game_box_text(*self));
        out
    }

    /// Renders the page on which the game runs.
    pub fn render_game_scene(&self) -> (r: String)
        ensures
            r@ == game_scene_text(*self),
    {
        let mut out = String::from_str(SCENE_OPEN);
        out.append(self.name);
        out.append(SCENE_SCRIPT);
        out.append(self.wasm_path);
        out.append(SCENE_MULTIPLAYER);
        if self.multiplayer {
            out.append("true");
        } else {
            out.append("false");
        }
        out.append(SCENE_CLOSE);
        assert(out@ =~= game_scene_text(*self));
        out
    }
}

/// The cube game.
pub open spec fn cube_game() -> Game {
    Game {
        wasm_path: "/wasm/cube/out/cube.js",
        img: "/frontend/bg/cube.png",
        name: "THE_CUBE",
        multiplayer: false,
    }
}

/// The bowling game.
pub open spec fn bowling_game() -> Game {
    Game {
        wasm_path: "/wasm/bowling/out/bowling.js",
        img: "/frontend/bg/bowling.jpg",
        name: "Bowling",
        multiplayer: true,
    }
}

/// All registered games, in the order they are offered.
pub fn games() -> (r: Vec<Game>)
    ensures
        r@ == seq![cube_game(), bowling_game()],
{
    let mut r: Vec<Game> = Vec::new();
    r.push(
        Game {
            wasm_path: "/wasm/cube/out/cube.js",
            img: "/frontend/bg/cube.png",
            name: "THE_CUBE",
            multiplayer: false,
        },
    );
    r.push(
        Game {
            wasm_path: "/wasm/bowling/out/bowling.js",
            img: "/frontend/bg/bowling.jpg",
            name: "Bowling",
            multiplayer: true,
        },
    );
    assert(r@ =~= seq![cube_game(), bowling_game()]);
    r
}

/// The boxes of the first `n` ids, separated by a space.
pub open spec fn id_list_text(ids: Seq<ControllerId>, n: int) -> Seq<char>
    decreases n,
{
    if n <= 0 {
        Seq::empty()
    } else if n == 1 {
        id_connection_text(ids[0])
    } else {
        id_list_text(ids, n - 1) + " "@ + id_connection_text(ids[n - 1])
    }
}

/// The boxes of the first `n` games, separated by a space.
pub open spec fn game_list_text(gs: Seq<Game>, n: int) -> Seq<char>
    decreases n,
{
    if n <= 0 {
        Seq::empty()
    } else if n == 1 {
        game_box_text(gs[0])
    } else {
        game_list_text(gs, n - 1) + " "@ + game_box_text(gs[n - 1])
    }
}

/// The list of pairable controllers: the box of each id, in order,
/// separated by a space.
pub fn render_id_list(ids: &Vec<ControllerId>) -> (r: String)
    ensures
        r@ == id_list_text(ids@, ids@.len() as int),
{
    let mut out = String::new();
    let mut i: usize = 0;
    while i < ids.len()
        invariant
            i <= ids@.len(),
            out@ == id_list_text(ids@, i as int),
        decreases ids@.len() - i,
    {
        if i > 0 {
            out.append(" ");
        }
        let one = render_id_connection(ids[i]);
        out.append(one.as_str());
        i += 1;
    }
    out
}

/// The list of games: the box of each, in order, separated by a space.
pub fn render_game_list(gs: &Vec<Game>) -> (r: String)
    ensures
        r@ == game_list_text(gs@, gs@.len() as int),
{
    let mut out = String::new();
    let mut i: usize = 0;
    while i < gs.len()
        invariant
            i <= gs@.len(),
            out@ == game_list_text(gs@, i as int),
        decreases gs@.len() - i,
    {
        if i > 0 {
            out.append(" ");
        }
        let one = gs[i].render_html();
        out.append(one.as_str());
        i += 1;
    }
    out
}

} // verus!
