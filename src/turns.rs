//! Turn taking and scorekeeping of a bowling game.
use vstd::prelude::*;
use crate::text::{decimal, decimal_string, push_decimal};

verus! {

/// Frames in a game.
pub const FRAMES: usize = 10;

/// Pins in a full rack.
pub const PINS: u8 = 10;

/// What a frame of a scorecard holds.
#[derive(Debug, Clone, Copy, PartialEq, Eq, Structural)]
pub enum Score {
    /// A frame that is neither a strike nor a spare: the pins downed.
    Normal(usize),
    /// All pins down with the first throw.
    Strike,
    /// All pins down with the second throw.
    Spare,
    /// The frame has not been played yet.
    Unscored,
}

/// What a frame's throw counts for when it is one of the rolls that a strike
/// or spare before it adds.
pub open spec fn roll_value(s: Score) -> nat {
    match s {
        Score::Normal(p) => p as nat,
        Score::Strike => 10,
        Score::Spare => 10,
        Score::Unscored => 0,
    }
}

/// The roll of frame `i`; nothing past the card's end.
pub open spec fn next_roll(scores: Seq<Score>, i: int) -> nat {
    if 0 <= i < scores.len() {
        roll_value(scores[i])
    } else {
        0
    }
}

/// The rolls of frames `i` and `i + 1`; nothing past the card's end.
pub open spec fn next_two_rolls(scores: Seq<Score>, i: int) -> nat {
    next_roll(scores, i) + next_roll(scores, i + 1)
}

/// What frame `i` adds to the total.
pub open spec fn frame_value(scores: Seq<Score>, i: int) -> nat {
    match scores[i] {
        Score::Normal(p) => p as nat,
        Score::Spare => 10 + next_roll(scores, i + 1),
        Score::Strike => 10 + next_two_rolls(scores, i + 1),
        Score::Unscored => 0,
    }
}

/// The sum of the values of frames `0..n`.
pub open spec fn total_upto(scores: Seq<Score>, n: int) -> nat
    decreases n,
{
    if n <= 0 {
        0
    } else {
        total_upto(scores, n - 1) + frame_value(scores, n - 1)
    }
}

/// The total of a scorecard.
pub open spec fn total(scores: Seq<Score>) -> nat {
    total_upto(scores, scores.len() as int)
}

/// Every frame of the card has been played.
pub open spec fn all_scored(scores: Seq<Score>) -> bool {
    forall|i: int| 0 <= i < scores.len() ==> scores[i] != Score::Unscored
}

proof fn lemma_total_upto_monotone(scores: Seq<Score>, m: int, n: int)
    requires
        m <= n,
    ensures
        total_upto(scores, m) <= total_upto(scores, n),
        0 <= m < n ==> total_upto(scores, m) + frame_value(scores, m) <= total_upto(scores, n),
    decreases n - m,
{
    if m < n {
        lemma_total_upto_monotone(scores, m, n - 1);
    }
}

fn next_roll_score(scores: &[Score], frame_index: usize) -> (r: usize)
    requires
        frame_index < scores@.len() ==> scores@[frame_index as int] != Score::Unscored,
    ensures
        r == next_roll(scores@, frame_index as int),
{
    if frame_index >= scores.len() {
        return 0;
    }
    match scores[frame_index] {
        Score::Normal(pins) => pins,
        Score::Spare => 10,
        Score::Strike => 10,
        Score::Unscored => 0,
    }
}

fn next_two_rolls_score(scores: &[Score], frame_index: usize) -> (r: usize)
    requires
        frame_index < scores@.len() ==> scores@[frame_index as int] != Score::Unscored,
        frame_index + 1 < scores@.len() ==> scores@[frame_index + 1] != Score::Unscored,
        next_two_rolls(scores@, frame_index as int) <= usize::MAX,
    ensures
        r == next_two_rolls(scores@, frame_index as int),
{
    let first = next_roll_score(scores, frame_index);
    if frame_index >= scores.len() {
        return first;
    }
    let second = next_roll_score(scores, frame_index + 1);
    first + second
}

/// The total of a completed scorecard: each frame's pins, plus ten and the
/// next roll for a spare, plus ten and the next two rolls for a strike.
pub fn get_score(scores: &[Score]) -> (r: usize)
    requires
        all_scored(scores@),
        total(scores@) <= usize::MAX,
    ensures
        r == total(scores@),
{
    let mut total_score: usize = 0;
    let n = scores.len();
    let mut i: usize = 0;
    while i < n
        invariant
            n == scores@.len(),
            i <= n,
            all_scored(scores@),
            total(scores@) <= usize::MAX,
            total_score == total_upto(scores@, i as int),
        decreases n - i,
    {
        proof {
            lemma_total_upto_monotone(scores@, i as int, n as int);
        }
        let value = match scores[i] {
            Score::Normal(pins) => pins,
            Score::Spare => 10 + next_roll_score(scores, i + 1),
            Score::Strike => 10 + next_two_rolls_score(scores, i + 1),
            Score::Unscored => 0,
        };
        total_score = total_score + value;
        i += 1;
    }
    total_score
}

/// A bowling game's state, as contracts see it.
pub struct BowlingView {
    /// The current frame, counted from one.
    pub frame_number: nat,
    /// The current throw within the frame, counted from one.
    pub throw_num: u8,
    /// Each player's scorecard.
    pub scores: Seq<Seq<Score>>,
    /// Pins down in the current throw.
    pub pins_down: u8,
    /// Whether the current throw has ended.
    pub throw_done: bool,
    /// The player whose turn it is.
    pub turn: nat,
}

impl BowlingView {
    /// The frame of the current player's card that the current frame number names.
    pub open spec fn set_current(self, s: Score) -> BowlingView {
        BowlingView {
            scores: self.scores.update(
                self.turn as int,
                self.scores[self.turn as int].update(self.frame_number - 1, s),
            ),
            ..self
        }
    }

    /// A new throw starts: no pin down, not ended, first throw.
    pub open spec fn reset(self) -> BowlingView {
        BowlingView { pins_down: 0, throw_done: false, throw_num: 1, ..self }
    }

    /// The turn passes on, and after the last player the frame; says whether
    /// the game is over.
    pub open spec fn next_turn(self) -> (BowlingView, bool) {
        let last = self.turn + 1 >= self.scores.len();
        if self.frame_number < FRAMES {
            if last {
                (BowlingView { turn: 0, frame_number: self.frame_number + 1, ..self }, false)
            } else {
                (BowlingView { turn: self.turn + 1, ..self }, false)
            }
        } else if last {
            (self, true)
        } else {
            (BowlingView { turn: self.turn + 1, ..self }, false)
        }
    }

    /// What the end of a throw does: a strike or spare ends the frame with
    /// that mark, a first throw short of a strike lets the player throw again,
    /// and any other second throw ends the frame with the pins downed. A
    /// frame that ends passes the turn on; the result then says whether the
    /// game is over. Nothing happens while the throw goes on.
    pub open spec fn update_frame(self) -> (BowlingView, Option<bool>) {
        if !self.throw_done {
            (self, None)
        } else {
            let finished = self.throw_num - 1;
            if finished == 1 && self.pins_down == PINS {
                let (v, over) = self.set_current(Score::Strike).reset().next_turn();
                (v, Some(over))
            } else if finished == 2 && self.pins_down == PINS {
                let (v, over) = self.set_current(Score::Spare).reset().next_turn();
                (v, Some(over))
            } else if finished == 1 {
                (BowlingView { throw_done: false, ..self }, None)
            } else {
                let (v, over) = self.set_current(Score::Normal(self.pins_down as usize)).reset().next_turn();
                (v, Some(over))
            }
        }
    }
}

/// Bowling game current state.
#[derive(Debug, Clone)]
pub struct BowlingState {
    /// What is the current frame we're at.
    frame_number: usize,
    /// Which throw in the frame we are on.
    throw_num: u8,
    /// Scores per frame for each player.
    player_frame_scores: Vec<[Score; 10]>,
    /// Pins currently down.
    pins_down: u8,
    /// Whether the current throw is done.
    throw_done: bool,
    /// Current player's turn.
    turn: usize,
}

impl View for BowlingState {
    type V = BowlingView;

    closed spec fn view(&self) -> BowlingView {
        BowlingView {
            frame_number: self.frame_number as nat,
            throw_num: self.throw_num,
            scores: Seq::new(
                self.player_frame_scores@.len(),
                |i: int| self.player_frame_scores@[i]@,
            ),
            pins_down: self.pins_down,
            throw_done: self.throw_done,
            turn: self.turn as nat,
        }
    }
}

/// A scorecard row of `FRAMES` frames none of which has been played.
pub open spec fn blank_card() -> Seq<Score> {
    Seq::new(FRAMES as nat, |i: int| Score::Unscored)
}

impl BowlingView {
    /// The frame lies in `1..=FRAMES`, the throw is at least the first, there is
    /// a player and the turn names one, and each card has `FRAMES` frames.
    pub open spec fn wf(self) -> bool {
        &&& 1 <= self.frame_number <= FRAMES
        &&& self.throw_num >= 1
        &&& self.scores.len() >= 1
        &&& self.turn < self.scores.len()
        &&& forall|p: int| 0 <= p < self.scores.len() ==> (#[trigger] self.scores[p]).len() == FRAMES
    }
}

impl BowlingState {
    /// A game of one player at the first throw of the first frame.
    pub fn new() -> (r: BowlingState)
        ensures
            r@.wf(),
            r@ == (BowlingView {
                frame_number: 1,
                throw_num: 1,
                scores: seq![blank_card()],
                pins_down: 0,
                throw_done: false,
                turn: 0,
            }),
    {
        let card = [Score::Unscored; 10];
        assert(card@ =~= blank_card());
        let mut cards: Vec<[Score; 10]> = Vec::new();
        cards.push(card);
        let r = BowlingState {
            frame_number: 1,
            throw_num: 1,
            player_frame_scores: cards,
            pins_down: 0,
            throw_done: false,
            turn: 0,
        };
        assert(r@.scores =~= seq![blank_card()]);
        r
    }

    /// Checks if the current throw is finished.
    pub fn is_throw_done(&self) -> (r: bool)
        ensures
            r == self@.throw_done,
    {
        self.throw_done
    }

    /// Gets the current amount of pins downed.
    pub fn get_pins_down(&self) -> (r: u8)
        ensures
            r == self@.pins_down,
    {
        self.pins_down
    }

    /// Returns the current throw.
    pub fn get_throw_num(&self) -> (r: u8)
        ensures
            r == self@.throw_num,
    {
        self.throw_num
    }

    /// Ends the current throw and moves to the next one.
    pub fn inc_throw_num(&mut self)
        requires
            old(self)@.throw_num < u8::MAX,
        ensures
            final(self)@ == (BowlingView {
                throw_num: (old(self)@.throw_num + 1) as u8,
                throw_done: true,
                ..old(self)@
            }),
    {
        self.throw_num += 1;
        self.throw_done = true;
    }

    /// Counts one more pin down.
    pub fn topple_pin(&mut self)
        requires
            old(self)@.pins_down < u8::MAX,
        ensures
            final(self)@ == (BowlingView { pins_down: (old(self)@.pins_down + 1) as u8, ..old(self)@ }),
    {
        self.pins_down += 1;
    }

    fn set_current(&mut self, s: Score)
        requires
            old(self)@.wf(),
        ensures
            final(self)@ == old(self)@.set_current(s),
            final(self)@.wf(),
    {
        let f = self.frame_number - 1;
        let t = self.turn;
        let mut card = self.player_frame_scores[t];
        card[f] = s;
        self.player_frame_scores.set(t, card);
        assert(self@.scores =~= old(self)@.set_current(s).scores);
    }

    /// Sets the current player's score for the current frame.
    pub fn set_score(&mut self, score: u8)
        requires
            old(self)@.wf(),
        ensures
            final(self)@ == old(self)@.set_current(Score::Normal(score as usize)),
            final(self)@.wf(),
    {
        self.set_current(Score::Normal(score as usize));
    }

    /// Marks the current player's current frame as a spare.
    pub fn set_spare(&mut self)
        requires
            old(self)@.wf(),
        ensures
            final(self)@ == old(self)@.set_current(Score::Spare),
            final(self)@.wf(),
    {
        self.set_current(Score::Spare);
    }

    /// Marks the current player's current frame as a strike.
    pub fn set_strike(&mut self)
        requires
            old(self)@.wf(),
        ensures
            final(self)@ == old(self)@.set_current(Score::Strike),
            final(self)@.wf(),
    {
        self.set_current(Score::Strike);
    }

    /// Passes the turn to the next player, and after the last player to the
    /// next frame; returns true once the last player has played the last
    /// frame, and then changes nothing.
    pub fn inc_frame(&mut self) -> (r: bool)
        requires
            old(self)@.wf(),
        ensures
            (final(self)@, r) == old(self)@.next_turn(),
            final(self)@.wf(),
    {
        let last = self.turn >= self.player_frame_scores.len() - 1;
        if self.frame_number < FRAMES {
            if last {
                self.turn = 0;
                self.frame_number += 1;
            } else {
                self.turn += 1;
            }
            false
        } else if last {
            true
        } else {
            self.turn += 1;
            false
        }
    }

    /// Resets all triggers for a new throw.
    pub fn reset(&mut self)
        ensures
            final(self)@ == old(self)@.reset(),
    {
        self.pins_down = 0;
        self.throw_done = false;
        self.throw_num = 1;
    }

    /// Toggles the throw status back.
    pub fn set_throw_not_done(&mut self)
        ensures
            final(self)@ == (BowlingView { throw_done: false, ..old(self)@ }),
    {
        self.throw_done = false;
    }

    /// Sets the number of players; every card starts blank.
    pub fn set_players(&mut self, num: usize)
        requires
            num >= 1,
            old(self)@.turn < num,
            old(self)@.wf(),
        ensures
            final(self)@ == (BowlingView { scores: Seq::new(num as nat, |i: int| blank_card()), ..old(self)@ }),
            final(self)@.wf(),
    {
        let mut cards: Vec<[Score; 10]> = Vec::new();
        let mut i: usize = 0;
        while i < num
            invariant
                i <= num,
                cards@.len() == i,
                forall|j: int| 0 <= j < i ==> (#[trigger] cards@[j])@ == blank_card(),
            decreases num - i,
        {
            let card = [Score::Unscored; 10];
            assert(card@ =~= blank_card());
            cards.push(card);
            i += 1;
        }
        self.player_frame_scores = cards;
        assert(self@.scores =~= Seq::new(num as nat, |i: int| blank_card()));
    }

    /// Settles a finished throw: a strike or spare ends the frame with that
    /// mark, a first throw short of a strike lets the player throw again, and
    /// any other second throw ends the frame with the pins downed. When a frame
    /// ended the pins are to be set up again, and the result says whether the
    /// game is over.
    pub fn update_frame(&mut self) -> (r: Option<bool>)
        requires
            old(self)@.wf(),
        ensures
            (final(self)@, r) == old(self)@.update_frame(),
            final(self)@.wf(),
    {
        if !self.throw_done {
            return None;
        }
        let finished = self.throw_num - 1;
        if finished == 1 && self.pins_down == PINS {
            self.set_strike();
            self.reset();
            Some(self.inc_frame())
        } else if finished == 2 && self.pins_down == PINS {
            self.set_spare();
            self.reset();
            Some(self.inc_frame())
        } else if finished == 1 {
            self.set_throw_not_done();
            None
        } else {
            let pins = self.pins_down;
            self.set_score(pins);
            self.reset();
            Some(self.inc_frame())
        }
    }

    /// Each player's number and total, in player order.
    pub fn get_score(&self) -> (r: Vec<(usize, usize)>)
        requires
            forall|p: int| 0 <= p < self@.scores.len() ==> all_scored(#[trigger] self@.scores[p]),
            forall|p: int| 0 <= p < self@.scores.len() ==> total(#[trigger] self@.scores[p]) <= usize::MAX,
        ensures
            r@.len() == self@.scores.len(),
            forall|p: int| 0 <= p < r@.len() ==> #[trigger] r@[p] == (p as usize, total(self@.scores[p]) as usize),
    {
        let mut out: Vec<(usize, usize)> = Vec::new();
        let n = self.player_frame_scores.len();
        let mut p: usize = 0;
        while p < n
            invariant
                n == self@.scores.len(),
                p <= n,
                out@.len() == p,
                forall|p: int| 0 <= p < self@.scores.len() ==> all_scored(#[trigger] self@.scores[p]),
                forall|p: int| 0 <= p < self@.scores.len() ==> total(#[trigger] self@.scores[p]) <= usize::MAX,
                forall|q: int| 0 <= q < p ==> #[trigger] out@[q] == (q as usize, total(self@.scores[q]) as usize),
            decreases n - p,
        {
            assert(self@.scores[p as int] == self.player_frame_scores@[p as int]@);
            let card = &self.player_frame_scores[p];
            let total_score = get_score(card);
            out.push((p, total_score));
            p += 1;
        }
        out
    }
}

impl Default for BowlingState {
    fn default() -> (r: BowlingState)
        ensures
            r@.wf(),
            r@ == (BowlingView {
                frame_number: 1,
                throw_num: 1,
                scores: seq![blank_card()],
                pins_down: 0,
                throw_done: false,
                turn: 0,
            }),
    {
        BowlingState::new()
    }
}

/// The text of a frame on the scorecard.
pub open spec fn score_text(s: Score) -> Seq<char> {
    match s {
        Score::Normal(p) => if p == 0 {
            seq!['-', '-']
        } else {
            decimal(p as nat)
        },
        Score::Strike => seq!['X'],
        Score::Spare => seq!['/'],
        Score::Unscored => Seq::empty(),
    }
}

impl Score {
    /// The frame's text: the pins, `--` for none, `X` for a strike, `/` for a
    /// spare, nothing for an unplayed frame.
    pub fn to_string(&self) -> (r: String)
        ensures
            r@ == score_text(*self),
    {
        proof {
            reveal_strlit("--");
            reveal_strlit("X");
            reveal_strlit("/");
            reveal_strlit("");
        }
        match *self {
            Score::Normal(0) => String::from_str("--"),
            Score::Normal(p) => {
                let mut out = String::new();
                push_decimal(&mut out, p as u64);
                out
            },
            Score::Strike => String::from_str("X"),
            Score::Spare => String::from_str("/"),
            Score::Unscored => String::from_str(""),
        }
    }
}

/// The index of the last entry of `scores[0..n]` with the highest total.
pub open spec fn last_best(scores: Seq<(usize, usize)>, n: int) -> int
    decreases n,
{
    if n <= 1 {
        0
    } else {
        let b = last_best(scores, n - 1);
        if scores[n - 1].1 >= scores[b].1 {
            n - 1
        } else {
            b
        }
    }
}

/// The entry of `scores` with the highest total, the last such one where
/// several share it; none for no entry.
pub fn winner(scores: &Vec<(usize, usize)>) -> (r: Option<(usize, usize)>)
    ensures
        scores@.len() == 0 ==> r is None,
        scores@.len() > 0 ==> r == Some(scores@[last_best(scores@, scores@.len() as int)]),
        r is Some ==> exists|k: int|
            0 <= k < scores@.len() && scores@[k] == r->Some_0 && (forall|j: int|
                0 <= j < scores@.len() ==> (#[trigger] scores@[j]).1 <= scores@[k].1) && (forall|
                j: int,
            |
                k < j < scores@.len() ==> (#[trigger] scores@[j]).1 < scores@[k].1),
{
    if scores.len() == 0 {
        return None;
    }
    let mut best: usize = 0;
    let mut i: usize = 1;
    while i < scores.len()
        invariant
            1 <= i <= scores@.len(),
            best < i,
            best == last_best(scores@, i as int),
            forall|j: int| 0 <= j < i ==> (#[trigger] scores@[j]).1 <= scores@[best as int].1,
            forall|j: int| best < j < i ==> (#[trigger] scores@[j]).1 < scores@[best as int].1,
        decreases scores@.len() - i,
    {
        if scores[i].1 >= scores[best].1 {
            best = i;
        }
        i += 1;
    }
    Some(scores[best])
}

/// The first part of the game-over message, before the winner's number.
pub const GAME_OVER_OPEN: &'static str = "Game Over!\nPlayer ";

/// Between the winner's number and the winning score.
pub const GAME_OVER_SCORE: &'static str = " wins with a final score of: ";

/// The end of the game-over message.
pub const GAME_OVER_CLOSE: &'static str = "\n\n\n\n\nPlease Restart the Page to Return Home :)";

/// The game-over message naming `player` as the winner with `score`.
pub open spec fn game_over_text(player: usize, score: usize) -> Seq<char> {
    GAME_OVER_OPEN@ + decimal(player as nat) + GAME_OVER_SCORE@ + decimal(score as nat)
        + GAME_OVER_CLOSE@
}

/// The game-over message for the totals `scores`, naming the last player
/// with the highest total.
pub fn game_over_message(scores: &Vec<(usize, usize)>) -> (r: Option<String>)
    ensures
        scores@.len() == 0 ==> r is None,
        scores@.len() > 0 ==> r is Some && r->Some_0@ == game_over_text(
            scores@[last_best(scores@, scores@.len() as int)].0,
            scores@[last_best(scores@, scores@.len() as int)].1,
        ),
{
    match winner(scores) {
        Some((player, score)) => {
            let mut out = String::from_str(GAME_OVER_OPEN);
            push_decimal(&mut out, player as u64);
            out.append(GAME_OVER_SCORE);
            push_decimal(&mut out, score as u64);
            out.append(GAME_OVER_CLOSE);
            Some(out)
        },
        None => None,
    }
}

/// The top of a rendered scorecard.
pub const CARD_HEADER: &'static str = r#"
    +-------+----+----+----+----+----+----+----+----+----+----+
    | Plr # | 1  | 2  | 3  | 4  | 5  | 6  | 7  | 8  | 9  | 10 |
    +-------+----+----+----+----+----+----+----+----+----+----+"#;

/// The end of a rendered scorecard row.
pub const ROW_TAIL: &'static str = r#" |
    +-------+----+----+----+----+----+----+----+----+----+----+"#;

/// `t` centred in a field two characters wide, an odd space going right.
pub open spec fn centered2(t: Seq<char>) -> Seq<char> {
    if t.len() >= 2 {
        t
    } else if t.len() == 1 {
        t + " "@
    } else {
        "  "@
    }
}

/// The cell of frame `idx` holding `s`: hidden as `##` until the game reaches it.
pub open spec fn cell_text(v: BowlingView, idx: int, s: Score) -> Seq<char> {
    if idx + 1 <= v.frame_number {
        centered2(score_text(s))
    } else {
        "##"@
    }
}

/// The first `n` cells of `card`, separated by ` | `.
pub open spec fn cells_text(v: BowlingView, card: Seq<Score>, n: int) -> Seq<char>
    decreases n,
{
    if n <= 0 {
        Seq::empty()
    } else if n == 1 {
        cell_text(v, 0, card[0])
    } else {
        cells_text(v, card, n - 1) + " | "@ + cell_text(v, n - 1, card[n - 1])
    }
}

/// The marker before the row of `player`: an arrow for the player to throw.
pub open spec fn arrow_text(v: BowlingView, player: int) -> Seq<char> {
    if player == v.turn {
        "-->"@
    } else {
        "   "@
    }
}

/// The row of `player` on the rendered scorecard.
pub open spec fn row_text(v: BowlingView, player: int) -> Seq<char> {
    "\n"@ + arrow_text(v, player) + " |  "@ + centered2(decimal(player as nat)) + "   | "@
        + cells_text(v, v.scores[player], FRAMES as int) + ROW_TAIL@
}

/// The rows of players `0..n`.
pub open spec fn rows_text(v: BowlingView, n: int) -> Seq<char>
    decreases n,
{
    if n <= 0 {
        Seq::empty()
    } else {
        rows_text(v, n - 1) + row_text(v, n - 1)
    }
}

/// The rendered scorecard.
pub open spec fn render_text(v: BowlingView) -> Seq<char> {
    CARD_HEADER@ + rows_text(v, v.scores.len() as int)
}

fn push_centered2(out: &mut String, t: &str)
    ensures
        final(out)@ == old(out)@ + centered2(t@),
{
    let n = t.unicode_len();
    out.append(t);
    if n == 1 {
        out.append(" ");
    } else if n == 0 {
        out.append("  ");
    }
    assert(final(out)@ =~= old(out)@ + centered2(t@));
}

impl BowlingState {
    /// The scorecard as text: a header, then one row per player with an
    /// arrow at the player to throw and the frames reached so far.
    pub fn render(&self) -> (r: String)
        requires
            self@.wf(),
        ensures
            r@ == render_text(self@),
    {
        let mut out = String::from_str(CARD_HEADER);
        let n = self.player_frame_scores.len();
        let mut player: usize = 0;
        while player < n
            invariant
                self@.wf(),
                n == self@.scores.len(),
                player <= n,
                out@ == CARD_HEADER@ + rows_text(self@, player as int),
            decreases n - player,
        {
            let ghost before = out@;
            out.append("\n");
            if player == self.turn {
                out.append("-->");
            } else {
                out.append("   ");
            }
            out.append(" |  ");
            let number = decimal_string(player as u64);
            push_centered2(&mut out, number.as_str());
            out.append("   | ");
            let ghost row_start = out@;
            let card = self.player_frame_scores[player];
            assert(card@ == self@.scores[player as int]);
            let mut idx: usize = 0;
            while idx < FRAMES
                invariant
                    idx <= FRAMES,
                    card@.len() == FRAMES,
                    out@ == row_start + cells_text(self@, card@, idx as int),
                decreases FRAMES - idx,
            {
                if idx > 0 {
                    out.append(" | ");
                }
                if idx + 1 <= self.frame_number {
                    let text = card[idx].to_string();
                    push_centered2(&mut out, text.as_str());
                } else {
                    out.append("##");
                }
                idx += 1;
            }
            out.append(ROW_TAIL);
            assert(out@ =~= before + row_text(self@, player as int));
            player += 1;
        }
        out
    }
}

/// The shared game state handed to the game's systems.
#[derive(Debug, Clone)]
pub struct BowlingStateWrapper(BowlingState);

impl View for BowlingStateWrapper {
    type V = BowlingView;

    closed spec fn view(&self) -> BowlingView {
        self.0@
    }
}

impl Default for BowlingStateWrapper {
    fn default() -> (r: BowlingStateWrapper)
        ensures
            r@.wf(),
            r@ == (BowlingView {
                frame_number: 1,
                throw_num: 1,
                scores: seq![blank_card()],
                pins_down: 0,
                throw_done: false,
                turn: 0,
            }),
    {
        BowlingStateWrapper::new()
    }
}

impl BowlingStateWrapper {
    /// A game of one player at the first throw of the first frame.
    pub fn new() -> (r: BowlingStateWrapper)
        ensures
            r@.wf(),
            r@ == (BowlingView {
                frame_number: 1,
                throw_num: 1,
                scores: seq![blank_card()],
                pins_down: 0,
                throw_done: false,
                turn: 0,
            }),
    {
        BowlingStateWrapper(BowlingState::new())
    }

    /// Marks the current player's current frame as a spare.
    pub fn set_spare(&mut self)
        requires
            old(self)@.wf(),
        ensures
            final(self)@ == old(self)@.set_current(Score::Spare),
            final(self)@.wf(),
    {
        self.0.set_spare()
    }

    /// Marks the current player's current frame as a strike.
    pub fn set_strike(&mut self)
        requires
            old(self)@.wf(),
        ensures
            final(self)@ == old(self)@.set_current(Score::Strike),
            final(self)@.wf(),
    {
        self.0.set_strike()
    }

    /// Each player's number and total, in player order.
    pub fn get_score(&self) -> (r: Vec<(usize, usize)>)
        requires
            forall|p: int| 0 <= p < self@.scores.len() ==> all_scored(#[trigger] self@.scores[p]),
            forall|p: int| 0 <= p < self@.scores.len() ==> total(#[trigger] self@.scores[p]) <= usize::MAX,
        ensures
            r@.len() == self@.scores.len(),
            forall|p: int| 0 <= p < r@.len() ==> #[trigger] r@[p] == (p as usize, total(self@.scores[p]) as usize),
    {
        assert(self@ == self.0@);
        self.0.get_score()
    }

    /// Checks if the current throw is finished.
    pub fn is_throw_done(&self) -> (r: bool)
        ensures
            r == self@.throw_done,
    {
        self.0.is_throw_done()
    }

    /// Gets the current amount of pins downed.
    pub fn get_pins_down(&self) -> (r: u8)
        ensures
            r == self@.pins_down,
    {
        self.0.get_pins_down()
    }

    /// Returns the current throw.
    pub fn get_throw_num(&self) -> (r: u8)
        ensures
            r == self@.throw_num,
    {
        self.0.get_throw_num()
    }

    /// Ends the current throw and moves to the next one.
    pub fn inc_throw_num(&mut self)
        requires
            old(self)@.throw_num < u8::MAX,
        ensures
            final(self)@ == (BowlingView {
                throw_num: (old(self)@.throw_num + 1) as u8,
                throw_done: true,
                ..old(self)@
            }),
    {
        self.0.inc_throw_num()
    }

    /// Sets the current player's score for the current frame.
    pub fn set_score(&mut self, score: u8)
        requires
            old(self)@.wf(),
        ensures
            final(self)@ == old(self)@.set_current(Score::Normal(score as usize)),
            final(self)@.wf(),
    {
        self.0.set_score(score)
    }

    /// Passes the turn on; true once the game is over.
    pub fn inc_frame(&mut self) -> (r: bool)
        requires
            old(self)@.wf(),
        ensures
            (final(self)@, r) == old(self)@.next_turn(),
            final(self)@.wf(),
    {
        self.0.inc_frame()
    }

    /// Resets all triggers for a new throw.
    pub fn reset(&mut self)
        ensures
            final(self)@ == old(self)@.reset(),
    {
        self.0.reset()
    }

    /// Counts one more pin down.
    pub fn topple_pin(&mut self)
        requires
            old(self)@.pins_down < u8::MAX,
        ensures
            final(self)@ == (BowlingView { pins_down: (old(self)@.pins_down + 1) as u8, ..old(self)@ }),
    {
        self.0.topple_pin()
    }

    /// Toggles the throw status back.
    pub fn set_throw_not_done(&mut self)
        ensures
            final(self)@ == (BowlingView { throw_done: false, ..old(self)@ }),
    {
        self.0.set_throw_not_done()
    }

    /// Sets the number of players; every card starts blank.
    pub fn set_players(&mut self, num: usize)
        requires
            num >= 1,
            old(self)@.turn < num,
            old(self)@.wf(),
        ensures
            final(self)@ == (BowlingView { scores: Seq::new(num as nat, |i: int| blank_card()), ..old(self)@ }),
            final(self)@.wf(),
    {
        self.0.set_players(num)
    }

    /// Renders the current state as a scorecard.
    pub fn render(&self) -> (r: String)
        requires
            self@.wf(),
        ensures
            r@ == render_text(self@),
    {
        self.0.render()
    }

    /// Settles a finished throw; see `BowlingState::update_frame`.
    pub fn update_frame(&mut self) -> (r: Option<bool>)
        requires
            old(self)@.wf(),
        ensures
            (final(self)@, r) == old(self)@.update_frame(),
            final(self)@.wf(),
    {
        self.0.update_frame()
    }
}

} // verus!
