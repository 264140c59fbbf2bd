use vstd::prelude::*;
use crate::draw::{render_text, text_drawing, Color, DrawCommand, Frame};
use crate::globals::{FONT_SIZE, PLACE_BUTTON, RESET_KEY, START_KEY, TILES_HEIGHT, TILES_WIDTH};
use crate::inputhandler::{keyboard_key, mouse_key, InputEvent, InputHandler, InputModel};
use crate::tile::{tile_drawing, tile_index, Tile, TileState};

verus! {

/// The screen that the game is on.
#[derive(Copy, Clone, Debug, PartialEq, Eq, Structural)]
pub enum GameState {
    Start,
    Playing,
    Gameover,
}

/// What the platform's loop hands to the game.
#[derive(Copy, Clone, Debug, PartialEq, Eq, Structural)]
pub enum GameEvent {
    /// The player did something.
    Input(InputEvent),
    /// Time has passed: the game is to move on.
    Update,
    /// A frame is due.
    Render,
    /// Anything else.
    Other,
}

/// The marks on a board, tile by tile.
pub open spec fn marks_of(board: Seq<Tile>) -> Seq<TileState> {
    Seq::new(board.len(), |i: int| board[i].mark())
}

/// The player who moves after `player`.
pub open spec fn opponent(player: TileState) -> TileState {
    if player == TileState::Circle {
        TileState::Cross
    } else {
        TileState::Circle
    }
}

/// The lines of three tiles, by flat index, in the order in which they are
/// checked: column 0, row 0, column 1, row 1, column 2, row 2, the diagonal
/// from the upper left, and the diagonal from the upper right.
pub open spec fn winning_line(k: int) -> (int, int, int) {
    if k == 6 {
        (0, 4, 8)
    } else if k == 7 {
        (2, 4, 6)
    } else if k % 2 == 0 {
        (k / 2, k / 2 + 3, k / 2 + 6)
    } else {
        (k / 2 * 3, k / 2 * 3 + 1, k / 2 * 3 + 2)
    }
}

/// The mark that fills `line`: the one that all three tiles hold, or `Empty`
/// where they differ or are empty.
pub open spec fn line_mark(marks: Seq<TileState>, line: (int, int, int)) -> TileState {
    if marks[line.0] == marks[line.1] && marks[line.1] == marks[line.2] {
        marks[line.0]
    } else {
        TileState::Empty
    }
}

/// Whether the line `k` is filled with one player's mark.
pub open spec fn line_matches(marks: Seq<TileState>, k: int) -> bool {
    line_mark(marks, winning_line(k)) != TileState::Empty
}

/// The last line, in the order of checking, that is filled with one player's
/// mark.
pub open spec fn last_match(marks: Seq<TileState>) -> Option<int> {
    if line_matches(marks, 7) {
        Some(7)
    } else if line_matches(marks, 6) {
        Some(6)
    } else if line_matches(marks, 5) {
        Some(5)
    } else if line_matches(marks, 4) {
        Some(4)
    } else if line_matches(marks, 3) {
        Some(3)
    } else if line_matches(marks, 2) {
        Some(2)
    } else if line_matches(marks, 1) {
        Some(1)
    } else if line_matches(marks, 0) {
        Some(0)
    } else {
        None
    }
}

/// The last of the first `n` lines that is filled with one player's mark.
spec fn last_match_among(marks: Seq<TileState>, n: int) -> Option<int>
    decreases n,
{
    if n <= 0 {
        None
    } else if line_matches(marks, n - 1) {
        Some(n - 1)
    } else {
        last_match_among(marks, n - 1)
    }
}

/// What is drawn for the tile `i` of a board: nothing while it is empty, and
/// a shape on its place once it holds a mark.
pub open spec fn tile_piece(marks: Seq<TileState>, i: int) -> Seq<DrawCommand> {
    match tile_drawing(marks[i], i % 3, i / 3) {
        Some(drawing) => seq![drawing],
        None => Seq::empty(),
    }
}

/// What is drawn for the first `n` tiles of a board, row by row.
spec fn tile_pieces(marks: Seq<TileState>, n: int) -> Seq<DrawCommand>
    decreases n,
{
    if n <= 0 {
        Seq::empty()
    } else {
        tile_pieces(marks, n - 1) + tile_piece(marks, n - 1)
    }
}

/// What is drawn for a board, tile by tile and row by row.
pub open spec fn tile_drawings(marks: Seq<TileState>) -> Seq<DrawCommand> {
    tile_piece(marks, 0) + tile_piece(marks, 1) + tile_piece(marks, 2) + tile_piece(marks, 3)
        + tile_piece(marks, 4) + tile_piece(marks, 5) + tile_piece(marks, 6) + tile_piece(
        marks,
        7,
    ) + tile_piece(marks, 8)
}

/// The line that says whose turn it is.
pub open spec fn turn_text(player: TileState) -> &'static str {
    if player == TileState::Circle {
        "Player O turn."
    } else {
        "Player X turn."
    }
}

/// The line that says how the game ended.
pub open spec fn winner_text(winner: TileState) -> &'static str {
    if winner == TileState::Circle {
        "Player O Winner."
    } else if winner == TileState::Cross {
        "Player X Winner."
    } else {
        "It's a Draw!"
    }
}

/// One where `holds`, and zero where not.
pub open spec fn one_if(holds: bool) -> int {
    if holds {
        1
    } else {
        0
    }
}

/// How many of the nine tiles of a board hold `mark`.
pub open spec fn count_of(marks: Seq<TileState>, mark: TileState) -> int {
    one_if(marks[0] == mark) + one_if(marks[1] == mark) + one_if(marks[2] == mark) + one_if(
        marks[3] == mark,
    ) + one_if(marks[4] == mark) + one_if(marks[5] == mark) + one_if(marks[6] == mark) + one_if(
        marks[7] == mark,
    ) + one_if(marks[8] == mark)
}

/// Whether no tile of a board is empty.
pub open spec fn is_full(marks: Seq<TileState>) -> bool {
    forall|i: int| 0 <= i < 9 ==> marks[i] != TileState::Empty
}

/// A game as plain values: the nine marks row by row, who moves next, who has
/// won, and the screen.
pub struct GameModel {
    pub marks: Seq<TileState>,
    pub player: TileState,
    pub winner: TileState,
    pub state: GameState,
}

impl GameModel {
    /// A game has nine tiles, and the player to move is Cross or Circle.
    pub open spec fn wf(self) -> bool {
        &&& self.marks.len() == 9
        &&& self.player != TileState::Empty
    }

    /// The marks came by taking turns, Cross first: with Cross to move the
    /// board holds as many crosses as circles, and with Circle to move one
    /// cross more.
    pub open spec fn balanced(self) -> bool {
        count_of(self.marks, TileState::Cross) == count_of(self.marks, TileState::Circle) + one_if(
            self.player == TileState::Circle,
        )
    }

    /// A new game: an empty board, Cross to move, nobody has won, and the
    /// start screen is up.
    pub open spec fn initial() -> GameModel {
        GameModel {
            marks: Seq::new(9, |i: int| TileState::Empty),
            player: TileState::Cross,
            winner: TileState::Empty,
            state: GameState::Start,
        }
    }

    /// After the tile `index` was pressed: an empty tile of the board takes
    /// the mark of the player to move, and the turn passes on; any other
    /// press changes nothing.
    pub open spec fn pressed(self, index: int) -> GameModel {
        if 0 <= index < 9 && self.marks[index] == TileState::Empty {
            GameModel {
                marks: self.marks.update(index, self.player),
                player: opponent(self.player),
                ..self
            }
        } else {
            self
        }
    }

    /// After one line of `marks` was checked: a line filled with one player's
    /// mark makes that player the winner and ends the game.
    pub open spec fn line_checked(self, marks: Seq<TileState>, line: (int, int, int)) -> GameModel {
        if line_mark(marks, line) != TileState::Empty {
            GameModel { winner: line_mark(marks, line), state: GameState::Gameover, ..self }
        } else {
            self
        }
    }

    /// After the board was looked over for a win or a draw: the last filled
    /// line of the eight names the winner and ends the game; a full board
    /// ends the game too, and leaves the winner as it is.
    pub open spec fn evaluated(self) -> GameModel {
        match last_match(self.marks) {
            Some(k) => GameModel {
                winner: line_mark(self.marks, winning_line(k)),
                state: GameState::Gameover,
                ..self
            },
            None => if is_full(self.marks) {
                GameModel { state: GameState::Gameover, ..self }
            } else {
                self
            },
        }
    }

    /// After one update, with `input` as the input seen so far. The start
    /// screen waits for the start key. While playing, a press of the mouse
    /// button presses the tile under the cursor, and the board is looked over
    /// in any case. After the game, the reset key brings a new game. The
    /// press that was asked for is handed out.
    pub open spec fn updated(self, input: InputModel) -> (GameModel, InputModel) {
        match self.state {
            GameState::Start => {
                let key = keyboard_key(START_KEY);
                if input.is_pressed(key) {
                    (GameModel { state: GameState::Playing, ..self }, input.served(key))
                } else {
                    (self, input.served(key))
                }
            },
            GameState::Playing => {
                let key = mouse_key(PLACE_BUTTON);
                if input.is_pressed(key) {
                    let index = tile_index(input.cursor.0 as int, input.cursor.1 as int);
                    (self.pressed(index).evaluated(), input.served(key))
                } else {
                    (self.evaluated(), input.served(key))
                }
            },
            GameState::Gameover => {
                let key = keyboard_key(RESET_KEY);
                if input.is_pressed(key) {
                    (GameModel::initial(), input.served(key))
                } else {
                    (self, input.served(key))
                }
            },
        }
    }

    /// The frame that shows the game: a white ground; on the start screen a
    /// prompt; while playing the marks and whose turn it is; after the game
    /// the marks, a banner, how it ended, and a prompt.
    pub open spec fn frame(self) -> Seq<DrawCommand> {
        let ground = seq![DrawCommand::Clear { color: Color::White }];
        match self.state {
            GameState::Start => ground.push(text_drawing(FONT_SIZE, "Press E to start.", (12, 12))),
            GameState::Playing => (ground + tile_drawings(self.marks)).push(
                text_drawing(FONT_SIZE, turn_text(self.player), (12, 12)),
            ),
            GameState::Gameover => (ground + tile_drawings(self.marks)).push(
                text_drawing(FONT_SIZE, "GAME FKN OVER MAN", (125, 50)),
            ).push(text_drawing(FONT_SIZE, winner_text(self.winner), (125, 125))).push(
                text_drawing(FONT_SIZE, "Press R to reset.", (125, 250)),
            ),
        }
    }

    /// After `event` came from the platform's loop: input is taken in, an
    /// update moves the game on, and anything else changes nothing.
    pub open spec fn handled(self, input: InputModel, event: GameEvent) -> (GameModel, InputModel) {
        match event {
            GameEvent::Input(input_event) => (self, input.updated(input_event)),
            GameEvent::Update => self.updated(input),
            GameEvent::Render => (self, input),
            GameEvent::Other => (self, input),
        }
    }
}

/// Whether the three tiles all hold `mark`.
spec fn all_hold(tiles: [Tile; 3], mark: TileState) -> bool {
    tiles[0].mark() == mark && tiles[1].mark() == mark && tiles[2].mark() == mark
}

/// The game after its first `n` lines were checked: the last filled line
/// among them names the winner.
spec fn lines_checked(game: GameModel, n: int) -> GameModel {
    match last_match_among(game.marks, n) {
        Some(k) => GameModel {
            winner: line_mark(game.marks, winning_line(k)),
            state: GameState::Gameover,
            ..game
        },
        None => game,
    }
}

/// Checking the line `n` after the first `n` lines gives what checking the
/// first `n + 1` lines gives.
proof fn lemma_line_checked(game: GameModel, n: int)
    requires
        0 <= n < 8,
    ensures
        lines_checked(game, n).marks == game.marks,
        lines_checked(game, n).line_checked(game.marks, winning_line(n)) == lines_checked(
            game,
            n + 1,
        ),
{
}

/// The last filled line is the line `k` exactly when `k` is one of the eight
/// lines, is filled, and no line after it is filled.
pub proof fn lemma_last_match(marks: Seq<TileState>, k: int)
    ensures
        last_match(marks) == Some(k) <==> 0 <= k < 8 && line_matches(marks, k) && forall|j: int|
            k < j < 8 ==> !line_matches(marks, j),
        last_match(marks) is None <==> forall|j: int| 0 <= j < 8 ==> !line_matches(marks, j),
{
}

/// Going through the eight lines one by one finds the last filled line.
proof fn lemma_last_match_among(marks: Seq<TileState>)
    ensures
        last_match_among(marks, 8) == last_match(marks),
{
    reveal_with_fuel(last_match_among, 9);
}

/// Going through the nine tiles one by one gives what is drawn for the board.
proof fn lemma_tile_pieces(marks: Seq<TileState>)
    ensures
        tile_pieces(marks, 9) == tile_drawings(marks),
{
    reveal_with_fuel(tile_pieces, 10);
}

/// What a look over the board comes to. It leaves the marks and the turn as
/// they are. Where a line is filled, the game is over and the winner is the
/// player whose mark fills the last filled line. Where no line is filled, the
/// winner stays as it was, and the game is over only if the board is full: a
/// draw, where nobody had won before.
pub proof fn lemma_evaluated(game: GameModel)
    ensures
        game.evaluated().marks == game.marks,
        game.evaluated().player == game.player,
        last_match(game.marks) matches Some(k) ==> line_matches(game.marks, k)
            && game.evaluated().state == GameState::Gameover && game.evaluated().winner
            == line_mark(game.marks, winning_line(k)) && game.evaluated().winner
            != TileState::Empty,
        last_match(game.marks) is None ==> game.evaluated().winner == game.winner,
        last_match(game.marks) is None && is_full(game.marks) ==> game.evaluated().state
            == GameState::Gameover,
        last_match(game.marks) is None && !is_full(game.marks) ==> game.evaluated().state
            == game.state,
{
}

/// A mark stays until the board is cleared: no press and no look over the
/// board changes a tile that holds a mark, and nothing that comes from the
/// platform does, but the update that takes the reset key after a game.
pub proof fn lemma_marks_stay(
    game: GameModel,
    input: InputModel,
    event: GameEvent,
    index: int,
    i: int,
)
    requires
        game.wf(),
        0 <= i < 9,
        game.marks[i] != TileState::Empty,
    ensures
        game.pressed(index).marks[i] == game.marks[i],
        game.evaluated().marks[i] == game.marks[i],
        !(game.state == GameState::Gameover && input.is_pressed(keyboard_key(RESET_KEY)))
            ==> game.updated(input).0.marks[i] == game.marks[i],
        !(game.state == GameState::Gameover && input.is_pressed(keyboard_key(RESET_KEY)) && event
            == GameEvent::Update) ==> game.handled(input, event).0.marks[i] == game.marks[i],
{
}

/// The reset clears the board: an update that takes the reset key after a
/// game brings a new game, with every tile empty.
pub proof fn lemma_reset_clears(game: GameModel, input: InputModel, i: int)
    requires
        game.wf(),
        0 <= i < 9,
        game.state == GameState::Gameover,
        input.is_pressed(keyboard_key(RESET_KEY)),
    ensures
        game.updated(input).0 == GameModel::initial(),
        game.updated(input).0.marks[i] == TileState::Empty,
{
}

/// A press on a tile that holds a mark changes nothing, and neither does a
/// press off the board.
pub proof fn lemma_press_ignored(game: GameModel, index: int)
    requires
        !(0 <= index < 9) || game.marks[index] != TileState::Empty,
    ensures
        game.pressed(index) == game,
{
}

/// The players take turns: a press on an empty tile of the board puts the
/// mark of the player to move there, leaves every other tile as it was, and
/// passes the turn from Cross to Circle and from Circle to Cross.
pub proof fn lemma_players_alternate(game: GameModel, index: int)
    requires
        game.wf(),
        0 <= index < 9,
        game.marks[index] == TileState::Empty,
    ensures
        game.pressed(index).marks[index] == game.player,
        forall|i: int| 0 <= i < 9 && i != index ==> game.pressed(index).marks[i] == game.marks[i],
        game.player == TileState::Cross ==> game.pressed(index).player == TileState::Circle,
        game.player == TileState::Circle ==> game.pressed(index).player == TileState::Cross,
        game.pressed(index).player != game.player,
        game.pressed(index).winner == game.winner,
        game.pressed(index).state == game.state,
{
}

/// The screens follow each other in one order: an update leaves the start
/// screen only for the game, the game only for its end, and the end only for
/// the start screen; the game begins with the start key and no other way, and
/// ends exactly when the board holds a filled line or is full.
pub proof fn lemma_screens_follow(game: GameModel, input: InputModel)
    requires
        game.wf(),
    ensures
        game.state == GameState::Start && input.is_pressed(keyboard_key(START_KEY))
            ==> game.updated(input).0.state == GameState::Playing,
        game.state == GameState::Start && !input.is_pressed(keyboard_key(START_KEY))
            ==> game.updated(input).0.state == GameState::Start,
        game.state == GameState::Playing && (last_match(game.updated(input).0.marks) is Some
            || is_full(game.updated(input).0.marks)) ==> game.updated(input).0.state
            == GameState::Gameover,
        game.state == GameState::Playing && last_match(game.updated(input).0.marks) is None
            && !is_full(game.updated(input).0.marks) ==> game.updated(input).0.state
            == GameState::Playing,
        game.state == GameState::Gameover && input.is_pressed(keyboard_key(RESET_KEY))
            ==> game.updated(input).0.state == GameState::Start,
        game.state == GameState::Gameover && !input.is_pressed(keyboard_key(RESET_KEY))
            ==> game.updated(input).0.state == GameState::Gameover,
{
}

/// A new mark on one tile changes the count of the mark that leaves the tile
/// and the count of the mark that comes, and no other.
proof fn lemma_count_after_update(
    marks: Seq<TileState>,
    index: int,
    value: TileState,
    mark: TileState,
)
    requires
        marks.len() == 9,
        0 <= index < 9,
    ensures
        count_of(marks.update(index, value), mark) == count_of(marks, mark) - one_if(
            marks[index] == mark,
        ) + one_if(value == mark),
{
    if index == 0 {
    } else if index == 1 {
    } else if index == 2 {
    } else if index == 3 {
    } else if index == 4 {
    } else if index == 5 {
    } else if index == 6 {
    } else if index == 7 {
    } else {
    }
}

/// A press keeps the balance of the marks.
proof fn lemma_press_balanced(game: GameModel, index: int)
    requires
        game.wf(),
        game.balanced(),
    ensures
        game.pressed(index).balanced(),
{
    if 0 <= index < 9 && game.marks[index] == TileState::Empty {
        lemma_count_after_update(game.marks, index, game.player, TileState::Cross);
        lemma_count_after_update(game.marks, index, game.player, TileState::Circle);
    }
}

/// A look over the board keeps the balance of the marks.
proof fn lemma_evaluated_balanced(game: GameModel)
    requires
        game.balanced(),
    ensures
        game.evaluated().balanced(),
{
    lemma_evaluated(game);
}

/// Play keeps the balance of the marks: a new game is balanced, and a game
/// that is stays so whatever is pressed and whatever comes from the platform.
/// So the numbers of crosses and of circles never differ by more than one.
pub proof fn lemma_balance_kept(game: GameModel, input: InputModel, event: GameEvent, index: int)
    requires
        game.wf(),
        game.balanced(),
    ensures
        GameModel::initial().balanced(),
        game.pressed(index).balanced(),
        game.evaluated().balanced(),
        game.updated(input).0.balanced(),
        game.handled(input, event).0.balanced(),
        0 <= count_of(game.marks, TileState::Cross) - count_of(game.marks, TileState::Circle) <= 1,
{
    lemma_press_balanced(game, index);
    lemma_evaluated_balanced(game);
    let under_cursor = tile_index(input.cursor.0 as int, input.cursor.1 as int);
    lemma_press_balanced(game, under_cursor);
    lemma_evaluated_balanced(game.pressed(under_cursor));
}

/// Whatever happens, a game stays a game: nine tiles, and Cross or Circle
/// to move.
pub proof fn lemma_wf_kept(game: GameModel, input: InputModel, event: GameEvent, index: int)
    requires
        game.wf(),
    ensures
        GameModel::initial().wf(),
        game.pressed(index).wf(),
        game.evaluated().wf(),
        game.updated(input).0.wf(),
        game.handled(input, event).0.wf(),
{
}

/// A game of tic-tac-toe.
pub struct TicTacToe {
    board: [Tile; 9],
    current_winner: TileState,
    current_player: TileState,
    current_game_state: GameState,
}

impl View for TicTacToe {
    type V = GameModel;

    closed spec fn view(&self) -> GameModel {
        GameModel {
            marks: marks_of(self.board@),
            player: self.current_player,
            winner: self.current_winner,
            state: self.current_game_state,
        }
    }
}

impl TicTacToe {
    /// Every tile lies where its index says, row by row, and the player to
    /// move is Cross or Circle.
    #[verifier::type_invariant]
    spec fn well_formed(&self) -> bool {
        &&& self.current_player != TileState::Empty
        &&& forall|i: int|
            0 <= i < 9 ==> (#[trigger] self.board[i]).column() == i % 3 && self.board[i].row() == i
                / 3
    }

    /// A game in play on a board that holds `marks`, row by row, with Cross
    /// to move.
    pub fn from_marks(marks: [TileState; 9]) -> (game: TicTacToe)
        ensures
            game@ == (GameModel {
                marks: marks@,
                player: TileState::Cross,
                winner: TileState::Empty,
                state: GameState::Playing,
            }),
            game@.wf(),
    {
        let mut board = TicTacToe::init_board();
        let mut i: usize = 0;
        while i < 9
            invariant
                i <= 9,
                forall|j: int| 0 <= j < i ==> (#[trigger] board[j]).mark() == marks[j],
                forall|j: int| i <= j < 9 ==> (#[trigger] board[j]).mark() == TileState::Empty,
                forall|j: int|
                    0 <= j < 9 ==> (#[trigger] board[j]).column() == j % 3 && board[j].row() == j
                        / 3,
            decreases 9 - i,
        {
            let mut tile = board[i];
            tile.set_value(marks[i]);
            board[i] = tile;
            i = i + 1;
        }
        let game = TicTacToe {
            board,
            current_winner: TileState::Empty,
            current_player: TileState::Cross,
            current_game_state: GameState::Playing,
        };
        assert(game@.marks =~= marks@);
        game
    }

    /// The tiles of the board, row by row.
    pub fn board(&self) -> (board: &[Tile; 9])
        ensures
            marks_of(board@) == self@.marks,
            forall|i: int|
                0 <= i < 9 ==> (#[trigger] board[i]).column() == i % 3 && board[i].row() == i / 3,
    {
        proof {
            use_type_invariant(self);
        }
        &self.board
    }

    /// The player to move: Cross or Circle.
    pub fn current_player(&self) -> (player: TileState)
        ensures
            player == self@.player,
            player != TileState::Empty,
    {
        proof {
            use_type_invariant(self);
        }
        self.current_player
    }

    /// The player who has won; `Empty` while nobody has, and after a draw.
    pub fn current_winner(&self) -> (winner: TileState)
        ensures
            winner == self@.winner,
    {
        self.current_winner
    }

    /// The screen that the game is on.
    pub fn current_game_state(&self) -> (state: GameState)
        ensures
            state == self@.state,
    {
        self.current_game_state
    }

    /// A new game.
    pub fn new() -> (game: TicTacToe)
        ensures
            game@ == GameModel::initial(),
            game@.wf(),
    {
        let game = TicTacToe {
            board: TicTacToe::init_board(),
            current_winner: TileState::Empty,
            current_player: TileState::Cross,
            current_game_state: GameState::Start,
        };
        assert(game@.marks =~= GameModel::initial().marks);
        game
    }

    /// Nine empty tiles, row by row: the tile `i` lies in column `i % 3` and
    /// row `i / 3`.
    pub fn init_board() -> (board: [Tile; 9])
        ensures
            forall|i: int| 0 <= i < 9 ==> (#[trigger] board[i]).mark() == TileState::Empty,
            forall|i: int| 0 <= i < 9 ==> (#[trigger] board[i]).column() == i % 3,
            forall|i: int| 0 <= i < 9 ==> (#[trigger] board[i]).row() == i / 3,
    {
        let mut x: i8 = 0;
        let mut y: i8 = 0;
        let mut tiles_array: [Tile; 9] = [Tile::new(0, 0); 9];
        let mut i: usize = 0;
        while i < 9
            invariant
                i <= 9,
                x == i % 3,
                y == i / 3,
                forall|j: int| 0 <= j < i ==> (#[trigger] tiles_array[j]).mark() == TileState::Empty,
                forall|j: int| 0 <= j < i ==> (#[trigger] tiles_array[j]).column() == j % 3,
                forall|j: int| 0 <= j < i ==> (#[trigger] tiles_array[j]).row() == j / 3,
            decreases 9 - i,
        {
            tiles_array[i] = Tile::new(x, y);
            if x >= TILES_WIDTH - 1 {
                x = 0;
                y = y + 1;
            } else {
                x = x + 1;
            }
            i = i + 1;
        }
        tiles_array
    }

    /// Places the mark of the player to move on the tile `index_pressed` and
    /// passes the turn on. A press on a tile that holds a mark, or off the
    /// board, is ignored.
    pub fn press_tile(&mut self, index_pressed: u64)
        ensures
            final(self)@ == old(self)@.pressed(index_pressed as int),
            index_pressed >= 9 || old(self)@.marks[index_pressed as int] != TileState::Empty
                ==> final(self)@ == old(self)@,
            index_pressed < 9 && old(self)@.marks[index_pressed as int] == TileState::Empty
                ==> final(self)@.marks[index_pressed as int] == old(self)@.player,
            index_pressed < 9 && old(self)@.marks[index_pressed as int] == TileState::Empty
                ==> final(self)@.player == opponent(old(self)@.player) && final(self)@.player
                != old(self)@.player,
            final(self)@.wf(),
    {
        proof {
            use_type_invariant(&*self);
        }
        if index_pressed < 9 {
            let index: usize = index_pressed as usize;
            if self.board[index].can_set() {
                let mut tile = self.board[index];
                tile.set_value(self.current_player);
                self.board[index] = tile;
                self.current_player = if self.current_player == TileState::Circle {
                    TileState::Cross
                } else {
                    TileState::Circle
                };
                assert(self@.marks =~= old(self)@.pressed(index_pressed as int).marks);
            }
        }
    }

    /// Clears the board and goes back to the start screen.
    pub fn reset_board(&mut self)
        ensures
            final(self)@ == GameModel::initial(),
            final(self)@.wf(),
    {
        proof {
            use_type_invariant(&*self);
        }
        self.current_winner = TileState::Empty;
        self.current_player = TileState::Cross;
        self.current_game_state = GameState::Start;
        let mut i: usize = 0;
        while i < 9
            invariant
                i <= 9,
                self.current_winner == TileState::Empty,
                self.current_player == TileState::Cross,
                self.current_game_state == GameState::Start,
                forall|j: int| 0 <= j < i ==> (#[trigger] self.board[j]).mark() == TileState::Empty,
                forall|j: int|
                    0 <= j < 9 ==> (#[trigger] self.board[j]).column() == j % 3
                        && self.board[j].row() == j / 3,
            decreases 9 - i,
        {
            let mut tile = self.board[i];
            tile.reset();
            self.board[i] = tile;
            i = i + 1;
        }
        assert(self@.marks =~= GameModel::initial().marks);
    }

    fn matching(current_board: [Tile; 3], player_value: TileState) -> (mark: TileState)
        ensures
            all_hold(current_board, player_value) ==> mark == player_value,
            !all_hold(current_board, player_value) ==> mark == TileState::Empty,
    {
        if current_board[0].is_value(player_value) && current_board[1].is_value(player_value)
            && current_board[2].is_value(player_value) {
            player_value
        } else {
            TileState::Empty
        }
    }

    /// Checks one line of `current_board`, given by the flat indices of its
    /// three tiles.
    pub fn matches_winning_conditions(
        &mut self,
        current_board: [Tile; 9],
        tile_tuple: (usize, usize, usize),
    )
        requires
            tile_tuple.0 < 9,
            tile_tuple.1 < 9,
            tile_tuple.2 < 9,
        ensures
            final(self)@ == old(self)@.line_checked(
                marks_of(current_board@),
                (tile_tuple.0 as int, tile_tuple.1 as int, tile_tuple.2 as int),
            ),
            final(self)@.wf(),
    {
        proof {
            use_type_invariant(&*self);
        }
        let (first, second, third): (usize, usize, usize) = tile_tuple;
        let compare_arr = [current_board[first], current_board[second], current_board[third]];
        let circle_row = TicTacToe::matching(compare_arr, TileState::Circle);
        let cross_row = TicTacToe::matching(compare_arr, TileState::Cross);
        if circle_row != TileState::Empty {
            self.current_winner = circle_row;
            self.current_game_state = GameState::Gameover;
        } else if cross_row != TileState::Empty {
            self.current_winner = cross_row;
            self.current_game_state = GameState::Gameover;
        }
    }

    /// Looks the board over for a win or a draw.
    pub fn evaluate_winning_conditions(&mut self)
        ensures
            final(self)@ == old(self)@.evaluated(),
            final(self)@.marks == old(self)@.marks,
            final(self)@.player == old(self)@.player,
            final(self)@.wf(),
    {
        let ghost before = self@;
        let mut i: usize = 0;
        while i < 3
            invariant
                i <= 3,
                self@ == lines_checked(before, 2 * i),
            decreases 3 - i,
        {
            /* Column */
            let column_first: usize = i;
            let column_second: usize = i + TILES_HEIGHT as usize;
            let column_third: usize = i + TILES_HEIGHT as usize * 2;
            let column_input_tuple: (usize, usize, usize) = (
                column_first,
                column_second,
                column_third,
            );
            let board = self.board;
            proof {
                lemma_line_checked(before, 2 * i);
            }
            self.matches_winning_conditions(board, column_input_tuple);

            /* Row */
            let row_first: usize = i * TILES_HEIGHT as usize;
            let row_second: usize = i * TILES_HEIGHT as usize + 1;
            let row_third: usize = i * TILES_HEIGHT as usize + 2;
            let row_input_tuple: (usize, usize, usize) = (row_first, row_second, row_third);
            let board = self.board;
            proof {
                lemma_line_checked(before, 2 * i + 1);
            }
            self.matches_winning_conditions(board, row_input_tuple);
            i = i + 1;
        }

        /* Diagonal */
        let falling_input_tuple: (usize, usize, usize) = (0, 4, 8);
        let board = self.board;
        proof {
            lemma_line_checked(before, 6);
        }
        self.matches_winning_conditions(board, falling_input_tuple);

        let rising_input_tuple: (usize, usize, usize) = (2, 4, 6);
        let board = self.board;
        proof {
            lemma_line_checked(before, 7);
        }
        self.matches_winning_conditions(board, rising_input_tuple);

        /* Draw */
        let mut draw = true;
        let mut j: usize = 0;
        while j < 9
            invariant
                j <= 9,
                draw == forall|k: int|
                    0 <= k < j ==> (#[trigger] self.board[k]).mark() != TileState::Empty,
            decreases 9 - j,
        {
            if self.board[j].is_value(TileState::Empty) {
                draw = false;
            }
            j = j + 1;
        }
        proof {
            use_type_invariant(&*self);
            lemma_last_match_among(before.marks);
            assert(draw == is_full(before.marks)) by {
                assert(forall|k: int|
                    0 <= k < 9 ==> before.marks[k] == (#[trigger] self.board[k]).mark());
            }
        }
        if draw {
            self.current_game_state = GameState::Gameover;
        }
    }

    /// Moves the game on by one update: asks `input` for the press that the
    /// screen waits for, and acts on it.
    pub fn update(&mut self, input: &mut InputHandler)
        ensures
            (final(self)@, final(input)@) == old(self)@.updated(old(input)@),
            final(self)@.wf(),
    {
        proof {
            use_type_invariant(&*self);
        }
        match self.current_game_state {
            GameState::Start => {
                if input.is_keyboard_pressed(START_KEY) {
                    self.current_game_state = GameState::Playing;
                }
            },
            GameState::Playing => {
                if input.is_mouse_pressed(PLACE_BUTTON) {
                    let (cursor_x_position, cursor_y_position): (u32, u32) =
                        input.cursor_position();
                    let index: u64 = Tile::calculate_tile_index(
                        cursor_x_position,
                        cursor_y_position,
                    );
                    self.press_tile(index);
                }
                self.evaluate_winning_conditions();
            },
            GameState::Gameover => {
                if input.is_keyboard_pressed(RESET_KEY) {
                    self.reset_board();
                }
            },
        }
    }

    fn render_tiles(&self, frame: &mut Frame)
        ensures
            final(frame)@ == old(frame)@ + tile_drawings(self@.marks),
    {
        proof {
            use_type_invariant(self);
        }
        let mut i: usize = 0;
        while i < 9
            invariant
                i <= 9,
                frame@ == old(frame)@ + tile_pieces(self@.marks, i as int),
                forall|j: int|
                    0 <= j < 9 ==> (#[trigger] self.board[j]).column() == j % 3
                        && self.board[j].row() == j / 3,
            decreases 9 - i,
        {
            match self.board[i].render() {
                Some(drawing) => {
                    frame.push(drawing);
                },
                None => {},
            }
            i = i + 1;
        }
        proof {
            lemma_tile_pieces(self@.marks);
        }
    }

    /// The frame that shows the game, as the commands that draw it, in order.
    pub fn render(&self) -> (frame: Frame)
        ensures
            frame@ == self@.frame(),
    {
        let mut frame: Frame = Vec::new();
        frame.push(DrawCommand::Clear { color: Color::White });
        match self.current_game_state {
            GameState::Start => {
                frame.push(render_text(FONT_SIZE, "Press E to start.", [12, 12]));
            },
            GameState::Playing => {
                self.render_tiles(&mut frame);
                let player_turn_text = if self.current_player == TileState::Circle {
                    "Player O turn."
                } else {
                    "Player X turn."
                };
                frame.push(render_text(FONT_SIZE, player_turn_text, [12, 12]));
            },
            GameState::Gameover => {
                self.render_tiles(&mut frame);
                frame.push(render_text(FONT_SIZE, "GAME FKN OVER MAN", [125, 50]));
                let player_winner = if self.current_winner == TileState::Circle {
                    "Player O Winner."
                } else if self.current_winner == TileState::Cross {
                    "Player X Winner."
                } else {
                    "It's a Draw!"
                };
                frame.push(render_text(FONT_SIZE, player_winner, [125, 125]));
                frame.push(render_text(FONT_SIZE, "Press R to reset.", [125, 250]));
            },
        }
        frame
    }

    /// Takes one event of the platform's loop: input goes to `input`, an
    /// update moves the game on, and a frame that is due is handed back to be
    /// drawn.
    pub fn handle_event(
        &mut self,
        input: &mut InputHandler,
        event: &GameEvent,
    ) -> (frame: Option<Frame>)
        ensures
            (final(self)@, final(input)@) == old(self)@.handled(old(input)@, *event),
            final(self)@.wf(),
            *event == GameEvent::Render ==> frame is Some,
            *event != GameEvent::Render ==> frame is None,
            frame matches Some(commands) ==> commands@ == old(self)@.frame(),
    {
        proof {
            use_type_invariant(&*self);
        }
        match event {
            GameEvent::Input(input_event) => {
                input.update(input_event);
                None
            },
            GameEvent::Render => Some(self.render()),
            GameEvent::Update => {
                self.update(input);
                None
            },
            GameEvent::Other => None,
        }
    }
}

} // verus!
