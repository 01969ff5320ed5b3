//! Tic-tac-toe against the bot, in the variant where a piece leaves the
//! board after standing for three turns.

use crate::gc_name::GcName;
use crate::handler::FnHandler;
use crate::msg::Msg;
use crate::text::{int_error_text, parse_error_kind, IntErrorKind, chars_eq_str, has_any, parse_usize, parse_usize_spec, split_spaces, split_on, views};
use vstd::string::*;
use dashmap::DashMap;
use vstd::prelude::*;

verus! {

/// One square: who holds it (0 nobody, 1 the player, 8 the bot) and for how
/// many turns the piece has stood.
#[derive(Clone, Copy)]
pub struct ChessData {
    chess_player: i16,
    chess_hand: i16,
}

impl View for ChessData {
    type V = (i16, i16);

    closed spec fn view(&self) -> (i16, i16) {
        (self.chess_player, self.chess_hand)
    }
}

impl ChessData {
    /// Who holds the square.
    pub fn player(&self) -> (r: i16)
        ensures
            r == self@.0,
    {
        self.chess_player
    }

    /// For how many turns the piece has stood.
    pub fn hand(&self) -> (r: i16)
        ensures
            r == self@.1,
    {
        self.chess_hand
    }
}

/// The squares of a board, row by row.
pub open spec fn board_view(b: Seq<ChessData>) -> Seq<(i16, i16)> {
    b.map_values(|c: ChessData| c@)
}

proof fn lemma_board_view(s: Seq<ChessData>)
    ensures
        board_view(s).len() == s.len(),
        forall|k: int| 0 <= k < s.len() ==> #[trigger] board_view(s)[k] == s[k]@,
{
}

/// A fresh board: nine empty squares.
pub open spec fn empty_board() -> Seq<(i16, i16)> {
    Seq::new(9, |i: int| (0i16, 0i16))
}

/// A square as the game leaves it: empty, or held by the player or the bot
/// for one to three turns.
pub open spec fn cell_ok(c: (i16, i16)) -> bool {
    (c.0 == 0 && c.1 == 0) || ((c.0 == 1 || c.0 == 8) && 1 <= c.1 && c.1 <= 3)
}

/// A board as the game leaves it.
pub open spec fn board_ok(b: Seq<(i16, i16)>) -> bool {
    b.len() == 9 && forall|i: int| 0 <= i < 9 ==> cell_ok(#[trigger] b[i])
}

/// A square after one turn: a piece that has stood three turns leaves,
/// others age by one.
pub open spec fn refreshed_cell(c: (i16, i16)) -> (i16, i16) {
    if c.0 == 0 || c.1 == 3 {
        (0i16, 0i16)
    } else {
        (c.0, (c.1 + 1) as i16)
    }
}

/// The board after one turn (the first nine squares age).
pub open spec fn refreshed(b: Seq<(i16, i16)>) -> Seq<(i16, i16)> {
    Seq::new(b.len(), |i: int| if i < 9 { refreshed_cell(b[i]) } else { b[i] })
}

/// Ageing the first nine squares does not overflow.
pub open spec fn refresh_defined(b: Seq<(i16, i16)>) -> bool {
    b.len() >= 9 && forall|i: int|
        0 <= i < 9 && !((#[trigger] b[i]).0 == 0 || b[i].1 == 3) ==> b[i].1 < i16::MAX
}

/// The board after `player` puts a fresh piece on square `i`.
pub open spec fn placed(b: Seq<(i16, i16)>, i: int, player: i16) -> Seq<(i16, i16)> {
    b.update(i, (player, 1i16))
}

/// Column and row (both from 1) that `chess_xy` finds for a square index;
/// it searches columns and rows 1 and 2 only and gives (0, 0) elsewhere.
pub open spec fn spec_xy(i: int) -> (int, int) {
    if i == 0 { (1, 1) }
    else if i == 1 { (2, 1) }
    else if i == 3 { (1, 2) }
    else if i == 4 { (2, 2) }
    else { (0, 0) }
}

/// Number (from 1) of the square at column `a`, row `b`.
pub open spec fn cell_number(a: int, b: int) -> int {
    a + (b - 1) * 3
}

/// Square index of column `x`, row `y` (both from 1).
pub open spec fn spec_yx(x: int, y: int) -> int {
    x + (y - 1) * 3 - 1
}

/// Sum of the owners of three squares.
pub open spec fn sum3(b: Seq<(i16, i16)>, a: int, c: int, d: int) -> int {
    b[a].0 + b[c].0 + b[d].0
}

/// The three-owner sum, computed left to right in `i16`, does not overflow.
pub open spec fn sum3_fits(b: Seq<(i16, i16)>, a: int, c: int, d: int) -> bool {
    i16::MIN <= b[a].0 + b[c].0 <= i16::MAX && i16::MIN <= sum3(b, a, c, d) <= i16::MAX
}

/// Score of a line: 100 when it holds two player pieces, 80 when it holds
/// one bot piece.
pub open spec fn line_bonus(s: int) -> int {
    (if s == 2 { 100int } else { 0int }) + (if s == 8 { 80int } else { 0int })
}

/// Factor by which a square's score is scaled: edges 2, corners and the
/// middle 3.
pub open spec fn square_factor(i: int) -> int {
    if i == 1 || i == 3 || i == 5 || i == 7 {
        2
    } else if i == 0 || i == 2 || i == 4 || i == 6 || i == 8 {
        3
    } else {
        4
    }
}

/// A corner square.
pub open spec fn is_corner(i: int) -> bool {
    i == 0 || i == 2 || i == 6 || i == 8
}

/// The bot's score for square `i`: 0 when taken, otherwise the scaled sum
/// of the bonuses of its row, its column and the diagonals that
/// `chess_judgment` looks at.
pub open spec fn weight(b: Seq<(i16, i16)>, i: int) -> int {
    if b[i].0 != 0 {
        0
    } else {
        let (x, y) = spec_xy(i);
        let row = sum3(b, spec_yx(1, y), spec_yx(2, y), spec_yx(3, y));
        let col = sum3(b, spec_yx(x, 1), spec_yx(x, 2), spec_yx(x, 3));
        let d1 = sum3(b, 0, 4, 8);
        let d2 = sum3(b, 2, 4, 6);
        let base = line_bonus(row) + line_bonus(col)
            + (if is_corner(i) && d1 == 2 { 100int } else { 0int })
            + (if is_corner(i) && d1 == 8 { 80int } else { 0int })
            + (if i == 5 && (d1 == 2 || d2 == 2) { 100int } else { 0int })
            + (if i == 5 && (d2 == 8 || d1 == 8) { 80int } else { 0int });
        base * square_factor(i)
    }
}

/// The scores of the nine squares.
pub open spec fn weights(b: Seq<(i16, i16)>) -> Seq<usize> {
    Seq::new(9, |i: int| weight(b, i) as usize)
}

/// `chess_judgment` runs without a panic: every empty square is one that
/// `chess_xy` locates, and the line sums it adds fit in `i16`.
pub open spec fn judgment_defined(b: Seq<(i16, i16)>) -> bool {
    &&& b.len() >= 9
    &&& forall|i: int| 0 <= i < 9 && (#[trigger] b[i]).0 == 0 ==> {
        let (x, y) = spec_xy(i);
        &&& (i == 0 || i == 1 || i == 3 || i == 4)
        &&& sum3_fits(b, spec_yx(1, y), spec_yx(2, y), spec_yx(3, y))
        &&& sum3_fits(b, spec_yx(x, 1), spec_yx(x, 2), spec_yx(x, 3))
        &&& (is_corner(i) ==> sum3_fits(b, 0, 4, 8))
    }
}

/// The index `chess_biggest` picks among the first `n` scores: it compares
/// each score with the index picked so far (not with that index's score).
pub open spec fn spec_biggest(w: Seq<usize>, n: int) -> int
    decreases n,
{
    if n <= 0 {
        0
    } else {
        let b = spec_biggest(w, n - 1);
        if w[n - 1] > b { n - 1 } else { b }
    }
}

/// A fresh board.
pub fn init_data() -> (r: Vec<ChessData>)
    ensures
        board_view(r@) == empty_board(),
{
    let mut v: Vec<ChessData> = Vec::new();
    let mut i: usize = 0;
    while i < 9
        invariant
            i <= 9,
            board_view(v@) == Seq::new(i as nat, |k: int| (0i16, 0i16)),
        decreases 9 - i,
    {
        let c = ChessData { chess_player: 0, chess_hand: 0 };
        assert(c@ == (0i16, 0i16));
        let ghost before = v@;
        v.push(c);
        assert(v@ == before.push(c));
        proof {
            lemma_board_view(v@);
            lemma_board_view(before);
            assert forall|k: int| 0 <= k < i + 1 implies board_view(v@)[k] == (0i16, 0i16) by {
                if k < i {
                    assert(v@[k] == before[k]);
                    assert(board_view(before)[k] == (0i16, 0i16));
                } else {
                    assert(v@[k] == c);
                }
            }
        }
        assert(board_view(v@) =~= Seq::new((i + 1) as nat, |k: int| (0i16, 0i16)));
        i = i + 1;
    }
    assert(board_view(v@) =~= empty_board());
    v
}

/// Column and row of a square, searched among columns and rows 1 and 2.
pub fn chess_xy(i: usize) -> (r: (usize, usize))
    requires
        i < usize::MAX,
    ensures
        r.0 as int == spec_xy(i as int).0,
        r.1 as int == spec_xy(i as int).1,
{
    let mut x: usize = 1;
    while x < 3
        invariant
            1 <= x <= 3,
            i < usize::MAX,
            forall|a: int, b: int| 1 <= a < x && 1 <= b < 3 ==> #[trigger] cell_number(a, b) != i + 1,
        decreases 3 - x,
    {
        let mut y: usize = 1;
        while y < 3
            invariant
                1 <= x < 3,
                1 <= y <= 3,
                i < usize::MAX,
                forall|a: int, b: int| 1 <= a < x && 1 <= b < 3 ==> #[trigger] cell_number(a, b) != i + 1,
                forall|b: int| 1 <= b < y ==> #[trigger] cell_number(x as int, b) != i + 1,
            decreases 3 - y,
        {
            if x + (y - 1) * 3 == i + 1 {
                return (x, y);
            }
            assert(cell_number(x as int, y as int) != i + 1);
            y = y + 1;
        }
        assert(cell_number(x as int, 1) != i + 1 && cell_number(x as int, 2) != i + 1);
        x = x + 1;
    }
    assert(cell_number(1, 1) != i + 1 && cell_number(1, 2) != i + 1);
    assert(cell_number(2, 1) != i + 1 && cell_number(2, 2) != i + 1);
    (0, 0)
}

/// Square index of column `x`, row `y`.
pub fn chess_yx(x: usize, y: usize) -> (r: usize)
    requires
        y >= 1,
        x + (y - 1) * 3 >= 1,
        x + (y - 1) * 3 <= usize::MAX,
    ensures
        r as int == spec_yx(x as int, y as int),
{
    (x + (y - 1) * 3) - 1
}

/// Index picked by comparing each of the first nine scores with the index
/// picked so far.
pub fn chess_biggest(weights: Vec<usize>) -> (r: usize)
    requires
        weights.len() >= 9,
    ensures
        r as int == spec_biggest(weights@, 9),
        r < 9,
{
    let mut best: usize = 0;
    let mut i: usize = 0;
    while i < 9
        invariant
            i <= 9,
            weights.len() >= 9,
            best as int == spec_biggest(weights@, i as int),
            best < 9,
        decreases 9 - i,
    {
        if weights[i] > best {
            best = i;
        }
        i = i + 1;
    }
    best
}

fn owner(cd: &Vec<ChessData>, i: usize) -> (r: i16)
    requires
        i < cd.len(),
    ensures
        r == board_view(cd@)[i as int].0,
{
    cd[i].chess_player
}

fn line_sum(cd: &Vec<ChessData>, a: usize, c: usize, d: usize) -> (r: i16)
    requires
        a < cd.len(),
        c < cd.len(),
        d < cd.len(),
        sum3_fits(board_view(cd@), a as int, c as int, d as int),
    ensures
        r as int == sum3(board_view(cd@), a as int, c as int, d as int),
{
    owner(cd, a) + owner(cd, c) + owner(cd, d)
}

fn bonus_of(s: i16) -> (r: usize)
    ensures
        r as int == line_bonus(s as int),
{
    let mut r: usize = 0;
    if s == 2 {
        r = r + 100;
    }
    if s == 8 {
        r = r + 80;
    }
    r
}

/// The score of one empty square.
fn square_weight(cd: &Vec<ChessData>, i: usize) -> (r: usize)
    requires
        i < 9,
        judgment_defined(board_view(cd@)),
        board_view(cd@)[i as int].0 == 0,
    ensures
        r as int == weight(board_view(cd@), i as int),
{
    let ghost b = board_view(cd@);
    assert(b[i as int].0 == 0);
    let (x, y) = chess_xy(i);
    let row = line_sum(cd, chess_yx(1, y), chess_yx(2, y), chess_yx(3, y));
    let col = line_sum(cd, chess_yx(x, 1), chess_yx(x, 2), chess_yx(x, 3));
    let mut count: usize = bonus_of(row) + bonus_of(col);
    let corner = i == 0 || i == 2 || i == 6 || i == 8;
    if corner {
        let d1 = line_sum(cd, 0, 4, 8);
        if d1 == 2 {
            count = count + 100;
        }
        if d1 == 8 {
            count = count + 80;
        }
    }
    assert(i != 5);
    if i == 1 || i == 3 || i == 5 || i == 7 {
        count = count * 2;
    } else if i == 0 || i == 2 || i == 4 || i == 6 || i == 8 {
        count = count * 3;
    } else {
        count = count * 4;
    }
    count
}

/// The bot's score for each of the nine squares.
pub fn chess_judgment(cd: &Vec<ChessData>) -> (r: Vec<usize>)
    requires
        judgment_defined(board_view(cd@)),
    ensures
        r@ == weights(board_view(cd@)),
{
    let ghost b = board_view(cd@);
    let mut v: Vec<usize> = Vec::new();
    let mut i: usize = 0;
    while i < 9
        invariant
            i <= 9,
            b == board_view(cd@),
            judgment_defined(b),
            v@ == weights(b).take(i as int),
        decreases 9 - i,
    {
        if cd[i].chess_player != 0 {
            v.push(0);
        } else {
            let w = square_weight(cd, i);
            v.push(w);
        }
        assert(v@ =~= weights(b).take(i + 1));
        i = i + 1;
    }
    assert(weights(b).take(9) =~= weights(b));
    v
}

/// Ages the pieces on the first nine squares by one turn; a piece that has
/// stood three turns leaves.
pub fn chess_refresh(chess_data: &mut Vec<ChessData>)
    requires
        refresh_defined(board_view(old(chess_data)@)),
    ensures
        board_view(final(chess_data)@) == refreshed(board_view(old(chess_data)@)),
{
    let ghost b0 = board_view(chess_data@);
    let mut i: usize = 0;
    while i < 9
        invariant
            i <= 9,
            b0 == board_view(old(chess_data)@),
            refresh_defined(b0),
            chess_data.len() == b0.len(),
            forall|k: int| 0 <= k < i ==> board_view(chess_data@)[k] == refreshed_cell(b0[k]),
            forall|k: int| i <= k < b0.len() ==> board_view(chess_data@)[k] == b0[k],
        decreases 9 - i,
    {
        let c = chess_data[i];
        assert(c@ == b0[i as int]);
        let ghost before = chess_data@;
        let n = if c.chess_player == 0 || c.chess_hand == 3 {
            ChessData { chess_player: 0, chess_hand: 0 }
        } else {
            ChessData { chess_player: c.chess_player, chess_hand: c.chess_hand + 1 }
        };
        assert(n@ == refreshed_cell(b0[i as int]));
        chess_data.set(i, n);
        assert(chess_data@ == before.update(i as int, n));
        proof {
            lemma_board_view(chess_data@);
            lemma_board_view(before);
        }
        assert forall|k: int| 0 <= k < i + 1 implies board_view(chess_data@)[k] == refreshed_cell(b0[k]) by {
            if k < i {
                assert(chess_data@[k] == before[k]);
                assert(board_view(before)[k] == refreshed_cell(b0[k]));
            } else {
                assert(chess_data@[k] == n);
            }
        }
        assert forall|k: int| i + 1 <= k < b0.len() implies board_view(chess_data@)[k] == b0[k] by {
            assert(chess_data@[k] == before[k]);
        }
        i = i + 1;
    }
    assert(board_view(chess_data@) =~= refreshed(b0));
}

/// Puts a fresh piece of `player` on square `i`.
pub fn chess_update(i: usize, chess_data: &mut Vec<ChessData>, player: i16)
    requires
        i < old(chess_data).len(),
    ensures
        board_view(final(chess_data)@) == placed(board_view(old(chess_data)@), i as int, player),
{
    chess_data.set(i, ChessData { chess_player: player, chess_hand: 1 });
    assert(board_view(chess_data@) =~= placed(board_view(old(chess_data)@), i as int, player));
}

/// Why a tic-tac-toe command was refused.
pub enum TttError {
    /// The square already holds a piece.
    Occupied,
    /// The player already has a game.
    GameExists,
    /// The player has no game.
    NoGame,
    /// The move is not a number.
    BadNumber(IntErrorKind),
}

impl TttError {
    /// The reply text for the error.
    pub fn text(&self) -> (r: String)
        ensures
            r@ == match self {
                TttError::Occupied => "此处已有棋子"@,
                TttError::GameExists => "已有正在进行的对局"@,
                TttError::NoGame => "没有正在进行的对局"@,
                TttError::BadNumber(k) => int_error_text(*k),
            },
    {
        match self {
            TttError::Occupied => String::from_str("此处已有棋子"),
            TttError::GameExists => String::from_str("已有正在进行的对局"),
            TttError::NoGame => String::from_str("没有正在进行的对局"),
            TttError::BadNumber(k) => k.text(),
        }
    }
}

/// `Ok` when square `i` is empty and has no piece age.
pub fn chess_check(i: usize, chess_data: &Vec<ChessData>) -> (r: Result<(), TttError>)
    requires
        i < chess_data.len(),
    ensures
        r is Ok <==> board_view(chess_data@)[i as int] == (0i16, 0i16),
        r matches Err(e) ==> e is Occupied,
{
    if chess_data[i].chess_player == 0 && chess_data[i].chess_hand == 0 {
        return Ok(());
    }
    Err(TttError::Occupied)
}


// ---------------------------------------------------------------------
// The table of running games
// ---------------------------------------------------------------------

/// A table without games.
pub open spec fn no_games() -> Map<i64, Seq<(i16, i16)>> {
    Map::empty()
}

/// The boards that a game table holds, by player.
pub uninterp spec fn ttt_games(m: DashMap<i64, Vec<ChessData>>) -> Map<i64, Seq<(i16, i16)>>;

/// `DashMap::new`: a table with no games.
#[verifier::external_body]
fn games_new() -> (r: DashMap<i64, Vec<ChessData>>)
    ensures
        ttt_games(r) == no_games(),
{
    DashMap::new()
}

/// `DashMap::contains_key`: whether the player has a game.
#[verifier::external_body]
fn games_contains(m: &DashMap<i64, Vec<ChessData>>, k: i64) -> (r: bool)
    ensures
        r == ttt_games(*m).contains_key(k),
{
    m.contains_key(&k)
}

/// `DashMap::insert`: stores the player's board, replacing any other.
#[verifier::external_body]
fn games_insert(m: &mut DashMap<i64, Vec<ChessData>>, k: i64, v: Vec<ChessData>)
    ensures
        ttt_games(*final(m)) == ttt_games(*old(m)).insert(k, board_view(v@)),
{
    m.insert(k, v);
}

/// `DashMap::remove`: drops the player's game; tells whether there was one.
#[verifier::external_body]
fn games_remove(m: &mut DashMap<i64, Vec<ChessData>>, k: i64) -> (r: bool)
    ensures
        r == ttt_games(*old(m)).contains_key(k),
        ttt_games(*final(m)) == ttt_games(*old(m)).remove(k),
{
    m.remove(&k).is_some()
}

/// `DashMap::get`: a copy of the player's board, if there is one.
#[verifier::external_body]
fn games_get(m: &DashMap<i64, Vec<ChessData>>, k: i64) -> (r: Option<Vec<ChessData>>)
    ensures
        r is Some <==> ttt_games(*m).contains_key(k),
        r matches Some(v) ==> board_view(v@) == ttt_games(*m)[k],
{
    match m.get(&k) {
        Some(entry) => Some(entry.value().clone()),
        None => None,
    }
}

/// The board after the player's piece goes on square `idx`.
pub open spec fn after_player_move(b: Seq<(i16, i16)>, idx: int) -> Seq<(i16, i16)> {
    placed(refreshed(b), idx, 1)
}

/// The board after the player's move on `idx` and the bot's answer.
pub open spec fn after_bot_move(b: Seq<(i16, i16)>, idx: int) -> Seq<(i16, i16)> {
    let b2 = after_player_move(b, idx);
    placed(b2, spec_biggest(weights(b2), 9), 8)
}

/// `ttt_main_sys` runs without a panic: a move that parses names one of
/// the nine squares of a game that exists, and when that square is free the
/// rest of the turn is defined.
pub open spec fn move_defined(g: Map<i64, Seq<(i16, i16)>>, raw: Seq<char>, uid: i64) -> bool {
    match parse_usize_spec(raw) {
        None => true,
        Some(n) => {
            &&& 1 <= n <= 9
            &&& g.contains_key(uid)
            &&& g[uid].len() >= 9
            &&& g[uid][n - 1] == (0i16, 0i16) ==> {
                &&& refresh_defined(g[uid])
                &&& judgment_defined(after_player_move(g[uid], n - 1))
            }
        },
    }
}

/// The games and the result after the move `raw` of player `uid`.
pub open spec fn move_result(g: Map<i64, Seq<(i16, i16)>>, raw: Seq<char>, uid: i64) -> (
    Map<i64, Seq<(i16, i16)>>,
    Result<(), TttError>,
) {
    match parse_usize_spec(raw) {
        None => (g, Err(TttError::BadNumber(parse_error_kind(raw, 0, usize::MAX as int)))),
        Some(n) => {
            if g[uid][n - 1] != (0i16, 0i16) {
                (g, Err(TttError::Occupied))
            } else {
                (g.insert(uid, after_bot_move(g[uid], n - 1)), Ok(()))
            }
        },
    }
}

/// One turn: the sender's move is the number in the message; the bot then
/// answers on the square it scores highest.
pub fn ttt_main_sys(msg: &Msg, chess_data: &mut DashMap<i64, Vec<ChessData>>) -> (r: Result<(), TttError>)
    requires
        move_defined(ttt_games(*old(chess_data)), msg.raw_message@, msg.sender.user_id),
    ensures
        (ttt_games(*final(chess_data)), r) == move_result(
            ttt_games(*old(chess_data)),
            msg.raw_message@,
            msg.sender.user_id,
        ),
{
    let raw = crate::text::chars_of(msg.raw_message.as_str());
    let n = match parse_usize(raw.as_slice()) {
        Err(k) => {
            return Err(TttError::BadNumber(k));
        },
        Ok(n) => n,
    };
    let index = n - 1;
    let uid = msg.sender.user_id;
    let mut board = match games_get(chess_data, uid) {
        Some(b) => b,
        None => {
            return Err(TttError::NoGame);
        },
    };
    proof {
        lemma_board_view(board@);
    }
    match chess_check(index, &board) {
        Ok(()) => {},
        Err(e) => {
            return Err(e);
        },
    }
    chess_refresh(&mut board);
    chess_update(index, &mut board, 1);
    let weight = chess_judgment(&board);
    let best = chess_biggest(weight);
    proof {
        lemma_board_view(board@);
    }
    chess_update(best, &mut board, 8);
    games_insert(chess_data, uid, board);
    Ok(())
}

/// Whether `b` meets `judgment_defined`.
fn judgment_defined_check(b: &Vec<ChessData>) -> (r: bool)
    ensures
        r == judgment_defined(board_view(b@)),
{
    proof {
        lemma_board_view(b@);
    }
    if b.len() < 9 {
        return false;
    }
    let ghost bv = board_view(b@);
    let mut i: usize = 0;
    while i < 9
        invariant
            i <= 9,
            b.len() >= 9,
            bv == board_view(b@),
            bv.len() == b.len(),
            forall|k: int| 0 <= k < i && (#[trigger] bv[k]).0 == 0 ==> {
                let (x, y) = spec_xy(k);
                &&& (k == 0 || k == 1 || k == 3 || k == 4)
                &&& sum3_fits(bv, spec_yx(1, y), spec_yx(2, y), spec_yx(3, y))
                &&& sum3_fits(bv, spec_yx(x, 1), spec_yx(x, 2), spec_yx(x, 3))
                &&& (is_corner(k) ==> sum3_fits(bv, 0, 4, 8))
            },
        decreases 9 - i,
    {
        if owner(b, i) == 0 {
            if !(i == 0 || i == 1 || i == 3 || i == 4) {
                return false;
            }
            let (x, y) = chess_xy(i);
            if !fits(b, chess_yx(1, y), chess_yx(2, y), chess_yx(3, y)) {
                return false;
            }
            if !fits(b, chess_yx(x, 1), chess_yx(x, 2), chess_yx(x, 3)) {
                return false;
            }
            if i == 0 && !fits(b, 0, 4, 8) {
                return false;
            }
        }
        i = i + 1;
    }
    true
}

fn fits(b: &Vec<ChessData>, a: usize, c: usize, d: usize) -> (r: bool)
    requires
        a < b.len(),
        c < b.len(),
        d < b.len(),
    ensures
        r == sum3_fits(board_view(b@), a as int, c as int, d as int),
{
    proof {
        lemma_board_view(b@);
    }
    let s2: i32 = owner(b, a) as i32 + owner(b, c) as i32;
    let s3: i32 = s2 + owner(b, d) as i32;
    -32768 <= s2 && s2 <= 32767 && -32768 <= s3 && s3 <= 32767
}

/// Whether `move_defined` holds for the sender's move in `msg`.
#[verifier::loop_isolation(false)]
pub fn move_defined_check(msg: &Msg, chess_data: &DashMap<i64, Vec<ChessData>>) -> (r: bool)
    ensures
        r == move_defined(ttt_games(*chess_data), msg.raw_message@, msg.sender.user_id),
{
    let raw = crate::text::chars_of(msg.raw_message.as_str());
    let n = match parse_usize(raw.as_slice()) {
        Err(_) => {
            return true;
        },
        Ok(n) => n,
    };
    if n < 1 || n > 9 {
        return false;
    }
    let board = match games_get(chess_data, msg.sender.user_id) {
        Some(b) => b,
        None => {
            return false;
        },
    };
    proof {
        lemma_board_view(board@);
    }
    if board.len() < 9 {
        return false;
    }
    let idx = n - 1;
    if !(board[idx].chess_player == 0 && board[idx].chess_hand == 0) {
        return true;
    }
    let mut i: usize = 0;
    while i < 9
        invariant
            i <= 9,
            board.len() >= 9,
            forall|k: int| 0 <= k < i && !((#[trigger] board_view(board@)[k]).0 == 0 || board_view(board@)[k].1 == 3)
                ==> board_view(board@)[k].1 < i16::MAX,
        decreases 9 - i,
    {
        proof {
            lemma_board_view(board@);
        }
        if !(board[i].chess_player == 0 || board[i].chess_hand == 3) && board[i].chess_hand == i16::MAX {
            assert(board_view(board@)[i as int] == board@[i as int]@);
            assert(!(board_view(board@)[i as int].0 == 0 || board_view(board@)[i as int].1 == 3));
            assert(!refresh_defined(board_view(board@)));
            return false;
        }
        i = i + 1;
    }
    let mut next = board;
    chess_refresh(&mut next);
    proof {
        lemma_board_view(next@);
    }
    chess_update(idx, &mut next, 1);
    judgment_defined_check(&next)
}

// ---------------------------------------------------------------------
// The handler
// ---------------------------------------------------------------------

/// The tic-tac-toe handler and the games it runs.
pub struct TTT {
    pub enable: bool,
    pub status: bool,
    pub data_map: DashMap<i64, Vec<ChessData>>,
    pub data_map_status: usize,
}

/// The at-mention that starts a command to the bot.
pub open spec fn bot_mention() -> Seq<char> {
    "[CQ:at,qq=1246137523]"@
}

/// `@bot /井字棋 <cmd>`: a command addressed to the game.
pub open spec fn is_ttt_command(raw: Seq<char>) -> bool {
    let t = split_on(raw, ' ');
    t.len() >= 3 && t[0] == bot_mention() && t[1] == "/井字棋"@
}

/// The second word of the message, if any.
pub open spec fn second_word(raw: Seq<char>) -> Option<Seq<char>> {
    let t = split_on(raw, ' ');
    if t.len() >= 2 { Some(t[1]) } else { None }
}

/// Counter after one more running game, wrapping as the atomic counter does.
pub open spec fn count_up(n: usize) -> usize {
    if n == usize::MAX { 0 } else { (n + 1) as usize }
}

/// Counter after one game fewer, wrapping as the atomic counter does.
pub open spec fn count_down(n: usize) -> usize {
    if n == 0 { usize::MAX } else { (n - 1) as usize }
}

/// `process` runs without a panic.
pub open spec fn process_defined(g: Map<i64, Seq<(i16, i16)>>, msg: Msg) -> bool {
    let cmd = second_word(msg.raw_message@);
    if cmd == Some("开始"@) {
        g.contains_key(msg.sender.user_id) || move_defined(
            g.insert(msg.user_id, empty_board()),
            msg.raw_message@,
            msg.sender.user_id,
        )
    } else if cmd == Some("取消"@) {
        true
    } else {
        move_defined(g, msg.raw_message@, msg.sender.user_id)
    }
}

/// Games, game counter and result after `process`.
pub open spec fn process_result(g: Map<i64, Seq<(i16, i16)>>, count: usize, msg: Msg) -> (
    Map<i64, Seq<(i16, i16)>>,
    usize,
    Result<(), TttError>,
) {
    let cmd = second_word(msg.raw_message@);
    if cmd == Some("开始"@) {
        if g.contains_key(msg.sender.user_id) {
            (g, count, Err(TttError::GameExists))
        } else {
            let g1 = g.insert(msg.user_id, empty_board());
            let (g2, r) = move_result(g1, msg.raw_message@, msg.sender.user_id);
            (g2, count_up(count), r)
        }
    } else if cmd == Some("取消"@) {
        if !g.contains_key(msg.sender.user_id) || !g.contains_key(msg.user_id) {
            (g, count, Err(TttError::NoGame))
        } else {
            (g.remove(msg.user_id), count_down(count), Ok(()))
        }
    } else {
        let (g2, r) = move_result(g, msg.raw_message@, msg.sender.user_id);
        (g2, count, r)
    }
}

fn second_word_is(words: &Vec<Vec<char>>, w: &str) -> (r: bool)
    ensures
        r == (views(words@).len() >= 2 && views(words@)[1] == w@),
{
    if words.len() < 2 {
        return false;
    }
    chars_eq_str(words[1].as_slice(), w)
}

impl TTT {
    /// A handler with no games; `enable` says whether it may run at all.
    pub fn new(enable: bool) -> (r: TTT)
        ensures
            r.enable == enable,
            !r.status,
            ttt_games(r.data_map) == no_games(),
            r.data_map_status == 0,
    {
        TTT { enable, status: false, data_map: games_new(), data_map_status: 0 }
    }

    /// Whether the message is for the game: a command to it, or a move
    /// (a message with a digit 1–9) of a player who has a game while some
    /// game runs.
    pub fn matches(&self, msg: &Msg) -> (r: bool)
        ensures
            r == (is_ttt_command(msg.raw_message@) || (self.data_map_status != 0
                && crate::text::contains_any(msg.raw_message@, "123456789"@)
                && ttt_games(self.data_map).contains_key(msg.sender.user_id))),
    {
        let words = split_spaces(msg.raw_message.as_str());
        let mut cmd = false;
        if words.len() >= 3 {
            if chars_eq_str(words[0].as_slice(), "[CQ:at,qq=1246137523]") {
                cmd = second_word_is(&words, "/井字棋");
            }
        }
        if cmd {
            return true;
        }
        let raw = crate::text::chars_of(msg.raw_message.as_str());
        self.data_map_status != 0 && has_any(raw.as_slice(), "123456789")
            && games_contains(&self.data_map, msg.sender.user_id)
    }

    /// Starts (`开始`) or cancels (`取消`) the sender's game, or plays the
    /// move in the message.
    pub fn process(&mut self, msg: &Msg) -> (r: Result<(), TttError>)
        requires
            process_defined(ttt_games(old(self).data_map), *msg),
        ensures
            (ttt_games(final(self).data_map), final(self).data_map_status, r) == process_result(
                ttt_games(old(self).data_map),
                old(self).data_map_status,
                *msg,
            ),
            final(self).enable == old(self).enable,
            final(self).status == old(self).status,
    {
        let words = split_spaces(msg.raw_message.as_str());
        if second_word_is(&words, "开始") {
            if games_contains(&self.data_map, msg.sender.user_id) {
                return Err(TttError::GameExists);
            }
            games_insert(&mut self.data_map, msg.user_id, init_data());
            self.data_map_status = if self.data_map_status == usize::MAX { 0 } else { self.data_map_status + 1 };
        } else if second_word_is(&words, "取消") {
            if !games_contains(&self.data_map, msg.sender.user_id) {
                return Err(TttError::NoGame);
            }
            if !games_remove(&mut self.data_map, msg.user_id) {
                return Err(TttError::NoGame);
            }
            self.data_map_status = if self.data_map_status == 0 { usize::MAX } else { self.data_map_status - 1 };
            return Ok(());
        }
        ttt_main_sys(msg, &mut self.data_map)
    }

    /// Whether `process_defined` holds for `msg`.
    pub fn can_process(&self, msg: &Msg) -> (r: bool)
        ensures
            r == process_defined(ttt_games(self.data_map), *msg),
    {
        let words = split_spaces(msg.raw_message.as_str());
        if second_word_is(&words, "开始") {
            if games_contains(&self.data_map, msg.sender.user_id) {
                return true;
            }
            proof {
                crate::text::lemma_split_two_has_sep(msg.raw_message@, ' ');
                crate::text::lemma_spaced_text_is_no_number(msg.raw_message@, 0, usize::MAX as int);
            }
            true
        } else if second_word_is(&words, "取消") {
            true
        } else {
            move_defined_check(msg, &self.data_map)
        }
    }

    /// Marks the handler ready.
    pub fn init(&mut self)
        ensures
            final(self).status,
            final(self).enable == old(self).enable,
            final(self).data_map_status == old(self).data_map_status,
            ttt_games(final(self).data_map) == ttt_games(old(self).data_map),
    {
        self.status = true;
    }

    /// Enabled and ready.
    pub fn status(&self) -> (r: bool)
        ensures
            r == (self.enable && self.status),
    {
        self.enable && self.status
    }

    /// Help text.
    pub fn help(&self, _helps: &str) -> (r: String)
        ensures
            r@ == "开发中"@,
    {
        String::from_str("开发中")
    }

    /// Display name.
    pub fn name(&self) -> (r: String)
        ensures
            r@ == "井字棋"@,
    {
        String::from_str("井字棋")
    }
}

impl FnHandler for TTT {
    open spec fn spec_matches(&self, names: &GcName, msg: &Msg) -> bool {
        is_ttt_command(msg.raw_message@) || (self.data_map_status != 0 && crate::text::contains_any(
            msg.raw_message@,
            "123456789"@,
        ) && ttt_games(self.data_map).contains_key(msg.sender.user_id))
    }

    open spec fn spec_status(&self) -> bool {
        self.enable && self.status
    }

    open spec fn spec_name(&self) -> Seq<char> {
        "井字棋"@
    }

    open spec fn spec_help(&self, helps: Seq<char>) -> Seq<char> {
        "开发中"@
    }

    fn matches(&self, names: &GcName, msg: &Msg) -> (r: bool) {
        TTT::matches(self, msg)
    }

    fn status(&self) -> (r: bool) {
        TTT::status(self)
    }

    fn help(&self, helps: &str) -> (r: String) {
        TTT::help(self, helps)
    }

    fn name(&self) -> (r: String) {
        TTT::name(self)
    }
}

// ---------------------------------------------------------------------
// Laws of the board
// ---------------------------------------------------------------------

/// A fresh board is a board as the game leaves it.
pub proof fn law_empty_board_ok()
    ensures
        board_ok(empty_board()),
{
}

/// Ageing keeps a board well formed.
pub proof fn law_refresh_keeps_ok(b: Seq<(i16, i16)>)
    requires
        board_ok(b),
    ensures
        refresh_defined(b),
        board_ok(refreshed(b)),
{
    assert forall|i: int| 0 <= i < 9 implies cell_ok(#[trigger] refreshed(b)[i]) by {
        assert(cell_ok(b[i]));
    }
}

/// Placing a player's or the bot's piece keeps a board well formed.
pub proof fn law_place_keeps_ok(b: Seq<(i16, i16)>, i: int, player: i16)
    requires
        board_ok(b),
        0 <= i < 9,
        player == 1 || player == 8,
    ensures
        board_ok(placed(b, i, player)),
{
    assert forall|k: int| 0 <= k < 9 implies cell_ok(#[trigger] placed(b, i, player)[k]) by {
        if k != i {
            assert(cell_ok(b[k]));
        }
    }
}

/// A piece leaves the board on the third turn after it was placed: three
/// turns of ageing empty the square it was put on.
pub proof fn law_piece_leaves_after_three_turns(b: Seq<(i16, i16)>, i: int, player: i16)
    requires
        b.len() >= 9,
        0 <= i < 9,
        player == 1 || player == 8,
    ensures
        refreshed(placed(b, i, player))[i] == (player, 2i16),
        refreshed(refreshed(placed(b, i, player)))[i] == (player, 3i16),
        refreshed(refreshed(refreshed(placed(b, i, player))))[i] == (0i16, 0i16),
{
}

/// `chess_yx` undoes `chess_xy` on the squares that `chess_xy` locates.
pub proof fn law_yx_undoes_xy(i: int)
    requires
        i == 0 || i == 1 || i == 3 || i == 4,
    ensures
        spec_yx(spec_xy(i).0, spec_xy(i).1) == i,
{
}

/// On a well formed board a square may take a piece exactly when nobody
/// holds it.
pub proof fn law_check_means_unowned(b: Seq<(i16, i16)>, i: int)
    requires
        board_ok(b),
        0 <= i < 9,
    ensures
        (b[i] == (0i16, 0i16)) == (b[i].0 == 0),
{
    assert(cell_ok(b[i]));
}

/// The bot's scores depend only on who holds each square, not on how old
/// the pieces are: two boards (on which scoring runs) with the same owners
/// score the same.
pub proof fn law_scores_depend_on_owners(b1: Seq<(i16, i16)>, b2: Seq<(i16, i16)>)
    requires
        judgment_defined(b1),
        b2.len() >= 9,
        forall|k: int| 0 <= k < 9 ==> (#[trigger] b1[k]).0 == b2[k].0,
    ensures
        weights(b1) == weights(b2),
{
    assert forall|i: int| 0 <= i < 9 implies weight(b1, i) == weight(b2, i) by {
        assert(b1[i].0 == b2[i].0);
        if b1[i].0 == 0 {
            assert(i == 0 || i == 1 || i == 3 || i == 4);
            assert(b1[0].0 == b2[0].0 && b1[1].0 == b2[1].0 && b1[2].0 == b2[2].0);
            assert(b1[3].0 == b2[3].0 && b1[4].0 == b2[4].0 && b1[5].0 == b2[5].0);
            assert(b1[6].0 == b2[6].0 && b1[7].0 == b2[7].0 && b1[8].0 == b2[8].0);
        }
    }
    assert(weights(b1) =~= weights(b2));
}

} // verus!
