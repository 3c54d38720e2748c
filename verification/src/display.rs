//! How the board is drawn: the colour behind each tile, the text on it and
//! the colour of that text.

use vstd::prelude::*;
use crate::decimal::{all_digits, decimal_string, digits_value, lemma_decimal_canonical, spec_decimal};

verus! {

/// Number of cells on a side of the board.
pub const CELL_SIDE_NUM: usize = 4;

/// The background colour of a cell, one per tile value; `Null` for an empty
/// cell or a value that has no colour of its own.
#[derive(Clone, Copy, Debug, PartialEq, Eq, Structural)]
pub enum CellColor {
    Cell2,
    Cell4,
    Cell8,
    Cell16,
    Cell32,
    Cell64,
    Cell128,
    Cell256,
    Cell512,
    Cell1024,
    Cell2048,
    Null,
}

/// The colour of the number written on a cell.
#[derive(Clone, Copy, Debug, PartialEq, Eq, Structural)]
pub enum TextColor {
    Brown,
    White,
}

/// The background colour for a cell that holds `value`.
pub open spec fn spec_cell_color(value: u32) -> CellColor {
    match value {
        2 => CellColor::Cell2,
        4 => CellColor::Cell4,
        8 => CellColor::Cell8,
        16 => CellColor::Cell16,
        32 => CellColor::Cell32,
        64 => CellColor::Cell64,
        128 => CellColor::Cell128,
        256 => CellColor::Cell256,
        512 => CellColor::Cell512,
        1024 => CellColor::Cell1024,
        2048 => CellColor::Cell2048,
        _ => CellColor::Null,
    }
}

/// Whether `value` is a tile that has a colour of its own: a power of two from 2 to 2048.
pub open spec fn is_colored_tile(value: u32) -> bool {
    value == 2 || value == 4 || value == 8 || value == 16 || value == 32 || value == 64
        || value == 128 || value == 256 || value == 512 || value == 1024 || value == 2048
}

/// Picks the background colour of a cell from the value it holds.
pub fn cell_color(value: u32) -> (c: CellColor)
    ensures
        c == spec_cell_color(value),
        c == CellColor::Null <==> !is_colored_tile(value),
        value == 2 ==> c == CellColor::Cell2,
        value == 4 ==> c == CellColor::Cell4,
        value == 8 ==> c == CellColor::Cell8,
        value == 16 ==> c == CellColor::Cell16,
        value == 32 ==> c == CellColor::Cell32,
        value == 64 ==> c == CellColor::Cell64,
        value == 128 ==> c == CellColor::Cell128,
        value == 256 ==> c == CellColor::Cell256,
        value == 512 ==> c == CellColor::Cell512,
        value == 1024 ==> c == CellColor::Cell1024,
        value == 2048 ==> c == CellColor::Cell2048,
{
    match value {
        2 => CellColor::Cell2,
        4 => CellColor::Cell4,
        8 => CellColor::Cell8,
        16 => CellColor::Cell16,
        32 => CellColor::Cell32,
        64 => CellColor::Cell64,
        128 => CellColor::Cell128,
        256 => CellColor::Cell256,
        512 => CellColor::Cell512,
        1024 => CellColor::Cell1024,
        2048 => CellColor::Cell2048,
        _ => CellColor::Null,
    }
}

/// The tile colours in order, each followed by the colour of the tile twice as big.
pub open spec fn next_color(c: CellColor) -> CellColor {
    match c {
        CellColor::Cell2 => CellColor::Cell4,
        CellColor::Cell4 => CellColor::Cell8,
        CellColor::Cell8 => CellColor::Cell16,
        CellColor::Cell16 => CellColor::Cell32,
        CellColor::Cell32 => CellColor::Cell64,
        CellColor::Cell64 => CellColor::Cell128,
        CellColor::Cell128 => CellColor::Cell256,
        CellColor::Cell256 => CellColor::Cell512,
        CellColor::Cell512 => CellColor::Cell1024,
        CellColor::Cell1024 => CellColor::Cell2048,
        _ => CellColor::Null,
    }
}

/// The smallest tile, 2, has the first colour, and merging two equal tiles
/// into one twice as big moves its colour one step along the order, until
/// the tiles above 2048, which have no colour of their own.
pub proof fn lemma_tile_colors_follow_doubling(v: u32)
    requires
        is_colored_tile(v),
    ensures
        spec_cell_color(2) == CellColor::Cell2,
        v < 2048 ==> is_colored_tile((2 * v) as u32),
        v < 2048 ==> spec_cell_color((2 * v) as u32) == next_color(spec_cell_color(v)),
        v == 2048 ==> spec_cell_color(4096) == CellColor::Null,
{
}

/// Two different tiles are never drawn in the same colour.
pub proof fn lemma_tile_colors_distinct(a: u32, b: u32)
    requires
        is_colored_tile(a),
        is_colored_tile(b),
        a != b,
    ensures
        spec_cell_color(a) != spec_cell_color(b),
        spec_cell_color(a) != CellColor::Null,
{
}

/// The colour of the number on a cell: white on the tiles above 4, brown below.
pub open spec fn spec_text_color(value: u32) -> TextColor {
    if value > 4 {
        TextColor::White
    } else {
        TextColor::Brown
    }
}

/// The text written on a cell while playing: the number, or nothing on an empty cell.
pub open spec fn spec_cell_text(value: u32) -> Seq<char> {
    if value == 0 {
        Seq::empty()
    } else {
        spec_decimal(value as nat)
    }
}

/// What one cell of the board shows after a turn.
pub struct CellView {
    /// The text written on the cell.
    pub text: String,
    /// The colour to give that text; `None` keeps the one it had.
    pub text_color: Option<TextColor>,
    /// The colour behind the cell.
    pub background: CellColor,
}

/// Whether `view` is what a cell holding `value` shows after a turn.
pub open spec fn shows(view: CellView, value: u32) -> bool {
    &&& view.text@ == spec_cell_text(value)
    &&& view.text_color == (if value == 0 { None } else { Some(spec_text_color(value)) })
    &&& view.background == spec_cell_color(value)
}

/// What a cell shows after a turn, said of the value itself: an empty cell
/// shows no text and keeps its text colour; any other cell shows the
/// canonical decimal of its value (digits only, no leading zero), white when
/// the value is above 4 and brown when it is 4 or less.
pub proof fn lemma_cell_shows_its_value(view: CellView, value: u32)
    requires
        shows(view, value),
    ensures
        view.text@.len() == 0 <==> value == 0,
        value != 0 ==> all_digits(view.text@),
        value != 0 ==> digits_value(view.text@) == value,
        value != 0 ==> view.text@[0] != '0',
        view.text_color is None <==> value == 0,
        value != 0 ==> (view.text_color == Some(TextColor::White) <==> value > 4),
        value != 0 ==> (view.text_color == Some(TextColor::Brown) <==> value <= 4),
{
    lemma_decimal_canonical(value as nat);
}

/// What a cell holding `value` shows after a turn. An empty cell gets no
/// text and keeps the text colour it had.
pub fn cell_view(value: u32) -> (view: CellView)
    ensures
        shows(view, value),
        view.text@.len() == 0 <==> value == 0,
        value != 0 ==> all_digits(view.text@),
        value != 0 ==> digits_value(view.text@) == value,
        value != 0 ==> view.text@[0] != '0',
        view.text_color is None <==> value == 0,
        value != 0 ==> (view.text_color == Some(TextColor::White) <==> value > 4),
        value != 0 ==> (view.text_color == Some(TextColor::Brown) <==> value <= 4),
{
    let background = cell_color(value);
    let view = if value != 0 {
        let text_color = if value > 4 {
            TextColor::White
        } else {
            TextColor::Brown
        };
        CellView { text: decimal_string(value), text_color: Some(text_color), background }
    } else {
        CellView { text: String::new(), text_color: None, background }
    };
    proof {
        lemma_cell_shows_its_value(view, value);
    }
    view
}

/// The text written on a cell when the board is first laid out: `2` on a
/// cell holding 2, nothing elsewhere.
pub fn initial_cell_text(value: u32) -> (text: String)
    ensures
        text@ == (if value == 2 { seq!['2'] } else { Seq::<char>::empty() }),
        text@.len() == 0 <==> value != 2,
        value == 2 ==> digits_value(text@) == value && all_digits(text@),
{
    if value == 2 {
        proof {
            reveal_strlit("2");
            lemma_decimal_canonical(2);
            assert(spec_decimal(2) =~= seq!['2']);
        }
        String::from_str("2")
    } else {
        String::new()
    }
}

/// The row and column of the cell drawn at place `i`, the cells being
/// drawn row by row.
pub open spec fn spec_position(i: int) -> (int, int) {
    (i / CELL_SIDE_NUM as int, i % CELL_SIDE_NUM as int)
}

/// The row and column of the cell drawn at place `i`.
pub fn cell_position(i: usize) -> (pos: (usize, usize))
    ensures
        pos.0 == spec_position(i as int).0,
        pos.1 == spec_position(i as int).1,
        i < 16 ==> pos.0 < 4 && pos.1 < 4 && 4 * pos.0 + pos.1 == i,
{
    (i / CELL_SIDE_NUM, i % CELL_SIDE_NUM)
}

/// The places `0` to `15` reach every cell of the board once: cell
/// `(r, c)` is drawn at place `4 * r + c`, and only there.
pub proof fn lemma_positions_cover_board(i: int, r: int, c: int)
    requires
        0 <= i < 16,
        0 <= r < 4,
        0 <= c < 4,
    ensures
        0 <= spec_position(i).0 < 4,
        0 <= spec_position(i).1 < 4,
        spec_position(4 * r + c) == (r, c),
        spec_position(i) == (r, c) <==> i == 4 * r + c,
{
}

/// Whether `board` has the four rows of four cells that are drawn.
pub open spec fn board_covers_cells(board: Seq<Vec<u32>>) -> bool {
    &&& board.len() >= CELL_SIDE_NUM
    &&& forall|r: int| 0 <= r < CELL_SIDE_NUM ==> #[trigger] board[r]@.len() >= CELL_SIDE_NUM
}

/// The value of the cell drawn at place `i`.
pub open spec fn value_at(board: Seq<Vec<u32>>, i: int) -> u32 {
    board[spec_position(i).0]@[spec_position(i).1]
}

/// On a board drawn by `board_views`, the view at place `4 * r + c` shows the
/// cell in row `r` and column `c`: no text on an empty cell, else the
/// canonical decimal of its value, white above 4 and brown otherwise, on
/// that value's background.
pub proof fn lemma_board_view_shows_cell(board: Seq<Vec<u32>>, views: Seq<CellView>, r: int, c: int)
    requires
        board_covers_cells(board),
        views.len() == CELL_SIDE_NUM * CELL_SIDE_NUM,
        forall|i: int| 0 <= i < views.len() ==> shows(#[trigger] views[i], value_at(board, i)),
        0 <= r < 4,
        0 <= c < 4,
    ensures
        views[4 * r + c].text@.len() == 0 <==> board[r]@[c] == 0,
        board[r]@[c] != 0 ==> all_digits(views[4 * r + c].text@),
        board[r]@[c] != 0 ==> digits_value(views[4 * r + c].text@) == board[r]@[c],
        board[r]@[c] != 0 ==> (views[4 * r + c].text_color == Some(TextColor::White) <==> board[r]@[c] > 4),
        board[r]@[c] != 0 ==> (views[4 * r + c].text_color == Some(TextColor::Brown) <==> board[r]@[c] <= 4),
        board[r]@[c] == 0 ==> views[4 * r + c].text_color is None,
        views[4 * r + c].background == spec_cell_color(board[r]@[c]),
{
    lemma_positions_cover_board(4 * r + c, r, c);
    lemma_cell_shows_its_value(views[4 * r + c], board[r]@[c]);
}

/// What each of the sixteen cells shows after a turn, in the order they are drawn.
pub fn board_views(board: &Vec<Vec<u32>>) -> (views: Vec<CellView>)
    requires
        board_covers_cells(board@),
    ensures
        views@.len() == CELL_SIDE_NUM * CELL_SIDE_NUM,
        forall|i: int| 0 <= i < views@.len() ==> shows(#[trigger] views@[i], value_at(board@, i)),
        forall|r: int, c: int|
            0 <= r < 4 && 0 <= c < 4 ==> value_at(board@, 4 * r + c) == #[trigger] board@[r]@[c],
{
    let mut views: Vec<CellView> = Vec::new();
    let mut i: usize = 0;
    while i < CELL_SIDE_NUM * CELL_SIDE_NUM
        invariant
            i <= CELL_SIDE_NUM * CELL_SIDE_NUM,
            board_covers_cells(board@),
            views@.len() == i,
            forall|k: int| 0 <= k < i ==> shows(#[trigger] views@[k], value_at(board@, k)),
        decreases CELL_SIDE_NUM * CELL_SIDE_NUM - i,
    {
        let (r, c) = cell_position(i);
        assert(board@[r as int]@.len() >= CELL_SIDE_NUM);
        let value = board[r][c];
        views.push(cell_view(value));
        i = i + 1;
    }
    assert forall|r: int, c: int| 0 <= r < 4 && 0 <= c < 4 implies value_at(board@, 4 * r + c)
        == #[trigger] board@[r]@[c] by {
        lemma_positions_cover_board(4 * r + c, r, c);
    }
    views
}

/// What one cell shows when the board is first laid out.
pub struct InitialCellView {
    /// The text written on the cell.
    pub text: String,
    /// The colour that text is drawn in.
    pub text_color: TextColor,
    /// The colour behind the cell.
    pub background: CellColor,
}

/// Whether `view` is what a cell holding `value` shows when the board is laid out.
pub open spec fn shows_initially(view: InitialCellView, value: u32) -> bool {
    &&& view.text@ == (if value == 2 { seq!['2'] } else { Seq::<char>::empty() })
    &&& view.text_color == TextColor::Brown
    &&& view.background == spec_cell_color(value)
}

/// What each of the sixteen cells shows when the board is first laid out,
/// row by row.
pub fn initial_board_views(board: &Vec<Vec<u32>>) -> (views: Vec<InitialCellView>)
    requires
        board_covers_cells(board@),
    ensures
        views@.len() == CELL_SIDE_NUM * CELL_SIDE_NUM,
        forall|i: int|
            0 <= i < views@.len() ==> shows_initially(#[trigger] views@[i], value_at(board@, i)),
{
    let mut views: Vec<InitialCellView> = Vec::new();
    let mut r: usize = 0;
    while r < CELL_SIDE_NUM
        invariant
            r <= CELL_SIDE_NUM,
            board_covers_cells(board@),
            views@.len() == r * CELL_SIDE_NUM,
            forall|k: int|
                0 <= k < views@.len() ==> shows_initially(#[trigger] views@[k], value_at(board@, k)),
        decreases CELL_SIDE_NUM - r,
    {
        assert(board@[r as int]@.len() >= CELL_SIDE_NUM);
        let mut c: usize = 0;
        while c < CELL_SIDE_NUM
            invariant
                r < CELL_SIDE_NUM,
                c <= CELL_SIDE_NUM,
                board_covers_cells(board@),
                board@[r as int]@.len() >= CELL_SIDE_NUM,
                views@.len() == r * CELL_SIDE_NUM + c,
                forall|k: int|
                    0 <= k < views@.len() ==> shows_initially(#[trigger] views@[k], value_at(board@, k)),
            decreases CELL_SIDE_NUM - c,
        {
            let value = board[r][c];
            let ghost k: int = r * CELL_SIDE_NUM + c;
            assert(spec_position(k) == (r as int, c as int));
            views.push(InitialCellView {
                text: initial_cell_text(value),
                text_color: TextColor::Brown,
                background: cell_color(value),
            });
            c = c + 1;
        }
        r = r + 1;
    }
    views
}

} // verus!
