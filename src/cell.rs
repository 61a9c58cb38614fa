use vstd::prelude::*;

verus! {

/// The kind of one tile of the board.
#[derive(Clone, Copy, Debug, PartialEq, Eq, Structural)]
pub enum Cell {
    Empty,
    Food,
    Tail,
    Uptoleft,
    Uptoright,
    Downtoleft,
    Downtoright,
    Horizontal,
    Vertical,
    Headsup,
    Headsdown,
    Headsleft,
    Headsright,
}

/// The glyph drawn for each kind of tile.
pub open spec fn glyph(c: Cell) -> Seq<char> {
    match c {
        Cell::Empty => seq![' '],
        Cell::Food => seq!['X'],
        Cell::Tail => seq!['×'],
        Cell::Uptoleft => seq!['╗'],
        Cell::Uptoright => seq!['╔'],
        Cell::Downtoleft => seq!['╝'],
        Cell::Downtoright => seq!['╚'],
        Cell::Horizontal => seq!['═'],
        Cell::Vertical => seq!['║'],
        Cell::Headsup => seq!['^'],
        Cell::Headsdown => seq!['V'],
        Cell::Headsleft => seq!['<'],
        Cell::Headsright => seq!['>'],
    }
}

/// True of the four kinds that draw the snake's head.
pub open spec fn is_head(c: Cell) -> bool {
    match c {
        Cell::Headsup | Cell::Headsdown | Cell::Headsleft | Cell::Headsright => true,
        _ => false,
    }
}

impl Cell {
    pub fn match_to_symbol(&self) -> (r: &'static str)
        ensures
            r@ == glyph(*self),
    {
        match self {
            Cell::Empty => {
                proof { reveal_strlit(" "); }
                " "
            },
            Cell::Food => {
                proof { reveal_strlit("X"); }
                "X"
            },
            Cell::Tail => {
                proof { reveal_strlit("×"); }
                "×"
            },
            Cell::Uptoleft => {
                proof { reveal_strlit("╗"); }
                "╗"
            },
            Cell::Uptoright => {
                proof { reveal_strlit("╔"); }
                "╔"
            },
            Cell::Downtoleft => {
                proof { reveal_strlit("╝"); }
                "╝"
            },
            Cell::Downtoright => {
                proof { reveal_strlit("╚"); }
                "╚"
            },
            Cell::Horizontal => {
                proof { reveal_strlit("═"); }
                "═"
            },
            Cell::Vertical => {
                proof { reveal_strlit("║"); }
                "║"
            },
            Cell::Headsup => {
                proof { reveal_strlit("^"); }
                "^"
            },
            Cell::Headsdown => {
                proof { reveal_strlit("V"); }
                "V"
            },
            Cell::Headsleft => {
                proof { reveal_strlit("<"); }
                "<"
            },
            Cell::Headsright => {
                proof { reveal_strlit(">"); }
                ">"
            },
        }
    }
}

/// Glyph of the side walls.
pub const WALL: &'static str = "░";

/// Glyph of the top and bottom walls.
pub const CEILING: &'static str = "░";

pub const TOP_LEFT_CORNER: &'static str = "▒";

pub const TOP_RIGHT_CORNER: &'static str = "▒";

pub const BOTTOM_LEFT_CORNER: &'static str = "▒";

pub const BOTTOM_RIGHT_CORNER: &'static str = "▒";

} // verus!
