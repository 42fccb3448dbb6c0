//! The geometry of the animated pane border: which cells it covers, which
//! piece goes in each, where a cell lies along the perimeter, and which
//! symbols it may draw over. The colours, computed with floating point, are
//! left to the application.

use vstd::prelude::*;

use crate::text::str_eq;

verus! {

/// A piece of a border.
#[derive(Debug, Clone, Copy, PartialEq, Eq)]
pub enum BorderPiece {
    TopLeft,
    TopRight,
    BottomLeft,
    BottomRight,
    Horizontal,
    Vertical,
}

/// The symbol of a piece: heavy lines for the focused pane, light ones for
/// the others.
pub open spec fn spec_piece_symbol(p: BorderPiece, focused: bool) -> Seq<char> {
    match (p, focused) {
        (BorderPiece::TopLeft, true) => "┏"@,
        (BorderPiece::TopRight, true) => "┓"@,
        (BorderPiece::BottomLeft, true) => "┗"@,
        (BorderPiece::BottomRight, true) => "┛"@,
        (BorderPiece::Vertical, true) => "┃"@,
        (BorderPiece::Horizontal, true) => "━"@,
        (BorderPiece::TopLeft, false) => "┌"@,
        (BorderPiece::TopRight, false) => "┐"@,
        (BorderPiece::BottomLeft, false) => "└"@,
        (BorderPiece::BottomRight, false) => "┘"@,
        (BorderPiece::Vertical, false) => "│"@,
        (BorderPiece::Horizontal, false) => "─"@,
    }
}

/// The symbol of a piece.
pub fn piece_symbol(p: BorderPiece, focused: bool) -> (r: &'static str)
    ensures
        r@ == spec_piece_symbol(p, focused),
{
    match (p, focused) {
        (BorderPiece::TopLeft, true) => "┏",
        (BorderPiece::TopRight, true) => "┓",
        (BorderPiece::BottomLeft, true) => "┗",
        (BorderPiece::BottomRight, true) => "┛",
        (BorderPiece::Vertical, true) => "┃",
        (BorderPiece::Horizontal, true) => "━",
        (BorderPiece::TopLeft, false) => "┌",
        (BorderPiece::TopRight, false) => "┐",
        (BorderPiece::BottomLeft, false) => "└",
        (BorderPiece::BottomRight, false) => "┘",
        (BorderPiece::Vertical, false) => "│",
        (BorderPiece::Horizontal, false) => "─",
    }
}

/// The box-drawing symbols a border may draw over: light, heavy, double and
/// rounded.
pub open spec fn spec_border_symbols() -> Seq<Seq<char>> {
    seq![
        "┌"@, "┐"@, "└"@, "┘"@, "│"@, "─"@,
        "┏"@, "┓"@, "┗"@, "┛"@, "┃"@, "━"@,
        "╔"@, "╗"@, "╚"@, "╝"@, "║"@, "═"@,
        "╭"@, "╮"@, "╯"@, "╰"@,
    ]
}

/// Whether `sym` is one of the border symbols.
pub fn is_border_symbol(sym: &str) -> (r: bool)
    ensures
        r == spec_border_symbols().contains(sym@),
{
    let all: [&str; 22] = [
        "┌", "┐", "└", "┘", "│", "─",
        "┏", "┓", "┗", "┛", "┃", "━",
        "╔", "╗", "╚", "╝", "║", "═",
        "╭", "╮", "╯", "╰",
    ];
    let ghost want = spec_border_symbols();
    proof {
        assert forall|k: int| 0 <= k < 22 implies (#[trigger] all@[k])@ == want[k] by {}
    }
    let mut i: usize = 0;
    while i < 22
        invariant
            i <= 22,
            want == spec_border_symbols(),
            forall|k: int| 0 <= k < 22 ==> (#[trigger] all@[k])@ == want[k],
            forall|k: int| 0 <= k < i ==> want[k] != sym@,
        decreases 22 - i,
    {
        if str_eq(all[i], sym) {
            proof {
                assert(want[i as int] == sym@);
            }
            return true;
        }
        i = i + 1;
    }
    false
}

/// Whether a border may draw over a cell showing `sym`: a blank, an empty
/// cell or another border.
pub fn may_draw_over(sym: &str) -> (r: bool)
    ensures
        r == (sym@ == " "@ || sym@.len() == 0 || spec_border_symbols().contains(sym@)),
{
    proof {
        reveal_strlit("");
        assert(""@ =~= Seq::<char>::empty());
        assert(sym@.len() == 0 ==> sym@ =~= ""@);
    }
    str_eq(sym, " ") || str_eq(sym, "") || is_border_symbol(sym)
}

/// Where the cell at `(x, y)` of a `width` by `height` box lies along its
/// perimeter, going clockwise from the top-left corner.
pub open spec fn spec_perimeter_pos(x: int, y: int, width: int, height: int) -> int {
    let w = if width > 0 { width - 1 } else { 0 };
    let h = if height > 0 { height - 1 } else { 0 };
    if y == 0 {
        x
    } else if x == w {
        w + y
    } else if y == h {
        w + h + (w - x)
    } else {
        w + h + w + (h - y)
    }
}

/// Where the cell at `(x, y)` lies along the perimeter.
pub fn get_perimeter_pos(x: u16, y: u16, width: u16, height: u16) -> (r: i64)
    ensures
        r == spec_perimeter_pos(x as int, y as int, width as int, height as int),
{
    let w: i64 = if width > 0 { width as i64 - 1 } else { 0 };
    let h: i64 = if height > 0 { height as i64 - 1 } else { 0 };
    let xi = x as i64;
    let yi = y as i64;
    if yi == 0 {
        xi
    } else if xi == w {
        w + yi
    } else if yi == h {
        w + h + (w - xi)
    } else {
        w + h + w + (h - yi)
    }
}

/// The cells of the border of the box at `(x, y)`, `w` by `h`, and their
/// pieces: the four corners, then the top and bottom cell of each inner
/// column, then the left and right cell of each inner row.
pub open spec fn spec_border_cells(x: int, y: int, w: int, h: int) -> Seq<(int, int, BorderPiece)> {
    let corners = seq![
        (x, y, BorderPiece::TopLeft),
        (x + w - 1, y, BorderPiece::TopRight),
        (x, y + h - 1, BorderPiece::BottomLeft),
        (x + w - 1, y + h - 1, BorderPiece::BottomRight),
    ];
    let across = Seq::new((2 * (w - 2)) as nat, |k: int|
        (x + 1 + k / 2, if k % 2 == 0 { y } else { y + h - 1 }, BorderPiece::Horizontal));
    let down = Seq::new((2 * (h - 2)) as nat, |k: int|
        (if k % 2 == 0 { x } else { x + w - 1 }, y + 1 + k / 2, BorderPiece::Vertical));
    corners + across + down
}

/// The cells of the border as coordinates and pieces.
pub open spec fn spec_cell_views(v: Seq<(u16, u16, BorderPiece)>) -> Seq<(int, int, BorderPiece)> {
    v.map_values(|c: (u16, u16, BorderPiece)| (c.0 as int, c.1 as int, c.2))
}

/// The cells of the border of the box at `(x, y)`, `width` by `height`;
/// none for a box narrower or lower than two.
pub fn border_cells(x: u16, y: u16, width: u16, height: u16) -> (r: Vec<(u16, u16, BorderPiece)>)
    requires
        x + width <= u16::MAX,
        y + height <= u16::MAX,
    ensures
        width < 2 || height < 2 ==> r@.len() == 0,
        width >= 2 && height >= 2 ==> spec_cell_views(r@) == spec_border_cells(x as int, y as int, width as int, height as int),
{
    let mut out: Vec<(u16, u16, BorderPiece)> = Vec::new();
    if width < 2 || height < 2 {
        return out;
    }
    let right = x + width - 1;
    let bottom = y + height - 1;
    out.push((x, y, BorderPiece::TopLeft));
    out.push((right, y, BorderPiece::TopRight));
    out.push((x, bottom, BorderPiece::BottomLeft));
    out.push((right, bottom, BorderPiece::BottomRight));
    let ghost want = spec_border_cells(x as int, y as int, width as int, height as int);
    let ghost n_across: int = 2 * (width - 2);
    proof {
        assert(spec_cell_views(out@) =~= want.take(4));
    }
    let mut cx: u16 = x + 1;
    while cx < right
        invariant
            x + 1 <= cx <= right,
            right == x + width - 1,
            bottom == y + height - 1,
            width >= 2,
            height >= 2,
            want == spec_border_cells(x as int, y as int, width as int, height as int),
            n_across == 2 * (width - 2),
            spec_cell_views(out@) == want.take(4 + 2 * (cx - x - 1)),
        decreases right - cx,
    {
        let ghost before = out@;
        out.push((cx, y, BorderPiece::Horizontal));
        out.push((cx, bottom, BorderPiece::Horizontal));
        proof {
            let k = 2 * (cx - x - 1);
            assert(k / 2 == cx - x - 1 && (k + 1) / 2 == cx - x - 1);
            assert(k % 2 == 0 && (k + 1) % 2 == 1);
            assert(spec_cell_views(out@) =~= spec_cell_views(before).push((cx as int, y as int, BorderPiece::Horizontal)).push((cx as int, bottom as int, BorderPiece::Horizontal)));
            assert(want[4 + k] == (x + 1 + k / 2, y as int, BorderPiece::Horizontal));
            assert(want[4 + k + 1] == (x + 1 + (k + 1) / 2, bottom as int, BorderPiece::Horizontal));
            assert(spec_cell_views(out@) =~= want.take(4 + 2 * (cx + 1 - x - 1)));
        }
        cx = cx + 1;
    }
    let mut cy: u16 = y + 1;
    while cy < bottom
        invariant
            y + 1 <= cy <= bottom,
            right == x + width - 1,
            bottom == y + height - 1,
            width >= 2,
            height >= 2,
            want == spec_border_cells(x as int, y as int, width as int, height as int),
            n_across == 2 * (width - 2),
            spec_cell_views(out@) == want.take(4 + n_across + 2 * (cy - y - 1)),
        decreases bottom - cy,
    {
        let ghost before = out@;
        out.push((x, cy, BorderPiece::Vertical));
        out.push((right, cy, BorderPiece::Vertical));
        proof {
            let k = 2 * (cy - y - 1);
            assert(k / 2 == cy - y - 1 && (k + 1) / 2 == cy - y - 1);
            assert(k % 2 == 0 && (k + 1) % 2 == 1);
            assert(spec_cell_views(out@) =~= spec_cell_views(before).push((x as int, cy as int, BorderPiece::Vertical)).push((right as int, cy as int, BorderPiece::Vertical)));
            assert(want[4 + n_across + k] == (x as int, y + 1 + k / 2, BorderPiece::Vertical));
            assert(want[4 + n_across + k + 1] == (right as int, y + 1 + (k + 1) / 2, BorderPiece::Vertical));
            assert(spec_cell_views(out@) =~= want.take(4 + n_across + 2 * (cy + 1 - y - 1)));
        }
        cy = cy + 1;
    }
    proof {
        assert(want.take(want.len() as int) =~= want);
    }
    out
}

} // verus!
