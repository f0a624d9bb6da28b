//! The renderer: a pure function from a grid to its textual depiction,
//! one line per row, `'#'` for a live cell and `'.'` for a dead one.

use vstd::prelude::*;
use vstd::string::StringExecFns;
use crate::grid::Cell;
use crate::grid::Cells;

verus! {

/// The glyph that depicts one cell.
pub open spec fn glyph(c: Cell) -> char {
    match c {
        Cell::Alive => '#',
        Cell::Dead => '.',
    }
}

/// The glyphs of row `y`, left to right, without the trailing newline.
pub open spec fn rendered_row(g: &Cells, y: int) -> Seq<char> {
    Seq::new(g.width as nat, |x: int| glyph(g@[y][x]))
}

/// The text of the first `y` rows, each row followed by a newline.
pub open spec fn rendered_upto(g: &Cells, y: int) -> Seq<char>
    decreases y,
{
    if y <= 0 {
        Seq::empty()
    } else {
        rendered_upto(g, y - 1) + rendered_row(g, y - 1).push('\n')
    }
}

/// The full text of the grid: `height` lines of `width` glyphs each,
/// top row first.
pub open spec fn rendered(g: &Cells) -> Seq<char> {
    rendered_upto(g, g.height as int)
}

/// The textual depiction of the grid.
pub fn render(g: &Cells) -> (r: String)
    requires
        g.wf(),
    ensures
        r@ == rendered(g),
{
    let mut out = String::new();
    let mut y: usize = 0;
    while y < g.height
        invariant
            g.wf(),
            y <= g.height,
            out@ == rendered_upto(g, y as int),
        decreases g.height - y,
    {
        let mut x: usize = 0;
        while x < g.width
            invariant
                g.wf(),
                y < g.height,
                x <= g.width,
                out@ == rendered_upto(g, y as int) + rendered_row(g, y as int).take(x as int),
            decreases g.width - x,
        {
            if *g.get(x, y) == Cell::Alive {
                out.append("#");
            } else {
                out.append(".");
            }
            proof {
                reveal_strlit("#");
                reveal_strlit(".");
                assert(rendered_row(g, y as int).take(x as int + 1) =~= rendered_row(
                    g,
                    y as int,
                ).take(x as int).push(glyph(g@[y as int][x as int])));
            }
            x = x + 1;
        }
        out.append("\n");
        proof {
            reveal_strlit("\n");
            assert(rendered_row(g, y as int).take(g.width as int) =~= rendered_row(g, y as int));
            assert(out@ =~= rendered_upto(g, y as int + 1));
        }
        y = y + 1;
    }
    out
}

} // verus!
