//! The QR symbol and its rendering with half-block characters.
//!
//! A symbol is a square grid of light and dark modules.  Rendering pairs the
//! rows two at a time and prints one character per column for each pair, so
//! the picture takes half as many terminal lines as the symbol has rows.

use crate::text::texts;
use vstd::prelude::*;

verus! {

/// The colour of one module of a symbol.
#[derive(Clone, Copy, Debug, PartialEq, Eq, Structural)]
pub enum Cell {
    Light,
    Dark,
}

/// A square grid of modules, stored row by row.
#[derive(Debug)]
pub struct QrMatrix {
    rows: Vec<Vec<Cell>>,
}

/// The grid behind `rows`: a sequence of rows, each a sequence of modules.
pub open spec fn grid_view(rows: Seq<Vec<Cell>>) -> Seq<Seq<Cell>> {
    Seq::new(rows.len(), |r: int| rows[r]@)
}

/// Whether every row of `grid` is as long as the grid has rows.
pub open spec fn is_square(grid: Seq<Seq<Cell>>) -> bool {
    forall|r: int| 0 <= r < grid.len() ==> (#[trigger] grid[r]).len() == grid.len()
}

/// The module that stands for a flag: dark for `true`.
pub open spec fn cell_of(dark: bool) -> Cell {
    if dark {
        Cell::Dark
    } else {
        Cell::Light
    }
}

/// The square grid of the given width whose modules are `cells` read row by
/// row; `None` unless `cells` holds exactly `width * width` flags.
pub open spec fn grid_of(width: nat, cells: Seq<bool>) -> Option<Seq<Seq<Cell>>> {
    if cells.len() == width * width {
        Some(Seq::new(width, |r: int| Seq::new(width, |c: int| cell_of(cells[r * width + c]))))
    } else {
        None
    }
}

/// The character for one column of a row pair.  Equal colours give a full
/// block or a space; unequal ones the half block on the dark side.  A row
/// without a partner counts as standing above a light row.
pub open spec fn half_block(top: Cell, bottom: Option<Cell>) -> char {
    match (top, bottom) {
        (Cell::Dark, Some(Cell::Dark)) => '\u{2588}',
        (Cell::Light, Some(Cell::Dark)) => '\u{2584}',
        (Cell::Dark, _) => '\u{2580}',
        (Cell::Light, _) => ' ',
    }
}

/// The line for the row `top` and the row below it, if there is one.
pub open spec fn render_pair(top: Seq<Cell>, bottom: Option<Seq<Cell>>) -> Seq<char> {
    Seq::new(
        top.len(),
        |i: int|
            half_block(
                top[i],
                match bottom {
                    Some(b) => Some(b[i]),
                    None => None,
                },
            ),
    )
}

/// The lines of a grid: line `k` shows rows `2k` and `2k + 1`, and the last
/// line of a grid with an odd number of rows shows its last row alone.
pub open spec fn render_rows(grid: Seq<Seq<Cell>>) -> Seq<Seq<char>> {
    Seq::new(
        ((grid.len() + 1) / 2) as nat,
        |k: int|
            render_pair(
                grid[2 * k],
                if 2 * k + 1 < grid.len() {
                    Some(grid[2 * k + 1])
                } else {
                    None
                },
            ),
    )
}

impl View for QrMatrix {
    type V = Seq<Seq<Cell>>;

    closed spec fn view(&self) -> Seq<Seq<Cell>> {
        grid_view(self.rows@)
    }
}

impl QrMatrix {
    /// Every value of the type holds a square grid.
    #[verifier::type_invariant]
    spec fn squared(&self) -> bool {
        is_square(grid_view(self.rows@))
    }

    /// The grid with the given rows, if they form a square.
    pub fn from_rows(rows: Vec<Vec<Cell>>) -> (out: Option<QrMatrix>)
        ensures
            out is Some <==> is_square(grid_view(rows@)),
            out matches Some(m) ==> m@ == grid_view(rows@),
    {
        let n = rows.len();
        let mut r: usize = 0;
        while r < n
            invariant
                r <= n,
                n == rows.len(),
                forall|k: int| 0 <= k < r ==> (#[trigger] grid_view(rows@)[k]).len() == n,
            decreases n - r,
        {
            if rows[r].len() != n {
                assert(grid_view(rows@)[r as int].len() != n);
                return None;
            }
            r += 1;
        }
        Some(QrMatrix { rows })
    }

    /// The grid of the given width whose modules are `cells`, read row by
    /// row, dark for `true`; `None` unless there are `width * width` of them.
    pub fn from_cells(width: usize, cells: &Vec<bool>) -> (out: Option<QrMatrix>)
        ensures
            out is Some <==> grid_of(width as nat, cells@) is Some,
            out matches Some(m) ==> Some(m@) == grid_of(width as nat, cells@),
    {
        let product = width.checked_mul(width);
        if product != Some(cells.len()) {
            return None;
        }
        let ghost want = grid_of(width as nat, cells@).unwrap();
        let mut rows: Vec<Vec<Cell>> = Vec::new();
        let mut r: usize = 0;
        while r < width
            invariant
                r <= width,
                cells.len() == width * width,
                want == grid_of(width as nat, cells@).unwrap(),
                rows.len() == r,
                forall|k: int| 0 <= k < r ==> (#[trigger] rows@[k])@ == want[k],
            decreases width - r,
        {
            let mut row: Vec<Cell> = Vec::new();
            let mut c: usize = 0;
            while c < width
                invariant
                    r < width,
                    c <= width,
                    cells.len() == width * width,
                    want == grid_of(width as nat, cells@).unwrap(),
                    row.len() == c,
                    forall|k: int| 0 <= k < c ==> #[trigger] row@[k] == want[r as int][k],
                decreases width - c,
            {
                assert(r * width + c < width * width) by (nonlinear_arith)
                    requires
                        r < width,
                        c < width,
                ;
                let dark = cells[r * width + c];
                row.push(
                    if dark {
                        Cell::Dark
                    } else {
                        Cell::Light
                    },
                );
                c += 1;
            }
            rows.push(row);
            r += 1;
        }
        let m = QrMatrix { rows };
        Some(m)
    }

    /// The number of modules on each side.
    pub fn width(&self) -> (w: usize)
        ensures
            w == self@.len(),
            is_square(self@),
    {
        proof {
            use_type_invariant(self);
        }
        self.rows.len()
    }

    /// The module in row `r`, column `c`.
    pub fn cell(&self, r: usize, c: usize) -> (cell: Cell)
        requires
            r < self@.len(),
            c < self@.len(),
        ensures
            cell == self@[r as int][c as int],
    {
        proof {
            use_type_invariant(self);
        }
        self.rows[r][c]
    }

    /// The symbol as terminal lines of half-block characters.
    pub fn render(&self) -> (lines: Vec<String>)
        ensures
            texts(lines@) == render_rows(self@),
    {
        proof {
            use_type_invariant(self);
        }
        let n = self.rows.len();
        let count = n / 2 + n % 2;
        let mut lines: Vec<String> = Vec::new();
        let mut k: usize = 0;
        while k < count
            invariant
                is_square(self@),
                n == self@.len(),
                count == (n + 1) / 2,
                k <= count,
                lines.len() == k,
                forall|j: int| 0 <= j < k ==> (#[trigger] lines@[j])@ == render_rows(self@)[j],
            decreases count - k,
        {
            let r = 2 * k;
            let paired = r + 1 < n;
            let ghost below = if paired {
                Some(self@[r + 1])
            } else {
                None
            };
            let ghost full = render_pair(self@[r as int], below);
            let mut line = String::new();
            let mut c: usize = 0;
            while c < n
                invariant
                    is_square(self@),
                    n == self@.len(),
                    r < n,
                    c <= n,
                    paired == (r + 1 < n),
                    below == if paired {
                        Some(self@[r + 1])
                    } else {
                        None::<Seq<Cell>>
                    },
                    full == render_pair(self@[r as int], below),
                    full.len() == n,
                    line@ == full.take(c as int),
                decreases n - c,
            {
                let top = self.cell(r, c);
                let ch = if paired {
                    let bottom = self.cell(r + 1, c);
                    match (top, bottom) {
                        (Cell::Dark, Cell::Dark) => '\u{2588}',
                        (Cell::Light, Cell::Dark) => '\u{2584}',
                        (Cell::Dark, Cell::Light) => '\u{2580}',
                        (Cell::Light, Cell::Light) => ' ',
                    }
                } else {
                    match top {
                        Cell::Dark => '\u{2580}',
                        Cell::Light => ' ',
                    }
                };
                line.push(ch);
                c += 1;
            }
            lines.push(line);
            k += 1;
        }
        lines
    }
}

} // verus!
