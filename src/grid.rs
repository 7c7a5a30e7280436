use vstd::prelude::*;

use crate::region::{sprite_of, PivotOffset, Sprite};

verus! {

/// A sprite sheet laid out as a grid of equal cells, numbered row by row from the
/// top-left cell. `columns` is always given; the other optional fields are inferred
/// from what is given (see `rows`, `count`, `cell_size` and `position`).
///
/// ```text
/// |---|---|---|---|
/// | 0 | 1 | 2 | 3 |
/// |---|---|---|---|
/// | 4 | 5 | 6 | 7 |
/// |---|---|---|---|
/// ```
#[derive(Clone, Debug)]
pub struct SpriteGrid {
    /// Width of the sprite sheet in pixels.
    pub width: u32,
    /// Height of the sprite sheet in pixels.
    pub height: u32,
    /// Number of columns of the grid.
    pub columns: u32,
    /// Number of rows of the grid.
    pub rows: Option<u32>,
    /// Number of sprites of the grid.
    pub count: Option<u32>,
    /// Size of one cell in pixels, as `(width, height)`.
    pub cell_size: Option<(u32, u32)>,
    /// Top-left corner of the grid on the sheet, from the top-left of the image.
    pub position: Option<(u32, u32)>,
}

impl Default for SpriteGrid {
    fn default() -> (r: SpriteGrid)
        ensures
            r.width == 0 && r.height == 0 && r.columns == 0,
            r.rows is None && r.count is None && r.cell_size is None && r.position is None,
    {
        SpriteGrid { width: 0, height: 0, columns: 0, rows: None, count: None, cell_size: None, position: None }
    }
}

/// `a / b` rounded up.
pub open spec fn ceil_div(a: int, b: int) -> int {
    if a % b == 0 {
        a / b
    } else {
        a / b + 1
    }
}

impl SpriteGrid {
    pub open spec fn position_spec(&self) -> (u32, u32) {
        match self.position {
            Some(p) => p,
            None => (0u32, 0u32),
        }
    }

    /// The position lies on the sheet, so that the width and height left to the grid
    /// are not negative.
    pub open spec fn position_on_sheet(&self) -> bool {
        self.position_spec().0 <= self.width && self.position_spec().1 <= self.height
    }

    /// Width left to the grid right of its position.
    pub open spec fn width_spec(&self) -> int {
        self.width - self.position_spec().0
    }

    /// Height left to the grid below its position.
    pub open spec fn height_spec(&self) -> int {
        self.height - self.position_spec().1
    }

    /// The inference of `rows` divides by nothing that is zero and takes no height
    /// below zero.
    pub open spec fn rows_defined(&self) -> bool {
        match self.rows {
            Some(_) => true,
            None => match self.count {
                Some(_) => self.columns > 0,
                None => match self.cell_size {
                    Some((_, h)) => h > 0 && self.position_spec().1 <= self.height,
                    None => true,
                },
            },
        }
    }

    /// `rows` if given; else the rows that `count` cells fill; else the cells of the
    /// given height that fit in the height left; else one row.
    pub open spec fn rows_spec(&self) -> int {
        match self.rows {
            Some(r) => r as int,
            None => match self.count {
                Some(c) => ceil_div(c as int, self.columns as int),
                None => match self.cell_size {
                    Some((_, h)) => self.height_spec() / (h as int),
                    None => 1,
                },
            },
        }
    }

    /// `count` if given, else a full grid of `columns` by the rows.
    pub open spec fn count_spec(&self) -> int {
        match self.count {
            Some(c) => c as int,
            None => self.columns * self.rows_spec(),
        }
    }

    pub open spec fn cell_size_defined(&self) -> bool {
        match self.cell_size {
            Some(_) => true,
            None => self.columns > 0 && self.position_on_sheet() && self.rows_defined()
                && self.rows_spec() > 0,
        }
    }

    /// `cell_size` if given, else the width and height left to the grid split evenly
    /// over the columns and the rows, rounded down.
    pub open spec fn cell_size_spec(&self) -> (int, int) {
        match self.cell_size {
            Some((w, h)) => (w as int, h as int),
            None => (self.width_spec() / (self.columns as int), self.height_spec() / self.rows_spec()),
        }
    }

    /// What building the sprites needs: every inference above is defined, and cells can
    /// be numbered by column.
    pub open spec fn build_defined(&self) -> bool {
        &&& self.position_on_sheet()
        &&& self.rows_defined()
        &&& self.cell_size_defined()
        &&& (self.count_spec() > 0 ==> self.columns > 0)
    }

    /// Pixel position of the top-left corner of cell `cell`.
    pub open spec fn cell_origin(&self, cell: int) -> (int, int) {
        let row = cell / (self.columns as int);
        let column = cell - row * self.columns;
        (
            column * self.cell_size_spec().0 + self.position_spec().0,
            row * self.cell_size_spec().1 + self.position_spec().1,
        )
    }

    /// The sprite of cell `cell`, with no pivot offset.
    pub open spec fn cell_sprite(&self, cell: int) -> Sprite {
        sprite_of(
            self.width as int,
            self.height as int,
            self.cell_size_spec().0,
            self.cell_size_spec().1,
            self.cell_origin(cell).0,
            self.cell_origin(cell).1,
            PivotOffset::zero_spec(),
        )
    }

    /// Whether `build_sprites` can run on this grid: the position lies on the sheet,
    /// nothing that the inference divides by is zero, and a grid with cells has columns.
    pub fn is_buildable(&self) -> (r: bool)
        ensures
            r == self.build_defined(),
    {
        let position = self.position();
        if position.0 > self.width || position.1 > self.height {
            return false;
        }
        let rows_ok = match self.rows {
            Some(_) => true,
            None => match self.count {
                Some(_) => self.columns > 0,
                None => match self.cell_size {
                    Some((_, h)) => h > 0,
                    None => true,
                },
            },
        };
        if !rows_ok {
            return false;
        }
        let cells_ok = match self.cell_size {
            Some(_) => true,
            None => self.columns > 0 && self.rows() > 0,
        };
        cells_ok && (self.columns > 0 || self.count() == 0)
    }

    /// The width left to the grid right of its position.
    pub fn width(&self) -> (r: u32)
        requires
            self.position_spec().0 <= self.width,
        ensures
            r == self.width_spec(),
    {
        self.width - self.position().0
    }

    /// The height left to the grid below its position.
    pub fn height(&self) -> (r: u32)
        requires
            self.position_spec().1 <= self.height,
        ensures
            r == self.height_spec(),
    {
        self.height - self.position().1
    }

    /// The number of rows: given, or inferred from `count`, else from `cell_size`,
    /// else one.
    pub fn rows(&self) -> (r: u32)
        requires
            self.rows_defined(),
        ensures
            r == self.rows_spec(),
            self.rows matches Some(n) ==> r == n,
            self.rows is None ==> (self.count matches Some(c) ==> r == ceil_div(c as int, self.columns as int)),
            self.rows is None && self.count is None ==> (self.cell_size matches Some((_, h)) ==> r == self.height_spec() / (h as int)),
            self.rows is None && self.count is None && self.cell_size is None ==> r == 1,
    {
        match self.rows {
            Some(r) => r,
            None => match self.count {
                Some(c) => {
                    if c % self.columns == 0 {
                        c / self.columns
                    } else {
                        assert(c / self.columns < c) by (nonlinear_arith)
                            requires c % self.columns != 0, self.columns > 0;
                        c / self.columns + 1
                    }
                },
                None => match self.cell_size {
                    Some((_, h)) => self.height() / h,
                    None => 1,
                },
            },
        }
    }

    /// The number of sprites: given, or a full grid of `columns` by `rows()`.
    pub fn count(&self) -> (r: u64)
        requires
            self.rows_defined(),
        ensures
            r == self.count_spec(),
    {
        match self.count {
            Some(c) => c as u64,
            None => {
                let rows = self.rows() as u64;
                let columns = self.columns as u64;
                assert(columns * rows <= 0xffff_ffffu64 * 0xffff_ffffu64) by (nonlinear_arith)
                    requires columns <= 0xffff_ffffu64, rows <= 0xffff_ffffu64;
                columns * rows
            },
        }
    }

    /// The size of one cell as `(width, height)`: given, or the space left to the grid
    /// split evenly over `columns` and `rows()`, rounded down.
    pub fn cell_size(&self) -> (r: (u32, u32))
        requires
            self.cell_size_defined(),
        ensures
            r.0 == self.cell_size_spec().0,
            r.1 == self.cell_size_spec().1,
    {
        match self.cell_size {
            Some(s) => s,
            None => (self.width() / self.columns, self.height() / self.rows()),
        }
    }

    /// The top-left corner of the grid: given, or `(0, 0)`.
    pub fn position(&self) -> (r: (u32, u32))
        ensures
            r == self.position_spec(),
    {
        match self.position {
            Some(p) => p,
            None => (0, 0),
        }
    }

    /// Whether `columns` cells of the cell width are wider than the width left to the
    /// grid. Such a grid is still built; the cells then run past the sheet.
    pub fn exceeds_width(&self) -> (r: bool)
        requires
            self.position_on_sheet(),
            self.cell_size_defined(),
        ensures
            r == (self.columns * self.cell_size_spec().0 > self.width_spec()),
    {
        let cell_size = self.cell_size();
        let columns = self.columns as u64;
        let w = cell_size.0 as u64;
        assert(columns * w <= 0xffff_ffffu64 * 0xffff_ffffu64) by (nonlinear_arith)
            requires columns <= 0xffff_ffffu64, w <= 0xffff_ffffu64;
        columns * w > self.width() as u64
    }

    /// Whether `rows()` cells of the cell height are taller than the height left to the
    /// grid. Such a grid is still built; the cells then run past the sheet.
    pub fn exceeds_height(&self) -> (r: bool)
        requires
            self.position_on_sheet(),
            self.rows_defined(),
            self.cell_size_defined(),
        ensures
            r == (self.rows_spec() * self.cell_size_spec().1 > self.height_spec()),
    {
        let cell_size = self.cell_size();
        let rows = self.rows() as u64;
        let h = cell_size.1 as u64;
        assert(rows * h <= 0xffff_ffffu64 * 0xffff_ffffu64) by (nonlinear_arith)
            requires rows <= 0xffff_ffffu64, h <= 0xffff_ffffu64;
        rows * h > self.height() as u64
    }

    /// The sprites of the grid, one per cell in row-major order: `count()` of them,
    /// cell `i` at column `i % columns` and row `i / columns`, each of the cell size and
    /// with no pivot offset.
    pub fn build_sprites(&self) -> (r: Vec<Sprite>)
        requires
            self.build_defined(),
        ensures
            r@.len() == self.count_spec(),
            forall|i: int| 0 <= i < r@.len() ==> r@[i] == self.cell_sprite(i),
    {
        let rows = self.rows();
        let count = self.count();
        let cell_size = self.cell_size();
        let position = self.position();
        let columns = self.columns as u64;
        let cw = cell_size.0 as u64;
        let ch = cell_size.1 as u64;
        let mut sprites: Vec<Sprite> = Vec::new();
        let mut cell: u64 = 0;
        while cell < count
            invariant
                self.build_defined(),
                rows == self.rows_spec(),
                count == self.count_spec(),
                cw == self.cell_size_spec().0,
                ch == self.cell_size_spec().1,
                cell_size.0 == cw,
                cell_size.1 == ch,
                position == self.position_spec(),
                columns == self.columns,
                cell <= count,
                sprites@.len() == cell,
                forall|i: int| 0 <= i < cell ==> sprites@[i] == self.cell_sprite(i),
            decreases count - cell,
        {
            assert(columns > 0);
            let row = cell / columns;
            assert(row * columns <= cell) by (nonlinear_arith)
                requires row == cell / columns, columns > 0;
            assert(row <= 0xffff_ffffu64) by {
                match self.count {
                    Some(c) => {
                        assert(row <= cell) by (nonlinear_arith)
                            requires row == cell / columns, columns > 0;
                    },
                    None => {
                        assert(row < rows) by (nonlinear_arith)
                            requires row == cell / columns, columns > 0, cell < columns * rows;
                    },
                }
            }
            let column = cell - row * columns;
            assert(column < columns) by (nonlinear_arith)
                requires row == cell / columns, columns > 0, column == cell - row * columns;
            assert(column * cw <= 0xffff_ffffu64 * 0xffff_ffffu64) by (nonlinear_arith)
                requires column <= 0xffff_ffffu64, cw <= 0xffff_ffffu64;
            assert(row * ch <= 0xffff_ffffu64 * 0xffff_ffffu64) by (nonlinear_arith)
                requires row <= 0xffff_ffffu64, ch <= 0xffff_ffffu64;
            let x = column * cw + position.0 as u64;
            let y = row * ch + position.1 as u64;
            let sprite = Sprite::from_pixel_values(
                self.width,
                self.height,
                cell_size.0,
                cell_size.1,
                x,
                y,
                PivotOffset::zero(),
            );
            assert(self.cell_origin(cell as int) == (x as int, y as int));
            assert(sprite == self.cell_sprite(cell as int));
            sprites.push(sprite);
            cell = cell + 1;
        }
        sprites
    }
}

} // verus!
