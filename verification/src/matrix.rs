//! The symbol matrix produced by the encoding engine, and the quiet-zone
//! cropper: a full row-major scan for the tight bounding box of the set
//! (dark) modules, falling back to the full extent when the matrix is
//! all blank.

use vstd::prelude::*;

verus! {

/// The mathematical model of a symbol matrix: its dimensions and its
/// modules in row-major order, `true` meaning a set (dark) module.
pub ghost struct MatrixView {
    pub width: int,
    pub height: int,
    pub cells: Seq<bool>,
}

impl MatrixView {
    /// The cell count matches the dimensions.
    pub open spec fn wf(self) -> bool {
        self.cells.len() == self.width * self.height
    }

    /// Whether `(x, y)` lies inside the matrix.
    pub open spec fn in_bounds(self, x: int, y: int) -> bool {
        0 <= x < self.width && 0 <= y < self.height
    }

    /// The module at column `x` of row `y`.
    pub open spec fn cell(self, x: int, y: int) -> bool {
        self.cells[y * self.width + x]
    }

    /// Whether at least one module of the matrix is set.
    pub open spec fn has_set_module(self) -> bool {
        exists|x: int, y: int| self.in_bounds(x, y) && #[trigger] self.cell(x, y)
    }
}

/// A symbol matrix: `width * height` modules in row-major order, `true`
/// meaning a set (dark) module.
pub struct SymbolMatrix {
    pub width: usize,
    pub height: usize,
    pub cells: Vec<bool>,
}

impl View for SymbolMatrix {
    type V = MatrixView;

    open spec fn view(&self) -> MatrixView {
        MatrixView { width: self.width as int, height: self.height as int, cells: self.cells@ }
    }
}

/// The bounding box of the set modules of a matrix, inclusive on all four
/// edges.
#[derive(Clone, Copy, PartialEq, Eq, Structural, Debug)]
pub struct BoundingBox {
    pub min_x: usize,
    pub max_x: usize,
    pub min_y: usize,
    pub max_y: usize,
}

/// A row-major index stays below the cell count.
pub proof fn lemma_row_major_index(w: int, h: int, x: int, y: int)
    requires
        0 <= x < w,
        0 <= y < h,
    ensures
        0 <= y * w + x < w * h,
{
    assert(y * w + x < w * h) by (nonlinear_arith)
        requires
            0 <= x < w,
            0 <= y < h,
    ;
    assert(0 <= y * w) by (nonlinear_arith)
        requires
            0 <= y,
            0 < w,
    ;
}

/// What the cropper returns: where some module is set, the unique box whose
/// four edges each touch a set module and outside which no set module lies;
/// where the matrix is all blank, the full extent of the matrix.
pub open spec fn box_is_tight(m: MatrixView, b: BoundingBox) -> bool {
    if m.has_set_module() {
        &&& b.min_x <= b.max_x < m.width
        &&& b.min_y <= b.max_y < m.height
        &&& forall|x: int, y: int|
            m.in_bounds(x, y) && #[trigger] m.cell(x, y) ==> b.min_x <= x <= b.max_x && b.min_y
                <= y <= b.max_y
        &&& exists|y: int| m.in_bounds(b.min_x as int, y) && #[trigger] m.cell(b.min_x as int, y)
        &&& exists|y: int| m.in_bounds(b.max_x as int, y) && #[trigger] m.cell(b.max_x as int, y)
        &&& exists|x: int| m.in_bounds(x, b.min_y as int) && #[trigger] m.cell(x, b.min_y as int)
        &&& exists|x: int| m.in_bounds(x, b.max_y as int) && #[trigger] m.cell(x, b.max_y as int)
    } else {
        &&& b.min_x == 0
        &&& b.max_x == m.width - 1
        &&& b.min_y == 0
        &&& b.max_y == m.height - 1
    }
}

/// The bounding box the cropper returns for `m`.
pub open spec fn crop_box(m: MatrixView) -> BoundingBox {
    choose|b: BoundingBox| box_is_tight(m, b)
}

/// At most one box is tight for a given matrix.
pub proof fn lemma_tight_box_unique(m: MatrixView, b1: BoundingBox, b2: BoundingBox)
    requires
        box_is_tight(m, b1),
        box_is_tight(m, b2),
    ensures
        b1 == b2,
{
    if m.has_set_module() {
        let y1 = choose|y: int| m.in_bounds(b1.min_x as int, y) && #[trigger] m.cell(
            b1.min_x as int,
            y,
        );
        assert(b2.min_x <= b1.min_x);
        let y2 = choose|y: int| m.in_bounds(b2.min_x as int, y) && #[trigger] m.cell(
            b2.min_x as int,
            y,
        );
        assert(b1.min_x <= b2.min_x);
        let y3 = choose|y: int| m.in_bounds(b1.max_x as int, y) && #[trigger] m.cell(
            b1.max_x as int,
            y,
        );
        assert(b1.max_x <= b2.max_x);
        let y4 = choose|y: int| m.in_bounds(b2.max_x as int, y) && #[trigger] m.cell(
            b2.max_x as int,
            y,
        );
        assert(b2.max_x <= b1.max_x);
        let x1 = choose|x: int| m.in_bounds(x, b1.min_y as int) && #[trigger] m.cell(
            x,
            b1.min_y as int,
        );
        assert(b2.min_y <= b1.min_y);
        let x2 = choose|x: int| m.in_bounds(x, b2.min_y as int) && #[trigger] m.cell(
            x,
            b2.min_y as int,
        );
        assert(b1.min_y <= b2.min_y);
        let x3 = choose|x: int| m.in_bounds(x, b1.max_y as int) && #[trigger] m.cell(
            x,
            b1.max_y as int,
        );
        assert(b1.max_y <= b2.max_y);
        let x4 = choose|x: int| m.in_bounds(x, b2.max_y as int) && #[trigger] m.cell(
            x,
            b2.max_y as int,
        );
        assert(b2.max_y <= b1.max_y);
    }
}

/// Whether `(a, b)` has already been visited by a row-major scan that
/// stands at column `x` of row `y`.
spec fn scanned(m: MatrixView, x: int, y: int, a: int, b: int) -> bool {
    0 <= a < m.width && 0 <= b && (b < y || (b == y && a < x))
}

/// The scan's running state: where no set module has been seen, the
/// trackers still hold their initial values; where one has, they hold the
/// tight box of the visited region.
spec fn crop_inv(
    m: MatrixView,
    x: int,
    y: int,
    min_x: int,
    max_x: int,
    min_y: int,
    max_y: int,
) -> bool {
    let found = exists|a: int, b: int| scanned(m, x, y, a, b) && #[trigger] m.cell(a, b);
    &&& (!found ==> min_x == m.width && max_x == 0 && min_y == m.height && max_y == 0)
    &&& (found ==> {
        &&& 0 <= min_x <= max_x < m.width
        &&& 0 <= min_y <= max_y < m.height
        &&& forall|a: int, b: int|
            scanned(m, x, y, a, b) && #[trigger] m.cell(a, b) ==> min_x <= a <= max_x && min_y <= b
                <= max_y
        &&& exists|b: int| scanned(m, x, y, min_x, b) && #[trigger] m.cell(min_x, b)
        &&& exists|b: int| scanned(m, x, y, max_x, b) && #[trigger] m.cell(max_x, b)
        &&& exists|a: int| scanned(m, x, y, a, min_y) && #[trigger] m.cell(a, min_y)
        &&& exists|a: int| scanned(m, x, y, a, max_y) && #[trigger] m.cell(a, max_y)
    })
}

impl SymbolMatrix {
    /// Reads the module at column `x` of row `y`.
    pub fn get(&self, x: usize, y: usize) -> (r: bool)
        requires
            self@.wf(),
            x < self.width,
            y < self.height,
        ensures
            r == self@.cell(x as int, y as int),
    {
        proof {
            vstd::std_specs::vec::axiom_spec_len(&self.cells);
            lemma_row_major_index(self.width as int, self.height as int, x as int, y as int);
        }
        self.cells[y * self.width + x]
    }

    /// Scans every module in row-major order and returns the tight bounding
    /// box of the set modules; an all-blank matrix yields the full extent.
    pub fn crop(&self) -> (r: BoundingBox)
        requires
            self@.wf(),
            self.width >= 1,
            self.height >= 1,
        ensures
            box_is_tight(self@, r),
            r == crop_box(self@),
    {
        let mut min_x: usize = self.width;
        let mut max_x: usize = 0;
        let mut min_y: usize = self.height;
        let mut max_y: usize = 0;
        let mut y: usize = 0;
        while y < self.height
            invariant
                self@.wf(),
                self.width >= 1,
                self.height >= 1,
                y <= self.height,
                crop_inv(self@, 0, y as int, min_x as int, max_x as int, min_y as int, max_y as int),
            decreases self.height - y,
        {
            let mut x: usize = 0;
            while x < self.width
                invariant
                    self@.wf(),
                    self.width >= 1,
                    self.height >= 1,
                    y < self.height,
                    x <= self.width,
                    crop_inv(
                        self@,
                        x as int,
                        y as int,
                        min_x as int,
                        max_x as int,
                        min_y as int,
                        max_y as int,
                    ),
                decreases self.width - x,
            {
                if self.get(x, y) {
                    if x < min_x {
                        min_x = x;
                    }
                    if x > max_x {
                        max_x = x;
                    }
                    if y < min_y {
                        min_y = y;
                    }
                    if y > max_y {
                        max_y = y;
                    }
                    assert(scanned(self@, x as int + 1, y as int, x as int, y as int));
                }
                x += 1;
            }
            assert(forall|a: int, b: int|
                scanned(self@, self.width as int, y as int, a, b) == scanned(
                    self@,
                    0,
                    y as int + 1,
                    a,
                    b,
                ));
            y += 1;
        }
        proof {
            assert(forall|a: int, b: int|
                scanned(self@, 0, self.height as int, a, b) == self@.in_bounds(a, b));
            if self@.has_set_module() {
                let (a, b) = choose|a: int, b: int|
                    self@.in_bounds(a, b) && #[trigger] self@.cell(a, b);
                assert(scanned(self@, 0, self.height as int, a, b) && self@.cell(a, b));
            }
        }
        let r = if min_x > max_x || min_y > max_y {
            BoundingBox { min_x: 0, max_x: self.width - 1, min_y: 0, max_y: self.height - 1 }
        } else {
            BoundingBox { min_x, max_x, min_y, max_y }
        };
        proof {
            if self@.has_set_module() {
                let (a, b) = choose|a: int, b: int|
                    self@.in_bounds(a, b) && #[trigger] self@.cell(a, b);
                assert(scanned(self@, 0, self.height as int, a, b) && self@.cell(a, b));
            } else {
                assert(forall|a: int, b: int|
                    scanned(self@, 0, self.height as int, a, b) && #[trigger] self@.cell(a, b)
                        ==> self@.has_set_module());
            }
            assert(box_is_tight(self@, r));
            lemma_tight_box_unique(self@, r, crop_box(self@));
        }
        r
    }
}

} // verus!
