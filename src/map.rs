use vstd::prelude::*;
use vstd::arithmetic::div_mod::{
    lemma_div_pos_is_pos, lemma_fundamental_div_mod, lemma_fundamental_div_mod_converse,
    lemma_mod_pos_bound,
};
use crate::biome::{biome_of, classify, rgb_of, Biome, BiomeColorTable};

verus! {

/// What a map stores for one cell: its elevation (0..=1000) and its humidity
/// (in millionths, see `HUMIDITY_SCALE`).
#[derive(Clone, Copy, Debug, PartialEq, Eq, Structural)]
pub struct MapColumn {
    pub elevation: u64,
    pub humidity: u64,
}

/// The biome of a stored cell.
pub open spec fn column_biome(c: MapColumn) -> Biome {
    biome_of(c.elevation as int, c.humidity as int)
}

/// Where cell (x, y) sits in a row-major grid of the given width.
pub open spec fn cell_index(width: int, x: int, y: int) -> int {
    y * width + x
}

/// Where channel `c` of the pixel of cell number `i` sits in an RGB raster.
pub open spec fn pixel_offset(i: int, c: int) -> int {
    3 * i + c
}

proof fn lemma_index_parts(width: int, x: int, y: int)
    requires
        0 <= x < width,
        0 <= y,
    ensures
        cell_index(width, x, y) % width == x,
        cell_index(width, x, y) / width == y,
{
    lemma_fundamental_div_mod_converse(y * width + x, width, y, x);
}

proof fn lemma_index_in_grid(width: int, height: int, x: int, y: int)
    requires
        0 <= x < width,
        0 <= y < height,
    ensures
        0 <= cell_index(width, x, y) < width * height,
{
    assert(0 <= y * width + x < width * height) by (nonlinear_arith)
        requires
            0 <= x < width,
            0 <= y < height,
    ;
}

/// Every cell of a width x height grid has an index in 0..width*height, and no
/// two cells share one: each of the width * height stored cells is reached from
/// exactly one position.
pub proof fn lemma_cell_index_unique(width: int, height: int)
    requires
        width >= 0,
        height >= 0,
    ensures
        forall|x: int, y: int|
            0 <= x < width && 0 <= y < height ==> 0 <= #[trigger] cell_index(width, x, y) < width
                * height,
        forall|x1: int, y1: int, x2: int, y2: int|
            0 <= x1 < width && 0 <= y1 < height && 0 <= x2 < width && 0 <= y2 < height
                && #[trigger] cell_index(width, x1, y1) == #[trigger] cell_index(width, x2, y2)
                ==> x1 == x2 && y1 == y2,
{
    assert forall|x: int, y: int| 0 <= x < width && 0 <= y < height implies 0 <= #[trigger] cell_index(
        width,
        x,
        y,
    ) < width * height by {
        lemma_index_in_grid(width, height, x, y);
    }
    assert forall|x1: int, y1: int, x2: int, y2: int|
        0 <= x1 < width && 0 <= y1 < height && 0 <= x2 < width && 0 <= y2 < height
            && #[trigger] cell_index(width, x1, y1) == #[trigger] cell_index(
            width,
            x2,
            y2,
        ) implies x1 == x2 && y1 == y2 by {
        lemma_index_parts(width, x1, y1);
        lemma_index_parts(width, x2, y2);
    }
}

proof fn lemma_index_of(width: int, height: int, i: int)
    requires
        0 <= i < width * height,
        height >= 0,
    ensures
        0 <= i % width < width,
        0 <= i / width < height,
        cell_index(width, i % width, i / width) == i,
{
    assert(width > 0) by (nonlinear_arith)
        requires
            0 <= i < width * height,
            height >= 0,
    ;
    lemma_fundamental_div_mod(i, width);
    lemma_mod_pos_bound(i, width);
    lemma_div_pos_is_pos(i, width);
    assert(i / width < height) by (nonlinear_arith)
        requires
            i < width * height,
            width > 0,
            i == width * (i / width) + i % width,
            0 <= i % width < width,
    ;
    assert(cell_index(width, i % width, i / width) == i) by (nonlinear_arith)
        requires
            i == width * (i / width) + i % width,
    ;
}

/// A rectangular terrain map: one elevation/humidity sample per cell, stored
/// row by row, and the color of each biome.
pub struct TerrainMap {
    width: u64,
    height: u64,
    columns: Vec<MapColumn>,
    biome_color_map: BiomeColorTable,
}

impl TerrainMap {
    /// The number of cells in a row.
    pub closed spec fn spec_width(&self) -> nat {
        self.width as nat
    }

    /// The number of rows.
    pub closed spec fn spec_height(&self) -> nat {
        self.height as nat
    }

    /// The stored cells, row after row.
    pub closed spec fn cells(&self) -> Seq<MapColumn> {
        self.columns@
    }

    /// One stored cell per grid position, and a complete color table.
    pub closed spec fn wf(&self) -> bool {
        &&& self.columns@.len() == self.width * self.height
        &&& self.width * self.height <= usize::MAX
        &&& self.biome_color_map.wf()
    }

    /// The cell at column `x` of row `y`.
    pub open spec fn cell(&self, x: int, y: int) -> MapColumn {
        self.cells()[cell_index(self.spec_width() as int, x, y)]
    }

    /// Each cell holds a value that `sample` may return for its coordinates.
    pub open spec fn sampled_from<F: Fn(u64, u64) -> MapColumn>(&self, sample: F) -> bool {
        forall|x: int, y: int|
            0 <= x < self.spec_width() && 0 <= y < self.spec_height() ==> sample.ensures(
                (x as u64, y as u64),
                #[trigger] self.cell(x, y),
            )
    }

    /// Builds a width x height map, sampling every cell once with `sample(x, y)`.
    pub fn new<F: Fn(u64, u64) -> MapColumn>(width: u64, height: u64, sample: F) -> (r: TerrainMap)
        requires
            width * height <= usize::MAX,
            forall|x: u64, y: u64| x < width && y < height ==> #[trigger] sample.requires((x, y)),
        ensures
            r.wf(),
            r.spec_width() == width,
            r.spec_height() == height,
            r.cells().len() == width * height,
            r.sampled_from(sample),
    {
        let size = (width * height) as usize;
        let mut columns: Vec<MapColumn> = Vec::with_capacity(size);
        let mut y: u64 = 0;
        while y < height
            invariant
                y <= height,
                width * height <= usize::MAX,
                forall|x: u64, y: u64| x < width && y < height ==> #[trigger] sample.requires((x, y)),
                columns@.len() == y * width,
                forall|i: int|
                    0 <= i < columns@.len() ==> sample.ensures(
                        ((i % width as int) as u64, (i / width as int) as u64),
                        #[trigger] columns@[i],
                    ),
            decreases height - y,
        {
            let mut x: u64 = 0;
            while x < width
                invariant
                    x <= width,
                    y < height,
                    width * height <= usize::MAX,
                    forall|x: u64, y: u64| x < width && y < height ==> #[trigger] sample.requires((x, y)),
                    columns@.len() == y * width + x,
                    forall|i: int|
                        0 <= i < columns@.len() ==> sample.ensures(
                            ((i % width as int) as u64, (i / width as int) as u64),
                            #[trigger] columns@[i],
                        ),
                decreases width - x,
            {
                let c = sample(x, y);
                proof {
                    lemma_index_parts(width as int, x as int, y as int);
                }
                columns.push(c);
                x = x + 1;
            }
            assert(columns@.len() == (y + 1) * width) by (nonlinear_arith)
                requires
                    columns@.len() == y * width + width,
            ;
            y = y + 1;
        }
        assert(columns@.len() == width * height) by (nonlinear_arith)
            requires
                columns@.len() == y * width,
                y == height,
        ;
        let r = TerrainMap { width, height, columns, biome_color_map: BiomeColorTable::new() };
        assert forall|x: int, y: int|
            0 <= x < r.spec_width() && 0 <= y < r.spec_height() implies sample.ensures(
            (x as u64, y as u64),
            #[trigger] r.cell(x, y),
        ) by {
            lemma_index_in_grid(width as int, height as int, x, y);
            lemma_index_parts(width as int, x, y);
        }
        r
    }

    /// The number of cells in a row.
    pub fn width(&self) -> (r: u64)
        ensures
            r == self.spec_width(),
    {
        self.width
    }

    /// The number of rows.
    pub fn height(&self) -> (r: u64)
        ensures
            r == self.spec_height(),
    {
        self.height
    }

    /// The cell at column `x` of row `y`.
    pub fn column(&self, x: u64, y: u64) -> (r: MapColumn)
        requires
            self.wf(),
            x < self.spec_width(),
            y < self.spec_height(),
        ensures
            r == self.cell(x as int, y as int),
    {
        self.columns[self.map_idx(x, y)]
    }

    /// The biome of the cell at column `x` of row `y`.
    pub fn get_biome(&self, x: u64, y: u64) -> (r: Biome)
        requires
            self.wf(),
            x < self.spec_width(),
            y < self.spec_height(),
        ensures
            r == column_biome(self.cell(x as int, y as int)),
    {
        let column = self.columns[self.map_idx(x, y)];
        classify(column.elevation, column.humidity)
    }

    fn map_idx(&self, x: u64, y: u64) -> (r: usize)
        requires
            self.wf(),
            x < self.width,
            y < self.height,
        ensures
            r as int == cell_index(self.width as int, x as int, y as int),
            r < self.columns@.len(),
    {
        proof {
            lemma_index_in_grid(self.width as int, self.height as int, x as int, y as int);
        }
        (y * self.width + x) as usize
    }

    /// The display color of `biome`.
    pub fn color_for(&self, biome: Biome) -> (r: [u8; 3])
        requires
            self.wf(),
        ensures
            r == rgb_of(biome),
    {
        self.biome_color_map.get(biome)
    }

    /// The map as an RGB raster: three bytes per cell, row after row, each the
    /// color of the cell's biome.
    pub fn render_rgb(&self) -> (r: Vec<u8>)
        requires
            self.wf(),
            3 * self.spec_width() * self.spec_height() <= usize::MAX,
        ensures
            r@.len() == 3 * self.spec_width() * self.spec_height(),
            forall|x: int, y: int, c: int|
                #![trigger self.cell(x, y), pixel_offset(cell_index(self.spec_width() as int, x, y), c)]
                0 <= x < self.spec_width() && 0 <= y < self.spec_height() && 0 <= c < 3 ==> r@[pixel_offset(
                    cell_index(self.spec_width() as int, x, y),
                    c,
                )] == rgb_of(column_biome(self.cell(x, y)))@[c],
    {
        let n = self.columns.len();
        assert(3 * n == 3 * self.spec_width() * self.spec_height()) by (nonlinear_arith)
            requires
                n == self.width * self.height,
                self.spec_width() == self.width,
                self.spec_height() == self.height,
        ;
        let mut out: Vec<u8> = Vec::with_capacity(3 * n);
        let mut i: usize = 0;
        while i < n
            invariant
                self.wf(),
                n == self.columns@.len(),
                3 * n <= usize::MAX,
                i <= n,
                out@.len() == 3 * i,
                forall|j: int, c: int|
                    0 <= j < i && 0 <= c < 3 ==> out@[#[trigger] pixel_offset(j, c)] == rgb_of(
                        column_biome(self.columns@[j]),
                    )@[c],
            decreases n - i,
        {
            let column = self.columns[i];
            let rgb = self.biome_color_map.get(classify(column.elevation, column.humidity));
            out.push(rgb[0]);
            out.push(rgb[1]);
            out.push(rgb[2]);
            i = i + 1;
        }
        assert forall|x: int, y: int, c: int|
            #![trigger self.cell(x, y), pixel_offset(cell_index(self.spec_width() as int, x, y), c)]
            0 <= x < self.spec_width() && 0 <= y < self.spec_height() && 0 <= c < 3 implies out@[pixel_offset(
            cell_index(self.spec_width() as int, x, y),
            c,
        )] == rgb_of(column_biome(self.cell(x, y)))@[c] by {
            lemma_index_in_grid(self.width as int, self.height as int, x, y);
        }
        out
    }
}

/// Building a map is repeatable: when the sampler gives a single value for each
/// coordinate, two maps of the same dimensions sampled from it hold the same cells.
pub proof fn lemma_new_repeatable<F: Fn(u64, u64) -> MapColumn>(sample: F, m1: TerrainMap, m2: TerrainMap)
    requires
        forall|x: u64, y: u64, c1: MapColumn, c2: MapColumn|
            #[trigger] sample.ensures((x, y), c1) && #[trigger] sample.ensures((x, y), c2) ==> c1
                == c2,
        m1.wf(),
        m2.wf(),
        m1.spec_width() == m2.spec_width(),
        m1.spec_height() == m2.spec_height(),
        m1.sampled_from(sample),
        m2.sampled_from(sample),
    ensures
        m1.cells() == m2.cells(),
{
    let w = m1.spec_width() as int;
    let h = m1.spec_height() as int;
    assert forall|i: int| 0 <= i < m1.cells().len() implies m1.cells()[i] == m2.cells()[i] by {
        lemma_index_of(w, h, i);
        let x = i % w;
        let y = i / w;
        assert(cell_index(w, x, y) == i);
        assert(m1.cell(x, y) == m1.cells()[i]);
        assert(m2.cell(x, y) == m2.cells()[i]);
    }
    assert(m1.cells() =~= m2.cells());
}

} // verus!
