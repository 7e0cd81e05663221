use vstd::prelude::*;
use vstd::arithmetic::div_mod::{lemma_fundamental_div_mod, lemma_fundamental_div_mod_converse};
use crate::color::Color;
use crate::render::Dimensions;
use crate::simulator::SuperSamplingFactor;

verus! {

/// The sum of `f` over the indices `lo..hi`.
pub open spec fn sum_range(f: spec_fn(int) -> int, lo: int, hi: int) -> int
    decreases hi - lo,
{
    if hi <= lo {
        0
    } else {
        sum_range(f, lo, hi - 1) + f(hi - 1)
    }
}

/// The sum of `f` over the cells of rows `r0..r1` and columns `c0..c1` of a
/// row-major grid that is `w` cells wide.
pub open spec fn block_sum(f: spec_fn(int) -> int, w: int, r0: int, r1: int, c0: int, c1: int) -> int
    decreases r1 - r0,
{
    if r1 <= r0 {
        0
    } else {
        block_sum(f, w, r0, r1 - 1, c0, c1) + sum_range(f, (r1 - 1) * w + c0, (r1 - 1) * w + c1)
    }
}

/// The hit count of each cell, and nothing outside the histogram.
pub open spec fn counts(d: Seq<usize>) -> spec_fn(int) -> int {
    |k: int| if 0 <= k < d.len() { d[k] as int } else { 0 }
}

pub open spec fn reds(c: Seq<Color>) -> spec_fn(int) -> int {
    |k: int| if 0 <= k < c.len() { c[k].r as int } else { 0 }
}

pub open spec fn greens(c: Seq<Color>) -> spec_fn(int) -> int {
    |k: int| if 0 <= k < c.len() { c[k].g as int } else { 0 }
}

pub open spec fn blues(c: Seq<Color>) -> spec_fn(int) -> int {
    |k: int| if 0 <= k < c.len() { c[k].b as int } else { 0 }
}

/// All the hits a density histogram holds.
pub open spec fn total(d: Seq<usize>) -> int {
    sum_range(counts(d), 0, d.len() as int)
}

pub open spec fn nowhere_negative(f: spec_fn(int) -> int) -> bool {
    forall|k: int| #[trigger] f(k) >= 0
}

pub proof fn lemma_sum_range_split(f: spec_fn(int) -> int, a: int, b: int, c: int)
    requires
        a <= b <= c,
    ensures
        sum_range(f, a, c) == sum_range(f, a, b) + sum_range(f, b, c),
    decreases c - b,
{
    if b < c {
        lemma_sum_range_split(f, a, b, c - 1);
    }
}

pub proof fn lemma_sum_range_nonnegative(f: spec_fn(int) -> int, a: int, b: int)
    requires
        nowhere_negative(f),
    ensures
        sum_range(f, a, b) >= 0,
    decreases b - a,
{
    if a < b {
        lemma_sum_range_nonnegative(f, a, b - 1);
        assert(f(b - 1) >= 0);
    }
}

/// Where no term is negative, a part of a range sums to no more than the whole.
pub proof fn lemma_sum_range_within(f: spec_fn(int) -> int, a: int, b: int, c: int, d: int)
    requires
        nowhere_negative(f),
        a <= b <= c <= d,
    ensures
        sum_range(f, b, c) <= sum_range(f, a, d),
{
    lemma_sum_range_split(f, a, b, d);
    lemma_sum_range_split(f, b, c, d);
    lemma_sum_range_nonnegative(f, a, b);
    lemma_sum_range_nonnegative(f, c, d);
}

pub proof fn lemma_sum_range_agrees(f: spec_fn(int) -> int, g: spec_fn(int) -> int, a: int, b: int)
    requires
        forall|k: int| a <= k < b ==> #[trigger] f(k) == g(k),
    ensures
        sum_range(f, a, b) == sum_range(g, a, b),
    decreases b - a,
{
    if a < b {
        lemma_sum_range_agrees(f, g, a, b - 1);
    }
}

/// Changing one cell changes the total by as much.
pub proof fn lemma_total_update(d: Seq<usize>, k: int, v: usize)
    requires
        0 <= k < d.len(),
    ensures
        total(d.update(k, v)) == total(d) - d[k] + v,
{
    let e = d.update(k, v);
    let n = d.len() as int;
    lemma_sum_range_split(counts(d), 0, k, n);
    lemma_sum_range_split(counts(d), k, k + 1, n);
    lemma_sum_range_split(counts(e), 0, k, n);
    lemma_sum_range_split(counts(e), k, k + 1, n);
    lemma_sum_range_agrees(counts(d), counts(e), 0, k);
    lemma_sum_range_agrees(counts(d), counts(e), k + 1, n);
    assert(sum_range(counts(d), k, k + 1) == d[k]) by {
        assert(sum_range(counts(d), k, k) == 0);
    }
    assert(sum_range(counts(e), k, k + 1) == v) by {
        assert(sum_range(counts(e), k, k) == 0);
    }
}

/// A histogram of zeros holds no hit.
pub proof fn lemma_total_of_zeros(d: Seq<usize>)
    requires
        forall|k: int| 0 <= k < d.len() ==> d[k] == 0,
    ensures
        total(d) == 0,
{
    lemma_sum_range_zero(counts(d), 0, d.len() as int);
}

proof fn lemma_sum_range_zero(f: spec_fn(int) -> int, a: int, b: int)
    requires
        forall|k: int| a <= k < b ==> #[trigger] f(k) == 0,
    ensures
        sum_range(f, a, b) == 0,
    decreases b - a,
{
    if a < b {
        lemma_sum_range_zero(f, a, b - 1);
    }
}

/// No cell holds more than the whole histogram does.
pub proof fn lemma_cell_within_total(d: Seq<usize>, k: int)
    requires
        0 <= k < d.len(),
    ensures
        d[k] <= total(d),
{
    lemma_sum_range_within(counts(d), 0, k, k + 1, d.len() as int);
    assert(sum_range(counts(d), k, k + 1) == d[k]) by {
        assert(sum_range(counts(d), k, k) == 0);
    }
}

/// Where a block that starts at `start` and is `size` long ends on an axis of
/// `limit` cells: it is cut off at the edge, and empty if it starts beyond it.
pub open spec fn block_end(start: int, size: int, limit: int) -> int {
    if start + size <= limit {
        start + size
    } else if start <= limit {
        limit
    } else {
        start
    }
}

/// How many cells of the grid the block at `(row, col)` covers.
pub open spec fn block_cells(dims: Dimensions, row: int, col: int, size: int) -> int {
    (block_end(row, size, dims.height as int) - row) * (block_end(col, size, dims.width as int)
        - col)
}

/// The sum of `f` over the cells of the grid that the block at `(row, col)` covers.
pub open spec fn block_total(
    f: spec_fn(int) -> int,
    dims: Dimensions,
    row: int,
    col: int,
    size: int,
) -> int {
    block_sum(
        f,
        dims.width as int,
        row,
        block_end(row, size, dims.height as int),
        col,
        block_end(col, size, dims.width as int),
    )
}

/// The hits in the block at `(row, col)`.
pub open spec fn block_density(d: Seq<usize>, dims: Dimensions, row: int, col: int, size: int) -> int {
    block_total(counts(d), dims, row, col, size)
}

/// The mean colour of the block at `(row, col)`, each channel rounded down.
/// A block that covers no cell of the grid is black.
pub open spec fn block_color(c: Seq<Color>, dims: Dimensions, row: int, col: int, size: int) -> Color {
    let n = block_cells(dims, row, col, size);
    if n <= 0 {
        Color::black()
    } else {
        Color {
            r: (block_total(reds(c), dims, row, col, size) / n) as u8,
            g: (block_total(greens(c), dims, row, col, size) / n) as u8,
            b: (block_total(blues(c), dims, row, col, size) / n) as u8,
        }
    }
}

/// The rows of a block lie in as many rows of the grid, one after the other.
pub proof fn lemma_block_within_rows(f: spec_fn(int) -> int, w: int, r0: int, r1: int, c0: int, c1: int)
    requires
        nowhere_negative(f),
        0 <= c0 <= c1 <= w,
        r0 <= r1,
    ensures
        0 <= block_sum(f, w, r0, r1, c0, c1) <= sum_range(f, r0 * w, r1 * w),
    decreases r1 - r0,
{
    if r0 < r1 {
        let r = r1 - 1;
        lemma_block_within_rows(f, w, r0, r, c0, c1);
        assert(r * w + w == r1 * w) by (nonlinear_arith)
            requires
                r == r1 - 1,
        ;
        assert(r0 * w <= r * w) by (nonlinear_arith)
            requires
                r0 <= r,
                0 <= w,
        ;
        lemma_sum_range_within(f, r * w, r * w + c0, r * w + c1, r1 * w);
        lemma_sum_range_nonnegative(f, r * w + c0, r * w + c1);
        lemma_sum_range_split(f, r0 * w, r * w, r1 * w);
    }
}

fn end_of_block(start: usize, size: usize, limit: usize) -> (end: usize)
    ensures
        end == block_end(start as int, size as int, limit as int),
{
    if start >= limit {
        start
    } else if size >= limit - start {
        limit
    } else {
        start + size
    }
}

/// One cell of the reduced histograms: the hits in the block of `factor` by
/// `factor` cells at `(row, col)`, and the mean colour of that block. Cells
/// beyond the edge of the grid do not count; a block with no cell in the grid
/// gives no hit and black.
pub fn downsample_cell(
    density: &Vec<usize>,
    color: &Vec<Color>,
    dims: Dimensions,
    row: usize,
    col: usize,
    factor: SuperSamplingFactor,
) -> (cell: (usize, Color))
    requires
        density.len() == dims.area(),
        color.len() == dims.area(),
        total(density@) <= usize::MAX,
    ensures
        cell.0 == block_density(density@, dims, row as int, col as int, factor.scale()),
        cell.1 == block_color(color@, dims, row as int, col as int, factor.scale()),
{
    let size: usize = factor.value() as usize;
    let height: usize = dims.height as usize;
    let width: usize = dims.width as usize;
    let row_end: usize = end_of_block(row, size, height);
    let col_end: usize = end_of_block(col, size, width);
    let ghost w = width as int;
    let ghost fd = counts(density@);
    let ghost fr = reds(color@);
    let ghost fg = greens(color@);
    let ghost fb = blues(color@);
    let mut hits: usize = 0;
    let mut red: usize = 0;
    let mut green: usize = 0;
    let mut blue: usize = 0;
    let mut r: usize = row;
    while r < row_end
        invariant
            row <= r <= row_end,
            row_end - row <= 8,
            col_end - col <= 8,
            row_end == block_end(row as int, size as int, height as int),
            col_end == block_end(col as int, size as int, width as int),
            width == dims.width,
            height == dims.height,
            w == width,
            density.len() == dims.area(),
            color.len() == dims.area(),
            total(density@) <= usize::MAX,
            fd == counts(density@),
            fr == reds(color@),
            fg == greens(color@),
            fb == blues(color@),
            hits == block_sum(fd, w, row as int, r as int, col as int, col_end as int),
            red == block_sum(fr, w, row as int, r as int, col as int, col_end as int),
            green == block_sum(fg, w, row as int, r as int, col as int, col_end as int),
            blue == block_sum(fb, w, row as int, r as int, col as int, col_end as int),
            red <= 2040 * (r - row),
            green <= 2040 * (r - row),
            blue <= 2040 * (r - row),
        decreases row_end - r,
    {
        let mut c: usize = col;
        while c < col_end
            invariant
                row <= r < row_end,
                r < height,
                col <= c <= col_end,
                row_end - row <= 8,
                col_end - col <= 8,
                row_end == block_end(row as int, size as int, height as int),
                col_end == block_end(col as int, size as int, width as int),
                width == dims.width,
                height == dims.height,
                w == width,
                density.len() == dims.area(),
                color.len() == dims.area(),
                total(density@) <= usize::MAX,
                fd == counts(density@),
                fr == reds(color@),
                fg == greens(color@),
                fb == blues(color@),
                hits == block_sum(fd, w, row as int, r as int, col as int, col_end as int)
                    + sum_range(fd, r * w + col, r * w + c),
                red == block_sum(fr, w, row as int, r as int, col as int, col_end as int)
                    + sum_range(fr, r * w + col, r * w + c),
                green == block_sum(fg, w, row as int, r as int, col as int, col_end as int)
                    + sum_range(fg, r * w + col, r * w + c),
                blue == block_sum(fb, w, row as int, r as int, col as int, col_end as int)
                    + sum_range(fb, r * w + col, r * w + c),
                red <= 2040 * (r - row) + 255 * (c - col),
                green <= 2040 * (r - row) + 255 * (c - col),
                blue <= 2040 * (r - row) + 255 * (c - col),
            decreases col_end - c,
        {
            proof {
                lemma_cell_index(r as int, c as int, height as int, w);
                lemma_partial_block_within_total(
                    density@,
                    dims,
                    row as int,
                    r as int,
                    col as int,
                    col_end as int,
                    c as int,
                );
            }
            let idx: usize = r * width + c;
            let tint: Color = color[idx];
            hits = hits + density[idx];
            red = red + tint.r as usize;
            green = green + tint.g as usize;
            blue = blue + tint.b as usize;
            c = c + 1;
        }
        r = r + 1;
    }
    let rows: usize = row_end - row;
    let cols: usize = col_end - col;
    assert(rows * cols <= 64) by (nonlinear_arith)
        requires
            rows <= 8,
            cols <= 8,
    ;
    let cells: usize = rows * cols;
    let mean = if cells == 0 {
        Color { r: 0, g: 0, b: 0 }
    } else {
        Color { r: (red / cells) as u8, g: (green / cells) as u8, b: (blue / cells) as u8 }
    };
    (hits, mean)
}

/// The cell at `(r, c)` of a grid has an index of its own in the histogram.
pub proof fn lemma_cell_index(r: int, c: int, h: int, w: int)
    requires
        0 <= r < h,
        0 <= c < w,
    ensures
        0 <= r * w + c < h * w,
        0 <= r * w,
{
    assert(r * w + w <= h * w) by (nonlinear_arith)
        requires
            r + 1 <= h,
            0 <= w,
    ;
    assert(0 <= r * w) by (nonlinear_arith)
        requires
            0 <= r,
            0 <= w,
    ;
}

/// The rows of a block gone through so far, and the cells of the next row up
/// to and with column `c`, hold no more hits than the whole histogram.
proof fn lemma_partial_block_within_total(
    d: Seq<usize>,
    dims: Dimensions,
    r0: int,
    r: int,
    c0: int,
    c1: int,
    c: int,
)
    requires
        d.len() == dims.area(),
        0 <= r0 <= r < dims.height,
        0 <= c0 <= c < c1 <= dims.width,
    ensures
        block_sum(counts(d), dims.width as int, r0, r, c0, c1) + sum_range(
            counts(d),
            r * dims.width + c0,
            r * dims.width + c + 1,
        ) <= total(d),
        sum_range(counts(d), r * dims.width + c0, r * dims.width + c + 1) == sum_range(
            counts(d),
            r * dims.width + c0,
            r * dims.width + c,
        ) + d[r * dims.width + c],
        0 <= r * dims.width + c < d.len(),
{
    let f = counts(d);
    let w = dims.width as int;
    let h = dims.height as int;
    assert(nowhere_negative(f));
    lemma_cell_index(r, c, h, w);
    assert(r * w + w <= h * w) by (nonlinear_arith)
        requires
            r + 1 <= h,
            0 <= w,
    ;
    assert(0 <= r0 * w) by (nonlinear_arith)
        requires
            0 <= r0,
            0 <= w,
    ;
    assert(r0 * w <= r * w) by (nonlinear_arith)
        requires
            r0 <= r,
            0 <= w,
    ;
    lemma_block_within_rows(f, w, r0, r, c0, c1);
    lemma_sum_range_within(f, r * w, r * w + c0, r * w + c + 1, r * w + w);
    lemma_sum_range_within(f, 0, r0 * w, r * w + w, h * w);
    lemma_sum_range_split(f, r0 * w, r * w, r * w + w);
}

/// The dimensions of the grid that is left when every block of `factor` by
/// `factor` cells becomes one cell. Cells that fill no whole block are left out.
pub open spec fn reduced(dims: Dimensions, factor: SuperSamplingFactor) -> Dimensions {
    Dimensions {
        width: (dims.width as int / factor.scale()) as u32,
        height: (dims.height as int / factor.scale()) as u32,
    }
}

/// The density histogram at the reduced size: each cell holds the hits of its block.
pub open spec fn downsampled_density(
    d: Seq<usize>,
    dims: Dimensions,
    factor: SuperSamplingFactor,
) -> Seq<usize> {
    let out = reduced(dims, factor);
    Seq::new(
        out.area() as nat,
        |k: int|
            block_density(
                d,
                dims,
                (k / out.width as int) * factor.scale(),
                (k % out.width as int) * factor.scale(),
                factor.scale(),
            ) as usize,
    )
}

/// The colour histogram at the reduced size: each cell holds the mean colour of its block.
pub open spec fn downsampled_color(
    c: Seq<Color>,
    dims: Dimensions,
    factor: SuperSamplingFactor,
) -> Seq<Color> {
    let out = reduced(dims, factor);
    Seq::new(
        out.area() as nat,
        |k: int|
            block_color(
                c,
                dims,
                (k / out.width as int) * factor.scale(),
                (k % out.width as int) * factor.scale(),
                factor.scale(),
            ),
    )
}

/// The cell `k` of the reduced grid stands for a block that lies wholly in the grid.
proof fn lemma_reduced_cell(dims: Dimensions, factor: SuperSamplingFactor, k: int)
    requires
        0 <= k < reduced(dims, factor).area(),
    ensures
        reduced(dims, factor).width > 0,
        0 <= k / (reduced(dims, factor).width as int) < reduced(dims, factor).height,
        0 <= k % (reduced(dims, factor).width as int) < reduced(dims, factor).width,
        0 <= (k / (reduced(dims, factor).width as int)) * factor.scale(),
        (k / (reduced(dims, factor).width as int)) * factor.scale() + factor.scale()
            <= dims.height,
        0 <= (k % (reduced(dims, factor).width as int)) * factor.scale(),
        (k % (reduced(dims, factor).width as int)) * factor.scale() + factor.scale()
            <= dims.width,
        reduced(dims, factor).area() <= dims.area(),
{
    let s = factor.scale();
    let h = dims.height as int;
    let w = dims.width as int;
    let oh = h / s;
    let ow = w / s;
    assert(0 <= oh <= h && oh * s <= h) by (nonlinear_arith)
        requires
            oh == h / s,
            0 <= h,
            1 <= s,
    ;
    assert(0 <= ow <= w && ow * s <= w) by (nonlinear_arith)
        requires
            ow == w / s,
            0 <= w,
            1 <= s,
    ;
    assert(reduced(dims, factor).width == ow);
    assert(reduced(dims, factor).height == oh);
    assert(ow > 0) by (nonlinear_arith)
        requires
            0 <= k < ow * oh,
            0 <= ow,
            0 <= oh,
    ;
    let r = k / ow;
    let c = k % ow;
    lemma_fundamental_div_mod(k, ow);
    assert(0 <= r < oh) by (nonlinear_arith)
        requires
            k == ow * r + c,
            0 <= c < ow,
            0 <= k < ow * oh,
    ;
    assert(0 <= r * s && r * s + s <= oh * s) by (nonlinear_arith)
        requires
            0 <= r < oh,
            1 <= s,
    ;
    assert(0 <= c * s && c * s + s <= ow * s) by (nonlinear_arith)
        requires
            0 <= c < ow,
            1 <= s,
    ;
    assert(ow * oh <= w * h) by (nonlinear_arith)
        requires
            0 <= ow <= w,
            0 <= oh <= h,
    ;
}

/// Reduces a pair of histograms laid out row by row on a grid of `dims` cells:
/// each block of `factor` by `factor` cells becomes one cell, which holds the
/// hits of the block and the mean of its colours.
pub fn downsample(
    density: &Vec<usize>,
    color: &Vec<Color>,
    dims: Dimensions,
    factor: SuperSamplingFactor,
) -> (out: (Vec<usize>, Vec<Color>))
    requires
        density.len() == dims.area(),
        color.len() == dims.area(),
        total(density@) <= usize::MAX,
    ensures
        out.0@ == downsampled_density(density@, dims, factor),
        out.1@ == downsampled_color(color@, dims, factor),
{
    let size: u32 = factor.value();
    let out_width: usize = (dims.width / size) as usize;
    let out_height: usize = (dims.height / size) as usize;
    let ghost small = reduced(dims, factor);
    assert(out_width * out_height <= dims.area()) by (nonlinear_arith)
        requires
            out_width <= dims.width,
            out_height <= dims.height,
            dims.area() == dims.width as int * dims.height as int,
    ;
    let cells: usize = out_width * out_height;
    let mut hist: Vec<usize> = Vec::new();
    let mut tints: Vec<Color> = Vec::new();
    let mut k: usize = 0;
    while k < cells
        invariant
            k <= cells,
            cells == small.area(),
            small == reduced(dims, factor),
            out_width == small.width,
            size == factor.scale(),
            density.len() == dims.area(),
            color.len() == dims.area(),
            total(density@) <= usize::MAX,
            hist.len() == k,
            tints.len() == k,
            forall|j: int|
                0 <= j < k ==> hist[j] == #[trigger] downsampled_density(
                    density@,
                    dims,
                    factor,
                )[j],
            forall|j: int|
                0 <= j < k ==> tints[j] == #[trigger] downsampled_color(color@, dims, factor)[j],
        decreases cells - k,
    {
        proof {
            lemma_reduced_cell(dims, factor, k as int);
        }
        let row: usize = (k / out_width) * (size as usize);
        let col: usize = (k % out_width) * (size as usize);
        let cell = downsample_cell(density, color, dims, row, col, factor);
        hist.push(cell.0);
        tints.push(cell.1);
        k = k + 1;
    }
    assert(hist@ =~= downsampled_density(density@, dims, factor));
    assert(tints@ =~= downsampled_color(color@, dims, factor));
    (hist, tints)
}

/// Each cell of the reduced density histogram holds the sum of the hits of
/// the block of `factor` by `factor` cells that it stands for, and that block
/// lies wholly in the grid.
pub proof fn lemma_downsampled_block(
    d: Seq<usize>,
    dims: Dimensions,
    factor: SuperSamplingFactor,
    row: int,
    col: int,
)
    requires
        d.len() == dims.area(),
        total(d) <= usize::MAX,
        0 <= row < reduced(dims, factor).height,
        0 <= col < reduced(dims, factor).width,
    ensures
        0 <= row * reduced(dims, factor).width + col < downsampled_density(d, dims, factor).len(),
        0 <= row * factor.scale(),
        row * factor.scale() + factor.scale() <= dims.height,
        0 <= col * factor.scale(),
        col * factor.scale() + factor.scale() <= dims.width,
        downsampled_density(d, dims, factor)[row * reduced(dims, factor).width + col] as int
            == block_sum(
            counts(d),
            dims.width as int,
            row * factor.scale(),
            row * factor.scale() + factor.scale(),
            col * factor.scale(),
            col * factor.scale() + factor.scale(),
        ),
{
    let s = factor.scale();
    let w = dims.width as int;
    let h = dims.height as int;
    let ow = reduced(dims, factor).width as int;
    let oh = reduced(dims, factor).height as int;
    let k = row * ow + col;
    lemma_cell_index(row, col, oh, ow);
    assert(oh * ow == ow * oh) by (nonlinear_arith);
    assert(k == ow * row + col) by (nonlinear_arith)
        requires
            k == row * ow + col,
    ;
    lemma_fundamental_div_mod_converse(k, ow, row, col);
    lemma_reduced_cell(dims, factor, k);
    let r0 = row * s;
    let c0 = col * s;
    assert(block_end(r0, s, h) == r0 + s);
    assert(block_end(c0, s, w) == c0 + s);
    let f = counts(d);
    assert(nowhere_negative(f));
    lemma_block_within_rows(f, w, r0, r0 + s, c0, c0 + s);
    assert(0 <= r0 * w && (r0 + s) * w <= h * w) by (nonlinear_arith)
        requires
            0 <= r0,
            r0 + s <= h,
            0 <= w,
            0 <= s,
    ;
    assert(r0 * w <= (r0 + s) * w) by (nonlinear_arith)
        requires
            0 <= s,
            0 <= w,
    ;
    lemma_sum_range_within(f, 0, r0 * w, (r0 + s) * w, h * w);
    assert(block_density(d, dims, r0, c0, s) == block_sum(f, w, r0, r0 + s, c0, c0 + s));
}

/// A block of one cell sums to what stands in that cell.
proof fn lemma_unit_block(f: spec_fn(int) -> int, w: int, r: int, c: int)
    ensures
        block_sum(f, w, r, r + 1, c, c + 1) == f(r * w + c),
{
    assert(block_sum(f, w, r, r, c, c + 1) == 0);
    assert(sum_range(f, r * w + c, r * w + c) == 0);
    assert(sum_range(f, r * w + c, r * w + c + 1) == sum_range(f, r * w + c, r * w + c) + f(
        r * w + c,
    ));
}

proof fn lemma_identity_cell(d: Seq<usize>, c: Seq<Color>, dims: Dimensions, k: int)
    requires
        d.len() == dims.area(),
        c.len() == dims.area(),
        0 <= k < dims.area(),
    ensures
        reduced(dims, SuperSamplingFactor::X1) == dims,
        downsampled_density(d, dims, SuperSamplingFactor::X1)[k] == d[k],
        downsampled_color(c, dims, SuperSamplingFactor::X1)[k] == c[k],
{
    let factor = SuperSamplingFactor::X1;
    let w = dims.width as int;
    let h = dims.height as int;
    assert(reduced(dims, factor) == dims);
    lemma_reduced_cell(dims, factor, k);
    lemma_fundamental_div_mod(k, w);
    let r = k / w;
    let col = k % w;
    assert(r * 1 == r && col * 1 == col) by (nonlinear_arith);
    assert(k == r * w + col) by (nonlinear_arith)
        requires
            k == w * r + col,
    ;
    lemma_unit_block(counts(d), w, r, col);
    lemma_unit_block(reds(c), w, r, col);
    lemma_unit_block(greens(c), w, r, col);
    lemma_unit_block(blues(c), w, r, col);
    assert(block_end(r, 1, h) == r + 1);
    assert(block_end(col, 1, w) == col + 1);
    assert(block_cells(dims, r, col, 1) == 1) by (nonlinear_arith)
        requires
            block_cells(dims, r, col, 1) == (block_end(r, 1, h) - r) * (block_end(col, 1, w) - col),
            block_end(r, 1, h) == r + 1,
            block_end(col, 1, w) == col + 1,
    ;
    assert(block_density(d, dims, r, col, 1) == d[k]);
    assert(block_color(c, dims, r, col, 1) == c[k]);
}

/// With one cell to a block, reducing changes neither histogram.
pub proof fn lemma_downsample_one_is_identity(d: Seq<usize>, c: Seq<Color>, dims: Dimensions)
    requires
        d.len() == dims.area(),
        c.len() == dims.area(),
    ensures
        downsampled_density(d, dims, SuperSamplingFactor::X1) == d,
        downsampled_color(c, dims, SuperSamplingFactor::X1) == c,
{
    let factor = SuperSamplingFactor::X1;
    assert(reduced(dims, factor) == dims);
    assert forall|k: int| 0 <= k < d.len() implies #[trigger] downsampled_density(d, dims, factor)[k]
        == d[k] by {
        lemma_identity_cell(d, c, dims, k);
    }
    assert forall|k: int| 0 <= k < c.len() implies #[trigger] downsampled_color(c, dims, factor)[k]
        == c[k] by {
        lemma_identity_cell(d, c, dims, k);
    }
    assert(downsampled_density(d, dims, factor) =~= d);
    assert(downsampled_color(c, dims, factor) =~= c);
}

} // verus!
