//! Selection of the well-exposed part of an exposure bracket, judged by
//! pixel statistics inside the circular image of a fisheye lens.

use vstd::prelude::*;
use rayon::iter::IntoParallelRefIterator;
use rayon::iter::ParallelIterator;
use crate::pipeline::PipelineError;
use crate::formats::{is_jpeg, jpeg_path};
use crate::text::concat;

verus! {

/// Fisheye geometry in pixels: the diameter of the image circle and the
/// offsets of the left and bottom edges of the square circumscribing it.
#[derive(Debug, Clone, Copy)]
pub struct FisheyeGeometry {
    pub diameter: u32,
    pub xleft: u32,
    pub ydown: u32,
}

/// A decoded image: `3 * width * height` samples, red, green and blue for
/// each pixel, row after row.
pub struct Raster {
    pub width: u32,
    pub height: u32,
    pub samples: Vec<u8>,
}

/// Statistics of one image inside the mask: the number of near-black and
/// near-white pixels, and the sum of the luma of all masked pixels, in
/// thousandths.
#[derive(Debug, Clone, Copy)]
pub struct ExposureStats {
    pub underexposed: u64,
    pub overexposed: u64,
    pub luma_sum: u128,
}

/// Pixel `(x, y)` lies in the image circle: its distance to the center is
/// at most the radius. Both sides are doubled so that half pixels stay exact.
pub open spec fn in_circle(g: FisheyeGeometry, x: int, y: int) -> bool {
    let dx = 2 * x - 2 * g.xleft - g.diameter;
    let dy = 2 * y - 2 * g.ydown - g.diameter;
    dx * dx + dy * dy <= g.diameter * g.diameter
}

/// `mask` marks, row after row, the pixels of a grid `width` pixels wide
/// and `height` rows high that lie in the image circle.
pub open spec fn is_circle_mask(mask: Seq<bool>, width: int, height: int, g: FisheyeGeometry) -> bool {
    &&& mask.len() == width * height
    &&& forall|i: int| 0 <= i < mask.len() ==> #[trigger] mask[i] == in_circle(g, i % width, i / width)
}

proof fn lemma_square_bounds(v: i128)
    requires
        -0x3_0000_0000 <= v <= 0x3_0000_0000,
    ensures
        0 <= v * v <= 0x9_0000_0000_0000_0000,
{
    assert(0 <= v * v <= 0x9_0000_0000_0000_0000) by (nonlinear_arith)
        requires
            -0x3_0000_0000 <= v <= 0x3_0000_0000,
    ;
}

fn inside(g: FisheyeGeometry, x: u32, y: u32) -> (r: bool)
    ensures
        r == in_circle(g, x as int, y as int),
{
    let d = g.diameter as i128;
    let dx = 2 * (x as i128) - 2 * (g.xleft as i128) - d;
    let dy = 2 * (y as i128) - 2 * (g.ydown as i128) - d;
    proof {
        lemma_square_bounds(dx);
        lemma_square_bounds(dy);
        lemma_square_bounds(d);
    }
    dx * dx + dy * dy <= d * d
}

/// Builds the mask of the image circle over a `width` by `height` grid.
pub fn circle_mask(width: u32, height: u32, g: FisheyeGeometry) -> (mask: Vec<bool>)
    requires
        width * height <= usize::MAX,
    ensures
        is_circle_mask(mask@, width as int, height as int, g),
{
    let mut mask: Vec<bool> = Vec::new();
    let mut y: u32 = 0;
    while y < height
        invariant
            y <= height,
            width * height <= usize::MAX,
            mask@.len() == y * width,
            forall|i: int| 0 <= i < mask@.len() ==> #[trigger] mask@[i] == in_circle(g, i % width as int, i / width as int),
        decreases height - y,
    {
        let mut x: u32 = 0;
        while x < width
            invariant
                x <= width,
                y < height,
                width * height <= usize::MAX,
                mask@.len() == y * width + x,
                forall|i: int| 0 <= i < mask@.len() ==> #[trigger] mask@[i] == in_circle(g, i % width as int, i / width as int),
            decreases width - x,
        {
            let v = inside(g, x, y);
            proof {
                vstd::arithmetic::div_mod::lemma_fundamental_div_mod_converse(
                    (y * width + x) as int,
                    width as int,
                    y as int,
                    x as int,
                );
                assert(y * width + x < height * width) by (nonlinear_arith)
                    requires x < width, y < height;
            }
            mask.push(v);
            x = x + 1;
        }
        proof {
            assert(mask@.len() == (y + 1) * width) by (nonlinear_arith)
                requires mask@.len() == y * width + width;
        }
        y = y + 1;
    }
    assert(mask@.len() == width * height) by (nonlinear_arith)
        requires mask@.len() == y * width, y == height;
    mask
}

/// Pixel `i` of the samples is near-black: every channel below 27.
pub open spec fn is_dark(px: Seq<u8>, i: int) -> bool {
    px[3 * i] < 27 && px[3 * i + 1] < 27 && px[3 * i + 2] < 27
}

/// Pixel `i` of the samples is near-white: every channel above 228.
pub open spec fn is_bright(px: Seq<u8>, i: int) -> bool {
    px[3 * i] > 228 && px[3 * i + 1] > 228 && px[3 * i + 2] > 228
}

/// Luma of pixel `i` in thousandths: 299 R + 587 G + 114 B.
pub open spec fn luma(px: Seq<u8>, i: int) -> nat {
    (299 * px[3 * i] + 587 * px[3 * i + 1] + 114 * px[3 * i + 2]) as nat
}

/// Number of masked near-black pixels among the first `k`.
pub open spec fn dark_count(px: Seq<u8>, mask: Seq<bool>, k: int) -> nat
    decreases k,
{
    if k <= 0 {
        0
    } else {
        dark_count(px, mask, k - 1) + if mask[k - 1] && is_dark(px, k - 1) { 1nat } else { 0nat }
    }
}

/// Number of masked near-white pixels among the first `k`.
pub open spec fn bright_count(px: Seq<u8>, mask: Seq<bool>, k: int) -> nat
    decreases k,
{
    if k <= 0 {
        0
    } else {
        bright_count(px, mask, k - 1) + if mask[k - 1] && is_bright(px, k - 1) { 1nat } else { 0nat }
    }
}

/// Sum of the luma of the masked pixels among the first `k`.
pub open spec fn luma_total(px: Seq<u8>, mask: Seq<bool>, k: int) -> nat
    decreases k,
{
    if k <= 0 {
        0
    } else {
        luma_total(px, mask, k - 1) + if mask[k - 1] { luma(px, k - 1) } else { 0nat }
    }
}

/// `st` holds the statistics of the samples `px` under `mask`.
pub open spec fn measures(st: ExposureStats, px: Seq<u8>, mask: Seq<bool>) -> bool {
    &&& st.underexposed == dark_count(px, mask, mask.len() as int)
    &&& st.overexposed == bright_count(px, mask, mask.len() as int)
    &&& st.luma_sum == luma_total(px, mask, mask.len() as int)
}

/// Counts the near-black and near-white pixels of `img` inside `mask` and
/// sums their luma.
pub fn measure_exposure(img: &Raster, mask: &Vec<bool>) -> (st: ExposureStats)
    requires
        img.samples@.len() == 3 * mask@.len(),
    ensures
        measures(st, img.samples@, mask@),
{
    let px = &img.samples;
    let n = mask.len();
    let total = px.len();
    let mut under: u64 = 0;
    let mut over: u64 = 0;
    let mut sum: u128 = 0;
    let mut i: usize = 0;
    while i < n
        invariant
            i <= n,
            n == mask@.len(),
            px@.len() == 3 * n,
            total == 3 * n,
            under == dark_count(px@, mask@, i as int),
            over == bright_count(px@, mask@, i as int),
            sum == luma_total(px@, mask@, i as int),
            under <= i,
            over <= i,
            sum <= 255000 * i,
        decreases n - i,
    {
        if mask[i] {
            let r = px[3 * i];
            let g = px[3 * i + 1];
            let b = px[3 * i + 2];
            sum = sum + 299 * (r as u128) + 587 * (g as u128) + 114 * (b as u128);
            if r < 27 && g < 27 && b < 27 {
                under = under + 1;
            } else if r > 228 && g > 228 && b > 228 {
                over = over + 1;
            }
        }
        i = i + 1;
    }
    ExposureStats { underexposed: under, overexposed: over, luma_sum: sum }
}

/// Image `j` comes before image `i` in the brightness order: it has the
/// larger luma sum, or the same sum and the smaller index.
pub open spec fn brighter(stats: Seq<ExposureStats>, j: int, i: int) -> bool {
    stats[j].luma_sum > stats[i].luma_sum || (stats[j].luma_sum == stats[i].luma_sum && j < i)
}

/// Number of images among the first `k` that come before image `i`.
pub open spec fn rank_upto(stats: Seq<ExposureStats>, i: int, k: int) -> nat
    decreases k,
{
    if k <= 0 {
        0
    } else {
        rank_upto(stats, i, k - 1) + if brighter(stats, k - 1, i) { 1nat } else { 0nat }
    }
}

/// Position of image `i` when the images are ordered by descending mean
/// luma, ties kept in their input order.
pub open spec fn rank(stats: Seq<ExposureStats>, i: int) -> nat {
    rank_upto(stats, i, stats.len() as int)
}

/// Smallest rank among the first `k` images without near-black pixels, or
/// the number of images when there is none.
pub open spec fn first_clean_rank(stats: Seq<ExposureStats>, k: int) -> int
    decreases k,
{
    if k <= 0 {
        stats.len() as int
    } else {
        let m = first_clean_rank(stats, k - 1);
        if stats[k - 1].underexposed == 0 && rank(stats, k - 1) < m {
            rank(stats, k - 1) as int
        } else {
            m
        }
    }
}

/// Start of the selection, in brightness order: the brightest image without
/// near-black pixels, or the first image when there is none.
pub open spec fn selection_start(stats: Seq<ExposureStats>) -> int {
    let m = first_clean_rank(stats, stats.len() as int);
    if m == stats.len() { 0 } else { m }
}

/// Largest rank above `start` among the first `k` images without near-white
/// pixels, or -1 when there is none.
pub open spec fn last_clean_rank(stats: Seq<ExposureStats>, start: int, k: int) -> int
    decreases k,
{
    if k <= 0 {
        -1
    } else {
        let m = last_clean_rank(stats, start, k - 1);
        if stats[k - 1].overexposed == 0 && rank(stats, k - 1) > start && rank(stats, k - 1) > m {
            rank(stats, k - 1) as int
        } else {
            m
        }
    }
}

/// End of the selection, in brightness order: the last image past the start
/// without near-white pixels, or the last image when there is none.
pub open spec fn selection_end(stats: Seq<ExposureStats>) -> int {
    let m = last_clean_rank(stats, selection_start(stats), stats.len() as int);
    if m < 0 { stats.len() - 1 } else { m }
}

/// Image `i` is kept: its rank lies between the start and the end.
pub open spec fn is_selected(stats: Seq<ExposureStats>, i: int) -> bool {
    selection_start(stats) <= rank(stats, i) <= selection_end(stats)
}

/// The items of `items` whose flag holds, in their input order.
pub open spec fn kept<T>(items: Seq<T>, flags: Seq<bool>) -> Seq<T>
    decreases items.len(),
{
    if items.len() == 0 {
        seq![]
    } else {
        let rest = kept(items.drop_last(), flags);
        if flags[items.len() - 1] { rest.push(items.last()) } else { rest }
    }
}

/// The items whose images [`is_selected`] keeps under `stats`, in order.
pub open spec fn selection_of<T>(items: Seq<T>, stats: Seq<ExposureStats>) -> Seq<T> {
    kept(items, Seq::new(stats.len(), |i: int| is_selected(stats, i)))
}

proof fn lemma_rank_bound(stats: Seq<ExposureStats>, i: int, k: int)
    requires
        0 <= k,
    ensures
        rank_upto(stats, i, k) <= k,
    decreases k,
{
    if k > 0 {
        lemma_rank_bound(stats, i, k - 1);
    }
}

proof fn lemma_rank_below(stats: Seq<ExposureStats>, i: int, k: int)
    requires
        0 <= i < k,
    ensures
        rank_upto(stats, i, k) < k,
    decreases k,
{
    if k - 1 == i {
        lemma_rank_bound(stats, i, k - 1);
    } else {
        lemma_rank_below(stats, i, k - 1);
    }
}

proof fn lemma_rank_follows_order(stats: Seq<ExposureStats>, j: int, i: int, k: int)
    requires
        0 <= k,
        0 <= j,
        brighter(stats, j, i),
    ensures
        rank_upto(stats, j, k) + (if j < k { 1nat } else { 0nat }) <= rank_upto(stats, i, k),
    decreases k,
{
    if k > 0 {
        lemma_rank_follows_order(stats, j, i, k - 1);
        let x = k - 1;
        if brighter(stats, x, j) {
            assert(brighter(stats, x, i));
        }
        if x == j {
            assert(brighter(stats, x, i));
            assert(!brighter(stats, j, j));
        }
    }
}

/// Ranks are positions in the brightness order: each image's rank is below
/// the number of images, a brighter image has a smaller rank, and no two
/// images share one.
pub proof fn lemma_ranks_are_positions(stats: Seq<ExposureStats>, i: int, j: int)
    requires
        0 <= i < stats.len(),
        0 <= j < stats.len(),
    ensures
        rank(stats, i) < stats.len(),
        brighter(stats, j, i) ==> rank(stats, j) < rank(stats, i),
        i != j ==> rank(stats, i) != rank(stats, j),
{
    lemma_rank_below(stats, i, stats.len() as int);
    if brighter(stats, j, i) {
        lemma_rank_follows_order(stats, j, i, stats.len() as int);
    }
    if i != j && brighter(stats, i, j) {
        lemma_rank_follows_order(stats, i, j, stats.len() as int);
    }
}

/// Brightness rank of every image.
pub fn brightness_ranks(stats: &Vec<ExposureStats>) -> (r: Vec<usize>)
    ensures
        r@.len() == stats@.len(),
        forall|i: int| 0 <= i < r@.len() ==> #[trigger] r@[i] == rank(stats@, i),
{
    let n = stats.len();
    let mut r: Vec<usize> = Vec::new();
    let mut i: usize = 0;
    while i < n
        invariant
            i <= n,
            n == stats@.len(),
            r@.len() == i,
            forall|k: int| 0 <= k < i ==> #[trigger] r@[k] == rank(stats@, k),
        decreases n - i,
    {
        let mut c: usize = 0;
        let mut j: usize = 0;
        while j < n
            invariant
                j <= n,
                i < n,
                n == stats@.len(),
                c == rank_upto(stats@, i as int, j as int),
            decreases n - j,
        {
            proof {
                lemma_rank_bound(stats@, i as int, j as int);
            }
            if stats[j].luma_sum > stats[i].luma_sum || (stats[j].luma_sum == stats[i].luma_sum
                && j < i) {
                c = c + 1;
            }
            j = j + 1;
        }
        r.push(c);
        i = i + 1;
    }
    r
}

/// Which images of the bracket are kept, in their input order.
pub fn select_exposures(stats: &Vec<ExposureStats>) -> (keep: Vec<bool>)
    ensures
        keep@.len() == stats@.len(),
        forall|i: int| 0 <= i < keep@.len() ==> #[trigger] keep@[i] == is_selected(stats@, i),
{
    let n = stats.len();
    let ranks = brightness_ranks(stats);
    let mut first: usize = n;
    let mut i: usize = 0;
    while i < n
        invariant
            i <= n,
            n == stats@.len(),
            ranks@.len() == n,
            forall|k: int| 0 <= k < n ==> #[trigger] ranks@[k] == rank(stats@, k),
            first == first_clean_rank(stats@, i as int),
        decreases n - i,
    {
        if stats[i].underexposed == 0 && ranks[i] < first {
            first = ranks[i];
        }
        i = i + 1;
    }
    let start: usize = if first == n { 0 } else { first };
    let mut last: Option<usize> = None;
    i = 0;
    while i < n
        invariant
            i <= n,
            n == stats@.len(),
            ranks@.len() == n,
            forall|k: int| 0 <= k < n ==> #[trigger] ranks@[k] == rank(stats@, k),
            start == selection_start(stats@),
            match last {
                Some(m) => m as int == last_clean_rank(stats@, start as int, i as int) && m >= 0,
                None => last_clean_rank(stats@, start as int, i as int) == -1,
            },
        decreases n - i,
    {
        let better = match last {
            Some(m) => ranks[i] > m,
            None => true,
        };
        if stats[i].overexposed == 0 && ranks[i] > start && better {
            last = Some(ranks[i]);
        }
        i = i + 1;
    }
    let mut keep: Vec<bool> = Vec::new();
    i = 0;
    while i < n
        invariant
            i <= n,
            n == stats@.len(),
            ranks@.len() == n,
            forall|k: int| 0 <= k < n ==> #[trigger] ranks@[k] == rank(stats@, k),
            start == selection_start(stats@),
            match last {
                Some(m) => m as int == selection_end(stats@),
                None => selection_end(stats@) == n - 1,
            },
            keep@.len() == i,
            forall|k: int| 0 <= k < i ==> #[trigger] keep@[k] == is_selected(stats@, k),
        decreases n - i,
    {
        let upper = match last {
            Some(m) => ranks[i] <= m,
            None => ranks[i] < n,
        };
        proof {
            lemma_rank_bound(stats@, i as int, n as int);
        }
        keep.push(start <= ranks[i] && upper);
        i = i + 1;
    }
    keep
}

proof fn lemma_no_clean_start(stats: Seq<ExposureStats>, k: int)
    requires
        0 <= k <= stats.len(),
        forall|i: int| 0 <= i < stats.len() ==> #[trigger] stats[i].underexposed > 0,
    ensures
        first_clean_rank(stats, k) == stats.len(),
    decreases k,
{
    if k > 0 {
        lemma_no_clean_start(stats, k - 1);
    }
}

proof fn lemma_no_clean_end(stats: Seq<ExposureStats>, start: int, k: int)
    requires
        0 <= k <= stats.len(),
        forall|i: int| 0 <= i < stats.len() ==> #[trigger] stats[i].overexposed > 0,
    ensures
        last_clean_rank(stats, start, k) == -1,
    decreases k,
{
    if k > 0 {
        lemma_no_clean_end(stats, start, k - 1);
    }
}

/// When no image of the bracket is free of near-black pixels the selection
/// starts at the brightest image; when none is free of near-white pixels it
/// runs to the last image, so that every image from the start on is kept.
pub proof fn lemma_selection_defaults(stats: Seq<ExposureStats>)
    requires
        stats.len() > 0,
    ensures
        (forall|i: int| 0 <= i < stats.len() ==> #[trigger] stats[i].underexposed > 0)
            ==> selection_start(stats) == 0,
        (forall|i: int| 0 <= i < stats.len() ==> #[trigger] stats[i].overexposed > 0) ==> {
            &&& selection_end(stats) == stats.len() - 1
            &&& forall|i: int| 0 <= i < stats.len() ==> (#[trigger] is_selected(stats, i)
                <==> selection_start(stats) <= rank(stats, i))
        },
{
    if forall|i: int| 0 <= i < stats.len() ==> #[trigger] stats[i].underexposed > 0 {
        lemma_no_clean_start(stats, stats.len() as int);
    }
    if forall|i: int| 0 <= i < stats.len() ==> #[trigger] stats[i].overexposed > 0 {
        lemma_no_clean_end(stats, selection_start(stats), stats.len() as int);
        assert forall|i: int| 0 <= i < stats.len() implies (#[trigger] is_selected(stats, i)
            <==> selection_start(stats) <= rank(stats, i)) by {
            lemma_rank_below(stats, i, stats.len() as int);
        }
    }
}

/// The strings of `items` whose flag holds, in their input order.
pub fn keep_flagged(items: &Vec<String>, flags: &Vec<bool>) -> (r: Vec<String>)
    requires
        flags@.len() == items@.len(),
    ensures
        r.deep_view() == kept(items.deep_view(), flags@),
{
    let mut r: Vec<String> = Vec::new();
    let mut i: usize = 0;
    while i < items.len()
        invariant
            i <= items@.len(),
            flags@.len() == items@.len(),
            r.deep_view() == kept(items.deep_view().take(i as int), flags@),
        decreases items.len() - i,
    {
        let ghost before = r.deep_view();
        assert(items.deep_view().take(i + 1).drop_last() =~= items.deep_view().take(i as int));
        if flags[i] {
            r.push(items[i].clone());
            assert(r.deep_view() =~= before.push(items[i as int]@));
        }
        i = i + 1;
    }
    assert(items.deep_view().take(i as int) =~= items.deep_view());
    r
}

/// Relies on `image::open` and `DynamicImage::into_rgb8`: the file at
/// `path` is decoded and converted to 8-bit RGB, its samples given row
/// after row. What comes back depends on the disk, so nothing is promised
/// of it; callers check its size themselves.
#[verifier::external_body]
fn decode_rgb(path: &str) -> (r: Result<Raster, String>) {
    match image::open(path) {
        Ok(img) => {
            let rgb = img.into_rgb8();
            Ok(Raster { width: rgb.width(), height: rgb.height(), samples: rgb.into_raw() })
        },
        Err(e) => Err(e.to_string()),
    }
}

/// Relies on rayon's indexed parallel iterators: mapping over `par_iter`
/// and collecting into a `Vec` applies the function to every item and keeps
/// the items' order.
#[verifier::external_body]
fn measure_all(images: &Vec<Raster>, mask: &Vec<bool>) -> (r: Vec<ExposureStats>)
    requires
        forall|i: int| 0 <= i < images@.len() ==> (#[trigger] images@[i]).samples@.len() == 3 * mask@.len(),
    ensures
        r@.len() == images@.len(),
        forall|i: int| 0 <= i < r@.len() ==> measures(#[trigger] r@[i], images@[i].samples@, mask@),
{
    images.par_iter().map(|img| measure_exposure(img, mask)).collect()
}

fn filter_failure(what: &str, path: &String) -> (e: PipelineError)
    ensures
        e is Processing,
{
    let m = concat("merge_exposures: filter_images: ", what);
    PipelineError::Processing { message: m.concat(path.as_str()) }
}

/// The mask of the image circle over a grid `width` pixels wide and
/// `height` rows high.
pub open spec fn circle_mask_of(width: nat, height: nat, g: FisheyeGeometry) -> Seq<bool> {
    Seq::new(width * height, |i: int| in_circle(g, i % width as int, i / width as int))
}

/// The statistics of the samples `px` under `mask`.
pub open spec fn measured(px: Seq<u8>, mask: Seq<bool>) -> ExposureStats {
    ExposureStats {
        underexposed: dark_count(px, mask, mask.len() as int) as u64,
        overexposed: bright_count(px, mask, mask.len() as int) as u64,
        luma_sum: luma_total(px, mask, mask.len() as int) as u128,
    }
}

/// Every image has the first image's width and height and three samples
/// per pixel, and the first image's pixel count fits in memory.
pub open spec fn uniform_size(images: Seq<Raster>) -> bool {
    images.len() > 0 ==> {
        &&& images[0].width * images[0].height <= usize::MAX
        &&& forall|i: int|
            0 <= i < images.len() ==> {
                &&& (#[trigger] images[i]).width == images[0].width
                &&& images[i].height == images[0].height
                &&& images[i].samples@.len() == 3 * images[0].width * images[0].height
            }
    }
}

/// The statistics of each image of a bracket under the circle mask of the
/// first image's size.
pub open spec fn bracket_stats(images: Seq<Raster>, g: FisheyeGeometry) -> Seq<ExposureStats> {
    Seq::new(
        images.len(),
        |i: int|
            measured(
                images[i].samples@,
                circle_mask_of(images[0].width as nat, images[0].height as nat, g),
            ),
    )
}

fn size_matches(img: &Raster, width: u32, height: u32, area: usize) -> (r: bool)
    requires
        area == width * height,
    ensures
        r == (img.width == width && img.height == height && img.samples@.len() == 3 * area),
{
    let len = img.samples.len();
    img.width == width && img.height == height && len / 3 == area && len % 3 == 0
}

/// Of the decoded images of a bracket named by `inputs`, the names of those
/// judged well-exposed, in input order. Every image must have the first
/// image's size; each is measured under the circle mask of that size and the
/// images that [`is_selected`] keeps are returned.
pub fn select_well_exposed(inputs: &Vec<String>, images: &Vec<Raster>, geometry: FisheyeGeometry) -> (r: Result<Vec<String>, PipelineError>)
    requires
        inputs@.len() == images@.len(),
    ensures
        r is Ok <==> uniform_size(images@),
        r matches Ok(v) ==> v.deep_view() == selection_of(inputs.deep_view(), bracket_stats(images@, geometry)),
        r matches Err(e) ==> e is Processing,
{
    let n = images.len();
    if n == 0 {
        let v: Vec<String> = Vec::new();
        assert(v.deep_view() =~= selection_of(inputs.deep_view(), bracket_stats(images@, geometry)));
        return Ok(v);
    }
    let width = images[0].width;
    let height = images[0].height;
    assert(width as u64 * height as u64 <= u64::MAX) by (nonlinear_arith)
        requires width <= u32::MAX, height <= u32::MAX;
    if width as u64 * height as u64 > usize::MAX as u64 {
        return Err(filter_failure("image is too large: ", &inputs[0]));
    }
    let area: usize = width as usize * height as usize;
    assert(3 * area == 3 * width * height) by (nonlinear_arith)
        requires area == width * height;
    let mut i: usize = 0;
    while i < n
        invariant
            i <= n,
            n == images@.len(),
            n == inputs@.len(),
            n > 0,
            width == images@[0].width,
            height == images@[0].height,
            area == width * height,
            3 * area == 3 * width * height,
            area <= usize::MAX,
            forall|k: int|
                0 <= k < i ==> {
                    &&& (#[trigger] images@[k]).width == width
                    &&& images@[k].height == height
                    &&& images@[k].samples@.len() == 3 * area
                },
        decreases n - i,
    {
        if !size_matches(&images[i], width, height, area) {
            let e = if i == 0 {
                filter_failure("image has an unexpected size: ", &inputs[0])
            } else {
                filter_failure("image size differs from the first image: ", &inputs[i])
            };
            assert(!uniform_size(images@)) by {
                assert(!({
                    &&& images@[i as int].width == images@[0].width
                    &&& images@[i as int].height == images@[0].height
                    &&& images@[i as int].samples@.len() == 3 * images@[0].width * images@[0].height
                }));
            }
            return Err(e);
        }
        i = i + 1;
    }
    let mask = circle_mask(width, height, geometry);
    assert(mask@ =~= circle_mask_of(width as nat, height as nat, geometry));
    let stats = measure_all(images, &mask);
    assert(stats@ =~= bracket_stats(images@, geometry)) by {
        assert forall|k: int| 0 <= k < n implies #[trigger] stats@[k] == bracket_stats(images@, geometry)[k] by {
            assert(measures(stats@[k], images@[k].samples@, mask@));
        }
    }
    let keep = select_exposures(&stats);
    let kept_images = keep_flagged(inputs, &keep);
    assert(keep@ =~= Seq::new(stats@.len(), |k: int| is_selected(stats@, k)));
    Ok(kept_images)
}

/// The images of a bracket that are judged well-exposed, in input order.
///
/// When the list is empty or its first image is no JPEG, it comes back
/// unchanged. Otherwise every image must be a JPEG; each is decoded and the
/// result is what [`select_well_exposed`] gives for the decoded images. What
/// those are depends on the files, so the contract says that the result is
/// that selection for some decoded images of the required sizes, one per
/// input.
pub fn filter_images(input_images: Vec<String>, geometry: FisheyeGeometry) -> (r: Result<
    Vec<String>,
    PipelineError,
>)
    ensures
        input_images@.len() == 0 || !jpeg_path(input_images@[0]@) ==> (r matches Ok(v)
            && v.deep_view() == input_images.deep_view()),
        input_images@.len() > 0 && jpeg_path(input_images@[0]@) ==> match r {
            Ok(v) => {
                &&& forall|i: int| 0 <= i < input_images@.len() ==> jpeg_path(#[trigger] input_images@[i]@)
                &&& exists|images: Seq<Raster>|
                    images.len() == input_images@.len() && uniform_size(images) && v.deep_view()
                        == selection_of(input_images.deep_view(), #[trigger] bracket_stats(images, geometry))
            },
            Err(e) => e is Processing,
        },
{
    let n = input_images.len();
    if n == 0 || !is_jpeg(input_images[0].as_str()) {
        return Ok(input_images);
    }
    let mut i: usize = 1;
    while i < n
        invariant
            1 <= i <= n,
            n == input_images@.len(),
            forall|k: int| 0 <= k < i ==> jpeg_path(#[trigger] input_images@[k]@),
        decreases n - i,
    {
        if !is_jpeg(input_images[i].as_str()) {
            return Err(filter_failure("image is not a JPEG: ", &input_images[i]));
        }
        i = i + 1;
    }
    let mut images: Vec<Raster> = Vec::new();
    i = 0;
    while i < n
        invariant
            i <= n,
            n == input_images@.len(),
            n > 0,
            jpeg_path(input_images@[0]@),
            forall|k: int| 0 <= k < n ==> jpeg_path(#[trigger] input_images@[k]@),
            images@.len() == i,
        decreases n - i,
    {
        let img = match decode_rgb(input_images[i].as_str()) {
            Ok(img) => img,
            Err(_) => return Err(filter_failure("failed to open image ", &input_images[i])),
        };
        images.push(img);
        i = i + 1;
    }
    let r = select_well_exposed(&input_images, &images, geometry);
    assert(r matches Ok(v) ==> v.deep_view() == selection_of(input_images.deep_view(), bracket_stats(images@, geometry)));
    r
}

} // verus!
