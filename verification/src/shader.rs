//! The background layer: for each cell, light from four sources is weighed,
//! added up and clamped into a colour.
//!
//! Distances are thousandths of a cell's width, intensities are millionths, and
//! a contribution holds millionths of a colour level.

use vstd::prelude::*;
use crate::breathing::{breathing_scale, breathing_scale_spec, Emanation};
use crate::geometry::{
    centre_distance, centre_distance_spec, tip_distance, tip_distance_spec, Region,
};

verus! {

/// Full intensity, in millionths.
pub const FULL_LEVEL: u32 = 1_000_000;

/// A cell is painted only where a channel comes out above this level.
pub const PAINT_THRESHOLD: u8 = 15;

/// A colour of the display.
#[derive(Clone, Copy, Debug, PartialEq, Eq)]
pub struct Rgb {
    pub red: u8,
    pub green: u8,
    pub blue: u8,
}

/// Light added to a cell by one source, in millionths of a level per channel.
#[derive(Clone, Copy, Debug, PartialEq, Eq)]
pub struct Contribution {
    pub red: u64,
    pub green: u64,
    pub blue: u64,
}

/// What all cells of one frame share.
pub struct FrameLight {
    /// The width of the region, in cells.
    pub width_cells: u16,
    /// The dial's radius along the row.
    pub radius_milli: u32,
    /// The breathing intensity of each ripple.
    pub ripple_scales: Vec<u32>,
    /// The slow light of the petal ring.
    pub light_millionths: u32,
}

/// What is measured at one cell.
#[derive(Clone, Copy, Debug, PartialEq, Eq)]
pub struct CellSample {
    /// The distance of the cell from the centre of the region.
    pub dist_milli: u32,
    /// The distance of the cell from the tip of the minute hand.
    pub spirit_dist_milli: u32,
    /// How far the petal ring bulges in the cell's direction, from nothing to
    /// full.
    pub petal_millionths: u32,
}

/// The tint of the ambient falloff.
pub open spec fn vignette_tint() -> Rgb {
    Rgb { red: 10, green: 10, blue: 15 }
}

/// The tint of the ripples.
pub open spec fn ripple_tint() -> Rgb {
    Rgb { red: 212, green: 175, blue: 55 }
}

/// The tint of the glow at the minute hand's tip.
pub open spec fn glow_tint() -> Rgb {
    Rgb { red: 255, green: 215, blue: 0 }
}

/// The tint of the petal ring.
pub open spec fn lotus_tint() -> Rgb {
    Rgb { red: 255, green: 215, blue: 50 }
}

/// The distance between two radii.
pub open spec fn gap(a: int, b: int) -> int {
    if a >= b {
        a - b
    } else {
        b - a
    }
}

/// The ambient falloff: the square of what is left of the region's width at
/// this distance, as a share of the width.
pub open spec fn vignette_level(dist: int, width_cells: int) -> int {
    let width = width_cells * 1000;
    if dist >= width {
        0
    } else {
        let share = (width - dist) * 1000 / width;
        share * share
    }
}

/// The radius of a ripple: one and a half times the dial's radius at full
/// breath.
pub open spec fn ripple_radius(scale: int, radius: int) -> int {
    scale * radius * 3 / 2_000_000
}

/// A ripple lights a band of four cells' width on either side of its radius,
/// strongest on the radius, and in proportion to half its breath.
pub open spec fn ripple_level(dist: int, scale: int, radius: int) -> int {
    let off = gap(dist, ripple_radius(scale, radius));
    if off < 4000 {
        (4000 - off) * scale / 8000
    } else {
        0
    }
}

/// The glow within twelve cells of the minute hand's tip, falling off with the
/// cube of the distance left.
pub open spec fn glow_level(spirit_dist: int) -> int {
    if spirit_dist < 12000 {
        (12000 - spirit_dist) * (12000 - spirit_dist) * (12000 - spirit_dist) / 1_728_000
    } else {
        0
    }
}

/// The radius of the petal ring in a direction: the dial's radius and up to
/// six cells of bulge.
pub open spec fn lotus_radius(radius: int, petal: int) -> int {
    radius + 6 * petal / 1000
}

/// The petal ring lights a band of two and a half cells on either side of its
/// radius, in proportion to its slow light.
pub open spec fn lotus_level(dist: int, radius: int, petal: int, light: int) -> int {
    let off = gap(dist, lotus_radius(radius, petal));
    if off < 2500 {
        (2500 - off) * light / 2500
    } else {
        0
    }
}

/// A tint at an intensity.
pub open spec fn weighed(tint: Rgb, level: int) -> Contribution {
    Contribution {
        red: (tint.red * level) as u64,
        green: (tint.green * level) as u64,
        blue: (tint.blue * level) as u64,
    }
}

/// The sum of the contributions, channel by channel.
pub open spec fn total(terms: Seq<Contribution>) -> (int, int, int)
    decreases terms.len(),
{
    if terms.len() == 0 {
        (0, 0, 0)
    } else {
        let rest = total(terms.drop_last());
        let term = terms.last();
        (rest.0 + term.red, rest.1 + term.green, rest.2 + term.blue)
    }
}

/// The colour level of a sum: whole levels, at most 255.
pub open spec fn clamped_level(sum: int) -> int {
    if sum / 1_000_000 > 255 {
        255
    } else {
        sum / 1_000_000
    }
}

/// The colour of a cell that received `terms`, or nothing where no channel
/// comes out above the threshold: the cell is then left as it is.
pub open spec fn composed(terms: Seq<Contribution>) -> Option<Rgb> {
    let sums = total(terms);
    let colour = Rgb {
        red: clamped_level(sums.0) as u8,
        green: clamped_level(sums.1) as u8,
        blue: clamped_level(sums.2) as u8,
    };
    if colour.red > 15 || colour.green > 15 || colour.blue > 15 {
        Some(colour)
    } else {
        None
    }
}

/// The contribution of the ripple at `i`.
pub open spec fn ripple_term(cell: CellSample, frame: FrameLight, i: int) -> Contribution {
    weighed(
        ripple_tint(),
        ripple_level(cell.dist_milli as int, frame.ripple_scales@[i] as int, frame.radius_milli as int),
    )
}

/// What a cell receives: the ambient falloff, each ripple, the glow and the
/// petal ring.
pub open spec fn cell_terms(cell: CellSample, frame: FrameLight) -> Seq<Contribution> {
    seq![weighed(vignette_tint(), vignette_level(cell.dist_milli as int, frame.width_cells as int))]
        + Seq::new(frame.ripple_scales@.len(), |i: int| ripple_term(cell, frame, i)) + seq![
        weighed(glow_tint(), glow_level(cell.spirit_dist_milli as int)),
        weighed(
            lotus_tint(),
            lotus_level(
                cell.dist_milli as int,
                frame.radius_milli as int,
                cell.petal_millionths as int,
                frame.light_millionths as int,
            ),
        ),
    ]
}

impl CellSample {
    /// The bulge is at most full.
    pub open spec fn wf(&self) -> bool {
        self.petal_millionths <= 1_000_000
    }
}

impl FrameLight {
    /// Each breath and the slow light are at most full.
    pub open spec fn wf(&self) -> bool {
        &&& self.light_millionths <= 1_000_000
        &&& forall|i: int|
            0 <= i < self.ripple_scales@.len() ==> #[trigger] self.ripple_scales@[i] <= 1_000_000
    }
}

/// The dial's radius along the row in a region of the given size: the smaller
/// of 0.45 of its height and 0.22 of its width, widened by 2.1, the ratio of a
/// cell's height to its width.
pub fn dial_radius(width_cells: u16, height_cells: u16) -> (radius: u32)
    ensures
        radius == dial_radius_spec(width_cells as int, height_cells as int),
{
    let by_height: u32 = height_cells as u32 * 450;
    let by_width: u32 = width_cells as u32 * 220;
    let along_column: u32 = if by_height <= by_width {
        by_height
    } else {
        by_width
    };
    along_column * 21 / 10
}

/// The dial's radius along the row in a region, as `dial_radius` gives it.
pub open spec fn dial_radius_spec(width_cells: int, height_cells: int) -> int {
    (if height_cells * 450 <= width_cells * 220 {
        height_cells * 450
    } else {
        width_cells * 220
    }) * 21 / 10
}

/// The slow light of the petal ring for a wave between nothing and full:
/// seven tenths, and three tenths of the wave.
pub open spec fn slow_light_spec(wave: int) -> int {
    700_000 + wave * 3 / 10
}

/// The slow light of the petal ring.
pub fn slow_light(wave_millionths: u32) -> (light: u32)
    ensures
        light == slow_light_spec(wave_millionths as int),
        700_000 <= light,
        wave_millionths <= FULL_LEVEL ==> light <= FULL_LEVEL,
{
    700_000 + (wave_millionths as u64 * 3 / 10) as u32
}

/// The colour of the overlay's petals under the slow light: the ripples' tint,
/// dimmed by the light.
pub fn petal_colour(light: u32) -> (colour: Rgb)
    requires
        light <= FULL_LEVEL,
    ensures
        colour.red == 212 * light / 1_000_000,
        colour.green == 175 * light / 1_000_000,
        colour.blue == 55 * light / 1_000_000,
{
    let glare: u64 = light as u64;
    Rgb {
        red: (212 * glare / 1_000_000) as u8,
        green: (175 * glare / 1_000_000) as u8,
        blue: (55 * glare / 1_000_000) as u8,
    }
}

impl FrameLight {
    /// What the cells of a frame share, read off one virtual instant: the
    /// dial's radius in the region, and the breath of each ripple at that
    /// instant.
    pub fn at(region: Region, virtual_micros: i64, ripples: &Vec<Emanation>, light: u32) -> (frame:
        FrameLight)
        requires
            light <= FULL_LEVEL,
        ensures
            frame.wf(),
            frame.width_cells == region.width,
            frame.radius_milli == dial_radius_spec(region.width as int, region.height as int),
            frame.light_millionths == light,
            frame.ripple_scales@.len() == ripples@.len(),
            forall|i: int|
                0 <= i < ripples@.len() ==> #[trigger] frame.ripple_scales@[i]
                    == breathing_scale_spec(
                    virtual_micros as int,
                    ripples@[i].phase_offset_micros as int,
                ),
    {
        let mut scales: Vec<u32> = Vec::new();
        let mut i: usize = 0;
        while i < ripples.len()
            invariant
                i <= ripples.len(),
                scales@.len() == i,
                forall|k: int| 0 <= k < i ==> #[trigger] scales@[k] <= 1_000_000,
                forall|k: int|
                    0 <= k < i ==> #[trigger] scales@[k] == breathing_scale_spec(
                        virtual_micros as int,
                        ripples@[k].phase_offset_micros as int,
                    ),
            decreases ripples.len() - i,
        {
            scales.push(breathing_scale(virtual_micros, ripples[i].phase_offset_micros));
            i = i + 1;
        }
        FrameLight {
            width_cells: region.width,
            radius_milli: dial_radius(region.width, region.height),
            ripple_scales: scales,
            light_millionths: light,
        }
    }
}

fn radius_gap(a: u64, b: u64) -> (off: u64)
    ensures
        off == gap(a as int, b as int),
{
    if a >= b {
        a - b
    } else {
        b - a
    }
}

/// The ambient falloff at a distance from the centre.
pub fn vignette(dist_milli: u32, width_cells: u16) -> (level: u32)
    ensures
        level == vignette_level(dist_milli as int, width_cells as int),
        level <= FULL_LEVEL,
{
    let width: u64 = width_cells as u64 * 1000;
    let dist: u64 = dist_milli as u64;
    if dist >= width {
        0
    } else {
        let left: u64 = (width - dist) * 1000;
        let share: u64 = left / width;
        assert(share <= 1000) by (nonlinear_arith)
            requires
                share == left / width,
                left <= 1000 * width,
                width > 0,
        ;
        assert(share * share <= 1_000_000) by (nonlinear_arith)
            requires
                share <= 1000,
        ;
        (share * share) as u32
    }
}

/// The light of one ripple at a distance from the centre.
pub fn ripple(dist_milli: u32, scale: u32, radius_milli: u32) -> (level: u32)
    requires
        scale <= FULL_LEVEL,
    ensures
        level == ripple_level(dist_milli as int, scale as int, radius_milli as int),
        level <= FULL_LEVEL,
{
    let breath: u64 = scale as u64;
    let reach: u64 = radius_milli as u64;
    assert(breath * reach <= 1_000_000 * 0x1_0000_0000) by (nonlinear_arith)
        requires
            breath <= 1_000_000,
            reach <= 0x1_0000_0000,
    ;
    let ring: u64 = breath * reach * 3 / 2_000_000;
    let off: u64 = radius_gap(dist_milli as u64, ring);
    if off < 4000 {
        let near: u64 = 4000 - off;
        assert(near * breath <= 4000 * 1_000_000) by (nonlinear_arith)
            requires
                near <= 4000,
                breath <= 1_000_000,
        ;
        (near * breath / 8000) as u32
    } else {
        0
    }
}

/// The glow of the minute hand's tip at a distance from it.
pub fn glow(spirit_dist_milli: u32) -> (level: u32)
    ensures
        level == glow_level(spirit_dist_milli as int),
        level <= FULL_LEVEL,
{
    if spirit_dist_milli < 12000 {
        let near: u64 = 12000 - spirit_dist_milli as u64;
        assert(near * near <= 144_000_000 && near * near * near <= 1_728_000_000_000)
            by (nonlinear_arith)
            requires
                near <= 12000,
        ;
        (near * near * near / 1_728_000) as u32
    } else {
        0
    }
}

/// The light of the petal ring at a distance from the centre.
pub fn lotus(dist_milli: u32, radius_milli: u32, petal: u32, light: u32) -> (level: u32)
    requires
        petal <= FULL_LEVEL,
        light <= FULL_LEVEL,
    ensures
        level == lotus_level(dist_milli as int, radius_milli as int, petal as int, light as int),
        level <= FULL_LEVEL,
{
    let ring: u64 = radius_milli as u64 + 6 * (petal as u64) / 1000;
    let off: u64 = radius_gap(dist_milli as u64, ring);
    if off < 2500 {
        let near: u64 = 2500 - off;
        let glare: u64 = light as u64;
        assert(near * glare <= 2500 * 1_000_000) by (nonlinear_arith)
            requires
                near <= 2500,
                glare <= 1_000_000,
        ;
        (near * glare / 2500) as u32
    } else {
        0
    }
}

/// A tint at an intensity.
pub fn weigh(tint: Rgb, level: u32) -> (term: Contribution)
    ensures
        term == weighed(tint, level as int),
        term.red == tint.red * level,
        term.green == tint.green * level,
        term.blue == tint.blue * level,
{
    let weight: u64 = level as u64;
    let red: u64 = tint.red as u64;
    let green: u64 = tint.green as u64;
    let blue: u64 = tint.blue as u64;
    assert(red * weight <= 255 * 0x1_0000_0000 && green * weight <= 255 * 0x1_0000_0000 && blue
        * weight <= 255 * 0x1_0000_0000) by (nonlinear_arith)
        requires
            red <= 255,
            green <= 255,
            blue <= 255,
            weight <= 0x1_0000_0000,
    ;
    Contribution { red: red * weight, green: green * weight, blue: blue * weight }
}

fn add_capped(sum: u64, term: u64) -> (next: u64)
    ensures
        next == if sum + term > u64::MAX {
            u64::MAX as int
        } else {
            sum + term
        },
{
    if sum > u64::MAX - term {
        u64::MAX
    } else {
        sum + term
    }
}

fn level_of(sum: u64) -> (level: u8)
    ensures
        level == clamped_level(sum as int),
{
    let whole: u64 = sum / 1_000_000;
    if whole > 255 {
        255
    } else {
        whole as u8
    }
}

/// The sum that a capped accumulator holds for a true sum.
spec fn capped(sum: int) -> int {
    if sum > u64::MAX {
        u64::MAX as int
    } else {
        sum
    }
}

proof fn lemma_total_non_negative(terms: Seq<Contribution>)
    ensures
        total(terms).0 >= 0,
        total(terms).1 >= 0,
        total(terms).2 >= 0,
    decreases terms.len(),
{
    if terms.len() > 0 {
        lemma_total_non_negative(terms.drop_last());
    }
}

/// Adds up the contributions to a cell and clamps each channel. The cell
/// stays unpainted where no channel comes out above the threshold.
pub fn composite(terms: &Vec<Contribution>) -> (colour: Option<Rgb>)
    ensures
        colour == composed(terms@),
{
    let mut red: u64 = 0;
    let mut green: u64 = 0;
    let mut blue: u64 = 0;
    let mut i: usize = 0;
    while i < terms.len()
        invariant
            i <= terms.len(),
            red == capped(total(terms@.take(i as int)).0),
            green == capped(total(terms@.take(i as int)).1),
            blue == capped(total(terms@.take(i as int)).2),
        decreases terms.len() - i,
    {
        proof {
            assert(terms@.take(i + 1).drop_last() =~= terms@.take(i as int));
            lemma_total_non_negative(terms@.take(i as int));
        }
        red = add_capped(red, terms[i].red);
        green = add_capped(green, terms[i].green);
        blue = add_capped(blue, terms[i].blue);
        i = i + 1;
    }
    assert(terms@.take(i as int) =~= terms@);
    let colour = Rgb { red: level_of(red), green: level_of(green), blue: level_of(blue) };
    if colour.red > PAINT_THRESHOLD || colour.green > PAINT_THRESHOLD || colour.blue
        > PAINT_THRESHOLD {
        Some(colour)
    } else {
        None
    }
}

/// The colour of one cell of the background, or nothing where the cell stays
/// unpainted.
pub fn shade_cell(cell: CellSample, frame: &FrameLight) -> (colour: Option<Rgb>)
    requires
        cell.wf(),
        frame.wf(),
    ensures
        colour == composed(cell_terms(cell, *frame)),
{
    let mut terms: Vec<Contribution> = Vec::new();
    terms.push(
        weigh(Rgb { red: 10, green: 10, blue: 15 }, vignette(cell.dist_milli, frame.width_cells)),
    );
    let ghost head = terms@;
    let mut i: usize = 0;
    while i < frame.ripple_scales.len()
        invariant
            frame.wf(),
            i <= frame.ripple_scales.len(),
            terms@ == head + Seq::new(i as nat, |k: int| ripple_term(cell, *frame, k)),
        decreases frame.ripple_scales.len() - i,
    {
        let level: u32 = ripple(cell.dist_milli, frame.ripple_scales[i], frame.radius_milli);
        terms.push(weigh(Rgb { red: 212, green: 175, blue: 55 }, level));
        i = i + 1;
        assert(terms@ =~= head + Seq::new(i as nat, |k: int| ripple_term(cell, *frame, k)));
    }
    terms.push(weigh(Rgb { red: 255, green: 215, blue: 0 }, glow(cell.spirit_dist_milli)));
    terms.push(
        weigh(
            Rgb { red: 255, green: 215, blue: 50 },
            lotus(
                cell.dist_milli,
                frame.radius_milli,
                cell.petal_millionths,
                frame.light_millionths,
            ),
        ),
    );
    assert(terms@ =~= cell_terms(cell, *frame));
    composite(&terms)
}

/// Where the tip of the minute hand stands on the grid.
#[derive(Clone, Copy, Debug, PartialEq, Eq)]
pub struct Tip {
    pub x_milli: i32,
    pub y_milli: i32,
}

impl Tip {
    /// The tip is within reach of the grid.
    pub open spec fn wf(&self) -> bool {
        &&& -0x1000_0000 <= self.x_milli <= 0x1000_0000
        &&& -0x1000_0000 <= self.y_milli <= 0x1000_0000
    }
}

/// What is measured at cell `k` of the region, its cells counted row by row:
/// its distances from the centre and from the tip, and the bulge given for it.
pub open spec fn sample_at(k: int, region: Region, tip: Tip, petal: u32) -> CellSample {
    let x = region.left + k % (region.width as int);
    let y = region.top + k / (region.width as int);
    CellSample {
        dist_milli: centre_distance_spec(x, y, region) as u32,
        spirit_dist_milli: tip_distance_spec(x, y, tip.x_milli as int, tip.y_milli as int) as u32,
        petal_millionths: petal,
    }
}

/// The background of a whole region, cell by cell and row by row: for each
/// cell its colour, or nothing where it stays unpainted. `petals` gives the
/// bulge of the petal ring in each cell's direction.
pub fn shade_region(region: Region, tip: Tip, frame: &FrameLight, petals: &Vec<u32>) -> (colours:
    Vec<Option<Rgb>>)
    requires
        region.wf(),
        tip.wf(),
        frame.wf(),
        petals@.len() == region.cells(),
        forall|k: int| 0 <= k < petals@.len() ==> #[trigger] petals@[k] <= 1_000_000,
    ensures
        colours@.len() == region.cells(),
        forall|k: int|
            0 <= k < region.cells() ==> #[trigger] colours@[k] == composed(
                cell_terms(sample_at(k, region, tip, petals@[k]), *frame),
            ),
{
    let width: usize = region.width as usize;
    let mut colours: Vec<Option<Rgb>> = Vec::new();
    let mut k: usize = 0;
    while k < petals.len()
        invariant
            region.wf(),
            tip.wf(),
            frame.wf(),
            width == region.width,
            petals@.len() == region.cells(),
            forall|j: int| 0 <= j < petals@.len() ==> #[trigger] petals@[j] <= 1_000_000,
            k <= petals@.len(),
            colours@.len() == k,
            forall|j: int|
                0 <= j < k ==> #[trigger] colours@[j] == composed(
                    cell_terms(sample_at(j, region, tip, petals@[j]), *frame),
                ),
        decreases petals.len() - k,
    {
        assert(width > 0) by (nonlinear_arith)
            requires
                k < region.width * region.height,
                width == region.width,
        ;
        let row: usize = k / width;
        let column: usize = k % width;
        assert(row < region.height) by (nonlinear_arith)
            requires
                row == k / width,
                k < region.width * region.height,
                width == region.width,
                width > 0,
        ;
        let x: u16 = region.left + column as u16;
        let y: u16 = region.top + row as u16;
        let cell = CellSample {
            dist_milli: centre_distance(x, y, region),
            spirit_dist_milli: tip_distance(x, y, tip.x_milli, tip.y_milli),
            petal_millionths: petals[k],
        };
        assert(cell == sample_at(k as int, region, tip, petals@[k as int]));
        colours.push(shade_cell(cell, frame));
        k = k + 1;
    }
    colours
}

/// Taking one term out of the contributions takes its light out of the sum.
pub proof fn lemma_total_without(terms: Seq<Contribution>, i: int)
    requires
        0 <= i < terms.len(),
    ensures
        total(terms).0 == total(terms.remove(i)).0 + terms[i].red,
        total(terms).1 == total(terms.remove(i)).1 + terms[i].green,
        total(terms).2 == total(terms.remove(i)).2 + terms[i].blue,
    decreases terms.len(),
{
    if i == terms.len() - 1 {
        assert(terms.remove(i) =~= terms.drop_last());
    } else {
        lemma_total_without(terms.drop_last(), i);
        assert(terms.remove(i).drop_last() =~= terms.drop_last().remove(i));
        assert(terms.remove(i).last() == terms.last());
    }
}

/// The sum does not depend on the order of the contributions.
pub proof fn lemma_total_any_order(first: Seq<Contribution>, second: Seq<Contribution>)
    requires
        first.to_multiset() == second.to_multiset(),
    ensures
        total(first) == total(second),
    decreases first.len(),
{
    first.to_multiset_ensures();
    second.to_multiset_ensures();
    assert(first.len() == first.to_multiset().len());
    assert(second.len() == second.to_multiset().len());
    if first.len() > 0 {
        let term = first.last();
        assert(first.contains(term));
        assert(first.to_multiset().count(term) > 0);
        assert(second.to_multiset().count(term) > 0);
        assert(second.contains(term));
        let at = choose|at: int| 0 <= at < second.len() && second[at] == term;
        assert(first.drop_last() =~= first.remove(first.len() - 1));
        assert(first.drop_last().to_multiset() == second.remove(at).to_multiset());
        lemma_total_any_order(first.drop_last(), second.remove(at));
        lemma_total_without(second, at);
    }
}

/// The colour of a cell does not depend on the order in which its
/// contributions are taken.
pub proof fn lemma_composed_any_order(first: Seq<Contribution>, second: Seq<Contribution>)
    requires
        first.to_multiset() == second.to_multiset(),
    ensures
        composed(first) == composed(second),
{
    lemma_total_any_order(first, second);
}

} // verus!
