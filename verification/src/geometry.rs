//! Size and position of the topbar window on a monitor.
//!
//! The topbar takes three fifths of the screen width and starts one fifth
//! in from the left edge; a resized topbar is centred. The screen width is
//! taken in physical pixels as reported, or in logical pixels, which are
//! physical pixels divided by the monitor's scale factor. Every quantity is
//! computed as an exact ratio and rounded once, by `round_div`.

use crate::rounding::{
    lemma_round_div_cancel, lemma_round_div_characterised, lemma_round_div_monotonic,
    lemma_round_div_nearest, lemma_round_div_same_ratio, round_div, round_quotient,
};
use crate::scale::{
    exponent_of, lemma_pow2_bound, lemma_scale_value, power_of_two, Ratio, ScaleFactor,
    EXPONENT_OFFSET, FRACTION_SPAN, ONE_BITS,
};
use vstd::arithmetic::power2::pow2;
use vstd::prelude::*;

verus! {

/// The widest screen the crate reckons with, in pixels of either unit. A
/// logical width beyond it is taken as this width.
pub const MAX_SCREEN_WIDTH: u32 = 0xFFFF_FFFF;

/// The pixel unit in which geometry is computed and handed to the host.
#[derive(Clone, Copy, Debug, PartialEq, Eq)]
pub enum UnitMode {
    /// Physical pixels divided by the monitor's scale factor.
    Logical,
    /// Physical pixels as the monitor reports them.
    Physical,
}

/// A snapshot of one monitor, as the host reported it at the time of a call.
#[derive(Clone, Copy, Debug, PartialEq, Eq)]
pub struct MonitorDescriptor {
    /// Width of the monitor in physical pixels.
    pub physical_width: u32,
    /// Height of the monitor in physical pixels.
    pub physical_height: u32,
    /// Ratio of physical to logical pixels.
    pub scale_factor: ScaleFactor,
}

/// The geometry that a call asks the host to apply to the window, in the
/// pixels of the call's unit mode.
#[derive(Clone, Copy, Debug, PartialEq, Eq)]
pub struct AppliedGeometry {
    pub x: i32,
    pub y: i32,
    pub width: u32,
    pub height: u32,
}

/// `extent`, or `MAX_SCREEN_WIDTH` where it lies beyond that.
pub open spec fn capped(extent: Ratio) -> Ratio {
    if extent.num > MAX_SCREEN_WIDTH * extent.den {
        Ratio::whole(MAX_SCREEN_WIDTH as int)
    } else {
        extent
    }
}

/// `physical` pixels in logical pixels at `scale`: the exact quotient,
/// capped at `MAX_SCREEN_WIDTH`.
pub open spec fn logical_extent(physical: u32, scale: ScaleFactor) -> Ratio {
    capped(Ratio { num: physical * scale@.den, den: scale@.num })
}

impl MonitorDescriptor {
    /// The width of the screen in the pixels of `mode`.
    pub open spec fn screen_width(self, mode: UnitMode) -> Ratio {
        match mode {
            UnitMode::Physical => Ratio::whole(self.physical_width as int),
            UnitMode::Logical => logical_extent(self.physical_width, self.scale_factor),
        }
    }

    /// A snapshot of a monitor with the given physical size and scale factor.
    pub fn new(physical_width: u32, physical_height: u32, scale_factor: ScaleFactor) -> (monitor:
        MonitorDescriptor)
        ensures
            monitor.physical_width == physical_width,
            monitor.physical_height == physical_height,
            monitor.scale_factor == scale_factor,
    {
        MonitorDescriptor { physical_width, physical_height, scale_factor }
    }
}

/// Width of the topbar on a screen `screen_width` wide: three fifths of it.
pub open spec fn setup_width(screen_width: Ratio) -> int {
    round_div(3 * screen_width.num, 5 * screen_width.den)
}

/// Left edge of the topbar on a screen `screen_width` wide: one fifth of it.
pub open spec fn setup_x(screen_width: Ratio) -> int {
    round_div(screen_width.num, 5 * screen_width.den)
}

/// Left edge that centres a window `width` wide on a screen `screen_width`
/// wide: half of what the window leaves free. It is negative where the
/// window is wider than the screen.
pub open spec fn centered_x(screen_width: Ratio, width: int) -> int {
    round_div(screen_width.num - width * screen_width.den, 2 * screen_width.den)
}

/// The geometry of a topbar `height` high that is set up on `monitor`.
pub open spec fn setup_plan(monitor: MonitorDescriptor, height: u32, mode: UnitMode)
    -> AppliedGeometry {
    let screen_width = monitor.screen_width(mode);
    AppliedGeometry {
        x: setup_x(screen_width) as i32,
        y: 0,
        width: setup_width(screen_width) as u32,
        height,
    }
}

/// The geometry of a topbar that is resized to `width` by `height` on
/// `monitor`.
pub open spec fn resize_plan(monitor: MonitorDescriptor, width: u32, height: u32, mode: UnitMode)
    -> AppliedGeometry {
    AppliedGeometry {
        x: centered_x(monitor.screen_width(mode), width as int) as i32,
        y: 0,
        width,
        height,
    }
}

/// `num / den` can take the place of `extent` in the three formulas: it is
/// the same number, or it is zero while `extent` is less than half a pixel.
spec fn stands_for(num: int, den: int, extent: Ratio) -> bool {
    &&& den > 0
    &&& extent.den > 0
    &&& 0 <= num <= MAX_SCREEN_WIDTH * den
    &&& 0 <= extent.num <= MAX_SCREEN_WIDTH * extent.den
    &&& (num * extent.den == extent.num * den || (num == 0 && 2 * extent.num < extent.den))
}

/// A screen width is a ratio of a non-negative to a positive integer and at
/// most `MAX_SCREEN_WIDTH`.
pub proof fn lemma_screen_width_bounds(monitor: MonitorDescriptor, mode: UnitMode)
    requires
        monitor.scale_factor.valid(),
    ensures
        monitor.screen_width(mode).den > 0,
        0 <= monitor.screen_width(mode).num <= MAX_SCREEN_WIDTH * monitor.screen_width(mode).den,
{
    lemma_scale_value(monitor.scale_factor);
    let scale = monitor.scale_factor@;
    let physical = monitor.physical_width as int;
    assert(physical * scale.den >= 0) by (nonlinear_arith)
        requires
            physical >= 0,
            scale.den > 0,
    ;
}

proof fn lemma_stands_for_setup(num: int, den: int, extent: Ratio)
    requires
        stands_for(num, den, extent),
    ensures
        setup_width(Ratio { num, den }) == setup_width(extent),
        setup_x(Ratio { num, den }) == setup_x(extent),
{
    if num * extent.den == extent.num * den {
        assert((3 * num) * (5 * extent.den) == (3 * extent.num) * (5 * den)) by (nonlinear_arith)
            requires
                num * extent.den == extent.num * den,
        ;
        assert(num * (5 * extent.den) == extent.num * (5 * den)) by (nonlinear_arith)
            requires
                num * extent.den == extent.num * den,
        ;
        lemma_round_div_same_ratio(3 * num, 5 * den, 3 * extent.num, 5 * extent.den);
        lemma_round_div_same_ratio(num, 5 * den, extent.num, 5 * extent.den);
    } else {
        // Less than half a pixel: three fifths and one fifth of it round to 0.
        assert(5 * extent.den * 0 == 0);
        lemma_round_div_characterised(3 * extent.num, 5 * extent.den, 0);
        lemma_round_div_characterised(extent.num, 5 * extent.den, 0);
        lemma_round_div_characterised(0, 5 * den, 0);
        assert(5 * den * 0 == 0);
    }
}

proof fn lemma_stands_for_centered(num: int, den: int, extent: Ratio, width: int)
    requires
        stands_for(num, den, extent),
        width >= 0,
    ensures
        centered_x(Ratio { num, den }, width) == centered_x(extent, width),
{
    if num * extent.den == extent.num * den {
        assert((num - width * den) * (2 * extent.den) == (extent.num - width * extent.den) * (2
            * den)) by (nonlinear_arith)
            requires
                num * extent.den == extent.num * den,
        ;
        lemma_round_div_same_ratio(
            num - width * den,
            2 * den,
            extent.num - width * extent.den,
            2 * extent.den,
        );
    } else {
        // The window alone decides: the screen adds less than a quarter pixel.
        let z = round_div(-width, 2);
        let half = width / 2;
        assert(z == -half);
        assert((0 - width * den) * 2 == (-width) * (2 * den)) by (nonlinear_arith);
        lemma_round_div_same_ratio(0 - width * den, 2 * den, -width, 2);
        let n = extent.num;
        let d = extent.den;
        if width % 2 == 0 {
            assert(width == 2 * half);
            assert((n - width * d) - (2 * d) * z == n) by (nonlinear_arith)
                requires
                    width == 2 * half,
                    z == -half,
            ;
        } else {
            assert(width == 2 * half + 1);
            assert((n - width * d) - (2 * d) * z == n - d) by (nonlinear_arith)
                requires
                    width == 2 * half + 1,
                    z == -half,
            ;
            assert((2 * d) * z == -(2 * half) * d) by (nonlinear_arith)
                requires
                    z == -half,
            ;
            assert(n - width * d == n - (2 * half) * d - d) by (nonlinear_arith)
                requires
                    width == 2 * half + 1,
            ;
            assert((2 * half) * d >= 0) by (nonlinear_arith)
                requires
                    half >= 0,
                    d > 0,
            ;
        }
        lemma_round_div_characterised(n - width * d, 2 * d, z);
    }
}

/// The planned quantities fit the integer types of `AppliedGeometry`.
pub proof fn lemma_plans_in_range(monitor: MonitorDescriptor, mode: UnitMode, width: u32)
    requires
        monitor.scale_factor.valid(),
    ensures
        0 <= setup_width(monitor.screen_width(mode)) <= 2576980377,
        0 <= setup_x(monitor.screen_width(mode)) <= 858993459,
        -2147483647 <= centered_x(monitor.screen_width(mode), width as int) <= 2147483647,
{
    let extent = monitor.screen_width(mode);
    lemma_screen_width_bounds(monitor, mode);
    lemma_ratio_plans_in_range(extent, width as int);
}

proof fn lemma_ratio_plans_in_range(extent: Ratio, width: int)
    requires
        extent.den > 0,
        0 <= extent.num <= MAX_SCREEN_WIDTH * extent.den,
        0 <= width <= MAX_SCREEN_WIDTH,
    ensures
        0 <= setup_width(extent) <= 2576980377,
        0 <= setup_x(extent) <= 858993459,
        -2147483647 <= centered_x(extent, width) <= 2147483647,
{
    let n = extent.num;
    let d = extent.den;
    let top = MAX_SCREEN_WIDTH as int;
    // The widest screen bounds all three from above, the empty screen from below.
    lemma_round_div_monotonic(3 * n, 3 * (top * d), 5 * d);
    lemma_round_div_monotonic(0, 3 * n, 5 * d);
    lemma_round_div_monotonic(n, top * d, 5 * d);
    lemma_round_div_monotonic(0, n, 5 * d);
    assert(0 <= width * d <= top * d) by (nonlinear_arith)
        requires
            0 <= width <= top,
            d > 0,
    ;
    lemma_round_div_monotonic(n - width * d, top * d, 2 * d);
    lemma_round_div_monotonic(-(top * d), n - width * d, 2 * d);
    assert(3 * (top * d) == d * (3 * top)) by (nonlinear_arith);
    assert(5 * d == d * 5);
    assert(2 * d == d * 2);
    assert(top * d == d * top) by (nonlinear_arith);
    assert(-(top * d) == d * (-top)) by (nonlinear_arith);
    assert(0 == d * 0);
    lemma_round_div_cancel(3 * top, 5, d);
    lemma_round_div_cancel(top, 5, d);
    lemma_round_div_cancel(top, 2, d);
    lemma_round_div_cancel(-top, 2, d);
    lemma_round_div_cancel(0, 5, d);
}

/// What a setup plans is what the formulas give, with no loss to the
/// integer types: three fifths of the screen width as the width, one fifth
/// as the left edge, the top of the screen, and the height asked for.
pub proof fn lemma_setup_plan_exact(monitor: MonitorDescriptor, height: u32, mode: UnitMode)
    requires
        monitor.scale_factor.valid(),
    ensures
        setup_plan(monitor, height, mode).width == setup_width(monitor.screen_width(mode)),
        setup_plan(monitor, height, mode).x == setup_x(monitor.screen_width(mode)),
        setup_plan(monitor, height, mode).y == 0,
        setup_plan(monitor, height, mode).height == height,
{
    lemma_plans_in_range(monitor, mode, 0);
}

/// What a resize plans is what the formula gives, with no loss to the
/// integer types: the size asked for, and half of the free width as the
/// left edge, for every width, wider than the screen or not.
pub proof fn lemma_resize_plan_exact(
    monitor: MonitorDescriptor,
    width: u32,
    height: u32,
    mode: UnitMode,
)
    requires
        monitor.scale_factor.valid(),
    ensures
        resize_plan(monitor, width, height, mode).x == centered_x(
            monitor.screen_width(mode),
            width as int,
        ),
        resize_plan(monitor, width, height, mode).y == 0,
        resize_plan(monitor, width, height, mode).width == width,
        resize_plan(monitor, width, height, mode).height == height,
{
    lemma_plans_in_range(monitor, mode, width);
}

/// In physical pixels the screen width is the whole number that the monitor
/// reports, whatever its scale factor: the plans are the roundings of
/// `3 * w / 5`, `w / 5` and `(w - width) / 2`.
pub proof fn lemma_physical_plans(monitor: MonitorDescriptor, width: u32, height: u32)
    ensures
        setup_plan(monitor, height, UnitMode::Physical).width == round_div(
            3 * monitor.physical_width,
            5,
        ),
        setup_plan(monitor, height, UnitMode::Physical).x == round_div(
            monitor.physical_width as int,
            5,
        ),
        resize_plan(monitor, width, height, UnitMode::Physical).x == round_div(
            monitor.physical_width - width,
            2,
        ),
{
    let extent = monitor.screen_width(UnitMode::Physical);
    lemma_ratio_plans_in_range(extent, width as int);
    assert(width * extent.den == width) by (nonlinear_arith)
        requires
            extent.den == 1,
    ;
}

/// At the scale factor 1.0 a logical pixel is a physical pixel: the screen
/// is equally wide in both units, and both unit modes plan the same
/// geometry for a setup and for a resize.
pub proof fn lemma_unit_modes_agree_at_scale_one(
    monitor: MonitorDescriptor,
    width: u32,
    height: u32,
)
    requires
        monitor.scale_factor.bits() == ONE_BITS,
    ensures
        monitor.screen_width(UnitMode::Logical).same_value(
            monitor.screen_width(UnitMode::Physical),
        ),
        setup_plan(monitor, height, UnitMode::Logical) == setup_plan(
            monitor,
            height,
            UnitMode::Physical,
        ),
        resize_plan(monitor, width, height, UnitMode::Logical) == resize_plan(
            monitor,
            width,
            height,
            UnitMode::Physical,
        ),
{
    lemma_scale_value(monitor.scale_factor);
    let scale = monitor.scale_factor@;
    let physical = monitor.physical_width as int;
    let logical = monitor.screen_width(UnitMode::Logical);
    assert(physical * scale.den <= MAX_SCREEN_WIDTH * scale.num) by (nonlinear_arith)
        requires
            scale.num == scale.den,
            scale.den > 0,
            0 <= physical <= MAX_SCREEN_WIDTH,
    ;
    assert(logical == (Ratio { num: physical * scale.den, den: scale.num }));
    lemma_screen_width_bounds(monitor, UnitMode::Logical);
    assert(physical * logical.den == logical.num * 1) by (nonlinear_arith)
        requires
            logical.num == physical * scale.den,
            logical.den == scale.num,
            scale.num == scale.den,
    ;
    lemma_stands_for_setup(physical, 1, logical);
    lemma_stands_for_centered(physical, 1, logical, width as int);
}

/// Two screen widths of equal value give the same three quantities.
pub proof fn lemma_plans_depend_on_value(first: Ratio, second: Ratio, width: int)
    requires
        first.den > 0,
        second.den > 0,
        first.same_value(second),
    ensures
        setup_width(first) == setup_width(second),
        setup_x(first) == setup_x(second),
        centered_x(first, width) == centered_x(second, width),
{
    let (n1, d1, n2, d2) = (first.num, first.den, second.num, second.den);
    assert((3 * n1) * (5 * d2) == (3 * n2) * (5 * d1)) by (nonlinear_arith)
        requires
            n1 * d2 == n2 * d1,
    ;
    assert(n1 * (5 * d2) == n2 * (5 * d1)) by (nonlinear_arith)
        requires
            n1 * d2 == n2 * d1,
    ;
    assert((n1 - width * d1) * (2 * d2) == (n2 - width * d2) * (2 * d1)) by (nonlinear_arith)
        requires
            n1 * d2 == n2 * d1,
    ;
    lemma_round_div_same_ratio(3 * n1, 5 * d1, 3 * n2, 5 * d2);
    lemma_round_div_same_ratio(n1, 5 * d1, n2, 5 * d2);
    lemma_round_div_same_ratio(n1 - width * d1, 2 * d1, n2 - width * d2, 2 * d2);
}

/// A centred window has the same free width on both sides, up to the one
/// pixel that rounding can cost: twice its left edge and its width make up
/// the screen width to within a pixel. Its left edge is negative only where
/// the window is wider than the screen.
pub proof fn lemma_centered_is_centred(screen_width: Ratio, width: int)
    requires
        screen_width.den > 0,
    ensures
        -screen_width.den <= screen_width.num - (2 * centered_x(screen_width, width) + width)
            * screen_width.den <= screen_width.den,
        width * screen_width.den <= screen_width.num ==> centered_x(screen_width, width) >= 0,
        width * screen_width.den >= screen_width.num ==> centered_x(screen_width, width) <= 0,
{
    let n = screen_width.num;
    let d = screen_width.den;
    let x = centered_x(screen_width, width);
    lemma_round_div_nearest(n - width * d, 2 * d, x);
    assert((n - width * d) - (2 * d) * x == n - (2 * x + width) * d) by (nonlinear_arith);
    lemma_round_div_characterised(0, 2 * d, 0);
    assert((2 * d) * 0 == 0);
    if width * d <= n {
        lemma_round_div_monotonic(0, n - width * d, 2 * d);
    }
    if width * d >= n {
        lemma_round_div_monotonic(n - width * d, 0, 2 * d);
    }
}

/// The screen width of `physical` pixels at `scale` in logical pixels, as a
/// fraction that stands for it.
fn logical_parts(physical: u32, scale: &ScaleFactor) -> (parts: (u128, u128))
    ensures
        stands_for(parts.0 as int, parts.1 as int, logical_extent(physical, *scale)),
        parts.1 < 2 * FRACTION_SPAN,
{
    let mantissa: u64 = scale.mantissa();
    let biased: u64 = scale.biased_exponent();
    proof {
        assert(scale.valid());
        lemma_scale_value(*scale);
    }
    if physical == 0 {
        assert(0 * scale@.den == 0) by (nonlinear_arith);
        assert(0 * 1 == scale@.num * 0) by (nonlinear_arith);
        return (0, 1);
    }
    if biased >= EXPONENT_OFFSET {
        // The scale is 2^52 at least: the screen is less than half a logical pixel.
        proof {
            let e = (biased - EXPONENT_OFFSET) as nat;
            lemma_pow2_bound(0, e);
            assert(scale@.den == 1);
            assert(scale@.num >= mantissa);
            assert(physical * scale@.den == physical) by (nonlinear_arith)
                requires
                    scale@.den == 1,
            ;
            assert(MAX_SCREEN_WIDTH * scale@.num >= physical) by (nonlinear_arith)
                requires
                    scale@.num >= 1,
                    physical <= MAX_SCREEN_WIDTH,
            ;
        }
        return (0, 1);
    }
    let shift: u64 = EXPONENT_OFFSET - biased;
    let limit: u128 = (MAX_SCREEN_WIDTH as u128) * (mantissa as u128);
    proof {
        assert(exponent_of(scale.bits()) == -(shift as int));
        assert(scale@.num == mantissa);
        assert(scale@.den == pow2(shift as nat));
    }
    if shift > 86 {
        // The scale is below 2^-33: the screen is wider than the cap.
        proof {
            lemma_pow2_bound(87, shift as nat);
            lemma_pow2_87();
            assert(physical * scale@.den >= pow2(87)) by (nonlinear_arith)
                requires
                    physical >= 1,
                    scale@.den >= pow2(87),
            ;
        }
        return (MAX_SCREEN_WIDTH as u128, 1);
    }
    let power: u128 = power_of_two(shift);
    proof {
        lemma_pow2_bound(shift as nat, 86);
        lemma_pow2_86();
        assert(physical * power <= 0xFFFF_FFFF * 0x40_0000_0000_0000_0000_0000int)
            by (nonlinear_arith)
            requires
                0 <= physical <= 0xFFFF_FFFF,
                0 <= power <= 0x40_0000_0000_0000_0000_0000int,
        ;
    }
    let scaled: u128 = (physical as u128) * power;
    if scaled > limit {
        (MAX_SCREEN_WIDTH as u128, 1)
    } else {
        (scaled, mantissa as u128)
    }
}

proof fn lemma_pow2_86()
    ensures
        pow2(86) == 0x40_0000_0000_0000_0000_0000,
{
    vstd::arithmetic::power2::lemma2_to64_rest();
    vstd::arithmetic::power2::lemma2_to64();
    vstd::arithmetic::power2::lemma_pow2_adds(64, 22);
    assert(pow2(22) == 0x40_0000);
    assert(0x1_0000_0000_0000_0000int * 0x40_0000int == 0x40_0000_0000_0000_0000_0000int)
        by (nonlinear_arith);
}

proof fn lemma_pow2_87()
    ensures
        pow2(87) == 0x80_0000_0000_0000_0000_0000,
{
    lemma_pow2_86();
    vstd::arithmetic::power2::lemma_pow2_unfold(87);
}

/// The width of `monitor`'s screen in the pixels of `mode`, as a fraction
/// that stands for it.
fn screen_parts(monitor: &MonitorDescriptor, mode: UnitMode) -> (parts: (u128, u128))
    ensures
        stands_for(parts.0 as int, parts.1 as int, monitor.screen_width(mode)),
        parts.1 < 2 * FRACTION_SPAN,
{
    match mode {
        UnitMode::Physical => (monitor.physical_width as u128, 1),
        UnitMode::Logical => logical_parts(monitor.physical_width, &monitor.scale_factor),
    }
}

/// The geometry of a topbar `height` high that is set up on `monitor`: three
/// fifths of the screen wide, one fifth in from the left, at the top.
pub fn setup_geometry(monitor: &MonitorDescriptor, height: u32, mode: UnitMode) -> (geometry:
    AppliedGeometry)
    ensures
        geometry == setup_plan(*monitor, height, mode),
        geometry.width == setup_width(monitor.screen_width(mode)),
        geometry.x == setup_x(monitor.screen_width(mode)),
        geometry.y == 0,
        geometry.height == height,
{
    let parts = screen_parts(monitor, mode);
    let num: u128 = parts.0;
    let den: u128 = parts.1;
    proof {
        let extent = monitor.screen_width(mode);
        lemma_stands_for_setup(num as int, den as int, extent);
        lemma_ratio_plans_in_range(extent, 0);
        assert(num <= 0xFFFF_FFFF * 0x20_0000_0000_0000int) by (nonlinear_arith)
            requires
                0 <= num <= 0xFFFF_FFFF * den,
                0 < den < 0x20_0000_0000_0000int,
        ;
    }
    let width: u128 = round_quotient(3 * num, 5 * den);
    let x: u128 = round_quotient(num, 5 * den);
    AppliedGeometry { x: x as i32, y: 0, width: width as u32, height }
}

/// The geometry of a topbar that is resized to `width` by `height` on
/// `monitor`: centred, at the top. A window wider than the screen is not
/// narrowed; its left edge is then negative.
pub fn resize_geometry(monitor: &MonitorDescriptor, width: u32, height: u32, mode: UnitMode)
    -> (geometry: AppliedGeometry)
    ensures
        geometry == resize_plan(*monitor, width, height, mode),
        geometry.x == centered_x(monitor.screen_width(mode), width as int),
        geometry.y == 0,
        geometry.width == width,
        geometry.height == height,
{
    let parts = screen_parts(monitor, mode);
    let num: u128 = parts.0;
    let den: u128 = parts.1;
    proof {
        let extent = monitor.screen_width(mode);
        lemma_stands_for_centered(num as int, den as int, extent, width as int);
        lemma_ratio_plans_in_range(extent, width as int);
        assert(num <= 0xFFFF_FFFF * 0x20_0000_0000_0000int) by (nonlinear_arith)
            requires
                0 <= num <= 0xFFFF_FFFF * den,
                0 < den < 0x20_0000_0000_0000int,
        ;
        assert(width * den <= 0xFFFF_FFFF * 0x20_0000_0000_0000int) by (nonlinear_arith)
            requires
                0 <= width <= 0xFFFF_FFFF,
                0 < den < 0x20_0000_0000_0000int,
        ;
    }
    let taken: u128 = (width as u128) * den;
    let x: i32 = if num >= taken {
        let right: u128 = round_quotient(num - taken, 2 * den);
        right as i32
    } else {
        let left: u128 = round_quotient(taken - num, 2 * den);
        -(left as i32)
    };
    AppliedGeometry { x, y: 0, width, height }
}

} // verus!
