//! Screens and their density.
use core::marker::PhantomData;
use vstd::prelude::*;

use crate::input::ScreenPixelUnit;

verus! {

/// `euclid::Size2D`: a width and a height tagged with a unit.
#[verifier::external_type_specification]
#[verifier::reject_recursive_types(T)]
#[verifier::reject_recursive_types(U)]
pub struct ExSize2D<T, U>(euclid::Size2D<T, U>);

/// `euclid::Rect`: an origin and a size.
#[verifier::external_type_specification]
#[verifier::reject_recursive_types(T)]
#[verifier::reject_recursive_types(U)]
pub struct ExRect<T, U>(euclid::Rect<T, U>);

/// `euclid::rect`: the rectangle at `x`, `y` that is `w` wide and `h` high.
pub assume_specification<T, U>[ euclid::rect::<T, U> ](x: T, y: T, w: T, h: T) -> (r:
    euclid::Rect<T, U>)
    ensures
        r.origin.x == x,
        r.origin.y == y,
        r.size.width == w,
        r.size.height == h,
;

/// A rectangle of the screen.
pub type ScreenRect = euclid::Rect<isize, ScreenPixelUnit>;

/// The density of a screen at 100% scale.
pub const DEFAULT_DPI: u32 = 96;

/// The name of the only screen that is reported.
pub const PRIMARY_SCREEN: &'static str = "primary";

/// A scale factor: `dpi` divided by `base`.
#[derive(Debug, Clone, Copy, PartialEq, Eq, Structural)]
pub struct Scale {
    pub dpi: u32,
    pub base: u32,
}

/// A screen.
#[derive(Debug, PartialEq, Eq)]
pub struct ScreenInfo {
    pub name: String,
    pub rect: ScreenRect,
    pub scale: Scale,
    pub max_fps: Option<usize>,
    pub effective_dpi: Option<u32>,
}

/// The screens of the system. `by_name` holds each screen once, under its name.
#[derive(Debug, PartialEq, Eq)]
pub struct Screens {
    pub main: ScreenInfo,
    pub active: ScreenInfo,
    pub by_name: Vec<(String, ScreenInfo)>,
    pub virtual_rect: ScreenRect,
}

/// The rectangle at the origin of the screen that has this size.
pub open spec fn screen_area(width: i32, height: i32) -> ScreenRect {
    euclid::Rect {
        origin: euclid::Point2D { x: 0, y: 0, _unit: PhantomData },
        size: euclid::Size2D {
            width: width as isize,
            height: height as isize,
            _unit: PhantomData,
        },
    }
}

impl ScreenInfo {
    /// The primary screen, of this size in pixels and at this density.
    pub open spec fn is_primary(self, width: i32, height: i32, dpi: u32) -> bool {
        &&& self.name@ == PRIMARY_SCREEN@
        &&& self.rect == screen_area(width, height)
        &&& self.scale == (Scale { dpi, base: DEFAULT_DPI })
        &&& self.max_fps is None
        &&& self.effective_dpi == Some(dpi)
    }
}

/// The density of the system, where `reported` is what the system says, zero
/// when it cannot tell.
pub open spec fn effective_dpi(reported: u32) -> u32 {
    if reported == 0 {
        DEFAULT_DPI
    } else {
        reported
    }
}

/// The density of the system (192 at 200% scale), or the default when the
/// system reports none.
pub fn system_dpi(reported: u32) -> (dpi: u32)
    ensures
        reported != 0 ==> dpi == reported,
        reported == 0 ==> dpi == 96,
        dpi == effective_dpi(reported),
{
    if reported == 0 {
        DEFAULT_DPI
    } else {
        reported
    }
}

/// The primary screen.
fn primary_screen(width: i32, height: i32, dpi: u32) -> (info: ScreenInfo)
    ensures
        info.is_primary(width, height, dpi),
{
    ScreenInfo {
        name: PRIMARY_SCREEN.to_owned(),
        rect: euclid::rect(0, 0, width as isize, height as isize),
        scale: Scale { dpi, base: DEFAULT_DPI },
        max_fps: None,
        effective_dpi: Some(dpi),
    }
}

/// The screens of the system, from the size of its primary screen and the
/// density that it reports: the primary screen alone.
pub fn screens(width: i32, height: i32, reported_dpi: u32) -> (all: Screens)
    ensures
        all.main.is_primary(width, height, effective_dpi(reported_dpi)),
        all.active.is_primary(width, height, effective_dpi(reported_dpi)),
        all.by_name@.len() == 1,
        all.by_name@[0].0@ == PRIMARY_SCREEN@,
        all.by_name@[0].1.is_primary(width, height, effective_dpi(reported_dpi)),
        all.virtual_rect == screen_area(width, height),
        all.main.effective_dpi == Some(
            if reported_dpi != 0 {
                reported_dpi
            } else {
                96
            },
        ),
        all.main.scale.dpi == (if reported_dpi != 0 {
            reported_dpi
        } else {
            96
        }),
        all.main.scale.base == 96,
        all.main.name@ == "primary"@,
        all.main.max_fps is None,
        all.main.rect.origin.x == 0,
        all.main.rect.origin.y == 0,
        all.main.rect.size.width == width,
        all.main.rect.size.height == height,
        all.virtual_rect.origin.x == 0,
        all.virtual_rect.origin.y == 0,
        all.virtual_rect.size.width == width,
        all.virtual_rect.size.height == height,
        all.active.name@ == all.main.name@,
        all.active.rect == all.main.rect,
        all.active.scale == all.main.scale,
        all.active.max_fps == all.main.max_fps,
        all.active.effective_dpi == all.main.effective_dpi,
        all.by_name@[0].0@ == all.main.name@,
        all.by_name@[0].1.name@ == all.main.name@,
        all.by_name@[0].1.rect == all.main.rect,
        all.by_name@[0].1.scale == all.main.scale,
        all.by_name@[0].1.max_fps == all.main.max_fps,
        all.by_name@[0].1.effective_dpi == all.main.effective_dpi,
{
    let dpi: u32 = system_dpi(reported_dpi);
    let info = primary_screen(width, height, dpi);
    let mut by_name: Vec<(String, ScreenInfo)> = Vec::new();
    by_name.push((info.name.clone(), info));
    Screens {
        main: primary_screen(width, height, dpi),
        active: primary_screen(width, height, dpi),
        by_name,
        virtual_rect: euclid::rect(0, 0, width as isize, height as isize),
    }
}

/// A density that the system reports is used as it is, so that text is sharp at
/// every scale. The density at 100% scale stands in for a density that the system
/// cannot tell.
pub proof fn law_reported_density_is_used(reported: u32)
    ensures
        reported != 0 ==> effective_dpi(reported) == reported,
        reported == 0 ==> effective_dpi(reported) == 96,
{
}

/// The primary screen covers its pixels from the origin, and its scale is its
/// density over the density at 100%.
pub proof fn law_primary_screen_covers_its_pixels(
    info: ScreenInfo,
    width: i32,
    height: i32,
    dpi: u32,
)
    requires
        info.is_primary(width, height, dpi),
    ensures
        info.name@ == "primary"@,
        info.rect.origin.x == 0,
        info.rect.origin.y == 0,
        info.rect.size.width == width,
        info.rect.size.height == height,
        info.scale.dpi == dpi,
        info.scale.base == 96,
        info.max_fps is None,
        info.effective_dpi == Some(dpi),
{
}


} // verus!
