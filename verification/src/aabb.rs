//! Axis-aligned bounding boxes of the reconstruction domain.
//!
//! A box is a pair of corner points `min` and `max`, componentwise
//! `min <= max`. The scalar kind is an opaque type parameter: the box only
//! carries the corners, and arithmetic on them (growing the box, containment
//! tests) is done by the caller who owns the scalar kind. Conversion between
//! scalar kinds runs through a caller-supplied conversion function.

use vstd::prelude::*;

verus! {

/// Axis-aligned bounding box of 3D points with scalars of kind `R`.
#[derive(Clone, Copy, Debug, PartialEq)]
pub struct AxisAlignedBoundingBox3d<R> {
    /// Corner of smallest coordinates.
    pub min: [R; 3],
    /// Corner of largest coordinates.
    pub max: [R; 3],
}

/// The conversion `convert` takes scalar `x` to scalar `y`.
pub open spec fn scalar_converts_to<R, T, F: Fn(R) -> Option<T>>(convert: F, x: R, y: T) -> bool {
    call_ensures(convert, (x,), Some(y))
}

/// The corners of `converted` are the corners of `original` taken through
/// the conversion `convert`, componentwise.
pub open spec fn aabb_converted<R, T, F: Fn(R) -> Option<T>>(
    convert: F,
    original: AxisAlignedBoundingBox3d<R>,
    converted: AxisAlignedBoundingBox3d<T>,
) -> bool {
    forall|a: int|
        0 <= a < 3 ==> scalar_converts_to(convert, original.min[a], #[trigger] converted.min[a])
            && scalar_converts_to(convert, original.max[a], #[trigger] converted.max[a])
}

/// The conversion `convert` can return the failed conversion for the
/// scalar `x`.
pub open spec fn scalar_conversion_fails<R, T, F: Fn(R) -> Option<T>>(convert: F, x: R) -> bool {
    call_ensures(convert, (x,), None::<T>)
}

/// The conversion `convert` reported failure on some corner scalar of the
/// box.
pub open spec fn aabb_conversion_fails<R, T, F: Fn(R) -> Option<T>>(
    convert: F,
    aabb: AxisAlignedBoundingBox3d<R>,
) -> bool {
    exists|a: int|
        0 <= a < 3 && (scalar_conversion_fails(convert, #[trigger] aabb.min[a])
            || scalar_conversion_fails(convert, #[trigger] aabb.max[a]))
}

impl<R: Copy> AxisAlignedBoundingBox3d<R> {
    /// Constructs the box of the two given corner points.
    pub fn new(min: [R; 3], max: [R; 3]) -> (aabb: Self)
        ensures
            aabb.min == min,
            aabb.max == max,
    {
        Self { min, max }
    }

    /// Tries to convert the box corners from one scalar kind to another with
    /// the given conversion, and returns `None` if any component fails.
    pub fn try_convert<T: Copy, F: Fn(R) -> Option<T>>(&self, convert: &F) -> (result: Option<
        AxisAlignedBoundingBox3d<T>,
    >)
        requires
            forall|x: R| call_requires(*convert, (x,)),
        ensures
            match result {
                Some(converted) => aabb_converted(*convert, *self, converted),
                None => aabb_conversion_fails::<R, T, F>(*convert, *self),
            },
    {
        let min_x = convert(self.min[0]);
        let min_y = convert(self.min[1]);
        let min_z = convert(self.min[2]);
        let max_x = convert(self.max[0]);
        let max_y = convert(self.max[1]);
        let max_z = convert(self.max[2]);
        match (min_x, min_y, min_z, max_x, max_y, max_z) {
            (Some(ix), Some(iy), Some(iz), Some(ax), Some(ay), Some(az)) => {
                let converted = AxisAlignedBoundingBox3d { min: [ix, iy, iz], max: [ax, ay, az] };
                assert(aabb_converted(*convert, *self, converted)) by {
                    assert(forall|a: int|
                        0 <= a < 3 ==> scalar_converts_to(
                            *convert,
                            self.min[a],
                            #[trigger] converted.min[a],
                        ) && scalar_converts_to(*convert, self.max[a], #[trigger] converted.max[a]));
                }
                Some(converted)
            },
            _ => {
                proof {
                    assert(aabb_conversion_fails::<R, T, F>(*convert, *self)) by {
                        if min_x is None {
                            assert(scalar_conversion_fails(*convert, self.min[0]));
                        } else if min_y is None {
                            assert(scalar_conversion_fails(*convert, self.min[1]));
                        } else if min_z is None {
                            assert(scalar_conversion_fails(*convert, self.min[2]));
                        } else if max_x is None {
                            assert(scalar_conversion_fails(*convert, self.max[0]));
                        } else if max_y is None {
                            assert(scalar_conversion_fails(*convert, self.max[1]));
                        } else {
                            assert(scalar_conversion_fails(*convert, self.max[2]));
                        }
                    }
                }
                None
            },
        }
    }
}

} // verus!
