use vstd::prelude::*;

verus! {

/// Full confidence in a reprojected history sample; zero marks a
/// disoccluded pixel whose history must be discarded.
pub const FULL_VALIDITY: u32 = 255;

/// Where a current-frame pixel's surface point sat in the previous frame,
/// and how much the history there can be trusted.
#[derive(Clone, Copy, PartialEq, Eq, Structural, Debug)]
pub struct ReprojectedPixel {
    pub x: u32,
    pub y: u32,
    pub validity: u32,
}

pub open spec fn spec_in_bounds(x: int, y: int, width: int, height: int) -> bool {
    0 <= x < width && 0 <= y < height
}

/// The per-pixel reprojection policy: follow the motion vector back to the
/// previous frame, then grant full confidence exactly when the target lies
/// on screen and the previous frame's surface there agrees with the
/// current one (depth within tolerance, same quantized normal). The
/// agreement metric is a documented, tunable policy; the zero-motion
/// identity below does not depend on its shape.
pub open spec fn spec_reproject(
    x: int,
    y: int,
    width: int,
    height: int,
    motion_x: int,
    motion_y: int,
    depth_cur: int,
    depth_prev: int,
    depth_tol: int,
    normal_cur: int,
    normal_prev: int,
) -> ReprojectedPixel {
    let px = x - motion_x;
    let py = y - motion_y;
    if spec_in_bounds(px, py, width, height) {
        let valid = spec_abs_le(depth_cur - depth_prev, depth_tol) && normal_cur == normal_prev;
        ReprojectedPixel {
            x: px as u32,
            y: py as u32,
            validity: if valid {
                FULL_VALIDITY
            } else {
                0
            },
        }
    } else {
        ReprojectedPixel { x: x as u32, y: y as u32, validity: 0 }
    }
}

pub open spec fn spec_abs_le(d: int, tol: int) -> bool {
    -tol <= d <= tol
}

/// Compute the reprojection map entry of one pixel. Motion is the
/// screen-space offset the surface moved by since the previous frame
/// (camera and object motion combined), in whole pixels of the map's
/// resolution; depths and normals are the quantized values the agreement
/// test compares.
pub fn reproject_pixel(
    x: u32,
    y: u32,
    width: u32,
    height: u32,
    motion_x: i32,
    motion_y: i32,
    depth_cur: u32,
    depth_prev: u32,
    depth_tol: u32,
    normal_cur: u32,
    normal_prev: u32,
) -> (r: ReprojectedPixel)
    requires
        x < width,
        y < height,
    ensures
        r == spec_reproject(
            x as int,
            y as int,
            width as int,
            height as int,
            motion_x as int,
            motion_y as int,
            depth_cur as int,
            depth_prev as int,
            depth_tol as int,
            normal_cur as int,
            normal_prev as int,
        ),
{
    let px = x as i64 - motion_x as i64;
    let py = y as i64 - motion_y as i64;
    if 0 <= px && px < width as i64 && 0 <= py && py < height as i64 {
        let dd = if depth_cur >= depth_prev {
            depth_cur - depth_prev
        } else {
            depth_prev - depth_cur
        };
        let valid = dd <= depth_tol && normal_cur == normal_prev;
        ReprojectedPixel {
            x: px as u32,
            y: py as u32,
            validity: if valid {
                FULL_VALIDITY
            } else {
                0
            },
        }
    } else {
        ReprojectedPixel { x, y, validity: 0 }
    }
}

/// Reprojection round trip: a pixel with zero camera and object motion
/// whose surface is unchanged since the previous frame reprojects exactly
/// to itself, with full validity confidence.
pub proof fn lemma_reprojection_identity(
    x: int,
    y: int,
    width: int,
    height: int,
    depth: int,
    depth_tol: int,
    normal: int,
)
    requires
        0 <= x < width,
        0 <= y < height,
        depth_tol >= 0,
    ensures
        spec_reproject(x, y, width, height, 0, 0, depth, depth, depth_tol, normal, normal)
            == (ReprojectedPixel { x: x as u32, y: y as u32, validity: FULL_VALIDITY }),
{
}

} // verus!
