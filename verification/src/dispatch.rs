//! How many workgroups a dispatch needs to cover the image.

use vstd::prelude::*;

verus! {

/// Pixels that one workgroup covers along x.
pub const WORKGROUP_WIDTH: usize = 16;

/// Pixels that one workgroup covers along y.
pub const WORKGROUP_HEIGHT: usize = 16;

/// The number of workgroups along each axis.
#[derive(Clone, Copy, Debug, PartialEq, Eq, Structural)]
pub struct DispatchSize {
    pub x: usize,
    pub y: usize,
    pub z: usize,
}

/// The least number of tiles of `tile` pixels that cover `extent` pixels:
/// `extent / tile`, rounded up.
pub open spec fn groups_to_cover(extent: int, tile: int) -> int {
    (extent + tile - 1) / tile
}

/// The dispatch that covers an image of `width` by `height` pixels.
pub open spec fn dispatch_size(width: usize, height: usize) -> DispatchSize {
    DispatchSize {
        x: groups_to_cover(width as int, WORKGROUP_WIDTH as int) as usize,
        y: groups_to_cover(height as int, WORKGROUP_HEIGHT as int) as usize,
        z: 1,
    }
}

/// Rounding up a division: the quotient, and one more where a remainder is
/// left.
proof fn lemma_round_up(extent: int, tile: int)
    requires
        0 <= extent,
        0 < tile,
    ensures
        groups_to_cover(extent, tile) == extent / tile + (if extent % tile == 0 {
            0int
        } else {
            1int
        }),
{
    let q = extent / tile;
    let r = extent % tile;
    vstd::arithmetic::div_mod::lemma_fundamental_div_mod(extent, tile);
    vstd::arithmetic::div_mod::lemma_mod_bound(extent, tile);
    if r == 0 {
        vstd::arithmetic::div_mod::lemma_fundamental_div_mod_converse(
            extent + tile - 1,
            tile,
            q,
            tile - 1,
        );
    } else {
        assert(tile * (q + 1) == tile * q + tile) by (nonlinear_arith);
        vstd::arithmetic::div_mod::lemma_fundamental_div_mod_converse(
            extent + tile - 1,
            tile,
            q + 1,
            r - 1,
        );
    }
}

fn groups_for(extent: usize, tile: usize) -> (groups: usize)
    requires
        0 < tile,
    ensures
        groups == groups_to_cover(extent as int, tile as int),
{
    proof {
        lemma_round_up(extent as int, tile as int);
        lemma_groups_cover(extent as int, tile as int);
    }
    let whole = extent / tile;
    if extent % tile == 0 {
        whole
    } else {
        whole + 1
    }
}

/// The number of workgroups to dispatch for an image of `width` by `height`
/// pixels, one layer deep.
pub fn dispatch_for(width: usize, height: usize) -> (size: DispatchSize)
    ensures
        size == dispatch_size(width, height),
        size.x == groups_to_cover(width as int, WORKGROUP_WIDTH as int),
        size.y == groups_to_cover(height as int, WORKGROUP_HEIGHT as int),
        size.z == 1,
{
    DispatchSize {
        x: groups_for(width, WORKGROUP_WIDTH),
        y: groups_for(height, WORKGROUP_HEIGHT),
        z: 1,
    }
}

/// The workgroups of a dispatch cover every pixel along an axis, and one
/// workgroup fewer would not.
pub proof fn lemma_groups_cover(extent: int, tile: int)
    requires
        0 <= extent,
        0 < tile,
    ensures
        groups_to_cover(extent, tile) * tile >= extent,
        (groups_to_cover(extent, tile) - 1) * tile < extent,
        0 <= groups_to_cover(extent, tile) <= extent,
{
    let g = groups_to_cover(extent, tile);
    vstd::arithmetic::div_mod::lemma_fundamental_div_mod(extent + tile - 1, tile);
    vstd::arithmetic::div_mod::lemma_mod_bound(extent + tile - 1, tile);
    assert(tile * g == g * tile) by (nonlinear_arith);
    assert((g - 1) * tile == g * tile - tile) by (nonlinear_arith);
    assert(0 <= g) by (nonlinear_arith)
        requires
            g * tile >= extent,
            extent >= 0,
            tile > 0,
    ;
    assert(g <= extent) by (nonlinear_arith)
        requires
            (g - 1) * tile < extent,
            tile >= 1,
            extent >= 0,
            g >= 0,
    ;
}

} // verus!
