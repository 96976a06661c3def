//! The star-shaped mask that serves as a stamp texture.

use crate::brush::ONE;
use crate::scalar::Single;
use vstd::prelude::*;

verus! {

/// 0.22, the half width of the upright and level arms.
pub const ARM_WIDTH: u32 = 0x3e61_47ae;

/// 0.12, the half width of the diagonal arms.
pub const DIAGONAL_WIDTH: u32 = 0x3df5_c28f;

/// Whether a pixel with the relative offsets `dx` and `dy` from the center, which differ
/// by `apart`, is inked.
pub open spec fn on_star(dx: Single, dy: Single, apart: Single) -> bool {
    ||| dx.below(Single { bits: ARM_WIDTH })
    ||| dy.below(Single { bits: ARM_WIDTH })
    ||| apart.below(Single { bits: DIAGONAL_WIDTH })
}

/// `alpha` is what the mask may hold at column `x` of `width` and row `y` of `height`,
/// for the offsets that `offset` and the differences that `difference` give.
pub open spec fn star_pixel<F: Fn(u32, u32) -> Single, G: Fn(Single, Single) -> Single>(
    x: u32,
    y: u32,
    width: u32,
    height: u32,
    offset: F,
    difference: G,
    alpha: Single,
) -> bool {
    exists|dx: Single, dy: Single, apart: Single|
        {
            &&& call_ensures(offset, (x, width), dx)
            &&& call_ensures(offset, (y, height), dy)
            &&& call_ensures(difference, (dx, dy), apart)
            &&& alpha == Single {
                bits: if #[trigger] on_star(dx, dy, apart) {
                    ONE
                } else {
                    0
                },
            }
        }
}

/// The mask, row by row. `offset(i, n)` is how far the middle of pixel `i` of `n` lies
/// from the center, as a share of half of `n`; `difference` is the distance between two
/// such shares.
pub fn stamp_texture_alpha<F: Fn(u32, u32) -> Single, G: Fn(Single, Single) -> Single>(
    width: u32,
    height: u32,
    offset: F,
    difference: G,
) -> (r: Vec<Single>)
    requires
        forall|i: u32, n: u32| call_requires(offset, (i, n)),
        forall|a: Single, b: Single| call_requires(difference, (a, b)),
    ensures
        r@.len() == width * height,
        forall|x: u32, y: u32|
            x < width && y < height ==> star_pixel(
                x,
                y,
                width,
                height,
                offset,
                difference,
                #[trigger] r@[y * width + x],
            ),
{
    let mut alpha: Vec<Single> = Vec::new();
    let mut y: u32 = 0;
    while y < height
        invariant
            y <= height,
            forall|i: u32, n: u32| call_requires(offset, (i, n)),
            forall|a: Single, b: Single| call_requires(difference, (a, b)),
            alpha@.len() == y * width,
            forall|i: u32, j: u32|
                i < width && j < y ==> star_pixel(
                    i,
                    j,
                    width,
                    height,
                    offset,
                    difference,
                    #[trigger] alpha@[j * width + i],
                ),
        decreases height - y,
    {
        let mut x: u32 = 0;
        while x < width
            invariant
                x <= width,
                y < height,
                forall|i: u32, n: u32| call_requires(offset, (i, n)),
                forall|a: Single, b: Single| call_requires(difference, (a, b)),
                alpha@.len() == y * width + x,
                forall|i: u32, j: u32|
                    i < width && (j < y || j == y && i < x) ==> star_pixel(
                        i,
                        j,
                        width,
                        height,
                        offset,
                        difference,
                        #[trigger] alpha@[j * width + i],
                    ),
            decreases width - x,
        {
            let dx = offset(x, width);
            let dy = offset(y, height);
            let apart = difference(dx, dy);
            let inked = dx.lt(Single { bits: ARM_WIDTH }) || dy.lt(Single { bits: ARM_WIDTH })
                || apart.lt(Single { bits: DIAGONAL_WIDTH });
            let value = Single {
                bits: if inked {
                    ONE
                } else {
                    0
                },
            };
            let ghost before = alpha@;
            alpha.push(value);
            assert(on_star(dx, dy, apart) == inked);
            assert forall|i: u32, j: u32|
                i < width && (j < y || j == y && i < x + 1) implies star_pixel(
                i,
                j,
                width,
                height,
                offset,
                difference,
                #[trigger] alpha@[j * width + i],
            ) by {
                if j < y {
                    assert(j * width + i < y * width) by (nonlinear_arith)
                        requires
                            j < y,
                            i < width,
                    ;
                    assert(alpha@[j * width + i] == before[j * width + i]);
                } else if i < x {
                    assert(alpha@[j * width + i] == before[j * width + i]);
                } else {
                    assert(j * width + i == before.len());
                }
            }
            x += 1;
        }
        assert((y + 1) * width == y * width + width) by (nonlinear_arith);
        y += 1;
    }
    assert(height * width == width * height) by (nonlinear_arith);
    alpha
}

} // verus!
