use vstd::prelude::*;

verus! {

/// The pixel that comes `k`-th in output order: rows run from the top of the
/// image (`y == height - 1`) down to `y == 0`, and each row from `x == 0` to
/// `x == width - 1`.
pub open spec fn pixel_at(width: int, height: int, k: int) -> (int, int) {
    (k % width, height - 1 - k / width)
}

/// The number of pixels of a `width` by `height` image; an empty range on
/// either axis gives none.
pub open spec fn pixel_count(width: int, height: int) -> int {
    if width > 0 && height > 0 {
        width * height
    } else {
        0
    }
}

/// Where pixel `(x, y)` comes in output order.
pub open spec fn pixel_index(width: int, height: int, x: int, y: int) -> int {
    (height - 1 - y) * width + x
}

/// The output order is a bijection between positions `0 .. width * height`
/// and the pixels of the image: each pixel `(x, y)` stands at exactly one
/// position, `pixel_index`, and each position holds a pixel of the image.
pub proof fn lemma_pixel_order_is_bijection(width: int, height: int)
    requires
        width > 0,
        height > 0,
    ensures
        forall|x: int, y: int|
            0 <= x < width && 0 <= y < height ==> {
                &&& 0 <= #[trigger] pixel_index(width, height, x, y) < pixel_count(width, height)
                &&& pixel_at(width, height, pixel_index(width, height, x, y)) == (x, y)
            },
        forall|k: int|
            0 <= k < pixel_count(width, height) ==> {
                &&& 0 <= (#[trigger] pixel_at(width, height, k)).0 < width
                &&& 0 <= pixel_at(width, height, k).1 < height
                &&& pixel_index(width, height, pixel_at(width, height, k).0, pixel_at(width, height, k).1) == k
            },
{
    assert forall|x: int, y: int| 0 <= x < width && 0 <= y < height implies {
        &&& 0 <= #[trigger] pixel_index(width, height, x, y) < pixel_count(width, height)
        &&& pixel_at(width, height, pixel_index(width, height, x, y)) == (x, y)
    } by {
        let row = height - 1 - y;
        let k = row * width + x;
        assert(0 <= row < height);
        assert(0 <= row * width) by (nonlinear_arith)
            requires
                0 <= row,
                0 < width,
        ;
        assert(row * width + x < width * height) by (nonlinear_arith)
            requires
                0 <= row < height,
                0 <= x < width,
        ;
        vstd::arithmetic::div_mod::lemma_fundamental_div_mod_converse(k, width, row, x);
    }
    assert forall|k: int| 0 <= k < pixel_count(width, height) implies {
        &&& 0 <= (#[trigger] pixel_at(width, height, k)).0 < width
        &&& 0 <= pixel_at(width, height, k).1 < height
        &&& pixel_index(width, height, pixel_at(width, height, k).0, pixel_at(width, height, k).1) == k
    } by {
        let q = k / width;
        let r = k % width;
        vstd::arithmetic::div_mod::lemma_fundamental_div_mod(k, width);
        vstd::arithmetic::div_mod::lemma_mod_bound(k, width);
        vstd::arithmetic::div_mod::lemma_div_pos_is_pos(k, width);
        assert(q < height) by (nonlinear_arith)
            requires
                k == width * q + r,
                0 <= r,
                k < width * height,
                0 < width,
        ;
        assert(k == q * width + r) by (nonlinear_arith)
            requires
                k == width * q + r,
        ;
    }
}

/// Every pixel of the image, once each, in output order: top row first, each
/// row left to right. The caller evaluates them independently and writes the
/// results in this order.
pub fn pixel_order(image_width: i32, image_height: i32) -> (pixels: Vec<(i32, i32)>)
    ensures
        pixels@.len() == pixel_count(image_width as int, image_height as int),
        forall|k: int|
            #![trigger pixels@[k]]
            0 <= k < pixels@.len() ==> (pixels@[k].0 as int, pixels@[k].1 as int) == pixel_at(
                image_width as int,
                image_height as int,
                k,
            ),
{
    let mut pixels: Vec<(i32, i32)> = Vec::new();
    if image_width <= 0 || image_height <= 0 {
        return pixels;
    }
    let ghost w = image_width as int;
    let ghost h = image_height as int;
    let mut j: i32 = image_height;
    while j > 0
        invariant
            w == image_width as int,
            h == image_height as int,
            w > 0,
            0 <= j <= h,
            pixels@.len() == (h - j) * w,
            forall|k: int|
                0 <= k < pixels@.len() ==> (pixels@[k].0 as int, pixels@[k].1 as int) == pixel_at(
                    w,
                    h,
                    k,
                ),
        decreases j,
    {
        j = j - 1;
        let mut i: i32 = 0;
        while i < image_width
            invariant
                w == image_width as int,
                h == image_height as int,
                w > 0,
                0 <= j < h,
                0 <= i <= w,
                pixels@.len() == (h - 1 - j) * w + i,
                forall|k: int|
                    0 <= k < pixels@.len() ==> (pixels@[k].0 as int, pixels@[k].1 as int)
                        == pixel_at(w, h, k),
            decreases w - i,
        {
            proof {
                let k = (h - 1 - j) * w + i;
                vstd::arithmetic::div_mod::lemma_fundamental_div_mod_converse(
                    k,
                    w,
                    h - 1 - j,
                    i as int,
                );
            }
            pixels.push((i, j));
            i = i + 1;
        }
        assert((h - 1 - j) * w + w == (h - j) * w) by (nonlinear_arith);
    }
    assert((h - 0) * w == w * h) by (nonlinear_arith);
    pixels
}

} // verus!
