use vstd::prelude::*;
use vstd::arithmetic::div_mod::lemma_fundamental_div_mod_converse;

verus! {

/// Width and height of the window and tray icon, in pixels.
pub const ICON_SIZE: u32 = 32;

/// The colour (R, G, B, A) of pixel (`x`, `y`) of the icon: a keyboard, that is
/// a light frame round a blue body holding a grid of pale keys of 3 by 2
/// pixels, on a transparent ground.
pub open spec fn icon_pixel(x: int, y: int) -> (u8, u8, u8, u8) {
    if 3 <= x < 29 && 9 <= y < 23 {
        if x == 3 || x == 28 || y == 9 || y == 22 {
            (200, 220, 255, 255)
        } else if (x - 4) % 5 <= 2 && (y - 10) % 4 <= 1 {
            (175, 200, 240, 255)
        } else {
            (55, 85, 155, 230)
        }
    } else {
        (0, 0, 0, 0)
    }
}

/// Byte `i` of the icon's pixels, row by row, four bytes (R, G, B, A) a pixel.
pub open spec fn icon_byte(i: int) -> u8 {
    let p = i / 4;
    let px = icon_pixel(p % 32, p / 32);
    let c = i % 4;
    if c == 0 {
        px.0
    } else if c == 1 {
        px.1
    } else if c == 2 {
        px.2
    } else {
        px.3
    }
}

proof fn lemma_pixel_index(x: int, y: int, c: int)
    requires
        0 <= x < 32,
        0 <= y < 32,
        0 <= c < 4,
    ensures
        ((y * 32 + x) * 4 + c) / 4 == y * 32 + x,
        ((y * 32 + x) * 4 + c) % 4 == c,
        (y * 32 + x) % 32 == x,
        (y * 32 + x) / 32 == y,
{
    lemma_fundamental_div_mod_converse((y * 32 + x) * 4 + c, 4, y * 32 + x, c);
    lemma_fundamental_div_mod_converse(y * 32 + x, 32, y, x);
}

fn set_pixel(rgba: &mut Vec<u8>, idx: usize, r: u8, g: u8, b: u8, a: u8)
    requires
        idx + 4 <= old(rgba)@.len(),
        old(rgba)@.len() == 4096,
    ensures
        final(rgba)@.len() == old(rgba)@.len(),
        final(rgba)@[idx as int] == r,
        final(rgba)@[idx + 1] == g,
        final(rgba)@[idx + 2] == b,
        final(rgba)@[idx + 3] == a,
        forall|i: int|
            0 <= i < old(rgba)@.len() && !(idx <= i < idx + 4) ==> #[trigger] final(rgba)@[i]
                == old(rgba)@[i],
{
    rgba.set(idx, r);
    rgba.set(idx + 1, g);
    rgba.set(idx + 2, b);
    rgba.set(idx + 3, a);
}

/// The program's icon: its RGBA bytes, its width and its height.
pub fn make_icon_rgba() -> (r: (Vec<u8>, u32, u32))
    ensures
        r.1 == 32,
        r.2 == 32,
        r.0@.len() == 32 * 32 * 4,
        forall|i: int| 0 <= i < 32 * 32 * 4 ==> #[trigger] r.0@[i] == icon_byte(i),
{
    let w: u32 = ICON_SIZE;
    let h: u32 = ICON_SIZE;
    let mut rgba: Vec<u8> = vec![0u8; 4096];
    let mut y: u32 = 0;
    while y < h
        invariant
            w == 32,
            h == 32,
            y <= 32,
            rgba@.len() == 4096,
            forall|i: int| 0 <= i < y * 128 ==> #[trigger] rgba@[i] == icon_byte(i),
            forall|i: int| y * 128 <= i < 4096 ==> #[trigger] rgba@[i] == 0,
        decreases h - y,
    {
        let mut x: u32 = 0;
        while x < w
            invariant
                w == 32,
                h == 32,
                y < 32,
                x <= 32,
                rgba@.len() == 4096,
                forall|i: int| 0 <= i < (y * 32 + x) * 4 ==> #[trigger] rgba@[i] == icon_byte(i),
                forall|i: int| (y * 32 + x) * 4 <= i < 4096 ==> #[trigger] rgba@[i] == 0,
            decreases w - x,
        {
            let idx = ((y * w + x) * 4) as usize;
            let ghost before = rgba@;
            if x >= 3 && x < 29 && y >= 9 && y < 23 {
                let is_border = x == 3 || x == 28 || y == 9 || y == 22;
                if is_border {
                    set_pixel(&mut rgba, idx, 200, 220, 255, 255);
                } else {
                    let lx = (x - 4) % 5;
                    let ly = (y - 10) % 4;
                    if lx <= 2 && ly <= 1 {
                        set_pixel(&mut rgba, idx, 175, 200, 240, 255);
                    } else {
                        set_pixel(&mut rgba, idx, 55, 85, 155, 230);
                    }
                }
            }
            proof {
                assert forall|i: int| 0 <= i < (y * 32 + x + 1) * 4 implies #[trigger] rgba@[i]
                    == icon_byte(i) by {
                    if i >= (y * 32 + x) * 4 {
                        let c = i - (y * 32 + x) * 4;
                        lemma_pixel_index(x as int, y as int, c);
                    }
                }
            }
            x += 1;
        }
        y += 1;
    }
    (rgba, w, h)
}

} // verus!
