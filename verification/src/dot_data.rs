use crate::sprite::{convert_dot_map, str_eq};
use vstd::prelude::*;

verus! {

// A second, smaller artwork set kept in the colour-texture form: each dot
// becomes four RGBA bytes, transparent background and a dimmed white
// foreground.

/// A sprite described dot by dot: row y, column x is drawn iff
/// dot_map[y][x].
pub struct DotShape {
    pub width: u16,
    pub height: u16,
    pub dot_map: Vec<Vec<bool>>,
}

/// The declared dimensions match the dot data.
pub open spec fn color_shape_wf(s: DotShape) -> bool {
    &&& s.height as int == s.dot_map@.len()
    &&& 1 <= s.width
    &&& forall|y: int|
        0 <= y < s.dot_map@.len() ==> (#[trigger] s.dot_map@[y])@.len() == s.width as int
}

/// RGBA of a drawn dot: dimmed white.
pub open spec fn fg_rgba() -> Seq<u8> {
    seq![200u8, 200u8, 200u8, 255u8]
}

/// RGBA of a transparent dot.
pub open spec fn bg_rgba() -> Seq<u8> {
    seq![0u8, 0u8, 0u8, 0u8]
}

/// Flat byte index of channel c of the dot at (x, y) in a w-wide image.
pub open spec fn px_index(w: int, y: int, x: int, c: int) -> int {
    (y * w + x) * 4 + c
}

/// Runtime validation that a shape's declared dimensions match its data.
pub fn check_color_shape(s: &DotShape) -> (r: bool)
    ensures
        r == color_shape_wf(*s),
{
    if !(s.height as usize == s.dot_map.len() && 1 <= s.width) {
        return false;
    }
    let mut y: usize = 0;
    while y < s.dot_map.len()
        invariant
            y <= s.dot_map@.len(),
            s.height as int == s.dot_map@.len(),
            1 <= s.width,
            forall|k: int|
                0 <= k < y ==> (#[trigger] s.dot_map@[k])@.len() == s.width as int,
        decreases s.dot_map@.len() - y,
    {
        if s.dot_map[y].len() != s.width as usize {
            return false;
        }
        y += 1;
    }
    true
}

impl DotShape {
    /// Flatten the dot map to RGBA bytes, four per dot, row-major.
    pub fn create_color_dot_map(&self) -> (r: Vec<u8>)
        requires
            color_shape_wf(*self),
        ensures
            r@.len() == self.height as int * self.width as int * 4,
            forall|y: int, x: int, c: int|
                0 <= y < self.height && 0 <= x < self.width && 0 <= c < 4 ==> #[trigger] r@[
                    px_index(self.width as int, y, x, c)
                ] == (if self.dot_map@[y]@[x] {
                    fg_rgba()[c]
                } else {
                    bg_rgba()[c]
                }),
    {
        let w = self.width as usize;
        let h = self.height as usize;
        let mut bytes: Vec<u8> = Vec::new();
        let mut y: usize = 0;
        while y < h
            invariant
                y <= h,
                w == self.width as int,
                h == self.height as int,
                color_shape_wf(*self),
                bytes@.len() == y * w * 4,
                forall|py: int, px: int, c: int|
                    0 <= py < y && 0 <= px < w && 0 <= c < 4 ==> #[trigger] bytes@[
                        px_index(w as int, py, px, c)
                    ] == (if self.dot_map@[py]@[px] {
                        fg_rgba()[c]
                    } else {
                        bg_rgba()[c]
                    }),
            decreases h - y,
        {
            let mut x: usize = 0;
            proof {
                assert((y * w) * 4 == y * w * 4) by (nonlinear_arith);
            }
            while x < w
                invariant
                    x <= w,
                    y < h,
                    w == self.width as int,
                    h == self.height as int,
                    color_shape_wf(*self),
                    bytes@.len() == (y * w + x) * 4,
                    forall|py: int, px: int, c: int|
                        0 <= py < y && 0 <= px < w && 0 <= c < 4 ==> #[trigger] bytes@[
                            px_index(w as int, py, px, c)
                        ] == (if self.dot_map@[py]@[px] {
                            fg_rgba()[c]
                        } else {
                            bg_rgba()[c]
                        }),
                    forall|px: int, c: int|
                        0 <= px < x && 0 <= c < 4 ==> #[trigger] bytes@[
                            px_index(w as int, y as int, px, c)
                        ] == (if self.dot_map@[y as int]@[px] {
                            fg_rgba()[c]
                        } else {
                            bg_rgba()[c]
                        }),
                decreases w - x,
            {
                let ghost pre = bytes@;
                proof {
                    assert(bytes@.len() + 4 == (y * w + x + 1) * 4) by (nonlinear_arith)
                        requires
                            bytes@.len() == (y * w + x) * 4,
                    ;
                }
                if self.dot_map[y][x] {
                    bytes.push(200);
                    bytes.push(200);
                    bytes.push(200);
                    bytes.push(255);
                } else {
                    bytes.push(0);
                    bytes.push(0);
                    bytes.push(0);
                    bytes.push(0);
                }
                proof {
                    assert(bytes@.len() == (y * w + x + 1) * 4);
                    assert forall|py: int, px: int, c: int|
                        0 <= py < y && 0 <= px < w && 0 <= c < 4 implies #[trigger] bytes@[
                        px_index(w as int, py, px, c)
                    ] == (if self.dot_map@[py]@[px] {
                        fg_rgba()[c]
                    } else {
                        bg_rgba()[c]
                    }) by {
                        lemma_px_order(w as int, py, px, y as int, x as int);
                        assert(px_index(w as int, py, px, c) < pre.len());
                        assert(bytes@[px_index(w as int, py, px, c)] == pre[px_index(
                            w as int,
                            py,
                            px,
                            c,
                        )]);
                    }
                    assert forall|px: int, c: int|
                        0 <= px < x && 0 <= c < 4 implies #[trigger] bytes@[
                        px_index(w as int, y as int, px, c)
                    ] == (if self.dot_map@[y as int]@[px] {
                        fg_rgba()[c]
                    } else {
                        bg_rgba()[c]
                    }) by {
                        lemma_px_order(w as int, y as int, px, y as int, x as int);
                        assert(px_index(w as int, y as int, px, c) < pre.len());
                        assert(bytes@[px_index(w as int, y as int, px, c)] == pre[px_index(
                            w as int,
                            y as int,
                            px,
                            c,
                        )]);
                    }
                    assert forall|c: int| 0 <= c < 4 implies #[trigger] bytes@[
                        px_index(w as int, y as int, x as int, c)
                    ] == (if self.dot_map@[y as int]@[x as int] {
                        fg_rgba()[c]
                    } else {
                        bg_rgba()[c]
                    }) by {
                        assert(px_index(w as int, y as int, x as int, c) == pre.len() + c);
                    }
                }
                x += 1;
            }
            proof {
                assert((y * w + w) * 4 == (y + 1) * w * 4) by (nonlinear_arith);
            }
            y += 1;
        }
        proof {
            assert(h * w * 4 == h as int * w as int * 4) by (nonlinear_arith);
        }
        bytes
    }
}

/// Pixels are laid out row-major: an earlier pixel has a smaller index.
proof fn lemma_px_order(w: int, y1: int, x1: int, y2: int, x2: int)
    by (nonlinear_arith)
    requires
        0 <= x1 < w,
        0 <= x2,
        0 <= y1,
        y1 < y2 || (y1 == y2 && x1 < x2),
    ensures
        y1 * w + x1 < y2 * w + x2,
{
}

/// The artwork of this set, by name.
pub fn dot_data(name: &str) -> (r: DotShape)
    requires
        known_color_name(name@),
    ensures
        1 <= r.width,
        r.dot_map@.len() == r.height as int,
{

    if str_eq(name, "player") {
        let mut rows: Vec<&str> = Vec::new();
        rows.push("_ _ _ _ _ _ # _ _ _ _ _ _");
        rows.push("_ _ _ _ _ # # # _ _ _ _ _");
        rows.push("_ _ _ _ _ # # # _ _ _ _ _");
        rows.push("_ # # # # # # # # # # # _");
        rows.push("# # # # # # # # # # # # #");
        rows.push("# # # # # # # # # # # # #");
        rows.push("# # # # # # # # # # # # #");
        rows.push("# # # # # # # # # # # # #");
        DotShape { width: 13, height: 8, dot_map: convert_dot_map(rows) }
    } else if str_eq(name, "bullet_player") {
        let mut rows: Vec<&str> = Vec::new();
        rows.push("#");
        rows.push("#");
        rows.push("#");
        rows.push("#");
        rows.push("#");
        rows.push("#");
        DotShape { width: 1, height: 6, dot_map: convert_dot_map(rows) }
    } else if str_eq(name, "crab_down") {
        let mut rows: Vec<&str> = Vec::new();
        rows.push("_ _ # _ _ _ _ _ # _ _");
        rows.push("_ _ _ # _ _ _ # _ _ _");
        rows.push("_ _ # # # # # # # _ _");
        rows.push("_ # # _ # # # _ # # _");
        rows.push("# # # # # # # # # # #");
        rows.push("# _ # # # # # # # _ #");
        rows.push("# _ # _ _ _ _ _ # _ #");
        rows.push("_ _ _ # # _ # # _ _ _");
        DotShape { width: 11, height: 8, dot_map: convert_dot_map(rows) }
    } else if str_eq(name, "crab_banzai") {
        let mut rows: Vec<&str> = Vec::new();
        rows.push("_ _ # _ _ _ _ _ # _ _");
        rows.push("# _ _ # _ _ _ # _ _ #");
        rows.push("# _ # # # # # # # _ #");
        rows.push("# # # _ # # # _ # # #");
        rows.push("# # # # # # # # # # #");
        rows.push("_ # # # # # # # # # _");
        rows.push("_ _ # _ _ _ _ _ # _ _");
        rows.push("_ # _ _ _ _ _ _ _ # _");
        DotShape { width: 11, height: 8, dot_map: convert_dot_map(rows) }
    } else if str_eq(name, "octopus_open") {
        let mut rows: Vec<&str> = Vec::new();
        rows.push("_ _ _ _ # # # # _ _ _ _");
        rows.push("_ # # # # # # # # # # _");
        rows.push("# # # # # # # # # # # #");
        rows.push("# # # _ _ # # _ _ # # #");
        rows.push("# # # # # # # # # # # #");
        rows.push("_ _ _ # # _ _ # # _ _ _");
        rows.push("_ _ # # _ # # _ # # _ _");
        rows.push("# # _ _ _ _ _ _ _ _ # #");
        DotShape { width: 12, height: 8, dot_map: convert_dot_map(rows) }
    } else if str_eq(name, "octopus_close") {
        let mut rows: Vec<&str> = Vec::new();
        rows.push("_ _ _ _ # # # # _ _ _ _");
        rows.push("_ # # # # # # # # # # _");
        rows.push("# # # # # # # # # # # #");
        rows.push("# # # _ _ # # _ _ # # #");
        rows.push("# # # # # # # # # # # #");
        rows.push("_ _ # # # _ _ # # # _ _");
        rows.push("_ # # _ _ # # _ _ # # _");
        rows.push("_ _ # # _ _ _ _ # # _ _");
        DotShape { width: 12, height: 8, dot_map: convert_dot_map(rows) }
    } else if str_eq(name, "squid_open") {
        let mut rows: Vec<&str> = Vec::new();
        rows.push("_ _ _ # # _ _ _");
        rows.push("_ _ # # # # _ _");
        rows.push("_ # # # # # # _");
        rows.push("# # _ # # _ # #");
        rows.push("# # # # # # # #");
        rows.push("_ _ # _ _ # _ _");
        rows.push("_ # _ # # _ # _");
        rows.push("# _ # _ _ # _ #");
        DotShape { width: 8, height: 8, dot_map: convert_dot_map(rows) }
    } else if str_eq(name, "squid_close") {
        let mut rows: Vec<&str> = Vec::new();
        rows.push("_ _ _ # # _ _ _");
        rows.push("_ _ # # # # _ _");
        rows.push("_ # # # # # # _");
        rows.push("# # _ # # _ # #");
        rows.push("# # # # # # # #");
        rows.push("_ # _ # # _ # _");
        rows.push("# _ _ _ _ _ _ #");
        rows.push("_ # _ _ _ _ # _");
        DotShape { width: 8, height: 8, dot_map: convert_dot_map(rows) }
    } else {
        proof {
            assert(false);
        }
        vstd::pervasive::unreached()
    }
}

/// The sprite names this set ships artwork for.
pub open spec fn known_color_name(s: Seq<char>) -> bool {

    ||| s == "player"@
    ||| s == "bullet_player"@
    ||| s == "crab_down"@
    ||| s == "crab_banzai"@
    ||| s == "octopus_open"@
    ||| s == "octopus_close"@
    ||| s == "squid_open"@
    ||| s == "squid_close"@
}

} // verus!
