use crate::array_sprite::{grid_set, or_row};
use vstd::prelude::*;

verus! {

// The shared raster buffer: 26 byte rows of 224 columns. Bit b of byte
// (row, x) is the dot at (x, row*8 + b); a set bit means "occupied".

pub open spec fn grid_wf(g: Seq<Seq<u8>>) -> bool {
    &&& g.len() == 26
    &&& forall|i: int| 0 <= i < 26 ==> (#[trigger] g[i]).len() == 224
}

pub open spec fn zero_grid() -> Seq<Seq<u8>> {
    Seq::new(26, |i: int| Seq::new(224, |j: int| 0u8))
}

/// The grid after a horizontal line of set dots is drawn across vertical
/// position y.
pub open spec fn horizon_line_spec(g: Seq<Seq<u8>>, y: int) -> Seq<Seq<u8>> {
    g.update(y / 8, or_row(g[y / 8], 0, Seq::new(224, |i: int| 1u8 << ((y % 8) as u8))))
}

pub struct DotMap {
    pub map: Vec<Vec<u8>>,
}

/// One zeroed byte row of the playfield width.
fn zero_row() -> (r: Vec<u8>)
    ensures
        r@ == Seq::new(224, |j: int| 0u8),
{
    let mut r: Vec<u8> = Vec::new();
    let mut j: usize = 0;
    while j < 224
        invariant
            j <= 224,
            r@ == Seq::new(j as nat, |k: int| 0u8),
        decreases 224 - j,
    {
        r.push(0);
        assert(r@ =~= Seq::new(j as nat + 1, |k: int| 0u8));
        j += 1;
    }
    r
}

/// n zeroed byte rows of the playfield width.
pub open spec fn zero_grid_rows(n: nat) -> Seq<Seq<u8>> {
    Seq::new(n, |i: int| Seq::new(224, |j: int| 0u8))
}

/// A fully zeroed grid of n byte rows.
pub(crate) fn zero_rows_n(n: usize) -> (g: Vec<Vec<u8>>)
    ensures
        g.deep_view() == zero_grid_rows(n as nat),
{
    let mut g: Vec<Vec<u8>> = Vec::new();
    let mut i: usize = 0;
    while i < n
        invariant
            i <= n,
            g@.len() == i,
            forall|k: int| 0 <= k < i ==> (#[trigger] g@[k])@ == Seq::new(224, |j: int| 0u8),
        decreases n - i,
    {
        g.push(zero_row());
        i += 1;
    }
    proof {
        crate::array_sprite::lemma_grid_views(g);
        assert(g.deep_view() =~~= zero_grid_rows(n as nat));
    }
    g
}

/// A fully zeroed playfield grid.
fn zero_rows() -> (g: Vec<Vec<u8>>)
    ensures
        g.deep_view() == zero_grid(),
{
    let g = zero_rows_n(26);
    assert(g.deep_view() =~~= zero_grid());
    g
}

impl DotMap {
    pub open spec fn wf(&self) -> bool {
        grid_wf(self.map.deep_view())
    }

    /// The mathematical contents of the buffer.
    pub open spec fn grid(&self) -> Seq<Seq<u8>> {
        self.map.deep_view()
    }

    /// A fresh, fully cleared buffer.
    pub fn new() -> (m: DotMap)
        ensures
            m.wf(),
            m.grid() == zero_grid(),
    {
        let m = DotMap { map: zero_rows() };
        m
    }

    /// Clear every dot.
    pub fn all_clear(&mut self)
        ensures
            final(self).wf(),
            final(self).grid() == zero_grid(),
    {
        self.map = zero_rows();
    }

    /// Set every dot of the horizontal line at vertical position y.
    pub fn draw_holizon_line(&mut self, y: i32)
        requires
            old(self).wf(),
            0 <= y < 208,
        ensures
            final(self).wf(),
            final(self).grid() == horizon_line_spec(old(self).grid(), y as int),
    {
        let yu = y as usize;
        let cy = yu / 8;
        let mask_val: u8 = 1u8 << ((yu % 8) as u8);
        let ghost g0 = self.map.deep_view();
        let ghost mrow = Seq::new(224, |i: int| 1u8 << ((y as int % 8) as u8));
        let mut i: usize = 0;
        assert(self.map.deep_view() =~~= g0.update(cy as int, or_row(g0[cy as int], 0, mrow.take(0))));
        while i < 224
            invariant
                i <= 224,
                cy == y as int / 8,
                0 <= y < 208,
                mask_val == 1u8 << ((y as int % 8) as u8),
                mrow == Seq::new(224, |k: int| 1u8 << ((y as int % 8) as u8)),
                grid_wf(g0),
                self.map.deep_view() == g0.update(
                    cy as int,
                    or_row(g0[cy as int], 0, mrow.take(i as int)),
                ),
            decreases 224 - i,
        {
            let b = crate::array_sprite::grid_get(&self.map, cy, i);
            grid_set(&mut self.map, cy, i, b | mask_val);
            proof {
                assert(self.map.deep_view() =~~= g0.update(
                    cy as int,
                    or_row(g0[cy as int], 0, mrow.take(i as int + 1)),
                ));
            }
            i += 1;
        }
        assert(mrow.take(224) =~= mrow);
        assert(self.map.deep_view() =~~= horizon_line_spec(g0, y as int));
    }
}

/// The colour bands available to the presentation layer.
#[derive(Clone, Copy, PartialEq, Eq, Structural, Debug)]
pub enum Color {
    Red,
    Purple,
    BLUE,
    Green,
    Turquoise,
    Yellow,
    White,
}

pub open spec fn set_color_spec(color: Color) -> Seq<u8> {
    match color {
        Color::Red => seq![210u8, 0u8, 0u8, 255u8],
        Color::Purple => seq![220u8, 20u8, 230u8, 255u8],
        Color::BLUE => seq![83u8, 83u8, 241u8, 255u8],
        Color::Green => seq![98u8, 222u8, 109u8, 255u8],
        Color::Turquoise => seq![68u8, 200u8, 210u8, 255u8],
        Color::Yellow => seq![220u8, 210u8, 30u8, 255u8],
        Color::White => seq![255u8, 255u8, 255u8, 255u8],
    }
}

/// The RGBA value of a colour band.
pub fn set_color(color: Color) -> (r: [u8; 4])
    ensures
        r@ == set_color_spec(color),
{
    let r = match color {
        Color::Red => [210, 0, 0, 255],
        Color::Purple => [220, 20, 230, 255],
        Color::BLUE => [83, 83, 241, 255],
        Color::Green => [98, 222, 109, 255],
        Color::Turquoise => [68, 200, 210, 255],
        Color::Yellow => [220, 210, 30, 255],
        Color::White => [255, 255, 255, 255],
    };
    assert(r@ =~= set_color_spec(color));
    r
}

/// The colour band a byte row of the playfield is tinted with.
pub open spec fn pos2rgba_spec(char_y: int) -> Seq<u8> {
    if char_y == 0 || (20 <= char_y <= 22) || char_y == 25 {
        set_color_spec(Color::Red)
    } else if char_y == 1 || (12 <= char_y <= 15) {
        set_color_spec(Color::Purple)
    } else if char_y == 2 || char_y == 3 {
        set_color_spec(Color::BLUE)
    } else if 4 <= char_y <= 7 {
        set_color_spec(Color::Green)
    } else if (8 <= char_y <= 11) || char_y == 23 || char_y == 24 {
        set_color_spec(Color::Turquoise)
    } else {
        set_color_spec(Color::Yellow)
    }
}

/// The RGBA tint of playfield byte row char_y.
fn pos2rgba(char_y: usize) -> (r: [u8; 4])
    requires
        char_y < 26,
    ensures
        r@ == pos2rgba_spec(char_y as int),
{
    let color = if char_y == 0 || (20 <= char_y && char_y <= 22) || char_y == 25 {
        Color::Red
    } else if char_y == 1 || (12 <= char_y && char_y <= 15) {
        Color::Purple
    } else if char_y == 2 || char_y == 3 {
        Color::BLUE
    } else if 4 <= char_y && char_y <= 7 {
        Color::Green
    } else if (8 <= char_y && char_y <= 11) || char_y == 23 || char_y == 24 {
        Color::Turquoise
    } else {
        Color::Yellow
    };
    set_color(color)
}


/// The RGBA of the playfield dot at (x, py): black where the dot is clear,
/// red everywhere while the player explodes, else the row band's tint.
pub open spec fn map_pixel_rgba(g: Seq<Seq<u8>>, player_exploding: bool, py: int, x: int) -> Seq<
    u8,
> {
    if g[py / 8][x] & (1u8 << ((py % 8) as u8)) == 0 {
        seq![0u8, 0u8, 0u8, 255u8]
    } else if player_exploding {
        set_color_spec(Color::Red)
    } else {
        pos2rgba_spec(py / 8)
    }
}

impl DotMap {
    /// Flatten the buffer to RGBA bytes, four per dot, row-major, for the
    /// presentation layer to upload.
    pub fn convert_to_color_bytes(&self, player_exploding: bool) -> (r: Vec<u8>)
        requires
            self.wf(),
        ensures
            r@.len() == 208 * 224 * 4,
            forall|py: int, x: int, c: int|
                0 <= py < 208 && 0 <= x < 224 && 0 <= c < 4 ==> #[trigger] r@[
                    crate::dot_data::px_index(224, py, x, c)
                ] == map_pixel_rgba(self.grid(), player_exploding, py, x)[c],
    {
        let mut color_bytes: Vec<u8> = Vec::new();
        let mut py: usize = 0;
        while py < 208
            invariant
                py <= 208,
                self.wf(),
                color_bytes@.len() == py * 224 * 4,
                forall|qy: int, x: int, c: int|
                    0 <= qy < py && 0 <= x < 224 && 0 <= c < 4 ==> #[trigger] color_bytes@[
                        crate::dot_data::px_index(224, qy, x, c)
                    ] == map_pixel_rgba(self.grid(), player_exploding, qy, x)[c],
            decreases 208 - py,
        {
            let mut x: usize = 0;
            while x < 224
                invariant
                    x <= 224,
                    py < 208,
                    self.wf(),
                    color_bytes@.len() == (py * 224 + x) * 4,
                    forall|qy: int, qx: int, c: int|
                        0 <= qy < py && 0 <= qx < 224 && 0 <= c < 4 ==> #[trigger] color_bytes@[
                            crate::dot_data::px_index(224, qy, qx, c)
                        ] == map_pixel_rgba(self.grid(), player_exploding, qy, qx)[c],
                    forall|qx: int, c: int|
                        0 <= qx < x && 0 <= c < 4 ==> #[trigger] color_bytes@[
                            crate::dot_data::px_index(224, py as int, qx, c)
                        ] == map_pixel_rgba(self.grid(), player_exploding, py as int, qx)[c],
                decreases 224 - x,
            {
                let ghost pre = color_bytes@;
                let b = crate::array_sprite::grid_get(&self.map, py / 8, x);
                let mask: u8 = 1u8 << ((py % 8) as u8);
                if b & mask == 0 {
                    color_bytes.push(0);
                    color_bytes.push(0);
                    color_bytes.push(0);
                    color_bytes.push(255);
                } else if player_exploding {
                    let rgba = set_color(Color::Red);
                    color_bytes.push(rgba[0]);
                    color_bytes.push(rgba[1]);
                    color_bytes.push(rgba[2]);
                    color_bytes.push(rgba[3]);
                } else {
                    let rgba = pos2rgba(py / 8);
                    color_bytes.push(rgba[0]);
                    color_bytes.push(rgba[1]);
                    color_bytes.push(rgba[2]);
                    color_bytes.push(rgba[3]);
                }
                proof {
                    assert forall|c: int| 0 <= c < 4 implies #[trigger] color_bytes@[
                        crate::dot_data::px_index(224, py as int, x as int, c)
                    ] == map_pixel_rgba(
                        self.grid(),
                        player_exploding,
                        py as int,
                        x as int,
                    )[c] by {
                        assert(crate::dot_data::px_index(224, py as int, x as int, c) == pre.len()
                            + c);
                    }
                }
                x += 1;
            }
            py += 1;
        }
        color_bytes
    }
}


/// The RGBA of one dot of a side strip: black where clear, red while the
/// player explodes, else the strip's own tint.
pub open spec fn strip_pixel_rgba(
    g: Seq<Seq<u8>>,
    player_exploding: bool,
    fg: Color,
    py: int,
    x: int,
) -> Seq<u8> {
    if g[py / 8][x] & (1u8 << ((py % 8) as u8)) == 0 {
        seq![0u8, 0u8, 0u8, 255u8]
    } else if player_exploding {
        set_color_spec(Color::Red)
    } else {
        set_color_spec(fg)
    }
}

/// Flatten a side strip (the score or life rows) to RGBA bytes, four per
/// dot, row-major.
pub fn strip_to_color_bytes(
    rows: &Vec<Vec<u8>>,
    nrows: usize,
    player_exploding: bool,
    fg: Color,
) -> (r: Vec<u8>)
    requires
        rows.deep_view().len() == nrows,
        1 <= nrows <= 4,
        forall|i: int| 0 <= i < nrows ==> (#[trigger] rows.deep_view()[i]).len() == 224,
    ensures
        r@.len() == nrows * 8 * 224 * 4,
        forall|py: int, x: int, c: int|
            0 <= py < nrows * 8 && 0 <= x < 224 && 0 <= c < 4 ==> #[trigger] r@[
                crate::dot_data::px_index(224, py, x, c)
            ] == strip_pixel_rgba(rows.deep_view(), player_exploding, fg, py, x)[c],
{
    let h = nrows * 8;
    let mut out: Vec<u8> = Vec::new();
    let mut py: usize = 0;
    while py < h
        invariant
            py <= h,
            h == nrows * 8,
            1 <= nrows <= 4,
            rows.deep_view().len() == nrows,
            forall|i: int| 0 <= i < nrows ==> (#[trigger] rows.deep_view()[i]).len() == 224,
            out@.len() == py * 224 * 4,
            forall|qy: int, x: int, c: int|
                0 <= qy < py && 0 <= x < 224 && 0 <= c < 4 ==> #[trigger] out@[
                    crate::dot_data::px_index(224, qy, x, c)
                ] == strip_pixel_rgba(rows.deep_view(), player_exploding, fg, qy, x)[c],
        decreases h - py,
    {
        let mut x: usize = 0;
        while x < 224
            invariant
                x <= 224,
                py < h,
                h == nrows * 8,
                1 <= nrows <= 4,
                rows.deep_view().len() == nrows,
                forall|i: int| 0 <= i < nrows ==> (#[trigger] rows.deep_view()[i]).len() == 224,
                out@.len() == (py * 224 + x) * 4,
                forall|qy: int, qx: int, c: int|
                    0 <= qy < py && 0 <= qx < 224 && 0 <= c < 4 ==> #[trigger] out@[
                        crate::dot_data::px_index(224, qy, qx, c)
                    ] == strip_pixel_rgba(rows.deep_view(), player_exploding, fg, qy, qx)[c],
                forall|qx: int, c: int|
                    0 <= qx < x && 0 <= c < 4 ==> #[trigger] out@[
                        crate::dot_data::px_index(224, py as int, qx, c)
                    ] == strip_pixel_rgba(rows.deep_view(), player_exploding, fg, py as int, qx)[c],
            decreases 224 - x,
        {
            let ghost pre = out@;
            let b = crate::array_sprite::grid_get(rows, py / 8, x);
            let mask: u8 = 1u8 << ((py % 8) as u8);
            if b & mask == 0 {
                out.push(0);
                out.push(0);
                out.push(0);
                out.push(255);
            } else if player_exploding {
                let rgba = set_color(Color::Red);
                out.push(rgba[0]);
                out.push(rgba[1]);
                out.push(rgba[2]);
                out.push(rgba[3]);
            } else {
                let rgba = set_color(fg);
                out.push(rgba[0]);
                out.push(rgba[1]);
                out.push(rgba[2]);
                out.push(rgba[3]);
            }
            proof {
                assert forall|c: int| 0 <= c < 4 implies #[trigger] out@[
                    crate::dot_data::px_index(224, py as int, x as int, c)
                ] == strip_pixel_rgba(
                    rows.deep_view(),
                    player_exploding,
                    fg,
                    py as int,
                    x as int,
                )[c] by {
                    assert(crate::dot_data::px_index(224, py as int, x as int, c) == pre.len()
                        + c);
                }
            }
            x += 1;
        }
        py += 1;
    }
    out
}

} // verus!
