use crate::array_sprite::{array_sprite, draw_opaque_spec};
use crate::dot_map::{strip_pixel_rgba, strip_to_color_bytes, zero_grid_rows, zero_rows_n, Color};
use crate::geom::Pos;
use vstd::prelude::*;

verus! {

// The life display below the playfield: the remaining-life digit and one
// cannon icon per life in reserve.

pub struct BottomArea {
    pub bottom: Vec<Vec<u8>>,
    pub num_sprite: Vec<Vec<u8>>,
    pub player_sprite: Vec<u8>,
}

/// The strip after n cannon icons are drawn side by side from x0.
pub open spec fn icons_spec(g: Seq<Seq<u8>>, n: int, x0: int, s: Seq<u8>) -> Seq<Seq<u8>>
    decreases n,
{
    if n <= 0 {
        g
    } else {
        icons_spec(draw_opaque_spec(g, x0, 0, s), n - 1, x0 + s.len(), s)
    }
}

impl BottomArea {
    pub open spec fn wf(&self) -> bool {
        &&& self.bottom.deep_view().len() == 2
        &&& forall|i: int| 0 <= i < 2 ==> (#[trigger] self.bottom.deep_view()[i]).len() == 224
        &&& self.num_sprite@.len() == 10
        &&& forall|i: int| 0 <= i < 10 ==> (#[trigger] self.num_sprite@[i])@.len() == 8
        &&& 1 <= self.player_sprite@.len() <= 16
    }

    pub fn new(num_sprite: Vec<Vec<u8>>, player_sprite: Vec<u8>) -> (b: BottomArea)
        requires
            num_sprite@.len() == 10,
            forall|i: int| 0 <= i < 10 ==> (#[trigger] num_sprite@[i])@.len() == 8,
            1 <= player_sprite@.len() <= 16,
        ensures
            b.wf(),
            b.bottom.deep_view() == zero_grid_rows(2),
            b.num_sprite == num_sprite,
            b.player_sprite == player_sprite,
    {
        BottomArea { bottom: zero_rows_n(2), num_sprite, player_sprite }
    }

    /// Clear the strip.
    pub fn all_clear(&mut self)
        requires
            old(self).wf(),
        ensures
            final(self).wf(),
            final(self).bottom.deep_view() == zero_grid_rows(2),
            final(self).num_sprite == old(self).num_sprite,
            final(self).player_sprite == old(self).player_sprite,
    {
        self.bottom = zero_rows_n(2);
    }

    /// Redraw the strip for the given life count: the count as a digit,
    /// then one cannon icon for each life in reserve.
    pub fn draw(&mut self, player_life: i32)
        requires
            old(self).wf(),
            0 <= player_life <= 9,
        ensures
            final(self).wf(),
            final(self).num_sprite == old(self).num_sprite,
            final(self).player_sprite == old(self).player_sprite,
            final(self).bottom.deep_view() == icons_spec(
                draw_opaque_spec(
                    zero_grid_rows(2),
                    8,
                    0,
                    old(self).num_sprite@[player_life as int]@,
                ),
                player_life - 1,
                24,
                old(self).player_sprite@,
            ),
    {
        self.all_clear();
        proof {
            crate::array_sprite::lemma_grid_views(self.num_sprite);
        }
        array_sprite(&mut self.bottom, Pos::new(8, 0), &self.num_sprite[player_life as usize]);
        let ghost target = icons_spec(
            self.bottom.deep_view(),
            player_life - 1,
            24,
            self.player_sprite@,
        );
        let w = self.player_sprite.len();
        let mut k: i32 = 0;
        let mut x: i32 = 24;
        while k < player_life - 1
            invariant
                0 <= k,
                0 <= player_life <= 9,
                k <= 9,
                1 <= w <= 16,
                w == self.player_sprite@.len(),
                x == 24 + k * w,
                self.bottom.deep_view().len() == 2,
                forall|i: int|
                    0 <= i < 2 ==> (#[trigger] self.bottom.deep_view()[i]).len() == 224,
                self.num_sprite == old(self).num_sprite,
                self.player_sprite == old(self).player_sprite,
                self.num_sprite@.len() == 10,
                forall|i: int| 0 <= i < 10 ==> (#[trigger] self.num_sprite@[i])@.len() == 8,
                icons_spec(
                    self.bottom.deep_view(),
                    player_life - 1 - k,
                    x as int,
                    self.player_sprite@,
                ) == target,
            decreases player_life - 1 - k,
        {
            proof {
                assert(24 + k * w + w <= 224 && 24 + (k + 1) * w == 24 + k * w + w)
                    by (nonlinear_arith)
                    requires
                        0 <= k <= 8,
                        1 <= w <= 16,
                ;
            }
            array_sprite(&mut self.bottom, Pos::new(x, 0), &self.player_sprite);
            x = x + self.player_sprite.len() as i32;
            k = k + 1;
        }
    }

    /// Flatten the strip to RGBA bytes for the presentation layer:
    /// turquoise icons, red while the player explodes.
    pub fn convert_to_color_bytes(&self, player_exploding: bool) -> (r: Vec<u8>)
        requires
            self.wf(),
        ensures
            r@.len() == 16 * 224 * 4,
            forall|py: int, x: int, c: int|
                0 <= py < 16 && 0 <= x < 224 && 0 <= c < 4 ==> #[trigger] r@[
                    crate::dot_data::px_index(224, py, x, c)
                ] == strip_pixel_rgba(
                    self.bottom.deep_view(),
                    player_exploding,
                    Color::Turquoise,
                    py,
                    x,
                )[c],
    {
        strip_to_color_bytes(&self.bottom, 2, player_exploding, Color::Turquoise)
    }
}

} // verus!
