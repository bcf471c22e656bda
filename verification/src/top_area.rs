use crate::array_sprite::{array_sprite, draw_opaque_spec};
use crate::dot_map::{strip_pixel_rgba, strip_to_color_bytes, zero_grid_rows, zero_rows_n, Color};
use crate::geom::Pos;
use vstd::prelude::*;

verus! {

// The score strip above the playfield: its own 4-row byte grid and the
// digit glyphs drawn into it.

pub struct TopArea {
    pub top: Vec<Vec<u8>>,
    pub num_sprite: Vec<Vec<u8>>,
}

/// Decimal digit k (0 = ones) of a non-negative score.
pub open spec fn score_digit(score: int, k: int) -> int
    decreases k,
{
    if k <= 0 {
        score % 10
    } else {
        score_digit(score / 10, k - 1)
    }
}

/// The strip after the five digits of the score are drawn, most
/// significant first, at the fixed digit row.
pub open spec fn score_drawn_spec(g: Seq<Seq<u8>>, score: int, num: Seq<Seq<u8>>) -> Seq<Seq<u8>> {
    let g1 = draw_opaque_spec(g, 24, 24, num[score_digit(score, 4)]);
    let g2 = draw_opaque_spec(g1, 32, 24, num[score_digit(score, 3)]);
    let g3 = draw_opaque_spec(g2, 40, 24, num[score_digit(score, 2)]);
    let g4 = draw_opaque_spec(g3, 48, 24, num[score_digit(score, 1)]);
    draw_opaque_spec(g4, 56, 24, num[score_digit(score, 0)])
}

impl TopArea {
    pub open spec fn wf(&self) -> bool {
        &&& self.top.deep_view().len() == 4
        &&& forall|i: int| 0 <= i < 4 ==> (#[trigger] self.top.deep_view()[i]).len() == 224
        &&& self.num_sprite@.len() == 10
        &&& forall|i: int| 0 <= i < 10 ==> (#[trigger] self.num_sprite@[i])@.len() == 8
    }

    pub fn new(num_sprite: Vec<Vec<u8>>) -> (t: TopArea)
        requires
            num_sprite@.len() == 10,
            forall|i: int| 0 <= i < 10 ==> (#[trigger] num_sprite@[i])@.len() == 8,
        ensures
            t.wf(),
            t.top.deep_view() == zero_grid_rows(4),
            t.num_sprite == num_sprite,
    {
        TopArea { top: zero_rows_n(4), num_sprite }
    }

    /// Clear the strip.
    pub fn all_clear(&mut self)
        requires
            old(self).wf(),
        ensures
            final(self).wf(),
            final(self).top.deep_view() == zero_grid_rows(4),
            final(self).num_sprite == old(self).num_sprite,
    {
        self.top = zero_rows_n(4);
    }

    /// Draw the score as five decimal digits, most significant first.
    pub fn draw_score(&mut self, score: i32)
        requires
            old(self).wf(),
            score >= 0,
        ensures
            final(self).wf(),
            final(self).num_sprite == old(self).num_sprite,
            final(self).top.deep_view() == score_drawn_spec(
                old(self).top.deep_view(),
                score as int,
                old(self).num_sprite.deep_view(),
            ),
    {
        let s: u32 = score as u32;
        let d0 = (s % 10) as usize;
        let d1 = ((s / 10) % 10) as usize;
        let d2 = ((s / 100) % 10) as usize;
        let d3 = ((s / 1000) % 10) as usize;
        let d4 = ((s / 10000) % 10) as usize;
        proof {
            reveal_with_fuel(score_digit, 6);
            assert(d1 as int == score_digit(score as int, 1));
            assert(d2 as int == score_digit(score as int, 2));
            assert(d3 as int == score_digit(score as int, 3));
            assert(d4 as int == score_digit(score as int, 4));
            crate::array_sprite::lemma_grid_views(self.num_sprite);
        }
        array_sprite(&mut self.top, Pos::new(24, 24), &self.num_sprite[d4]);
        proof {
            crate::array_sprite::lemma_grid_views(self.num_sprite);
        }
        array_sprite(&mut self.top, Pos::new(32, 24), &self.num_sprite[d3]);
        proof {
            crate::array_sprite::lemma_grid_views(self.num_sprite);
        }
        array_sprite(&mut self.top, Pos::new(40, 24), &self.num_sprite[d2]);
        proof {
            crate::array_sprite::lemma_grid_views(self.num_sprite);
        }
        array_sprite(&mut self.top, Pos::new(48, 24), &self.num_sprite[d1]);
        proof {
            crate::array_sprite::lemma_grid_views(self.num_sprite);
        }
        array_sprite(&mut self.top, Pos::new(56, 24), &self.num_sprite[d0]);
    }

    /// Flatten the strip to RGBA bytes for the presentation layer: white
    /// digits, red while the player explodes.
    pub fn convert_to_color_bytes(&self, player_exploding: bool) -> (r: Vec<u8>)
        requires
            self.wf(),
        ensures
            r@.len() == 32 * 224 * 4,
            forall|py: int, x: int, c: int|
                0 <= py < 32 && 0 <= x < 224 && 0 <= c < 4 ==> #[trigger] r@[
                    crate::dot_data::px_index(224, py, x, c)
                ] == strip_pixel_rgba(
                    self.top.deep_view(),
                    player_exploding,
                    Color::White,
                    py,
                    x,
                )[c],
    {
        strip_to_color_bytes(&self.top, 4, player_exploding, Color::White)
    }
}

} // verus!
