use crate::array_sprite::{
    array_shifted_sprite, array_sprite, draw_opaque_spec, draw_shifted_spec, erase,
    erase_opaque_spec,
};
use crate::dot_map::DotMap;
use crate::geom::{clamp_i32, clamp_spec, Pos};
use vstd::prelude::*;

verus! {

// ---------------------------------------------------------------------------
// The saucer that crosses the top lane, and its explosion effect.
// ---------------------------------------------------------------------------

pub struct Explosion {
    pub pos: Pos,
    /// Some(remaining display count) while the effect is on screen.
    pub show_cnt: Option<i32>,
    pub sprite: Vec<u8>,
}

impl Explosion {
    pub open spec fn wf(&self) -> bool {
        &&& 1 <= self.sprite@.len() <= 224
        &&& 0 <= self.pos.x
        &&& self.pos.x + self.sprite@.len() <= 224
        &&& 0 <= self.pos.y <= 192
        &&& match self.show_cnt {
            Some(c) => -1 <= c <= 20,
            None => true,
        }
    }

    /// What one tick does to the grid: when the countdown has run out the
    /// effect's rectangle is cleared, otherwise the grid is untouched.
    pub open spec fn grid_step(self, g: Seq<Seq<u8>>) -> Seq<Seq<u8>> {
        match self.show_cnt {
            Some(c) => if c < 0 {
                erase_opaque_spec(g, self.pos.x as int, self.pos.y as int, self.sprite@.len())
            } else {
                g
            },
            None => g,
        }
    }

    /// What one tick does to the countdown.
    pub open spec fn cnt_step(self) -> Option<i32> {
        match self.show_cnt {
            Some(c) => if c < 0 {
                None
            } else {
                Some((c - 1) as i32)
            },
            None => None,
        }
    }

    /// Place the effect, clamping it into the playfield, and draw it.
    fn create_effect(&mut self, dot_map: &mut DotMap, pos: Pos)
        requires
            old(self).wf(),
            old(dot_map).wf(),
            0 <= pos.y <= 192,
        ensures
            final(self).wf(),
            final(dot_map).wf(),
            final(self).sprite == old(self).sprite,
            final(self).show_cnt == Some(20i32),
            final(self).pos.y == pos.y,
            final(self).pos.x as int == clamp_spec(
                pos.x as int,
                0,
                224 - old(self).sprite@.len(),
            ),
            final(dot_map).grid() == draw_shifted_spec(
                old(dot_map).grid(),
                final(self).pos.x as int,
                pos.y as int,
                old(self).sprite@,
            ),
    {
        let hi: i32 = 224 - self.sprite.len() as i32;
        self.pos = Pos::new(clamp_i32(pos.x, 0, hi), pos.y);
        self.show_cnt = Some(20);
        array_shifted_sprite(&mut dot_map.map, self.pos, &self.sprite);
    }

    /// Count the effect down one tick, clearing it when the count expires.
    fn update_draw(&mut self, dot_map: &mut DotMap)
        requires
            old(self).wf(),
            old(dot_map).wf(),
        ensures
            final(self).wf(),
            final(dot_map).wf(),
            final(self).pos == old(self).pos,
            final(self).sprite == old(self).sprite,
            final(self).show_cnt == old(self).cnt_step(),
            final(dot_map).grid() == old(self).grid_step(old(dot_map).grid()),
    {
        if let Some(cnt) = self.show_cnt {
            if cnt < 0 {
                erase(&mut dot_map.map, self.pos, self.sprite.len());
                self.show_cnt = None;
            } else {
                self.show_cnt = Some(cnt - 1);
            }
        }
    }
}

pub struct Ufo {
    pub width: i32,
    pub pos: Pos,
    pub pre_pos: Pos,
    pub live: bool,
    /// +1 moving right, -1 moving left.
    pub move_dir: i32,
    /// Score awarded per cumulative player shot count, cycled.
    pub score_table: Vec<i32>,
    pub sprite: Vec<u8>,
    pub explosion: Explosion,
}

impl Ufo {
    pub open spec fn wf(&self) -> bool {
        &&& self.width == self.sprite@.len()
        &&& 1 <= self.width <= 24
        &&& self.pos.y == 8 && self.pre_pos.y == 8
        &&& 0 <= self.pos.x && self.pos.x + self.width <= 224
        &&& 0 <= self.pre_pos.x && self.pre_pos.x + self.width <= 224
        &&& (self.move_dir == 1 || self.move_dir == -1)
        &&& self.score_table@.len() == 15
        &&& forall|k: int| 0 <= k < 15 ==> 0 <= #[trigger] self.score_table@[k] <= 300
        &&& self.explosion.wf()
    }

    pub fn new(sprite: Vec<u8>, explosion_sprite: Vec<u8>) -> (u: Ufo)
        requires
            1 <= sprite@.len() <= 24,
            1 <= explosion_sprite@.len() <= 224,
        ensures
            u.wf(),
            u.live == false,
            u.move_dir == 1,
            u.pos.x == 0 && u.pos.y == 8,
            u.sprite == sprite,
            u.explosion.sprite == explosion_sprite,
            u.explosion.show_cnt is None,
            u.score_table@ == seq![
                50i32,
                50i32,
                100i32,
                150i32,
                100i32,
                100i32,
                50i32,
                300i32,
                100i32,
                100i32,
                100i32,
                50i32,
                150i32,
                100i32,
                100i32,
            ],
    {
        let width = sprite.len() as i32;
        let mut score_table: Vec<i32> = Vec::new();
        score_table.push(50);
        score_table.push(50);
        score_table.push(100);
        score_table.push(150);
        score_table.push(100);
        score_table.push(100);
        score_table.push(50);
        score_table.push(300);
        score_table.push(100);
        score_table.push(100);
        score_table.push(100);
        score_table.push(50);
        score_table.push(150);
        score_table.push(100);
        score_table.push(100);
        assert(score_table@ =~= seq![
            50i32,
            50i32,
            100i32,
            150i32,
            100i32,
            100i32,
            50i32,
            300i32,
            100i32,
            100i32,
            100i32,
            50i32,
            150i32,
            100i32,
            100i32,
        ]);
        Ufo {
            width,
            pos: Pos::new(0, 8),
            pre_pos: Pos::new(0, 8),
            live: false,
            move_dir: 1,
            score_table,
            sprite,
            explosion: Explosion { pos: Pos::new(0, 0), show_cnt: None, sprite: explosion_sprite },
        }
    }

    /// Take the saucer off screen. The presentation layer owns the
    /// reappearance timer and restarts it on this call.
    pub fn reset(&mut self)
        ensures
            final(self).live == false,
            final(self).pos == old(self).pos,
            final(self).pre_pos == old(self).pre_pos,
            final(self).move_dir == old(self).move_dir,
            final(self).width == old(self).width,
            final(self).sprite == old(self).sprite,
            final(self).score_table == old(self).score_table,
            final(self).explosion == old(self).explosion,
    {
        self.live = false;
    }

    /// Take the saucer off screen, flip its travel direction for the next
    /// pass, and clear its pixels.
    fn remove(&mut self, dot_map: &mut DotMap)
        requires
            old(self).wf(),
            old(dot_map).wf(),
        ensures
            final(self).wf(),
            final(dot_map).wf(),
            final(self).live == false,
            final(self).move_dir == -old(self).move_dir,
            final(self).pos == old(self).pos,
            final(self).pre_pos == old(self).pre_pos,
            final(self).sprite == old(self).sprite,
            final(self).score_table == old(self).score_table,
            final(self).width == old(self).width,
            final(self).explosion == old(self).explosion,
            final(dot_map).grid() == erase_opaque_spec(
                old(dot_map).grid(),
                old(self).pre_pos.x as int,
                old(self).pre_pos.y as int,
                old(self).sprite@.len(),
            ),
    {
        self.live = false;
        assert(self.move_dir == 1 || self.move_dir == -1);
        self.move_dir = -1 * self.move_dir;
        erase(&mut dot_map.map, self.pre_pos, self.sprite.len());
    }

    /// Resolve a player-bullet hit: the saucer disappears, its explosion
    /// effect appears at its position, and the score awarded is drawn from
    /// the 15-entry table indexed by the cumulative shot count.
    pub fn hit_player_bullet(&mut self, dot_map: &mut DotMap, fire_cnt: i32) -> (score: i32)
        requires
            old(self).wf(),
            old(dot_map).wf(),
            fire_cnt >= 1,
        ensures
            final(self).wf(),
            final(dot_map).wf(),
            score == old(self).score_table@[(fire_cnt - 1) as int % 15],
            final(self).live == false,
            final(self).move_dir == -old(self).move_dir,
            final(self).explosion.show_cnt == Some(20i32),
            final(self).explosion.pos.y == old(self).pos.y,
            final(self).explosion.pos.x as int == clamp_spec(
                old(self).pos.x as int,
                0,
                224 - old(self).explosion.sprite@.len(),
            ),
            final(self).score_table == old(self).score_table,
            final(self).pos == old(self).pos,
            final(self).pre_pos == old(self).pre_pos,
            final(self).sprite == old(self).sprite,
            final(self).width == old(self).width,
            final(self).explosion.sprite == old(self).explosion.sprite,
            final(dot_map).grid() == draw_shifted_spec(
                erase_opaque_spec(
                    old(dot_map).grid(),
                    old(self).pre_pos.x as int,
                    old(self).pre_pos.y as int,
                    old(self).sprite@.len(),
                ),
                final(self).explosion.pos.x as int,
                old(self).pos.y as int,
                old(self).explosion.sprite@,
            ),
    {
        self.remove(dot_map);
        let p = self.pos;
        self.explosion.create_effect(dot_map, p);
        let idx: usize = (((fire_cnt - 1) as u32) % 15) as usize;
        self.score_table[idx]
    }

    /// What one tick does to the saucer's horizontal position when it is
    /// moving and not at a wall.
    pub open spec fn moved_x(self) -> int {
        self.pos.x as int + self.move_dir as int
    }

    /// True when the saucer stands at the wall it is moving toward.
    pub open spec fn at_wall(self) -> bool {
        (self.move_dir < 0 && self.pos.x < 8) || (0 < self.move_dir && 216 <= self.pos.x
            + self.width)
    }

    /// One tick: step the explosion effect; vanish at the walls; otherwise
    /// glide one dot, or appear at the edge matching the shot-count parity
    /// once the reappearance delay (timed by the caller) has elapsed.
    pub fn update(&mut self, dot_map: &mut DotMap, fire_cnt: i32, timer_elapsed: bool)
        requires
            old(self).wf(),
            old(dot_map).wf(),
            fire_cnt >= 0,
        ensures
            final(self).wf(),
            final(dot_map).wf(),
            final(self).explosion.show_cnt == old(self).explosion.cnt_step(),
            final(self).score_table == old(self).score_table,
            final(self).sprite == old(self).sprite,
            final(self).width == old(self).width,
            ({
                let g1 = old(self).explosion.grid_step(old(dot_map).grid());
                if old(self).at_wall() {
                    &&& final(self).live == false
                    &&& final(self).move_dir == -old(self).move_dir
                    &&& final(self).pos == old(self).pos
                    &&& final(self).pre_pos == old(self).pos
                    &&& final(dot_map).grid() == erase_opaque_spec(
                        g1,
                        old(self).pos.x as int,
                        8,
                        old(self).sprite@.len(),
                    )
                } else if old(self).live {
                    &&& final(self).live == true
                    &&& final(self).move_dir == old(self).move_dir
                    &&& final(self).pos.x as int == old(self).moved_x()
                    &&& final(self).pos.y == 8
                    &&& final(self).pre_pos == old(self).pos
                    &&& final(dot_map).grid() == draw_opaque_spec(
                        erase_opaque_spec(g1, old(self).pos.x as int, 8, old(self).sprite@.len()),
                        final(self).pos.x as int,
                        8,
                        old(self).sprite@,
                    )
                } else if timer_elapsed {
                    &&& final(self).live == true
                    &&& final(self).pos.y == 8
                    &&& (if fire_cnt % 2 == 0 {
                        final(self).pos.x == 216 - old(self).width && final(self).move_dir == -1
                    } else {
                        final(self).pos.x == 8 && final(self).move_dir == 1
                    })
                    &&& final(self).pre_pos == old(self).pos
                    &&& final(dot_map).grid() == draw_opaque_spec(
                        erase_opaque_spec(g1, old(self).pos.x as int, 8, old(self).sprite@.len()),
                        final(self).pos.x as int,
                        8,
                        old(self).sprite@,
                    )
                } else {
                    &&& final(self).live == false
                    &&& final(self).move_dir == old(self).move_dir
                    &&& final(self).pos == old(self).pos
                    &&& final(self).pre_pos == old(self).pos
                    &&& final(dot_map).grid() == g1
                }
            }),
    {
        self.pre_pos = self.pos;
        self.explosion.update_draw(dot_map);
        if (self.move_dir < 0 && self.pos.x < 8) || (0 < self.move_dir && 224 - 8 <= self.pos.x
            + self.width) {
            self.remove(dot_map);
            return;
        }
        if self.live {
            self.pos = Pos::new(self.pos.x + self.move_dir, self.pos.y);
        } else {
            if timer_elapsed {
                self.live = true;
                if fire_cnt % 2 == 0 {
                    self.pos = Pos::new(224 - self.width - 8, 8);
                    self.move_dir = -1;
                } else {
                    self.pos = Pos::new(8, 8);
                    self.move_dir = 1;
                }
            }
        }
        self.draw(dot_map);
    }

    /// Erase the previous frame's pixels and draw the saucer at its current
    /// position; off screen it draws nothing.
    fn draw(&self, dot_map: &mut DotMap)
        requires
            self.wf(),
            old(dot_map).wf(),
        ensures
            final(dot_map).wf(),
            final(dot_map).grid() == if self.live {
                draw_opaque_spec(
                    erase_opaque_spec(
                        old(dot_map).grid(),
                        self.pre_pos.x as int,
                        self.pre_pos.y as int,
                        self.sprite@.len(),
                    ),
                    self.pos.x as int,
                    self.pos.y as int,
                    self.sprite@,
                )
            } else {
                old(dot_map).grid()
            },
    {
        if !self.live {
            return;
        }
        erase(&mut dot_map.map, self.pre_pos, self.sprite.len());
        array_sprite(&mut dot_map.map, self.pos, &self.sprite);
    }
}

} // verus!
