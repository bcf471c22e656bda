use crate::alien::{alien_kind, index2score_spec, pos2index_xy_spec, Alien};
use crate::array_sprite::{
    array_shifted_sprite, array_sprite, collision, collision_spec, draw_opaque_spec,
    draw_shifted_spec, erase, erase_opaque_spec, erase_shifted, erase_shifted_spec,
};
use crate::dot_map::DotMap;
use crate::geom::{clamp_i32, clamp_spec, Pos};
use crate::ufo::Ufo;
use vstd::prelude::*;

verus! {

/// How far the player's bullet climbs per tick.
pub const PLAYER_BULLET_DELTA: i32 = 4;

// ---------------------------------------------------------------------------
// The player's cannon.
// ---------------------------------------------------------------------------

pub struct Player {
    pub width: i32,
    pub pos: Pos,
    pub pre_pos: Pos,
    /// Ticks from destruction to redeployment.
    pub const_max_explosion_cnt: i32,
    /// Some(ticks since destruction) while the cannon is down.
    pub explosion_cnt: Option<i32>,
    pub life: i32,
    /// True once the score bonus life has been granted.
    pub life_up: bool,
    pub sprite: Vec<u8>,
    pub explosion_sprite0: Vec<u8>,
    pub explosion_sprite1: Vec<u8>,
}

impl Player {
    pub open spec fn wf(&self) -> bool {
        &&& self.width == self.sprite@.len()
        &&& 1 <= self.width <= 16
        &&& 1 <= self.explosion_sprite0@.len() <= self.width
        &&& 1 <= self.explosion_sprite1@.len() <= self.width
        &&& self.pos.y == 184 && self.pre_pos.y == 184
        &&& 7 <= self.pos.x && self.pos.x + self.width <= 217
        &&& 7 <= self.pre_pos.x && self.pre_pos.x + self.width <= 217
        &&& self.const_max_explosion_cnt == 160
        &&& match self.explosion_cnt {
            Some(c) => 0 <= c <= 161,
            None => true,
        }
    }

    /// The explosion frame shown at destruction tick c: the two variants
    /// alternate every five ticks.
    pub open spec fn expl_sprite_view(self, c: int) -> Seq<u8> {
        if (c / 5) % 2 == 0 {
            self.explosion_sprite0@
        } else {
            self.explosion_sprite1@
        }
    }

    pub fn new(sprite: Vec<u8>, explosion_sprite1: Vec<u8>, explosion_sprite2: Vec<u8>) -> (p:
        Player)
        requires
            1 <= sprite@.len() <= 16,
            1 <= explosion_sprite1@.len() <= sprite@.len(),
            1 <= explosion_sprite2@.len() <= sprite@.len(),
        ensures
            p.wf(),
            p.pos.x == 8 && p.pos.y == 184,
            p.pre_pos == p.pos,
            p.explosion_cnt is None,
            p.life == 3,
            p.life_up == false,
            p.sprite == sprite,
            p.explosion_sprite0 == explosion_sprite1,
            p.explosion_sprite1 == explosion_sprite2,
    {
        let width = sprite.len() as i32;
        Player {
            width,
            pos: Pos::new(8, crate::canvas::GAME_HEIGHT - 8 * 3),
            pre_pos: Pos::new(8, crate::canvas::GAME_HEIGHT - 8 * 3),
            const_max_explosion_cnt: 160,
            explosion_cnt: None,
            life: 3,
            life_up: false,
            sprite,
            explosion_sprite0: explosion_sprite1,
            explosion_sprite1: explosion_sprite2,
        }
    }

    /// Start-of-game reset: stage reset plus a fresh stock of lives.
    pub fn reset_all(&mut self)
        requires
            old(self).wf(),
        ensures
            final(self).wf(),
            final(self).pos.x == 8 && final(self).pos.y == 184,
            final(self).pre_pos == final(self).pos,
            final(self).explosion_cnt is None,
            final(self).life == 3,
            final(self).life_up == false,
            final(self).sprite == old(self).sprite,
    {
        self.reset_stage();
        self.life = 3;
        self.life_up = false;
    }

    /// Start-of-stage reset: back to the left edge, not exploding.
    pub fn reset_stage(&mut self)
        requires
            old(self).wf(),
        ensures
            final(self).wf(),
            final(self).pos.x == 8 && final(self).pos.y == 184,
            final(self).pre_pos == final(self).pos,
            final(self).explosion_cnt is None,
            final(self).life == old(self).life,
            final(self).life_up == old(self).life_up,
            final(self).sprite == old(self).sprite,
    {
        self.pos = Pos::new(8, crate::canvas::GAME_HEIGHT - 8 * 3);
        self.pre_pos = Pos::new(8, crate::canvas::GAME_HEIGHT - 8 * 3);
        self.explosion_cnt = None;
    }

    /// Everything one tick does to the cannon and the grid. While down, the
    /// explosion animation flickers for 50 ticks, is wiped at tick 50, and
    /// the cannon redeploys at the left edge (losing a life) when the full
    /// count elapses. Otherwise the cannon slides by the held directions,
    /// within the walls, and is redrawn.
    pub open spec fn update_post(
        p: Player,
        g0: Seq<Seq<u8>>,
        move_left: bool,
        move_right: bool,
        p2: Player,
        g2: Seq<Seq<u8>>,
    ) -> bool {
        &&& p2.sprite == p.sprite
        &&& p2.explosion_sprite0 == p.explosion_sprite0
        &&& p2.explosion_sprite1 == p.explosion_sprite1
        &&& p2.width == p.width
        &&& p2.life_up == p.life_up
        &&& p2.pre_pos == p.pos
        &&& p2.pos.y == 184
        &&& match p.explosion_cnt {
            Some(cnt) => {
                if cnt > 160 {
                    &&& p2.explosion_cnt is None
                    &&& p2.pos.x == 8
                    &&& p2.life == p.life - 1
                    &&& g2 == g0
                } else {
                    &&& p2.explosion_cnt == Some((cnt + 1) as i32)
                    &&& p2.pos.x == p.pos.x
                    &&& p2.life == p.life
                    &&& g2 == (if cnt < 50 {
                        let ge = if cnt % 5 == 0 {
                            erase_opaque_spec(
                                g0,
                                p.pos.x as int,
                                184,
                                p.expl_sprite_view(cnt as int).len(),
                            )
                        } else {
                            g0
                        };
                        draw_opaque_spec(ge, p.pos.x as int, 184, p.expl_sprite_view(cnt as int))
                    } else if cnt == 50 {
                        erase_opaque_spec(
                            g0,
                            p.pos.x as int,
                            184,
                            p.expl_sprite_view(cnt as int).len(),
                        )
                    } else {
                        g0
                    })
                }
            },
            None => {
                let x1 = if p.pos.x > 7 && move_left {
                    p.pos.x - 1
                } else {
                    p.pos.x as int
                };
                let x2 = if x1 + p.width < 217 && move_right {
                    x1 + 1
                } else {
                    x1
                };
                &&& p2.explosion_cnt is None
                &&& p2.pos.x as int == x2
                &&& p2.life == p.life
                &&& g2 == draw_opaque_spec(
                    erase_opaque_spec(g0, p.pos.x as int, 184, p.sprite@.len()),
                    x2,
                    184,
                    p.sprite@,
                )
            },
        }
    }

    /// One tick of the cannon: animate destruction and redeploy, or move by
    /// the held directions and redraw.
    pub fn update(&mut self, dot_map: &mut DotMap, move_left: bool, move_right: bool)
        requires
            old(self).wf(),
            old(dot_map).wf(),
            old(self).life > i32::MIN,
        ensures
            final(self).wf(),
            final(dot_map).wf(),
            Player::update_post(
                *old(self),
                old(dot_map).grid(),
                move_left,
                move_right,
                *final(self),
                final(dot_map).grid(),
            ),
    {
        self.pre_pos = self.pos;
        if let Some(cnt) = self.explosion_cnt {
            if cnt < 50 {
                if cnt % 5 == 0 {
                    let w = if (cnt / 5) % 2 == 0 {
                        self.explosion_sprite0.len()
                    } else {
                        self.explosion_sprite1.len()
                    };
                    erase(&mut dot_map.map, self.pos, w);
                }
                if (cnt / 5) % 2 == 0 {
                    array_sprite(&mut dot_map.map, self.pos, &self.explosion_sprite0);
                } else {
                    array_sprite(&mut dot_map.map, self.pos, &self.explosion_sprite1);
                }
            } else if cnt == 50 {
                let w = if (cnt / 5) % 2 == 0 {
                    self.explosion_sprite0.len()
                } else {
                    self.explosion_sprite1.len()
                };
                erase(&mut dot_map.map, self.pos, w);
            } else if cnt > 160 {
                self.explosion_cnt = None;
                self.pos = Pos::new(8, self.pos.y);
                self.life = self.life - 1;
                return;
            }
            self.explosion_cnt = Some(cnt + 1);
            return;
        }
        if 7 < self.pos.x && move_left {
            self.pos = Pos::new(self.pos.x - 1, self.pos.y);
        }
        if self.pos.x + self.width < crate::canvas::GAME_WIDTH - 7 && move_right {
            self.pos = Pos::new(self.pos.x + 1, self.pos.y);
        }
        erase(&mut dot_map.map, self.pre_pos, self.sprite.len());
        array_sprite(&mut dot_map.map, self.pos, &self.sprite);
    }

    /// Destroy the cannon: clear its pixels and start the destruction
    /// countdown. The presentation layer plays the matching sound.
    pub fn remove(&mut self, dot_map: &mut DotMap)
        requires
            old(self).wf(),
            old(dot_map).wf(),
        ensures
            final(self).wf(),
            final(dot_map).wf(),
            final(self).explosion_cnt == Some(0i32),
            final(self).pos == old(self).pos,
            final(self).pre_pos == old(self).pre_pos,
            final(self).life == old(self).life,
            final(self).life_up == old(self).life_up,
            final(self).sprite == old(self).sprite,
            final(self).explosion_sprite0 == old(self).explosion_sprite0,
            final(self).explosion_sprite1 == old(self).explosion_sprite1,
            final(self).width == old(self).width,
            final(dot_map).grid() == erase_opaque_spec(
                old(dot_map).grid(),
                old(self).pos.x as int,
                184,
                old(self).explosion_sprite0@.len(),
            ),
    {
        self.explosion_cnt = Some(0);
        let w = self.explosion_sprite0.len();
        erase(&mut dot_map.map, self.pos, w);
    }
}

// ---------------------------------------------------------------------------
// The player's bullet, and its hit resolution against the raster.
// ---------------------------------------------------------------------------

pub struct Bullet {
    /// Top-left position.
    pub pos: Pos,
    pub live: bool,
    /// True while the bullet's own explosion effect should be shown.
    pub explosion_effect_show: bool,
    /// Some(remaining ticks) while firing is banned.
    pub ban_fire_cnt: Option<i32>,
    /// Cumulative shots fired this stage.
    pub fire_cnt: i32,
    pub score: i32,
    pub sprite: Vec<u8>,
    pub explosion_sprite: Vec<u8>,
}

impl Bullet {
    pub open spec fn cur_sprite(self) -> Seq<u8> {
        if self.explosion_effect_show {
            self.explosion_sprite@
        } else {
            self.sprite@
        }
    }

    pub open spec fn wf(&self) -> bool {
        &&& self.sprite@.len() == 1
        &&& 1 <= self.explosion_sprite@.len() <= 8
        &&& 0 <= self.pos.x
        &&& self.pos.x + self.cur_sprite().len() <= 224
        &&& 0 <= self.pos.y <= 200
        &&& (self.live ==> self.ban_fire_cnt is None && !self.explosion_effect_show)
        &&& match self.ban_fire_cnt {
            Some(c) => -1 <= c <= 80,
            None => true,
        }
        &&& 0 <= self.fire_cnt
        &&& 0 <= self.score
    }

    pub fn new(sprite: Vec<u8>, explosion_sprite: Vec<u8>) -> (b: Bullet)
        requires
            sprite@.len() == 1,
            1 <= explosion_sprite@.len() <= 8,
        ensures
            b.wf(),
            b.live == false,
            b.explosion_effect_show == false,
            b.ban_fire_cnt is None,
            b.fire_cnt == 0,
            b.score == 0,
            b.sprite == sprite,
            b.explosion_sprite == explosion_sprite,
    {
        Bullet {
            pos: Pos::new(0, 0),
            live: false,
            explosion_effect_show: false,
            ban_fire_cnt: None,
            fire_cnt: 0,
            score: 0,
            sprite,
            explosion_sprite,
        }
    }

    /// Start-of-game reset: stage reset plus a zeroed score.
    pub fn reset_all(&mut self)
        requires
            old(self).wf(),
        ensures
            final(self).wf(),
            final(self).live == false,
            final(self).explosion_effect_show == false,
            final(self).ban_fire_cnt == Some(80i32),
            final(self).fire_cnt == 0,
            final(self).score == 0,
            final(self).pos == old(self).pos,
            final(self).sprite == old(self).sprite,
            final(self).explosion_sprite == old(self).explosion_sprite,
    {
        self.reset_stage();
        self.score = 0;
    }

    /// Start-of-stage reset: no bullet in flight, firing banned briefly,
    /// shot counter restarted.
    pub fn reset_stage(&mut self)
        requires
            old(self).wf(),
        ensures
            final(self).wf(),
            final(self).live == false,
            final(self).explosion_effect_show == false,
            final(self).ban_fire_cnt == Some(80i32),
            final(self).fire_cnt == 0,
            final(self).score == old(self).score,
            final(self).pos == old(self).pos,
            final(self).sprite == old(self).sprite,
            final(self).explosion_sprite == old(self).explosion_sprite,
    {
        self.live = false;
        self.explosion_effect_show = false;
        self.ban_fire_cnt = Some(80);
        self.fire_cnt = 0;
    }
}

/// The grid after a collision at (bx, by) is resolved: a fresh saucer hit
/// erases the saucer and draws its explosion; a resolved live formation
/// slot is erased and replaced by the formation explosion; anything else
/// leaves the grid to the bullet's own explosion effect.
pub open spec fn collided_grid(
    bx: int,
    by: int,
    u: Ufo,
    a: Alien,
    g: Seq<Seq<u8>>,
) -> Seq<Seq<u8>> {
    if by / 8 < 2 {
        if u.explosion.show_cnt is None {
            draw_shifted_spec(
                erase_opaque_spec(g, u.pre_pos.x as int, 8, u.sprite@.len()),
                clamp_spec(u.pos.x as int, 0, 224 - u.explosion.sprite@.len()),
                8,
                u.explosion.sprite@,
            )
        } else {
            g
        }
    } else if by <= a.ref_alien_pos.y + 6 && pos2index_xy_spec(
        a.ref_alien_pos,
        a.live@,
        bx,
        by,
    ) is Some {
        let i = pos2index_xy_spec(a.ref_alien_pos, a.live@, bx, by).unwrap() as int;
        draw_opaque_spec(
            erase_opaque_spec(
                g,
                a.slot_x(i),
                a.slot_y(i),
                a.sprite_list@[2 * alien_kind(i)]@.len(),
            ),
            a.slot_x(i),
            a.slot_y(i),
            a.explosion.sprite@,
        )
    } else {
        g
    }
}

/// Whether the bullet's own explosion effect is shown after a collision:
/// only when neither the saucer lane nor a live formation slot took the
/// hit.
pub open spec fn collided_show(bx: int, by: int, u: Ufo, a: Alien) -> bool {
    if by / 8 < 2 {
        false
    } else if by <= a.ref_alien_pos.y + 6 && pos2index_xy_spec(
        a.ref_alien_pos,
        a.live@,
        bx,
        by,
    ) is Some {
        false
    } else {
        true
    }
}

/// Points awarded for a collision: the saucer's table entry for this shot
/// count when the saucer is freshly hit, the slot's tier for a formation
/// hit, nothing otherwise.
pub open spec fn collided_score_delta(bx: int, by: int, u: Ufo, a: Alien, shot_cnt: int) -> int {
    if by / 8 < 2 {
        if u.explosion.show_cnt is None {
            u.score_table@[(shot_cnt - 1) % 15] as int
        } else {
            0
        }
    } else if by <= a.ref_alien_pos.y + 6 && pos2index_xy_spec(
        a.ref_alien_pos,
        a.live@,
        bx,
        by,
    ) is Some {
        index2score_spec(pos2index_xy_spec(a.ref_alien_pos, a.live@, bx, by).unwrap() as int)
    } else {
        0
    }
}

/// How a collision at (bx, by) leaves the saucer and the formation.
pub open spec fn collided_entities_post(
    bx: int,
    by: int,
    u: Ufo,
    a: Alien,
    u2: Ufo,
    a2: Alien,
) -> bool {
    if by / 8 < 2 {
        &&& a2 == a
        &&& if u.explosion.show_cnt is None {
            &&& u2.live == false
            &&& u2.move_dir == -u.move_dir
            &&& u2.explosion.show_cnt == Some(20i32)
            &&& u2.explosion.pos.y == 8
            &&& u2.explosion.pos.x as int == clamp_spec(
                u.pos.x as int,
                0,
                224 - u.explosion.sprite@.len(),
            )
            &&& u2.explosion.sprite == u.explosion.sprite
            &&& u2.pos == u.pos
            &&& u2.pre_pos == u.pre_pos
            &&& u2.score_table == u.score_table
            &&& u2.sprite == u.sprite
            &&& u2.width == u.width
        } else {
            u2 == u
        }
    } else if by <= a.ref_alien_pos.y + 6 && pos2index_xy_spec(
        a.ref_alien_pos,
        a.live@,
        bx,
        by,
    ) is Some {
        let i = pos2index_xy_spec(a.ref_alien_pos, a.live@, bx, by).unwrap() as int;
        &&& u2 == u
        &&& a2.live@ == a.live@.update(i, false)
        &&& a2.live_num == a.live_num - 1
        &&& a2.ref_alien_pos == a.ref_alien_pos
        &&& a2.pre_ref_alien_pos == a.pre_ref_alien_pos
        &&& a2.i_cursor_alien == a.i_cursor_alien
        &&& a2.show_sprite == a.show_sprite
        &&& a2.move_delta == a.move_delta
        &&& a2.sprite_list == a.sprite_list
        &&& a2.table_init_pos_y == a.table_init_pos_y
        &&& a2.explosion.effect_cnt == Some(15i32)
        &&& a2.explosion.sprite == a.explosion.sprite
        &&& a2.explosion.pos.x as int == a.slot_x(i)
        &&& a2.explosion.pos.y as int == a.slot_y(i)
    } else {
        u2 == u && a2 == a
    }
}

/// The ban countdown taken by the end-of-tick redraw.
pub open spec fn draw_ban_step(ban: Option<i32>) -> Option<i32> {
    match ban {
        Some(c) => if c < 0 {
            None
        } else {
            Some((c - 1) as i32)
        },
        None => None,
    }
}

/// The end-of-tick redraw: while banned and showing, the bullet explosion
/// is drawn (or wiped once the count runs out); a live bullet is drawn at
/// its position.
pub open spec fn draw_phase_grid(b: Bullet, g: Seq<Seq<u8>>) -> Seq<Seq<u8>> {
    let g1 = match b.ban_fire_cnt {
        Some(c) => if b.explosion_effect_show {
            if c < 0 {
                erase_shifted_spec(g, b.pos.x as int, b.pos.y as int, b.explosion_sprite@)
            } else {
                draw_shifted_spec(g, b.pos.x as int, b.pos.y as int, b.explosion_sprite@)
            }
        } else {
            g
        },
        None => g,
    };
    if b.live {
        draw_shifted_spec(g1, b.pos.x as int, b.pos.y as int, b.cur_sprite())
    } else {
        g1
    }
}

/// Everything one tick of the player bullet does: flight with its erase and
/// redraw, the top-of-screen fizzle, collision resolution, firing on
/// request, the score bonus life, and the explosion-effect countdown while
/// idle.
pub open spec fn bullet_update_post(
    b: Bullet,
    p: Player,
    u: Ufo,
    a: Alien,
    g: Seq<Seq<u8>>,
    fire: bool,
    b2: Bullet,
    p2: Player,
    u2: Ufo,
    a2: Alien,
    g2: Seq<Seq<u8>>,
) -> bool {
    &&& b2.sprite == b.sprite
    &&& b2.explosion_sprite == b.explosion_sprite
    &&& p2.pos == p.pos
    &&& p2.pre_pos == p.pre_pos
    &&& p2.explosion_cnt == p.explosion_cnt
    &&& p2.sprite == p.sprite
    &&& p2.explosion_sprite0 == p.explosion_sprite0
    &&& p2.explosion_sprite1 == p.explosion_sprite1
    &&& p2.width == p.width
    &&& p2.const_max_explosion_cnt == p.const_max_explosion_cnt
    &&& (if 1500 <= b2.score && !p.life_up {
        p2.life == p.life + 1 && p2.life_up == true
    } else {
        p2.life == p.life && p2.life_up == p.life_up
    })
    &&& if b.live {
        let g_e = erase_shifted_spec(g, b.pos.x as int, b.pos.y as int, b.sprite@);
        let ny = b.pos.y - 4;
        if ny < 0 {
            &&& b2.live == false
            &&& b2.ban_fire_cnt == Some(14i32)
            &&& b2.explosion_effect_show == true
            &&& b2.fire_cnt == b.fire_cnt
            &&& b2.score == b.score
            &&& b2.pos.y == 0
            &&& b2.pos.x as int == clamp_spec(
                b.pos.x - b.explosion_sprite@.len() / 2,
                0,
                224 - b.explosion_sprite@.len(),
            )
            &&& u2 == u
            &&& a2 == a
            &&& g2 == draw_shifted_spec(g_e, b2.pos.x as int, 0, b.explosion_sprite@)
        } else if collision_spec(g_e, b.pos.x as int, ny as int, b.sprite@) {
            let ex = clamp_spec(b.pos.x - 5, 0, 224 - b.explosion_sprite@.len());
            let ey = clamp_spec(ny - 2, 0, 200);
            let shown = collided_show(b.pos.x as int, ny as int, u, a);
            let gc = collided_grid(b.pos.x as int, ny as int, u, a, g_e);
            &&& b2.live == false
            &&& b2.ban_fire_cnt == Some(14i32)
            &&& b2.explosion_effect_show == shown
            &&& b2.fire_cnt == b.fire_cnt
            &&& b2.score as int == b.score + collided_score_delta(
                b.pos.x as int,
                ny as int,
                u,
                a,
                b.fire_cnt as int,
            )
            &&& b2.pos.x as int == ex
            &&& b2.pos.y as int == ey
            &&& collided_entities_post(b.pos.x as int, ny as int, u, a, u2, a2)
            &&& g2 == (if shown {
                draw_shifted_spec(gc, ex, ey, b.explosion_sprite@)
            } else {
                gc
            })
        } else {
            &&& b2.live == true
            &&& b2.ban_fire_cnt is None
            &&& b2.explosion_effect_show == false
            &&& b2.fire_cnt == b.fire_cnt
            &&& b2.score == b.score
            &&& b2.pos.x == b.pos.x
            &&& b2.pos.y as int == ny as int
            &&& u2 == u
            &&& a2 == a
            &&& g2 == draw_shifted_spec(g_e, b.pos.x as int, ny as int, b.sprite@)
        }
    } else if b.ban_fire_cnt is None && p.explosion_cnt is None && fire {
        let fx = p.pos.x as int + 7;
        let fy = p.pos.y as int - 8;
        if collision_spec(g, fx, fy, b.sprite@) {
            let ex = clamp_spec(fx - 5, 0, 224 - b.explosion_sprite@.len());
            let ey = clamp_spec(fy - 2, 0, 200);
            let shown = collided_show(fx, fy, u, a);
            let gc = collided_grid(fx, fy, u, a, g);
            &&& b2.live == false
            &&& b2.ban_fire_cnt == Some(14i32)
            &&& b2.explosion_effect_show == shown
            &&& b2.fire_cnt == b.fire_cnt + 1
            &&& b2.score as int == b.score + collided_score_delta(fx, fy, u, a, b.fire_cnt + 1)
            &&& b2.pos.x as int == ex
            &&& b2.pos.y as int == ey
            &&& collided_entities_post(fx, fy, u, a, u2, a2)
            &&& g2 == (if shown {
                draw_shifted_spec(gc, ex, ey, b.explosion_sprite@)
            } else {
                gc
            })
        } else {
            &&& b2.live == true
            &&& b2.ban_fire_cnt is None
            &&& b2.explosion_effect_show == false
            &&& b2.fire_cnt == b.fire_cnt + 1
            &&& b2.score == b.score
            &&& b2.pos.x as int == fx
            &&& b2.pos.y as int == fy
            &&& u2 == u
            &&& a2 == a
            &&& g2 == draw_shifted_spec(g, fx, fy, b.sprite@)
        }
    } else {
        &&& b2.live == false
        &&& b2.explosion_effect_show == b.explosion_effect_show
        &&& b2.pos == b.pos
        &&& b2.fire_cnt == b.fire_cnt
        &&& b2.score == b.score
        &&& u2 == u
        &&& a2 == a
        &&& b2.ban_fire_cnt == draw_ban_step(b.ban_fire_cnt)
        &&& g2 == draw_phase_grid(b, g)
    }
}

impl Bullet {
    /// Resolve a collision at the bullet's current (post-move) position:
    /// kill the bullet, ban refiring, award any saucer or formation score,
    /// and shift the bullet to centre its explosion effect.
    fn collided(&mut self, dot_map: &mut DotMap, ufo: &mut Ufo, alien: &mut Alien)
        requires
            old(self).wf(),
            old(dot_map).wf(),
            old(ufo).wf(),
            old(alien).wf(),
            old(self).fire_cnt >= 1,
            old(self).score <= 0x7FFF_FC00,
        ensures
            final(self).wf(),
            final(dot_map).wf(),
            final(ufo).wf(),
            final(alien).wf(),
            final(self).live == false,
            final(self).ban_fire_cnt == Some(15i32),
            final(self).fire_cnt == old(self).fire_cnt,
            final(self).sprite == old(self).sprite,
            final(self).explosion_sprite == old(self).explosion_sprite,
            final(self).explosion_effect_show == collided_show(
                old(self).pos.x as int,
                old(self).pos.y as int,
                *old(ufo),
                *old(alien),
            ),
            final(self).score as int == old(self).score + collided_score_delta(
                old(self).pos.x as int,
                old(self).pos.y as int,
                *old(ufo),
                *old(alien),
                old(self).fire_cnt as int,
            ),
            final(self).pos.x as int == clamp_spec(
                old(self).pos.x - 5,
                0,
                224 - old(self).explosion_sprite@.len(),
            ),
            final(self).pos.y as int == clamp_spec(old(self).pos.y - 2, 0, 200),
            collided_entities_post(
                old(self).pos.x as int,
                old(self).pos.y as int,
                *old(ufo),
                *old(alien),
                *final(ufo),
                *final(alien),
            ),
            final(dot_map).grid() == collided_grid(
                old(self).pos.x as int,
                old(self).pos.y as int,
                *old(ufo),
                *old(alien),
                old(dot_map).grid(),
            ),
    {
        self.live = false;
        self.ban_fire_cnt = Some(15);
        self.explosion_effect_show = true;
        if self.pos.y < 16 {
            if ufo.explosion.show_cnt.is_none() {
                let award = ufo.hit_player_bullet(dot_map, self.fire_cnt);
                self.score = self.score + award;
            }
            self.explosion_effect_show = false;
        } else if self.pos.y <= alien.ref_alien_pos.y + 6 {
            let hit = alien.pos2index(self.pos);
            if let Some(i) = hit {
                self.score = self.score + Alien::index2score(i);
                alien.remove(dot_map, i);
                self.explosion_effect_show = false;
            }
        }
        let ex = clamp_i32(self.pos.x - 5, 0, 224 - self.explosion_sprite.len() as i32);
        let ey = clamp_i32(self.pos.y - 2, 0, 200);
        self.pos = Pos::new(ex, ey);
    }

    /// Launch the bullet from just above the cannon's muzzle and count the
    /// shot. The presentation layer plays the firing sound.
    fn fire(&mut self, x: i32, y: i32)
        requires
            old(self).wf(),
            old(self).ban_fire_cnt is None,
            old(self).fire_cnt < 0x7FFF_FFFF,
            0 <= x,
            x + 1 <= 224,
            0 <= y <= 200,
        ensures
            final(self).wf(),
            final(self).live == true || old(self).live,
            !old(self).live ==> {
                &&& final(self).live == true
                &&& final(self).pos.x == x
                &&& final(self).pos.y == y
                &&& final(self).fire_cnt == old(self).fire_cnt + 1
                &&& final(self).explosion_effect_show == false
                &&& final(self).ban_fire_cnt == old(self).ban_fire_cnt
                &&& final(self).score == old(self).score
                &&& final(self).sprite == old(self).sprite
                &&& final(self).explosion_sprite == old(self).explosion_sprite
            },
            old(self).live ==> *final(self) == *old(self),
    {
        if self.live {
            return;
        }
        self.pos = Pos::new(x, y);
        self.live = true;
        self.fire_cnt = self.fire_cnt + 1;
        self.explosion_effect_show = false;
    }

    /// End-of-tick redraw: run the firing-ban countdown, drawing or wiping
    /// the bullet's explosion effect with it, and draw the bullet if it is
    /// in flight.
    fn draw(&mut self, dot_map: &mut DotMap)
        requires
            old(self).wf(),
            old(dot_map).wf(),
        ensures
            final(self).wf(),
            final(dot_map).wf(),
            final(self).pos == old(self).pos,
            final(self).live == old(self).live,
            final(self).explosion_effect_show == old(self).explosion_effect_show,
            final(self).fire_cnt == old(self).fire_cnt,
            final(self).score == old(self).score,
            final(self).sprite == old(self).sprite,
            final(self).explosion_sprite == old(self).explosion_sprite,
            final(self).ban_fire_cnt == draw_ban_step(old(self).ban_fire_cnt),
            final(dot_map).grid() == draw_phase_grid(*old(self), old(dot_map).grid()),
    {
        if let Some(cnt) = self.ban_fire_cnt {
            if cnt < 0 {
                if self.explosion_effect_show {
                    erase_shifted(&mut dot_map.map, self.pos, &self.explosion_sprite);
                }
                self.ban_fire_cnt = None;
            } else {
                if self.explosion_effect_show {
                    array_shifted_sprite(&mut dot_map.map, self.pos, &self.explosion_sprite);
                }
                self.ban_fire_cnt = Some(cnt - 1);
            }
        }
        if !self.live {
            return;
        }
        array_shifted_sprite(&mut dot_map.map, self.pos, &self.sprite);
    }

    /// One tick of the player's bullet: move it and resolve what it hits,
    /// or launch it on request, grant the score bonus life, and redraw.
    pub fn update(
        &mut self,
        dot_map: &mut DotMap,
        player: &mut Player,
        ufo: &mut Ufo,
        alien: &mut Alien,
        fire: bool,
    )
        requires
            old(self).wf(),
            old(dot_map).wf(),
            old(player).wf(),
            old(ufo).wf(),
            old(alien).wf(),
            old(self).live ==> old(self).fire_cnt >= 1,
            old(self).fire_cnt < 0x7FFF_FFFF,
            old(self).score <= 0x7FFF_FC00,
            old(player).life < 0x7FFF_FFFF,
        ensures
            final(self).wf(),
            final(dot_map).wf(),
            final(player).wf(),
            final(ufo).wf(),
            final(alien).wf(),
            bullet_update_post(
                *old(self),
                *old(player),
                *old(ufo),
                *old(alien),
                old(dot_map).grid(),
                fire,
                *final(self),
                *final(player),
                *final(ufo),
                *final(alien),
                final(dot_map).grid(),
            ),
    {
        if self.live {
            erase_shifted(&mut dot_map.map, self.pos, &self.sprite);
            let ny = self.pos.y - PLAYER_BULLET_DELTA;
            if ny < 0 {
                self.pos = Pos::new(self.pos.x, 0);
                self.live = false;
                self.ban_fire_cnt = Some(15);
                self.explosion_effect_show = true;
                let half = (self.explosion_sprite.len() / 2) as i32;
                let ex = clamp_i32(self.pos.x - half, 0, 224 - self.explosion_sprite.len() as i32);
                self.pos = Pos::new(ex, 0);
            } else {
                self.pos = Pos::new(self.pos.x, ny);
                if collision(&dot_map.map, self.pos, &self.sprite) {
                    self.collided(dot_map, ufo, alien);
                }
            }
        } else {
            if self.ban_fire_cnt.is_none() && player.explosion_cnt.is_none() && fire {
                self.fire(player.pos.x + 7, player.pos.y - 8);
                if collision(&dot_map.map, self.pos, &self.sprite) {
                    self.collided(dot_map, ufo, alien);
                }
            }
        }
        if 1500 <= self.score && !player.life_up {
            player.life = player.life + 1;
            player.life_up = true;
        }
        self.draw(dot_map);
    }
}

} // verus!
