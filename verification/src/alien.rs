use crate::array_sprite::{
    array_shifted_sprite, array_sprite, collision, collision_spec, draw_opaque_spec,
    draw_shifted_spec, erase, erase_opaque_spec, erase_shifted, erase_shifted_spec, grid_get,
};
use crate::dot_map::DotMap;
use crate::player::Player;
use crate::geom::{clamp_i32, clamp_spec, Pos};
use vstd::prelude::*;

verus! {

// ---------------------------------------------------------------------------
// Live-slot counting.
// ---------------------------------------------------------------------------

pub open spec fn count_live(s: Seq<bool>) -> int
    decreases s.len(),
{
    if s.len() == 0 {
        0
    } else {
        count_live(s.drop_last()) + if s.last() {
            1int
        } else {
            0int
        }
    }
}

pub proof fn lemma_count_live_bounds(s: Seq<bool>)
    ensures
        0 <= count_live(s) <= s.len(),
    decreases s.len(),
{
    if s.len() > 0 {
        lemma_count_live_bounds(s.drop_last());
    }
}

pub proof fn lemma_count_live_push(s: Seq<bool>, v: bool)
    ensures
        count_live(s.push(v)) == count_live(s) + if v {
            1int
        } else {
            0int
        },
{
    assert(s.push(v).drop_last() =~= s);
}

pub proof fn lemma_count_live_update(s: Seq<bool>, i: int, v: bool)
    requires
        0 <= i < s.len(),
    ensures
        count_live(s.update(i, v)) == count_live(s) - (if s[i] {
            1int
        } else {
            0int
        }) + (if v {
            1int
        } else {
            0int
        }),
    decreases s.len(),
{
    if i == s.len() - 1 {
        assert(s.update(i, v).drop_last() =~= s.drop_last());
    } else {
        assert(s.update(i, v).drop_last() =~= s.drop_last().update(i, v));
        lemma_count_live_update(s.drop_last(), i, v);
    }
}

pub proof fn lemma_count_live_pos(s: Seq<bool>)
    requires
        count_live(s) > 0,
    ensures
        exists|i: int| 0 <= i < s.len() && s[i],
    decreases s.len(),
{
    if s.len() > 0 {
        if s.last() {
            assert(s[s.len() - 1]);
        } else {
            lemma_count_live_pos(s.drop_last());
            let i = choose|i: int| 0 <= i < s.drop_last().len() && s.drop_last()[i];
            assert(s[i]);
        }
    }
}

// ---------------------------------------------------------------------------
// Cursor scanning.
// ---------------------------------------------------------------------------

/// The first index at or after `from` whose slot is alive, or s.len() if
/// there is none.
pub open spec fn next_live_spec(s: Seq<bool>, from: int) -> int
    decreases s.len() - from,
{
    if from < 0 || from >= s.len() {
        s.len() as int
    } else if s[from] {
        from
    } else {
        next_live_spec(s, from + 1)
    }
}

pub proof fn lemma_next_live(s: Seq<bool>, from: int)
    requires
        0 <= from <= s.len(),
    ensures
        from <= next_live_spec(s, from) <= s.len(),
        next_live_spec(s, from) < s.len() ==> s[next_live_spec(s, from)],
        forall|j: int| from <= j < next_live_spec(s, from) ==> !s[j],
    decreases s.len() - from,
{
    if from < s.len() && !s[from] {
        lemma_next_live(s, from + 1);
    }
}

/// Scan for the first live slot at or after `from`.
fn next_live(live: &Vec<bool>, from: usize) -> (r: usize)
    requires
        live@.len() == 55,
        from <= 55,
    ensures
        r as int == next_live_spec(live@, from as int),
        r <= 55,
{
    let mut i: usize = from;
    while i < 55
        invariant
            from <= i <= 55,
            live@.len() == 55,
            next_live_spec(live@, from as int) == next_live_spec(live@, i as int),
        decreases 55 - i,
    {
        if live[i] {
            return i;
        }
        i += 1;
    }
    i
}

// ---------------------------------------------------------------------------
// Formation geometry.
// ---------------------------------------------------------------------------

/// Row band of a slot: bottom two rows are kind 0, middle two kind 1, the
/// top row kind 2.
pub open spec fn alien_kind(i: int) -> int {
    if i < 22 {
        0
    } else if i < 44 {
        1
    } else {
        2
    }
}

pub open spec fn index2score_spec(i: int) -> int {
    if alien_kind(i) == 0 {
        10
    } else if alien_kind(i) == 1 {
        20
    } else {
        30
    }
}

/// Something occupies one of the two turnaround wall columns in the band
/// between the saucer lane and the player lane.
pub open spec fn bump_side_spec(g: Seq<Seq<u8>>) -> bool {
    exists|r: int| 2 <= r < 23 && ((#[trigger] g[r])[9] != 0 || g[r][213] != 0)
}

/// Which slot, if any, a probe point resolves to: the point is measured
/// against the current reference anchor (shifted left 2 and down 4 dots to
/// compensate the draw inset), then mapped to a row and column of the 11x5
/// grid; the slot must exist and be alive.
pub open spec fn pos2index_xy_spec(rp: Pos, live: Seq<bool>, px: int, py0: int) -> Option<usize> {
    let rx = rp.x as int - 2;
    let ry = rp.y as int + 12;
    let py = py0 + 8;
    if px < rx {
        None
    } else {
        let d = ry - py;
        if d <= -16 {
            None
        } else {
            let row = if d < 0 {
                0int
            } else {
                d / 16
            };
            let col = (px - rx) / 16;
            if 11 <= col || 5 <= row {
                None
            } else {
                let idx = row * 11 + col;
                if live[idx] {
                    Some(idx as usize)
                } else {
                    None
                }
            }
        }
    }
}

pub open spec fn pos2index_spec(rp: Pos, live: Seq<bool>, p: Pos) -> Option<usize> {
    pos2index_xy_spec(rp, live, p.x as int, p.y as int)
}

// ---------------------------------------------------------------------------
// Explosion effect left behind by a removed formation member.
// ---------------------------------------------------------------------------

pub struct Explosion {
    pub pos: Pos,
    pub sprite: Vec<u8>,
    /// Some(remaining display count) while the effect is on screen.
    pub effect_cnt: Option<i32>,
}

impl Explosion {
    pub open spec fn wf(&self) -> bool {
        &&& 1 <= self.sprite@.len() <= 16
        &&& 0 <= self.pos.x
        &&& self.pos.x + self.sprite@.len() <= 224
        &&& 0 <= self.pos.y <= 207
        &&& match self.effect_cnt {
            Some(c) => -1 <= c <= 15,
            None => true,
        }
    }

    /// What one tick does to the grid: when the countdown has run out the
    /// effect's rectangle is cleared, otherwise the grid is untouched.
    pub open spec fn grid_step(self, g: Seq<Seq<u8>>) -> Seq<Seq<u8>> {
        match self.effect_cnt {
            Some(c) => if c < 0 {
                erase_opaque_spec(g, self.pos.x as int, self.pos.y as int, self.sprite@.len())
            } else {
                g
            },
            None => g,
        }
    }

    /// What one tick does to the countdown.
    pub open spec fn cnt_step(self) -> Option<i32> {
        match self.effect_cnt {
            Some(c) => if c < 0 {
                None
            } else {
                Some((c - 1) as i32)
            },
            None => None,
        }
    }

    /// Place the effect at `pos` and draw it.
    fn create_effect(&mut self, dot_map: &mut DotMap, pos: Pos)
        requires
            old(self).wf(),
            old(dot_map).wf(),
            0 <= pos.x,
            pos.x + old(self).sprite@.len() <= 224,
            0 <= pos.y <= 207,
        ensures
            final(self).wf(),
            final(dot_map).wf(),
            final(self).pos == pos,
            final(self).sprite == old(self).sprite,
            final(self).effect_cnt == Some(15i32),
            final(dot_map).grid() == draw_opaque_spec(
                old(dot_map).grid(),
                pos.x as int,
                pos.y as int,
                old(self).sprite@,
            ),
    {
        self.pos = pos;
        self.effect_cnt = Some(15);
        array_sprite(&mut dot_map.map, self.pos, &self.sprite);
    }

    /// Count the effect down one tick, clearing it when the count expires.
    fn update(&mut self, dot_map: &mut DotMap)
        requires
            old(self).wf(),
            old(dot_map).wf(),
        ensures
            final(self).wf(),
            final(dot_map).wf(),
            final(self).pos == old(self).pos,
            final(self).sprite == old(self).sprite,
            final(self).effect_cnt == old(self).cnt_step(),
            final(dot_map).grid() == old(self).grid_step(old(dot_map).grid()),
    {
        if let Some(cnt) = self.effect_cnt {
            if cnt < 0 {
                self.effect_cnt = None;
                erase(&mut dot_map.map, self.pos, self.sprite.len());
            } else {
                self.effect_cnt = Some(cnt - 1);
            }
        }
    }
}

// ---------------------------------------------------------------------------
// The 55-slot formation.
// ---------------------------------------------------------------------------

pub struct Alien {
    /// Anchor from which every slot position is derived.
    pub ref_alien_pos: Pos,
    /// The anchor's value before its latest move; slots the cursor has not
    /// visited yet in the current sweep still stand at this anchor.
    pub pre_ref_alien_pos: Pos,
    /// Which of the two sprite variants the current sweep draws.
    pub show_sprite: bool,
    /// Two sprites per row band: low 0/1, middle 2/3, high 4/5.
    pub sprite_list: Vec<Vec<u8>>,
    pub explosion: Explosion,
    /// The one slot redrawn this tick.
    pub i_cursor_alien: usize,
    /// Anchor displacement applied once per sweep.
    pub move_delta: Pos,
    pub live: Vec<bool>,
    pub live_num: i32,
    /// Anchor heights for stages after the first, cycled every 8 stages.
    pub table_init_pos_y: Vec<i32>,
}

impl Alien {
    pub open spec fn data_wf(&self) -> bool {
        &&& self.live@.len() == 55
        &&& self.live_num == count_live(self.live@)
        &&& self.i_cursor_alien < 55
        &&& self.sprite_list@.len() == 6
        &&& forall|k: int| 0 <= k < 6 ==> 1 <= (#[trigger] self.sprite_list@[k])@.len() <= 16
        &&& (self.move_delta.x == 2 || self.move_delta.x == -2)
        &&& (self.move_delta.y == 0 || self.move_delta.y == 8)
        &&& self.explosion.wf()
        &&& self.table_init_pos_y@.len() == 8
        &&& forall|k: int| 0 <= k < 8 ==> 64 <= #[trigger] self.table_init_pos_y@[k] <= 200
    }

    pub open spec fn pos_wf(&self) -> bool {
        &&& 0 <= self.ref_alien_pos.x <= 48
        &&& 64 <= self.ref_alien_pos.y <= 200
        &&& 0 <= self.pre_ref_alien_pos.x <= 48
        &&& 64 <= self.pre_ref_alien_pos.y <= 200
    }

    pub open spec fn wf(&self) -> bool {
        self.data_wf() && self.pos_wf()
    }

    /// The anchor that is authoritative for slot i this tick: slots at or
    /// before the cursor have been redrawn against the current anchor,
    /// later ones still stand at the previous one.
    pub open spec fn slot_anchor(self, i: int) -> Pos {
        if i <= self.i_cursor_alien {
            self.ref_alien_pos
        } else {
            self.pre_ref_alien_pos
        }
    }

    pub open spec fn slot_x(self, i: int) -> int {
        self.slot_anchor(i).x as int + 16 * (i % 11)
    }

    pub open spec fn slot_y(self, i: int) -> int {
        self.slot_anchor(i).y as int - 16 * (i / 11)
    }

    pub open spec fn pre_slot_x(self, i: int) -> int {
        self.pre_ref_alien_pos.x as int + 16 * (i % 11)
    }

    pub open spec fn pre_slot_y(self, i: int) -> int {
        self.pre_ref_alien_pos.y as int - 16 * (i / 11)
    }

    pub open spec fn cursor_sprite_idx(self) -> int {
        2 * alien_kind(self.i_cursor_alien as int) + if self.show_sprite {
            0int
        } else {
            1int
        }
    }

    pub open spec fn cursor_sprite_view(self) -> Seq<u8> {
        self.sprite_list@[self.cursor_sprite_idx()]@
    }

    pub fn new(
        low_sprite0: Vec<u8>,
        low_sprite1: Vec<u8>,
        middle_sprite0: Vec<u8>,
        middle_sprite1: Vec<u8>,
        high_sprite0: Vec<u8>,
        high_sprite1: Vec<u8>,
        explosion_sprite: Vec<u8>,
    ) -> (a: Alien)
        requires
            1 <= low_sprite0@.len() <= 16,
            1 <= low_sprite1@.len() <= 16,
            1 <= middle_sprite0@.len() <= 16,
            1 <= middle_sprite1@.len() <= 16,
            1 <= high_sprite0@.len() <= 16,
            1 <= high_sprite1@.len() <= 16,
            1 <= explosion_sprite@.len() <= 16,
        ensures
            a.data_wf(),
            a.sprite_list@.len() == 6,
            a.sprite_list@[0] == low_sprite0,
            a.sprite_list@[1] == low_sprite1,
            a.sprite_list@[2] == middle_sprite0,
            a.sprite_list@[3] == middle_sprite1,
            a.sprite_list@[4] == high_sprite0,
            a.sprite_list@[5] == high_sprite1,
            a.explosion.sprite == explosion_sprite,
            a.explosion.effect_cnt is None,
            a.live@ == Seq::new(55, |i: int| true),
            a.live_num == 55,
            a.i_cursor_alien == 0,
            a.show_sprite == true,
            a.move_delta.x == 2 && a.move_delta.y == 0,
            a.table_init_pos_y@ == seq![
                120i32,
                136i32,
                144i32,
                144i32,
                144i32,
                152i32,
                152i32,
                152i32,
            ],
    {
        let mut sprite_list: Vec<Vec<u8>> = Vec::new();
        sprite_list.push(low_sprite0);
        sprite_list.push(low_sprite1);
        sprite_list.push(middle_sprite0);
        sprite_list.push(middle_sprite1);
        sprite_list.push(high_sprite0);
        sprite_list.push(high_sprite1);
        let mut table_init_pos_y: Vec<i32> = Vec::new();
        table_init_pos_y.push(crate::canvas::DOT_HEIGHT - 88);
        table_init_pos_y.push(crate::canvas::DOT_HEIGHT - 72);
        table_init_pos_y.push(crate::canvas::DOT_HEIGHT - 64);
        table_init_pos_y.push(crate::canvas::DOT_HEIGHT - 64);
        table_init_pos_y.push(crate::canvas::DOT_HEIGHT - 64);
        table_init_pos_y.push(crate::canvas::DOT_HEIGHT - 56);
        table_init_pos_y.push(crate::canvas::DOT_HEIGHT - 56);
        table_init_pos_y.push(crate::canvas::DOT_HEIGHT - 56);
        assert(table_init_pos_y@ =~= seq![
            120i32,
            136i32,
            144i32,
            144i32,
            144i32,
            152i32,
            152i32,
            152i32,
        ]);
        let live = Alien::all_live();
        Alien {
            ref_alien_pos: Pos::new(0, 0),
            pre_ref_alien_pos: Pos::new(0, 0),
            show_sprite: true,
            sprite_list,
            explosion: Explosion {
                pos: Pos::new(0, 0),
                sprite: explosion_sprite,
                effect_cnt: None,
            },
            i_cursor_alien: 0,
            move_delta: Pos::new(2, 0),
            live,
            live_num: 55,
            table_init_pos_y,
        }
    }

    /// 55 live slots.
    fn all_live() -> (v: Vec<bool>)
        ensures
            v@ == Seq::new(55, |i: int| true),
            count_live(v@) == 55,
    {
        let mut v: Vec<bool> = Vec::new();
        let mut i: usize = 0;
        while i < 55
            invariant
                i <= 55,
                v@ == Seq::new(i as nat, |k: int| true),
                count_live(v@) == i,
        decreases 55 - i,
        {
            proof {
                lemma_count_live_push(v@, true);
            }
            v.push(true);
            assert(v@ =~= Seq::new(i as nat + 1, |k: int| true));
            i += 1;
        }
        v
    }

    /// Restore every slot, the cursor, the sweep delta and the anchor for
    /// the given stage (the anchor height cycles through a fixed table from
    /// stage 2 on).
    pub fn reset(&mut self, stage: usize)
        requires
            old(self).data_wf(),
        ensures
            final(self).wf(),
            final(self).live@ == Seq::new(55, |i: int| true),
            final(self).live_num == 55,
            final(self).show_sprite == true,
            final(self).i_cursor_alien == 0,
            final(self).move_delta.x == 2 && final(self).move_delta.y == 0,
            final(self).ref_alien_pos.x == 24,
            final(self).ref_alien_pos.y == if stage > 1 {
                old(self).table_init_pos_y@[((stage - 2) % 8) as int]
            } else {
                96i32
            },
            final(self).pre_ref_alien_pos == final(self).ref_alien_pos,
            final(self).sprite_list == old(self).sprite_list,
            final(self).explosion == old(self).explosion,
            final(self).table_init_pos_y == old(self).table_init_pos_y,
    {
        self.live = Alien::all_live();
        self.live_num = 55;
        self.show_sprite = true;
        self.i_cursor_alien = 0;
        self.move_delta = Pos::new(2, 0);
        let y = if stage > 1 {
            self.table_init_pos_y[(stage - 2) % 8]
        } else {
            crate::canvas::DOT_HEIGHT - 112
        };
        self.ref_alien_pos = Pos::new(24, y);
        self.pre_ref_alien_pos = self.ref_alien_pos;
    }

    /// Dot position of slot i, resolved against whichever anchor is
    /// authoritative for it this tick.
    pub fn index2pos(&self, i: usize) -> (r: Pos)
        requires
            self.pos_wf(),
            i < 55,
        ensures
            r.x as int == self.slot_x(i as int),
            r.y as int == self.slot_y(i as int),
    {
        let anchor = if i <= self.i_cursor_alien {
            self.ref_alien_pos
        } else {
            self.pre_ref_alien_pos
        };
        let dx = (i % 11) as i32;
        let dy = (i / 11) as i32;
        Pos::new(anchor.x + 16 * dx, anchor.y - 16 * dy)
    }

    /// Dot position of slot i against the previous anchor.
    fn index2pre_pos(&self, i: usize) -> (r: Pos)
        requires
            self.pos_wf(),
            i < 55,
        ensures
            r.x as int == self.pre_slot_x(i as int),
            r.y as int == self.pre_slot_y(i as int),
    {
        let dx = (i % 11) as i32;
        let dy = (i / 11) as i32;
        Pos::new(self.pre_ref_alien_pos.x + 16 * dx, self.pre_ref_alien_pos.y - 16 * dy)
    }

    /// Row band of a slot: 0 for the bottom two rows, 1 for the middle two,
    /// 2 for the top row.
    fn ret_alien_type(i: usize) -> (r: usize)
        requires
            i < 55,
        ensures
            r as int == alien_kind(i as int),
            r <= 2,
    {
        let row = i / 11;
        if row <= 1 {
            0
        } else if row <= 3 {
            1
        } else {
            2
        }
    }

    /// Score tier of a slot by row band: 10, 20 or 30 points.
    pub fn index2score(i: usize) -> (r: i32)
        requires
            i < 55,
        ensures
            r as int == index2score_spec(i as int),
    {
        let t = Alien::ret_alien_type(i);
        if t == 0 {
            10
        } else if t == 1 {
            20
        } else {
            30
        }
    }

    /// True when the cursor slot has advanced to the player's height.
    pub fn invaded(&self) -> (r: bool)
        requires
            self.pos_wf(),
            self.i_cursor_alien < 55,
        ensures
            r == (self.slot_y(self.i_cursor_alien as int) >= 184),
    {
        crate::canvas::DOT_HEIGHT - 24 <= self.index2pos(self.i_cursor_alien).y
    }

    /// True when anything occupies one of the two turnaround wall columns in
    /// the vertical band checked at sweep end.
    fn check_bump_side(&self, dot_map: &DotMap) -> (r: bool)
        requires
            dot_map.wf(),
        ensures
            r == bump_side_spec(dot_map.grid()),
    {
        let mut char_y: usize = 2;
        while char_y < 23
            invariant
                2 <= char_y <= 23,
                dot_map.wf(),
                forall|k: int|
                    2 <= k < char_y ==> ((#[trigger] dot_map.grid()[k])[9] == 0
                        && dot_map.grid()[k][213] == 0),
            decreases 23 - char_y,
        {
            if grid_get(&dot_map.map, char_y, 9) != 0 || grid_get(&dot_map.map, char_y, 213) != 0 {
                return true;
            }
            char_y += 1;
        }
        false
    }

    /// Mark slot i dead, clear its footprint, start the explosion effect at
    /// its position and decrement the live count.
    pub fn remove(&mut self, dot_map: &mut DotMap, i: usize)
        requires
            old(self).wf(),
            old(dot_map).wf(),
            i < 55,
            old(self).live@[i as int],
        ensures
            final(self).wf(),
            final(dot_map).wf(),
            final(self).live@ == old(self).live@.update(i as int, false),
            !final(self).live@[i as int],
            final(self).live_num == old(self).live_num - 1,
            final(self).live_num < old(self).live_num,
            final(self).ref_alien_pos == old(self).ref_alien_pos,
            final(self).pre_ref_alien_pos == old(self).pre_ref_alien_pos,
            final(self).i_cursor_alien == old(self).i_cursor_alien,
            final(self).show_sprite == old(self).show_sprite,
            final(self).move_delta == old(self).move_delta,
            final(self).sprite_list == old(self).sprite_list,
            final(self).table_init_pos_y == old(self).table_init_pos_y,
            final(self).explosion.effect_cnt == Some(15i32),
            final(self).explosion.pos.x as int == old(self).slot_x(i as int),
            final(self).explosion.pos.y as int == old(self).slot_y(i as int),
            final(self).explosion.sprite == old(self).explosion.sprite,
            final(dot_map).grid() == draw_opaque_spec(
                erase_opaque_spec(
                    old(dot_map).grid(),
                    old(self).slot_x(i as int),
                    old(self).slot_y(i as int),
                    old(self).sprite_list@[2 * alien_kind(i as int)]@.len(),
                ),
                old(self).slot_x(i as int),
                old(self).slot_y(i as int),
                old(self).explosion.sprite@,
            ),
    {
        proof {
            lemma_count_live_update(self.live@, i as int, false);
            lemma_count_live_bounds(self.live@.update(i as int, false));
        }
        self.live[i] = false;
        let width = self.sprite_list[Alien::ret_alien_type(i) * 2].len();
        let alien_pos = self.index2pos(i);
        erase(&mut dot_map.map, alien_pos, width);
        self.explosion.create_effect(dot_map, alien_pos);
        self.live_num = self.live_num - 1;
    }

    /// Which slot, if any, a probe point hits.
    pub fn pos2index(&self, pos: Pos) -> (r: Option<usize>)
        requires
            self.wf(),
        ensures
            r == pos2index_spec(self.ref_alien_pos, self.live@, pos),
    {
        let rx: i64 = self.ref_alien_pos.x as i64 - 2;
        let ry: i64 = self.ref_alien_pos.y as i64 + 12;
        let py: i64 = pos.y as i64 + 8;
        if (pos.x as i64) < rx {
            return None;
        }
        let d: i64 = ry - py;
        if d <= -16 {
            return None;
        }
        let row: u64 = if d < 0 {
            0
        } else {
            (d as u64) / 16
        };
        let col: u64 = ((pos.x as i64 - rx) as u64) / 16;
        if 11 <= col || 5 <= row {
            return None;
        }
        let idx: usize = (row * 11 + col) as usize;
        if self.live[idx] {
            Some(idx)
        } else {
            None
        }
    }

    /// First live slot of the column, scanning from the bottom row upward.
    pub(crate) fn column2index(&self, column: usize) -> (r: Option<usize>)
        requires
            self.live@.len() == 55,
        ensures
            r == column2index_spec(self.live@, column as int),
            r is Some ==> r.unwrap() < 55 && self.live@[r.unwrap() as int],
    {
        let mut i: usize = column;
        while i < 55
            invariant
                self.live@.len() == 55,
                column2index_spec(self.live@, column as int) == column2index_spec(
                    self.live@,
                    i as int,
                ),
            decreases 66 - i,
        {
            if self.live[i] {
                return Some(i);
            }
            i += 11;
        }
        None
    }

    /// Bottom-most live slot of the column nearest the given x position.
    pub(crate) fn alien_index_near_x(&self, pos_x: i32) -> (r: Option<usize>)
        requires
            self.wf(),
        ensures
            r == column2index_spec(
                self.live@,
                near_column_spec(self.ref_alien_pos.x as int, pos_x as int),
            ),
            r is Some ==> r.unwrap() < 55 && self.live@[r.unwrap() as int],
    {
        if pos_x < self.ref_alien_pos.x {
            return self.column2index(0);
        }
        let mut column = ((pos_x - self.ref_alien_pos.x) as usize) / 16;
        if column > 11 {
            column = 10;
        }
        self.column2index(column)
    }
}

/// First live slot at or below the given one, stepping a whole row (11
/// slots) at a time.
pub open spec fn column2index_spec(s: Seq<bool>, i: int) -> Option<usize>
    decreases 66 - i,
{
    if i < 0 || i >= 55 {
        None
    } else if s[i] {
        Some(i as usize)
    } else {
        column2index_spec(s, i + 11)
    }
}

/// The column whose slots stand nearest the given x position.
pub open spec fn near_column_spec(ref_x: int, px: int) -> int {
    if px < ref_x {
        0
    } else {
        let c = (px - ref_x) / 16;
        if c > 11 {
            10
        } else {
            c
        }
    }
}

impl Alien {
    /// Full effect of one unfrozen tick: the grid after erase, redraw and
    /// explosion step, and the formation state after the cursor advances --
    /// including the turn taken at sweep end.
    pub open spec fn update_post(
        a: Alien,
        g0: Seq<Seq<u8>>,
        player_exploding: bool,
        a2: Alien,
        g2: Seq<Seq<u8>>,
    ) -> bool {
        if player_exploding || a.live_num <= 0 {
            a2 == a && g2 == g0
        } else {
            let cur = a.i_cursor_alien as int;
            let s = a.cursor_sprite_view();
            let ga = erase_opaque_spec(g0, a.pre_slot_x(cur), a.pre_slot_y(cur), s.len());
            let gb = draw_opaque_spec(ga, a.slot_x(cur), a.slot_y(cur), s);
            let gc = a.explosion.grid_step(gb);
            let n1 = next_live_spec(a.live@, cur + 1);
            &&& g2 == gc
            &&& a2.live@ == a.live@
            &&& a2.live_num == a.live_num
            &&& a2.sprite_list == a.sprite_list
            &&& a2.table_init_pos_y == a.table_init_pos_y
            &&& a2.explosion.pos == a.explosion.pos
            &&& a2.explosion.sprite == a.explosion.sprite
            &&& a2.explosion.effect_cnt == a.explosion.cnt_step()
            &&& if n1 < 55 {
                &&& a2.i_cursor_alien == n1
                &&& a2.show_sprite == a.show_sprite
                &&& a2.move_delta == a.move_delta
                &&& a2.ref_alien_pos == a.ref_alien_pos
                &&& a2.pre_ref_alien_pos == a.pre_ref_alien_pos
            } else {
                let bump = bump_side_spec(gc);
                &&& a2.i_cursor_alien == next_live_spec(a.live@, 0)
                &&& a2.show_sprite == !a.show_sprite
                &&& a2.pre_ref_alien_pos == a.ref_alien_pos
                &&& a2.move_delta.x as int == if bump {
                    -(a.move_delta.x as int)
                } else {
                    a.move_delta.x as int
                }
                &&& a2.move_delta.y as int == if bump {
                    8int
                } else {
                    0int
                }
                &&& a2.ref_alien_pos.x as int == clamp_spec(
                    a.ref_alien_pos.x + a2.move_delta.x,
                    0,
                    48,
                )
                &&& a2.ref_alien_pos.y as int == clamp_spec(
                    a.ref_alien_pos.y + a2.move_delta.y,
                    64,
                    200,
                )
            }
        }
    }

    /// One tick of the formation. Frozen entirely while the player explodes
    /// or once every slot is dead; otherwise the cursor slot is erased at
    /// its pre-move position and redrawn at its post-move one, the explosion
    /// effect counts down, and the cursor advances to the next live slot.
    /// When the sweep wraps, the formation turns at the walls (inverting the
    /// horizontal delta and stepping down) or zeroes its vertical delta,
    /// toggles the sprite variant, snapshots the anchor and moves it.
    pub fn update(&mut self, dot_map: &mut DotMap, player_exploding: bool)
        requires
            old(self).wf(),
            old(dot_map).wf(),
        ensures
            final(self).wf(),
            final(dot_map).wf(),
            final(self).live@ == old(self).live@,
            final(self).live_num == old(self).live_num,
            Alien::update_post(
                *old(self),
                old(dot_map).grid(),
                player_exploding,
                *final(self),
                final(dot_map).grid(),
            ),
    {
        if player_exploding {
            return;
        }
        if self.live_num <= 0 {
            return;
        }
        let cur = self.i_cursor_alien;
        let k = Alien::ret_alien_type(cur) * 2 + if self.show_sprite {
            0
        } else {
            1
        };
        let pre_pos = self.index2pre_pos(cur);
        let w = self.sprite_list[k].len();
        erase(&mut dot_map.map, pre_pos, w);
        let cur_pos = self.index2pos(cur);
        array_sprite(&mut dot_map.map, cur_pos, &self.sprite_list[k]);
        self.explosion.update(dot_map);
        let n1 = next_live(&self.live, cur + 1);
        if n1 < 55 {
            self.i_cursor_alien = n1;
            return;
        }
        let n0 = next_live(&self.live, 0);
        proof {
            lemma_next_live(self.live@, 0);
            if n0 == 55 {
                lemma_count_live_pos(self.live@);
                let j = choose|j: int| 0 <= j < 55 && self.live@[j];
                assert(false);
            }
        }
        self.i_cursor_alien = n0;
        let bump = self.check_bump_side(dot_map);
        if bump {
            self.move_delta = Pos::new(-self.move_delta.x, 8);
        } else {
            self.move_delta = Pos::new(self.move_delta.x, 0);
        }
        self.show_sprite = !self.show_sprite;
        self.pre_ref_alien_pos = self.ref_alien_pos;
        let nx = clamp_i32(self.ref_alien_pos.x + self.move_delta.x, 0, 48);
        let ny = clamp_i32(self.ref_alien_pos.y + self.move_delta.y, 64, 200);
        self.ref_alien_pos = Pos::new(nx, ny);
    }
}

/// A probe point left of the reference line, or outside the 11x5 grid in
/// any direction, resolves to no slot; a hit implies the slot was alive.
pub proof fn lemma_pos2index_rules(rp: Pos, live: Seq<bool>, p: Pos)
    requires
        live.len() == 55,
    ensures
        (p.x as int) < rp.x as int - 2 ==> pos2index_spec(rp, live, p) is None,
        p.x as int - (rp.x as int - 2) >= 176 ==> pos2index_spec(rp, live, p) is None,
        rp.y as int + 4 - p.y as int >= 80 ==> pos2index_spec(rp, live, p) is None,
        p.y as int > rp.y as int + 19 ==> pos2index_spec(rp, live, p) is None,
        pos2index_spec(rp, live, p) is Some ==> {
            let i = pos2index_spec(rp, live, p).unwrap();
            i < 55 && live[i as int]
        },
{
}

/// Once a slot dies, any probe point that resolved to it resolves to
/// nothing.
pub proof fn lemma_remove_unresolves(rp: Pos, live: Seq<bool>, i: int, p: Pos)
    requires
        0 <= i < 55,
        live.len() == 55,
        pos2index_spec(rp, live, p) == Some(i as usize),
    ensures
        pos2index_spec(rp, live.update(i, false), p) is None,
{
}

/// The turn rule at sweep end: when the cursor wraps, the horizontal delta
/// inverts exactly when something stands in a turnaround wall column (and
/// the formation steps down by 8); otherwise the horizontal delta is kept
/// and the vertical delta resets to zero.
pub proof fn lemma_bounce_rule(a: Alien, g0: Seq<Seq<u8>>, a2: Alien, g2: Seq<Seq<u8>>)
    requires
        a.wf(),
        a.live_num > 0,
        next_live_spec(a.live@, a.i_cursor_alien as int + 1) >= 55,
        Alien::update_post(a, g0, false, a2, g2),
    ensures
        a2.move_delta.x == -a.move_delta.x <==> bump_side_spec(g2),
        !bump_side_spec(g2) ==> a2.move_delta.x == a.move_delta.x && a2.move_delta.y == 0,
        bump_side_spec(g2) ==> a2.move_delta.y == 8,
{
    assert(a.move_delta.x == 2 || a.move_delta.x == -2);
}


// ---------------------------------------------------------------------------
// Enemy bullets: three patterned shots and their director.
// ---------------------------------------------------------------------------

#[derive(Clone, Copy, PartialEq, Eq, Structural, Debug)]
pub enum BulletType {
    /// Zigzag pattern.
    Squiggly,
    /// Cross (piston) pattern.
    Plunger,
    /// The shot aimed at the player.
    Rolling,
}

/// The rolling pattern: a constant centre bar with a slash sweeping down
/// for the first 8 of 20 phases and a backslash for the last 8; one phase
/// per 3 dots of vertical motion.
pub open spec fn rolling_sprite_spec(y: int) -> (u8, u8, u8) {
    let i = (y % 60) / 3;
    (
        if i < 8 {
            0x90u8 >> i
        } else if 12 <= i {
            0x48u8 >> (i - 12)
        } else {
            0u8
        },
        0xffu8,
        if i < 8 {
            0x48u8 >> i
        } else if 12 <= i {
            0x90u8 >> (i - 12)
        } else {
            0u8
        },
    )
}

/// The plunger pattern: a centre bar crossed by one row that climbs through
/// 8 phases; one phase per 3 dots of vertical motion.
pub open spec fn plunger_sprite_spec(y: int) -> (u8, u8, u8) {
    let i = (y % 24) / 3;
    (1u8 << (7 - i), 0xffu8, 1u8 << (7 - i))
}

pub open spec fn squiggly_col(i: int) -> int {
    if i == 0 {
        2
    } else if i == 1 {
        1
    } else if i == 2 {
        0
    } else {
        1
    }
}

pub open spec fn squiggly_build(c0: u8, c1: u8, c2: u8, i: int, yy: int) -> (u8, u8, u8)
    decreases 8 - yy,
{
    if yy >= 8 {
        (c0, c1, c2)
    } else {
        if squiggly_col(i) == 0 {
            squiggly_build(c0 | (1u8 << yy), c1, c2, (i + 1) % 4, yy + 1)
        } else if squiggly_col(i) == 1 {
            squiggly_build(c0, c1 | (1u8 << yy), c2, (i + 1) % 4, yy + 1)
        } else {
            squiggly_build(c0, c1, c2 | (1u8 << yy), (i + 1) % 4, yy + 1)
        }
    }
}

/// The squiggly pattern: a diagonal snaking across the three columns with
/// 4 phases; one phase per 3 dots of vertical motion.
pub open spec fn squiggly_sprite_spec(y: int) -> (u8, u8, u8) {
    squiggly_build(0, 0, 0, (y % 12) / 3, 1)
}

pub open spec fn waveform_sprite(t: BulletType, y: int) -> (u8, u8, u8) {
    match t {
        BulletType::Rolling => rolling_sprite_spec(y),
        BulletType::Plunger => plunger_sprite_spec(y),
        BulletType::Squiggly => squiggly_sprite_spec(y),
    }
}

/// Waveform periods: the rolling shot cycles through 20 phases, the
/// plunger through 8 and the squiggly through 4, each phase lasting 3 dots
/// of vertical motion, so the rendered pattern repeats every 3*20, 3*8 and
/// 3*4 dots of Y respectively.
pub proof fn lemma_waveform_periods(y: int)
    ensures
        rolling_sprite_spec(y + 60) == rolling_sprite_spec(y),
        plunger_sprite_spec(y + 24) == plunger_sprite_spec(y),
        squiggly_sprite_spec(y + 12) == squiggly_sprite_spec(y),
{
    vstd::arithmetic::div_mod::lemma_mod_add_multiples_vanish(y, 60);
    vstd::arithmetic::div_mod::lemma_mod_add_multiples_vanish(y, 24);
    vstd::arithmetic::div_mod::lemma_mod_add_multiples_vanish(y, 12);
}

/// One enemy shot. Its three sprite columns are recomputed from its
/// absolute Y every tick it flies.
pub struct Bullet {
    pub pos: Pos,
    pub btype: BulletType,
    pub live: bool,
    /// Ticks since launch (capped far above any reachable flight time).
    pub flying_cnt: i32,
    /// Dots moved down per tick.
    pub speed: i32,
    /// Some(remaining display count) while the explosion effect shows.
    pub explosion_cnt: Option<i32>,
    pub sprite0: u8,
    pub sprite1: u8,
    pub sprite2: u8,
    pub explosion_sprite: Vec<u8>,
}

pub open spec fn ebullet_sprite_view(b: Bullet) -> Seq<u8> {
    seq![b.sprite0, b.sprite1, b.sprite2]
}

impl Bullet {
    pub open spec fn wf(&self) -> bool {
        &&& 3 <= self.explosion_sprite@.len() <= 8
        &&& 0 <= self.pos.x
        &&& self.pos.x + 3 <= 224
        &&& 0 <= self.pos.y <= 200
        &&& (self.explosion_cnt is Some ==> self.pos.x + self.explosion_sprite@.len() <= 224)
        &&& !(self.live && self.explosion_cnt is Some)
        &&& 1 <= self.speed <= 8
        &&& 0 <= self.flying_cnt <= 1000
        &&& match self.explosion_cnt {
            Some(c) => -1 <= c <= 15,
            None => true,
        }
    }

    pub fn new(btype: BulletType, explosion_sprite: Vec<u8>) -> (b: Bullet)
        requires
            3 <= explosion_sprite@.len() <= 8,
        ensures
            b.wf(),
            b.btype == btype,
            b.live == false,
            b.flying_cnt == 0,
            b.speed == 1,
            b.explosion_cnt is None,
            b.pos.x == 0 && b.pos.y == 0,
            b.sprite0 == 0 && b.sprite1 == 0 && b.sprite2 == 0,
            b.explosion_sprite == explosion_sprite,
    {
        Bullet {
            btype,
            pos: Pos::new(0, 0),
            live: false,
            flying_cnt: 0,
            speed: 1,
            explosion_cnt: None,
            sprite0: 0,
            sprite1: 0,
            sprite2: 0,
            explosion_sprite,
        }
    }

    /// The bullet's current three sprite columns as a vector.
    fn sprite_vec(&self) -> (r: Vec<u8>)
        ensures
            r@ == ebullet_sprite_view(*self),
    {
        let mut r: Vec<u8> = Vec::new();
        r.push(self.sprite0);
        r.push(self.sprite1);
        r.push(self.sprite2);
        assert(r@ =~= ebullet_sprite_view(*self));
        r
    }

    /// Launch from just below the given formation slot position.
    fn fire(&mut self, alien_pos: Pos, speed: i32)
        requires
            old(self).wf(),
            0 <= alien_pos.x <= 208,
            0 <= alien_pos.y <= 200,
            1 <= speed <= 8,
            !old(self).live,
            old(self).explosion_cnt is None,
        ensures
            final(self).wf(),
            *final(self) == fired(*old(self), alien_pos, speed),
    {
        self.pos = Pos::new(alien_pos.x + 5, clamp_i32(alien_pos.y + 16, 0, 200));
        self.live = true;
        self.flying_cnt = 0;
        self.speed = speed;
    }

    fn update_rolling_sprite(&mut self, pos_y: i32)
        requires
            pos_y >= 0,
        ensures
            (final(self).sprite0, final(self).sprite1, final(self).sprite2)
                == rolling_sprite_spec(pos_y as int),
            *final(self) == (Bullet {
                sprite0: final(self).sprite0,
                sprite1: final(self).sprite1,
                sprite2: final(self).sprite2,
                ..*old(self)
            }),
    {
        self.sprite0 = 0;
        self.sprite1 = 0xff;
        self.sprite2 = 0;
        let i: usize = ((pos_y as usize) % 60) / 3;
        if i < 8 {
            self.sprite0 = 0x90u8 >> i;
            self.sprite2 = 0x48u8 >> i;
        } else if 12 <= i {
            self.sprite0 = 0x48u8 >> (i - 12);
            self.sprite2 = 0x90u8 >> (i - 12);
        }
    }

    fn update_plunger_sprite(&mut self, pos_y: i32)
        requires
            pos_y >= 0,
        ensures
            (final(self).sprite0, final(self).sprite1, final(self).sprite2)
                == plunger_sprite_spec(pos_y as int),
            *final(self) == (Bullet {
                sprite0: final(self).sprite0,
                sprite1: final(self).sprite1,
                sprite2: final(self).sprite2,
                ..*old(self)
            }),
    {
        self.sprite1 = 0xff;
        let i: usize = ((pos_y as usize) % 24) / 3;
        self.sprite0 = 1u8 << (7 - i);
        self.sprite2 = 1u8 << (7 - i);
    }

    fn update_squiggly_sprite(&mut self, pos_y: i32)
        requires
            pos_y >= 0,
        ensures
            (final(self).sprite0, final(self).sprite1, final(self).sprite2)
                == squiggly_sprite_spec(pos_y as int),
            *final(self) == (Bullet {
                sprite0: final(self).sprite0,
                sprite1: final(self).sprite1,
                sprite2: final(self).sprite2,
                ..*old(self)
            }),
    {
        let mut c0: u8 = 0;
        let mut c1: u8 = 0;
        let mut c2: u8 = 0;
        let mut i: usize = ((pos_y as usize) % 12) / 3;
        let ghost i0 = i as int;
        let mut yy: usize = 1;
        while yy < 8
            invariant
                1 <= yy <= 8,
                i < 4,
                squiggly_build(c0, c1, c2, i as int, yy as int) == squiggly_build(
                    0,
                    0,
                    0,
                    i0,
                    1,
                ),
            decreases 8 - yy,
        {
            if i == 2 {
                c0 = c0 | (1u8 << yy);
            } else if i == 1 || i == 3 {
                c1 = c1 | (1u8 << yy);
            } else {
                c2 = c2 | (1u8 << yy);
            }
            i = (i + 1) % 4;
            yy += 1;
        }
        self.sprite0 = c0;
        self.sprite1 = c1;
        self.sprite2 = c2;
        assert((pos_y as int % 12) / 3 == i0);
    }

    /// Show the explosion effect in place of the bullet.
    fn create_explosion_effect(&mut self, dot_map: &mut DotMap)
        requires
            old(dot_map).wf(),
            3 <= old(self).explosion_sprite@.len() <= 8,
            0 <= old(self).pos.x,
            old(self).pos.x + old(self).explosion_sprite@.len() <= 224,
            0 <= old(self).pos.y <= 200,
        ensures
            final(dot_map).wf(),
            final(self).live == false,
            final(self).explosion_cnt == Some(15i32),
            *final(self) == (Bullet { live: false, explosion_cnt: Some(15i32), ..*old(self) }),
            final(dot_map).grid() == draw_shifted_spec(
                old(dot_map).grid(),
                old(self).pos.x as int,
                old(self).pos.y as int,
                old(self).explosion_sprite@,
            ),
    {
        self.live = false;
        self.explosion_cnt = Some(15);
        array_shifted_sprite(&mut dot_map.map, self.pos, &self.explosion_sprite);
    }

    /// One tick of this shot: count the explosion effect down while dormant;
    /// in flight, wipe the old footprint, fall, recompute the waveform,
    /// explode at the bottom line, or explode on contact (destroying the
    /// cannon when the contact is at its lane and it is not already down).
    pub fn update(&mut self, dot_map: &mut DotMap, player: &mut Player)
        requires
            old(self).wf(),
            old(dot_map).wf(),
            old(player).wf(),
        ensures
            final(self).wf(),
            final(dot_map).wf(),
            final(player).wf(),
            (*final(self), *final(player), final(dot_map).grid()) == ebullet_step(
                *old(self),
                *old(player),
                old(dot_map).grid(),
            ),
    {
        if self.live {
            if self.flying_cnt < 1000 {
                self.flying_cnt = self.flying_cnt + 1;
            }
        } else {
            if let Some(cnt) = self.explosion_cnt {
                if cnt < 0 {
                    erase_shifted(&mut dot_map.map, self.pos, &self.explosion_sprite);
                    self.explosion_cnt = None;
                } else {
                    self.explosion_cnt = Some(cnt - 1);
                }
            }
            return;
        }
        let s = self.sprite_vec();
        erase_shifted(&mut dot_map.map, self.pos, &s);
        let y1 = self.pos.y + self.speed;
        self.pos = Pos::new(self.pos.x, y1);
        match self.btype {
            BulletType::Squiggly => self.update_squiggly_sprite(y1),
            BulletType::Plunger => self.update_plunger_sprite(y1),
            BulletType::Rolling => self.update_rolling_sprite(y1),
        }
        if 200 <= y1 {
            let ex = clamp_i32(self.pos.x - 3, 0, 224 - self.explosion_sprite.len() as i32);
            self.pos = Pos::new(ex, 200);
            self.create_explosion_effect(dot_map);
            return;
        }
        let s1 = self.sprite_vec();
        if collision(&dot_map.map, self.pos, &s1) {
            if 184 < y1 + 8 && y1 < 192 {
                if player.explosion_cnt.is_none() {
                    player.remove(dot_map);
                }
            }
            let ex = clamp_i32(self.pos.x - 3, 0, 224 - self.explosion_sprite.len() as i32);
            let ey = clamp_i32(y1 + 3, 0, 200);
            self.pos = Pos::new(ex, ey);
            self.create_explosion_effect(dot_map);
            return;
        }
    }
}

/// The bullet as launched from a formation slot: just below it, alive,
/// with its flight clock restarted.
pub open spec fn fired(b: Bullet, alien_pos: Pos, speed: i32) -> Bullet {
    Bullet {
        pos: Pos {
            x: (alien_pos.x + 5) as i32,
            y: clamp_spec(alien_pos.y + 16, 0, 200) as i32,
        },
        live: true,
        flying_cnt: 0,
        speed,
        ..b
    }
}

/// Everything one tick does to one enemy shot, the cannon and the grid.
pub open spec fn ebullet_step(b: Bullet, p: Player, g: Seq<Seq<u8>>) -> (
    Bullet,
    Player,
    Seq<Seq<u8>>,
) {
    if !b.live {
        match b.explosion_cnt {
            Some(c) => if c < 0 {
                (
                    Bullet { explosion_cnt: None, ..b },
                    p,
                    erase_shifted_spec(g, b.pos.x as int, b.pos.y as int, b.explosion_sprite@),
                )
            } else {
                (Bullet { explosion_cnt: Some((c - 1) as i32), ..b }, p, g)
            },
            None => (b, p, g),
        }
    } else {
        let fc: i32 = if b.flying_cnt < 1000 {
            (b.flying_cnt + 1) as i32
        } else {
            b.flying_cnt
        };
        let ge = erase_shifted_spec(g, b.pos.x as int, b.pos.y as int, ebullet_sprite_view(b));
        let y1 = b.pos.y as int + b.speed as int;
        let w = waveform_sprite(b.btype, y1);
        let bm = Bullet { flying_cnt: fc, sprite0: w.0, sprite1: w.1, sprite2: w.2, ..b };
        if 200 <= y1 {
            let ex = clamp_spec(b.pos.x - 3, 0, 224 - b.explosion_sprite@.len());
            (
                Bullet {
                    pos: Pos { x: ex as i32, y: 200i32 },
                    live: false,
                    explosion_cnt: Some(15i32),
                    ..bm
                },
                p,
                draw_shifted_spec(ge, ex, 200, b.explosion_sprite@),
            )
        } else {
            if collision_spec(ge, b.pos.x as int, y1, seq![w.0, w.1, w.2]) {
                let hit_player = 184 < y1 + 8 && y1 < 192 && p.explosion_cnt is None;
                let p2 = if hit_player {
                    Player { explosion_cnt: Some(0i32), ..p }
                } else {
                    p
                };
                let gp = if hit_player {
                    erase_opaque_spec(ge, p.pos.x as int, 184, p.explosion_sprite0@.len())
                } else {
                    ge
                };
                let ex = clamp_spec(b.pos.x - 3, 0, 224 - b.explosion_sprite@.len());
                let ey = clamp_spec(y1 + 3, 0, 200);
                (
                    Bullet {
                        pos: Pos { x: ex as i32, y: ey as i32 },
                        live: false,
                        explosion_cnt: Some(15i32),
                        ..bm
                    },
                    p2,
                    draw_shifted_spec(gp, ex, ey, b.explosion_sprite@),
                )
            } else {
                (Bullet { pos: Pos { x: b.pos.x, y: y1 as i32 }, ..bm }, p, ge)
            }
        }
    }
}

/// The end-of-tick redraw of one enemy shot: only a shot in flight is
/// drawn.
pub open spec fn ebullet_draw(b: Bullet, g: Seq<Seq<u8>>) -> Seq<Seq<u8>> {
    if b.live && b.explosion_cnt is None {
        draw_shifted_spec(g, b.pos.x as int, b.pos.y as int, ebullet_sprite_view(b))
    } else {
        g
    }
}

/// A cyclic table of target columns.
pub struct TableManage {
    /// Index of the next value to hand out.
    pub i: usize,
    pub table: Vec<usize>,
}

impl TableManage {
    pub open spec fn wf(&self) -> bool {
        &&& 1 <= self.table@.len()
        &&& self.i < self.table@.len()
    }

    /// Hand out the next value of the table, cycling.
    fn take(&mut self) -> (r: usize)
        requires
            old(self).wf(),
        ensures
            final(self).wf(),
            r == old(self).table@[old(self).i as int],
            final(self).table == old(self).table,
            final(self).i as int == (old(self).i + 1) % (old(self).table@.len() as int),
    {
        let value = self.table[self.i];
        proof {
            if self.i + 1 < self.table@.len() {
                vstd::arithmetic::div_mod::lemma_small_mod(
                    (self.i + 1) as nat,
                    self.table@.len() as nat,
                );
            } else {
                vstd::arithmetic::div_mod::lemma_mod_self_0(self.table@.len() as int);
            }
        }
        self.i = if self.table.len() <= self.i + 1 {
            0
        } else {
            self.i + 1
        };
        value
    }
}

/// The director of the three enemy shots.
pub struct BulletManage {
    /// The aimed shot.
    pub rolling: Bullet,
    /// The cross-pattern shot.
    pub plunger: Bullet,
    /// The zigzag shot.
    pub squiggly: Bullet,
    pub plunger_shot_column_table: TableManage,
    pub squiggly_shot_column_table: TableManage,
    /// Minimum flight time of the other shots before a type may launch.
    pub reload_cnt: i32,
    pub speed: i32,
    /// Some(remaining ticks) while all firing is suppressed.
    pub ban_fire_cnt: Option<i32>,
}

/// Which shot type attempts to fire this tick, from the player and anchor
/// positions.
pub open spec fn seed_of(px: int, rx: int) -> int {
    let s = px + rx;
    (if s < 0 {
        -s
    } else {
        s
    }) % 3
}

/// A shot does not block another's launch: it is off screen, or has flown
/// longer than the reload threshold.
pub open spec fn reload_ok(b: Bullet, reload: int) -> bool {
    !b.live || reload < b.flying_cnt
}

/// A shot slot that is free to launch: neither flying nor exploding.
pub open spec fn dormant(b: Bullet) -> bool {
    !b.live && b.explosion_cnt is None
}

pub open spec fn slot_pos(a: Alien, i: int) -> Pos {
    Pos { x: a.slot_x(i) as i32, y: a.slot_y(i) as i32 }
}

pub open spec fn table_advanced(t: TableManage) -> TableManage {
    TableManage { i: ((t.i + 1) % (t.table@.len() as int)) as usize, table: t.table }
}

/// The launch decision: the seed picks one shot type; it launches only if
/// its slot is dormant and both other types pass the reload gate, from the
/// column its targeting rule picks -- the aimed shot from the live column
/// nearest the player, the other two from their cyclic tables (whose
/// cursor advances whether or not a live target exists).
pub open spec fn which_fire_step(m: BulletManage, p: Player, a: Alien) -> BulletManage {
    let seed = seed_of(p.pos.x as int, a.ref_alien_pos.x as int);
    let reload = m.reload_cnt as int;
    if seed == 0 {
        if dormant(m.rolling) && reload_ok(m.plunger, reload) && reload_ok(m.squiggly, reload) {
            let c = column2index_spec(
                a.live@,
                near_column_spec(a.ref_alien_pos.x as int, p.pos.x as int),
            );
            if c is Some {
                BulletManage {
                    rolling: fired(m.rolling, slot_pos(a, c.unwrap() as int), m.speed),
                    ..m
                }
            } else {
                m
            }
        } else {
            m
        }
    } else if seed == 1 {
        if dormant(m.plunger) && reload_ok(m.rolling, reload) && reload_ok(m.squiggly, reload) {
            let t = m.plunger_shot_column_table;
            let m1 = BulletManage { plunger_shot_column_table: table_advanced(t), ..m };
            let c = column2index_spec(a.live@, t.table@[t.i as int] as int);
            if c is Some {
                BulletManage {
                    plunger: fired(m.plunger, slot_pos(a, c.unwrap() as int), m.speed),
                    ..m1
                }
            } else {
                m1
            }
        } else {
            m
        }
    } else {
        if dormant(m.squiggly) && reload_ok(m.rolling, reload) && reload_ok(m.plunger, reload) {
            let t = m.squiggly_shot_column_table;
            let m1 = BulletManage { squiggly_shot_column_table: table_advanced(t), ..m };
            let c = column2index_spec(a.live@, t.table@[t.i as int] as int);
            if c is Some {
                BulletManage {
                    squiggly: fired(m.squiggly, slot_pos(a, c.unwrap() as int), m.speed),
                    ..m1
                }
            } else {
                m1
            }
        } else {
            m
        }
    }
}

/// The ban countdown and launch decision that open one director tick:
/// while the ban runs it only counts down; a downed cannon renews the ban;
/// otherwise one shot type attempts to launch.
pub open spec fn manage_fire_phase(m: BulletManage, p: Player, a: Alien) -> BulletManage {
    match m.ban_fire_cnt {
        Some(c) => BulletManage {
            ban_fire_cnt: if c < 0 {
                None
            } else {
                Some((c - 1) as i32)
            },
            ..m
        },
        None => match p.explosion_cnt {
            Some(c) => BulletManage { ban_fire_cnt: Some((c + 80) as i32), ..m },
            None => which_fire_step(m, p, a),
        },
    }
}

/// A shot type cannot begin flight while another type is airborne within
/// the reload threshold: if the launch decision puts a shot in the air,
/// both other types were off screen or past the threshold.
pub proof fn lemma_fire_gate(m: BulletManage, p: Player, a: Alien)
    ensures
        ({
            let m2 = which_fire_step(m, p, a);
            let reload = m.reload_cnt as int;
            &&& (!m.rolling.live && m2.rolling.live) ==> reload_ok(m.plunger, reload)
                && reload_ok(m.squiggly, reload)
            &&& (!m.plunger.live && m2.plunger.live) ==> reload_ok(m.rolling, reload)
                && reload_ok(m.squiggly, reload)
            &&& (!m.squiggly.live && m2.squiggly.live) ==> reload_ok(m.rolling, reload)
                && reload_ok(m.plunger, reload)
        }),
{
}

impl BulletManage {
    pub open spec fn wf(&self) -> bool {
        &&& self.rolling.wf() && self.rolling.btype == BulletType::Rolling
        &&& self.plunger.wf() && self.plunger.btype == BulletType::Plunger
        &&& self.squiggly.wf() && self.squiggly.btype == BulletType::Squiggly
        &&& self.plunger_shot_column_table.wf()
        &&& self.squiggly_shot_column_table.wf()
        &&& self.reload_cnt == 72
        &&& 1 <= self.speed <= 8
        &&& match self.ban_fire_cnt {
            Some(c) => -1 <= c <= 400,
            None => true,
        }
    }

    pub fn new(explosion_sprite: Vec<u8>) -> (m: BulletManage)
        requires
            3 <= explosion_sprite@.len() <= 8,
        ensures
            m.wf(),
            m.ban_fire_cnt is None,
            m.speed == 1,
            m.reload_cnt == 72,
            dormant(m.rolling) && dormant(m.plunger) && dormant(m.squiggly),
            m.rolling.explosion_sprite@ == explosion_sprite@,
            m.plunger.explosion_sprite@ == explosion_sprite@,
            m.squiggly.explosion_sprite@ == explosion_sprite@,
            m.plunger_shot_column_table.i == 0,
            m.plunger_shot_column_table.table@ == seq![
                1usize,
                7,
                1,
                1,
                1,
                4,
                11,
                1,
                6,
                3,
                1,
                1,
                11,
                9,
                2,
                8,
            ],
            m.squiggly_shot_column_table.i == 0,
            m.squiggly_shot_column_table.table@ == seq![
                11usize,
                1,
                6,
                3,
                1,
                1,
                11,
                9,
                2,
                8,
                2,
                11,
                4,
                7,
                10,
            ],
    {
        let e0 = copy_bytes(&explosion_sprite);
        let e1 = copy_bytes(&explosion_sprite);
        let mut pt: Vec<usize> = Vec::new();
        pt.push(1);
        pt.push(7);
        pt.push(1);
        pt.push(1);
        pt.push(1);
        pt.push(4);
        pt.push(11);
        pt.push(1);
        pt.push(6);
        pt.push(3);
        pt.push(1);
        pt.push(1);
        pt.push(11);
        pt.push(9);
        pt.push(2);
        pt.push(8);
        assert(pt@ =~= seq![1usize, 7, 1, 1, 1, 4, 11, 1, 6, 3, 1, 1, 11, 9, 2, 8]);
        let mut st: Vec<usize> = Vec::new();
        st.push(11);
        st.push(1);
        st.push(6);
        st.push(3);
        st.push(1);
        st.push(1);
        st.push(11);
        st.push(9);
        st.push(2);
        st.push(8);
        st.push(2);
        st.push(11);
        st.push(4);
        st.push(7);
        st.push(10);
        assert(st@ =~= seq![11usize, 1, 6, 3, 1, 1, 11, 9, 2, 8, 2, 11, 4, 7, 10]);
        BulletManage {
            rolling: Bullet::new(BulletType::Rolling, e0),
            plunger: Bullet::new(BulletType::Plunger, e1),
            squiggly: Bullet::new(BulletType::Squiggly, explosion_sprite),
            plunger_shot_column_table: TableManage { i: 0, table: pt },
            squiggly_shot_column_table: TableManage { i: 0, table: st },
            reload_cnt: 72,
            speed: 1,
            ban_fire_cnt: None,
        }
    }

    /// Stage reset: take every shot off screen and suppress firing for a
    /// fixed opening period.
    pub fn reset(&mut self)
        requires
            old(self).wf(),
        ensures
            final(self).wf(),
            final(self).ban_fire_cnt == Some(120i32),
            final(self).rolling == (Bullet { live: false, ..old(self).rolling }),
            final(self).plunger == (Bullet { live: false, ..old(self).plunger }),
            final(self).squiggly == (Bullet { live: false, ..old(self).squiggly }),
            final(self).plunger_shot_column_table == old(self).plunger_shot_column_table,
            final(self).squiggly_shot_column_table == old(self).squiggly_shot_column_table,
            final(self).reload_cnt == old(self).reload_cnt,
            final(self).speed == old(self).speed,
    {
        self.ban_fire_cnt = Some(120);
        self.rolling.live = false;
        self.plunger.live = false;
        self.squiggly.live = false;
    }

    /// Decide which shot type fires this tick and launch it if its
    /// targeting rule finds a live column.
    fn which_fire(&mut self, player: &Player, alien: &Alien)
        requires
            old(self).wf(),
            player.wf(),
            alien.wf(),
        ensures
            final(self).wf(),
            *final(self) == which_fire_step(*old(self), *player, *alien),
    {
        let sum: i64 = player.pos.x as i64 + alien.ref_alien_pos.x as i64;
        let mag: i64 = if sum < 0 {
            -sum
        } else {
            sum
        };
        let seed: u64 = (mag as u64) % 3;
        if seed == 0 {
            if !self.rolling.live && self.rolling.explosion_cnt.is_none() {
                if (!self.plunger.live || self.reload_cnt < self.plunger.flying_cnt)
                    && (!self.squiggly.live || self.reload_cnt < self.squiggly.flying_cnt) {
                    if let Some(i) = alien.alien_index_near_x(player.pos.x) {
                        let target = alien.index2pos(i);
                        self.rolling.fire(target, self.speed);
                    }
                }
            }
        } else if seed == 1 {
            if !self.plunger.live && self.plunger.explosion_cnt.is_none() {
                if (!self.rolling.live || self.reload_cnt < self.rolling.flying_cnt)
                    && (!self.squiggly.live || self.reload_cnt < self.squiggly.flying_cnt) {
                    let col = self.plunger_shot_column_table.take();
                    if let Some(i) = alien.column2index(col) {
                        let target = alien.index2pos(i);
                        self.plunger.fire(target, self.speed);
                    }
                }
            }
        } else {
            if !self.squiggly.live && self.squiggly.explosion_cnt.is_none() {
                if (!self.rolling.live || self.reload_cnt < self.rolling.flying_cnt)
                    && (!self.plunger.live || self.reload_cnt < self.plunger.flying_cnt) {
                    let col = self.squiggly_shot_column_table.take();
                    if let Some(i) = alien.column2index(col) {
                        let target = alien.index2pos(i);
                        self.squiggly.fire(target, self.speed);
                    }
                }
            }
        }
    }

    /// One tick of the director: run the ban countdown (renewed while the
    /// cannon is down), otherwise let one shot type attempt to launch; then
    /// step each of the three shots and redraw those in flight.
    pub fn update(&mut self, dot_map: &mut DotMap, player: &mut Player, alien: &Alien)
        requires
            old(self).wf(),
            old(dot_map).wf(),
            old(player).wf(),
            alien.wf(),
        ensures
            final(self).wf(),
            final(dot_map).wf(),
            final(player).wf(),
            ({
                let m1 = manage_fire_phase(*old(self), *old(player), *alien);
                let s0 = ebullet_step(m1.rolling, *old(player), old(dot_map).grid());
                let s1 = ebullet_step(m1.plunger, s0.1, s0.2);
                let s2 = ebullet_step(m1.squiggly, s1.1, s1.2);
                let g4 = ebullet_draw(s0.0, s2.2);
                let g5 = ebullet_draw(s1.0, g4);
                let g6 = ebullet_draw(s2.0, g5);
                &&& final(self).rolling == s0.0
                &&& final(self).plunger == s1.0
                &&& final(self).squiggly == s2.0
                &&& final(self).ban_fire_cnt == m1.ban_fire_cnt
                &&& final(self).plunger_shot_column_table == m1.plunger_shot_column_table
                &&& final(self).squiggly_shot_column_table == m1.squiggly_shot_column_table
                &&& final(self).reload_cnt == old(self).reload_cnt
                &&& final(self).speed == old(self).speed
                &&& *final(player) == s2.1
                &&& final(dot_map).grid() == g6
            }),
    {
        if let Some(cnt) = self.ban_fire_cnt {
            if cnt < 0 {
                self.ban_fire_cnt = None;
            } else {
                self.ban_fire_cnt = Some(cnt - 1);
            }
        } else {
            if let Some(cnt) = player.explosion_cnt {
                self.ban_fire_cnt = Some(cnt + 80);
            } else {
                self.which_fire(player, alien);
            }
        }
        self.rolling.update(dot_map, player);
        self.plunger.update(dot_map, player);
        self.squiggly.update(dot_map, player);
        self.draw(dot_map);
    }

    /// Draw each shot that is in flight.
    fn draw(&self, dot_map: &mut DotMap)
        requires
            self.wf(),
            old(dot_map).wf(),
        ensures
            final(dot_map).wf(),
            final(dot_map).grid() == ebullet_draw(
                self.squiggly,
                ebullet_draw(self.plunger, ebullet_draw(self.rolling, old(dot_map).grid())),
            ),
    {
        if self.rolling.live && self.rolling.explosion_cnt.is_none() {
            let s = self.rolling.sprite_vec();
            array_shifted_sprite(&mut dot_map.map, self.rolling.pos, &s);
        }
        if self.plunger.live && self.plunger.explosion_cnt.is_none() {
            let s = self.plunger.sprite_vec();
            array_shifted_sprite(&mut dot_map.map, self.plunger.pos, &s);
        }
        if self.squiggly.live && self.squiggly.explosion_cnt.is_none() {
            let s = self.squiggly.sprite_vec();
            array_shifted_sprite(&mut dot_map.map, self.squiggly.pos, &s);
        }
    }
}

/// A verified byte-for-byte copy.
fn copy_bytes(v: &Vec<u8>) -> (r: Vec<u8>)
    ensures
        r@ == v@,
{
    let mut r: Vec<u8> = Vec::new();
    let mut i: usize = 0;
    while i < v.len()
        invariant
            i <= v@.len(),
            r@ == v@.take(i as int),
        decreases v@.len() - i,
    {
        r.push(v[i]);
        assert(r@ =~= v@.take(i as int + 1));
        i += 1;
    }
    assert(v@.take(v@.len() as int) =~= v@);
    r
}

} // verus!
