use invader_core::alien::{Alien, Bullet as EnemyBullet, BulletManage, BulletType};
use invader_core::dot_map::DotMap;
use invader_core::geom::Pos;
use invader_core::player::{Bullet, Player};
use invader_core::sprite::ret_dot_data;
use invader_core::ufo::Ufo;

fn make_alien() -> Alien {
    Alien::new(
        ret_dot_data("octopus_open").create_dot_map(),
        ret_dot_data("octopus_close").create_dot_map(),
        ret_dot_data("crab_banzai").create_dot_map(),
        ret_dot_data("crab_down").create_dot_map(),
        ret_dot_data("squid_open").create_dot_map(),
        ret_dot_data("squid_close").create_dot_map(),
        ret_dot_data("alien_explosion").create_dot_map(),
    )
}

fn make_player() -> Player {
    Player::new(
        ret_dot_data("player").create_dot_map(),
        ret_dot_data("player_explosion_1").create_dot_map(),
        ret_dot_data("player_explosion_2").create_dot_map(),
    )
}

fn make_player_bullet() -> Bullet {
    Bullet::new(
        ret_dot_data("bullet_player").create_dot_map(),
        ret_dot_data("player_bullet_explosion").create_dot_map(),
    )
}

fn make_ufo() -> Ufo {
    Ufo::new(
        ret_dot_data("ufo").create_dot_map(),
        ret_dot_data("ufo_explosion").create_dot_map(),
    )
}

#[test]
fn reset_places_formation_by_stage() {
    let mut a = make_alien();
    a.reset(1);
    assert_eq!((a.ref_alien_pos.x, a.ref_alien_pos.y), (24, 96));
    assert_eq!(a.live_num, 55);
    a.reset(2);
    assert_eq!(a.ref_alien_pos.y, 120);
    a.reset(3);
    assert_eq!(a.ref_alien_pos.y, 136);
    a.reset(10);
    // the stage table cycles every 8 stages
    assert_eq!(a.ref_alien_pos.y, 120);
}

#[test]
fn one_sweep_moves_anchor_exactly_once() {
    let mut a = make_alien();
    let mut m = DotMap::new();
    a.reset(1);
    let start = a.ref_alien_pos;
    let mut changes = 0;
    for i in 0..55 {
        let before = a.ref_alien_pos;
        a.update(&mut m, false);
        if a.ref_alien_pos != before {
            changes += 1;
            // only the last of the 55 ticks may move the anchor
            assert_eq!(i, 54);
        }
    }
    assert_eq!(changes, 1);
    // no live footprint touches the walls, so the delta stays horizontal
    assert_eq!((a.ref_alien_pos.x, a.ref_alien_pos.y), (start.x + 2, start.y));
}

#[test]
fn frozen_formation_does_not_move() {
    let mut a = make_alien();
    let mut m = DotMap::new();
    a.reset(1);
    let before = a.i_cursor_alien;
    a.update(&mut m, true);
    assert_eq!(a.i_cursor_alien, before);
    assert_eq!(a.live_num, 55);
}

#[test]
fn pos2index_resolves_live_slots_only() {
    let mut a = make_alien();
    let mut m = DotMap::new();
    a.reset(1);
    // the centre of slot 0 resolves to it
    assert_eq!(a.pos2index(Pos::new(24, 96)), Some(0));
    // left of referenceX - 2: no slot
    assert_eq!(a.pos2index(Pos::new(21, 96)), None);
    // right of the 11-column grid
    assert_eq!(a.pos2index(Pos::new(24 + 11 * 16, 96)), None);
    // above the 5-row grid
    assert_eq!(a.pos2index(Pos::new(24, 96 - 5 * 16)), None);
    // below the grid band
    assert_eq!(a.pos2index(Pos::new(24, 96 + 20)), None);
    // a slot in the top row
    assert_eq!(a.pos2index(Pos::new(24 + 16, 96 - 64)), Some(44 + 1));
    // after removal, the same point resolves to nothing
    a.remove(&mut m, 0);
    assert_eq!(a.live_num, 54);
    assert_eq!(a.pos2index(Pos::new(24, 96)), None);
}

#[test]
fn score_tiers_by_row_band() {
    assert_eq!(Alien::index2score(0), 10);
    assert_eq!(Alien::index2score(21), 10);
    assert_eq!(Alien::index2score(22), 20);
    assert_eq!(Alien::index2score(43), 20);
    assert_eq!(Alien::index2score(44), 30);
    assert_eq!(Alien::index2score(54), 30);
}

#[test]
fn invaded_at_player_height() {
    let mut a = make_alien();
    a.reset(1);
    assert!(!a.invaded());
    a.ref_alien_pos = Pos::new(24, 184);
    a.pre_ref_alien_pos = Pos::new(24, 184);
    assert!(a.invaded());
}

#[test]
fn bullet_beneath_bottom_row_member_scores_ten() {
    let mut m = DotMap::new();
    let mut a = make_alien();
    let mut p = make_player();
    let mut u = make_ufo();
    let mut b = make_player_bullet();
    a.reset(1);
    // draw slot 0 (the cursor slot) into the buffer
    a.update(&mut m, false);
    // stand the cannon so the muzzle is under slot 0's pixels
    p.pos = Pos::new(24, 184);
    p.pre_pos = Pos::new(24, 184);
    // tick 1 launches from (31, 176); each later tick climbs 4 dots
    b.update(&mut m, &mut p, &mut u, &mut a, true);
    assert!(b.live);
    assert_eq!((b.pos.x, b.pos.y), (31, 176));
    for _ in 0..19 {
        b.update(&mut m, &mut p, &mut u, &mut a, false);
        assert!(b.live);
    }
    // (startY - memberY) / bulletSpeed = (176 - 96) / 4 = 20 climbing ticks
    b.update(&mut m, &mut p, &mut u, &mut a, false);
    assert!(!b.live);
    assert_eq!(b.score, 10);
    assert_eq!(a.live_num, 54);
    assert!(!b.explosion_effect_show);
}

#[test]
fn ufo_awards_table_entry_for_each_shot_count() {
    let table = [
        50, 50, 100, 150, 100, 100, 50, 300, 100, 100, 100, 50, 150, 100, 100,
    ];
    for k in 1..=15i32 {
        let mut m = DotMap::new();
        let mut u = make_ufo();
        let award = u.hit_player_bullet(&mut m, k);
        assert_eq!(award, table[(k - 1) as usize % 15]);
        assert!(!u.live);
        assert_eq!(u.explosion.show_cnt, Some(20));
    }
}

#[test]
fn bullet_fizzles_at_top_of_screen() {
    let mut m = DotMap::new();
    let mut a = make_alien();
    let mut p = make_player();
    let mut u = make_ufo();
    let mut b = make_player_bullet();
    a.reset(1);
    b.live = true;
    b.fire_cnt = 1;
    b.pos = Pos::new(100, 2);
    b.update(&mut m, &mut p, &mut u, &mut a, false);
    assert!(!b.live);
    assert!(b.explosion_effect_show);
    assert_eq!(b.pos.y, 0);
    assert_eq!(b.ban_fire_cnt, Some(14));
}

#[test]
fn firing_gate_blocks_while_another_shot_is_fresh() {
    let mut m = DotMap::new();
    let mut a = make_alien();
    let mut p = make_player();
    a.reset(1);
    // player.x + referenceX = 8 + 24 = 32, and 32 % 3 = 2: the zigzag slot
    let mut bm = BulletManage::new(ret_dot_data("alien_bullet_explosion").create_dot_map());
    bm.rolling.live = true;
    bm.rolling.flying_cnt = 10;
    bm.rolling.pos = Pos::new(60, 60);
    bm.update(&mut m, &mut p, &a);
    assert!(!bm.squiggly.live, "launch must wait for the reload gate");
    bm.rolling.flying_cnt = 100;
    bm.update(&mut m, &mut p, &a);
    assert!(bm.squiggly.live);
    // the zigzag table starts at column 11, whose lowest member is slot 11;
    // the shot leaves (29, 96) and falls one dot in the same tick
    assert_eq!((bm.squiggly.pos.x, bm.squiggly.pos.y), (24 + 5, 80 + 16 + 1));
}

#[test]
fn ban_window_suppresses_fire_after_reset() {
    let mut m = DotMap::new();
    let mut a = make_alien();
    let mut p = make_player();
    a.reset(1);
    let mut bm = BulletManage::new(ret_dot_data("alien_bullet_explosion").create_dot_map());
    bm.reset();
    assert_eq!(bm.ban_fire_cnt, Some(120));
    bm.update(&mut m, &mut p, &a);
    assert!(!bm.rolling.live && !bm.plunger.live && !bm.squiggly.live);
    assert_eq!(bm.ban_fire_cnt, Some(119));
}

#[test]
fn waveform_periods_repeat() {
    let mut m = DotMap::new();
    let mut p = make_player();
    let expl = ret_dot_data("alien_bullet_explosion").create_dot_map();

    // zigzag: 4 phases of 3 dots each
    let mut b = EnemyBullet::new(BulletType::Squiggly, expl.clone());
    b.live = true;
    b.pos = Pos::new(50, 40);
    b.update(&mut m, &mut p);
    let s1 = (b.sprite0, b.sprite1, b.sprite2);
    for _ in 0..12 {
        b.update(&mut m, &mut p);
    }
    assert_eq!((b.sprite0, b.sprite1, b.sprite2), s1);

    // cross: 8 phases of 3 dots each
    let mut b = EnemyBullet::new(BulletType::Plunger, expl.clone());
    b.live = true;
    b.pos = Pos::new(50, 40);
    b.update(&mut m, &mut p);
    // y = 41, phase (41 % 24) / 3 = 5: crossbar at bit 2
    assert_eq!((b.sprite0, b.sprite1, b.sprite2), (4, 0xFF, 4));
    let s1 = (b.sprite0, b.sprite1, b.sprite2);
    for _ in 0..24 {
        b.update(&mut m, &mut p);
    }
    assert_eq!((b.sprite0, b.sprite1, b.sprite2), s1);

    // aimed: 20 phases of 3 dots each
    let mut b = EnemyBullet::new(BulletType::Rolling, expl);
    b.live = true;
    b.pos = Pos::new(50, 40);
    b.update(&mut m, &mut p);
    let s1 = (b.sprite0, b.sprite1, b.sprite2);
    for _ in 0..60 {
        b.update(&mut m, &mut p);
    }
    assert_eq!((b.sprite0, b.sprite1, b.sprite2), s1);
}

#[test]
fn enemy_shot_explodes_at_bottom_line() {
    let mut m = DotMap::new();
    let mut p = make_player();
    let mut b = EnemyBullet::new(
        BulletType::Squiggly,
        ret_dot_data("alien_bullet_explosion").create_dot_map(),
    );
    b.live = true;
    b.pos = Pos::new(100, 199);
    b.update(&mut m, &mut p);
    assert!(!b.live);
    assert_eq!(b.explosion_cnt, Some(15));
    assert_eq!((b.pos.x, b.pos.y), (97, 200));
}

#[test]
fn enemy_shot_destroys_cannon_in_its_lane() {
    let mut m = DotMap::new();
    let mut p = make_player();
    // put the cannon's pixels into the buffer
    p.update(&mut m, false, false);
    let mut b = EnemyBullet::new(
        BulletType::Plunger,
        ret_dot_data("alien_bullet_explosion").create_dot_map(),
    );
    b.live = true;
    // over the cannon: player spans x 8..24, rows 184..191
    b.pos = Pos::new(14, 178);
    b.update(&mut m, &mut p);
    assert!(!b.live);
    assert_eq!(p.explosion_cnt, Some(0));
}

#[test]
fn player_moves_within_walls() {
    let mut m = DotMap::new();
    let mut p = make_player();
    p.update(&mut m, true, false);
    assert_eq!(p.pos.x, 7);
    p.update(&mut m, true, false);
    assert_eq!(p.pos.x, 7);
    p.update(&mut m, false, true);
    assert_eq!(p.pos.x, 8);
    for _ in 0..300 {
        p.update(&mut m, false, true);
    }
    // width 16: the last step right is taken from x = 200
    assert_eq!(p.pos.x, 201);
}

#[test]
fn destroyed_cannon_redeploys_after_full_count() {
    let mut m = DotMap::new();
    let mut p = make_player();
    p.pos = Pos::new(100, 184);
    p.pre_pos = Pos::new(100, 184);
    p.remove(&mut m);
    assert_eq!(p.explosion_cnt, Some(0));
    for _ in 0..162 {
        p.update(&mut m, false, false);
    }
    assert_eq!(p.explosion_cnt, None);
    assert_eq!(p.pos.x, 8);
    assert_eq!(p.life, 2);
}

#[test]
fn bonus_life_granted_once_at_1500() {
    let mut m = DotMap::new();
    let mut a = make_alien();
    let mut p = make_player();
    let mut u = make_ufo();
    let mut b = make_player_bullet();
    a.reset(1);
    b.score = 1500;
    b.update(&mut m, &mut p, &mut u, &mut a, false);
    assert_eq!(p.life, 4);
    assert!(p.life_up);
    b.update(&mut m, &mut p, &mut u, &mut a, false);
    assert_eq!(p.life, 4);
}

#[test]
fn saucer_appears_by_shot_parity() {
    let mut m = DotMap::new();
    let mut u = make_ufo();
    u.update(&mut m, 2, true);
    assert!(u.live);
    assert_eq!(u.pos.x, 224 - 24 - 8);
    assert_eq!(u.move_dir, -1);

    let mut m2 = DotMap::new();
    let mut u2 = make_ufo();
    u2.update(&mut m2, 1, true);
    assert!(u2.live);
    assert_eq!(u2.pos.x, 8);
    assert_eq!(u2.move_dir, 1);

    // without the delay elapsed it stays hidden
    let mut m3 = DotMap::new();
    let mut u3 = make_ufo();
    u3.update(&mut m3, 1, false);
    assert!(!u3.live);
}

#[test]
fn saucer_vanishes_at_wall() {
    let mut m = DotMap::new();
    let mut u = make_ufo();
    u.update(&mut m, 1, true);
    assert!(u.live);
    // walk it into the right wall
    for _ in 0..300 {
        u.update(&mut m, 1, false);
    }
    assert!(!u.live);
    assert_eq!(u.move_dir, -1);
}

#[test]
fn live_count_never_increases() {
    let mut m = DotMap::new();
    let mut a = make_alien();
    a.reset(1);
    let mut last = a.live_num;
    for i in 0..200 {
        a.update(&mut m, false);
        if i % 30 == 7 && a.live_num > 0 {
            // knock out a live slot now and then
            let target = (0..55).find(|&k| a.live[k]).unwrap();
            a.remove(&mut m, target);
        }
        assert!(a.live_num <= last);
        last = a.live_num;
    }
}

#[test]
fn formation_turns_only_when_wall_is_touched() {
    let mut a = make_alien();
    let mut m = DotMap::new();
    a.reset(1);
    // something stands in the left turnaround column inside the checked band
    m.map[10][9] = 1;
    for _ in 0..55 {
        a.update(&mut m, false);
    }
    assert_eq!((a.move_delta.x, a.move_delta.y), (-2, 8));
    assert_eq!((a.ref_alien_pos.x, a.ref_alien_pos.y), (22, 104));
    // with the walls clear the next sweep keeps the heading and levels out
    m.map[10][9] = 0;
    for _ in 0..55 {
        a.update(&mut m, false);
    }
    assert_eq!((a.move_delta.x, a.move_delta.y), (-2, 0));
    assert_eq!((a.ref_alien_pos.x, a.ref_alien_pos.y), (20, 104));
}

#[test]
fn removal_leaves_a_fading_explosion() {
    let mut a = make_alien();
    let mut m = DotMap::new();
    a.reset(1);
    a.remove(&mut m, 0);
    assert_eq!(a.explosion.effect_cnt, Some(15));
    for _ in 0..17 {
        a.update(&mut m, false);
    }
    assert_eq!(a.explosion.effect_cnt, None);
}

#[test]
fn fizzled_bullet_effect_fades_and_clears() {
    let mut m = DotMap::new();
    let mut a = make_alien();
    let mut p = make_player();
    let mut u = make_ufo();
    let mut b = make_player_bullet();
    a.reset(1);
    b.live = true;
    b.fire_cnt = 1;
    b.pos = Pos::new(100, 2);
    // fizzle at the top, then let the ban count run out
    for _ in 0..17 {
        b.update(&mut m, &mut p, &mut u, &mut a, false);
    }
    assert_eq!(b.ban_fire_cnt, None);
    // the explosion effect has been wiped: the buffer is blank again
    assert!(m.map.iter().all(|row| row.iter().all(|&v| v == 0)));
}
