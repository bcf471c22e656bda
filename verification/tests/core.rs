use invader_core::array_sprite::{
    array_shifted_sprite, array_sprite, collision, erase, erase_shifted,
};
use invader_core::bottom_area::BottomArea;
use invader_core::dot_data;
use invader_core::dot_map::{set_color, Color, DotMap};
use invader_core::geom::Pos;
use invader_core::sprite::{check_shape, char_dot_data, ret_dot_data, DotShape};
use invader_core::top_area::TopArea;

fn digit_sprites() -> Vec<Vec<u8>> {
    let mut v = Vec::new();
    for d in 0..10u8 {
        v.push(vec![d; 8]);
    }
    v
}

#[test]
fn new_map_is_blank() {
    let m = DotMap::new();
    assert_eq!(m.map.len(), 26);
    for row in &m.map {
        assert_eq!(row.len(), 224);
        assert!(row.iter().all(|&b| b == 0));
    }
}

#[test]
fn horizon_line_sets_one_bit_per_column() {
    let mut m = DotMap::new();
    m.draw_holizon_line(207);
    for x in 0..224 {
        assert_eq!(m.map[25][x], 0b1000_0000);
    }
    for r in 0..25 {
        assert!(m.map[r].iter().all(|&b| b == 0));
    }
    m.all_clear();
    assert!(m.map[25].iter().all(|&b| b == 0));
}

#[test]
fn opaque_draw_and_erase() {
    let mut m = DotMap::new();
    let s = vec![0xAAu8, 0x55];
    array_sprite(&mut m.map, Pos::new(10, 16), &s);
    assert_eq!(m.map[2][10], 0xAA);
    assert_eq!(m.map[2][11], 0x55);
    erase(&mut m.map, Pos::new(10, 16), 2);
    assert_eq!(m.map[2][10], 0);
    assert_eq!(m.map[2][11], 0);
}

#[test]
fn shifted_draw_splits_across_rows() {
    let mut m = DotMap::new();
    let s = vec![0b1100_0011u8];
    array_shifted_sprite(&mut m.map, Pos::new(5, 21), &s);
    // offset 21 % 8 = 5: low bits land in row 2, the rest spill into row 3
    assert_eq!(m.map[2][5], 0b0110_0000);
    assert_eq!(m.map[3][5], 0b0001_1000);
}

#[test]
fn transparent_round_trip_restores_buffer() {
    let mut m = DotMap::new();
    m.draw_holizon_line(207);
    array_sprite(&mut m.map, Pos::new(40, 48), &vec![0x0F, 0xF0]);
    let before = m.map.clone();
    let s = vec![0b0011_1100u8, 0xFF];
    array_shifted_sprite(&mut m.map, Pos::new(100, 99), &s);
    assert_ne!(m.map, before);
    erase_shifted(&mut m.map, Pos::new(100, 99), &s);
    assert_eq!(m.map, before);
}

#[test]
fn collision_probe_sees_only_overlap() {
    let mut m = DotMap::new();
    let s = vec![0b0000_1111u8];
    assert!(!collision(&m.map, Pos::new(50, 60), &s));
    // one dot at (50, 63), inside the probe's span 60..=63
    array_shifted_sprite(&mut m.map, Pos::new(50, 63), &vec![0b0000_0001u8]);
    assert!(collision(&m.map, Pos::new(50, 60), &s));
    // a dot at (51, 60) is in another column: no hit
    let mut m2 = DotMap::new();
    array_shifted_sprite(&mut m2.map, Pos::new(51, 60), &vec![1u8]);
    assert!(!collision(&m2.map, Pos::new(50, 60), &s));
}

#[test]
fn color_table_values() {
    assert_eq!(set_color(Color::Red), [210, 0, 0, 255]);
    assert_eq!(set_color(Color::Turquoise), [68, 200, 210, 255]);
    assert_eq!(set_color(Color::Yellow), [220, 210, 30, 255]);
}

#[test]
fn convert_to_color_bytes_paints_set_and_clear_dots() {
    let mut m = DotMap::new();
    // dot at (0, 0): byte row 0, bit 0
    m.map[0][0] = 1;
    let rgba = m.convert_to_color_bytes(false);
    assert_eq!(rgba.len(), 208 * 224 * 4);
    // (0,0) is in the red band (char row 0)
    assert_eq!(&rgba[0..4], &[210, 0, 0, 255]);
    // its right neighbour is clear: black
    assert_eq!(&rgba[4..8], &[0, 0, 0, 255]);
    let red_all = m.convert_to_color_bytes(true);
    assert_eq!(&red_all[0..4], &[210, 0, 0, 255]);
}

#[test]
fn create_dot_map_rotates_columns() {
    let shape = ret_dot_data("bullet_player");
    assert!(check_shape(&shape));
    let bytes = shape.create_dot_map();
    // 1 column, dots in rows 4..8
    assert_eq!(bytes, vec![0b1111_0000]);
}

#[test]
fn create_dot_map_two_story_shape() {
    let shape = ret_dot_data("shield");
    assert!(check_shape(&shape));
    assert_eq!(shape.height, 16);
    let bytes = shape.create_dot_map();
    assert_eq!(bytes.len(), 44);
    // leftmost column: rows 4..8 drawn in the top half
    assert_eq!(bytes[0], 0b1111_0000);
    // leftmost column is fully drawn through the bottom half
    assert_eq!(bytes[22], 0b1111_1111);
}

#[test]
fn sprite_names_resolve() {
    for name in [
        "player",
        "bullet_player",
        "crab_down",
        "crab_banzai",
        "octopus_open",
        "octopus_close",
        "squid_open",
        "squid_close",
        "alien_explosion",
        "alien_bullet_explosion",
        "player_bullet_explosion",
        "shield",
        "ufo",
        "ufo_explosion",
        "player_explosion_1",
        "player_explosion_2",
    ] {
        let s = ret_dot_data(name);
        assert!(check_shape(&s), "bad shape for {}", name);
    }
    assert_eq!(ret_dot_data("player").width, 16);
    assert_eq!(ret_dot_data("ufo").width, 24);
}

#[test]
fn digit_glyphs_are_square() {
    let digits = char_dot_data();
    assert_eq!(digits.len(), 10);
    for d in &digits {
        assert!(check_shape(d));
        assert_eq!(d.width, 8);
        assert_eq!(d.height, 8);
    }
}

#[test]
fn check_shape_rejects_mismatched_dims() {
    let bad = DotShape { width: 3, height: 8, dot_map: vec![vec![true; 3]; 7] };
    assert!(!check_shape(&bad));
    let ragged = DotShape {
        width: 2,
        height: 2,
        dot_map: vec![vec![true, false], vec![true]],
    };
    assert!(!check_shape(&ragged));
}

#[test]
fn color_dot_map_encodes_foreground_and_background() {
    let shape = dot_data::DotShape {
        width: 2,
        height: 1,
        dot_map: vec![vec![true, false]],
    };
    let bytes = shape.create_color_dot_map();
    assert_eq!(bytes, vec![200, 200, 200, 255, 0, 0, 0, 0]);
}

#[test]
fn color_set_names_resolve() {
    for name in [
        "player",
        "bullet_player",
        "crab_down",
        "crab_banzai",
        "octopus_open",
        "octopus_close",
        "squid_open",
        "squid_close",
    ] {
        let s = dot_data::dot_data(name);
        assert!(s.width >= 1, "bad width for {}", name);
        assert_eq!(s.dot_map.len(), s.height as usize);
    }
}

#[test]
fn top_area_draws_five_digits() {
    let mut t = TopArea::new(digit_sprites());
    t.draw_score(12345);
    // digits live in byte row 3 (y = 24), 8 columns each from x = 24
    assert_eq!(t.top[3][24], 1);
    assert_eq!(t.top[3][32], 2);
    assert_eq!(t.top[3][40], 3);
    assert_eq!(t.top[3][48], 4);
    assert_eq!(t.top[3][56], 5);
    t.all_clear();
    assert!(t.top[3].iter().all(|&b| b == 0));
}

#[test]
fn bottom_area_shows_lives() {
    let mut b = BottomArea::new(digit_sprites(), vec![0xFFu8; 4]);
    b.draw(3);
    assert_eq!(b.bottom[0][8], 3);
    // two reserve icons of width 4 from x = 24
    for x in 24..32 {
        assert_eq!(b.bottom[0][x], 0xFF);
    }
    assert_eq!(b.bottom[0][32], 0);
}

#[test]
fn strip_conversion_tints_by_state() {
    let mut b = BottomArea::new(digit_sprites(), vec![0xFFu8; 4]);
    b.draw(3);
    let rgba = b.convert_to_color_bytes(false);
    assert_eq!(rgba.len(), 16 * 224 * 4);
    // the first icon dot at (24, 0) is turquoise
    let k = (0 * 224 + 24) * 4;
    assert_eq!(&rgba[k..k + 4], &[68, 200, 210, 255]);
    // while the player explodes everything lit turns red
    let red = b.convert_to_color_bytes(true);
    assert_eq!(&red[k..k + 4], &[210, 0, 0, 255]);
    // a clear dot stays black either way
    assert_eq!(&rgba[0..4], &[0, 0, 0, 255]);
}
