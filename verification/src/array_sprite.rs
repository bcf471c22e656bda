use crate::geom::Pos;
use vstd::prelude::*;

verus! {

// Sprite compositing primitives over a byte grid. A grid is a sequence of
// byte rows; bit b of a byte is the dot at vertical position row*8 + b, so a
// byte holds 8 vertically stacked dots. A sprite is one byte per column.
//
// Two families of operations exist: opaque ones, which overwrite whole byte
// rows and are meant for entities aligned to 8-dot rows, and shifted
// ("transparent") ones, which OR/AND bit masks at an arbitrary vertical
// offset, splitting each sprite column across two adjacent byte rows.

/// Row `row` with bytes x..x+masks.len() OR-ed with `masks`.
pub open spec fn or_row(row: Seq<u8>, x: int, masks: Seq<u8>) -> Seq<u8> {
    Seq::new(
        row.len(),
        |j: int|
            if x <= j < x + masks.len() {
                row[j] | masks[j - x]
            } else {
                row[j]
            },
    )
}

/// Row `row` with bytes x..x+masks.len() AND-ed with `masks`.
pub open spec fn and_row(row: Seq<u8>, x: int, masks: Seq<u8>) -> Seq<u8> {
    Seq::new(
        row.len(),
        |j: int|
            if x <= j < x + masks.len() {
                row[j] & masks[j - x]
            } else {
                row[j]
            },
    )
}

/// Row `row` with bytes x..x+vals.len() overwritten by `vals`.
pub open spec fn put_row(row: Seq<u8>, x: int, vals: Seq<u8>) -> Seq<u8> {
    Seq::new(
        row.len(),
        |j: int|
            if x <= j < x + vals.len() {
                vals[j - x]
            } else {
                row[j]
            },
    )
}

/// Each sprite column shifted down by `off` bits within its byte.
pub open spec fn shl_masks(s: Seq<u8>, off: u8) -> Seq<u8> {
    Seq::new(s.len(), |i: int| s[i] << off)
}

/// The part of each sprite column that spills into the next byte row.
pub open spec fn shr_masks(s: Seq<u8>, k: u8) -> Seq<u8> {
    Seq::new(s.len(), |i: int| s[i] >> k)
}

/// Bitwise complement of each mask; AND-ing with these clears the sprite's
/// own bits and leaves everything else alone.
pub open spec fn not_masks(s: Seq<u8>) -> Seq<u8> {
    Seq::new(s.len(), |i: int| !s[i])
}

pub open spec fn zero_masks(w: nat) -> Seq<u8> {
    Seq::new(w, |i: int| 0u8)
}

/// An opaque blit of width `w` at column `x` into byte row `cy` stays inside
/// the grid.
pub open spec fn opaque_fits(g: Seq<Seq<u8>>, x: int, cy: int, w: int) -> bool {
    &&& 0 <= x
    &&& 0 <= cy < g.len()
    &&& x + w <= g[cy].len()
}

/// A shifted blit at dot position (x, y) stays inside the grid; when y is not
/// row-aligned the spill row below must exist too.
pub open spec fn shifted_fits(g: Seq<Seq<u8>>, x: int, y: int, w: int) -> bool {
    &&& 0 <= x
    &&& 0 <= y
    &&& y / 8 < g.len()
    &&& x + w <= g[y / 8].len()
    &&& y % 8 != 0 ==> y / 8 + 1 < g.len() && x + w <= g[y / 8 + 1].len()
}

/// Overwrite byte row y/8 with the sprite bytes (opaque draw).
pub open spec fn draw_opaque_spec(g: Seq<Seq<u8>>, x: int, y: int, s: Seq<u8>) -> Seq<Seq<u8>> {
    g.update(y / 8, put_row(g[y / 8], x, s))
}

/// Zero a w-byte stretch of byte row y/8 (opaque erase).
pub open spec fn erase_opaque_spec(g: Seq<Seq<u8>>, x: int, y: int, w: nat) -> Seq<Seq<u8>> {
    g.update(y / 8, put_row(g[y / 8], x, zero_masks(w)))
}

/// OR the sprite in at dot position (x, y), splitting each column across byte
/// rows y/8 and y/8 + 1 when y is not row-aligned (transparent draw).
pub open spec fn draw_shifted_spec(g: Seq<Seq<u8>>, x: int, y: int, s: Seq<u8>) -> Seq<Seq<u8>> {
    let cy = y / 8;
    let off = (y % 8) as u8;
    let g1 = g.update(cy, or_row(g[cy], x, shl_masks(s, off)));
    if off == 0 {
        g1
    } else {
        g1.update(cy + 1, or_row(g1[cy + 1], x, shr_masks(s, (8 - off) as u8)))
    }
}

/// AND the complemented sprite masks in at dot position (x, y), clearing only
/// the sprite's own footprint (transparent erase).
pub open spec fn erase_shifted_spec(g: Seq<Seq<u8>>, x: int, y: int, s: Seq<u8>) -> Seq<Seq<u8>> {
    let cy = y / 8;
    let off = (y % 8) as u8;
    let g1 = g.update(cy, and_row(g[cy], x, not_masks(shl_masks(s, off))));
    if off == 0 {
        g1
    } else {
        g1.update(cy + 1, and_row(g1[cy + 1], x, not_masks(shr_masks(s, (8 - off) as u8))))
    }
}

/// Some byte of the row already has a bit where a mask has one.
pub open spec fn hit_in_row(row: Seq<u8>, x: int, masks: Seq<u8>) -> bool {
    exists|i: int| 0 <= i < masks.len() && #[trigger] (row[x + i] & masks[i]) != 0
}

/// The sprite, placed at (x, y), overlaps an occupied dot of the grid.
pub open spec fn collision_spec(g: Seq<Seq<u8>>, x: int, y: int, s: Seq<u8>) -> bool {
    let cy = y / 8;
    let off = (y % 8) as u8;
    ||| hit_in_row(g[cy], x, shl_masks(s, off))
    ||| (off != 0 && hit_in_row(g[cy + 1], x, shr_masks(s, (8 - off) as u8)))
}

/// The deep view of a byte grid is its sequence of row views.
pub proof fn lemma_grid_views(g: Vec<Vec<u8>>)
    ensures
        g.deep_view().len() == g@.len(),
        forall|j: int| 0 <= j < g@.len() ==> #[trigger] g.deep_view()[j] == g@[j]@,
{
    assert forall|j: int| 0 <= j < g@.len() implies #[trigger] g.deep_view()[j] == g@[j]@ by {
        assert(g.deep_view()[j] =~= g@[j]@);
    }
}

/// Read one byte of the grid, specified against the grid's deep view.
pub(crate) fn grid_get(g: &Vec<Vec<u8>>, cy: usize, x: usize) -> (b: u8)
    requires
        cy < g.deep_view().len(),
        x < g.deep_view()[cy as int].len(),
    ensures
        b == g.deep_view()[cy as int][x as int],
{
    let b = g[cy][x];
    assert(g.deep_view()[cy as int] =~= g@[cy as int]@);
    b
}

/// Write one byte of the grid, specified against the grid's deep view.
pub(crate) fn grid_set(g: &mut Vec<Vec<u8>>, cy: usize, x: usize, v: u8)
    requires
        cy < old(g).deep_view().len(),
        x < old(g).deep_view()[cy as int].len(),
    ensures
        final(g).deep_view() == old(g).deep_view().update(
            cy as int,
            old(g).deep_view()[cy as int].update(x as int, v),
        ),
{
    assert(g.deep_view()[cy as int] =~= g@[cy as int]@);
    g[cy][x] = v;
    assert(g.deep_view() =~~= old(g).deep_view().update(
        cy as int,
        old(g).deep_view()[cy as int].update(x as int, v),
    ));
}

/// Draw the sprite opaquely: byte row pos.y/8 is overwritten with the sprite
/// bytes at columns pos.x..pos.x+s.len(). Valid for row-aligned entities.
pub fn array_sprite(g: &mut Vec<Vec<u8>>, pos: Pos, s: &Vec<u8>)
    requires
        pos.y >= 0,
        opaque_fits(old(g).deep_view(), pos.x as int, pos.y as int / 8, s@.len() as int),
    ensures
        final(g).deep_view() == draw_opaque_spec(
            old(g).deep_view(),
            pos.x as int,
            pos.y as int,
            s@,
        ),
{
    let xu = pos.x as usize;
    let cy = (pos.y as usize) / 8;
    let ghost g0 = g.deep_view();
    let rl: usize = g[cy].len();
    assert(rl == g0[cy as int].len()) by {
        assert(g.deep_view()[cy as int] =~= g@[cy as int]@);
    }
    let mut i: usize = 0;
    assert(g.deep_view() =~~= g0.update(cy as int, put_row(g0[cy as int], xu as int, s@.take(0))));
    while i < s.len()
        invariant
            i <= s@.len(),
            xu == pos.x,
            pos.y >= 0,
            cy == pos.y as int / 8,
            opaque_fits(g0, xu as int, cy as int, s@.len() as int),
            rl == g0[cy as int].len(),
            g.deep_view() == g0.update(
                cy as int,
                put_row(g0[cy as int], xu as int, s@.take(i as int)),
            ),
        decreases s@.len() - i,
    {
        grid_set(g, cy, xu + i, s[i]);
        proof {
            assert(g.deep_view() =~~= g0.update(
                cy as int,
                put_row(g0[cy as int], xu as int, s@.take(i as int + 1)),
            ));
        }
        i += 1;
    }
    assert(s@.take(s@.len() as int) =~= s@);
}

/// Erase a w-byte-wide, one-byte-row-tall rectangle at pos (opaque erase).
pub fn erase(g: &mut Vec<Vec<u8>>, pos: Pos, w: usize)
    requires
        pos.y >= 0,
        opaque_fits(old(g).deep_view(), pos.x as int, pos.y as int / 8, w as int),
    ensures
        final(g).deep_view() == erase_opaque_spec(
            old(g).deep_view(),
            pos.x as int,
            pos.y as int,
            w as nat,
        ),
{
    let xu = pos.x as usize;
    let cy = (pos.y as usize) / 8;
    let ghost g0 = g.deep_view();
    let rl: usize = g[cy].len();
    assert(rl == g0[cy as int].len()) by {
        assert(g.deep_view()[cy as int] =~= g@[cy as int]@);
    }
    let mut i: usize = 0;
    assert(g.deep_view() =~~= g0.update(
        cy as int,
        put_row(g0[cy as int], xu as int, zero_masks(0)),
    ));
    while i < w
        invariant
            i <= w,
            xu == pos.x,
            pos.y >= 0,
            cy == pos.y as int / 8,
            opaque_fits(g0, xu as int, cy as int, w as int),
            rl == g0[cy as int].len(),
            g.deep_view() == g0.update(
                cy as int,
                put_row(g0[cy as int], xu as int, zero_masks(i as nat)),
            ),
        decreases w - i,
    {
        grid_set(g, cy, xu + i, 0);
        proof {
            assert(g.deep_view() =~~= g0.update(
                cy as int,
                put_row(g0[cy as int], xu as int, zero_masks(i as nat + 1)),
            ));
        }
        i += 1;
    }
}

/// Draw the sprite transparently at an arbitrary dot position: OR its bits
/// into byte row pos.y/8, and the spilled bits into the row below when pos.y
/// is not row-aligned.
pub fn array_shifted_sprite(g: &mut Vec<Vec<u8>>, pos: Pos, s: &Vec<u8>)
    requires
        shifted_fits(old(g).deep_view(), pos.x as int, pos.y as int, s@.len() as int),
    ensures
        final(g).deep_view() == draw_shifted_spec(
            old(g).deep_view(),
            pos.x as int,
            pos.y as int,
            s@,
        ),
{
    let xu = pos.x as usize;
    let cy = (pos.y as usize) / 8;
    let off: u8 = ((pos.y as usize) % 8) as u8;
    let ghost g0 = g.deep_view();
    let ghost m1 = shl_masks(s@, off);
    let rl: usize = g[cy].len();
    assert(rl == g0[cy as int].len()) by {
        assert(g.deep_view()[cy as int] =~= g@[cy as int]@);
    }
    let mut i: usize = 0;
    assert(g.deep_view() =~~= g0.update(cy as int, or_row(g0[cy as int], xu as int, m1.take(0))));
    while i < s.len()
        invariant
            i <= s@.len(),
            xu == pos.x,
            cy == pos.y as int / 8,
            off == (pos.y as int % 8) as u8,
            off < 8,
            m1 == shl_masks(s@, off),
            shifted_fits(g0, xu as int, pos.y as int, s@.len() as int),
            rl == g0[cy as int].len(),
            g.deep_view() == g0.update(
                cy as int,
                or_row(g0[cy as int], xu as int, m1.take(i as int)),
            ),
        decreases s@.len() - i,
    {
        let b: u8 = grid_get(g, cy, xu + i);
        grid_set(g, cy, xu + i, b | (s[i] << off));
        proof {
            assert(g.deep_view() =~~= g0.update(
                cy as int,
                or_row(g0[cy as int], xu as int, m1.take(i as int + 1)),
            ));
        }
        i += 1;
    }
    assert(m1.take(s@.len() as int) =~= m1);
    let ghost g1 = g0.update(cy as int, or_row(g0[cy as int], xu as int, m1));
    if off != 0 {
        let ghost m2 = shr_masks(s@, (8 - off) as u8);
        let rl2: usize = g[cy + 1].len();
        assert(rl2 == g0[cy as int + 1].len()) by {
            assert(g.deep_view()[cy as int + 1] =~= g@[cy as int + 1]@);
        }
        let mut i: usize = 0;
        assert(g.deep_view() =~~= g1.update(
            cy as int + 1,
            or_row(g1[cy as int + 1], xu as int, m2.take(0)),
        ));
        while i < s.len()
            invariant
                i <= s@.len(),
                xu == pos.x,
                cy == pos.y as int / 8,
                off == (pos.y as int % 8) as u8,
                0 < off < 8,
                m2 == shr_masks(s@, (8 - off) as u8),
                g1 == g0.update(cy as int, or_row(g0[cy as int], xu as int, m1)),
                m1 == shl_masks(s@, off),
                shifted_fits(g0, xu as int, pos.y as int, s@.len() as int),
                rl2 == g0[cy as int + 1].len(),
                g.deep_view() == g1.update(
                    cy as int + 1,
                    or_row(g1[cy as int + 1], xu as int, m2.take(i as int)),
                ),
            decreases s@.len() - i,
        {
            let b: u8 = grid_get(g, cy + 1, xu + i);
            grid_set(g, cy + 1, xu + i, b | (s[i] >> (8 - off)));
            proof {
                assert(g.deep_view() =~~= g1.update(
                    cy as int + 1,
                    or_row(g1[cy as int + 1], xu as int, m2.take(i as int + 1)),
                ));
            }
            i += 1;
        }
        assert(m2.take(s@.len() as int) =~= m2);
    }
}

/// Erase the sprite's own footprint transparently: AND each affected byte
/// with the complemented sprite mask, leaving bits of other entities intact.
pub fn erase_shifted(g: &mut Vec<Vec<u8>>, pos: Pos, s: &Vec<u8>)
    requires
        shifted_fits(old(g).deep_view(), pos.x as int, pos.y as int, s@.len() as int),
    ensures
        final(g).deep_view() == erase_shifted_spec(
            old(g).deep_view(),
            pos.x as int,
            pos.y as int,
            s@,
        ),
{
    let xu = pos.x as usize;
    let cy = (pos.y as usize) / 8;
    let off: u8 = ((pos.y as usize) % 8) as u8;
    let ghost g0 = g.deep_view();
    let ghost m1 = not_masks(shl_masks(s@, off));
    let rl: usize = g[cy].len();
    assert(rl == g0[cy as int].len()) by {
        assert(g.deep_view()[cy as int] =~= g@[cy as int]@);
    }
    let mut i: usize = 0;
    assert(g.deep_view() =~~= g0.update(cy as int, and_row(g0[cy as int], xu as int, m1.take(0))));
    while i < s.len()
        invariant
            i <= s@.len(),
            xu == pos.x,
            cy == pos.y as int / 8,
            off == (pos.y as int % 8) as u8,
            off < 8,
            m1 == not_masks(shl_masks(s@, off)),
            shifted_fits(g0, xu as int, pos.y as int, s@.len() as int),
            rl == g0[cy as int].len(),
            g.deep_view() == g0.update(
                cy as int,
                and_row(g0[cy as int], xu as int, m1.take(i as int)),
            ),
        decreases s@.len() - i,
    {
        let b: u8 = grid_get(g, cy, xu + i);
        grid_set(g, cy, xu + i, b & !(s[i] << off));
        proof {
            assert(g.deep_view() =~~= g0.update(
                cy as int,
                and_row(g0[cy as int], xu as int, m1.take(i as int + 1)),
            ));
        }
        i += 1;
    }
    assert(m1.take(s@.len() as int) =~= m1);
    let ghost g1 = g0.update(cy as int, and_row(g0[cy as int], xu as int, m1));
    if off != 0 {
        let ghost m2 = not_masks(shr_masks(s@, (8 - off) as u8));
        let rl2: usize = g[cy + 1].len();
        assert(rl2 == g0[cy as int + 1].len()) by {
            assert(g.deep_view()[cy as int + 1] =~= g@[cy as int + 1]@);
        }
        let mut i: usize = 0;
        assert(g.deep_view() =~~= g1.update(
            cy as int + 1,
            and_row(g1[cy as int + 1], xu as int, m2.take(0)),
        ));
        while i < s.len()
            invariant
                i <= s@.len(),
                xu == pos.x,
                cy == pos.y as int / 8,
                off == (pos.y as int % 8) as u8,
                0 < off < 8,
                m2 == not_masks(shr_masks(s@, (8 - off) as u8)),
                g1 == g0.update(cy as int, and_row(g0[cy as int], xu as int, m1)),
                m1 == not_masks(shl_masks(s@, off)),
                shifted_fits(g0, xu as int, pos.y as int, s@.len() as int),
                rl2 == g0[cy as int + 1].len(),
                g.deep_view() == g1.update(
                    cy as int + 1,
                    and_row(g1[cy as int + 1], xu as int, m2.take(i as int)),
                ),
            decreases s@.len() - i,
        {
            let b: u8 = grid_get(g, cy + 1, xu + i);
            grid_set(g, cy + 1, xu + i, b & !(s[i] >> (8 - off)));
            proof {
                assert(g.deep_view() =~~= g1.update(
                    cy as int + 1,
                    and_row(g1[cy as int + 1], xu as int, m2.take(i as int + 1)),
                ));
            }
            i += 1;
        }
        assert(m2.take(s@.len() as int) =~= m2);
    }
}

/// Probe the grid under the sprite's footprint: true when any bit the sprite
/// would set is already occupied. The probing entity's own previous footprint
/// must have been erased first, or it collides with itself.
pub fn collision(g: &Vec<Vec<u8>>, pos: Pos, s: &Vec<u8>) -> (hit: bool)
    requires
        shifted_fits(g.deep_view(), pos.x as int, pos.y as int, s@.len() as int),
    ensures
        hit == collision_spec(g.deep_view(), pos.x as int, pos.y as int, s@),
{
    let xu = pos.x as usize;
    let cy = (pos.y as usize) / 8;
    let off: u8 = ((pos.y as usize) % 8) as u8;
    let ghost gv = g.deep_view();
    let ghost m1 = shl_masks(s@, off);
    let ghost m2 = shr_masks(s@, (8 - off) as u8);
    let rl: usize = g[cy].len();
    assert(rl == gv[cy as int].len()) by {
        assert(g.deep_view()[cy as int] =~= g@[cy as int]@);
    }
    let mut i: usize = 0;
    while i < s.len()
        invariant
            i <= s@.len(),
            xu == pos.x,
            cy == pos.y as int / 8,
            off == (pos.y as int % 8) as u8,
            off < 8,
            m1 == shl_masks(s@, off),
            m2 == shr_masks(s@, (8 - off) as u8),
            shifted_fits(gv, xu as int, pos.y as int, s@.len() as int),
            rl == gv[cy as int].len(),
            gv == g.deep_view(),
            forall|k: int|
                0 <= k < i ==> (#[trigger] (gv[cy as int][xu as int + k] & m1[k])) == 0,
            forall|k: int|
                0 <= k < i && off != 0 ==> (#[trigger] (gv[cy as int + 1][xu as int + k]
                    & m2[k])) == 0,
        decreases s@.len() - i,
    {
        let high = grid_get(g, cy, xu + i) & (s[i] << off) != 0;
        let low = if off != 0 {
            grid_get(g, cy + 1, xu + i) & (s[i] >> (8 - off)) != 0
        } else {
            false
        };
        if high {
            assert(0 <= i < m1.len() && gv[cy as int][xu as int + i] & m1[i as int] != 0);
            return true;
        }
        if low {
            assert(0 <= i < m2.len() && gv[cy as int + 1][xu as int + i] & m2[i as int] != 0);
            return true;
        }
        i += 1;
    }
    false
}

/// A byte whose masked bits are clear is restored exactly by OR-ing the mask
/// in and then AND-ing its complement.
proof fn lemma_or_then_clear(b: u8, m: u8)
    by (bit_vector)
    requires
        b & m == 0,
    ensures
        (b | m) & !m == b,
{
}

/// Round trip of the transparent compositor: drawing a sprite into a grid
/// that has none of the sprite's bits set, and then erasing it at the same
/// position, restores the grid to its exact prior bit pattern.
pub proof fn lemma_draw_erase_shifted_round_trip(g: Seq<Seq<u8>>, x: int, y: int, s: Seq<u8>)
    requires
        shifted_fits(g, x, y, s.len() as int),
        !collision_spec(g, x, y, s),
    ensures
        erase_shifted_spec(draw_shifted_spec(g, x, y, s), x, y, s) == g,
{
    let cy = y / 8;
    let off = (y % 8) as u8;
    let m1 = shl_masks(s, off);
    let m2 = shr_masks(s, (8 - off) as u8);
    let d = draw_shifted_spec(g, x, y, s);
    let e = erase_shifted_spec(d, x, y, s);
    assert forall|j: int| x <= j < x + s.len() implies #[trigger] e[cy][j] == g[cy][j] by {
        let i = j - x;
        assert(g[cy][x + i] & m1[i] == 0);
        lemma_or_then_clear(g[cy][j], m1[i]);
    }
    if off != 0 {
        assert forall|j: int| x <= j < x + s.len() implies #[trigger] e[cy + 1][j] == g[cy + 1][j]
            by {
            let i = j - x;
            assert(g[cy + 1][x + i] & m2[i] == 0);
            lemma_or_then_clear(g[cy + 1][j], m2[i]);
        }
    }
    assert(e =~~= g);
}

} // verus!
