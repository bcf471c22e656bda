use vstd::prelude::*;
use vstd::string::StringSliceAdditionalSpecFns;

verus! {

// Sprite artwork, written as rows of '#' (drawn) and '_' (transparent)
// characters and converted to the column-major byte form the compositor
// consumes.

/// A sprite described dot by dot: row y, column x is drawn iff
/// dot_map[y][x].
pub struct DotShape {
    pub width: i32,
    pub height: i32,
    pub dot_map: Vec<Vec<bool>>,
}

/// The declared dimensions match the dot data.
pub open spec fn shape_wf(s: DotShape) -> bool {
    &&& s.height as int == s.dot_map@.len()
    &&& 1 <= s.width <= 224
    &&& forall|y: int|
        0 <= y < s.dot_map@.len() ==> (#[trigger] s.dot_map@[y])@.len() == s.width as int
}

/// Bit k of byte b.
pub open spec fn bit_of(b: u8, k: int) -> bool {
    (b >> k) & 1 == 1
}

proof fn lemma_set_bit(b: u8, y: u8, k: u8)
    by (bit_vector)
    requires
        y < 8,
        k < 8,
    ensures
        ((b | (1u8 << y)) >> k) & 1 == (if k == y {
            1u8
        } else {
            (b >> k) & 1
        }),
{
}

proof fn lemma_zero_bit(k: u8)
    by (bit_vector)
    requires
        k < 8,
    ensures
        (0u8 >> k) & 1 == 0,
{
}

impl DotShape {
    /// Rotate the dot rows into column-major bytes: bit y of byte x is the
    /// dot at (x, y). A 16-row sprite yields two bytes per column, the
    /// lower 8 rows in the second half.
    pub fn create_dot_map(&self) -> (r: Vec<u8>)
        requires
            shape_wf(*self),
            self.height == 8 || self.height == 16,
        ensures
            self.height == 8 ==> r@.len() == self.width as int,
            self.height == 16 ==> r@.len() == 2 * self.width as int,
            forall|x: int, y: int|
                0 <= x < self.width && 0 <= y < 8 ==> #[trigger] bit_of(r@[x], y)
                    == self.dot_map@[y]@[x],
            self.height == 16 ==> forall|x: int, y: int|
                0 <= x < self.width && 8 <= y < 16 ==> #[trigger] bit_of(r@[x + self.width], y - 8) == self.dot_map@[y]@[x],
    {
        let w = self.width as usize;
        let n: usize = if self.height == 8 {
            w
        } else {
            2 * w
        };
        let mut bytes: Vec<u8> = Vec::new();
        let mut i: usize = 0;
        while i < n
            invariant
                i <= n,
                bytes@.len() == i,
                forall|j: int| 0 <= j < i ==> #[trigger] bytes@[j] == 0u8,
            decreases n - i,
        {
            bytes.push(0);
            i += 1;
        }
        proof {
            assert forall|j: int, k: u8| 0 <= j < n && k < 8 implies !(#[trigger] bit_of(
                bytes@[j],
                k as int,
            )) by {
                lemma_zero_bit(k);
            }
        }
        let mut y: usize = 0;
        while y < 8
            invariant
                y <= 8,
                w == self.width as int,
                n == bytes@.len(),
                (self.height == 8 ==> n == w),
                (self.height == 16 ==> n == 2 * w),
                self.height == 8 || self.height == 16,
                shape_wf(*self),
                forall|x: int, k: int|
                    0 <= x < w && 0 <= k < y ==> #[trigger] bit_of(bytes@[x], k)
                        == self.dot_map@[k]@[x],
                forall|x: int, k: int|
                    0 <= x < w && y <= k < 8 ==> !(#[trigger] bit_of(bytes@[x], k)),
                forall|j: int, k: int|
                    w <= j < n && 0 <= k < 8 ==> !(#[trigger] bit_of(bytes@[j], k)),
            decreases 8 - y,
        {
            let mut x: usize = 0;
            while x < w
                invariant
                    x <= w,
                    y < 8,
                    w == self.width as int,
                    n == bytes@.len(),
                    (self.height == 8 ==> n == w),
                    (self.height == 16 ==> n == 2 * w),
                    self.height == 8 || self.height == 16,
                    shape_wf(*self),
                    forall|j: int, k: int|
                        0 <= j < w && 0 <= k < y ==> #[trigger] bit_of(bytes@[j], k)
                            == self.dot_map@[k]@[j],
                    forall|j: int|
                        0 <= j < x ==> #[trigger] bit_of(bytes@[j], y as int)
                            == self.dot_map@[y as int]@[j],
                    forall|j: int|
                        x <= j < w ==> !(#[trigger] bit_of(bytes@[j], y as int)),
                    forall|j: int, k: int|
                        0 <= j < w && y < k < 8 ==> !(#[trigger] bit_of(bytes@[j], k)),
                    forall|j: int, k: int|
                        w <= j < n && 0 <= k < 8 ==> !(#[trigger] bit_of(bytes@[j], k)),
                decreases w - x,
            {
                if self.dot_map[y][x] {
                    let b = bytes[x];
                    bytes[x] = b | (1u8 << (y as u8));
                    proof {
                        assert forall|j: int, k: u8| 0 <= j < n && k < 8 implies #[trigger] bit_of(
                            bytes@[j],
                            k as int,
                        ) == (if j == x && k == y {
                            true
                        } else {
                            bit_of(old_bytes_at(bytes@, b, j, x as int), k as int)
                        }) by {
                            lemma_set_bit(b, y as u8, k);
                        }
                    }
                }
                x += 1;
            }
            y += 1;
        }
        if self.height == 16 {
            let mut y: usize = 8;
            while y < 16
                invariant
                    8 <= y <= 16,
                    w == self.width as int,
                    n == bytes@.len(),
                    n == 2 * w,
                    self.height == 16,
                    shape_wf(*self),
                    forall|x: int, k: int|
                        0 <= x < w && 0 <= k < 8 ==> #[trigger] bit_of(bytes@[x], k)
                            == self.dot_map@[k]@[x],
                    forall|x: int, k: int|
                        0 <= x < w && 8 <= k < y ==> #[trigger] bit_of(bytes@[x + w], k - 8)
                            == self.dot_map@[k]@[x],
                    forall|x: int, k: int|
                        0 <= x < w && y <= k < 16 ==> !(#[trigger] bit_of(bytes@[x + w], k - 8)),
                decreases 16 - y,
            {
                let mut x: usize = 0;
                while x < w
                    invariant
                        x <= w,
                        8 <= y < 16,
                        w == self.width as int,
                        n == bytes@.len(),
                        n == 2 * w,
                        self.height == 16,
                        shape_wf(*self),
                        forall|j: int, k: int|
                            0 <= j < w && 0 <= k < 8 ==> #[trigger] bit_of(bytes@[j], k)
                                == self.dot_map@[k]@[j],
                        forall|j: int, k: int|
                            0 <= j < w && 8 <= k < y ==> #[trigger] bit_of(bytes@[j + w], k - 8)
                                == self.dot_map@[k]@[j],
                        forall|j: int|
                            0 <= j < x ==> #[trigger] bit_of(bytes@[j + w], y - 8)
                                == self.dot_map@[y as int]@[j],
                        forall|j: int|
                            x <= j < w ==> !(#[trigger] bit_of(bytes@[j + w], y - 8)),
                        forall|j: int, k: int|
                            0 <= j < w && y < k < 16 ==> !(#[trigger] bit_of(bytes@[j + w], k - 8)),
                    decreases w - x,
                {
                    if self.dot_map[y][x] {
                        let b = bytes[x + w];
                        bytes[x + w] = b | (1u8 << ((y - 8) as u8));
                        proof {
                            assert forall|j: int, k: u8| 0 <= j < n && k < 8 implies #[trigger] bit_of(
                                bytes@[j],
                                k as int,
                            ) == (if j == x + w && k == (y - 8) as u8 {
                                true
                            } else {
                                bit_of(old_bytes_at(bytes@, b, j, x as int + w as int), k as int)
                            }) by {
                                lemma_set_bit(b, (y - 8) as u8, k);
                            }
                        }
                    }
                    x += 1;
                }
                y += 1;
            }
        }
        bytes
    }
}

/// The byte the vector held at index j before index t was overwritten:
/// the saved byte at t, the current one elsewhere.
pub open spec fn old_bytes_at(cur: Seq<u8>, saved: u8, j: int, t: int) -> u8 {
    if j == t {
        saved
    } else {
        cur[j]
    }
}

/// The drawn/transparent bits encoded by one row of sprite text: '#' is a
/// drawn dot, '_' a transparent one, anything else (spacing) contributes
/// nothing.
pub open spec fn parse_bits(bs: Seq<u8>) -> Seq<bool>
    decreases bs.len(),
{
    if bs.len() == 0 {
        Seq::empty()
    } else {
        parse_bits(bs.drop_last()) + (if bs.last() == 35u8 {
            seq![true]
        } else if bs.last() == 95u8 {
            seq![false]
        } else {
            Seq::empty()
        })
    }
}

/// Parse rows of sprite text into rows of dots.
pub(crate) fn convert_dot_map(dot_map: Vec<&str>) -> (r: Vec<Vec<bool>>)
    ensures
        r@.len() == dot_map@.len(),
        forall|i: int|
            0 <= i < dot_map@.len() ==> (#[trigger] r@[i])@ == parse_bits(
                dot_map@[i].spec_bytes(),
            ),
{
    let mut bool_map: Vec<Vec<bool>> = Vec::new();
    let mut i: usize = 0;
    while i < dot_map.len()
        invariant
            i <= dot_map@.len(),
            bool_map@.len() == i,
            forall|k: int|
                0 <= k < i ==> (#[trigger] bool_map@[k])@ == parse_bits(
                    dot_map@[k].spec_bytes(),
                ),
        decreases dot_map@.len() - i,
    {
        let line: &str = dot_map[i];
        let bs = line.as_bytes();
        let mut row: Vec<bool> = Vec::new();
        let mut j: usize = 0;
        while j < bs.len()
            invariant
                j <= bs@.len(),
                bs@ == line.spec_bytes(),
                row@ == parse_bits(bs@.take(j as int)),
            decreases bs@.len() - j,
        {
            let b = bs[j];
            proof {
                assert(bs@.take(j as int + 1).drop_last() =~= bs@.take(j as int));
                assert(bs@.take(j as int + 1).last() == bs@[j as int]);
            }
            if b == 35 {
                row.push(true);
                assert(row@ =~= parse_bits(bs@.take(j as int + 1)));
            } else if b == 95 {
                row.push(false);
                assert(row@ =~= parse_bits(bs@.take(j as int + 1)));
            } else {
                assert(row@ =~= parse_bits(bs@.take(j as int + 1)));
            }
            j += 1;
        }
        assert(bs@.take(bs@.len() as int) =~= bs@);
        bool_map.push(row);
        i += 1;
    }
    bool_map
}


/// String equality helper: never false for equal contents, and a positive
/// answer means the byte contents agree.
pub(crate) fn str_eq(a: &str, b: &str) -> (r: bool)
    ensures
        a@ == b@ ==> r,
        r ==> a.spec_bytes() == b.spec_bytes(),
{
    let ab = a.as_bytes();
    let bb = b.as_bytes();
    if ab.len() != bb.len() {
        return false;
    }
    let mut j: usize = 0;
    while j < ab.len()
        invariant
            j <= ab@.len(),
            ab@.len() == bb@.len(),
            ab@ == a.spec_bytes(),
            bb@ == b.spec_bytes(),
            forall|k: int| 0 <= k < j ==> ab@[k] == bb@[k],
        decreases ab@.len() - j,
    {
        if ab[j] != bb[j] {
            return false;
        }
        j += 1;
    }
    assert(ab@ =~= bb@);
    true
}

/// The sprite names this library ships artwork for.
pub open spec fn known_sprite_name(s: Seq<char>) -> bool {

    ||| s == "player"@
    ||| s == "bullet_player"@
    ||| s == "crab_down"@
    ||| s == "crab_banzai"@
    ||| s == "octopus_open"@
    ||| s == "octopus_close"@
    ||| s == "squid_open"@
    ||| s == "squid_close"@
    ||| s == "alien_explosion"@
    ||| s == "alien_bullet_explosion"@
    ||| s == "player_bullet_explosion"@
    ||| s == "shield"@
    ||| s == "ufo"@
    ||| s == "ufo_explosion"@
    ||| s == "player_explosion_1"@
    ||| s == "player_explosion_2"@
}

/// Runtime validation that a shape's declared dimensions match its data.
pub fn check_shape(s: &DotShape) -> (r: bool)
    ensures
        r == shape_wf(*s),
{
    if !(0 <= s.height && s.height as usize == s.dot_map.len() && 1 <= s.width && s.width
        <= 224) {
        return false;
    }
    let mut y: usize = 0;
    while y < s.dot_map.len()
        invariant
            y <= s.dot_map@.len(),
            s.height as int == s.dot_map@.len(),
            1 <= s.width <= 224,
            forall|k: int|
                0 <= k < y ==> (#[trigger] s.dot_map@[k])@.len() == s.width as int,
        decreases s.dot_map@.len() - y,
    {
        if s.dot_map[y].len() != s.width as usize {
            return false;
        }
        y += 1;
    }
    true
}

/// The sprite artwork shipped with the game, by name.
pub fn ret_dot_data(name: &str) -> (r: DotShape)
    requires
        known_sprite_name(name@),
    ensures
        r.height == 8 || r.height == 16,
        1 <= r.width <= 224,
        r.dot_map@.len() == r.height as int,
{

    if str_eq(name, "player") {
        let mut rows: Vec<&str> = Vec::new();
        rows.push("_ _ _ _ _ _ _ _ # _ _ _ _ _ _ _");
        rows.push("_ _ _ _ _ _ _ # # # _ _ _ _ _ _");
        rows.push("_ _ _ _ _ _ _ # # # _ _ _ _ _ _");
        rows.push("_ _ _ # # # # # # # # # # # _ _");
        rows.push("_ _ # # # # # # # # # # # # # _");
        rows.push("_ _ # # # # # # # # # # # # # _");
        rows.push("_ _ # # # # # # # # # # # # # _");
        rows.push("_ _ # # # # # # # # # # # # # _");
        DotShape { width: 16, height: 8, dot_map: convert_dot_map(rows) }
    } else if str_eq(name, "bullet_player") {
        let mut rows: Vec<&str> = Vec::new();
        rows.push("_");
        rows.push("_");
        rows.push("_");
        rows.push("_");
        rows.push("#");
        rows.push("#");
        rows.push("#");
        rows.push("#");
        DotShape { width: 1, height: 8, dot_map: convert_dot_map(rows) }
    } else if str_eq(name, "crab_down") {
        let mut rows: Vec<&str> = Vec::new();
        rows.push("_ _ _ _ _ # _ _ _ _ _ # _ _ _ _");
        rows.push("_ _ _ _ _ _ # _ _ _ # _ _ _ _ _");
        rows.push("_ _ _ _ _ # # # # # # # _ _ _ _");
        rows.push("_ _ _ _ # # _ # # # _ # # _ _ _");
        rows.push("_ _ _ # # # # # # # # # # # _ _");
        rows.push("_ _ _ # _ # # # # # # # _ # _ _");
        rows.push("_ _ _ # _ # _ _ _ _ _ # _ # _ _");
        rows.push("_ _ _ _ _ _ # # _ # # _ _ _ _ _");
        DotShape { width: 16, height: 8, dot_map: convert_dot_map(rows) }
    } else if str_eq(name, "crab_banzai") {
        let mut rows: Vec<&str> = Vec::new();
        rows.push("_ _ _ _ _ # _ _ _ _ _ # _ _ _ _");
        rows.push("_ _ _ # _ _ # _ _ _ # _ _ # _ _");
        rows.push("_ _ _ # _ # # # # # # # _ # _ _");
        rows.push("_ _ _ # # # _ # # # _ # # # _ _");
        rows.push("_ _ _ # # # # # # # # # # # _ _");
        rows.push("_ _ _ _ # # # # # # # # # _ _ _");
        rows.push("_ _ _ _ _ # _ _ _ _ _ # _ _ _ _");
        rows.push("_ _ _ _ # _ _ _ _ _ _ _ # _ _ _");
        DotShape { width: 16, height: 8, dot_map: convert_dot_map(rows) }
    } else if str_eq(name, "octopus_open") {
        let mut rows: Vec<&str> = Vec::new();
        rows.push("_ _ _ _ _ _ # # # # _ _ _ _ _ _");
        rows.push("_ _ _ # # # # # # # # # # _ _ _");
        rows.push("_ _ # # # # # # # # # # # # _ _");
        rows.push("_ _ # # # _ _ # # _ _ # # # _ _");
        rows.push("_ _ # # # # # # # # # # # # _ _");
        rows.push("_ _ _ _ _ # # _ _ # # _ _ _ _ _");
        rows.push("_ _ _ _ # # _ # # _ # # _ _ _ _");
        rows.push("_ _ # # _ _ _ _ _ _ _ _ # # _ _");
        DotShape { width: 16, height: 8, dot_map: convert_dot_map(rows) }
    } else if str_eq(name, "octopus_close") {
        let mut rows: Vec<&str> = Vec::new();
        rows.push("_ _ _ _ _ _ # # # # _ _ _ _ _ _");
        rows.push("_ _ _ # # # # # # # # # # _ _ _");
        rows.push("_ _ # # # # # # # # # # # # _ _");
        rows.push("_ _ # # # _ _ # # _ _ # # # _ _");
        rows.push("_ _ # # # # # # # # # # # # _ _");
        rows.push("_ _ _ _ # # # _ _ # # # _ _ _ _");
        rows.push("_ _ _ # # _ _ # # _ _ # # _ _ _");
        rows.push("_ _ _ _ # # _ _ _ _ # # _ _ _ _");
        DotShape { width: 16, height: 8, dot_map: convert_dot_map(rows) }
    } else if str_eq(name, "squid_open") {
        let mut rows: Vec<&str> = Vec::new();
        rows.push("_ _ _ _ _ _ _ # # _ _ _ _ _ _ _");
        rows.push("_ _ _ _ _ _ # # # # _ _ _ _ _ _");
        rows.push("_ _ _ _ _ # # # # # # _ _ _ _ _");
        rows.push("_ _ _ _ # # _ # # _ # # _ _ _ _");
        rows.push("_ _ _ _ # # # # # # # # _ _ _ _");
        rows.push("_ _ _ _ _ _ # _ _ # _ _ _ _ _ _");
        rows.push("_ _ _ _ _ # _ # # _ # _ _ _ _ _");
        rows.push("_ _ _ _ # _ # _ _ # _ # _ _ _ _");
        DotShape { width: 16, height: 8, dot_map: convert_dot_map(rows) }
    } else if str_eq(name, "squid_close") {
        let mut rows: Vec<&str> = Vec::new();
        rows.push("_ _ _ _ _ _ _ # # _ _ _ _ _ _ _");
        rows.push("_ _ _ _ _ _ # # # # _ _ _ _ _ _");
        rows.push("_ _ _ _ _ # # # # # # _ _ _ _ _");
        rows.push("_ _ _ _ # # _ # # _ # # _ _ _ _");
        rows.push("_ _ _ _ # # # # # # # # _ _ _ _");
        rows.push("_ _ _ _ _ # _ # # _ # _ _ _ _ _");
        rows.push("_ _ _ _ # _ _ _ _ _ _ # _ _ _ _");
        rows.push("_ _ _ _ _ # _ _ _ _ # _ _ _ _ _");
        DotShape { width: 16, height: 8, dot_map: convert_dot_map(rows) }
    } else if str_eq(name, "alien_explosion") {
        let mut rows: Vec<&str> = Vec::new();
        rows.push("_ _ _ _ _ # _ _ _ # _ _ _ _ _ _");
        rows.push("_ _ # _ _ _ # _ # _ _ _ # _ _ _");
        rows.push("_ _ _ # _ _ _ _ _ _ _ # _ _ _ _");
        rows.push("_ _ _ _ # _ _ _ _ _ # _ _ _ _ _");
        rows.push("_ # # _ _ _ _ _ _ _ _ _ # # _ _");
        rows.push("_ _ _ _ # _ _ _ _ _ # _ _ _ _ _");
        rows.push("_ _ _ # _ _ # _ # _ _ # _ _ _ _");
        rows.push("_ _ # _ _ # _ _ _ # _ _ # _ _ _");
        DotShape { width: 16, height: 8, dot_map: convert_dot_map(rows) }
    } else if str_eq(name, "alien_bullet_explosion") {
        let mut rows: Vec<&str> = Vec::new();
        rows.push("_ _ # _ _ _");
        rows.push("# _ _ _ # _");
        rows.push("_ _ # # _ #");
        rows.push("_ # # # # _");
        rows.push("# _ # # # _");
        rows.push("_ # # # # #");
        rows.push("# _ # # # _");
        rows.push("_ # _ # _ #");
        DotShape { width: 6, height: 8, dot_map: convert_dot_map(rows) }
    } else if str_eq(name, "player_bullet_explosion") {
        let mut rows: Vec<&str> = Vec::new();
        rows.push("# _ _ _ # _ _ #");
        rows.push("_ _ # _ _ _ # _");
        rows.push("_ # # # # # # _");
        rows.push("# # # # # # # #");
        rows.push("# # # # # # # #");
        rows.push("_ # # # # # # _");
        rows.push("_ _ # _ _ # _ _");
        rows.push("# _ _ # _ _ _ #");
        DotShape { width: 8, height: 8, dot_map: convert_dot_map(rows) }
    } else if str_eq(name, "shield") {
        let mut rows: Vec<&str> = Vec::new();
        rows.push("_ _ _ _ # # # # # # # # # # # # # # _ _ _ _");
        rows.push("_ _ _ # # # # # # # # # # # # # # # # _ _ _");
        rows.push("_ _ # # # # # # # # # # # # # # # # # # _ _");
        rows.push("_ # # # # # # # # # # # # # # # # # # # # _");
        rows.push("# # # # # # # # # # # # # # # # # # # # # #");
        rows.push("# # # # # # # # # # # # # # # # # # # # # #");
        rows.push("# # # # # # # # # # # # # # # # # # # # # #");
        rows.push("# # # # # # # # # # # # # # # # # # # # # #");
        rows.push("# # # # # # # # # # # # # # # # # # # # # #");
        rows.push("# # # # # # # # # # # # # # # # # # # # # #");
        rows.push("# # # # # # # # # # # # # # # # # # # # # #");
        rows.push("# # # # # # # # # # # # # # # # # # # # # #");
        rows.push("# # # # # # # _ _ _ _ _ _ _ # # # # # # # #");
        rows.push("# # # # # # _ _ _ _ _ _ _ _ _ # # # # # # #");
        rows.push("# # # # # _ _ _ _ _ _ _ _ _ _ _ # # # # # #");
        rows.push("# # # # # _ _ _ _ _ _ _ _ _ _ _ # # # # # #");
        DotShape { width: 22, height: 16, dot_map: convert_dot_map(rows) }
    } else if str_eq(name, "ufo") {
        let mut rows: Vec<&str> = Vec::new();
        rows.push("_ _ _ _ _ _ _ _ _ _ _ _ _ _ _ _ _ _ _ _ _ _ _ _");
        rows.push("_ _ _ _ _ _ _ _ _ # # # # # # _ _ _ _ _ _ _ _ _");
        rows.push("_ _ _ _ _ _ _ # # # # # # # # # # _ _ _ _ _ _ _");
        rows.push("_ _ _ _ _ _ # # # # # # # # # # # # _ _ _ _ _ _");
        rows.push("_ _ _ _ _ # # _ # # _ # # _ # # _ # # _ _ _ _ _");
        rows.push("_ _ _ _ # # # # # # # # # # # # # # # # _ _ _ _");
        rows.push("_ _ _ _ _ _ # # # _ _ # # _ _ # # # _ _ _ _ _ _");
        rows.push("_ _ _ _ _ _ _ # _ _ _ _ _ _ _ _ # _ _ _ _ _ _ _");
        DotShape { width: 24, height: 8, dot_map: convert_dot_map(rows) }
    } else if str_eq(name, "ufo_explosion") {
        let mut rows: Vec<&str> = Vec::new();
        rows.push("_ _ _ # _ _ # _ # _ _ _ _ _ _ # _ # _ _ # _ _ _");
        rows.push("_ _ _ _ # _ _ _ _ _ _ _ _ # # _ _ _ _ # _ _ _ _");
        rows.push("_ # _ # _ _ _ # # # # _ _ _ # # _ _ _ _ _ _ _ _");
        rows.push("_ _ _ _ _ _ # # # # # # # _ _ # # # _ _ # _ _ _");
        rows.push("_ _ _ _ _ # # # _ # _ # _ # _ _ # # # _ _ # _ _");
        rows.push("_ _ _ # _ _ _ # # # # # _ _ _ # # _ _ _ _ _ _ _");
        rows.push("_ # _ _ _ _ _ _ # _ # _ _ _ # # _ _ _ # _ _ _ _");
        rows.push("_ _ _ # _ _ _ # _ _ _ # _ _ _ _ # _ _ _ _ _ _ _");
        DotShape { width: 24, height: 8, dot_map: convert_dot_map(rows) }
    } else if str_eq(name, "player_explosion_1") {
        let mut rows: Vec<&str> = Vec::new();
        rows.push("_ _ _ # _ _ _ _ _ _ _ _ _ # _ _");
        rows.push("# _ _ _ _ _ # _ _ _ _ # # _ _ #");
        rows.push("_ _ _ # _ _ _ _ # # _ _ _ _ _ _");
        rows.push("_ _ _ _ _ _ # _ _ _ _ _ _ _ # _");
        rows.push("_ # _ _ # _ # # _ _ # # _ _ _ #");
        rows.push("_ _ # _ _ _ _ # # # _ _ _ # _ _");
        rows.push("_ _ _ # # # # # # # # # _ _ _ _");
        rows.push("_ _ # # _ # # # # # # # _ _ # _");
        DotShape { width: 16, height: 8, dot_map: convert_dot_map(rows) }
    } else if str_eq(name, "player_explosion_2") {
        let mut rows: Vec<&str> = Vec::new();
        rows.push("_ _ _ _ _ _ # _ _ _ _ _ _ _ _ _");
        rows.push("_ _ _ _ _ _ _ _ _ _ _ # _ _ _ _");
        rows.push("_ _ _ _ _ _ # _ # _ # _ _ _ _ _");
        rows.push("_ _ _ # _ _ # _ _ _ _ _ _ _ _ _");
        rows.push("_ _ _ _ _ _ _ # # _ # # _ _ _ _");
        rows.push("_ # _ _ _ # _ # # _ # _ # _ _ _");
        rows.push("_ _ _ # # # # # # # # _ _ # _ _");
        rows.push("_ _ # # # # # # # # # # _ # _ #");
        DotShape { width: 16, height: 8, dot_map: convert_dot_map(rows) }
    } else {
        proof {
            assert(false);
        }
        vstd::pervasive::unreached()
    }
}


/// The ten digit glyphs, 8x8 dots each.
pub fn char_dot_data() -> (r: Vec<DotShape>)
    ensures
        r@.len() == 10,
        forall|k: int|
            0 <= k < 10 ==> (#[trigger] r@[k]).width == 8 && r@[k].height == 8
                && r@[k].dot_map@.len() == 8,
{
    let mut num: Vec<DotShape> = Vec::new();

    {
        let mut rows: Vec<&str> = Vec::new();
        rows.push("_ _ _ _ _ _ _ _");
        rows.push("_ _ # # # _ _ _");
        rows.push("_ # _ _ _ # _ _");
        rows.push("_ # _ _ # # _ _");
        rows.push("_ # _ # _ # _ _");
        rows.push("_ # # _ _ # _ _");
        rows.push("_ # _ _ _ # _ _");
        rows.push("_ _ # # # _ _ _");
        num.push(DotShape { width: 8, height: 8, dot_map: convert_dot_map(rows) });
    }
    {
        let mut rows: Vec<&str> = Vec::new();
        rows.push("_ _ _ _ _ _ _ _");
        rows.push("_ _ _ # _ _ _ _");
        rows.push("_ _ # # _ _ _ _");
        rows.push("_ _ _ # _ _ _ _");
        rows.push("_ _ _ # _ _ _ _");
        rows.push("_ _ _ # _ _ _ _");
        rows.push("_ _ _ # _ _ _ _");
        rows.push("_ _ # # # _ _ _");
        num.push(DotShape { width: 8, height: 8, dot_map: convert_dot_map(rows) });
    }
    {
        let mut rows: Vec<&str> = Vec::new();
        rows.push("_ _ _ _ _ _ _ _");
        rows.push("_ _ # # # _ _ _");
        rows.push("_ # _ _ _ # _ _");
        rows.push("_ _ _ _ _ # _ _");
        rows.push("_ _ _ # # _ _ _");
        rows.push("_ _ # _ _ _ _ _");
        rows.push("_ # _ _ _ _ _ _");
        rows.push("_ # # # # # _ _");
        num.push(DotShape { width: 8, height: 8, dot_map: convert_dot_map(rows) });
    }
    {
        let mut rows: Vec<&str> = Vec::new();
        rows.push("_ _ _ _ _ _ _ _");
        rows.push("_ # # # # # _ _");
        rows.push("_ _ _ _ _ # _ _");
        rows.push("_ _ _ _ # _ _ _");
        rows.push("_ _ _ # # _ _ _");
        rows.push("_ _ _ _ _ # _ _");
        rows.push("_ # _ _ _ # _ _");
        rows.push("_ _ # # # _ _ _");
        num.push(DotShape { width: 8, height: 8, dot_map: convert_dot_map(rows) });
    }
    {
        let mut rows: Vec<&str> = Vec::new();
        rows.push("_ _ _ _ _ _ _ _");
        rows.push("_ _ _ _ # _ _ _");
        rows.push("_ _ _ # # _ _ _");
        rows.push("_ _ # _ # _ _ _");
        rows.push("_ # _ _ # _ _ _");
        rows.push("_ # # # # # _ _");
        rows.push("_ _ _ _ # _ _ _");
        rows.push("_ _ _ _ # _ _ _");
        num.push(DotShape { width: 8, height: 8, dot_map: convert_dot_map(rows) });
    }
    {
        let mut rows: Vec<&str> = Vec::new();
        rows.push("_ _ _ _ _ _ _ _");
        rows.push("_ # # # # # _ _");
        rows.push("_ # _ _ _ _ _ _");
        rows.push("_ # # # # _ _ _");
        rows.push("_ _ _ _ _ # _ _");
        rows.push("_ _ _ _ _ # _ _");
        rows.push("_ # _ _ _ # _ _");
        rows.push("_ _ # # # _ _ _");
        num.push(DotShape { width: 8, height: 8, dot_map: convert_dot_map(rows) });
    }
    {
        let mut rows: Vec<&str> = Vec::new();
        rows.push("_ _ _ _ _ _ _ _");
        rows.push("_ _ _ # # # _ _");
        rows.push("_ _ # _ _ _ _ _");
        rows.push("_ # _ _ _ _ _ _");
        rows.push("_ # # # # _ _ _");
        rows.push("_ # _ _ _ # _ _");
        rows.push("_ # _ _ _ # _ _");
        rows.push("_ _ # # # _ _ _");
        num.push(DotShape { width: 8, height: 8, dot_map: convert_dot_map(rows) });
    }
    {
        let mut rows: Vec<&str> = Vec::new();
        rows.push("_ _ _ _ _ _ _ _");
        rows.push("_ # # # # # _ _");
        rows.push("_ _ _ _ _ # _ _");
        rows.push("_ _ _ _ # _ _ _");
        rows.push("_ _ _ # _ _ _ _");
        rows.push("_ _ # _ _ _ _ _");
        rows.push("_ _ # _ _ _ _ _");
        rows.push("_ _ # _ _ _ _ _");
        num.push(DotShape { width: 8, height: 8, dot_map: convert_dot_map(rows) });
    }
    {
        let mut rows: Vec<&str> = Vec::new();
        rows.push("_ _ _ _ _ _ _ _");
        rows.push("_ _ # # # _ _ _");
        rows.push("_ # _ _ _ # _ _");
        rows.push("_ # _ _ _ # _ _");
        rows.push("_ _ # # # _ _ _");
        rows.push("_ # _ _ _ # _ _");
        rows.push("_ # _ _ _ # _ _");
        rows.push("_ _ # # # _ _ _");
        num.push(DotShape { width: 8, height: 8, dot_map: convert_dot_map(rows) });
    }
    {
        let mut rows: Vec<&str> = Vec::new();
        rows.push("_ _ _ _ _ _ _ _");
        rows.push("_ _ # # # _ _ _");
        rows.push("_ # _ _ _ # _ _");
        rows.push("_ # _ _ _ # _ _");
        rows.push("_ _ # # # # _ _");
        rows.push("_ _ _ _ _ # _ _");
        rows.push("_ _ _ _ # _ _ _");
        rows.push("_ # # # _ _ _ _");
        num.push(DotShape { width: 8, height: 8, dot_map: convert_dot_map(rows) });
    }
    num
}

} // verus!
