use vstd::prelude::*;
use std::collections::HashMap;
use vstd::set_lib::{lemma_int_range, lemma_len_subset, lemma_map_size_bound, set_int_range};

use crate::text::{decimal, decimal_string, lemma_decimal_len};

verus! {

/// A handle to an icon made by the platform, held as its address.
pub type GeneratedIcon = usize;

/// Side length, in pixels, of the square icon image.
pub const ICON_SIZE: u32 = 24;

/// An RGBA colour.
pub type Color = [u8; 4];

/// Where and how large the percentage is drawn, for a text of `n` characters:
/// the text's top-left offset and its glyph scale in pixels (width, height).
pub open spec fn scale_params_spec(n: nat) -> ((i32, i32), (u32, u32)) {
    if n == 1 {
        ((5i32, -2i32), (30u32, 27u32))
    } else if n == 2 {
        ((-1i32, -2i32), (30u32, 27u32))
    } else {
        ((-2i32, 3i32), (20u32, 21u32))
    }
}

/// The colour the percentage is drawn in, by load band: below 40, below 80,
/// and from 80 up. The bytes are stored as the image buffer holds them; the
/// platform bitmap reads them as blue, green, red, alpha, so the three bands
/// show white, orange and red.
pub open spec fn color_spec(value: nat) -> Color {
    if value <= 39 {
        [255u8, 255u8, 255u8, 255u8]
    } else if value <= 79 {
        [0u8, 165u8, 255u8, 255u8]
    } else {
        [0u8, 0u8, 255u8, 255u8]
    }
}

/// Everything that decides how the icon for one percentage looks.
pub struct IconDesign {
    /// The decimal text that is drawn.
    pub text: String,
    /// Top-left position of the text, in pixels.
    pub coord: (i32, i32),
    /// Glyph scale in pixels, horizontal then vertical.
    pub scale: (u32, u32),
    /// Colour of the text.
    pub color: Color,
}

/// The colour depends only on the load band: white `[255, 255, 255, 255]`
/// below 40, orange `[0, 165, 255, 255]` from 40 to 79, red
/// `[0, 0, 255, 255]` from 80 up; so two loads in one band share a colour.
pub proof fn lemma_color_bands(value: nat)
    ensures
        value < 40 ==> color_spec(value) == [255u8, 255u8, 255u8, 255u8],
        40 <= value < 80 ==> color_spec(value) == [0u8, 165u8, 255u8, 255u8],
        80 <= value ==> color_spec(value) == [0u8, 0u8, 255u8, 255u8],
        forall|a: nat, b: nat|
            (a < 40 && b < 40 || 40 <= a < 80 && 40 <= b < 80 || 80 <= a && 80 <= b)
                ==> #[trigger] color_spec(a) == #[trigger] color_spec(b),
{
}

/// One-digit loads are drawn at (5, -2) and two-digit loads at (-1, -2),
/// both at scale 30 by 27; three-digit loads at (-2, 3) at scale 20 by 21.
pub proof fn lemma_layout_by_value(value: u8)
    ensures
        value < 10 ==> scale_params_spec(decimal(value as nat).len()) == ((5i32, -2i32), (
            30u32,
            27u32,
        )),
        10 <= value < 100 ==> scale_params_spec(decimal(value as nat).len()) == ((-1i32, -2i32), (
            30u32,
            27u32,
        )),
        100 <= value ==> scale_params_spec(decimal(value as nat).len()) == ((-2i32, 3i32), (
            20u32,
            21u32,
        )),
{
    lemma_decimal_len(value as nat);
}

/// `generate` turned the remembered icons `before` into `after` while
/// answering `icon` for `value`: it remembers `icon` for `value`, and a value
/// remembered before is answered with its remembered icon.
pub open spec fn remembers(
    before: Map<u8, GeneratedIcon>,
    value: u8,
    icon: GeneratedIcon,
    after: Map<u8, GeneratedIcon>,
) -> bool {
    &&& after == before.insert(value, icon)
    &&& before.contains_key(value) ==> icon == before[value]
}

/// Asking twice for the same value gives the same icon, and the second time
/// leaves the remembered icons as they were.
pub proof fn lemma_generate_memoizes(
    m0: Map<u8, GeneratedIcon>,
    value: u8,
    first: GeneratedIcon,
    m1: Map<u8, GeneratedIcon>,
    second: GeneratedIcon,
    m2: Map<u8, GeneratedIcon>,
)
    requires
        remembers(m0, value, first, m1),
        remembers(m1, value, second, m2),
    ensures
        second == first,
        m2 == m1,
{
    assert(m1.contains_key(value));
    assert(m1.insert(value, second) =~= m1);
}

/// Makes and remembers one icon per percentage value.
pub struct IconGenerator {
    icon_cache: HashMap<u8, GeneratedIcon>,
}

impl View for IconGenerator {
    type V = Map<u8, GeneratedIcon>;

    closed spec fn view(&self) -> Self::V {
        self.icon_cache@
    }
}

impl IconGenerator {
    /// A generator that has made no icon yet.
    pub fn new() -> (g: Self)
        ensures
            g@ == Map::<u8, GeneratedIcon>::empty(),
    {
        IconGenerator { icon_cache: HashMap::with_capacity(100) }
    }

    /// Whether an icon must be made for `value`: none is remembered for it.
    pub fn needs(&self, value: u8) -> (b: bool)
        ensures
            b == !self@.contains_key(value),
    {
        match self.icon_cache.get(&value) {
            Some(_) => false,
            None => true,
        }
    }

    /// The icon for `value`. The remembered one is answered when there is
    /// one; otherwise `made` holds the icon just made for `value` (it is
    /// supplied exactly when `needs(value)` holds), which is remembered from
    /// then on.
    pub fn generate(&mut self, value: u8, made: Option<GeneratedIcon>) -> (icon: GeneratedIcon)
        requires
            made is Some <==> !old(self)@.contains_key(value),
        ensures
            remembers(old(self)@, value, icon, final(self)@),
            old(self)@.contains_key(value) ==> final(self)@ == old(self)@,
            !old(self)@.contains_key(value) ==> made == Some(icon),
    {
        match self.icon_cache.get(&value) {
            Some(cached) => {
                let icon = *cached;
                assert(old(self)@.insert(value, icon) =~= old(self)@);
                icon
            },
            None => {
                let icon = made.unwrap();
                self.icon_cache.insert(value, icon);
                icon
            },
        }
    }

    /// At most one icon is remembered per value, so at most 256 in all.
    pub proof fn lemma_at_most_256(&self)
        ensures
            self@.dom().finite(),
            self@.dom().len() <= 256,
    {
        lemma_u8_set_bounded(self.icon_cache@.dom());
    }

    /// The icon remembered for `value`, if any.
    pub fn cached(&self, value: u8) -> (icon: Option<GeneratedIcon>)
        ensures
            icon == (if self@.contains_key(value) {
                Some(self@[value])
            } else {
                None
            }),
    {
        match self.icon_cache.get(&value) {
            Some(cached) => Some(*cached),
            None => None,
        }
    }

    /// Text offset and glyph scale for a text of `n` characters.
    pub fn scale_params(n: usize) -> (params: ((i32, i32), (u32, u32)))
        ensures
            params == scale_params_spec(n as nat),
            n == 1 ==> params == ((5i32, -2i32), (30u32, 27u32)),
            n == 2 ==> params == ((-1i32, -2i32), (30u32, 27u32)),
            n != 1 && n != 2 ==> params == ((-2i32, 3i32), (20u32, 21u32)),
    {
        match n {
            1 => ((5, -2), (30, 27)),
            2 => ((-1, -2), (30, 27)),
            _ => ((-2, 3), (20, 21)),
        }
    }

    /// The colour in which `value` is drawn.
    pub fn color(value: u8) -> (c: Color)
        ensures
            c == color_spec(value as nat),
            value < 40 ==> c == [255u8, 255u8, 255u8, 255u8],
            40 <= value < 80 ==> c == [0u8, 165u8, 255u8, 255u8],
            80 <= value ==> c == [0u8, 0u8, 255u8, 255u8],
    {
        if value <= 39 {
            [255u8, 255u8, 255u8, 255u8]
        } else if value <= 79 {
            [0u8, 165u8, 255u8, 255u8]
        } else {
            [0u8, 0u8, 255u8, 255u8]
        }
    }

    /// How the icon for `value` is drawn: its decimal text, placed and scaled
    /// by the text's length, in the colour of its load band.
    pub fn design(value: u8) -> (d: IconDesign)
        ensures
            d.text@ == decimal(value as nat),
            (d.coord, d.scale) == scale_params_spec(decimal(value as nat).len()),
            d.color == color_spec(value as nat),
            value < 40 ==> d.color == [255u8, 255u8, 255u8, 255u8],
            40 <= value < 80 ==> d.color == [0u8, 165u8, 255u8, 255u8],
            80 <= value ==> d.color == [0u8, 0u8, 255u8, 255u8],
            value < 10 ==> d.coord == (5i32, -2i32) && d.scale == (30u32, 27u32),
            10 <= value < 100 ==> d.coord == (-1i32, -2i32) && d.scale == (30u32, 27u32),
            100 <= value ==> d.coord == (-2i32, 3i32) && d.scale == (20u32, 21u32),
    {
        proof {
            lemma_color_bands(value as nat);
            lemma_layout_by_value(value);
        }
        let text = decimal_string(value);
        let len = Self::text_len(value);
        let (coord, scale) = Self::scale_params(len);
        IconDesign { text, coord, scale, color: Self::color(value) }
    }

    /// Number of decimal digits of `value`.
    fn text_len(value: u8) -> (n: usize)
        ensures
            n == decimal(value as nat).len(),
    {
        proof {
            lemma_decimal_len(value as nat);
        }
        if value >= 100 {
            3
        } else if value >= 10 {
            2
        } else {
            1
        }
    }
}

/// How many of the first `n` requests in `caches`/`values` had to be given a
/// freshly made icon: those whose value was not remembered before them.
pub open spec fn made_count(caches: Seq<Map<u8, GeneratedIcon>>, values: Seq<u8>, n: nat) -> nat
    decreases n,
{
    if n == 0 {
        0
    } else {
        made_count(caches, values, (n - 1) as nat) + if caches[n - 1].contains_key(
            values[n - 1],
        ) {
            0nat
        } else {
            1nat
        }
    }
}

/// Over any run of `generate` from a generator that has made no icon, an
/// icon is made only for a value not made before: as many icons are made as
/// the generator remembers values, so at most 256.
pub proof fn lemma_each_value_made_once(
    caches: Seq<Map<u8, GeneratedIcon>>,
    values: Seq<u8>,
    icons: Seq<GeneratedIcon>,
)
    requires
        caches.len() == values.len() + 1,
        icons.len() == values.len(),
        caches[0] == Map::<u8, GeneratedIcon>::empty(),
        forall|i: int|
            0 <= i < values.len() ==> remembers(
                #[trigger] caches[i],
                values[i],
                icons[i],
                caches[i + 1],
            ),
    ensures
        made_count(caches, values, values.len()) == caches.last().dom().len(),
        made_count(caches, values, values.len()) <= 256,
    decreases values.len(),
{
    let n = values.len();
    if n == 0 {
        assert(caches.last().dom() =~= Set::<u8>::empty());
    } else {
        let c2 = caches.drop_last();
        let v2 = values.drop_last();
        let i2 = icons.drop_last();
        assert forall|i: int| 0 <= i < v2.len() implies remembers(
            #[trigger] c2[i],
            v2[i],
            i2[i],
            c2[i + 1],
        ) by {
            assert(remembers(caches[i], values[i], icons[i], caches[i + 1]));
        }
        lemma_each_value_made_once(c2, v2, i2);
        assert(made_count(c2, v2, (n - 1) as nat) == made_count(caches, values, (n - 1) as nat))
            by {
            lemma_made_count_prefix(caches, values, (n - 1) as nat);
        }
        let before = caches[n - 1];
        assert(before == c2.last());
        assert(remembers(caches[n - 1], values[n - 1], icons[n - 1], caches[n as int]));
        let after = caches[n as int];
        lemma_finite_by_count(c2, v2, i2);
        if before.contains_key(values[n - 1]) {
            assert(after.dom() =~= before.dom());
        } else {
            assert(after.dom() =~= before.dom().insert(values[n - 1]));
        }
        lemma_u8_set_bounded(after.dom());
    }
}

/// Dropping the last request keeps the count of the ones before it.
proof fn lemma_made_count_prefix(caches: Seq<Map<u8, GeneratedIcon>>, values: Seq<u8>, n: nat)
    requires
        n < values.len(),
        caches.len() == values.len() + 1,
    ensures
        made_count(caches.drop_last(), values.drop_last(), n) == made_count(caches, values, n),
    decreases n,
{
    if n > 0 {
        lemma_made_count_prefix(caches, values, (n - 1) as nat);
    }
}

/// The remembered values after such a run form a finite set.
proof fn lemma_finite_by_count(
    caches: Seq<Map<u8, GeneratedIcon>>,
    values: Seq<u8>,
    icons: Seq<GeneratedIcon>,
)
    requires
        caches.len() == values.len() + 1,
        icons.len() == values.len(),
        caches[0] == Map::<u8, GeneratedIcon>::empty(),
        forall|i: int|
            0 <= i < values.len() ==> remembers(
                #[trigger] caches[i],
                values[i],
                icons[i],
                caches[i + 1],
            ),
    ensures
        caches.last().dom().finite(),
    decreases values.len(),
{
    let n = values.len();
    if n == 0 {
        assert(caches.last().dom() =~= Set::<u8>::empty());
    } else {
        let c2 = caches.drop_last();
        let v2 = values.drop_last();
        let i2 = icons.drop_last();
        assert forall|i: int| 0 <= i < v2.len() implies remembers(
            #[trigger] c2[i],
            v2[i],
            i2[i],
            c2[i + 1],
        ) by {
            assert(remembers(caches[i], values[i], icons[i], caches[i + 1]));
        }
        lemma_finite_by_count(c2, v2, i2);
        assert(remembers(caches[n - 1], values[n - 1], icons[n - 1], caches[n as int]));
        assert(caches[n as int].dom() =~= caches[n - 1].dom().insert(values[n - 1]));
    }
}

/// A finite set of bytes has at most 256 members.
pub proof fn lemma_u8_set_bounded(s: Set<u8>)
    requires
        s.finite(),
    ensures
        s.len() <= 256,
{
    let ints = set_int_range(0, 256);
    let f = |i: int| i as u8;
    let bytes = ints.map(f);
    lemma_int_range(0, 256);
    lemma_map_size_bound(ints, bytes, f);
    assert forall|v: u8| s.contains(v) implies bytes.contains(v) by {
        assert(ints.contains(v as int));
        assert(f(v as int) == v);
    }
    lemma_len_subset(s, bytes);
}

} // verus!
