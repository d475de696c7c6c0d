use crate::fraction::Fraction;
use vstd::arithmetic::div_mod::{lemma_div_is_ordered, lemma_div_multiples_vanish, lemma_div_pos_is_pos};
use vstd::arithmetic::mul::lemma_mul_inequality;
use vstd::prelude::*;

verus! {

/// Five glyphs in a fixed order: left bracket, filled segment, leading edge
/// ("hat"), empty segment, right bracket.
#[derive(Clone, Debug)]
pub struct BarStyle {
    glyphs: String,
}

/// The number of glyphs in a style.
pub const STYLE_LEN: usize = 5;

/// The cells taken by the two brackets.
pub const BRACKETS_LEN: usize = 2;

impl View for BarStyle {
    type V = Seq<char>;

    closed spec fn view(&self) -> Seq<char> {
        self.glyphs@
    }
}

impl BarStyle {
    /// Well formed: exactly five glyphs.
    pub open spec fn wf(&self) -> bool {
        self@.len() == STYLE_LEN
    }

    /// The style made of the given glyphs; `None` unless there are exactly five.
    pub fn new(glyphs: &str) -> (r: Option<BarStyle>)
        ensures
            r.is_some() == (glyphs@.len() == STYLE_LEN),
            r.is_some() ==> r->0@ == glyphs@ && r->0.wf(),
    {
        if glyphs.unicode_len() == STYLE_LEN {
            Some(BarStyle { glyphs: String::from_str(glyphs) })
        } else {
            None
        }
    }

    /// The default style `[=>.]`.
    pub fn standard() -> (r: BarStyle)
        ensures
            r@ == standard_style(),
            r.wf(),
    {
        proof {
            reveal_strlit("[=>.]");
        }
        BarStyle { glyphs: String::from_str("[=>.]") }
    }

    /// The glyphs as a string.
    pub fn as_str(&self) -> (r: &str)
        ensures
            r@ == self@,
    {
        self.glyphs.as_str()
    }

    /// The glyph at position `i`, as a string of one character.
    fn glyph(&self, i: usize) -> (r: &str)
        requires
            self.wf(),
            i < STYLE_LEN,
        ensures
            r@ == seq![self@[i as int]],
    {
        let r = self.glyphs.as_str().substring_char(i, i + 1);
        assert(r@ =~= seq![self@[i as int]]);
        r
    }
}

/// The glyphs of the default style, `[=>.]`.
pub open spec fn standard_style() -> Seq<char> {
    seq!['[', '=', '>', '.', ']']
}

/// `n` copies of the glyph `c`.
pub open spec fn repeat(c: char, n: int) -> Seq<char> {
    Seq::new(n as nat, |_i: int| c)
}

/// The cells between the brackets of a bar `width` cells wide.
pub open spec fn interior(width: int) -> int {
    width - BRACKETS_LEN
}

/// The filled cells: `floor(fraction * inner)`.
pub open spec fn filled_cells(f: Fraction, inner: int) -> int {
    f.num_spec() * inner / f.den_spec()
}

/// The hat takes one cell, unless the filled run already fills the bar.
pub open spec fn hat_cells(filled: int, inner: int) -> int {
    if filled < inner {
        1
    } else {
        0
    }
}

/// The rendered bar: left bracket, filled run, hat, empty run, right bracket.
pub open spec fn bar_text(f: Fraction, width: int, style: Seq<char>) -> Seq<char> {
    let inner = interior(width);
    let filled = filled_cells(f, inner);
    let hat = hat_cells(filled, inner);
    seq![style[0]] + repeat(style[1], filled) + repeat(style[2], hat) + repeat(
        style[3],
        inner - filled - hat,
    ) + seq![style[4]]
}

/// A fraction in `[0, 1]` fills between none and all of the interior.
pub proof fn lemma_filled_within(f: Fraction, inner: int)
    requires
        f.wf(),
        inner >= 0,
    ensures
        0 <= filled_cells(f, inner) <= inner,
{
    lemma_mul_inequality(f.num_spec(), f.den_spec(), inner);
    lemma_div_is_ordered(f.num_spec() * inner, f.den_spec() * inner, f.den_spec());
    lemma_div_multiples_vanish(inner, f.den_spec());
    vstd::arithmetic::mul::lemma_mul_is_commutative(f.den_spec(), inner);
    vstd::arithmetic::mul::lemma_mul_nonnegative(f.num_spec(), inner);
    lemma_div_pos_is_pos(f.num_spec() * inner, f.den_spec());
}

/// The rendered bar is exactly `width` cells: one left bracket, a filled
/// run, at most one hat, an empty run and one right bracket, the three runs
/// together as wide as the interior.
pub proof fn lemma_render_shape(f: Fraction, width: int, style: Seq<char>)
    requires
        f.wf(),
        width > BRACKETS_LEN,
        style.len() == STYLE_LEN,
    ensures
        ({
            let inner = interior(width);
            let filled = filled_cells(f, inner);
            let hat = hat_cells(filled, inner);
            let empty = inner - filled - hat;
            &&& bar_text(f, width, style).len() == width
            &&& 0 <= filled && 0 <= hat <= 1 && 0 <= empty
            &&& filled + hat + empty == width - BRACKETS_LEN
            &&& bar_text(f, width, style) == seq![style[0]] + repeat(style[1], filled) + repeat(
                style[2],
                hat,
            ) + repeat(style[3], empty) + seq![style[4]]
        }),
{
    lemma_filled_within(f, interior(width));
}

/// Appends `n` copies of a one-character glyph.
fn append_repeated(out: &mut String, glyph: &str, n: usize)
    requires
        glyph@.len() == 1,
    ensures
        final(out)@ == old(out)@ + repeat(glyph@[0], n as int),
{
    let ghost start = out@;
    let mut i: usize = 0;
    while i < n
        invariant
            i <= n,
            glyph@.len() == 1,
            out@ == start + repeat(glyph@[0], i as int),
        decreases n - i,
    {
        out.append(glyph);
        i = i + 1;
        assert(out@ =~= start + repeat(glyph@[0], i as int));
    }
}

/// Renders `fraction` as a bar exactly `width` cells wide.
pub fn render(fraction: &Fraction, width: usize, style: &BarStyle) -> (r: String)
    requires
        fraction.wf(),
        width > BRACKETS_LEN,
        style.wf(),
    ensures
        r@ == bar_text(*fraction, width as int, style@),
        r@.len() == width,
{
    let inner = width - BRACKETS_LEN;
    proof {
        lemma_filled_within(*fraction, inner as int);
        vstd::arithmetic::mul::lemma_mul_upper_bound(
            fraction.num_spec(),
            u64::MAX as int,
            inner as int,
            u64::MAX as int,
        );
    }
    let filled = ((fraction.num() as u128 * inner as u128) / fraction.den() as u128) as usize;
    let hat: usize = if filled < inner {
        1
    } else {
        0
    };
    let empty = inner - filled - hat;
    let mut out = String::new();
    out.append(style.glyph(0));
    append_repeated(&mut out, style.glyph(1), filled);
    append_repeated(&mut out, style.glyph(2), hat);
    append_repeated(&mut out, style.glyph(3), empty);
    out.append(style.glyph(4));
    assert(out@ =~= bar_text(*fraction, width as int, style@));
    out
}

} // verus!
