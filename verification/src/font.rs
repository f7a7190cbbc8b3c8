use vstd::prelude::*;

verus! {

/// One maximal horizontal run of black pixels on a scanline: it starts at
/// column `x` of row `y` and is `w` pixels wide.  A recorded run always has
/// `w > 0`; zero-length paints only flip the color state.
#[derive(Clone, Copy, Debug, PartialEq, Eq, Structural)]
pub struct BlackLine {
    pub x: i32,
    pub y: i32,
    pub w: i32,
}

#[verifier::ext_equal]
pub ghost struct BlackLineV {
    pub x: int,
    pub y: int,
    pub w: int,
}

impl View for BlackLine {
    type V = BlackLineV;

    open spec fn view(&self) -> BlackLineV {
        BlackLineV { x: self.x as int, y: self.y as int, w: self.w as int }
    }
}

/// An out-of-band annotation: a text payload followed by the signed numeric
/// parameters that trailed it in the stream, in stream order.
#[derive(Clone, Debug)]
pub struct Special {
    pub special: String,
    pub numeric_params: Vec<i32>,
}

#[verifier::ext_equal]
pub ghost struct SpecialV {
    pub special: Seq<char>,
    pub numeric_params: Seq<int>,
}

impl View for Special {
    type V = SpecialV;

    open spec fn view(&self) -> SpecialV {
        SpecialV {
            special: self.special@,
            numeric_params: self.numeric_params@.map_values(|v: i32| v as int),
        }
    }
}

/// One decoded glyph: its code, its bounding box in device pixels (columns
/// `m`, rows `n`), and its scanline runs in stream order.  The decoder never
/// attaches annotations to a character; `specials` stays empty and is kept
/// only so a later consumer contract could fill it.
#[derive(Clone, Debug)]
pub struct CharData {
    pub code: i32,
    pub min_m: i32,
    pub max_m: i32,
    pub min_n: i32,
    pub max_n: i32,
    pub specials: Vec<Special>,
    pub bitmap: Vec<BlackLine>,
}

#[verifier::ext_equal]
pub ghost struct CharDataV {
    pub code: int,
    pub min_m: int,
    pub max_m: int,
    pub min_n: int,
    pub max_n: int,
    pub specials: Seq<SpecialV>,
    pub bitmap: Seq<BlackLineV>,
}

impl View for CharData {
    type V = CharDataV;

    open spec fn view(&self) -> CharDataV {
        CharDataV {
            code: self.code as int,
            min_m: self.min_m as int,
            max_m: self.max_m as int,
            min_n: self.min_n as int,
            max_n: self.max_n as int,
            specials: self.specials@.map_values(|s: Special| s@),
            bitmap: self.bitmap@.map_values(|b: BlackLine| b@),
        }
    }
}

/// The completed font: its title, the decoded characters in stream order,
/// the font-wide metrics and the font-wide bounding box.  `design_size` is
/// the raw numerator of a fixed-point real scaled by 2^20; `hppp` and `vppp`
/// (pixels per point) are scaled by 2^16.
pub struct FontData {
    pub title: String,
    pub chars: Vec<CharData>,
    pub design_size: i32,
    pub hppp: i32,
    pub vppp: i32,
    pub min_m: i32,
    pub max_m: i32,
    pub min_n: i32,
    pub max_n: i32,
}

#[verifier::ext_equal]
pub ghost struct FontDataV {
    pub title: Seq<char>,
    pub chars: Seq<CharDataV>,
    pub design_size: int,
    pub hppp: int,
    pub vppp: int,
    pub min_m: int,
    pub max_m: int,
    pub min_n: int,
    pub max_n: int,
}

impl View for FontData {
    type V = FontDataV;

    open spec fn view(&self) -> FontDataV {
        FontDataV {
            title: self.title@,
            chars: self.chars@.map_values(|c: CharData| c@),
            design_size: self.design_size as int,
            hppp: self.hppp as int,
            vppp: self.vppp as int,
            min_m: self.min_m as int,
            max_m: self.max_m as int,
            min_n: self.min_n as int,
            max_n: self.max_n as int,
        }
    }
}

/// An element-by-element copy whose result is independent of the source.
pub(crate) fn copy_lines(v: &Vec<BlackLine>) -> (r: Vec<BlackLine>)
    ensures
        r@ == v@,
{
    let mut r: Vec<BlackLine> = Vec::new();
    let mut i: usize = 0;
    while i < v.len()
        invariant
            i <= v.len(),
            r@ == v@.subrange(0, i as int),
        decreases v.len() - i,
    {
        r.push(v[i]);
        i = i + 1;
    }
    proof {
        assert(r@ =~= v@);
    }
    r
}

/// An element-by-element copy whose result is independent of the source.
pub(crate) fn copy_params(v: &Vec<i32>) -> (r: Vec<i32>)
    ensures
        r@ == v@,
{
    let mut r: Vec<i32> = Vec::new();
    let mut i: usize = 0;
    while i < v.len()
        invariant
            i <= v.len(),
            r@ == v@.subrange(0, i as int),
        decreases v.len() - i,
    {
        r.push(v[i]);
        i = i + 1;
    }
    proof {
        assert(r@ =~= v@);
    }
    r
}

/// A deep copy of one annotation.
pub(crate) fn copy_special(s: &Special) -> (r: Special)
    ensures
        r@ == s@,
{
    Special { special: s.special.clone(), numeric_params: copy_params(&s.numeric_params) }
}

/// A deep copy of an annotation list.
pub(crate) fn copy_specials(v: &Vec<Special>) -> (r: Vec<Special>)
    ensures
        r@.map_values(|s: Special| s@) == v@.map_values(|s: Special| s@),
{
    let mut r: Vec<Special> = Vec::new();
    let mut i: usize = 0;
    while i < v.len()
        invariant
            i <= v.len(),
            r@.len() == i,
            forall|j: int| 0 <= j < i ==> r@[j]@ == v@[j]@,
        decreases v.len() - i,
    {
        r.push(copy_special(&v[i]));
        i = i + 1;
    }
    proof {
        assert(r@.map_values(|s: Special| s@) =~= v@.map_values(|s: Special| s@));
    }
    r
}

/// A deep copy of one character record; mutating the source afterwards does
/// not affect the copy.
pub(crate) fn copy_char_data(c: &CharData) -> (r: CharData)
    ensures
        r@ == c@,
{
    let r = CharData {
        code: c.code,
        min_m: c.min_m,
        max_m: c.max_m,
        min_n: c.min_n,
        max_n: c.max_n,
        specials: copy_specials(&c.specials),
        bitmap: copy_lines(&c.bitmap),
    };
    proof {
        assert(r@ =~~= c@);
    }
    r
}

} // verus!
