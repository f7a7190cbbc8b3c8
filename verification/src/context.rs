use vstd::prelude::*;

use crate::errors::GfError;
use crate::font::BlackLine;
use crate::font::BlackLineV;
use crate::font::CharData;
use crate::font::CharDataV;
use crate::font::FontData;
use crate::font::FontDataV;
use crate::font::Special;
use crate::font::SpecialV;
use crate::font::copy_char_data;

verus! {

/// The fixed identification byte every GF header must carry.
pub const GF_ID: i32 = 131;

/// The two-state paint color.  Every paint command flips it; painting while
/// it is `Black` is what records a run.
#[derive(Clone, Copy, Debug, PartialEq, Eq, Structural)]
pub enum Color {
    Black,
    White,
}

/// Two's-complement wrap of a value into the signed 32-bit range; exact for
/// any single sum or difference of 32-bit values.
pub open spec fn wrap32(v: int) -> int {
    if v < -0x8000_0000 {
        v + 0x1_0000_0000
    } else if v > 0x7fff_ffff {
        v - 0x1_0000_0000
    } else {
        v
    }
}

/// Wraps a small 64-bit intermediate into the signed 32-bit range, as the
/// pen bookkeeping's two's-complement arithmetic does.
pub fn wrap_to_i32(v: i64) -> (r: i32)
    requires
        -0x1_0000_0000 <= v <= 0x1_0000_0000,
    ensures
        r as int == wrap32(v as int),
{
    if v < -0x8000_0000 {
        (v + 0x1_0000_0000) as i32
    } else if v > 0x7fff_ffff {
        (v - 0x1_0000_0000) as i32
    } else {
        v as i32
    }
}

/// The per-character decode progress: the open character record, the pen
/// position and the current paint color.
pub struct CharacterContext {
    pub char_data: CharData,
    pub color: Color,
    /// Pen column.
    pub m: i32,
    /// Pen row.
    pub n: i32,
    pub started: bool,
}

#[verifier::ext_equal]
pub ghost struct CharacterContextV {
    pub char_data: CharDataV,
    pub color: Color,
    pub m: int,
    pub n: int,
    pub started: bool,
}

impl View for CharacterContext {
    type V = CharacterContextV;

    open spec fn view(&self) -> CharacterContextV {
        CharacterContextV {
            char_data: self.char_data@,
            color: self.color,
            m: self.m as int,
            n: self.n as int,
            started: self.started,
        }
    }
}

/// The whole decode state: the font built so far, the character in progress,
/// the font-level annotation list, and the completion flag the trailer sets.
pub struct Context {
    pub finished: bool,
    pub font_data: FontData,
    pub current_character: CharacterContext,
    pub specials: Vec<Special>,
}

#[verifier::ext_equal]
pub ghost struct ContextV {
    pub finished: bool,
    pub font_data: FontDataV,
    pub current_character: CharacterContextV,
    pub specials: Seq<SpecialV>,
}

impl View for Context {
    type V = ContextV;

    open spec fn view(&self) -> ContextV {
        ContextV {
            finished: self.finished,
            font_data: self.font_data@,
            current_character: self.current_character@,
            specials: self.specials@.map_values(|s: Special| s@),
        }
    }
}

impl ContextV {
    /// The state every decode starts from.
    pub open spec fn init() -> ContextV {
        ContextV {
            finished: false,
            font_data: FontDataV {
                title: Seq::<char>::empty(),
                chars: Seq::<CharDataV>::empty(),
                design_size: 0,
                hppp: 0,
                vppp: 0,
                min_m: 0,
                max_m: 0,
                min_n: 0,
                max_n: 0,
            },
            current_character: CharacterContextV {
                char_data: CharDataV {
                    code: 0,
                    min_m: 0,
                    max_m: 0,
                    min_n: 0,
                    max_n: 0,
                    specials: Seq::<SpecialV>::empty(),
                    bitmap: Seq::<BlackLineV>::empty(),
                },
                color: Color::Black,
                m: 0,
                n: 0,
                started: false,
            },
            specials: Seq::<SpecialV>::empty(),
        }
    }

    /// Painting a run of `d`: in black, a positive run is recorded at the pen;
    /// either way the color flips and the pen moves right by `d`.
    pub open spec fn after_paint(self, d: int) -> ContextV {
        let cur = self.current_character;
        let recorded = if cur.color == Color::Black && d > 0 {
            CharDataV {
                bitmap: cur.char_data.bitmap.push(BlackLineV { x: cur.m, y: cur.n, w: d }),
                ..cur.char_data
            }
        } else {
            cur.char_data
        };
        let flipped = if cur.color == Color::Black {
            Color::White
        } else {
            Color::Black
        };
        ContextV {
            current_character: CharacterContextV {
                char_data: recorded,
                color: flipped,
                m: wrap32(cur.m + d),
                ..cur
            },
            ..self
        }
    }

    /// Opening a character: a fresh record under the given code and box, the
    /// pen at the top-left corner of the box, the color cleared.  Whatever
    /// character was open before is discarded without being committed.
    pub open spec fn after_boc(
        self,
        code: int,
        min_m: int,
        max_m: int,
        min_n: int,
        max_n: int,
    ) -> ContextV {
        ContextV {
            current_character: CharacterContextV {
                char_data: CharDataV {
                    code: code,
                    min_m: min_m,
                    max_m: max_m,
                    min_n: min_n,
                    max_n: max_n,
                    specials: Seq::<SpecialV>::empty(),
                    bitmap: Seq::<BlackLineV>::empty(),
                },
                color: Color::White,
                m: min_m,
                n: max_n,
                started: true,
            },
            ..self
        }
    }

    /// Closing a character: the open record is committed to the font's list
    /// by value, in stream order.
    pub open spec fn after_eoc(self) -> ContextV {
        ContextV {
            font_data: FontDataV {
                chars: self.font_data.chars.push(self.current_character.char_data),
                ..self.font_data
            },
            current_character: CharacterContextV { started: false, ..self.current_character },
            ..self
        }
    }

    /// Skipping `rows` blank rows: the pen returns to the left edge of the
    /// box, drops by `rows + 1`, and the color clears.
    pub open spec fn after_skip(self, rows: int) -> ContextV {
        let cur = self.current_character;
        ContextV {
            current_character: CharacterContextV {
                color: Color::White,
                m: cur.char_data.min_m,
                n: wrap32(cur.n - rows - 1),
                ..cur
            },
            ..self
        }
    }

    /// Starting the next row at `indent`: the pen drops by one row, moves to
    /// the box's left edge plus the indent, and the color is set.
    pub open spec fn after_new_row(self, indent: int) -> ContextV {
        let cur = self.current_character;
        ContextV {
            current_character: CharacterContextV {
                color: Color::Black,
                m: wrap32(cur.char_data.min_m + indent),
                n: wrap32(cur.n - 1),
                ..cur
            },
            ..self
        }
    }

    /// Appending an annotation with an empty parameter list.
    pub open spec fn after_xxx(self, payload: Seq<char>) -> ContextV {
        ContextV {
            specials: self.specials.push(
                SpecialV { special: payload, numeric_params: Seq::<int>::empty() },
            ),
            ..self
        }
    }

    /// Appending a numeric parameter to the most recent annotation; with no
    /// annotation to attach to, the stream is in violation.
    pub open spec fn after_yyy(self, val: int) -> Result<ContextV, GfError> {
        if self.specials.len() == 0 {
            Err(GfError::YyyWithoutXxx)
        } else {
            let last = self.specials.last();
            Ok(
                ContextV {
                    specials: self.specials.update(
                        self.specials.len() - 1,
                        SpecialV { numeric_params: last.numeric_params.push(val), ..last },
                    ),
                    ..self
                },
            )
        }
    }

    /// The header: the identification byte must be the fixed GF identifier;
    /// then the title is stored.
    pub open spec fn after_pre(self, id: int, title: Seq<char>) -> Result<ContextV, GfError> {
        if id != GF_ID {
            Err(GfError::InvalidGfId)
        } else {
            Ok(ContextV { font_data: FontDataV { title: title, ..self.font_data }, ..self })
        }
    }

    /// The trailer: stores the font-wide metrics and bounding box and sets
    /// the completion flag that ends the decode.
    pub open spec fn after_post(
        self,
        ds: int,
        hppp: int,
        vppp: int,
        min_m: int,
        max_m: int,
        min_n: int,
        max_n: int,
    ) -> ContextV {
        ContextV {
            finished: true,
            font_data: FontDataV {
                design_size: ds,
                hppp: hppp,
                vppp: vppp,
                min_m: min_m,
                max_m: max_m,
                min_n: min_n,
                max_n: max_n,
                ..self.font_data
            },
            ..self
        }
    }
}

/// Law: a positive run painted while the color is set is recorded with width
/// equal to the run, at the pen position held immediately before the call,
/// and the pen's column advances by exactly the run length.
pub proof fn lemma_paint_black_appends(c: ContextV, d: int)
    requires
        c.current_character.color == Color::Black,
        0 < d,
        -0x8000_0000 <= c.current_character.m,
        c.current_character.m + d <= 0x7fff_ffff,
    ensures
        c.after_paint(d).current_character.char_data.bitmap == c.current_character.char_data.bitmap.push(
            BlackLineV { x: c.current_character.m, y: c.current_character.n, w: d },
        ),
        c.after_paint(d).current_character.m == c.current_character.m + d,
        c.after_paint(d).current_character.n == c.current_character.n,
        c.after_paint(d).current_character.color == Color::White,
{
}

/// Law: a zero-length paint never records a run in either color state, but
/// always flips the color; the pen does not move.
pub proof fn lemma_paint_zero(c: ContextV)
    requires
        -0x8000_0000 <= c.current_character.m <= 0x7fff_ffff,
    ensures
        c.after_paint(0).current_character.char_data.bitmap == c.current_character.char_data.bitmap,
        c.after_paint(0).current_character.color != c.current_character.color,
        c.after_paint(0).current_character.m == c.current_character.m,
{
}

/// Law: skipping `rows` rows always drops the pen by exactly `rows + 1`,
/// returns it to the character's left edge, and clears the color, for every
/// `rows >= 0`.
pub proof fn lemma_skip(c: ContextV, rows: int)
    requires
        0 <= rows,
        c.current_character.n <= 0x7fff_ffff,
        -0x8000_0000 <= c.current_character.n - rows - 1,
    ensures
        c.after_skip(rows).current_character.n == c.current_character.n - (rows + 1),
        c.after_skip(rows).current_character.m == c.current_character.char_data.min_m,
        c.after_skip(rows).current_character.color == Color::White,
{
}

/// Law: starting a new row always drops the pen by exactly one row, puts it
/// `indent` pixels in from the character's left edge, and sets the color.
pub proof fn lemma_new_row(c: ContextV, indent: int)
    requires
        0 <= indent,
        -0x8000_0000 <= c.current_character.n - 1,
        c.current_character.n <= 0x7fff_ffff,
        -0x8000_0000 <= c.current_character.char_data.min_m,
        c.current_character.char_data.min_m + indent <= 0x7fff_ffff,
    ensures
        c.after_new_row(indent).current_character.n == c.current_character.n - 1,
        c.after_new_row(indent).current_character.m == c.current_character.char_data.min_m
            + indent,
        c.after_new_row(indent).current_character.color == Color::Black,
{
}

/// Law: once a character is closed and the next one is opened, the open
/// character's run list is empty, no matter how many runs the previous one
/// had accumulated; the closed record itself was committed to the font.
pub proof fn lemma_eoc_boc_fresh(
    c: ContextV,
    code: int,
    min_m: int,
    max_m: int,
    min_n: int,
    max_n: int,
)
    ensures
        c.after_eoc().after_boc(
            code,
            min_m,
            max_m,
            min_n,
            max_n,
        ).current_character.char_data.bitmap == Seq::<BlackLineV>::empty(),
        c.after_eoc().after_boc(code, min_m, max_m, min_n, max_n).font_data.chars
            == c.font_data.chars.push(c.current_character.char_data),
{
}

/// Law: a numeric parameter arriving before any annotation fails with the
/// orphan-parameter violation, in every state.
pub proof fn lemma_orphan_parameter(c: ContextV, val: int)
    requires
        c.specials.len() == 0,
    ensures
        c.after_yyy(val) == Err::<ContextV, GfError>(GfError::YyyWithoutXxx),
{
}

/// Law: a header whose identification byte is not the fixed GF identifier
/// fails, whatever the title; with the right byte it succeeds and the title
/// is stored as given.
pub proof fn lemma_header_id(c: ContextV, id: int, title: Seq<char>)
    ensures
        id != GF_ID ==> c.after_pre(id, title) == Err::<ContextV, GfError>(GfError::InvalidGfId),
        id == GF_ID ==> c.after_pre(id, title) is Ok && c.after_pre(
            id,
            title,
        ).unwrap().font_data.title == title,
{
}

impl Context {
    /// The state every decode starts from.
    pub fn new() -> (r: Context)
        ensures
            r@ == ContextV::init(),
    {
        let r = Context {
            finished: false,
            font_data: FontData {
                title: String::new(),
                chars: Vec::new(),
                design_size: 0,
                hppp: 0,
                vppp: 0,
                min_m: 0,
                max_m: 0,
                min_n: 0,
                max_n: 0,
            },
            current_character: CharacterContext {
                char_data: CharData {
                    code: 0,
                    min_m: 0,
                    max_m: 0,
                    min_n: 0,
                    max_n: 0,
                    specials: Vec::new(),
                    bitmap: Vec::new(),
                },
                color: Color::Black,
                m: 0,
                n: 0,
                started: false,
            },
            specials: Vec::new(),
        };
        proof {
            assert(r@ =~~= ContextV::init());
        }
        r
    }

    /// Paints a run of `d` pixels in the current color and flips the color.
    pub fn paint(&mut self, d: i32)
        ensures
            final(self)@ == old(self)@.after_paint(d as int),
    {
        match self.current_character.color {
            Color::Black => {
                if d > 0 {
                    self.current_character.char_data.bitmap.push(
                        BlackLine { x: self.current_character.m, y: self.current_character.n, w: d },
                    );
                }
                self.current_character.color = Color::White;
            },
            Color::White => {
                self.current_character.color = Color::Black;
            },
        }
        self.current_character.m = wrap_to_i32(
            self.current_character.m as i64 + d as i64,
        );
        proof {
            assert(self@ =~~= old(self)@.after_paint(d as int));
        }
    }

    /// Opens a character under the given code and box.  The second argument
    /// is the stream's back-reference, which the decoder discards.
    pub fn boc(&mut self, char_code: i32, _p: i32, min_m: i32, max_m: i32, min_n: i32, max_n: i32)
        ensures
            final(self)@ == old(self)@.after_boc(
                char_code as int,
                min_m as int,
                max_m as int,
                min_n as int,
                max_n as int,
            ),
    {
        self.current_character.started = true;
        self.current_character.m = min_m;
        self.current_character.n = max_n;
        self.current_character.color = Color::White;
        self.current_character.char_data = CharData {
            code: char_code,
            min_m,
            max_m,
            min_n,
            max_n,
            specials: Vec::new(),
            bitmap: Vec::new(),
        };
        proof {
            assert(
                self@ =~~= old(self)@.after_boc(
                    char_code as int,
                    min_m as int,
                    max_m as int,
                    min_n as int,
                    max_n as int,
                )
            );
        }
    }

    /// Commits the open character record, by value, to the font's list.
    pub fn eoc(&mut self)
        ensures
            final(self)@ == old(self)@.after_eoc(),
    {
        let committed = copy_char_data(&self.current_character.char_data);
        self.font_data.chars.push(committed);
        self.current_character.started = false;
        proof {
            assert(self@ =~~= old(self)@.after_eoc());
        }
    }

    /// Skips `rows` blank rows beyond the one that always ends.
    pub fn skip(&mut self, rows: i32)
        ensures
            final(self)@ == old(self)@.after_skip(rows as int),
    {
        self.current_character.color = Color::White;
        self.current_character.m = self.current_character.char_data.min_m;
        self.current_character.n = wrap_to_i32(
            self.current_character.n as i64 - rows as i64 - 1,
        );
        proof {
            assert(self@ =~~= old(self)@.after_skip(rows as int));
        }
    }

    /// Starts the next row, `indent` pixels in from the box's left edge.
    pub fn new_row(&mut self, indent: i32)
        ensures
            final(self)@ == old(self)@.after_new_row(indent as int),
    {
        self.current_character.color = Color::Black;
        self.current_character.m = wrap_to_i32(
            self.current_character.char_data.min_m as i64 + indent as i64,
        );
        self.current_character.n = wrap_to_i32(self.current_character.n as i64 - 1);
        proof {
            assert(self@ =~~= old(self)@.after_new_row(indent as int));
        }
    }

    /// Appends an annotation to the font-level list.
    pub fn xxx(&mut self, special: String)
        ensures
            final(self)@ == old(self)@.after_xxx(special@),
    {
        self.specials.push(Special { special, numeric_params: Vec::new() });
        proof {
            assert(self@ =~~= old(self)@.after_xxx(special@));
        }
    }

    /// Appends a numeric parameter to the most recent annotation; fails when
    /// no annotation has been seen yet.
    pub fn yyy(&mut self, val: i32) -> (r: Result<(), GfError>)
        ensures
            match old(self)@.after_yyy(val as int) {
                Ok(c) => r is Ok && final(self)@ == c,
                Err(e) => r == Err::<(), GfError>(e) && *final(self) == *old(self),
            },
    {
        if self.specials.len() == 0 {
            return Err(GfError::YyyWithoutXxx);
        }
        let mut last = match self.specials.pop() {
            Some(s) => s,
            None => {
                return Err(GfError::YyyWithoutXxx);
            },
        };
        last.numeric_params.push(val);
        self.specials.push(last);
        proof {
            assert(self@ =~~= old(self)@.after_yyy(val as int).unwrap());
        }
        Ok(())
    }

    /// Validates the header's identification byte and stores the title.
    pub fn pre(&mut self, id: i32, title: String) -> (r: Result<(), GfError>)
        ensures
            match old(self)@.after_pre(id as int, title@) {
                Ok(c) => r is Ok && final(self)@ == c,
                Err(e) => r == Err::<(), GfError>(e) && *final(self) == *old(self),
            },
    {
        if id != GF_ID {
            return Err(GfError::InvalidGfId);
        }
        let ghost pre_title = title@;
        self.font_data.title = title;
        proof {
            assert(self@ =~~= old(self)@.after_pre(id as int, pre_title).unwrap());
        }
        Ok(())
    }

    /// Stores the trailer's metrics and bounding box and marks the decode
    /// complete.  The first and third arguments are the stream's back-pointer
    /// and checksum, which the decoder discards.
    pub fn post(
        &mut self,
        _p: i32,
        ds: i32,
        _cs: i32,
        hppp: i32,
        vppp: i32,
        min_m: i32,
        max_m: i32,
        min_n: i32,
        max_n: i32,
    )
        ensures
            final(self)@ == old(self)@.after_post(
                ds as int,
                hppp as int,
                vppp as int,
                min_m as int,
                max_m as int,
                min_n as int,
                max_n as int,
            ),
    {
        self.finished = true;
        self.font_data.design_size = ds;
        self.font_data.hppp = hppp;
        self.font_data.vppp = vppp;
        self.font_data.max_m = max_m;
        self.font_data.min_m = min_m;
        self.font_data.max_n = max_n;
        self.font_data.min_n = min_n;
        proof {
            assert(
                self@ =~~= old(self)@.after_post(
                    ds as int,
                    hppp as int,
                    vppp as int,
                    min_m as int,
                    max_m as int,
                    min_n as int,
                    max_n as int,
                )
            );
        }
    }
}

} // verus!
