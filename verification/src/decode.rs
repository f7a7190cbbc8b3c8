use vstd::prelude::*;

use crate::context::Context;
use crate::context::ContextV;
use crate::errors::GfError;
use crate::font::FontData;
use crate::font::FontDataV;
use crate::reader::ByteReader;
use crate::reader::be_int4;
use crate::reader::be_uint;
use crate::reader::lossy_utf8;

verus! {

/// The closed space of GF commands, classified from one opcode byte.  Paint
/// and row commands with an immediate operand carry it; the rest name how
/// many operand bytes follow.
#[derive(Clone, Copy, Debug, PartialEq, Eq, Structural)]
pub enum Opcode {
    /// 0 through 63: the run length is the opcode byte itself.
    PaintSmall(u8),
    Paint1,
    Paint2,
    Paint3,
    /// Begin-character, wide form: a discarded back-reference and four
    /// four-byte box fields.
    BocWide,
    /// Begin-character, compact form: code and four one-byte fields.
    BocCompact,
    Eoc,
    Skip0,
    Skip1,
    Skip2,
    Skip3,
    /// 74 through 238: the indent is the opcode byte minus 74.
    NewRow(u8),
    Xxx1,
    Xxx2,
    Xxx3,
    Xxx4,
    Yyy,
    Nop,
    Pre,
    Post,
    /// Reserved or undefined: a protocol violation wherever the dispatcher
    /// meets it.
    Reserved,
}

pub open spec fn classify_spec(op: u8) -> Opcode {
    if op <= 63 {
        Opcode::PaintSmall(op)
    } else if op == 64 {
        Opcode::Paint1
    } else if op == 65 {
        Opcode::Paint2
    } else if op == 66 {
        Opcode::Paint3
    } else if op == 67 {
        Opcode::BocWide
    } else if op == 68 {
        Opcode::BocCompact
    } else if op == 69 {
        Opcode::Eoc
    } else if op == 70 {
        Opcode::Skip0
    } else if op == 71 {
        Opcode::Skip1
    } else if op == 72 {
        Opcode::Skip2
    } else if op == 73 {
        Opcode::Skip3
    } else if 74 <= op && op <= 238 {
        Opcode::NewRow((op - 74) as u8)
    } else if op == 239 {
        Opcode::Xxx1
    } else if op == 240 {
        Opcode::Xxx2
    } else if op == 241 {
        Opcode::Xxx3
    } else if op == 242 {
        Opcode::Xxx4
    } else if op == 243 {
        Opcode::Yyy
    } else if op == 244 {
        Opcode::Nop
    } else if op == 247 {
        Opcode::Pre
    } else if op == 248 {
        Opcode::Post
    } else {
        Opcode::Reserved
    }
}

/// Classifies one opcode byte.
pub fn classify(op: u8) -> (r: Opcode)
    ensures
        r == classify_spec(op),
{
    if op <= 63 {
        Opcode::PaintSmall(op)
    } else if op == 64 {
        Opcode::Paint1
    } else if op == 65 {
        Opcode::Paint2
    } else if op == 66 {
        Opcode::Paint3
    } else if op == 67 {
        Opcode::BocWide
    } else if op == 68 {
        Opcode::BocCompact
    } else if op == 69 {
        Opcode::Eoc
    } else if op == 70 {
        Opcode::Skip0
    } else if op == 71 {
        Opcode::Skip1
    } else if op == 72 {
        Opcode::Skip2
    } else if op == 73 {
        Opcode::Skip3
    } else if 74 <= op && op <= 238 {
        Opcode::NewRow(op - 74)
    } else if op == 239 {
        Opcode::Xxx1
    } else if op == 240 {
        Opcode::Xxx2
    } else if op == 241 {
        Opcode::Xxx3
    } else if op == 242 {
        Opcode::Xxx4
    } else if op == 243 {
        Opcode::Yyy
    } else if op == 244 {
        Opcode::Nop
    } else if op == 247 {
        Opcode::Pre
    } else if op == 248 {
        Opcode::Post
    } else {
        Opcode::Reserved
    }
}

/// A paint command whose run length is the `k` bytes after the opcode.
pub open spec fn paint_step(s: Seq<u8>, body: int, k: nat, c: ContextV) -> Result<
    (int, ContextV),
    GfError,
> {
    if body + k <= s.len() {
        Ok(((body + k), c.after_paint(be_uint(s, body, k))))
    } else {
        Err(GfError::UnexpectedEof)
    }
}

/// A skip command whose row count is the `k` bytes after the opcode.
pub open spec fn skip_step(s: Seq<u8>, body: int, k: nat, c: ContextV) -> Result<
    (int, ContextV),
    GfError,
> {
    if body + k <= s.len() {
        Ok(((body + k), c.after_skip(be_uint(s, body, k))))
    } else {
        Err(GfError::UnexpectedEof)
    }
}

/// Begin-character, wide form: a discarded four-byte back-reference, then the
/// four signed box fields.
pub open spec fn boc_wide_step(s: Seq<u8>, body: int, c: ContextV) -> Result<
    (int, ContextV),
    GfError,
> {
    if body + 24 <= s.len() {
        Ok(
            (
                body + 24,
                c.after_boc(
                    be_int4(s, body),
                    be_int4(s, body + 8),
                    be_int4(s, body + 12),
                    be_int4(s, body + 16),
                    be_int4(s, body + 20),
                ),
            ),
        )
    } else {
        Err(GfError::UnexpectedEof)
    }
}

/// Begin-character, compact form: code, then one-byte column delta, maximum
/// column, row delta and maximum row; the minima are maxima minus deltas.
pub open spec fn boc_compact_step(s: Seq<u8>, body: int, c: ContextV) -> Result<
    (int, ContextV),
    GfError,
> {
    if body + 5 <= s.len() {
        Ok(
            (
                body + 5,
                c.after_boc(
                    s[body] as int,
                    s[body + 2] - s[body + 1],
                    s[body + 2] as int,
                    s[body + 4] - s[body + 3],
                    s[body + 4] as int,
                ),
            ),
        )
    } else {
        Err(GfError::UnexpectedEof)
    }
}

/// An annotation command: a `k`-byte length, then that many payload bytes.
/// A length that is negative (possible only for `k == 4`) or runs past the
/// end of the input is a truncation.
pub open spec fn xxx_step(s: Seq<u8>, body: int, k: nat, c: ContextV) -> Result<
    (int, ContextV),
    GfError,
> {
    if body + k > s.len() {
        Err(GfError::UnexpectedEof)
    } else {
        let n = if k == 4 {
            be_int4(s, body)
        } else {
            be_uint(s, body, k)
        };
        if n < 0 {
            Err(GfError::UnexpectedEof)
        } else if body + k + n > s.len() {
            Err(GfError::UnexpectedEof)
        } else {
            Ok((body + k + n, c.after_xxx(lossy_utf8(s.subrange(body + k, body + k + n)))))
        }
    }
}

/// A numeric annotation parameter: one signed four-byte value.
pub open spec fn yyy_op_step(s: Seq<u8>, body: int, c: ContextV) -> Result<
    (int, ContextV),
    GfError,
> {
    if body + 4 <= s.len() {
        match c.after_yyy(be_int4(s, body)) {
            Ok(c2) => Ok((body + 4, c2)),
            Err(e) => Err(e),
        }
    } else {
        Err(GfError::UnexpectedEof)
    }
}

/// The header: the identification byte, then a title string with a one-byte
/// length.  Both operands are read before the identification is judged.
pub open spec fn pre_step(s: Seq<u8>, body: int, c: ContextV) -> Result<(int, ContextV), GfError> {
    if body + 1 > s.len() {
        Err(GfError::UnexpectedEof)
    } else if body + 2 > s.len() {
        Err(GfError::UnexpectedEof)
    } else if body + 2 + s[body + 1] > s.len() {
        Err(GfError::UnexpectedEof)
    } else {
        let after = body + 2 + s[body + 1];
        match c.after_pre(s[body] as int, lossy_utf8(s.subrange(body + 2, after))) {
            Ok(c2) => Ok((after, c2)),
            Err(e) => Err(e),
        }
    }
}

/// The trailer: a discarded back-pointer, the design size, a discarded
/// checksum, the two densities, and the four font-wide box fields.
pub open spec fn post_step(s: Seq<u8>, body: int, c: ContextV) -> Result<(int, ContextV), GfError> {
    if body + 36 <= s.len() {
        Ok(
            (
                body + 36,
                c.after_post(
                    be_int4(s, body + 4),
                    be_int4(s, body + 12),
                    be_int4(s, body + 16),
                    be_int4(s, body + 20),
                    be_int4(s, body + 24),
                    be_int4(s, body + 28),
                    be_int4(s, body + 32),
                ),
            ),
        )
    } else {
        Err(GfError::UnexpectedEof)
    }
}

/// One dispatch step: reads the opcode byte at `pos` and its operands and
/// yields either the position after the command and the state it leaves, or
/// the error that aborts the decode.
pub open spec fn step_of(s: Seq<u8>, pos: int, c: ContextV) -> Result<(int, ContextV), GfError> {
    if pos + 1 > s.len() {
        Err(GfError::UnexpectedEof)
    } else {
        let body = pos + 1;
        match classify_spec(s[pos]) {
            Opcode::PaintSmall(d) => Ok((body, c.after_paint(d as int))),
            Opcode::Paint1 => paint_step(s, body, 1, c),
            Opcode::Paint2 => paint_step(s, body, 2, c),
            Opcode::Paint3 => paint_step(s, body, 3, c),
            Opcode::BocWide => boc_wide_step(s, body, c),
            Opcode::BocCompact => boc_compact_step(s, body, c),
            Opcode::Eoc => Ok((body, c.after_eoc())),
            Opcode::Skip0 => Ok((body, c.after_skip(0))),
            Opcode::Skip1 => skip_step(s, body, 1, c),
            Opcode::Skip2 => skip_step(s, body, 2, c),
            Opcode::Skip3 => skip_step(s, body, 3, c),
            Opcode::NewRow(i) => Ok((body, c.after_new_row(i as int))),
            Opcode::Xxx1 => xxx_step(s, body, 1, c),
            Opcode::Xxx2 => xxx_step(s, body, 2, c),
            Opcode::Xxx3 => xxx_step(s, body, 3, c),
            Opcode::Xxx4 => xxx_step(s, body, 4, c),
            Opcode::Yyy => yyy_op_step(s, body, c),
            Opcode::Nop => Ok((body, c)),
            Opcode::Pre => pre_step(s, body, c),
            Opcode::Post => post_step(s, body, c),
            Opcode::Reserved => Err(GfError::InvalidOpCode),
        }
    }
}

/// Every successful step consumes at least the opcode byte and never reads
/// past the end of the input.
pub proof fn lemma_step_advances(s: Seq<u8>, pos: int, c: ContextV)
    ensures
        step_of(s, pos, c) matches Ok(pc) ==> pos < pc.0 <= s.len(),
{
}

/// The font that the bytes of `s` from `pos` on denote, decoded from state
/// `c`: dispatch steps until the trailer sets the completion flag, or the
/// first error.
pub open spec fn decode_from(s: Seq<u8>, pos: int, c: ContextV) -> Result<FontDataV, GfError>
    decreases s.len() - pos,
    via decode_from_decreases
{
    if c.finished {
        Ok(c.font_data)
    } else {
        match step_of(s, pos, c) {
            Ok(pc) => decode_from(s, pc.0, pc.1),
            Err(e) => Err(e),
        }
    }
}

#[via_fn]
proof fn decode_from_decreases(s: Seq<u8>, pos: int, c: ContextV) {
    lemma_step_advances(s, pos, c);
}

/// The font a whole byte stream denotes, read from `pos` in the state every
/// decode starts from.
pub open spec fn decode_spec(s: Seq<u8>, pos: int) -> Result<FontDataV, GfError> {
    decode_from(s, pos, ContextV::init())
}

/// Reads a paint command's `k`-byte run length and paints it.
fn do_paint(input: &mut ByteReader, ctx: &mut Context, k: u8) -> (r: Result<(), GfError>)
    requires
        old(input).wf(),
        1 <= k <= 3,
    ensures
        final(input).wf(),
        final(input).data == old(input).data,
        match paint_step(old(input).data@, old(input).pos as int, k as nat, old(ctx)@) {
            Ok(pc) => r is Ok && final(input).pos == pc.0 && final(ctx)@ == pc.1,
            Err(e) => r == Err::<(), GfError>(e) && final(ctx)@ == old(ctx)@,
        },
{
    let read = if k == 1 {
        input.read1()
    } else if k == 2 {
        input.read2()
    } else {
        input.read3()
    };
    let d = match read {
        Ok(v) => v,
        Err(e) => {
            return Err(e);
        },
    };
    proof {
        reveal_with_fuel(be_uint, 2);
    }
    ctx.paint(d);
    Ok(())
}

/// Reads a skip command's `k`-byte row count and skips.
fn do_skip(input: &mut ByteReader, ctx: &mut Context, k: u8) -> (r: Result<(), GfError>)
    requires
        old(input).wf(),
        1 <= k <= 3,
    ensures
        final(input).wf(),
        final(input).data == old(input).data,
        match skip_step(old(input).data@, old(input).pos as int, k as nat, old(ctx)@) {
            Ok(pc) => r is Ok && final(input).pos == pc.0 && final(ctx)@ == pc.1,
            Err(e) => r == Err::<(), GfError>(e) && final(ctx)@ == old(ctx)@,
        },
{
    let read = if k == 1 {
        input.read1()
    } else if k == 2 {
        input.read2()
    } else {
        input.read3()
    };
    let rows = match read {
        Ok(v) => v,
        Err(e) => {
            return Err(e);
        },
    };
    proof {
        reveal_with_fuel(be_uint, 2);
    }
    ctx.skip(rows);
    Ok(())
}

/// Reads the wide begin-character operands and opens the character.
fn do_boc_wide(input: &mut ByteReader, ctx: &mut Context) -> (r: Result<(), GfError>)
    requires
        old(input).wf(),
    ensures
        final(input).wf(),
        final(input).data == old(input).data,
        match boc_wide_step(old(input).data@, old(input).pos as int, old(ctx)@) {
            Ok(pc) => r is Ok && final(input).pos == pc.0 && final(ctx)@ == pc.1,
            Err(e) => r == Err::<(), GfError>(e) && final(ctx)@ == old(ctx)@,
        },
{
    let code = match input.read4() {
        Ok(v) => v,
        Err(e) => {
            return Err(e);
        },
    };
    let back = match input.read4() {
        Ok(v) => v,
        Err(e) => {
            return Err(e);
        },
    };
    let min_m = match input.read4() {
        Ok(v) => v,
        Err(e) => {
            return Err(e);
        },
    };
    let max_m = match input.read4() {
        Ok(v) => v,
        Err(e) => {
            return Err(e);
        },
    };
    let min_n = match input.read4() {
        Ok(v) => v,
        Err(e) => {
            return Err(e);
        },
    };
    let max_n = match input.read4() {
        Ok(v) => v,
        Err(e) => {
            return Err(e);
        },
    };
    ctx.boc(code, back, min_m, max_m, min_n, max_n);
    Ok(())
}

/// Reads the compact begin-character operands, derives the minima from the
/// deltas, and opens the character.
fn do_boc_compact(input: &mut ByteReader, ctx: &mut Context) -> (r: Result<(), GfError>)
    requires
        old(input).wf(),
    ensures
        final(input).wf(),
        final(input).data == old(input).data,
        match boc_compact_step(old(input).data@, old(input).pos as int, old(ctx)@) {
            Ok(pc) => r is Ok && final(input).pos == pc.0 && final(ctx)@ == pc.1,
            Err(e) => r == Err::<(), GfError>(e) && final(ctx)@ == old(ctx)@,
        },
{
    let code = match input.read1() {
        Ok(v) => v,
        Err(e) => {
            return Err(e);
        },
    };
    let del_m = match input.read1() {
        Ok(v) => v,
        Err(e) => {
            return Err(e);
        },
    };
    let max_m = match input.read1() {
        Ok(v) => v,
        Err(e) => {
            return Err(e);
        },
    };
    let del_n = match input.read1() {
        Ok(v) => v,
        Err(e) => {
            return Err(e);
        },
    };
    let max_n = match input.read1() {
        Ok(v) => v,
        Err(e) => {
            return Err(e);
        },
    };
    ctx.boc(code, 0, max_m - del_m, max_m, max_n - del_n, max_n);
    Ok(())
}

/// Reads an annotation's `k`-byte length and payload and appends it.
fn do_xxx(input: &mut ByteReader, ctx: &mut Context, k: u8) -> (r: Result<(), GfError>)
    requires
        old(input).wf(),
        1 <= k <= 4,
    ensures
        final(input).wf(),
        final(input).data == old(input).data,
        match xxx_step(old(input).data@, old(input).pos as int, k as nat, old(ctx)@) {
            Ok(pc) => r is Ok && final(input).pos == pc.0 && final(ctx)@ == pc.1,
            Err(e) => r == Err::<(), GfError>(e) && final(ctx)@ == old(ctx)@,
        },
{
    proof {
        reveal_with_fuel(be_uint, 2);
        crate::reader::lemma_be_uint_nonneg(input.data@, input.pos as int, k as nat);
    }
    let read = if k == 1 {
        input.read_string1()
    } else if k == 2 {
        input.read_string2()
    } else if k == 3 {
        input.read_string3()
    } else {
        input.read_string4()
    };
    let payload = match read {
        Ok(v) => v,
        Err(e) => {
            return Err(e);
        },
    };
    ctx.xxx(payload);
    Ok(())
}

/// Reads a numeric parameter and attaches it to the latest annotation.
fn do_yyy(input: &mut ByteReader, ctx: &mut Context) -> (r: Result<(), GfError>)
    requires
        old(input).wf(),
    ensures
        final(input).wf(),
        final(input).data == old(input).data,
        match yyy_op_step(old(input).data@, old(input).pos as int, old(ctx)@) {
            Ok(pc) => r is Ok && final(input).pos == pc.0 && final(ctx)@ == pc.1,
            Err(e) => r == Err::<(), GfError>(e) && final(ctx)@ == old(ctx)@,
        },
{
    let v = match input.read4() {
        Ok(v) => v,
        Err(e) => {
            return Err(e);
        },
    };
    match ctx.yyy(v) {
        Ok(()) => Ok(()),
        Err(e) => Err(e),
    }
}

/// Reads the header's identification byte and title and validates them.
fn do_pre(input: &mut ByteReader, ctx: &mut Context) -> (r: Result<(), GfError>)
    requires
        old(input).wf(),
    ensures
        final(input).wf(),
        final(input).data == old(input).data,
        match pre_step(old(input).data@, old(input).pos as int, old(ctx)@) {
            Ok(pc) => r is Ok && final(input).pos == pc.0 && final(ctx)@ == pc.1,
            Err(e) => r == Err::<(), GfError>(e) && final(ctx)@ == old(ctx)@,
        },
{
    let id = match input.read1() {
        Ok(v) => v,
        Err(e) => {
            return Err(e);
        },
    };
    let title = match input.read_string1() {
        Ok(v) => v,
        Err(e) => {
            return Err(e);
        },
    };
    match ctx.pre(id, title) {
        Ok(()) => Ok(()),
        Err(e) => Err(e),
    }
}

/// Reads the trailer's metrics and bounding box and finishes the decode.
fn do_post(input: &mut ByteReader, ctx: &mut Context) -> (r: Result<(), GfError>)
    requires
        old(input).wf(),
    ensures
        final(input).wf(),
        final(input).data == old(input).data,
        match post_step(old(input).data@, old(input).pos as int, old(ctx)@) {
            Ok(pc) => r is Ok && final(input).pos == pc.0 && final(ctx)@ == pc.1,
            Err(e) => r == Err::<(), GfError>(e) && final(ctx)@ == old(ctx)@,
        },
{
    let back = match input.read4() {
        Ok(v) => v,
        Err(e) => {
            return Err(e);
        },
    };
    let ds = match input.read_fix_word() {
        Ok(v) => v,
        Err(e) => {
            return Err(e);
        },
    };
    let checksum = match input.read4() {
        Ok(v) => v,
        Err(e) => {
            return Err(e);
        },
    };
    let hppp = match input.read_fix_word() {
        Ok(v) => v,
        Err(e) => {
            return Err(e);
        },
    };
    let vppp = match input.read_fix_word() {
        Ok(v) => v,
        Err(e) => {
            return Err(e);
        },
    };
    let min_m = match input.read4() {
        Ok(v) => v,
        Err(e) => {
            return Err(e);
        },
    };
    let max_m = match input.read4() {
        Ok(v) => v,
        Err(e) => {
            return Err(e);
        },
    };
    let min_n = match input.read4() {
        Ok(v) => v,
        Err(e) => {
            return Err(e);
        },
    };
    let max_n = match input.read4() {
        Ok(v) => v,
        Err(e) => {
            return Err(e);
        },
    };
    ctx.post(back, ds, checksum, hppp, vppp, min_m, max_m, min_n, max_n);
    Ok(())
}

/// Reads one command and applies it to the decode state.
fn step(input: &mut ByteReader, ctx: &mut Context) -> (r: Result<(), GfError>)
    requires
        old(input).wf(),
    ensures
        final(input).wf(),
        final(input).data == old(input).data,
        match step_of(old(input).data@, old(input).pos as int, old(ctx)@) {
            Ok(pc) => r is Ok && final(input).pos == pc.0 && final(ctx)@ == pc.1,
            Err(e) => r == Err::<(), GfError>(e),
        },
{
    let opcode_value = match input.read1() {
        Ok(v) => v,
        Err(e) => {
            return Err(e);
        },
    };
    let opcode = opcode_value as u8;
    match classify(opcode) {
        Opcode::PaintSmall(d) => {
            ctx.paint(d as i32);
            Ok(())
        },
        Opcode::Paint1 => do_paint(input, ctx, 1),
        Opcode::Paint2 => do_paint(input, ctx, 2),
        Opcode::Paint3 => do_paint(input, ctx, 3),
        Opcode::BocWide => do_boc_wide(input, ctx),
        Opcode::BocCompact => do_boc_compact(input, ctx),
        Opcode::Eoc => {
            ctx.eoc();
            Ok(())
        },
        Opcode::Skip0 => {
            ctx.skip(0);
            Ok(())
        },
        Opcode::Skip1 => do_skip(input, ctx, 1),
        Opcode::Skip2 => do_skip(input, ctx, 2),
        Opcode::Skip3 => do_skip(input, ctx, 3),
        Opcode::NewRow(i) => {
            ctx.new_row(i as i32);
            Ok(())
        },
        Opcode::Xxx1 => do_xxx(input, ctx, 1),
        Opcode::Xxx2 => do_xxx(input, ctx, 2),
        Opcode::Xxx3 => do_xxx(input, ctx, 3),
        Opcode::Xxx4 => do_xxx(input, ctx, 4),
        Opcode::Yyy => do_yyy(input, ctx),
        Opcode::Nop => Ok(()),
        Opcode::Pre => do_pre(input, ctx),
        Opcode::Post => do_post(input, ctx),
        Opcode::Reserved => Err(GfError::InvalidOpCode),
    }
}

/// Decodes a whole GF stream: commands are dispatched until the trailer sets
/// the completion flag; the first failure aborts with no partial result.  The
/// result is exactly what the specification-level interpreter says the bytes
/// denote.
pub fn gfreader(input: &mut ByteReader) -> (r: Result<FontData, GfError>)
    requires
        old(input).wf(),
    ensures
        final(input).wf(),
        final(input).data == old(input).data,
        match r {
            Ok(f) => decode_spec(old(input).data@, old(input).pos as int) == Ok::<
                FontDataV,
                GfError,
            >(f@),
            Err(e) => decode_spec(old(input).data@, old(input).pos as int) == Err::<
                FontDataV,
                GfError,
            >(e),
        },
{
    let mut ctx = Context::new();
    while !ctx.finished
        invariant
            input.wf(),
            input.data == old(input).data,
            decode_spec(old(input).data@, old(input).pos as int) == decode_from(
                input.data@,
                input.pos as int,
                ctx@,
            ),
        decreases input.data@.len() - input.pos,
    {
        let ghost pre_pos = input.pos as int;
        let ghost pre_ctx = ctx@;
        let res = step(input, &mut ctx);
        proof {
            lemma_step_advances(input.data@, pre_pos, pre_ctx);
        }
        match res {
            Ok(()) => {},
            Err(e) => {
                return Err(e);
            },
        }
    }
    Ok(ctx.font_data)
}

} // verus!
