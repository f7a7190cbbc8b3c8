use gf_font::BlackLine;
use gf_font::ByteReader;
use gf_font::GfError;
use gf_font::context::Color;
use gf_font::context::Context;
use gf_font::gfreader;

/// A trailer command whose nine four-byte operands are all zero.
fn zero_post() -> Vec<u8> {
    let mut bytes: Vec<u8> = vec![248];
    bytes.extend_from_slice(&[0u8; 36]);
    bytes
}

#[test]
fn can_paint() {
    let mut context = Context::new();
    context.paint(12);
    assert_eq!(context.current_character.char_data.bitmap[0], BlackLine { x: 0, y: 0, w: 12 });
    assert_eq!(context.current_character.m, 12);
    assert_eq!(context.current_character.color, Color::White);
    context.paint(12);
    assert_eq!(context.current_character.char_data.bitmap.len(), 1);
    assert_eq!(context.current_character.m, 24);
    assert_eq!(context.current_character.color, Color::Black);
    context.paint(0);
    assert_eq!(context.current_character.char_data.bitmap.len(), 1);
    assert_eq!(context.current_character.m, 24);
    assert_eq!(context.current_character.color, Color::White);
}

#[test]
fn can_boc() {
    let mut context = Context::new();
    assert_eq!(context.current_character.started, false);
    context.boc(65, -1, 0x100, 0x200, 0x300, 0x400);
    assert_eq!(context.current_character.char_data.code, 65);
    assert_eq!(context.current_character.char_data.min_m, 0x100);
    assert_eq!(context.current_character.char_data.max_m, 0x200);
    assert_eq!(context.current_character.char_data.min_n, 0x300);
    assert_eq!(context.current_character.char_data.max_n, 0x400);
    assert_eq!(context.current_character.started, true);
    assert_eq!(context.current_character.m, 0x100);
    assert_eq!(context.current_character.n, 0x400);
    assert_eq!(context.current_character.color, Color::White);
}

#[test]
fn can_eoc() {
    let mut context = Context::new();
    assert_eq!(context.current_character.started, false);
    context.boc(65, -1, 0x100, 0x200, 0x300, 0x400);
    context.paint(0);
    context.paint(32);
    context.eoc();
    assert_eq!(context.current_character.started, false);
    assert_eq!(context.font_data.chars.len(), 1);
    assert_eq!(
        context.font_data.chars[0].bitmap.len(),
        1,
        "The bitmap didn't get into the copied character"
    );
    context.boc(66, -1, 0x100, 0x200, 0x300, 0x400);
    assert_eq!(context.font_data.chars[0].bitmap.len(), 1);
    assert_eq!(context.current_character.char_data.bitmap.len(), 0);
}

#[test]
fn can_skip() {
    let mut context = Context::new();
    context.current_character.m = 42;
    context.current_character.color = Color::Black;
    context.skip(3);
    assert_eq!(context.current_character.n, -4);
    assert_eq!(context.current_character.m, 0);
    assert_eq!(context.current_character.color, Color::White);
}

#[test]
fn can_new_row() {
    let mut context = Context::new();
    context.current_character.m = 42;
    context.current_character.color = Color::White;
    context.new_row(3);
    assert_eq!(context.current_character.n, -1);
    assert_eq!(context.current_character.m, 3);
    assert_eq!(context.current_character.color, Color::Black);
}

#[test]
fn can_xxx() {
    let mut context = Context::new();
    context.xxx(String::from("rule "));
    assert_eq!(context.specials[0].special, "rule ");
}

#[test]
fn can_yyy() {
    let mut context = Context::new();
    context.xxx(String::from("rule "));
    context.yyy(47).unwrap();
    context.yyy(21).unwrap();
    assert_eq!(context.specials[0].numeric_params[0], 47);
    assert_eq!(context.specials[0].numeric_params[1], 21);
}

#[test]
fn can_pre() {
    let mut context = Context::new();
    context.pre(131, String::from("Title")).unwrap();
    assert_eq!(context.font_data.title, String::from("Title"));
}

#[test]
fn can_post() {
    let mut context = Context::new();
    context.post(47, 10 << 20, 0, 24 << 16, 24 << 16, 0, 1, 2, 3);
    assert_eq!(context.finished, true);
    assert_eq!(context.font_data.design_size, 10 << 20);
}

#[test]
fn orphan_parameter_fails() {
    let mut context = Context::new();
    assert!(matches!(context.yyy(47), Err(GfError::YyyWithoutXxx)));
}

#[test]
fn orphan_parameter_fails_in_stream() {
    let mut input = ByteReader::new(vec![243, 0, 0, 0, 47]);
    assert!(matches!(gfreader(&mut input), Err(GfError::YyyWithoutXxx)));
}

#[test]
fn bad_format_id_fails() {
    let mut context = Context::new();
    assert!(matches!(context.pre(130, String::from("Title")), Err(GfError::InvalidGfId)));
    let mut bytes: Vec<u8> = vec![247, 130, 5];
    bytes.extend_from_slice(b"Title");
    bytes.extend_from_slice(&zero_post());
    let mut input = ByteReader::new(bytes);
    assert!(matches!(gfreader(&mut input), Err(GfError::InvalidGfId)));
}

#[test]
fn header_stores_the_title() {
    let mut bytes: Vec<u8> = vec![247, 131, 5];
    bytes.extend_from_slice(b"Title");
    bytes.extend_from_slice(&zero_post());
    let mut input = ByteReader::new(bytes);
    let font = gfreader(&mut input).unwrap_or_else(|_| panic!("decode failed"));
    assert_eq!(font.title, "Title");
}

#[test]
fn compact_boc_derives_the_box() {
    // Compact begin-character operands [0x05, 0x10, 0x1F, 0x3F] for code 65.
    let mut bytes: Vec<u8> = vec![68, 65, 0x05, 0x10, 0x1F, 0x3F];
    // A zero-length paint flips the cleared color to set; the next paint then
    // records a run at the pen, exposing its position after begin-character.
    bytes.push(0);
    bytes.push(2);
    bytes.push(69);
    bytes.extend_from_slice(&zero_post());
    let mut input = ByteReader::new(bytes);
    let font = gfreader(&mut input).unwrap_or_else(|_| panic!("decode failed"));
    assert_eq!(font.chars.len(), 1);
    assert_eq!(font.chars[0].code, 65);
    assert_eq!(font.chars[0].min_m, 0x0B);
    assert_eq!(font.chars[0].max_m, 0x10);
    assert_eq!(font.chars[0].min_n, 0x20);
    assert_eq!(font.chars[0].max_n, 0x3F);
    assert_eq!(font.chars[0].bitmap.len(), 1);
    assert_eq!(font.chars[0].bitmap[0], BlackLine { x: 0x0B, y: 0x3F, w: 2 });
}

#[test]
fn reserved_opcodes_fail() {
    let mut input = ByteReader::new(vec![245]);
    assert!(matches!(gfreader(&mut input), Err(GfError::InvalidOpCode)));
    let mut input = ByteReader::new(vec![246]);
    assert!(matches!(gfreader(&mut input), Err(GfError::InvalidOpCode)));
    let mut input = ByteReader::new(vec![249]);
    assert!(matches!(gfreader(&mut input), Err(GfError::InvalidOpCode)));
    let mut input = ByteReader::new(vec![255]);
    assert!(matches!(gfreader(&mut input), Err(GfError::InvalidOpCode)));
}

#[test]
fn truncated_streams_fail() {
    let mut input = ByteReader::new(vec![]);
    assert!(matches!(gfreader(&mut input), Err(GfError::UnexpectedEof)));
    let mut input = ByteReader::new(vec![65, 0x01]);
    assert!(matches!(gfreader(&mut input), Err(GfError::UnexpectedEof)));
    let mut input = ByteReader::new(vec![248, 0, 0]);
    assert!(matches!(gfreader(&mut input), Err(GfError::UnexpectedEof)));
}

#[test]
fn nop_is_skipped() {
    let mut bytes: Vec<u8> = vec![244, 244];
    bytes.extend_from_slice(&zero_post());
    let mut input = ByteReader::new(bytes);
    assert!(gfreader(&mut input).is_ok());
}

#[test]
fn full_stream_decodes() {
    let mut bytes: Vec<u8> = vec![247, 131, 5];
    bytes.extend_from_slice(b"Title");
    // An annotation with one trailing parameter.
    bytes.extend_from_slice(&[239, 4]);
    bytes.extend_from_slice(b"rule");
    bytes.extend_from_slice(&[243, 0, 0, 0, 47]);
    // Compact begin-character: code 65, box {1, 3, 9, 10}; pen (1, 10).
    bytes.extend_from_slice(&[68, 65, 2, 3, 1, 10]);
    // new-row(0): pen (1, 9), set; paint 2 records {1, 9, 2}.
    bytes.extend_from_slice(&[74, 2]);
    // skip-rows(0): pen (1, 8), clear.
    bytes.push(70);
    // new-row(1): pen (2, 7), set; paint of 3 via one operand byte.
    bytes.extend_from_slice(&[75, 64, 3]);
    bytes.push(69);
    // Trailer: design size 10.0, densities 24.0, box {-1, 20, -2, 30}.
    bytes.push(248);
    bytes.extend_from_slice(&[0, 0, 0, 0]);
    bytes.extend_from_slice(&[0x00, 0xA0, 0x00, 0x00]);
    bytes.extend_from_slice(&[0, 0, 0, 0]);
    bytes.extend_from_slice(&[0x00, 0x18, 0x00, 0x00]);
    bytes.extend_from_slice(&[0x00, 0x18, 0x00, 0x00]);
    bytes.extend_from_slice(&[0xFF, 0xFF, 0xFF, 0xFF]);
    bytes.extend_from_slice(&[0, 0, 0, 20]);
    bytes.extend_from_slice(&[0xFF, 0xFF, 0xFF, 0xFE]);
    bytes.extend_from_slice(&[0, 0, 0, 30]);
    let mut input = ByteReader::new(bytes);
    let font = gfreader(&mut input).unwrap_or_else(|_| panic!("decode failed"));
    assert_eq!(font.title, "Title");
    assert_eq!(font.chars.len(), 1);
    assert_eq!(font.chars[0].code, 65);
    assert_eq!(font.chars[0].min_m, 1);
    assert_eq!(font.chars[0].max_m, 3);
    assert_eq!(font.chars[0].min_n, 9);
    assert_eq!(font.chars[0].max_n, 10);
    assert_eq!(
        font.chars[0].bitmap,
        vec![BlackLine { x: 1, y: 9, w: 2 }, BlackLine { x: 2, y: 7, w: 3 }]
    );
    assert_eq!(font.design_size, 10 << 20);
    assert_eq!(font.design_size as f64 / 1_048_576.0, 10.0);
    assert_eq!(font.hppp, 24 << 16);
    assert_eq!(font.vppp, 24 << 16);
    assert_eq!(font.min_m, -1);
    assert_eq!(font.max_m, 20);
    assert_eq!(font.min_n, -2);
    assert_eq!(font.max_n, 30);
}
