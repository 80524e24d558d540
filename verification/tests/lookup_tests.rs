use jp::dict::{init_chinese_map, init_romaji_map};
use jp::lookup::{
    card_lines, center_text, frame_center_line, frame_line, has_chinese, lookup_kind, pad_right,
    LookupKind, INNER_WIDTH,
};

#[test]
fn pad_right_counts_display_columns() {
    assert_eq!(pad_right("abc", 5), "abc  ");
    assert_eq!(pad_right("abc", 3), "abc");
    assert_eq!(pad_right("abcdef", 3), "abcdef");
    // a CJK character is two columns wide, not one character wide
    assert_eq!(pad_right("中", 4), "中  ");
    assert_eq!(pad_right("平假名", 8), "平假名  ");
    assert_eq!(pad_right("", 2), "  ");
}

#[test]
fn center_text_splits_padding() {
    assert_eq!(center_text("ab", 6), "  ab  ");
    assert_eq!(center_text("a", 4), " a  ");
    assert_eq!(center_text("中", 6), "  中  ");
    assert_eq!(center_text("wide text", 4), "wide text");
}

use unicode_width::UnicodeWidthStr;

#[test]
fn framed_lines_have_uniform_width() {
    for text in ["", "   Romaji: KA", "平假名 (Hiragana) ASCII Art", "x"] {
        let l = frame_line(text);
        assert!(l.starts_with('\u{2551}') && l.ends_with('\u{2551}'));
        assert_eq!(UnicodeWidthStr::width(l.as_str()), INNER_WIDTH + 2);
        let c = frame_center_line(text);
        assert!(c.starts_with('\u{2551}') && c.ends_with('\u{2551}'));
        assert_eq!(UnicodeWidthStr::width(c.as_str()), INNER_WIDTH + 2);
    }
}

#[test]
fn chinese_detection() {
    assert!(has_chinese("你好"));
    assert!(has_chinese("a中b"));
    assert!(has_chinese("\u{3400}"));
    assert!(!has_chinese("hello"));
    assert!(!has_chinese("こんにちは"));
    assert!(!has_chinese(""));
}

#[test]
fn card_lines_renders_the_whole_flashcard() {
    let m = init_romaji_map();
    let card = m.get("ka").expect("'ka' is a basic kana");
    let lines = card_lines(card);
    // banner, five body lines, two art blocks of 15 with their separators,
    // three numbered examples, closing border
    assert_eq!(lines.len(), 17 + 15 + 15 + 3);
    assert!(lines[0].starts_with('\u{2554}') && lines[0].ends_with('\u{2557}'));
    assert!(lines[1].contains("JAPANESE KANA FLASHCARD"));
    assert!(lines[4].contains("Romaji: KA"));
    assert!(lines[6].contains("\u{304b}") && lines[6].contains("\u{30ab}"));
    let art = jp::art::get_ascii_art("\u{304b}");
    assert!(!art[3].trim_end().is_empty());
    assert!(lines[11 + 3].contains(art[3].trim_end()));
    assert!(lines[46].contains("1. "));
    assert!(lines[48].contains("3. "));
    assert!(lines[49].starts_with('\u{255a}') && lines[49].ends_with('\u{255d}'));
    for l in &lines {
        assert_eq!(UnicodeWidthStr::width(l.as_str()), INNER_WIDTH + 2);
    }
}

#[test]
fn classification_checks_romaji_then_chinese() {
    let rm = init_romaji_map();
    let cm = init_chinese_map();
    assert_eq!(lookup_kind(&rm, &cm, "ka"), LookupKind::Kana);
    // romaji input is lowercased before the lookup
    assert_eq!(lookup_kind(&rm, &cm, "KA"), LookupKind::Kana);
    assert_eq!(lookup_kind(&rm, &cm, "你好"), LookupKind::Chinese);
    assert_eq!(lookup_kind(&rm, &cm, "这不在表里"), LookupKind::NeedsLlm);
    assert_eq!(lookup_kind(&rm, &cm, "qqq"), LookupKind::NotFound);
    assert_eq!(lookup_kind(&rm, &cm, ""), LookupKind::NotFound);
}
