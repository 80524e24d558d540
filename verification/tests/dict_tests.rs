use jp::art::{get_ascii_art, get_katakana_ascii_art};
use jp::dict::{init_chinese_map, init_romaji_map};

#[test]
fn romaji_map_has_the_basic_kana() {
    let m = init_romaji_map();
    assert_eq!(m.entries.len(), 46);
    for (_, card) in &m.entries {
        assert_eq!(card.examples.len(), 3);
    }
}

#[test]
fn romaji_lookup_a() {
    let m = init_romaji_map();
    let card = m.get("a").expect("'a' is a basic kana");
    assert_eq!(card.romaji, "a");
    assert_eq!(card.hiragana, "あ");
    assert_eq!(card.katakana, "ア");
    assert_eq!(card.examples[0], "愛(あい/ai) - love");
}

#[test]
fn romaji_lookup_multiletter() {
    let m = init_romaji_map();
    let card = m.get("shi").expect("'shi' is a basic kana");
    assert_eq!(card.hiragana, "し");
    assert_eq!(card.katakana, "シ");
    let card = m.get("n").expect("'n' is a basic kana");
    assert_eq!(card.hiragana, "ん");
}

#[test]
fn romaji_lookup_misses() {
    let m = init_romaji_map();
    assert!(m.get("zzz").is_none());
    assert!(m.get("").is_none());
    // keys are stored lowercase; the caller lowercases first
    assert!(m.get("KA").is_none());
}

#[test]
fn card_duplicate_copies_content() {
    let m = init_romaji_map();
    let card = m.get("ka").unwrap();
    let copy = card.duplicate();
    assert_eq!(copy.romaji, card.romaji);
    assert_eq!(copy.hiragana, card.hiragana);
    assert_eq!(copy.katakana, card.katakana);
    assert_eq!(copy.examples, card.examples);
}

#[test]
fn every_card_renders_hand_drawn_art() {
    // no dictionary card ever falls back to the boxed frame
    let m = init_romaji_map();
    for (key, card) in &m.entries {
        assert_eq!(card.romaji, *key);
        assert_eq!(get_ascii_art(&card.hiragana).len(), 15, "no picture for {}", card.hiragana);
        assert_eq!(
            get_katakana_ascii_art(&card.katakana).len(),
            15,
            "no picture for {}",
            card.katakana
        );
    }
}

#[test]
fn chinese_map_lookups() {
    let m = init_chinese_map();
    assert_eq!(m.entries.len(), 60);
    assert_eq!(m.get("你好").map(String::as_str), Some("こんにちは (konnichiwa)"));
    assert_eq!(m.get("谢谢").map(String::as_str), Some("ありがとう (arigatou)"));
    assert_eq!(m.get("星期日").map(String::as_str), Some("日曜日 (にちようび/nichiyoubi)"));
    assert!(m.get("不在表里").is_none());
    assert!(m.get("hello").is_none());
}
