use jp::art::{get_ascii_art, get_katakana_ascii_art};

#[test]
fn hiragana_a_picture() {
    let art = get_ascii_art("あ");
    assert_eq!(art.len(), 15);
    assert_eq!(art[0], "                                                  ");
    assert_eq!(art[1], "                                                  ");
    assert_eq!(art[2], "                   -##+                           ");
    assert_eq!(art[3], "                   *@@-    ...''',,.              ");
    assert_eq!(art[4], "            +******%%@######****#**;              ");
    assert_eq!(art[5], "            ',,,,':@@%.     :;:,                  ");
    assert_eq!(art[6], "                  :@%%-==+++@@@@+=-;,.            ");
    assert_eq!(art[7], "              ';+#%%%@=;:,:%%@+:;-=*%@*-'         ");
    assert_eq!(art[8], "            ;#@#-,.+@%-  .+@@-       ;@@%;        ");
    assert_eq!(art[9], "          .*@%:    .#%@;-%@*,         +%%@        ");
    assert_eq!(art[10], "          -@%;      -@@@@#,          ;%@@=        ");
    assert_eq!(art[11], "          .+%%=-=+*##+=#+:  ',,:;-=*%@#=,         ");
    assert_eq!(art[12], "            .:---;:'        '=##*+=;:.            ");
    assert_eq!(art[13], "                                                  ");
    assert_eq!(art[14], "                                                  ");
}

#[test]
fn katakana_a_picture() {
    let art = get_katakana_ascii_art("ア");
    assert_eq!(art.len(), 15);
    assert_eq!(art[0], "                                                  ");
    assert_eq!(art[1], "                                                  ");
    assert_eq!(art[2], "                                      .           ");
    assert_eq!(art[3], "         =***####################*##%%@+,         ");
    assert_eq!(art[4], "         '::,,,,,,,,'',,,,''.. .,=%@@*-'          ");
    assert_eq!(art[5], "                      ,###,  '-*@@*;'             ");
    assert_eq!(art[6], "                      :@@@;=%@%+:.                ");
    assert_eq!(art[7], "                      ;%%@. ''                    ");
    assert_eq!(art[8], "                     ,%@@;                        ");
    assert_eq!(art[9], "                   ,+@@#:                         ");
    assert_eq!(art[10], "              .':+%@@+:                           ");
    assert_eq!(art[11], "              ;#%#=,.                             ");
    assert_eq!(art[12], "                                                  ");
    assert_eq!(art[13], "                                                  ");
    assert_eq!(art[14], "                                                  ");
}

#[test]
fn every_basic_hiragana_has_a_picture() {
    let keys = ["あ", "い", "う", "え", "お", "か", "き", "く", "け", "こ", "さ", "し", "す", "せ", "そ", "た", "ち", "つ", "て", "と", "な", "に", "ぬ", "ね", "の", "は", "ひ", "ふ", "へ", "ほ", "ま", "み", "む", "め", "も", "や", "ゆ", "よ", "ら", "り", "る", "れ", "ろ", "わ", "を", "ん"];
    for k in keys {
        assert_eq!(get_ascii_art(k).len(), 15, "missing picture for {}", k);
    }
}

#[test]
fn every_basic_katakana_has_a_picture() {
    let keys = ["ア", "イ", "ウ", "エ", "オ", "カ", "キ", "ク", "ケ", "コ", "サ", "シ", "ス", "セ", "ソ", "タ", "チ", "ツ", "テ", "ト", "ナ", "ニ", "ヌ", "ネ", "ノ", "ハ", "ヒ", "フ", "ヘ", "ホ", "マ", "ミ", "ム", "メ", "モ", "ヤ", "ユ", "ヨ", "ラ", "リ", "ル", "レ", "ロ", "ワ", "ヲ", "ン"];
    for k in keys {
        assert_eq!(get_katakana_ascii_art(k).len(), 15, "missing picture for {}", k);
    }
}

#[test]
fn unknown_character_gets_the_fallback_frame() {
    let art = get_ascii_art("x");
    assert_eq!(art.len(), 9);
    assert_eq!(art[0], "  \u{2554}\u{2550}\u{2550}\u{2550}\u{2550}\u{2550}\u{2550}\u{2550}\u{2550}\u{2550}\u{2550}\u{2550}\u{2550}\u{2550}\u{2550}\u{2550}\u{2557}   ");
    assert_eq!(art[3], "  \u{2551}       x       \u{2551}   ");
    let art2 = get_katakana_ascii_art("漢");
    assert_eq!(art2.len(), 9);
    assert_eq!(art2[3], "  \u{2551}       漢       \u{2551}   ");
}
