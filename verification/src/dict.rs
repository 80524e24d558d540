//! The built-in dictionaries: the 46 basic kana keyed by romaji, and a
//! small Chinese-to-Japanese phrase table. Both are association lists whose
//! lookup is first match, stated exactly by `assoc_card` / `assoc_phrase`,
//! and whose contents the builders pin column for column to the spec tables
//! `gojuon_romaji`, `gojuon_hiragana`, `gojuon_katakana`, `gojuon_examples`,
//! `chinese_keys` and `chinese_values`.

use vstd::prelude::*;

use crate::art::{known_hiragana, known_katakana};
use crate::text::str_eq;

verus! {

/// One kana flashcard: the romaji key, both kana forms, and example words.
pub struct JapaneseChar {
    pub romaji: String,
    pub hiragana: String,
    pub katakana: String,
    pub examples: Vec<String>,
}

/// The character-level content of a card: what contracts compare, since two
/// distinct owned cards can carry the same text.
pub open spec fn card_model(j: JapaneseChar) -> (Seq<char>, Seq<char>, Seq<char>, Seq<Seq<char>>) {
    (j.romaji@, j.hiragana@, j.katakana@, j.examples.deep_view())
}

impl JapaneseChar {
    /// A copy with the same content, field for field.
    pub fn duplicate(&self) -> (j: JapaneseChar)
        ensures
            card_model(j) == card_model(*self),
    {
        let mut examples: Vec<String> = Vec::new();
        let mut i: usize = 0;
        while i < self.examples.len()
            invariant
                i <= self.examples@.len(),
                examples@.len() == i,
                forall|j: int| 0 <= j < i ==> examples@[j] == self.examples@[j],
            decreases self.examples@.len() - i,
        {
            examples.push(self.examples[i].clone());
            i += 1;
        }
        proof {
            assert(examples@ =~= self.examples@);
        }
        JapaneseChar {
            romaji: self.romaji.clone(),
            hiragana: self.hiragana.clone(),
            katakana: self.katakana.clone(),
            examples,
        }
    }
}

/// First-match lookup in the romaji table.
pub open spec fn assoc_card(entries: Seq<(String, JapaneseChar)>, key: Seq<char>) -> Option<
    JapaneseChar,
>
    decreases entries.len(),
{
    if entries.len() == 0 {
        None
    } else if entries[0].0@ == key {
        Some(entries[0].1)
    } else {
        assoc_card(entries.drop_first(), key)
    }
}

/// The romaji-keyed flashcard table.
pub struct RomajiMap {
    pub entries: Vec<(String, JapaneseChar)>,
}

impl RomajiMap {
    /// The card stored under `key`, if any.
    pub fn get(&self, key: &str) -> (r: Option<&JapaneseChar>)
        ensures
            r is Some <==> assoc_card(self.entries@, key@) is Some,
            r matches Some(j) ==> assoc_card(self.entries@, key@) == Some(*j),
    {
        let n = self.entries.len();
        let mut i: usize = 0;
        proof {
            assert(self.entries@.skip(0) =~= self.entries@);
        }
        while i < n
            invariant
                n == self.entries@.len(),
                i <= n,
                assoc_card(self.entries@, key@) == assoc_card(
                    self.entries@.skip(i as int),
                    key@,
                ),
        decreases n - i,
        {
            if str_eq(self.entries[i].0.as_str(), key) {
                proof {
                    assert(self.entries@.skip(i as int)[0] == self.entries@[i as int]);
                }
                return Some(&self.entries[i].1);
            }
            proof {
                assert(self.entries@.skip(i as int).drop_first() =~= self.entries@.skip(i + 1));
                assert(self.entries@.skip(i as int)[0] == self.entries@[i as int]);
            }
            i += 1;
        }
        proof {
            assert(self.entries@.skip(n as int) =~= Seq::<(String, JapaneseChar)>::empty());
        }
        None
    }
}

/// First-match lookup in the phrase table.
pub open spec fn assoc_phrase(entries: Seq<(String, String)>, key: Seq<char>) -> Option<Seq<char>>
    decreases entries.len(),
{
    if entries.len() == 0 {
        None
    } else if entries[0].0@ == key {
        Some(entries[0].1@)
    } else {
        assoc_phrase(entries.drop_first(), key)
    }
}

/// The Chinese-to-Japanese phrase table.
pub struct ChineseMap {
    pub entries: Vec<(String, String)>,
}

impl ChineseMap {
    /// The translation stored under `key`, if any.
    pub fn get(&self, key: &str) -> (r: Option<&String>)
        ensures
            r is Some <==> assoc_phrase(self.entries@, key@) is Some,
            r matches Some(t) ==> assoc_phrase(self.entries@, key@) == Some(t@),
    {
        let n = self.entries.len();
        let mut i: usize = 0;
        proof {
            assert(self.entries@.skip(0) =~= self.entries@);
        }
        while i < n
            invariant
                n == self.entries@.len(),
                i <= n,
                assoc_phrase(self.entries@, key@) == assoc_phrase(
                    self.entries@.skip(i as int),
                    key@,
                ),
        decreases n - i,
        {
            if str_eq(self.entries[i].0.as_str(), key) {
                proof {
                    assert(self.entries@.skip(i as int)[0] == self.entries@[i as int]);
                }
                return Some(&self.entries[i].1);
            }
            proof {
                assert(self.entries@.skip(i as int).drop_first() =~= self.entries@.skip(i + 1));
                assert(self.entries@.skip(i as int)[0] == self.entries@[i as int]);
            }
            i += 1;
        }
        proof {
            assert(self.entries@.skip(n as int) =~= Seq::<(String, String)>::empty());
        }
        None
    }
}

/// One card with its key, built from literals.
fn card(
    key: &str,
    romaji: &str,
    hiragana: &str,
    katakana: &str,
    e0: &str,
    e1: &str,
    e2: &str,
) -> (r: (String, JapaneseChar))
    ensures
        r.0@ == key@,
        r.1.romaji@ == romaji@,
        r.1.hiragana@ == hiragana@,
        r.1.katakana@ == katakana@,
        r.1.examples@.len() == 3,
        r.1.examples.deep_view() == seq![e0@, e1@, e2@],
{
    let mut examples: Vec<String> = Vec::new();
    examples.push(String::from_str(e0));
    examples.push(String::from_str(e1));
    examples.push(String::from_str(e2));
    proof {
        assert(examples.deep_view() =~= seq![e0@, e1@, e2@]);
    }
    (
        String::from_str(key),
        JapaneseChar {
            romaji: String::from_str(romaji),
            hiragana: String::from_str(hiragana),
            katakana: String::from_str(katakana),
            examples,
        },
    )
}

/// The 46 romaji of the gojuon, in table order: the key column of the
/// flashcard table and the quiz pool of the reminder.
pub open spec fn gojuon_romaji() -> Seq<Seq<char>> {
    seq![
        "a"@,
        "i"@,
        "u"@,
        "e"@,
        "o"@,
        "ka"@,
        "ki"@,
        "ku"@,
        "ke"@,
        "ko"@,
        "sa"@,
        "shi"@,
        "su"@,
        "se"@,
        "so"@,
        "ta"@,
        "chi"@,
        "tsu"@,
        "te"@,
        "to"@,
        "na"@,
        "ni"@,
        "nu"@,
        "ne"@,
        "no"@,
        "ha"@,
        "hi"@,
        "fu"@,
        "he"@,
        "ho"@,
        "ma"@,
        "mi"@,
        "mu"@,
        "me"@,
        "mo"@,
        "ya"@,
        "yu"@,
        "yo"@,
        "ra"@,
        "ri"@,
        "ru"@,
        "re"@,
        "ro"@,
        "wa"@,
        "wo"@,
        "n"@,
    ]
}

/// The hiragana column of the flashcard table, in gojuon order.
pub open spec fn gojuon_hiragana() -> Seq<Seq<char>> {
    seq![
        "あ"@,
        "い"@,
        "う"@,
        "え"@,
        "お"@,
        "か"@,
        "き"@,
        "く"@,
        "け"@,
        "こ"@,
        "さ"@,
        "し"@,
        "す"@,
        "せ"@,
        "そ"@,
        "た"@,
        "ち"@,
        "つ"@,
        "て"@,
        "と"@,
        "な"@,
        "に"@,
        "ぬ"@,
        "ね"@,
        "の"@,
        "は"@,
        "ひ"@,
        "ふ"@,
        "へ"@,
        "ほ"@,
        "ま"@,
        "み"@,
        "む"@,
        "め"@,
        "も"@,
        "や"@,
        "ゆ"@,
        "よ"@,
        "ら"@,
        "り"@,
        "る"@,
        "れ"@,
        "ろ"@,
        "わ"@,
        "を"@,
        "ん"@,
    ]
}

/// The katakana column of the flashcard table, in gojuon order.
pub open spec fn gojuon_katakana() -> Seq<Seq<char>> {
    seq![
        "ア"@,
        "イ"@,
        "ウ"@,
        "エ"@,
        "オ"@,
        "カ"@,
        "キ"@,
        "ク"@,
        "ケ"@,
        "コ"@,
        "サ"@,
        "シ"@,
        "ス"@,
        "セ"@,
        "ソ"@,
        "タ"@,
        "チ"@,
        "ツ"@,
        "テ"@,
        "ト"@,
        "ナ"@,
        "ニ"@,
        "ヌ"@,
        "ネ"@,
        "ノ"@,
        "ハ"@,
        "ヒ"@,
        "フ"@,
        "ヘ"@,
        "ホ"@,
        "マ"@,
        "ミ"@,
        "ム"@,
        "メ"@,
        "モ"@,
        "ヤ"@,
        "ユ"@,
        "ヨ"@,
        "ラ"@,
        "リ"@,
        "ル"@,
        "レ"@,
        "ロ"@,
        "ワ"@,
        "ヲ"@,
        "ン"@,
    ]
}

/// The example-word column of the flashcard table: three words per kana.
pub open spec fn gojuon_examples() -> Seq<Seq<Seq<char>>> {
    seq![
        seq!["愛(あい/ai) - love"@, "赤(あか/aka) - red"@, "朝(あさ/asa) - morning"@],
        seq!["犬(いぬ/inu) - dog"@, "家(いえ/ie) - house"@, "石(いし/ishi) - stone"@],
        seq!["馬(うま/uma) - horse"@, "海(うみ/umi) - sea"@, "歌(うた/uta) - song"@],
        seq!["絵(え/e) - picture"@, "駅(えき/eki) - station"@, "円(えん/en) - yen"@],
        seq!["音(おと/oto) - sound"@, "男(おとこ/otoko) - man"@, "女(おんな/onna) - woman"@],
        seq!["川(かわ/kawa) - river"@, "家族(かぞく/kazoku) - family"@, "鏡(かがみ/kagami) - mirror"@],
        seq!["木(き/ki) - tree"@, "黄色(きいろ/kiiro) - yellow"@, "昨日(きのう/kinou) - yesterday"@],
        seq!["靴(くつ/kutsu) - shoes"@, "雲(くも/kumo) - cloud"@, "口(くち/kuchi) - mouth"@],
        seq!["毛(け/ke) - hair"@, "消しゴム(けしゴム/keshi gomu) - eraser"@, "景色(けしき/keshiki) - scenery"@],
        seq!["子供(こども/kodomo) - child"@, "心(こころ/kokoro) - heart"@, "声(こえ/koe) - voice"@],
        seq!["桜(さくら/sakura) - cherry blossom"@, "魚(さかな/sakana) - fish"@, "寒い(さむい/samui) - cold"@],
        seq!["白(しろ/shiro) - white"@, "塩(しお/shio) - salt"@, "静か(しずか/shizuka) - quiet"@],
        seq!["寿司(すし/sushi) - sushi"@, "好き(すき/suki) - like"@, "砂(すな/suna) - sand"@],
        seq!["世界(せかい/sekai) - world"@, "先生(せんせい/sensei) - teacher"@, "背(せ/se) - back"@],
        seq!["空(そら/sora) - sky"@, "外(そと/soto) - outside"@, "祖父(そふ/sofu) - grandfather"@],
        seq!["食べる(たべる/taberu) - to eat"@, "誕生日(たんじょうび/tanjoubi) - birthday"@, "高い(たかい/takai) - high/expensive"@],
        seq!["父(ちち/chichi) - father"@, "小さい(ちいさい/chiisai) - small"@, "血(ち/chi) - blood"@],
        seq!["月(つき/tsuki) - moon"@, "机(つくえ/tsukue) - desk"@, "強い(つよい/tsuyoi) - strong"@],
        seq!["手(て/te) - hand"@, "天気(てんき/tenki) - weather"@, "手紙(てがみ/tegami) - letter"@],
        seq!["友達(ともだち/tomodachi) - friend"@, "鳥(とり/tori) - bird"@, "時計(とけい/tokei) - clock"@],
        seq!["名前(なまえ/namae) - name"@, "夏(なつ/natsu) - summer"@, "長い(ながい/nagai) - long"@],
        seq!["日本(にほん/nihon) - Japan"@, "肉(にく/niku) - meat"@, "虹(にじ/niji) - rainbow"@],
        seq!["布(ぬの/nuno) - cloth"@, "塗る(ぬる/nuru) - to paint"@, "温い(ぬるい/nurui) - lukewarm"@],
        seq!["猫(ねこ/neko) - cat"@, "眠い(ねむい/nemui) - sleepy"@, "値段(ねだん/nedan) - price"@],
        seq!["飲む(のむ/nomu) - to drink"@, "野菜(やさい/yasai) - vegetable"@, "喉(のど/nodo) - throat"@],
        seq!["花(はな/hana) - flower"@, "春(はる/haru) - spring"@, "母(はは/haha) - mother"@],
        seq!["火(ひ/hi) - fire"@, "人(ひと/hito) - person"@, "低い(ひくい/hikui) - low"@],
        seq!["冬(ふゆ/fuyu) - winter"@, "船(ふね/fune) - ship"@, "古い(ふるい/furui) - old"@],
        seq!["部屋(へや/heya) - room"@, "蛇(へび/hebi) - snake"@, "減る(へる/heru) - to decrease"@],
        seq!["本(ほん/hon) - book"@, "星(ほし/hoshi) - star"@, "欲しい(ほしい/hoshii) - want"@],
        seq!["街(まち/machi) - town"@, "窓(まど/mado) - window"@, "毎日(まいにち/mainichi) - everyday"@],
        seq!["水(みず/mizu) - water"@, "耳(みみ/mimi) - ear"@, "道(みち/michi) - road"@],
        seq!["村(むら/mura) - village"@, "紫(むらさき/murasaki) - purple"@, "難しい(むずかしい/muzukashii) - difficult"@],
        seq!["目(め/me) - eye"@, "飯(めし/meshi) - meal"@, "姪(めい/mei) - niece"@],
        seq!["森(もり/mori) - forest"@, "文字(もじ/moji) - character"@, "桃(もも/momo) - peach"@],
        seq!["山(やま/yama) - mountain"@, "野菜(やさい/yasai) - vegetable"@, "安い(やすい/yasui) - cheap"@],
        seq!["雪(ゆき/yuki) - snow"@, "夢(ゆめ/yume) - dream"@, "指(ゆび/yubi) - finger"@],
        seq!["夜(よる/yoru) - night"@, "四(よん/yon) - four"@, "良い(よい/yoi) - good"@],
        seq!["来月(らいげつ/raigetsu) - next month"@, "楽(らく/raku) - easy"@, "ラーメン(らーめん/raamen) - ramen"@],
        seq!["林(りん/rin) - forest"@, "理由(りゆう/riyuu) - reason"@, "料理(りょうり/ryouri) - cooking"@],
        seq!["留守(るす/rusu) - absence"@, "ルール(るーる/ruuru) - rule"@, "昼(ひる/hiru) - noon"@],
        seq!["例(れい/rei) - example"@, "歴史(れきし/rekishi) - history"@, "冷蔵庫(れいぞうこ/reizouko) - refrigerator"@],
        seq!["六(ろく/roku) - six"@, "廊下(ろうか/rouka) - corridor"@, "ロボット(ろぼっと/robotto) - robot"@],
        seq!["私(わたし/watashi) - I"@, "若い(わかい/wakai) - young"@, "悪い(わるい/warui) - bad"@],
        seq!["(particle)"@, "本を読む(ほんをよむ) - read a book"@, "水を飲む(みずをのむ) - drink water"@],
        seq!["本(ほん/hon) - book"@, "天気(てんき/tenki) - weather"@, "簡単(かんたん/kantan) - simple"@],
    ]
}

/// The flashcard table of the 46 basic kana, keyed by lowercase romaji.
pub fn init_romaji_map() -> (m: RomajiMap)
    ensures
        m.entries@.len() == 46,
        forall|i: int|
            0 <= i < m.entries@.len() ==> #[trigger] m.entries@[i].0@ == gojuon_romaji()[i],
        forall|i: int|
            0 <= i < m.entries@.len() ==> #[trigger] m.entries@[i].1.romaji@
                == gojuon_romaji()[i],
        forall|i: int|
            0 <= i < m.entries@.len() ==> #[trigger] m.entries@[i].1.hiragana@
                == gojuon_hiragana()[i],
        forall|i: int|
            0 <= i < m.entries@.len() ==> #[trigger] m.entries@[i].1.katakana@
                == gojuon_katakana()[i],
        forall|i: int|
            0 <= i < m.entries@.len() ==> #[trigger] m.entries@[i].1.examples.deep_view()
                == gojuon_examples()[i],
        forall|i: int|
            0 <= i < m.entries@.len() ==> #[trigger] m.entries@[i].1.examples@.len() == 3,
        forall|i: int|
            0 <= i < m.entries@.len() ==> known_hiragana(#[trigger] m.entries@[i].1.hiragana@)
                && known_katakana(m.entries@[i].1.katakana@),
{
    let mut entries: Vec<(String, JapaneseChar)> = Vec::new();
    entries.push(card("a", "a", "あ", "ア", "愛(あい/ai) - love", "赤(あか/aka) - red", "朝(あさ/asa) - morning"));
    entries.push(card("i", "i", "い", "イ", "犬(いぬ/inu) - dog", "家(いえ/ie) - house", "石(いし/ishi) - stone"));
    entries.push(card("u", "u", "う", "ウ", "馬(うま/uma) - horse", "海(うみ/umi) - sea", "歌(うた/uta) - song"));
    entries.push(card("e", "e", "え", "エ", "絵(え/e) - picture", "駅(えき/eki) - station", "円(えん/en) - yen"));
    entries.push(card("o", "o", "お", "オ", "音(おと/oto) - sound", "男(おとこ/otoko) - man", "女(おんな/onna) - woman"));
    entries.push(card("ka", "ka", "か", "カ", "川(かわ/kawa) - river", "家族(かぞく/kazoku) - family", "鏡(かがみ/kagami) - mirror"));
    entries.push(card("ki", "ki", "き", "キ", "木(き/ki) - tree", "黄色(きいろ/kiiro) - yellow", "昨日(きのう/kinou) - yesterday"));
    entries.push(card("ku", "ku", "く", "ク", "靴(くつ/kutsu) - shoes", "雲(くも/kumo) - cloud", "口(くち/kuchi) - mouth"));
    entries.push(card("ke", "ke", "け", "ケ", "毛(け/ke) - hair", "消しゴム(けしゴム/keshi gomu) - eraser", "景色(けしき/keshiki) - scenery"));
    entries.push(card("ko", "ko", "こ", "コ", "子供(こども/kodomo) - child", "心(こころ/kokoro) - heart", "声(こえ/koe) - voice"));
    entries.push(card("sa", "sa", "さ", "サ", "桜(さくら/sakura) - cherry blossom", "魚(さかな/sakana) - fish", "寒い(さむい/samui) - cold"));
    entries.push(card("shi", "shi", "し", "シ", "白(しろ/shiro) - white", "塩(しお/shio) - salt", "静か(しずか/shizuka) - quiet"));
    entries.push(card("su", "su", "す", "ス", "寿司(すし/sushi) - sushi", "好き(すき/suki) - like", "砂(すな/suna) - sand"));
    entries.push(card("se", "se", "せ", "セ", "世界(せかい/sekai) - world", "先生(せんせい/sensei) - teacher", "背(せ/se) - back"));
    entries.push(card("so", "so", "そ", "ソ", "空(そら/sora) - sky", "外(そと/soto) - outside", "祖父(そふ/sofu) - grandfather"));
    entries.push(card("ta", "ta", "た", "タ", "食べる(たべる/taberu) - to eat", "誕生日(たんじょうび/tanjoubi) - birthday", "高い(たかい/takai) - high/expensive"));
    entries.push(card("chi", "chi", "ち", "チ", "父(ちち/chichi) - father", "小さい(ちいさい/chiisai) - small", "血(ち/chi) - blood"));
    entries.push(card("tsu", "tsu", "つ", "ツ", "月(つき/tsuki) - moon", "机(つくえ/tsukue) - desk", "強い(つよい/tsuyoi) - strong"));
    entries.push(card("te", "te", "て", "テ", "手(て/te) - hand", "天気(てんき/tenki) - weather", "手紙(てがみ/tegami) - letter"));
    entries.push(card("to", "to", "と", "ト", "友達(ともだち/tomodachi) - friend", "鳥(とり/tori) - bird", "時計(とけい/tokei) - clock"));
    entries.push(card("na", "na", "な", "ナ", "名前(なまえ/namae) - name", "夏(なつ/natsu) - summer", "長い(ながい/nagai) - long"));
    entries.push(card("ni", "ni", "に", "ニ", "日本(にほん/nihon) - Japan", "肉(にく/niku) - meat", "虹(にじ/niji) - rainbow"));
    entries.push(card("nu", "nu", "ぬ", "ヌ", "布(ぬの/nuno) - cloth", "塗る(ぬる/nuru) - to paint", "温い(ぬるい/nurui) - lukewarm"));
    entries.push(card("ne", "ne", "ね", "ネ", "猫(ねこ/neko) - cat", "眠い(ねむい/nemui) - sleepy", "値段(ねだん/nedan) - price"));
    entries.push(card("no", "no", "の", "ノ", "飲む(のむ/nomu) - to drink", "野菜(やさい/yasai) - vegetable", "喉(のど/nodo) - throat"));
    entries.push(card("ha", "ha", "は", "ハ", "花(はな/hana) - flower", "春(はる/haru) - spring", "母(はは/haha) - mother"));
    entries.push(card("hi", "hi", "ひ", "ヒ", "火(ひ/hi) - fire", "人(ひと/hito) - person", "低い(ひくい/hikui) - low"));
    entries.push(card("fu", "fu", "ふ", "フ", "冬(ふゆ/fuyu) - winter", "船(ふね/fune) - ship", "古い(ふるい/furui) - old"));
    entries.push(card("he", "he", "へ", "ヘ", "部屋(へや/heya) - room", "蛇(へび/hebi) - snake", "減る(へる/heru) - to decrease"));
    entries.push(card("ho", "ho", "ほ", "ホ", "本(ほん/hon) - book", "星(ほし/hoshi) - star", "欲しい(ほしい/hoshii) - want"));
    entries.push(card("ma", "ma", "ま", "マ", "街(まち/machi) - town", "窓(まど/mado) - window", "毎日(まいにち/mainichi) - everyday"));
    entries.push(card("mi", "mi", "み", "ミ", "水(みず/mizu) - water", "耳(みみ/mimi) - ear", "道(みち/michi) - road"));
    entries.push(card("mu", "mu", "む", "ム", "村(むら/mura) - village", "紫(むらさき/murasaki) - purple", "難しい(むずかしい/muzukashii) - difficult"));
    entries.push(card("me", "me", "め", "メ", "目(め/me) - eye", "飯(めし/meshi) - meal", "姪(めい/mei) - niece"));
    entries.push(card("mo", "mo", "も", "モ", "森(もり/mori) - forest", "文字(もじ/moji) - character", "桃(もも/momo) - peach"));
    entries.push(card("ya", "ya", "や", "ヤ", "山(やま/yama) - mountain", "野菜(やさい/yasai) - vegetable", "安い(やすい/yasui) - cheap"));
    entries.push(card("yu", "yu", "ゆ", "ユ", "雪(ゆき/yuki) - snow", "夢(ゆめ/yume) - dream", "指(ゆび/yubi) - finger"));
    entries.push(card("yo", "yo", "よ", "ヨ", "夜(よる/yoru) - night", "四(よん/yon) - four", "良い(よい/yoi) - good"));
    entries.push(card("ra", "ra", "ら", "ラ", "来月(らいげつ/raigetsu) - next month", "楽(らく/raku) - easy", "ラーメン(らーめん/raamen) - ramen"));
    entries.push(card("ri", "ri", "り", "リ", "林(りん/rin) - forest", "理由(りゆう/riyuu) - reason", "料理(りょうり/ryouri) - cooking"));
    entries.push(card("ru", "ru", "る", "ル", "留守(るす/rusu) - absence", "ルール(るーる/ruuru) - rule", "昼(ひる/hiru) - noon"));
    entries.push(card("re", "re", "れ", "レ", "例(れい/rei) - example", "歴史(れきし/rekishi) - history", "冷蔵庫(れいぞうこ/reizouko) - refrigerator"));
    entries.push(card("ro", "ro", "ろ", "ロ", "六(ろく/roku) - six", "廊下(ろうか/rouka) - corridor", "ロボット(ろぼっと/robotto) - robot"));
    entries.push(card("wa", "wa", "わ", "ワ", "私(わたし/watashi) - I", "若い(わかい/wakai) - young", "悪い(わるい/warui) - bad"));
    entries.push(card("wo", "wo", "を", "ヲ", "(particle)", "本を読む(ほんをよむ) - read a book", "水を飲む(みずをのむ) - drink water"));
    entries.push(card("n", "n", "ん", "ン", "本(ほん/hon) - book", "天気(てんき/tenki) - weather", "簡単(かんたん/kantan) - simple"));
    proof {
        assert forall|i: int| 0 <= i < entries@.len() implies #[trigger] entries@[i].0@
            == gojuon_romaji()[i] && entries@[i].1.romaji@ == gojuon_romaji()[i] by {}
        assert forall|i: int| 0 <= i < entries@.len() implies #[trigger] entries@[i].1.hiragana@
            == gojuon_hiragana()[i] && entries@[i].1.katakana@ == gojuon_katakana()[i] by {}
        assert forall|i: int|
            0 <= i < entries@.len() implies #[trigger] entries@[i].1.examples.deep_view()
            == gojuon_examples()[i] by {}
        assert forall|i: int|
            0 <= i < entries@.len() implies known_hiragana(
            #[trigger] entries@[i].1.hiragana@,
        ) && known_katakana(entries@[i].1.katakana@) by {}
    }
    RomajiMap { entries }
}

/// If some entry carries `key`, looking `key` up succeeds, wherever in the
/// list that entry stands.
pub proof fn lemma_assoc_card_present(entries: Seq<(String, JapaneseChar)>, key: Seq<char>, j: int)
    requires
        0 <= j < entries.len(),
        entries[j].0@ == key,
    ensures
        assoc_card(entries, key) is Some,
    decreases entries.len(),
{
    if entries[0].0@ == key {
    } else {
        assert(entries.drop_first()[j - 1] == entries[j]);
        lemma_assoc_card_present(entries.drop_first(), key, j - 1);
    }
}

/// Every romaji of the gojuon has a card in a table whose key column is
/// the gojuon, as `init_romaji_map` promises of its result.
pub proof fn lemma_gojuon_covered(entries: Seq<(String, JapaneseChar)>, i: int)
    requires
        entries.len() == gojuon_romaji().len(),
        forall|k: int| 0 <= k < entries.len() ==> #[trigger] entries[k].0@ == gojuon_romaji()[k],
        0 <= i < gojuon_romaji().len(),
    ensures
        assoc_card(entries, gojuon_romaji()[i]) is Some,
{
    lemma_assoc_card_present(entries, gojuon_romaji()[i], i);
}

/// A successful lookup hands back one of the stored cards.
pub proof fn lemma_assoc_card_is_entry(entries: Seq<(String, JapaneseChar)>, key: Seq<char>)
    requires
        assoc_card(entries, key) is Some,
    ensures
        exists|j: int|
            0 <= j < entries.len() && assoc_card(entries, key) == Some(#[trigger] entries[j].1),
    decreases entries.len(),
{
    if entries[0].0@ == key {
        assert(assoc_card(entries, key) == Some(entries[0].1));
    } else {
        lemma_assoc_card_is_entry(entries.drop_first(), key);
        let j = choose|j: int|
            0 <= j < entries.drop_first().len() && assoc_card(entries.drop_first(), key) == Some(
                #[trigger] entries.drop_first()[j].1,
            );
        assert(entries.drop_first()[j] == entries[j + 1]);
        assert(assoc_card(entries, key) == Some(entries[j + 1].1));
    }
}

/// A card from a table whose kana are all known — as `init_romaji_map`
/// promises of its result — renders the hand-drawn pictures, never the
/// fallback frame.
pub proof fn lemma_card_art_known(
    entries: Seq<(String, JapaneseChar)>,
    key: Seq<char>,
    c: JapaneseChar,
)
    requires
        forall|i: int|
            0 <= i < entries.len() ==> known_hiragana(#[trigger] entries[i].1.hiragana@)
                && known_katakana(entries[i].1.katakana@),
        assoc_card(entries, key) == Some(c),
    ensures
        known_hiragana(c.hiragana@),
        known_katakana(c.katakana@),
{
    lemma_assoc_card_is_entry(entries, key);
    let j = choose|j: int|
        0 <= j < entries.len() && assoc_card(entries, key) == Some(#[trigger] entries[j].1);
    assert(c == entries[j].1);
    assert(known_hiragana(entries[j].1.hiragana@) && known_katakana(entries[j].1.katakana@));
}

/// The key column of the phrase table, in table order.
pub open spec fn chinese_keys() -> Seq<Seq<char>> {
    seq![
        "你好"@,
        "早上好"@,
        "晚上好"@,
        "谢谢"@,
        "对不起"@,
        "再见"@,
        "是"@,
        "不是"@,
        "请"@,
        "爱"@,
        "水"@,
        "火"@,
        "山"@,
        "天"@,
        "地"@,
        "人"@,
        "日"@,
        "月"@,
        "花"@,
        "树"@,
        "书"@,
        "学习"@,
        "朋友"@,
        "家"@,
        "学校"@,
        "老师"@,
        "学生"@,
        "一"@,
        "二"@,
        "三"@,
        "四"@,
        "五"@,
        "六"@,
        "七"@,
        "八"@,
        "九"@,
        "十"@,
        "父亲"@,
        "母亲"@,
        "哥哥"@,
        "姐姐"@,
        "弟弟"@,
        "妹妹"@,
        "红色"@,
        "蓝色"@,
        "白色"@,
        "黑色"@,
        "黄色"@,
        "绿色"@,
        "春天"@,
        "夏天"@,
        "秋天"@,
        "冬天"@,
        "星期一"@,
        "星期二"@,
        "星期三"@,
        "星期四"@,
        "星期五"@,
        "星期六"@,
        "星期日"@,
    ]
}

/// The translation column of the phrase table, in table order.
pub open spec fn chinese_values() -> Seq<Seq<char>> {
    seq![
        "こんにちは (konnichiwa)"@,
        "おはよう (ohayou)"@,
        "こんばんは (konbanwa)"@,
        "ありがとう (arigatou)"@,
        "すみません (sumimasen)"@,
        "さようなら (sayounara)"@,
        "はい (hai)"@,
        "いいえ (iie)"@,
        "お願いします (onegaishimasu)"@,
        "愛 (あい/ai)"@,
        "水 (みず/mizu)"@,
        "火 (ひ/hi)"@,
        "山 (やま/yama)"@,
        "天 (てん/ten)"@,
        "地 (ち/chi)"@,
        "人 (ひと/hito)"@,
        "日 (ひ/hi)"@,
        "月 (つき/tsuki)"@,
        "花 (はな/hana)"@,
        "木 (き/ki)"@,
        "本 (ほん/hon)"@,
        "勉強 (べんきょう/benkyou)"@,
        "友達 (ともだち/tomodachi)"@,
        "家 (いえ/ie)"@,
        "学校 (がっこう/gakkou)"@,
        "先生 (せんせい/sensei)"@,
        "学生 (がくせい/gakusei)"@,
        "一 (いち/ichi)"@,
        "二 (に/ni)"@,
        "三 (さん/san)"@,
        "四 (し・よん/shi/yon)"@,
        "五 (ご/go)"@,
        "六 (ろく/roku)"@,
        "七 (しち・なな/shichi/nana)"@,
        "八 (はち/hachi)"@,
        "九 (きゅう/kyuu)"@,
        "十 (じゅう/juu)"@,
        "父 (ちち/chichi)"@,
        "母 (はは/haha)"@,
        "兄 (あに/ani)"@,
        "姉 (あね/ane)"@,
        "弟 (おとうと/otouto)"@,
        "妹 (いもうと/imouto)"@,
        "赤 (あか/aka)"@,
        "青 (あお/ao)"@,
        "白 (しろ/shiro)"@,
        "黒 (くろ/kuro)"@,
        "黄色 (きいろ/kiiro)"@,
        "緑 (みどり/midori)"@,
        "春 (はる/haru)"@,
        "夏 (なつ/natsu)"@,
        "秋 (あき/aki)"@,
        "冬 (ふゆ/fuyu)"@,
        "月曜日 (げつようび/getsuyoubi)"@,
        "火曜日 (かようび/kayoubi)"@,
        "水曜日 (すいようび/suiyoubi)"@,
        "木曜日 (もくようび/mokuyoubi)"@,
        "金曜日 (きんようび/kinyoubi)"@,
        "土曜日 (どようび/doyoubi)"@,
        "日曜日 (にちようび/nichiyoubi)"@,
    ]
}

/// The phrase table: everyday Chinese words with their Japanese forms.
pub fn init_chinese_map() -> (m: ChineseMap)
    ensures
        m.entries@.len() == 60,
        forall|i: int|
            0 <= i < m.entries@.len() ==> #[trigger] m.entries@[i].0@ == chinese_keys()[i],
        forall|i: int|
            0 <= i < m.entries@.len() ==> #[trigger] m.entries@[i].1@ == chinese_values()[i],
{
    let mut entries: Vec<(String, String)> = Vec::new();
    entries.push((String::from_str("你好"), String::from_str("こんにちは (konnichiwa)")));
    entries.push((String::from_str("早上好"), String::from_str("おはよう (ohayou)")));
    entries.push((String::from_str("晚上好"), String::from_str("こんばんは (konbanwa)")));
    entries.push((String::from_str("谢谢"), String::from_str("ありがとう (arigatou)")));
    entries.push((String::from_str("对不起"), String::from_str("すみません (sumimasen)")));
    entries.push((String::from_str("再见"), String::from_str("さようなら (sayounara)")));
    entries.push((String::from_str("是"), String::from_str("はい (hai)")));
    entries.push((String::from_str("不是"), String::from_str("いいえ (iie)")));
    entries.push((String::from_str("请"), String::from_str("お願いします (onegaishimasu)")));
    entries.push((String::from_str("爱"), String::from_str("愛 (あい/ai)")));
    entries.push((String::from_str("水"), String::from_str("水 (みず/mizu)")));
    entries.push((String::from_str("火"), String::from_str("火 (ひ/hi)")));
    entries.push((String::from_str("山"), String::from_str("山 (やま/yama)")));
    entries.push((String::from_str("天"), String::from_str("天 (てん/ten)")));
    entries.push((String::from_str("地"), String::from_str("地 (ち/chi)")));
    entries.push((String::from_str("人"), String::from_str("人 (ひと/hito)")));
    entries.push((String::from_str("日"), String::from_str("日 (ひ/hi)")));
    entries.push((String::from_str("月"), String::from_str("月 (つき/tsuki)")));
    entries.push((String::from_str("花"), String::from_str("花 (はな/hana)")));
    entries.push((String::from_str("树"), String::from_str("木 (き/ki)")));
    entries.push((String::from_str("书"), String::from_str("本 (ほん/hon)")));
    entries.push((String::from_str("学习"), String::from_str("勉強 (べんきょう/benkyou)")));
    entries.push((String::from_str("朋友"), String::from_str("友達 (ともだち/tomodachi)")));
    entries.push((String::from_str("家"), String::from_str("家 (いえ/ie)")));
    entries.push((String::from_str("学校"), String::from_str("学校 (がっこう/gakkou)")));
    entries.push((String::from_str("老师"), String::from_str("先生 (せんせい/sensei)")));
    entries.push((String::from_str("学生"), String::from_str("学生 (がくせい/gakusei)")));
    entries.push((String::from_str("一"), String::from_str("一 (いち/ichi)")));
    entries.push((String::from_str("二"), String::from_str("二 (に/ni)")));
    entries.push((String::from_str("三"), String::from_str("三 (さん/san)")));
    entries.push((String::from_str("四"), String::from_str("四 (し・よん/shi/yon)")));
    entries.push((String::from_str("五"), String::from_str("五 (ご/go)")));
    entries.push((String::from_str("六"), String::from_str("六 (ろく/roku)")));
    entries.push((String::from_str("七"), String::from_str("七 (しち・なな/shichi/nana)")));
    entries.push((String::from_str("八"), String::from_str("八 (はち/hachi)")));
    entries.push((String::from_str("九"), String::from_str("九 (きゅう/kyuu)")));
    entries.push((String::from_str("十"), String::from_str("十 (じゅう/juu)")));
    entries.push((String::from_str("父亲"), String::from_str("父 (ちち/chichi)")));
    entries.push((String::from_str("母亲"), String::from_str("母 (はは/haha)")));
    entries.push((String::from_str("哥哥"), String::from_str("兄 (あに/ani)")));
    entries.push((String::from_str("姐姐"), String::from_str("姉 (あね/ane)")));
    entries.push((String::from_str("弟弟"), String::from_str("弟 (おとうと/otouto)")));
    entries.push((String::from_str("妹妹"), String::from_str("妹 (いもうと/imouto)")));
    entries.push((String::from_str("红色"), String::from_str("赤 (あか/aka)")));
    entries.push((String::from_str("蓝色"), String::from_str("青 (あお/ao)")));
    entries.push((String::from_str("白色"), String::from_str("白 (しろ/shiro)")));
    entries.push((String::from_str("黑色"), String::from_str("黒 (くろ/kuro)")));
    entries.push((String::from_str("黄色"), String::from_str("黄色 (きいろ/kiiro)")));
    entries.push((String::from_str("绿色"), String::from_str("緑 (みどり/midori)")));
    entries.push((String::from_str("春天"), String::from_str("春 (はる/haru)")));
    entries.push((String::from_str("夏天"), String::from_str("夏 (なつ/natsu)")));
    entries.push((String::from_str("秋天"), String::from_str("秋 (あき/aki)")));
    entries.push((String::from_str("冬天"), String::from_str("冬 (ふゆ/fuyu)")));
    entries.push((String::from_str("星期一"), String::from_str("月曜日 (げつようび/getsuyoubi)")));
    entries.push((String::from_str("星期二"), String::from_str("火曜日 (かようび/kayoubi)")));
    entries.push((String::from_str("星期三"), String::from_str("水曜日 (すいようび/suiyoubi)")));
    entries.push((String::from_str("星期四"), String::from_str("木曜日 (もくようび/mokuyoubi)")));
    entries.push((String::from_str("星期五"), String::from_str("金曜日 (きんようび/kinyoubi)")));
    entries.push((String::from_str("星期六"), String::from_str("土曜日 (どようび/doyoubi)")));
    entries.push((String::from_str("星期日"), String::from_str("日曜日 (にちようび/nichiyoubi)")));
    proof {
        assert forall|i: int| 0 <= i < entries@.len() implies #[trigger] entries@[i].0@
            == chinese_keys()[i] && entries@[i].1@ == chinese_values()[i] by {}
    }
    ChineseMap { entries }
}

/// If some entry carries `key`, looking `key` up in the phrase table
/// succeeds, wherever in the list that entry stands.
pub proof fn lemma_assoc_phrase_present(entries: Seq<(String, String)>, key: Seq<char>, j: int)
    requires
        0 <= j < entries.len(),
        entries[j].0@ == key,
    ensures
        assoc_phrase(entries, key) is Some,
    decreases entries.len(),
{
    if entries[0].0@ == key {
    } else {
        assert(entries.drop_first()[j - 1] == entries[j]);
        lemma_assoc_phrase_present(entries.drop_first(), key, j - 1);
    }
}

} // verus!
