//! The lookup pipeline of the flashcard command: width-aware padding for the
//! framed card, detection of Chinese input, the classification of an input
//! line into the four ways it is answered, and the fully rendered flashcard,
//! fixed line for line by `spec_card_lines`.

use vstd::prelude::*;

use crate::art::{get_ascii_art, get_katakana_ascii_art, hiragana_art, katakana_art};
use crate::dict::{assoc_card, assoc_phrase, chinese_keys, ChineseMap, JapaneseChar, RomajiMap};
use crate::text::{
    ascii_lower, ascii_upper, lemma_lower_chars_ascii, lemma_lower_chars_idempotent, lower_chars,
    make_spaces, spaces, spec_u64_digits, u64_to_string, upper_chars,
};

verus! {

/// How many terminal columns a string occupies when displayed.
pub uninterp spec fn str_width(s: Seq<char>) -> usize;

/// Relies on unicode_width's `UnicodeWidthStr::width`: the displayed column
/// count of a string under Unicode Standard Annex 11, a function of the
/// characters alone; an empty string occupies no columns.
#[verifier::external_body]
fn display_width(s: &str) -> (w: usize)
    ensures
        w == str_width(s@),
        s@.len() == 0 ==> w == 0,
{
    unicode_width::UnicodeWidthStr::width(s)
}

/// `t` padded on the right with spaces to `width` columns; text at least
/// that wide stays as it is.
pub open spec fn spec_pad_right(t: Seq<char>, width: int) -> Seq<char> {
    if str_width(t) >= width {
        t
    } else {
        t + spaces(width - str_width(t))
    }
}

/// `t` centered in `width` columns, the leftover space split evenly with
/// the odd column on the right; text at least that wide stays as it is.
pub open spec fn spec_center(t: Seq<char>, width: int) -> Seq<char> {
    if str_width(t) >= width {
        t
    } else {
        spaces((width - str_width(t)) / 2) + t + spaces(
            (width - str_width(t)) - (width - str_width(t)) / 2,
        )
    }
}

/// Pads `text` on the right to `width` display columns.
pub fn pad_right(text: &str, width: usize) -> (r: String)
    ensures
        r@ == spec_pad_right(text@, width as int),
{
    let w = display_width(text);
    let mut r = String::from_str(text);
    if w < width {
        let pad = make_spaces(width - w);
        r.append(pad.as_str());
    }
    r
}

/// Centers `text` in `width` display columns.
pub fn center_text(text: &str, width: usize) -> (r: String)
    ensures
        r@ == spec_center(text@, width as int),
{
    let w = display_width(text);
    if w >= width {
        return String::from_str(text);
    }
    let left = (width - w) / 2;
    let right = (width - w) - left;
    let mut r = make_spaces(left);
    r.append(text);
    let pad = make_spaces(right);
    r.append(pad.as_str());
    r
}

/// The width between the flashcard frame's vertical borders.
pub const INNER_WIDTH: usize = 85;

/// One framed body line: the border column, the text padded to the inner
/// width, the border column again.
pub open spec fn framed(t: Seq<char>) -> Seq<char> {
    "\u{2551}"@ + spec_pad_right(t, INNER_WIDTH as int) + "\u{2551}"@
}

/// One framed heading line, centered instead of padded.
pub open spec fn framed_center(t: Seq<char>) -> Seq<char> {
    "\u{2551}"@ + spec_center(t, INNER_WIDTH as int) + "\u{2551}"@
}

/// One body line of the framed flashcard: `text` padded to the inner width,
/// with the border column on both sides.
pub fn frame_line(text: &str) -> (r: String)
    ensures
        r@ == framed(text@),
{
    let mut r = String::from_str("\u{2551}");
    let padded = pad_right(text, INNER_WIDTH);
    r.append(padded.as_str());
    r.append("\u{2551}");
    r
}

/// One heading line of the framed flashcard: `text` centered in the inner
/// width, with the border column on both sides.
pub fn frame_center_line(text: &str) -> (r: String)
    ensures
        r@ == framed_center(text@),
{
    let mut r = String::from_str("\u{2551}");
    let centered = center_text(text, INNER_WIDTH);
    r.append(centered.as_str());
    r.append("\u{2551}");
    r
}

/// A CJK ideograph: the unified block or extension A.
pub open spec fn is_cjk_char(c: char) -> bool {
    (0x4E00 <= c as u32 && c as u32 <= 0x9FFF) || (0x3400 <= c as u32 && c as u32 <= 0x4DBF)
}

pub open spec fn has_cjk(s: Seq<char>) -> bool {
    exists|i: int| 0 <= i < s.len() && is_cjk_char(s[i])
}

/// Whether the input contains a CJK ideograph — the test that decides
/// whether an unknown word is sent to the language-model translator.
pub fn has_chinese(text: &str) -> (b: bool)
    ensures
        b == has_cjk(text@),
{
    let n = text.unicode_len();
    let mut i: usize = 0;
    while i < n
        invariant
            n == text@.len(),
            i <= n,
            forall|j: int| 0 <= j < i ==> !is_cjk_char(text@[j]),
        decreases n - i,
    {
        let c = text.get_char(i);
        let v = c as u32;
        if (0x4E00 <= v && v <= 0x9FFF) || (0x3400 <= v && v <= 0x4DBF) {
            return true;
        }
        i += 1;
    }
    false
}

/// The four ways an input line is answered.
#[derive(Clone, Copy, PartialEq, Eq, Structural, Debug)]
pub enum LookupKind {
    /// The ASCII-lowercased input is a romaji key: render its flashcard.
    Kana,
    /// The input, as written, is in the phrase table: print the translation.
    Chinese,
    /// Unknown, but contains a CJK ideograph: ask the language model.
    NeedsLlm,
    /// Unknown and not Chinese: report that nothing was found.
    NotFound,
}

/// How an input line is classified: the romaji table is consulted first,
/// with the input lowercased; then the phrase table, with the input as
/// written; what remains is split by whether it contains Chinese at all.
pub open spec fn spec_lookup_kind(
    rm: Seq<(String, JapaneseChar)>,
    cm: Seq<(String, String)>,
    text: Seq<char>,
) -> LookupKind {
    if assoc_card(rm, lower_chars(text)) is Some {
        LookupKind::Kana
    } else if assoc_phrase(cm, text) is Some {
        LookupKind::Chinese
    } else if has_cjk(text) {
        LookupKind::NeedsLlm
    } else {
        LookupKind::NotFound
    }
}

/// Classifies one input line against the two dictionaries.
pub fn lookup_kind(romaji: &RomajiMap, chinese: &ChineseMap, text: &str) -> (k: LookupKind)
    ensures
        k == spec_lookup_kind(romaji.entries@, chinese.entries@, text@),
{
    let lowered = ascii_lower(text);
    match romaji.get(lowered.as_str()) {
        Some(_) => LookupKind::Kana,
        None => match chinese.get(text) {
            Some(_) => LookupKind::Chinese,
            None => if has_chinese(text) {
                LookupKind::NeedsLlm
            } else {
                LookupKind::NotFound
            },
        },
    }
}


/// Every line of the framed flashcard printed for one card: the banner, the
/// uppercased romaji, both kana, their fifteen-row art blocks, and the
/// numbered example words between the frame's borders.
pub open spec fn spec_card_lines(
    romaji: Seq<char>,
    hiragana: Seq<char>,
    katakana: Seq<char>,
    examples: Seq<Seq<char>>,
) -> Seq<Seq<char>> {
    seq![
        "\u{2554}\u{2550}\u{2550}\u{2550}\u{2550}\u{2550}\u{2550}\u{2550}\u{2550}\u{2550}\u{2550}\u{2550}\u{2550}\u{2550}\u{2550}\u{2550}\u{2550}\u{2550}\u{2550}\u{2550}\u{2550}\u{2550}\u{2550}\u{2550}\u{2550}\u{2550}\u{2550}\u{2550}\u{2550}\u{2550}\u{2550}\u{2550}\u{2550}\u{2550}\u{2550}\u{2550}\u{2550}\u{2550}\u{2550}\u{2550}\u{2550}\u{2550}\u{2550}\u{2550}\u{2550}\u{2550}\u{2550}\u{2550}\u{2550}\u{2550}\u{2550}\u{2550}\u{2550}\u{2550}\u{2550}\u{2550}\u{2550}\u{2550}\u{2550}\u{2550}\u{2550}\u{2550}\u{2550}\u{2550}\u{2550}\u{2550}\u{2550}\u{2550}\u{2550}\u{2550}\u{2550}\u{2550}\u{2550}\u{2550}\u{2550}\u{2550}\u{2550}\u{2550}\u{2550}\u{2550}\u{2550}\u{2550}\u{2550}\u{2550}\u{2550}\u{2550}\u{2557}"@,
        framed_center("JAPANESE KANA FLASHCARD"@),
        "\u{2560}\u{2550}\u{2550}\u{2550}\u{2550}\u{2550}\u{2550}\u{2550}\u{2550}\u{2550}\u{2550}\u{2550}\u{2550}\u{2550}\u{2550}\u{2550}\u{2550}\u{2550}\u{2550}\u{2550}\u{2550}\u{2550}\u{2550}\u{2550}\u{2550}\u{2550}\u{2550}\u{2550}\u{2550}\u{2550}\u{2550}\u{2550}\u{2550}\u{2550}\u{2550}\u{2550}\u{2550}\u{2550}\u{2550}\u{2550}\u{2550}\u{2550}\u{2550}\u{2550}\u{2550}\u{2550}\u{2550}\u{2550}\u{2550}\u{2550}\u{2550}\u{2550}\u{2550}\u{2550}\u{2550}\u{2550}\u{2550}\u{2550}\u{2550}\u{2550}\u{2550}\u{2550}\u{2550}\u{2550}\u{2550}\u{2550}\u{2550}\u{2550}\u{2550}\u{2550}\u{2550}\u{2550}\u{2550}\u{2550}\u{2550}\u{2550}\u{2550}\u{2550}\u{2550}\u{2550}\u{2550}\u{2550}\u{2550}\u{2550}\u{2550}\u{2550}\u{2563}"@,
        framed(""@),
        framed("   Romaji: "@ + upper_chars(romaji)),
        framed(""@),
        framed("   平假名: "@ + hiragana + "        片假名: "@ + katakana),
        framed(""@),
        "\u{2560}\u{2550}\u{2550}\u{2550}\u{2550}\u{2550}\u{2550}\u{2550}\u{2550}\u{2550}\u{2550}\u{2550}\u{2550}\u{2550}\u{2550}\u{2550}\u{2550}\u{2550}\u{2550}\u{2550}\u{2550}\u{2550}\u{2550}\u{2550}\u{2550}\u{2550}\u{2550}\u{2550}\u{2550}\u{2550}\u{2550}\u{2550}\u{2550}\u{2550}\u{2550}\u{2550}\u{2550}\u{2550}\u{2550}\u{2550}\u{2550}\u{2550}\u{2550}\u{2550}\u{2550}\u{2550}\u{2550}\u{2550}\u{2550}\u{2550}\u{2550}\u{2550}\u{2550}\u{2550}\u{2550}\u{2550}\u{2550}\u{2550}\u{2550}\u{2550}\u{2550}\u{2550}\u{2550}\u{2550}\u{2550}\u{2550}\u{2550}\u{2550}\u{2550}\u{2550}\u{2550}\u{2550}\u{2550}\u{2550}\u{2550}\u{2550}\u{2550}\u{2550}\u{2550}\u{2550}\u{2550}\u{2550}\u{2550}\u{2550}\u{2550}\u{2550}\u{2563}"@,
        framed_center("平假名 (Hiragana) ASCII Art"@),
        "\u{2560}\u{2550}\u{2550}\u{2550}\u{2550}\u{2550}\u{2550}\u{2550}\u{2550}\u{2550}\u{2550}\u{2550}\u{2550}\u{2550}\u{2550}\u{2550}\u{2550}\u{2550}\u{2550}\u{2550}\u{2550}\u{2550}\u{2550}\u{2550}\u{2550}\u{2550}\u{2550}\u{2550}\u{2550}\u{2550}\u{2550}\u{2550}\u{2550}\u{2550}\u{2550}\u{2550}\u{2550}\u{2550}\u{2550}\u{2550}\u{2550}\u{2550}\u{2550}\u{2550}\u{2550}\u{2550}\u{2550}\u{2550}\u{2550}\u{2550}\u{2550}\u{2550}\u{2550}\u{2550}\u{2550}\u{2550}\u{2550}\u{2550}\u{2550}\u{2550}\u{2550}\u{2550}\u{2550}\u{2550}\u{2550}\u{2550}\u{2550}\u{2550}\u{2550}\u{2550}\u{2550}\u{2550}\u{2550}\u{2550}\u{2550}\u{2550}\u{2550}\u{2550}\u{2550}\u{2550}\u{2550}\u{2550}\u{2550}\u{2550}\u{2550}\u{2550}\u{2563}"@,
    ] + Seq::new(hiragana_art(hiragana).len(), |j: int| framed(" "@ + hiragana_art(hiragana)[j]))
        + seq![
        "\u{2560}\u{2550}\u{2550}\u{2550}\u{2550}\u{2550}\u{2550}\u{2550}\u{2550}\u{2550}\u{2550}\u{2550}\u{2550}\u{2550}\u{2550}\u{2550}\u{2550}\u{2550}\u{2550}\u{2550}\u{2550}\u{2550}\u{2550}\u{2550}\u{2550}\u{2550}\u{2550}\u{2550}\u{2550}\u{2550}\u{2550}\u{2550}\u{2550}\u{2550}\u{2550}\u{2550}\u{2550}\u{2550}\u{2550}\u{2550}\u{2550}\u{2550}\u{2550}\u{2550}\u{2550}\u{2550}\u{2550}\u{2550}\u{2550}\u{2550}\u{2550}\u{2550}\u{2550}\u{2550}\u{2550}\u{2550}\u{2550}\u{2550}\u{2550}\u{2550}\u{2550}\u{2550}\u{2550}\u{2550}\u{2550}\u{2550}\u{2550}\u{2550}\u{2550}\u{2550}\u{2550}\u{2550}\u{2550}\u{2550}\u{2550}\u{2550}\u{2550}\u{2550}\u{2550}\u{2550}\u{2550}\u{2550}\u{2550}\u{2550}\u{2550}\u{2550}\u{2563}"@,
        framed_center("片假名 (Katakana) ASCII Art"@),
        "\u{2560}\u{2550}\u{2550}\u{2550}\u{2550}\u{2550}\u{2550}\u{2550}\u{2550}\u{2550}\u{2550}\u{2550}\u{2550}\u{2550}\u{2550}\u{2550}\u{2550}\u{2550}\u{2550}\u{2550}\u{2550}\u{2550}\u{2550}\u{2550}\u{2550}\u{2550}\u{2550}\u{2550}\u{2550}\u{2550}\u{2550}\u{2550}\u{2550}\u{2550}\u{2550}\u{2550}\u{2550}\u{2550}\u{2550}\u{2550}\u{2550}\u{2550}\u{2550}\u{2550}\u{2550}\u{2550}\u{2550}\u{2550}\u{2550}\u{2550}\u{2550}\u{2550}\u{2550}\u{2550}\u{2550}\u{2550}\u{2550}\u{2550}\u{2550}\u{2550}\u{2550}\u{2550}\u{2550}\u{2550}\u{2550}\u{2550}\u{2550}\u{2550}\u{2550}\u{2550}\u{2550}\u{2550}\u{2550}\u{2550}\u{2550}\u{2550}\u{2550}\u{2550}\u{2550}\u{2550}\u{2550}\u{2550}\u{2550}\u{2550}\u{2550}\u{2550}\u{2563}"@,
    ] + Seq::new(katakana_art(katakana).len(), |j: int| framed(" "@ + katakana_art(katakana)[j]))
        + seq![
        "\u{2560}\u{2550}\u{2550}\u{2550}\u{2550}\u{2550}\u{2550}\u{2550}\u{2550}\u{2550}\u{2550}\u{2550}\u{2550}\u{2550}\u{2550}\u{2550}\u{2550}\u{2550}\u{2550}\u{2550}\u{2550}\u{2550}\u{2550}\u{2550}\u{2550}\u{2550}\u{2550}\u{2550}\u{2550}\u{2550}\u{2550}\u{2550}\u{2550}\u{2550}\u{2550}\u{2550}\u{2550}\u{2550}\u{2550}\u{2550}\u{2550}\u{2550}\u{2550}\u{2550}\u{2550}\u{2550}\u{2550}\u{2550}\u{2550}\u{2550}\u{2550}\u{2550}\u{2550}\u{2550}\u{2550}\u{2550}\u{2550}\u{2550}\u{2550}\u{2550}\u{2550}\u{2550}\u{2550}\u{2550}\u{2550}\u{2550}\u{2550}\u{2550}\u{2550}\u{2550}\u{2550}\u{2550}\u{2550}\u{2550}\u{2550}\u{2550}\u{2550}\u{2550}\u{2550}\u{2550}\u{2550}\u{2550}\u{2550}\u{2550}\u{2550}\u{2550}\u{2563}"@,
        framed("  Example Words (例词):"@),
    ] + Seq::new(examples.len(), |j: int| framed("  "@ + spec_u64_digits(j + 1) + ". "@ + examples[j]))
        + seq!["\u{255a}\u{2550}\u{2550}\u{2550}\u{2550}\u{2550}\u{2550}\u{2550}\u{2550}\u{2550}\u{2550}\u{2550}\u{2550}\u{2550}\u{2550}\u{2550}\u{2550}\u{2550}\u{2550}\u{2550}\u{2550}\u{2550}\u{2550}\u{2550}\u{2550}\u{2550}\u{2550}\u{2550}\u{2550}\u{2550}\u{2550}\u{2550}\u{2550}\u{2550}\u{2550}\u{2550}\u{2550}\u{2550}\u{2550}\u{2550}\u{2550}\u{2550}\u{2550}\u{2550}\u{2550}\u{2550}\u{2550}\u{2550}\u{2550}\u{2550}\u{2550}\u{2550}\u{2550}\u{2550}\u{2550}\u{2550}\u{2550}\u{2550}\u{2550}\u{2550}\u{2550}\u{2550}\u{2550}\u{2550}\u{2550}\u{2550}\u{2550}\u{2550}\u{2550}\u{2550}\u{2550}\u{2550}\u{2550}\u{2550}\u{2550}\u{2550}\u{2550}\u{2550}\u{2550}\u{2550}\u{2550}\u{2550}\u{2550}\u{2550}\u{2550}\u{2550}\u{255d}"@]
}

/// The framed flashcard for one card, line by line, ready to print.
pub fn card_lines(card: &JapaneseChar) -> (r: Vec<String>)
    ensures
        r.deep_view() == spec_card_lines(
            card.romaji@,
            card.hiragana@,
            card.katakana@,
            card.examples.deep_view(),
        ),
{
    let ghost hseq = hiragana_art(card.hiragana@);
    let ghost kseq = katakana_art(card.katakana@);
    let ghost exs = card.examples.deep_view();
    let ghost hlen = hseq.len() as int;
    let ghost klen = kseq.len() as int;
    let ghost elen = exs.len() as int;
    let ghost head: Seq<Seq<char>> = seq![
        "\u{2554}\u{2550}\u{2550}\u{2550}\u{2550}\u{2550}\u{2550}\u{2550}\u{2550}\u{2550}\u{2550}\u{2550}\u{2550}\u{2550}\u{2550}\u{2550}\u{2550}\u{2550}\u{2550}\u{2550}\u{2550}\u{2550}\u{2550}\u{2550}\u{2550}\u{2550}\u{2550}\u{2550}\u{2550}\u{2550}\u{2550}\u{2550}\u{2550}\u{2550}\u{2550}\u{2550}\u{2550}\u{2550}\u{2550}\u{2550}\u{2550}\u{2550}\u{2550}\u{2550}\u{2550}\u{2550}\u{2550}\u{2550}\u{2550}\u{2550}\u{2550}\u{2550}\u{2550}\u{2550}\u{2550}\u{2550}\u{2550}\u{2550}\u{2550}\u{2550}\u{2550}\u{2550}\u{2550}\u{2550}\u{2550}\u{2550}\u{2550}\u{2550}\u{2550}\u{2550}\u{2550}\u{2550}\u{2550}\u{2550}\u{2550}\u{2550}\u{2550}\u{2550}\u{2550}\u{2550}\u{2550}\u{2550}\u{2550}\u{2550}\u{2550}\u{2550}\u{2557}"@,
        framed_center("JAPANESE KANA FLASHCARD"@),
        "\u{2560}\u{2550}\u{2550}\u{2550}\u{2550}\u{2550}\u{2550}\u{2550}\u{2550}\u{2550}\u{2550}\u{2550}\u{2550}\u{2550}\u{2550}\u{2550}\u{2550}\u{2550}\u{2550}\u{2550}\u{2550}\u{2550}\u{2550}\u{2550}\u{2550}\u{2550}\u{2550}\u{2550}\u{2550}\u{2550}\u{2550}\u{2550}\u{2550}\u{2550}\u{2550}\u{2550}\u{2550}\u{2550}\u{2550}\u{2550}\u{2550}\u{2550}\u{2550}\u{2550}\u{2550}\u{2550}\u{2550}\u{2550}\u{2550}\u{2550}\u{2550}\u{2550}\u{2550}\u{2550}\u{2550}\u{2550}\u{2550}\u{2550}\u{2550}\u{2550}\u{2550}\u{2550}\u{2550}\u{2550}\u{2550}\u{2550}\u{2550}\u{2550}\u{2550}\u{2550}\u{2550}\u{2550}\u{2550}\u{2550}\u{2550}\u{2550}\u{2550}\u{2550}\u{2550}\u{2550}\u{2550}\u{2550}\u{2550}\u{2550}\u{2550}\u{2550}\u{2563}"@,
        framed(""@),
        framed("   Romaji: "@ + upper_chars(card.romaji@)),
        framed(""@),
        framed("   平假名: "@ + card.hiragana@ + "        片假名: "@ + card.katakana@),
        framed(""@),
        "\u{2560}\u{2550}\u{2550}\u{2550}\u{2550}\u{2550}\u{2550}\u{2550}\u{2550}\u{2550}\u{2550}\u{2550}\u{2550}\u{2550}\u{2550}\u{2550}\u{2550}\u{2550}\u{2550}\u{2550}\u{2550}\u{2550}\u{2550}\u{2550}\u{2550}\u{2550}\u{2550}\u{2550}\u{2550}\u{2550}\u{2550}\u{2550}\u{2550}\u{2550}\u{2550}\u{2550}\u{2550}\u{2550}\u{2550}\u{2550}\u{2550}\u{2550}\u{2550}\u{2550}\u{2550}\u{2550}\u{2550}\u{2550}\u{2550}\u{2550}\u{2550}\u{2550}\u{2550}\u{2550}\u{2550}\u{2550}\u{2550}\u{2550}\u{2550}\u{2550}\u{2550}\u{2550}\u{2550}\u{2550}\u{2550}\u{2550}\u{2550}\u{2550}\u{2550}\u{2550}\u{2550}\u{2550}\u{2550}\u{2550}\u{2550}\u{2550}\u{2550}\u{2550}\u{2550}\u{2550}\u{2550}\u{2550}\u{2550}\u{2550}\u{2550}\u{2550}\u{2563}"@,
        framed_center("平假名 (Hiragana) ASCII Art"@),
        "\u{2560}\u{2550}\u{2550}\u{2550}\u{2550}\u{2550}\u{2550}\u{2550}\u{2550}\u{2550}\u{2550}\u{2550}\u{2550}\u{2550}\u{2550}\u{2550}\u{2550}\u{2550}\u{2550}\u{2550}\u{2550}\u{2550}\u{2550}\u{2550}\u{2550}\u{2550}\u{2550}\u{2550}\u{2550}\u{2550}\u{2550}\u{2550}\u{2550}\u{2550}\u{2550}\u{2550}\u{2550}\u{2550}\u{2550}\u{2550}\u{2550}\u{2550}\u{2550}\u{2550}\u{2550}\u{2550}\u{2550}\u{2550}\u{2550}\u{2550}\u{2550}\u{2550}\u{2550}\u{2550}\u{2550}\u{2550}\u{2550}\u{2550}\u{2550}\u{2550}\u{2550}\u{2550}\u{2550}\u{2550}\u{2550}\u{2550}\u{2550}\u{2550}\u{2550}\u{2550}\u{2550}\u{2550}\u{2550}\u{2550}\u{2550}\u{2550}\u{2550}\u{2550}\u{2550}\u{2550}\u{2550}\u{2550}\u{2550}\u{2550}\u{2550}\u{2550}\u{2563}"@,
    ];
    let ghost mid1: Seq<Seq<char>> = seq![
        "\u{2560}\u{2550}\u{2550}\u{2550}\u{2550}\u{2550}\u{2550}\u{2550}\u{2550}\u{2550}\u{2550}\u{2550}\u{2550}\u{2550}\u{2550}\u{2550}\u{2550}\u{2550}\u{2550}\u{2550}\u{2550}\u{2550}\u{2550}\u{2550}\u{2550}\u{2550}\u{2550}\u{2550}\u{2550}\u{2550}\u{2550}\u{2550}\u{2550}\u{2550}\u{2550}\u{2550}\u{2550}\u{2550}\u{2550}\u{2550}\u{2550}\u{2550}\u{2550}\u{2550}\u{2550}\u{2550}\u{2550}\u{2550}\u{2550}\u{2550}\u{2550}\u{2550}\u{2550}\u{2550}\u{2550}\u{2550}\u{2550}\u{2550}\u{2550}\u{2550}\u{2550}\u{2550}\u{2550}\u{2550}\u{2550}\u{2550}\u{2550}\u{2550}\u{2550}\u{2550}\u{2550}\u{2550}\u{2550}\u{2550}\u{2550}\u{2550}\u{2550}\u{2550}\u{2550}\u{2550}\u{2550}\u{2550}\u{2550}\u{2550}\u{2550}\u{2550}\u{2563}"@,
        framed_center("片假名 (Katakana) ASCII Art"@),
        "\u{2560}\u{2550}\u{2550}\u{2550}\u{2550}\u{2550}\u{2550}\u{2550}\u{2550}\u{2550}\u{2550}\u{2550}\u{2550}\u{2550}\u{2550}\u{2550}\u{2550}\u{2550}\u{2550}\u{2550}\u{2550}\u{2550}\u{2550}\u{2550}\u{2550}\u{2550}\u{2550}\u{2550}\u{2550}\u{2550}\u{2550}\u{2550}\u{2550}\u{2550}\u{2550}\u{2550}\u{2550}\u{2550}\u{2550}\u{2550}\u{2550}\u{2550}\u{2550}\u{2550}\u{2550}\u{2550}\u{2550}\u{2550}\u{2550}\u{2550}\u{2550}\u{2550}\u{2550}\u{2550}\u{2550}\u{2550}\u{2550}\u{2550}\u{2550}\u{2550}\u{2550}\u{2550}\u{2550}\u{2550}\u{2550}\u{2550}\u{2550}\u{2550}\u{2550}\u{2550}\u{2550}\u{2550}\u{2550}\u{2550}\u{2550}\u{2550}\u{2550}\u{2550}\u{2550}\u{2550}\u{2550}\u{2550}\u{2550}\u{2550}\u{2550}\u{2550}\u{2563}"@,
    ];
    let ghost mid2: Seq<Seq<char>> = seq!["\u{2560}\u{2550}\u{2550}\u{2550}\u{2550}\u{2550}\u{2550}\u{2550}\u{2550}\u{2550}\u{2550}\u{2550}\u{2550}\u{2550}\u{2550}\u{2550}\u{2550}\u{2550}\u{2550}\u{2550}\u{2550}\u{2550}\u{2550}\u{2550}\u{2550}\u{2550}\u{2550}\u{2550}\u{2550}\u{2550}\u{2550}\u{2550}\u{2550}\u{2550}\u{2550}\u{2550}\u{2550}\u{2550}\u{2550}\u{2550}\u{2550}\u{2550}\u{2550}\u{2550}\u{2550}\u{2550}\u{2550}\u{2550}\u{2550}\u{2550}\u{2550}\u{2550}\u{2550}\u{2550}\u{2550}\u{2550}\u{2550}\u{2550}\u{2550}\u{2550}\u{2550}\u{2550}\u{2550}\u{2550}\u{2550}\u{2550}\u{2550}\u{2550}\u{2550}\u{2550}\u{2550}\u{2550}\u{2550}\u{2550}\u{2550}\u{2550}\u{2550}\u{2550}\u{2550}\u{2550}\u{2550}\u{2550}\u{2550}\u{2550}\u{2550}\u{2550}\u{2563}"@, framed("  Example Words (例词):"@)];

    let mut v: Vec<String> = Vec::new();
    v.push(String::from_str("\u{2554}\u{2550}\u{2550}\u{2550}\u{2550}\u{2550}\u{2550}\u{2550}\u{2550}\u{2550}\u{2550}\u{2550}\u{2550}\u{2550}\u{2550}\u{2550}\u{2550}\u{2550}\u{2550}\u{2550}\u{2550}\u{2550}\u{2550}\u{2550}\u{2550}\u{2550}\u{2550}\u{2550}\u{2550}\u{2550}\u{2550}\u{2550}\u{2550}\u{2550}\u{2550}\u{2550}\u{2550}\u{2550}\u{2550}\u{2550}\u{2550}\u{2550}\u{2550}\u{2550}\u{2550}\u{2550}\u{2550}\u{2550}\u{2550}\u{2550}\u{2550}\u{2550}\u{2550}\u{2550}\u{2550}\u{2550}\u{2550}\u{2550}\u{2550}\u{2550}\u{2550}\u{2550}\u{2550}\u{2550}\u{2550}\u{2550}\u{2550}\u{2550}\u{2550}\u{2550}\u{2550}\u{2550}\u{2550}\u{2550}\u{2550}\u{2550}\u{2550}\u{2550}\u{2550}\u{2550}\u{2550}\u{2550}\u{2550}\u{2550}\u{2550}\u{2550}\u{2557}"));
    v.push(frame_center_line("JAPANESE KANA FLASHCARD"));
    v.push(String::from_str("\u{2560}\u{2550}\u{2550}\u{2550}\u{2550}\u{2550}\u{2550}\u{2550}\u{2550}\u{2550}\u{2550}\u{2550}\u{2550}\u{2550}\u{2550}\u{2550}\u{2550}\u{2550}\u{2550}\u{2550}\u{2550}\u{2550}\u{2550}\u{2550}\u{2550}\u{2550}\u{2550}\u{2550}\u{2550}\u{2550}\u{2550}\u{2550}\u{2550}\u{2550}\u{2550}\u{2550}\u{2550}\u{2550}\u{2550}\u{2550}\u{2550}\u{2550}\u{2550}\u{2550}\u{2550}\u{2550}\u{2550}\u{2550}\u{2550}\u{2550}\u{2550}\u{2550}\u{2550}\u{2550}\u{2550}\u{2550}\u{2550}\u{2550}\u{2550}\u{2550}\u{2550}\u{2550}\u{2550}\u{2550}\u{2550}\u{2550}\u{2550}\u{2550}\u{2550}\u{2550}\u{2550}\u{2550}\u{2550}\u{2550}\u{2550}\u{2550}\u{2550}\u{2550}\u{2550}\u{2550}\u{2550}\u{2550}\u{2550}\u{2550}\u{2550}\u{2550}\u{2563}"));
    v.push(frame_line(""));
    let mut romaji_line = String::from_str("   Romaji: ");
    let upper = ascii_upper(card.romaji.as_str());
    romaji_line.append(upper.as_str());
    v.push(frame_line(romaji_line.as_str()));
    v.push(frame_line(""));
    let mut kana_line = String::from_str("   平假名: ");
    kana_line.append(card.hiragana.as_str());
    kana_line.append("        片假名: ");
    kana_line.append(card.katakana.as_str());
    v.push(frame_line(kana_line.as_str()));
    v.push(frame_line(""));
    v.push(String::from_str("\u{2560}\u{2550}\u{2550}\u{2550}\u{2550}\u{2550}\u{2550}\u{2550}\u{2550}\u{2550}\u{2550}\u{2550}\u{2550}\u{2550}\u{2550}\u{2550}\u{2550}\u{2550}\u{2550}\u{2550}\u{2550}\u{2550}\u{2550}\u{2550}\u{2550}\u{2550}\u{2550}\u{2550}\u{2550}\u{2550}\u{2550}\u{2550}\u{2550}\u{2550}\u{2550}\u{2550}\u{2550}\u{2550}\u{2550}\u{2550}\u{2550}\u{2550}\u{2550}\u{2550}\u{2550}\u{2550}\u{2550}\u{2550}\u{2550}\u{2550}\u{2550}\u{2550}\u{2550}\u{2550}\u{2550}\u{2550}\u{2550}\u{2550}\u{2550}\u{2550}\u{2550}\u{2550}\u{2550}\u{2550}\u{2550}\u{2550}\u{2550}\u{2550}\u{2550}\u{2550}\u{2550}\u{2550}\u{2550}\u{2550}\u{2550}\u{2550}\u{2550}\u{2550}\u{2550}\u{2550}\u{2550}\u{2550}\u{2550}\u{2550}\u{2550}\u{2550}\u{2563}"));
    v.push(frame_center_line("平假名 (Hiragana) ASCII Art"));
    v.push(String::from_str("\u{2560}\u{2550}\u{2550}\u{2550}\u{2550}\u{2550}\u{2550}\u{2550}\u{2550}\u{2550}\u{2550}\u{2550}\u{2550}\u{2550}\u{2550}\u{2550}\u{2550}\u{2550}\u{2550}\u{2550}\u{2550}\u{2550}\u{2550}\u{2550}\u{2550}\u{2550}\u{2550}\u{2550}\u{2550}\u{2550}\u{2550}\u{2550}\u{2550}\u{2550}\u{2550}\u{2550}\u{2550}\u{2550}\u{2550}\u{2550}\u{2550}\u{2550}\u{2550}\u{2550}\u{2550}\u{2550}\u{2550}\u{2550}\u{2550}\u{2550}\u{2550}\u{2550}\u{2550}\u{2550}\u{2550}\u{2550}\u{2550}\u{2550}\u{2550}\u{2550}\u{2550}\u{2550}\u{2550}\u{2550}\u{2550}\u{2550}\u{2550}\u{2550}\u{2550}\u{2550}\u{2550}\u{2550}\u{2550}\u{2550}\u{2550}\u{2550}\u{2550}\u{2550}\u{2550}\u{2550}\u{2550}\u{2550}\u{2550}\u{2550}\u{2550}\u{2550}\u{2563}"));
    proof {
        assert forall|t: int| 0 <= t < 11 implies v@[t]@ == head[t] by {}
    }

    let h_art = get_ascii_art(card.hiragana.as_str());
    let mut i: usize = 0;
    while i < h_art.len()
        invariant
            hseq == hiragana_art(card.hiragana@),
            hlen == hseq.len(),
            h_art.deep_view() == hseq,
            h_art@.len() == hseq.len(),
            i <= h_art@.len(),
            v@.len() == 11 + i,
            forall|t: int| 0 <= t < 11 ==> v@[t]@ == head[t],
            forall|j: int| 0 <= j < i ==> #[trigger] v@[11 + j]@ == framed(" "@ + hseq[j]),
        decreases h_art@.len() - i,
    {
        let mut line = String::from_str(" ");
        line.append(h_art[i].as_str());
        proof {
            assert(h_art@[i as int]@ == hseq[i as int]);
        }
        v.push(frame_line(line.as_str()));
        i += 1;
    }

    v.push(String::from_str("\u{2560}\u{2550}\u{2550}\u{2550}\u{2550}\u{2550}\u{2550}\u{2550}\u{2550}\u{2550}\u{2550}\u{2550}\u{2550}\u{2550}\u{2550}\u{2550}\u{2550}\u{2550}\u{2550}\u{2550}\u{2550}\u{2550}\u{2550}\u{2550}\u{2550}\u{2550}\u{2550}\u{2550}\u{2550}\u{2550}\u{2550}\u{2550}\u{2550}\u{2550}\u{2550}\u{2550}\u{2550}\u{2550}\u{2550}\u{2550}\u{2550}\u{2550}\u{2550}\u{2550}\u{2550}\u{2550}\u{2550}\u{2550}\u{2550}\u{2550}\u{2550}\u{2550}\u{2550}\u{2550}\u{2550}\u{2550}\u{2550}\u{2550}\u{2550}\u{2550}\u{2550}\u{2550}\u{2550}\u{2550}\u{2550}\u{2550}\u{2550}\u{2550}\u{2550}\u{2550}\u{2550}\u{2550}\u{2550}\u{2550}\u{2550}\u{2550}\u{2550}\u{2550}\u{2550}\u{2550}\u{2550}\u{2550}\u{2550}\u{2550}\u{2550}\u{2550}\u{2563}"));
    v.push(frame_center_line("片假名 (Katakana) ASCII Art"));
    v.push(String::from_str("\u{2560}\u{2550}\u{2550}\u{2550}\u{2550}\u{2550}\u{2550}\u{2550}\u{2550}\u{2550}\u{2550}\u{2550}\u{2550}\u{2550}\u{2550}\u{2550}\u{2550}\u{2550}\u{2550}\u{2550}\u{2550}\u{2550}\u{2550}\u{2550}\u{2550}\u{2550}\u{2550}\u{2550}\u{2550}\u{2550}\u{2550}\u{2550}\u{2550}\u{2550}\u{2550}\u{2550}\u{2550}\u{2550}\u{2550}\u{2550}\u{2550}\u{2550}\u{2550}\u{2550}\u{2550}\u{2550}\u{2550}\u{2550}\u{2550}\u{2550}\u{2550}\u{2550}\u{2550}\u{2550}\u{2550}\u{2550}\u{2550}\u{2550}\u{2550}\u{2550}\u{2550}\u{2550}\u{2550}\u{2550}\u{2550}\u{2550}\u{2550}\u{2550}\u{2550}\u{2550}\u{2550}\u{2550}\u{2550}\u{2550}\u{2550}\u{2550}\u{2550}\u{2550}\u{2550}\u{2550}\u{2550}\u{2550}\u{2550}\u{2550}\u{2550}\u{2550}\u{2563}"));
    proof {
        assert(v@[11 + hlen]@ == mid1[0]);
        assert(v@[12 + hlen]@ == mid1[1]);
        assert(v@[13 + hlen]@ == mid1[2]);
    }

    let k_art = get_katakana_ascii_art(card.katakana.as_str());
    let mut i: usize = 0;
    while i < k_art.len()
        invariant
            hseq == hiragana_art(card.hiragana@),
            kseq == katakana_art(card.katakana@),
            hlen == hseq.len(),
            klen == kseq.len(),
            k_art.deep_view() == kseq,
            k_art@.len() == kseq.len(),
            i <= k_art@.len(),
            v@.len() == 14 + hlen + i,
            forall|t: int| 0 <= t < 11 ==> v@[t]@ == head[t],
            forall|j: int| 0 <= j < hlen ==> #[trigger] v@[11 + j]@ == framed(" "@ + hseq[j]),
            forall|t: int| 0 <= t < 3 ==> #[trigger] v@[11 + hlen + t]@ == mid1[t],
            forall|j: int| 0 <= j < i ==> #[trigger] v@[14 + hlen + j]@ == framed(
                " "@ + kseq[j],
            ),
        decreases k_art@.len() - i,
    {
        let mut line = String::from_str(" ");
        line.append(k_art[i].as_str());
        proof {
            assert(k_art@[i as int]@ == kseq[i as int]);
        }
        v.push(frame_line(line.as_str()));
        i += 1;
    }

    v.push(String::from_str("\u{2560}\u{2550}\u{2550}\u{2550}\u{2550}\u{2550}\u{2550}\u{2550}\u{2550}\u{2550}\u{2550}\u{2550}\u{2550}\u{2550}\u{2550}\u{2550}\u{2550}\u{2550}\u{2550}\u{2550}\u{2550}\u{2550}\u{2550}\u{2550}\u{2550}\u{2550}\u{2550}\u{2550}\u{2550}\u{2550}\u{2550}\u{2550}\u{2550}\u{2550}\u{2550}\u{2550}\u{2550}\u{2550}\u{2550}\u{2550}\u{2550}\u{2550}\u{2550}\u{2550}\u{2550}\u{2550}\u{2550}\u{2550}\u{2550}\u{2550}\u{2550}\u{2550}\u{2550}\u{2550}\u{2550}\u{2550}\u{2550}\u{2550}\u{2550}\u{2550}\u{2550}\u{2550}\u{2550}\u{2550}\u{2550}\u{2550}\u{2550}\u{2550}\u{2550}\u{2550}\u{2550}\u{2550}\u{2550}\u{2550}\u{2550}\u{2550}\u{2550}\u{2550}\u{2550}\u{2550}\u{2550}\u{2550}\u{2550}\u{2550}\u{2550}\u{2550}\u{2563}"));
    v.push(frame_line("  Example Words (例词):"));
    proof {
        assert(v@[14 + hlen + klen]@ == mid2[0]);
        assert(v@[15 + hlen + klen]@ == mid2[1]);
    }

    let mut i: usize = 0;
    while i < card.examples.len()
        invariant
            hseq == hiragana_art(card.hiragana@),
            kseq == katakana_art(card.katakana@),
            exs == card.examples.deep_view(),
            hlen == hseq.len(),
            klen == kseq.len(),
            elen == exs.len(),
            elen == card.examples@.len(),
            i <= card.examples@.len(),
            v@.len() == 16 + hlen + klen + i,
            forall|t: int| 0 <= t < 11 ==> v@[t]@ == head[t],
            forall|j: int| 0 <= j < hlen ==> #[trigger] v@[11 + j]@ == framed(" "@ + hseq[j]),
            forall|t: int| 0 <= t < 3 ==> #[trigger] v@[11 + hlen + t]@ == mid1[t],
            forall|j: int| 0 <= j < klen ==> #[trigger] v@[14 + hlen + j]@ == framed(
                " "@ + kseq[j],
            ),
            forall|t: int| 0 <= t < 2 ==> #[trigger] v@[14 + hlen + klen + t]@ == mid2[t],
            forall|j: int| 0 <= j < i ==> #[trigger] v@[16 + hlen + klen + j]@ == framed(
                "  "@ + spec_u64_digits(j + 1) + ". "@ + exs[j],
            ),
        decreases card.examples@.len() - i,
    {
        let mut line = String::from_str("  ");
        let number = u64_to_string((i as u64) + 1);
        line.append(number.as_str());
        line.append(". ");
        line.append(card.examples[i].as_str());
        proof {
            assert(card.examples@[i as int]@ == exs[i as int]);
            assert(line@ == "  "@ + spec_u64_digits(i + 1) + ". "@ + exs[i as int]);
        }
        v.push(frame_line(line.as_str()));
        i += 1;
    }

    v.push(String::from_str("\u{255a}\u{2550}\u{2550}\u{2550}\u{2550}\u{2550}\u{2550}\u{2550}\u{2550}\u{2550}\u{2550}\u{2550}\u{2550}\u{2550}\u{2550}\u{2550}\u{2550}\u{2550}\u{2550}\u{2550}\u{2550}\u{2550}\u{2550}\u{2550}\u{2550}\u{2550}\u{2550}\u{2550}\u{2550}\u{2550}\u{2550}\u{2550}\u{2550}\u{2550}\u{2550}\u{2550}\u{2550}\u{2550}\u{2550}\u{2550}\u{2550}\u{2550}\u{2550}\u{2550}\u{2550}\u{2550}\u{2550}\u{2550}\u{2550}\u{2550}\u{2550}\u{2550}\u{2550}\u{2550}\u{2550}\u{2550}\u{2550}\u{2550}\u{2550}\u{2550}\u{2550}\u{2550}\u{2550}\u{2550}\u{2550}\u{2550}\u{2550}\u{2550}\u{2550}\u{2550}\u{2550}\u{2550}\u{2550}\u{2550}\u{2550}\u{2550}\u{2550}\u{2550}\u{2550}\u{2550}\u{2550}\u{2550}\u{2550}\u{2550}\u{2550}\u{2550}\u{255d}"));
    proof {
        let spec_all = spec_card_lines(card.romaji@, card.hiragana@, card.katakana@, exs);
        assert(spec_all.len() == 17 + hlen + klen + elen);
        assert forall|t: int| 0 <= t < v@.len() implies v.deep_view()[t] == spec_all[t] by {
            assert(v.deep_view()[t] == v@[t]@);
            if t < 11 {
                assert(v@[t]@ == head[t]);
                assert(spec_all[t] == head[t]);
            } else if t < 11 + hlen {
                let j = t - 11;
                assert(v@[11 + j]@ == framed(" "@ + hseq[j]));
                assert(spec_all[t] == framed(" "@ + hseq[t - 11]));
            } else if t < 14 + hlen {
                let j = t - 11 - hlen;
                assert(v@[11 + hlen + j]@ == mid1[j]);
                assert(spec_all[t] == mid1[t - 11 - hlen]);
            } else if t < 14 + hlen + klen {
                let j = t - 14 - hlen;
                assert(v@[14 + hlen + j]@ == framed(" "@ + kseq[j]));
                assert(spec_all[t] == framed(" "@ + kseq[t - 14 - hlen]));
            } else if t < 16 + hlen + klen {
                let j = t - 14 - hlen - klen;
                assert(v@[14 + hlen + klen + j]@ == mid2[j]);
                assert(spec_all[t] == mid2[t - 14 - hlen - klen]);
            } else if t < 16 + hlen + klen + elen {
                let j = t - 16 - hlen - klen;
                assert(v@[16 + hlen + klen + j]@ == framed(
                    "  "@ + spec_u64_digits(j + 1) + ". "@ + exs[j],
                ));
                assert(spec_all[t] == framed(
                    "  "@ + spec_u64_digits(t - 16 - hlen - klen + 1) + ". "@ + exs[t - 16 - hlen
                        - klen],
                ));
            } else {
                assert(spec_all[t] == "\u{255a}\u{2550}\u{2550}\u{2550}\u{2550}\u{2550}\u{2550}\u{2550}\u{2550}\u{2550}\u{2550}\u{2550}\u{2550}\u{2550}\u{2550}\u{2550}\u{2550}\u{2550}\u{2550}\u{2550}\u{2550}\u{2550}\u{2550}\u{2550}\u{2550}\u{2550}\u{2550}\u{2550}\u{2550}\u{2550}\u{2550}\u{2550}\u{2550}\u{2550}\u{2550}\u{2550}\u{2550}\u{2550}\u{2550}\u{2550}\u{2550}\u{2550}\u{2550}\u{2550}\u{2550}\u{2550}\u{2550}\u{2550}\u{2550}\u{2550}\u{2550}\u{2550}\u{2550}\u{2550}\u{2550}\u{2550}\u{2550}\u{2550}\u{2550}\u{2550}\u{2550}\u{2550}\u{2550}\u{2550}\u{2550}\u{2550}\u{2550}\u{2550}\u{2550}\u{2550}\u{2550}\u{2550}\u{2550}\u{2550}\u{2550}\u{2550}\u{2550}\u{2550}\u{2550}\u{2550}\u{2550}\u{2550}\u{2550}\u{2550}\u{2550}\u{2550}\u{255d}"@);
                assert(v@[t]@ == "\u{255a}\u{2550}\u{2550}\u{2550}\u{2550}\u{2550}\u{2550}\u{2550}\u{2550}\u{2550}\u{2550}\u{2550}\u{2550}\u{2550}\u{2550}\u{2550}\u{2550}\u{2550}\u{2550}\u{2550}\u{2550}\u{2550}\u{2550}\u{2550}\u{2550}\u{2550}\u{2550}\u{2550}\u{2550}\u{2550}\u{2550}\u{2550}\u{2550}\u{2550}\u{2550}\u{2550}\u{2550}\u{2550}\u{2550}\u{2550}\u{2550}\u{2550}\u{2550}\u{2550}\u{2550}\u{2550}\u{2550}\u{2550}\u{2550}\u{2550}\u{2550}\u{2550}\u{2550}\u{2550}\u{2550}\u{2550}\u{2550}\u{2550}\u{2550}\u{2550}\u{2550}\u{2550}\u{2550}\u{2550}\u{2550}\u{2550}\u{2550}\u{2550}\u{2550}\u{2550}\u{2550}\u{2550}\u{2550}\u{2550}\u{2550}\u{2550}\u{2550}\u{2550}\u{2550}\u{2550}\u{2550}\u{2550}\u{2550}\u{2550}\u{2550}\u{2550}\u{255d}"@);
            }
        }
        assert(v.deep_view() =~= spec_all);
    }
    v
}

/// Every key of the phrase table contains a CJK ideograph: the table
/// translates Chinese words, and each entry's first character shows it.
pub proof fn lemma_chinese_keys_have_cjk(i: int)
    requires
        0 <= i < chinese_keys().len(),
    ensures
        has_cjk(chinese_keys()[i]),
{
    if i == 0 {
        reveal_strlit("你好");
        assert(is_cjk_char(chinese_keys()[0][0]));
        assert(has_cjk(chinese_keys()[0]));
    } else if i == 1 {
        reveal_strlit("早上好");
        assert(is_cjk_char(chinese_keys()[1][0]));
        assert(has_cjk(chinese_keys()[1]));
    } else if i == 2 {
        reveal_strlit("晚上好");
        assert(is_cjk_char(chinese_keys()[2][0]));
        assert(has_cjk(chinese_keys()[2]));
    } else if i == 3 {
        reveal_strlit("谢谢");
        assert(is_cjk_char(chinese_keys()[3][0]));
        assert(has_cjk(chinese_keys()[3]));
    } else if i == 4 {
        reveal_strlit("对不起");
        assert(is_cjk_char(chinese_keys()[4][0]));
        assert(has_cjk(chinese_keys()[4]));
    } else if i == 5 {
        reveal_strlit("再见");
        assert(is_cjk_char(chinese_keys()[5][0]));
        assert(has_cjk(chinese_keys()[5]));
    } else if i == 6 {
        reveal_strlit("是");
        assert(is_cjk_char(chinese_keys()[6][0]));
        assert(has_cjk(chinese_keys()[6]));
    } else if i == 7 {
        reveal_strlit("不是");
        assert(is_cjk_char(chinese_keys()[7][0]));
        assert(has_cjk(chinese_keys()[7]));
    } else if i == 8 {
        reveal_strlit("请");
        assert(is_cjk_char(chinese_keys()[8][0]));
        assert(has_cjk(chinese_keys()[8]));
    } else if i == 9 {
        reveal_strlit("爱");
        assert(is_cjk_char(chinese_keys()[9][0]));
        assert(has_cjk(chinese_keys()[9]));
    } else if i == 10 {
        reveal_strlit("水");
        assert(is_cjk_char(chinese_keys()[10][0]));
        assert(has_cjk(chinese_keys()[10]));
    } else if i == 11 {
        reveal_strlit("火");
        assert(is_cjk_char(chinese_keys()[11][0]));
        assert(has_cjk(chinese_keys()[11]));
    } else if i == 12 {
        reveal_strlit("山");
        assert(is_cjk_char(chinese_keys()[12][0]));
        assert(has_cjk(chinese_keys()[12]));
    } else if i == 13 {
        reveal_strlit("天");
        assert(is_cjk_char(chinese_keys()[13][0]));
        assert(has_cjk(chinese_keys()[13]));
    } else if i == 14 {
        reveal_strlit("地");
        assert(is_cjk_char(chinese_keys()[14][0]));
        assert(has_cjk(chinese_keys()[14]));
    } else if i == 15 {
        reveal_strlit("人");
        assert(is_cjk_char(chinese_keys()[15][0]));
        assert(has_cjk(chinese_keys()[15]));
    } else if i == 16 {
        reveal_strlit("日");
        assert(is_cjk_char(chinese_keys()[16][0]));
        assert(has_cjk(chinese_keys()[16]));
    } else if i == 17 {
        reveal_strlit("月");
        assert(is_cjk_char(chinese_keys()[17][0]));
        assert(has_cjk(chinese_keys()[17]));
    } else if i == 18 {
        reveal_strlit("花");
        assert(is_cjk_char(chinese_keys()[18][0]));
        assert(has_cjk(chinese_keys()[18]));
    } else if i == 19 {
        reveal_strlit("树");
        assert(is_cjk_char(chinese_keys()[19][0]));
        assert(has_cjk(chinese_keys()[19]));
    } else if i == 20 {
        reveal_strlit("书");
        assert(is_cjk_char(chinese_keys()[20][0]));
        assert(has_cjk(chinese_keys()[20]));
    } else if i == 21 {
        reveal_strlit("学习");
        assert(is_cjk_char(chinese_keys()[21][0]));
        assert(has_cjk(chinese_keys()[21]));
    } else if i == 22 {
        reveal_strlit("朋友");
        assert(is_cjk_char(chinese_keys()[22][0]));
        assert(has_cjk(chinese_keys()[22]));
    } else if i == 23 {
        reveal_strlit("家");
        assert(is_cjk_char(chinese_keys()[23][0]));
        assert(has_cjk(chinese_keys()[23]));
    } else if i == 24 {
        reveal_strlit("学校");
        assert(is_cjk_char(chinese_keys()[24][0]));
        assert(has_cjk(chinese_keys()[24]));
    } else if i == 25 {
        reveal_strlit("老师");
        assert(is_cjk_char(chinese_keys()[25][0]));
        assert(has_cjk(chinese_keys()[25]));
    } else if i == 26 {
        reveal_strlit("学生");
        assert(is_cjk_char(chinese_keys()[26][0]));
        assert(has_cjk(chinese_keys()[26]));
    } else if i == 27 {
        reveal_strlit("一");
        assert(is_cjk_char(chinese_keys()[27][0]));
        assert(has_cjk(chinese_keys()[27]));
    } else if i == 28 {
        reveal_strlit("二");
        assert(is_cjk_char(chinese_keys()[28][0]));
        assert(has_cjk(chinese_keys()[28]));
    } else if i == 29 {
        reveal_strlit("三");
        assert(is_cjk_char(chinese_keys()[29][0]));
        assert(has_cjk(chinese_keys()[29]));
    } else if i == 30 {
        reveal_strlit("四");
        assert(is_cjk_char(chinese_keys()[30][0]));
        assert(has_cjk(chinese_keys()[30]));
    } else if i == 31 {
        reveal_strlit("五");
        assert(is_cjk_char(chinese_keys()[31][0]));
        assert(has_cjk(chinese_keys()[31]));
    } else if i == 32 {
        reveal_strlit("六");
        assert(is_cjk_char(chinese_keys()[32][0]));
        assert(has_cjk(chinese_keys()[32]));
    } else if i == 33 {
        reveal_strlit("七");
        assert(is_cjk_char(chinese_keys()[33][0]));
        assert(has_cjk(chinese_keys()[33]));
    } else if i == 34 {
        reveal_strlit("八");
        assert(is_cjk_char(chinese_keys()[34][0]));
        assert(has_cjk(chinese_keys()[34]));
    } else if i == 35 {
        reveal_strlit("九");
        assert(is_cjk_char(chinese_keys()[35][0]));
        assert(has_cjk(chinese_keys()[35]));
    } else if i == 36 {
        reveal_strlit("十");
        assert(is_cjk_char(chinese_keys()[36][0]));
        assert(has_cjk(chinese_keys()[36]));
    } else if i == 37 {
        reveal_strlit("父亲");
        assert(is_cjk_char(chinese_keys()[37][0]));
        assert(has_cjk(chinese_keys()[37]));
    } else if i == 38 {
        reveal_strlit("母亲");
        assert(is_cjk_char(chinese_keys()[38][0]));
        assert(has_cjk(chinese_keys()[38]));
    } else if i == 39 {
        reveal_strlit("哥哥");
        assert(is_cjk_char(chinese_keys()[39][0]));
        assert(has_cjk(chinese_keys()[39]));
    } else if i == 40 {
        reveal_strlit("姐姐");
        assert(is_cjk_char(chinese_keys()[40][0]));
        assert(has_cjk(chinese_keys()[40]));
    } else if i == 41 {
        reveal_strlit("弟弟");
        assert(is_cjk_char(chinese_keys()[41][0]));
        assert(has_cjk(chinese_keys()[41]));
    } else if i == 42 {
        reveal_strlit("妹妹");
        assert(is_cjk_char(chinese_keys()[42][0]));
        assert(has_cjk(chinese_keys()[42]));
    } else if i == 43 {
        reveal_strlit("红色");
        assert(is_cjk_char(chinese_keys()[43][0]));
        assert(has_cjk(chinese_keys()[43]));
    } else if i == 44 {
        reveal_strlit("蓝色");
        assert(is_cjk_char(chinese_keys()[44][0]));
        assert(has_cjk(chinese_keys()[44]));
    } else if i == 45 {
        reveal_strlit("白色");
        assert(is_cjk_char(chinese_keys()[45][0]));
        assert(has_cjk(chinese_keys()[45]));
    } else if i == 46 {
        reveal_strlit("黑色");
        assert(is_cjk_char(chinese_keys()[46][0]));
        assert(has_cjk(chinese_keys()[46]));
    } else if i == 47 {
        reveal_strlit("黄色");
        assert(is_cjk_char(chinese_keys()[47][0]));
        assert(has_cjk(chinese_keys()[47]));
    } else if i == 48 {
        reveal_strlit("绿色");
        assert(is_cjk_char(chinese_keys()[48][0]));
        assert(has_cjk(chinese_keys()[48]));
    } else if i == 49 {
        reveal_strlit("春天");
        assert(is_cjk_char(chinese_keys()[49][0]));
        assert(has_cjk(chinese_keys()[49]));
    } else if i == 50 {
        reveal_strlit("夏天");
        assert(is_cjk_char(chinese_keys()[50][0]));
        assert(has_cjk(chinese_keys()[50]));
    } else if i == 51 {
        reveal_strlit("秋天");
        assert(is_cjk_char(chinese_keys()[51][0]));
        assert(has_cjk(chinese_keys()[51]));
    } else if i == 52 {
        reveal_strlit("冬天");
        assert(is_cjk_char(chinese_keys()[52][0]));
        assert(has_cjk(chinese_keys()[52]));
    } else if i == 53 {
        reveal_strlit("星期一");
        assert(is_cjk_char(chinese_keys()[53][0]));
        assert(has_cjk(chinese_keys()[53]));
    } else if i == 54 {
        reveal_strlit("星期二");
        assert(is_cjk_char(chinese_keys()[54][0]));
        assert(has_cjk(chinese_keys()[54]));
    } else if i == 55 {
        reveal_strlit("星期三");
        assert(is_cjk_char(chinese_keys()[55][0]));
        assert(has_cjk(chinese_keys()[55]));
    } else if i == 56 {
        reveal_strlit("星期四");
        assert(is_cjk_char(chinese_keys()[56][0]));
        assert(has_cjk(chinese_keys()[56]));
    } else if i == 57 {
        reveal_strlit("星期五");
        assert(is_cjk_char(chinese_keys()[57][0]));
        assert(has_cjk(chinese_keys()[57]));
    } else if i == 58 {
        reveal_strlit("星期六");
        assert(is_cjk_char(chinese_keys()[58][0]));
        assert(has_cjk(chinese_keys()[58]));
    } else if i == 59 {
        reveal_strlit("星期日");
        assert(is_cjk_char(chinese_keys()[59][0]));
        assert(has_cjk(chinese_keys()[59]));
    } else {
        assert(false);
    }
}

/// A key without a single CJK ideograph misses a table whose keys all have
/// one.
proof fn lemma_assoc_phrase_all_cjk_misses(cm: Seq<(String, String)>, k: Seq<char>)
    requires
        forall|i: int| 0 <= i < cm.len() ==> has_cjk(#[trigger] cm[i].0@),
        forall|i: int| 0 <= i < k.len() ==> (#[trigger] k[i] as u32) < 128,
    ensures
        assoc_phrase(cm, k) is None,
    decreases cm.len(),
{
    if cm.len() > 0 {
        assert(has_cjk(cm[0].0@));
        let j = choose|j: int| 0 <= j < cm[0].0@.len() && is_cjk_char(cm[0].0@[j]);
        if cm[0].0@ == k {
            assert(k[j] == cm[0].0@[j]);
            assert((k[j] as u32) < 128);
            assert(false);
        }
        assert forall|i: int| 0 <= i < cm.drop_first().len() implies has_cjk(
            #[trigger] cm.drop_first()[i].0@,
        ) by {
            assert(cm.drop_first()[i] == cm[i + 1]);
        }
        lemma_assoc_phrase_all_cjk_misses(cm.drop_first(), k);
    }
}

/// The lookup is case-insensitive for ASCII input: against any romaji table
/// and the phrase table that `init_chinese_map` promises, a line and its
/// ASCII-lowercased form classify the same way.
pub proof fn lemma_lookup_ascii_case_insensitive(
    rm: Seq<(String, JapaneseChar)>,
    cm: Seq<(String, String)>,
    text: Seq<char>,
)
    requires
        cm.len() == chinese_keys().len(),
        forall|i: int| 0 <= i < cm.len() ==> #[trigger] cm[i].0@ == chinese_keys()[i],
        forall|i: int| 0 <= i < text.len() ==> (#[trigger] text[i] as u32) < 128,
    ensures
        spec_lookup_kind(rm, cm, text) == spec_lookup_kind(rm, cm, lower_chars(text)),
{
    lemma_lower_chars_idempotent(text);
    lemma_lower_chars_ascii(text);
    assert forall|i: int| 0 <= i < cm.len() implies has_cjk(#[trigger] cm[i].0@) by {
        lemma_chinese_keys_have_cjk(i);
    }
    lemma_assoc_phrase_all_cjk_misses(cm, text);
    lemma_assoc_phrase_all_cjk_misses(cm, lower_chars(text));
    assert(!has_cjk(text)) by {
        if has_cjk(text) {
            let j = choose|j: int| 0 <= j < text.len() && is_cjk_char(text[j]);
            assert((text[j] as u32) < 128);
        }
    }
    assert(!has_cjk(lower_chars(text))) by {
        if has_cjk(lower_chars(text)) {
            let j = choose|j: int| 0 <= j < lower_chars(text).len() && is_cjk_char(
                lower_chars(text)[j],
            );
            assert((lower_chars(text)[j] as u32) < 128);
        }
    }
}

} // verus!
