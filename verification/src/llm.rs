//! The computed parts of the language-model translation: prompt assembly,
//! key validation, and extraction of the answer from the returned choices.
//! The HTTP exchange itself is the host's.

use vstd::prelude::*;

use crate::text::{spec_trim, trim_spaces};

verus! {

/// The instruction that precedes the word to translate.
pub open spec fn prompt_head() -> Seq<char> {
    "请将以下中文翻译成日语，并提供以下信息：\n1. 日文汉字（如果有）\n2. 平假名读音\n3. 罗马音\n\n中文："@
}

/// The format request that follows it.
pub open spec fn prompt_tail() -> Seq<char> {
    "\n\n请按照这个格式回复：日文汉字 (平假名/罗马音)\n如果没有汉字，直接用平假名表示。"@
}

/// The user prompt sent for `chinese_text`.
pub fn chat_prompt(chinese_text: &str) -> (r: String)
    ensures
        r@ == prompt_head() + chinese_text@ + prompt_tail(),
{
    let mut r = String::from_str(
        "请将以下中文翻译成日语，并提供以下信息：\n1. 日文汉字（如果有）\n2. 平假名读音\n3. 罗马音\n\n中文：",
    );
    r.append(chinese_text);
    r.append("\n\n请按照这个格式回复：日文汉字 (平假名/罗马音)\n如果没有汉字，直接用平假名表示。");
    r
}

/// The system role line of every translation request.
pub fn system_prompt() -> (r: String)
    ensures
        r@ == "你是一个专业的中日翻译助手。"@,
{
    String::from_str("你是一个专业的中日翻译助手。")
}

/// The completions endpoint under an API base.
pub fn chat_url(api_base: &str) -> (r: String)
    ensures
        r@ == api_base@ + "/chat/completions"@,
{
    let mut r = String::from_str(api_base);
    r.append("/chat/completions");
    r
}

/// Whether a configured API key is usable: nonempty once trimmed.
pub fn api_key_ok(key: &str) -> (b: bool)
    ensures
        b == (spec_trim(key@).len() > 0),
{
    let t = trim_spaces(key);
    !t.as_str().is_empty()
}

/// The translation in a list of returned choice texts: the first one,
/// trimmed; nothing when the model returned no choices.
pub fn first_choice_translation(choices: &Vec<String>) -> (r: Option<String>)
    ensures
        r is Some <==> choices@.len() > 0,
        r matches Some(t) ==> t@ == spec_trim(choices@[0]@),
{
    if choices.len() > 0 {
        Some(trim_spaces(choices[0].as_str()))
    } else {
        None
    }
}

} // verus!
