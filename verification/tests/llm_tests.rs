use jp::llm::{api_key_ok, chat_prompt, chat_url, first_choice_translation, system_prompt};

#[test]
fn prompt_wraps_the_word() {
    let p = chat_prompt("爱");
    let expected = "请将以下中文翻译成日语，并提供以下信息：\n\
                    1. 日文汉字（如果有）\n\
                    2. 平假名读音\n\
                    3. 罗马音\n\
                    \n\
                    中文：爱\n\
                    \n\
                    请按照这个格式回复：日文汉字 (平假名/罗马音)\n\
                    如果没有汉字，直接用平假名表示。";
    assert_eq!(p, expected);
}

#[test]
fn system_prompt_text() {
    assert_eq!(system_prompt(), "你是一个专业的中日翻译助手。");
}

#[test]
fn url_of_default_base() {
    assert_eq!(
        chat_url("https://api.openai.com/v1"),
        "https://api.openai.com/v1/chat/completions"
    );
}

#[test]
fn key_validation() {
    assert!(!api_key_ok(""));
    assert!(!api_key_ok("   \n"));
    assert!(api_key_ok(" sk-anything "));
}

#[test]
fn first_choice_is_trimmed() {
    let choices = vec!["  愛 (あい/ai)  \n".to_string(), "ignored".to_string()];
    assert_eq!(first_choice_translation(&choices).as_deref(), Some("愛 (あい/ai)"));
    assert_eq!(first_choice_translation(&Vec::new()), None);
}
