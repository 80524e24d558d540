use jp::notifier::{
    card_prompt_body, choose_random, interval_seconds, parse_interval_minutes, romaji_pool,
};

fn args(list: &[&str]) -> Vec<String> {
    list.iter().map(|s| s.to_string()).collect()
}

#[test]
fn interval_defaults_to_thirty() {
    assert_eq!(parse_interval_minutes(&args(&["jp-notifier"])), 30);
    assert_eq!(parse_interval_minutes(&args(&[])), 30);
}

#[test]
fn interval_reads_the_flag() {
    assert_eq!(
        parse_interval_minutes(&args(&["jp-notifier", "--interval-minutes", "5"])),
        5
    );
    assert_eq!(
        parse_interval_minutes(&args(&["jp-notifier", "--interval-minutes", "0"])),
        0
    );
}

#[test]
fn interval_ignores_malformed_values() {
    assert_eq!(
        parse_interval_minutes(&args(&["jp-notifier", "--interval-minutes", "soon"])),
        30
    );
    assert_eq!(parse_interval_minutes(&args(&["jp-notifier", "--interval-minutes"])), 30);
}

#[test]
fn later_flag_wins_unless_malformed() {
    assert_eq!(
        parse_interval_minutes(&args(&[
            "jp-notifier",
            "--interval-minutes",
            "5",
            "--interval-minutes",
            "7"
        ])),
        7
    );
    assert_eq!(
        parse_interval_minutes(&args(&[
            "jp-notifier",
            "--interval-minutes",
            "9",
            "--interval-minutes",
            "x"
        ])),
        9
    );
}

#[test]
fn interval_accepts_a_signed_value() {
    assert_eq!(
        parse_interval_minutes(&args(&["jp-notifier", "--interval-minutes", "+7"])),
        7
    );
}

#[test]
fn seconds_conversion_clamps() {
    assert_eq!(interval_seconds(30), 1800);
    assert_eq!(interval_seconds(0), 0);
    assert_eq!(interval_seconds(u64::MAX), u64::MAX);
}

#[test]
fn pool_holds_the_gojuon() {
    let pool = romaji_pool();
    assert_eq!(pool.len(), 46);
    assert!(pool.iter().any(|s| s == "a"));
    assert!(pool.iter().any(|s| s == "tsu"));
    assert!(pool.iter().any(|s| s == "n"));
}

#[test]
fn random_choice_stays_in_the_pool() {
    let pool = romaji_pool();
    for _ in 0..100 {
        let pick = choose_random(&pool);
        assert!(pool.iter().any(|s| s == pick));
    }
}

#[test]
fn prompt_body_uppercases_the_romaji() {
    assert_eq!(card_prompt_body("ka"), "Romaji: KA\n\n选择 Yes 打开卡片，No 跳过");
}
