//! The decisions of the standalone reminder: its argument parsing, the
//! romaji pool it quizzes from, the random pick, and the text of the prompt
//! it shows. The host loop sleeps, shows the message box, and spawns the
//! flashcard window.

use vstd::prelude::*;

use crate::dict::{assoc_card, gojuon_romaji, lemma_gojuon_covered, JapaneseChar};
use crate::text::{spec_parse_u64, parse_u64, str_eq, upper_chars};

verus! {

/// The interval the argument list asks for: the value of the last
/// well-formed `--interval-minutes` pair, or 30 minutes.
pub open spec fn spec_interval_minutes(args: Seq<Seq<char>>) -> u64
    decreases args.len(),
{
    if args.len() < 2 {
        30
    } else if args[args.len() - 2] == "--interval-minutes"@ && spec_parse_u64(
        args[args.len() - 1],
    ) is Some {
        spec_parse_u64(args[args.len() - 1])->0
    } else {
        spec_interval_minutes(args.drop_last())
    }
}

/// Reads `--interval-minutes N` from the argument list; 30 when absent or
/// malformed. A later pair overrides an earlier one.
pub fn parse_interval_minutes(args: &Vec<String>) -> (m: u64)
    ensures
        m == spec_interval_minutes(args.deep_view()),
{
    let mut i: usize = args.len();
    proof {
        assert(args.deep_view().take(i as int) =~= args.deep_view());
    }
    while i >= 2
        invariant
            i <= args@.len(),
            spec_interval_minutes(args.deep_view()) == spec_interval_minutes(
                args.deep_view().take(i as int),
            ),
        decreases i,
    {
        if str_eq(args[i - 2].as_str(), "--interval-minutes") {
            if let Some(v) = parse_u64(args[i - 1].as_str()) {
                proof {
                    assert(args.deep_view().take(i as int)[i - 2] == args@[i - 2]@);
                    assert(args.deep_view().take(i as int)[i - 1] == args@[i - 1]@);
                }
                return v;
            }
        }
        proof {
            assert(args.deep_view().take(i as int).drop_last() =~= args.deep_view().take(i - 1));
            assert(args.deep_view().take(i as int)[i - 2] == args@[i - 2]@);
            assert(args.deep_view().take(i as int)[i - 1] == args@[i - 1]@);
        }
        i -= 1;
    }
    proof {
        assert(spec_interval_minutes(args.deep_view().take(i as int)) == 30);
    }
    30
}

/// The interval in seconds, clamped at the top of the range instead of
/// overflowing.
pub fn interval_seconds(minutes: u64) -> (s: u64)
    ensures
        minutes * 60 <= u64::MAX ==> s == minutes * 60,
        minutes * 60 > u64::MAX ==> s == u64::MAX,
{
    if minutes > u64::MAX / 60 {
        u64::MAX
    } else {
        minutes * 60
    }
}

/// The 46 basic romaji the reminder quizzes from.
pub fn romaji_pool() -> (r: Vec<String>)
    ensures
        r@.len() == 46,
        r.deep_view() == gojuon_romaji(),
{
    let mut v: Vec<String> = Vec::new();
    v.push(String::from_str("a"));
    v.push(String::from_str("i"));
    v.push(String::from_str("u"));
    v.push(String::from_str("e"));
    v.push(String::from_str("o"));
    v.push(String::from_str("ka"));
    v.push(String::from_str("ki"));
    v.push(String::from_str("ku"));
    v.push(String::from_str("ke"));
    v.push(String::from_str("ko"));
    v.push(String::from_str("sa"));
    v.push(String::from_str("shi"));
    v.push(String::from_str("su"));
    v.push(String::from_str("se"));
    v.push(String::from_str("so"));
    v.push(String::from_str("ta"));
    v.push(String::from_str("chi"));
    v.push(String::from_str("tsu"));
    v.push(String::from_str("te"));
    v.push(String::from_str("to"));
    v.push(String::from_str("na"));
    v.push(String::from_str("ni"));
    v.push(String::from_str("nu"));
    v.push(String::from_str("ne"));
    v.push(String::from_str("no"));
    v.push(String::from_str("ha"));
    v.push(String::from_str("hi"));
    v.push(String::from_str("fu"));
    v.push(String::from_str("he"));
    v.push(String::from_str("ho"));
    v.push(String::from_str("ma"));
    v.push(String::from_str("mi"));
    v.push(String::from_str("mu"));
    v.push(String::from_str("me"));
    v.push(String::from_str("mo"));
    v.push(String::from_str("ya"));
    v.push(String::from_str("yu"));
    v.push(String::from_str("yo"));
    v.push(String::from_str("ra"));
    v.push(String::from_str("ri"));
    v.push(String::from_str("ru"));
    v.push(String::from_str("re"));
    v.push(String::from_str("ro"));
    v.push(String::from_str("wa"));
    v.push(String::from_str("wo"));
    v.push(String::from_str("n"));
    proof {
        assert(v.deep_view() =~= gojuon_romaji());
    }
    v
}

/// Relies on rand's `Rng::gen_range` on a `thread_rng`: a sample from the
/// nonempty range `0..n`, so the call does not panic and the result is in
/// range. Nothing more is assumed of a random draw.
#[verifier::external_body]
fn random_below(n: usize) -> (i: usize)
    requires
        n > 0,
    ensures
        i < n,
{
    rand::Rng::gen_range(&mut rand::thread_rng(), 0..n)
}

/// One element of `pool`, drawn at random.
pub fn choose_random(pool: &Vec<String>) -> (s: &String)
    requires
        pool@.len() > 0,
    ensures
        exists|i: int| 0 <= i < pool@.len() && *s == pool@[i],
{
    let i = random_below(pool.len());
    &pool[i]
}

/// Every quiz pick has a flashcard: a string drawn from the pool is a key
/// of any table whose key column is the gojuon, so rendering the picked
/// card never comes up empty.
pub proof fn lemma_pick_has_card(entries: Seq<(String, JapaneseChar)>, s: Seq<char>)
    requires
        entries.len() == gojuon_romaji().len(),
        forall|k: int| 0 <= k < entries.len() ==> #[trigger] entries[k].0@ == gojuon_romaji()[k],
        exists|i: int| 0 <= i < gojuon_romaji().len() && s == gojuon_romaji()[i],
    ensures
        assoc_card(entries, s) is Some,
{
    let i = choose|i: int| 0 <= i < gojuon_romaji().len() && s == gojuon_romaji()[i];
    lemma_gojuon_covered(entries, i);
}

/// The body of the reminder prompt for one romaji, shown uppercased.
pub fn card_prompt_body(romaji: &str) -> (r: String)
    ensures
        r@ == "Romaji: "@ + upper_chars(romaji@) + "\n\n选择 Yes 打开卡片，No 跳过"@,
{
    let mut r = String::from_str("Romaji: ");
    let upper = crate::text::ascii_upper(romaji);
    r.append(upper.as_str());
    r.append("\n\n选择 Yes 打开卡片，No 跳过");
    r
}

} // verus!
