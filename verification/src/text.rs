//! Verified text utilities: string equality, UTF-16 encoding for native
//! message boxes, ASCII case mapping, whitespace trimming, and decimal
//! parsing.

use vstd::prelude::*;

verus! {

/// Character-wise string equality.
pub fn str_eq(a: &str, b: &str) -> (r: bool)
    ensures
        r == (a@ == b@),
{
    let n = a.unicode_len();
    if n != b.unicode_len() {
        return false;
    }
    let mut i: usize = 0;
    while i < n
        invariant
            n == a@.len(),
            n == b@.len(),
            i <= n,
            forall|j: int| 0 <= j < i ==> a@[j] == b@[j],
        decreases n - i,
    {
        if a.get_char(i) != b.get_char(i) {
            return false;
        }
        i += 1;
    }
    proof {
        assert(a@ =~= b@);
    }
    true
}

/// The UTF-16 code units of one character: one unit below `0x10000`, a
/// surrogate pair above.
pub open spec fn utf16_units(c: char) -> Seq<u16> {
    let v = c as u32;
    if v < 0x10000 {
        seq![v as u16]
    } else {
        seq![
            (0xD800 + ((v - 0x10000) / 0x400)) as u16,
            (0xDC00 + ((v - 0x10000) % 0x400)) as u16,
        ]
    }
}

/// The UTF-16 encoding of a character sequence.
pub open spec fn utf16_encode(s: Seq<char>) -> Seq<u16>
    decreases s.len(),
{
    if s.len() == 0 {
        Seq::empty()
    } else {
        utf16_units(s[0]) + utf16_encode(s.drop_first())
    }
}

proof fn lemma_utf16_encode_push(s: Seq<char>, c: char)
    ensures
        utf16_encode(s.push(c)) == utf16_encode(s) + utf16_units(c),
    decreases s.len(),
{
    if s.len() == 0 {
        assert(s.push(c)[0] == c);
        assert(s.push(c).drop_first() =~= Seq::<char>::empty());
        assert(utf16_encode(Seq::<char>::empty()) == Seq::<u16>::empty());
        assert(utf16_encode(s.push(c)) == utf16_units(c) + Seq::<u16>::empty());
        assert(utf16_units(c) + Seq::<u16>::empty() =~= utf16_units(c));
        assert(utf16_encode(s) + utf16_units(c) =~= utf16_units(c));
    } else {
        assert(s.push(c).drop_first() =~= s.drop_first().push(c));
        lemma_utf16_encode_push(s.drop_first(), c);
        assert(utf16_encode(s.push(c)) =~= utf16_encode(s) + utf16_units(c));
    }
}

/// The UTF-16 encoding of `s`, with a trailing NUL, as native wide-string
/// APIs expect it.
pub fn to_wide(s: &str) -> (r: Vec<u16>)
    ensures
        r@ == utf16_encode(s@) + seq![0u16],
{
    let n = s.unicode_len();
    let mut r: Vec<u16> = Vec::new();
    let mut i: usize = 0;
    while i < n
        invariant
            n == s@.len(),
            i <= n,
            r@ == utf16_encode(s@.take(i as int)),
        decreases n - i,
    {
        let c = s.get_char(i);
        let v = c as u32;
        proof {
            vstd::utf8::char_is_scalar(c);
        }
        if v < 0x10000 {
            r.push(v as u16);
        } else {
            let rest = v - 0x10000;
            r.push(0xD800u16 + (rest / 0x400) as u16);
            r.push(0xDC00u16 + (rest % 0x400) as u16);
        }
        proof {
            assert(s@.take(i + 1) =~= s@.take(i as int).push(s@[i as int]));
            lemma_utf16_encode_push(s@.take(i as int), s@[i as int]);
        }
        i += 1;
    }
    r.push(0u16);
    proof {
        assert(s@.take(n as int) =~= s@);
        assert(r@ =~= utf16_encode(s@) + seq![0u16]);
    }
    r
}

/// ASCII uppercasing of one character; every other character is unchanged.
pub open spec fn upper_char(c: char) -> char {
    if 97 <= c as u32 && c as u32 <= 122 {
        ((c as u32 - 32) as char)
    } else {
        c
    }
}

/// ASCII lowercasing of one character; every other character is unchanged.
pub open spec fn lower_char(c: char) -> char {
    if 65 <= c as u32 && c as u32 <= 90 {
        ((c as u32 + 32) as char)
    } else {
        c
    }
}

pub open spec fn upper_chars(s: Seq<char>) -> Seq<char> {
    Seq::new(s.len(), |i: int| upper_char(s[i]))
}

pub open spec fn lower_chars(s: Seq<char>) -> Seq<char> {
    Seq::new(s.len(), |i: int| lower_char(s[i]))
}

/// `s` with ASCII letters uppercased. Letters outside ASCII keep their case:
/// the flashcard keys this feeds are plain romaji.
pub fn ascii_upper(s: &str) -> (r: String)
    ensures
        r@ == upper_chars(s@),
{
    let alphabet = "ABCDEFGHIJKLMNOPQRSTUVWXYZ";
    proof {
        reveal_strlit("ABCDEFGHIJKLMNOPQRSTUVWXYZ");
    }
    let n = s.unicode_len();
    let mut r = String::new();
    let mut i: usize = 0;
    while i < n
        invariant
            n == s@.len(),
            i <= n,
            alphabet@.len() == 26,
            forall|k: int| 0 <= k < 26 ==> alphabet@[k] as u32 == 65 + k,
            vstd::string::is_ascii(alphabet),
            r@ =~= upper_chars(s@.take(i as int)),
        decreases n - i,
    {
        let c = s.get_char(i);
        let v = c as u32;
        if 97 <= v && v <= 122 {
            let idx = (v - 97) as usize;
            let piece = alphabet.substring_ascii(idx, idx + 1);
            proof {
                assert(piece@ =~= seq![alphabet@[idx as int]]);
                vstd::utf8::char_u32_cast(alphabet@[idx as int], (v - 32) as u32);
            }
            r.append(piece);
        } else {
            let piece = s.substring_char(i, i + 1);
            proof {
                assert(piece@ =~= seq![s@[i as int]]);
            }
            r.append(piece);
        }
        proof {
            assert(r@ =~= upper_chars(s@.take(i + 1)));
        }
        i += 1;
    }
    proof {
        assert(s@.take(n as int) =~= s@);
    }
    r
}

/// `s` with ASCII letters lowercased, as dictionary keys are stored.
pub fn ascii_lower(s: &str) -> (r: String)
    ensures
        r@ == lower_chars(s@),
{
    let alphabet = "abcdefghijklmnopqrstuvwxyz";
    proof {
        reveal_strlit("abcdefghijklmnopqrstuvwxyz");
    }
    let n = s.unicode_len();
    let mut r = String::new();
    let mut i: usize = 0;
    while i < n
        invariant
            n == s@.len(),
            i <= n,
            alphabet@.len() == 26,
            forall|k: int| 0 <= k < 26 ==> alphabet@[k] as u32 == 97 + k,
            vstd::string::is_ascii(alphabet),
            r@ =~= lower_chars(s@.take(i as int)),
        decreases n - i,
    {
        let c = s.get_char(i);
        let v = c as u32;
        if 65 <= v && v <= 90 {
            let idx = (v - 65) as usize;
            let piece = alphabet.substring_ascii(idx, idx + 1);
            proof {
                assert(piece@ =~= seq![alphabet@[idx as int]]);
                vstd::utf8::char_u32_cast(alphabet@[idx as int], (v + 32) as u32);
            }
            r.append(piece);
        } else {
            let piece = s.substring_char(i, i + 1);
            proof {
                assert(piece@ =~= seq![s@[i as int]]);
            }
            r.append(piece);
        }
        proof {
            assert(r@ =~= lower_chars(s@.take(i + 1)));
        }
        i += 1;
    }
    proof {
        assert(s@.take(n as int) =~= s@);
    }
    r
}

/// `n` spaces.
pub open spec fn spaces(n: int) -> Seq<char>
    recommends
        n >= 0,
{
    Seq::new(n as nat, |i: int| ' ')
}

/// A string of `n` spaces.
pub fn make_spaces(n: usize) -> (r: String)
    ensures
        r@ == spaces(n as int),
{
    let mut r = String::new();
    let mut i: usize = 0;
    while i < n
        invariant
            i <= n,
            r@ =~= spaces(i as int),
        decreases n - i,
    {
        r.append(" ");
        proof {
            reveal_strlit(" ");
            assert(r@ =~= spaces(i + 1));
        }
        i += 1;
    }
    proof {
        assert(r@ =~= spaces(n as int));
    }
    r
}

/// The whitespace that trimming removes.
pub open spec fn is_space_char(c: char) -> bool {
    c == ' ' || c == '\t' || c == '\n' || c == '\r'
}

/// `s` without leading whitespace.
pub open spec fn trim_front(s: Seq<char>) -> Seq<char>
    decreases s.len(),
{
    if s.len() > 0 && is_space_char(s[0]) {
        trim_front(s.drop_first())
    } else {
        s
    }
}

/// `s` without trailing whitespace.
pub open spec fn trim_back(s: Seq<char>) -> Seq<char>
    decreases s.len(),
{
    if s.len() > 0 && is_space_char(s.last()) {
        trim_back(s.drop_last())
    } else {
        s
    }
}

/// `s` without leading and trailing whitespace.
pub open spec fn spec_trim(s: Seq<char>) -> Seq<char> {
    trim_back(trim_front(s))
}

fn is_space(c: char) -> (b: bool)
    ensures
        b == is_space_char(c),
{
    c == ' ' || c == '\t' || c == '\n' || c == '\r'
}

/// `s` with leading and trailing ASCII whitespace removed.
pub fn trim_spaces(s: &str) -> (r: String)
    ensures
        r@ == spec_trim(s@),
{
    let n = s.unicode_len();
    let mut start: usize = 0;
    proof {
        assert(s@.subrange(0, n as int) =~= s@);
    }
    while start < n && is_space(s.get_char(start))
        invariant
            n == s@.len(),
            start <= n,
            trim_front(s@) == trim_front(s@.subrange(start as int, n as int)),
        decreases n - start,
    {
        proof {
            assert(s@.subrange(start as int, n as int).drop_first() =~= s@.subrange(
                start + 1,
                n as int,
            ));
        }
        start += 1;
    }
    let t: Ghost<Seq<char>> = Ghost(s@.subrange(start as int, n as int));
    proof {
        assert(trim_front(s@) == t@);
    }
    let mut end: usize = n;
    while end > start && is_space(s.get_char(end - 1))
        invariant
            n == s@.len(),
            start <= end <= n,
            t@ == s@.subrange(start as int, n as int),
            trim_back(t@) == trim_back(s@.subrange(start as int, end as int)),
        decreases end,
    {
        proof {
            assert(s@.subrange(start as int, end as int).drop_last() =~= s@.subrange(
                start as int,
                end - 1,
            ));
        }
        end -= 1;
    }
    let piece = s.substring_char(start, end);
    proof {
        assert(trim_back(s@.subrange(start as int, end as int)) == s@.subrange(
            start as int,
            end as int,
        ));
    }
    String::from_str(piece)
}

/// An ASCII decimal digit.
pub open spec fn is_digit(c: char) -> bool {
    48 <= c as u32 && c as u32 <= 57
}

pub open spec fn digit_val(c: char) -> int {
    c as u32 - 48
}

pub open spec fn all_digits(s: Seq<char>) -> bool {
    forall|i: int| 0 <= i < s.len() ==> is_digit(s[i])
}

/// The number the digit string `s` denotes, most significant digit first.
pub open spec fn digits_val(s: Seq<char>) -> int
    decreases s.len(),
{
    if s.len() == 0 {
        0
    } else {
        digits_val(s.drop_last()) * 10 + digit_val(s.last())
    }
}

/// The value of a digit string: `None` on an empty string, on any
/// non-digit, and on overflow.
pub open spec fn spec_parse_digits(s: Seq<char>) -> Option<u64> {
    if s.len() > 0 && all_digits(s) && digits_val(s) <= u64::MAX {
        Some(digits_val(s) as u64)
    } else {
        None
    }
}

/// What parsing an unsigned decimal returns: an optional leading plus sign,
/// then at least one ASCII digit, the denoted value if it fits in a `u64`.
pub open spec fn spec_parse_u64(s: Seq<char>) -> Option<u64> {
    if s.len() > 0 && s[0] == '+' {
        spec_parse_digits(s.drop_first())
    } else {
        spec_parse_digits(s)
    }
}

proof fn lemma_digits_val_nonneg(s: Seq<char>)
    requires
        all_digits(s),
    ensures
        digits_val(s) >= 0,
    decreases s.len(),
{
    if s.len() > 0 {
        assert(all_digits(s.drop_last()));
        lemma_digits_val_nonneg(s.drop_last());
    }
}

proof fn lemma_digits_val_take_le(s: Seq<char>, k: int)
    requires
        all_digits(s),
        0 <= k <= s.len(),
    ensures
        digits_val(s.take(k)) <= digits_val(s),
    decreases s.len() - k,
{
    if k == s.len() {
        assert(s.take(k) =~= s);
    } else {
        assert(s.take(k + 1).drop_last() =~= s.take(k));
        assert(s.take(k + 1).last() == s[k]);
        assert(all_digits(s.take(k)));
        lemma_digits_val_nonneg(s.take(k));
        assert(digits_val(s.take(k)) <= digits_val(s.take(k + 1)));
        lemma_digits_val_take_le(s, k + 1);
    }
}

/// Parses an unsigned decimal, an optional `+` allowed in front; `None` on
/// an empty or signless-and-digitless string, on any other character, and
/// on overflow.
pub fn parse_u64(s: &str) -> (r: Option<u64>)
    ensures
        r == spec_parse_u64(s@),
{
    let n = s.unicode_len();
    if n == 0 {
        return None;
    }
    let start: usize = if s.get_char(0) == '+' {
        1
    } else {
        0
    };
    let ghost t = s@.subrange(start as int, n as int);
    proof {
        if start == 1 {
            assert(t =~= s@.drop_first());
        } else {
            assert(t =~= s@);
        }
        assert(spec_parse_u64(s@) == spec_parse_digits(t));
    }
    if start == n {
        return None;
    }
    let mut acc: u64 = 0;
    let mut i: usize = start;
    while i < n
        invariant
            n == s@.len(),
            start <= i <= n,
            start < n,
            t == s@.subrange(start as int, n as int),
            spec_parse_u64(s@) == spec_parse_digits(t),
            all_digits(t.take(i - start)),
            acc == digits_val(t.take(i - start)),
        decreases n - i,
    {
        let c = s.get_char(i);
        let v = c as u32;
        proof {
            assert(t[i - start] == s@[i as int]);
        }
        if v < 48 || v > 57 {
            proof {
                assert(!is_digit(t[i - start]));
                assert(!all_digits(t));
            }
            return None;
        }
        let d = (v - 48) as u64;
        proof {
            assert(t.take(i - start + 1).drop_last() =~= t.take(i - start));
            assert(t.take(i - start + 1).last() == t[i - start]);
        }
        if acc > (u64::MAX - d) / 10 {
            proof {
                assert(acc * 10 + d > u64::MAX) by {
                    assert(acc >= (u64::MAX - d) / 10 + 1);
                };
                if all_digits(t) {
                    assert(digits_val(t.take(i - start + 1)) == acc * 10 + d);
                    lemma_digits_val_take_le(t, i - start + 1);
                }
            }
            return None;
        }
        proof {
            assert(acc * 10 + d <= u64::MAX) by {
                assert(acc <= (u64::MAX - d) / 10);
                assert(acc * 10 <= ((u64::MAX - d) / 10) * 10);
            };
        }
        acc = acc * 10 + d;
        i += 1;
    }
    proof {
        assert(t.take(n - start) =~= t);
    }
    Some(acc)
}

/// The decimal digits of `n`, most significant first.
pub open spec fn spec_u64_digits(n: int) -> Seq<char>
    recommends
        n >= 0,
    decreases n,
{
    if n < 10 {
        seq![((48 + n) as char)]
    } else {
        spec_u64_digits(n / 10) + seq![((48 + n % 10) as char)]
    }
}

/// The decimal rendering of `n`, as the example numbering shows it.
pub fn u64_to_string(n: u64) -> (r: String)
    ensures
        r@ == spec_u64_digits(n as int),
    decreases n,
{
    let digits = "0123456789";
    proof {
        reveal_strlit("0123456789");
    }
    if n < 10 {
        let k = n as usize;
        let piece = digits.substring_ascii(k, k + 1);
        proof {
            assert(piece@ =~= seq![digits@[k as int]]);
            vstd::utf8::char_u32_cast(digits@[k as int], (48 + n) as u32);
        }
        String::from_str(piece)
    } else {
        let mut r = u64_to_string(n / 10);
        let k = (n % 10) as usize;
        let piece = digits.substring_ascii(k, k + 1);
        proof {
            assert(piece@ =~= seq![digits@[k as int]]);
            vstd::utf8::char_u32_cast(digits@[k as int], (48 + n % 10) as u32);
        }
        r.append(piece);
        r
    }
}

/// What lowercasing does to one character's code: an ASCII capital moves
/// down into the lowercase range, everything else is untouched.
pub proof fn lemma_lower_char_code(c: char)
    ensures
        65 <= c as u32 && c as u32 <= 90 ==> lower_char(c) as u32 == c as u32 + 32,
        !(65 <= c as u32 && c as u32 <= 90) ==> lower_char(c) == c,
{
    reveal_strlit("abcdefghijklmnopqrstuvwxyz");
    let alpha = "abcdefghijklmnopqrstuvwxyz"@;
    assert(alpha.len() == 26);
    assert(forall|k: int| 0 <= k < 26 ==> #[trigger] (alpha[k] as u32) == 97 + k);
    if 65 <= c as u32 && c as u32 <= 90 {
        let x = (c as u32 + 32) as u32;
        vstd::utf8::char_u32_cast(alpha[x - 97], x);
        assert(lower_char(c) == alpha[x - 97]);
    }
}

/// Lowercasing is idempotent: a second pass changes nothing.
pub proof fn lemma_lower_chars_idempotent(s: Seq<char>)
    ensures
        lower_chars(lower_chars(s)) == lower_chars(s),
{
    assert forall|i: int| 0 <= i < s.len() implies #[trigger] lower_chars(lower_chars(s))[i]
        == lower_chars(s)[i] by {
        lemma_lower_char_code(s[i]);
        lemma_lower_char_code(lower_char(s[i]));
    }
    assert(lower_chars(lower_chars(s)) =~= lower_chars(s));
}

/// Lowercasing ASCII text yields ASCII text of the same length.
pub proof fn lemma_lower_chars_ascii(s: Seq<char>)
    requires
        forall|i: int| 0 <= i < s.len() ==> (#[trigger] s[i] as u32) < 128,
    ensures
        lower_chars(s).len() == s.len(),
        forall|i: int| 0 <= i < s.len() ==> (#[trigger] lower_chars(s)[i] as u32) < 128,
{
    assert forall|i: int| 0 <= i < s.len() implies (#[trigger] lower_chars(s)[i] as u32)
        < 128 by {
        lemma_lower_char_code(s[i]);
    }
}

} // verus!
