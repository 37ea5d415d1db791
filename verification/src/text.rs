use vstd::prelude::*;
use vstd::string::*;

verus! {

/// Whether two strings hold the same characters.
pub fn str_eq(a: &str, b: &str) -> (r: bool)
    ensures
        r == (a@ == b@),
{
    let n = a.unicode_len();
    if n != b.unicode_len() {
        return false;
    }
    let mut i: usize = 0;
    while i < n
        invariant
            n == a@.len(),
            n == b@.len(),
            i <= n,
            forall|j: int| 0 <= j < i ==> a@[j] == b@[j],
        decreases n - i,
    {
        if a.get_char(i) != b.get_char(i) {
            return false;
        }
        i = i + 1;
    }
    assert(a@ =~= b@);
    true
}

/// Whether the string holds the character `c`.
pub fn contains_char(s: &str, c: char) -> (r: bool)
    ensures
        r == s@.contains(c),
{
    let n = s.unicode_len();
    let mut i: usize = 0;
    while i < n
        invariant
            n == s@.len(),
            i <= n,
            forall|j: int| 0 <= j < i ==> s@[j] != c,
        decreases n - i,
    {
        if s.get_char(i) == c {
            assert(s@[i as int] == c);
            return true;
        }
        i = i + 1;
    }
    false
}

/// Whether `s` begins with `prefix`.
pub fn starts_with(s: &str, prefix: &str) -> (r: bool)
    ensures
        r == (prefix@.len() <= s@.len() && s@.take(prefix@.len() as int) == prefix@),
{
    let n = prefix.unicode_len();
    let m = s.unicode_len();
    if n > m {
        return false;
    }
    let mut i: usize = 0;
    while i < n
        invariant
            n == prefix@.len(),
            m == s@.len(),
            n <= m,
            i <= n,
            forall|j: int| 0 <= j < i ==> s@[j] == prefix@[j],
        decreases n - i,
    {
        if s.get_char(i) != prefix.get_char(i) {
            assert(s@.take(n as int)[i as int] != prefix@[i as int]);
            return false;
        }
        i = i + 1;
    }
    assert(s@.take(n as int) =~= prefix@);
    true
}

/// The pieces of `s` between occurrences of `sep`, as `str::split` with a
/// character gives them: one more piece than there are separators.
pub open spec fn spec_split(s: Seq<char>, sep: char) -> Seq<Seq<char>>
    decreases s.len(),
{
    if s.len() == 0 {
        seq![Seq::<char>::empty()]
    } else {
        let rest = spec_split(s.drop_last(), sep);
        if s.last() == sep {
            rest.push(Seq::<char>::empty())
        } else {
            rest.update(rest.len() - 1, rest.last().push(s.last()))
        }
    }
}

pub proof fn lemma_split_nonempty(s: Seq<char>, sep: char)
    ensures
        spec_split(s, sep).len() >= 1,
    decreases s.len(),
{
    if s.len() > 0 {
        lemma_split_nonempty(s.drop_last(), sep);
    }
}

/// Splits `s` at every occurrence of `sep`.
pub fn split_char(s: &str, sep: char) -> (parts: Vec<String>)
    ensures
        parts@.len() == spec_split(s@, sep).len(),
        forall|k: int| 0 <= k < parts@.len() ==> #[trigger] parts@[k]@ == spec_split(s@, sep)[k],
{
    let n = s.unicode_len();
    let mut parts: Vec<String> = Vec::new();
    let mut start: usize = 0;
    let mut i: usize = 0;
    while i < n
        invariant
            n == s@.len(),
            start <= i <= n,
            spec_split(s@.take(i as int), sep).len() == parts@.len() + 1,
            forall|k: int| 0 <= k < parts@.len() ==> #[trigger] parts@[k]@ == spec_split(s@.take(i as int), sep)[k],
            spec_split(s@.take(i as int), sep).last() == s@.subrange(start as int, i as int),
        decreases n - i,
    {
        let c = s.get_char(i);
        let ghost prev = s@.take(i as int);
        assert(s@.take(i + 1).drop_last() =~= prev);
        assert(s@.take(i + 1).last() == c);
        proof { lemma_split_nonempty(prev, sep); }
        if c == sep {
            let piece = s.substring_char(start, i).to_owned();
            parts.push(piece);
            start = i + 1;
            assert(s@.subrange(start as int, i + 1) =~= Seq::<char>::empty());
        } else {
            assert(s@.subrange(start as int, i + 1) =~= s@.subrange(start as int, i as int).push(c));
        }
        i = i + 1;
    }
    let last = s.substring_char(start, n).to_owned();
    parts.push(last);
    assert(s@.take(n as int) =~= s@);
    parts
}

/// The decimal digits of a natural number, most significant first.
pub open spec fn spec_digits(n: nat) -> Seq<char>
    decreases n,
{
    if n < 10 {
        seq![spec_digit_char(n)]
    } else {
        spec_digits(n / 10).push(spec_digit_char(n % 10))
    }
}

pub open spec fn spec_digit_char(d: nat) -> char {
    if d == 0 { '0' }
    else if d == 1 { '1' }
    else if d == 2 { '2' }
    else if d == 3 { '3' }
    else if d == 4 { '4' }
    else if d == 5 { '5' }
    else if d == 6 { '6' }
    else if d == 7 { '7' }
    else if d == 8 { '8' }
    else { '9' }
}

/// The decimal text of an integer, with a minus sign when it is negative.
pub open spec fn spec_decimal(n: int) -> Seq<char> {
    if n < 0 {
        seq!['-'] + spec_digits((-n) as nat)
    } else {
        spec_digits(n as nat)
    }
}

/// Whether every character is a decimal digit, and there is at least one.
pub open spec fn spec_all_digits(s: Seq<char>) -> bool {
    s.len() > 0 && forall|i: int| 0 <= i < s.len() ==> '0' <= #[trigger] s[i] <= '9'
}

/// The value of a run of decimal digits.
pub open spec fn spec_digits_value(s: Seq<char>) -> int
    decreases s.len(),
{
    if s.len() == 0 {
        0
    } else {
        spec_digits_value(s.drop_last()) * 10 + (s.last() as int - '0' as int)
    }
}

/// What `i64::from_str` gives: an optional `+` or `-` sign followed by one or
/// more decimal digits, whose value fits an `i64`; anything else is refused.
pub open spec fn spec_parse_i64(s: Seq<char>) -> Option<i64> {
    if s.len() > 0 && s[0] == '-' && spec_all_digits(s.skip(1)) {
        let v = -spec_digits_value(s.skip(1));
        if i64::MIN <= v { Some(v as i64) } else { None }
    } else if s.len() > 0 && s[0] == '+' && spec_all_digits(s.skip(1)) {
        let v = spec_digits_value(s.skip(1));
        if v <= i64::MAX { Some(v as i64) } else { None }
    } else if spec_all_digits(s) {
        let v = spec_digits_value(s);
        if v <= i64::MAX { Some(v as i64) } else { None }
    } else {
        None
    }
}

/// Reads the magnitude of a run of decimal digits, or `None` when it is not
/// a run of one or more digits or its value exceeds `limit`.
fn parse_magnitude(s: &str, start: usize, limit: u64) -> (r: Option<u64>)
    requires
        start <= s@.len(),
        limit >= 9,
    ensures
        r matches Some(m) ==> spec_all_digits(s@.skip(start as int)) && m == spec_digits_value(s@.skip(start as int)) && m <= limit,
        r is None ==> !(spec_all_digits(s@.skip(start as int)) && spec_digits_value(s@.skip(start as int)) <= limit),
{
    let n = s.unicode_len();
    let ghost digits = s@.skip(start as int);
    assert(digits =~= s@.subrange(start as int, n as int));
    if start == n {
        return None;
    }
    let mut value: u64 = 0;
    let mut i: usize = start;
    let mut fits = true;
    while i < n
        invariant
            n == s@.len(),
            start <= i <= n,
            start < n,
            limit >= 9,
            digits == s@.subrange(start as int, n as int),
            forall|k: int| start <= k < i ==> '0' <= #[trigger] s@[k] <= '9',
            fits ==> value == spec_digits_value(s@.subrange(start as int, i as int)) && value <= limit,
            !fits ==> spec_digits_value(s@.subrange(start as int, i as int)) > limit,
        decreases n - i,
    {
        let c = s.get_char(i);
        if !('0' <= c && c <= '9') {
            assert(digits[i - start] == c);
            assert(!spec_all_digits(digits));
            return None;
        }
        let ghost prefix = s@.subrange(start as int, i as int);
        assert(s@.subrange(start as int, i + 1) =~= prefix.push(c));
        proof {
            lemma_digits_value_push(prefix, c);
            assert forall|k: int| 0 <= k < prefix.len() implies '0' <= #[trigger] prefix[k] <= '9' by {
                assert(prefix[k] == s@[start + k]);
            }
            lemma_digits_value_nonneg(prefix);
        }
        let d = (c as u32 - '0' as u32) as u64;
        if fits {
            if value <= (limit - d) / 10 {
                assert(value * 10 + d <= limit) by (nonlinear_arith)
                    requires value <= (limit - d) / 10, d <= limit;
                value = value * 10 + d;
            } else {
                assert(value * 10 + d > limit) by (nonlinear_arith)
                    requires value > (limit - d) / 10, d <= 9, limit >= 0;
                fits = false;
            }
        }
        i = i + 1;
    }
    assert forall|k: int| 0 <= k < digits.len() implies '0' <= #[trigger] digits[k] <= '9' by {
        assert(digits[k] == s@[start + k]);
    }
    if fits { Some(value) } else { None }
}

/// Parses a decimal integer as `str::parse::<i64>` does.
pub fn parse_i64(s: &str) -> (r: Option<i64>)
    ensures
        r == spec_parse_i64(s@),
{
    let n = s.unicode_len();
    if n > 0 && s.get_char(0) == '-' {
        assert(!spec_all_digits(s@));
        let ghost digits = s@.skip(1);
        let r = parse_magnitude(s, 1, 9_223_372_036_854_775_808u64);
        match r {
            Some(m) => {
                assert(spec_all_digits(digits));
                assert(m == spec_digits_value(digits));
                if m == 9_223_372_036_854_775_808u64 {
                    Some(i64::MIN)
                } else {
                    Some(-(m as i64))
                }
            },
            None => {
                assert(!spec_all_digits(digits) || spec_digits_value(digits) > 9_223_372_036_854_775_808u64);
                None
            },
        }
    } else if n > 0 && s.get_char(0) == '+' {
        assert(!spec_all_digits(s@));
        match parse_magnitude(s, 1, 9_223_372_036_854_775_807u64) {
            Some(m) => Some(m as i64),
            None => None,
        }
    } else {
        assert(s@.skip(0) =~= s@);
        match parse_magnitude(s, 0, 9_223_372_036_854_775_807u64) {
            Some(m) => Some(m as i64),
            None => None,
        }
    }
}

/// The one-character text of a decimal digit.
fn digit_str(d: u64) -> (s: &'static str)
    requires
        d < 10,
    ensures
        s@ == seq![spec_digit_char(d as nat)],
{
    proof {
        reveal_strlit("0");
        reveal_strlit("1");
        reveal_strlit("2");
        reveal_strlit("3");
        reveal_strlit("4");
        reveal_strlit("5");
        reveal_strlit("6");
        reveal_strlit("7");
        reveal_strlit("8");
        reveal_strlit("9");
    }
    if d == 0 {
        "0"
    } else if d == 1 {
        "1"
    } else if d == 2 {
        "2"
    } else if d == 3 {
        "3"
    } else if d == 4 {
        "4"
    } else if d == 5 {
        "5"
    } else if d == 6 {
        "6"
    } else if d == 7 {
        "7"
    } else if d == 8 {
        "8"
    } else {
        "9"
    }
}

/// Appends the decimal digits of `m`, most significant first.
fn append_digits(r: &mut String, m: u64)
    ensures
        final(r)@ == old(r)@ + spec_digits(m as nat),
    decreases m,
{
    if m >= 10 {
        append_digits(r, m / 10);
    }
    r.append(digit_str(m % 10));
    assert(final(r)@ =~= old(r)@ + spec_digits(m as nat));
}

/// Writes an integer in decimal, with a leading `-` when it is negative.
pub fn i64_to_string(n: i64) -> (s: String)
    ensures
        s@ == spec_decimal(n as int),
{
    let mut r = String::new();
    if n < 0 {
        proof {
            reveal_strlit("-");
        }
        r.append("-");
        let m: u64 = if n == i64::MIN {
            9_223_372_036_854_775_808u64
        } else {
            (-n) as u64
        };
        append_digits(&mut r, m);
        assert(r@ =~= spec_decimal(n as int));
    } else {
        append_digits(&mut r, n as u64);
        assert(r@ =~= spec_decimal(n as int));
    }
    r
}

/// The lower-case form of a string, as `str::to_lowercase` computes it with the
/// Unicode case tables.
pub uninterp spec fn lowercase_of(s: Seq<char>) -> Seq<char>;

/// Lower-cases a string with `str::to_lowercase`.
///
/// Trusted: the result is named `lowercase_of` of the argument; nothing more is
/// claimed of the Unicode mapping.
#[verifier::external_body]
pub fn to_lowercase(s: &str) -> (r: String)
    ensures
        r@ == lowercase_of(s@),
{
    s.to_lowercase()
}

/// Joins two strings.
pub fn concat(a: &str, b: &str) -> (r: String)
    ensures
        r@ == a@ + b@,
{
    let mut r = a.to_owned();
    r.append(b);
    r
}

/// Whether `pattern` occurs in `s` starting at position `i`.
pub open spec fn spec_occurs_at(s: Seq<char>, pattern: Seq<char>, i: int) -> bool {
    0 <= i && i + pattern.len() <= s.len() && s.subrange(i, i + pattern.len()) == pattern
}

/// Whether `pattern` occurs somewhere in `s`.
pub fn contains_str(s: &str, pattern: &str) -> (r: bool)
    ensures
        r == exists|i: int| #[trigger] spec_occurs_at(s@, pattern@, i),
{
    let n = s.unicode_len();
    let m = pattern.unicode_len();
    if m > n {
        assert forall|i: int| !#[trigger] spec_occurs_at(s@, pattern@, i) by {}
        return false;
    }
    let mut i: usize = 0;
    while i <= n - m
        invariant
            n == s@.len(),
            m == pattern@.len(),
            m <= n,
            i <= n - m + 1,
            forall|k: int| 0 <= k < i ==> !#[trigger] spec_occurs_at(s@, pattern@, k),
        decreases n - m + 1 - i,
    {
        let mut j: usize = 0;
        let mut same = true;
        while j < m
            invariant
                n == s@.len(),
                m == pattern@.len(),
                i + m <= n,
                j <= m,
                same == forall|t: int| 0 <= t < j ==> s@[i + t] == pattern@[t],
            decreases m - j,
        {
            if s.get_char(i + j) != pattern.get_char(j) {
                same = false;
            }
            j = j + 1;
        }
        if same {
            assert(s@.subrange(i as int, i + m) =~= pattern@);
            assert(spec_occurs_at(s@, pattern@, i as int));
            return true;
        }
        assert(!spec_occurs_at(s@, pattern@, i as int)) by {
            let t = choose|t: int| 0 <= t < m && s@[i + t] != pattern@[t];
            assert(s@.subrange(i as int, i + m)[t] == s@[i + t]);
        }
        i = i + 1;
    }
    assert forall|k: int| !#[trigger] spec_occurs_at(s@, pattern@, k) by {
        if 0 <= k && k < i {
        }
    }
    false
}

/// What `u64::from_str` gives: an optional `+` sign followed by one or more
/// decimal digits, whose value fits a `u64`; anything else is refused.
pub open spec fn spec_parse_u64(s: Seq<char>) -> Option<u64> {
    let digits = if s.len() > 0 && s[0] == '+' { s.skip(1) } else { s };
    if spec_all_digits(digits) && spec_digits_value(digits) <= u64::MAX {
        Some(spec_digits_value(digits) as u64)
    } else {
        None
    }
}

proof fn lemma_digits_value_push(s: Seq<char>, c: char)
    ensures
        spec_digits_value(s.push(c)) == spec_digits_value(s) * 10 + (c as int - '0' as int),
{
    assert(s.push(c).drop_last() =~= s);
}

proof fn lemma_digits_value_nonneg(s: Seq<char>)
    requires
        forall|i: int| 0 <= i < s.len() ==> '0' <= #[trigger] s[i] <= '9',
    ensures
        spec_digits_value(s) >= 0,
    decreases s.len(),
{
    if s.len() > 0 {
        lemma_digits_value_nonneg(s.drop_last());
    }
}

/// Reads an unsigned decimal number as `str::parse::<u64>` does.
pub fn parse_u64(s: &str) -> (r: Option<u64>)
    ensures
        r == spec_parse_u64(s@),
{
    let n = s.unicode_len();
    if n > 0 && s.get_char(0) == '+' {
        parse_magnitude(s, 1, u64::MAX)
    } else {
        assert(s@.skip(0) =~= s@);
        parse_magnitude(s, 0, u64::MAX)
    }
}

/// Whether a character has the Unicode `White_Space` property, as
/// `char::is_whitespace` documents it.
pub open spec fn spec_is_whitespace(c: char) -> bool {
    ||| '\t' <= c <= '\r'
    ||| c == ' '
    ||| c == '\u{85}'
    ||| c == '\u{a0}'
    ||| c == '\u{1680}'
    ||| '\u{2000}' <= c <= '\u{200a}'
    ||| c == '\u{2028}'
    ||| c == '\u{2029}'
    ||| c == '\u{202f}'
    ||| c == '\u{205f}'
    ||| c == '\u{3000}'
}

/// Whether a character is white space.
pub fn is_whitespace(c: char) -> (b: bool)
    ensures
        b == spec_is_whitespace(c),
{
    ('\t' <= c && c <= '\r') || c == ' ' || c == '\u{85}' || c == '\u{a0}' || c == '\u{1680}'
        || ('\u{2000}' <= c && c <= '\u{200a}') || c == '\u{2028}' || c == '\u{2029}' || c == '\u{202f}'
        || c == '\u{205f}' || c == '\u{3000}'
}

/// The words of `s`: its longest runs of characters that are not white
/// space, in order, as `str::split_whitespace` gives them.
pub open spec fn spec_words(s: Seq<char>) -> Seq<Seq<char>>
    decreases s.len(),
{
    if s.len() == 0 {
        Seq::empty()
    } else {
        let words = spec_words(s.drop_last());
        let c = s.last();
        if spec_is_whitespace(c) {
            words
        } else if s.len() >= 2 && !spec_is_whitespace(s[s.len() - 2]) {
            words.update(words.len() - 1, words.last().push(c))
        } else {
            words.push(seq![c])
        }
    }
}

/// Splits `s` into its words.
pub fn split_whitespace(s: &str) -> (words: Vec<String>)
    ensures
        words@.len() == spec_words(s@).len(),
        forall|k: int| 0 <= k < words@.len() ==> #[trigger] words@[k]@ == spec_words(s@)[k],
{
    let n = s.unicode_len();
    let mut words: Vec<String> = Vec::new();
    let mut start: usize = 0;
    let mut in_word = false;
    let mut i: usize = 0;
    while i < n
        invariant
            n == s@.len(),
            i <= n,
            start <= i,
            in_word ==> {
                &&& spec_words(s@.take(i as int)).len() == words@.len() + 1
                &&& spec_words(s@.take(i as int)).last() == s@.subrange(start as int, i as int)
                &&& i > 0 && !spec_is_whitespace(s@[i - 1])
            },
            !in_word ==> {
                &&& spec_words(s@.take(i as int)).len() == words@.len()
                &&& (i == 0 || spec_is_whitespace(s@[i - 1]))
            },
            forall|k: int| 0 <= k < words@.len() ==> #[trigger] words@[k]@ == spec_words(s@.take(i as int))[k],
        decreases n - i,
    {
        let c = s.get_char(i);
        let ghost prev = s@.take(i as int);
        assert(s@.take(i + 1).drop_last() =~= prev);
        assert(s@.take(i + 1).last() == c);
        if is_whitespace(c) {
            if in_word {
                let word = s.substring_char(start, i).to_owned();
                words.push(word);
                in_word = false;
            }
        } else {
            if in_word {
                assert(s@.take(i + 1)[i - 1] == s@[i - 1]);
                assert(s@.subrange(start as int, i + 1) =~= s@.subrange(start as int, i as int).push(c));
            } else {
                if i > 0 {
                    assert(s@.take(i + 1)[i - 1] == s@[i - 1]);
                }
                start = i;
                in_word = true;
                assert(s@.subrange(start as int, i + 1) =~= seq![c]);
            }
        }
        i = i + 1;
    }
    if in_word {
        let word = s.substring_char(start, n).to_owned();
        words.push(word);
    }
    assert(s@.take(n as int) =~= s@);
    words
}

} // verus!
