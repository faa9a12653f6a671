//! Character-level helpers shared by the parsers of this crate: decimal
//! numbers, whitespace trimming, searching, and conversion between `str`,
//! `String` and vectors of characters.
use vstd::prelude::*;

verus! {

// ---------------------------------------------------------------------------
// Conversions
// ---------------------------------------------------------------------------

/// The characters of `s`, in order.
pub fn chars_of(s: &str) -> (out: Vec<char>)
    ensures
        out@ == s@,
{
    broadcast use vstd::string::group_string_axioms;

    let mut out: Vec<char> = Vec::new();
    for c in iter: s.chars()
        invariant
            out@ == iter.seq().take(iter.index() as int),
            iter.seq() == s@,
    {
        out.push(c);
    }
    out
}

/// Collects characters into a `String` (std's `FromIterator<char>`).
#[verifier::external_body]
pub(crate) fn string_of(chars: &[char]) -> (s: String)
    ensures
        s@ == chars@,
{
    chars.iter().collect()
}

/// A `String` holding the characters of `s`.
pub fn owned(s: &str) -> (out: String)
    ensures
        out@ == s@,
{
    s.to_owned()
}

/// Appends the characters of `s` to `out`.
pub fn push_str_chars(out: &mut Vec<char>, s: &str)
    ensures
        final(out)@ == old(out)@ + s@,
{
    let cs = chars_of(s);
    push_all(out, &cs);
}

/// Appends `more` to `out`.
pub fn push_all(out: &mut Vec<char>, more: &[char])
    ensures
        final(out)@ == old(out)@ + more@,
{
    let mut i: usize = 0;
    while i < more.len()
        invariant
            i <= more.len(),
            out@ == old(out)@ + more@.take(i as int),
        decreases more.len() - i,
    {
        out.push(more[i]);
        i = i + 1;
        assert(more@.take(i as int) == more@.take(i - 1).push(more@[i - 1]));
    }
    assert(more@.take(more.len() as int) == more@);
}

/// The characters `chars[from..to]`.
pub fn slice_chars(chars: &[char], from: usize, to: usize) -> (out: Vec<char>)
    requires
        from <= to <= chars.len(),
    ensures
        out@ == chars@.subrange(from as int, to as int),
{
    let mut out: Vec<char> = Vec::new();
    let mut i: usize = from;
    while i < to
        invariant
            from <= i <= to <= chars.len(),
            out@ == chars@.subrange(from as int, i as int),
        decreases to - i,
    {
        out.push(chars[i]);
        i = i + 1;
        assert(chars@.subrange(from as int, i as int) == chars@.subrange(from as int, i - 1).push(
            chars@[i - 1],
        ));
    }
    out
}

/// Whether `a` and `b` hold the same characters.
pub fn chars_eq(a: &[char], b: &[char]) -> (r: bool)
    ensures
        r == (a@ == b@),
{
    if a.len() != b.len() {
        return false;
    }
    let mut i: usize = 0;
    while i < a.len()
        invariant
            a.len() == b.len(),
            i <= a.len(),
            forall|k: int| 0 <= k < i ==> a@[k] == b@[k],
        decreases a.len() - i,
    {
        if a[i] != b[i] {
            return false;
        }
        i = i + 1;
    }
    assert(a@ =~= b@);
    true
}

/// Whether `chars[from..to]` equals `word`.
pub fn range_eq(chars: &[char], from: usize, to: usize, word: &[char]) -> (r: bool)
    requires
        from <= to <= chars.len(),
    ensures
        r == (chars@.subrange(from as int, to as int) == word@),
{
    if to - from != word.len() {
        return false;
    }
    let mut i: usize = 0;
    while i < word.len()
        invariant
            to - from == word.len(),
            from <= to <= chars.len(),
            i <= word.len(),
            forall|k: int| 0 <= k < i ==> chars@[from + k] == word@[k],
        decreases word.len() - i,
    {
        if chars[from + i] != word[i] {
            return false;
        }
        i = i + 1;
    }
    assert(chars@.subrange(from as int, to as int) =~= word@);
    true
}

// ---------------------------------------------------------------------------
// Searching
// ---------------------------------------------------------------------------

/// Whether `pat` occurs in `s` at position `i`.
pub open spec fn occurs_at(s: Seq<char>, pat: Seq<char>, i: int) -> bool {
    0 <= i && i + pat.len() <= s.len() && s.subrange(i, i + pat.len()) == pat
}

/// The first position at or after `from` where `pat` occurs in `s`.
pub open spec fn find_from(s: Seq<char>, pat: Seq<char>, from: int) -> Option<int>
    decreases s.len() + 1 - from,
{
    if from < 0 || from + pat.len() > s.len() {
        None
    } else if occurs_at(s, pat, from) {
        Some(from)
    } else {
        find_from(s, pat, from + 1)
    }
}

/// The first position where `pat` occurs in `s` (std's `str::find`).
pub open spec fn find(s: Seq<char>, pat: Seq<char>) -> Option<int> {
    find_from(s, pat, 0)
}

/// The first position at or after `from` holding `c`.
pub open spec fn index_of_from(s: Seq<char>, c: char, from: int) -> Option<int>
    decreases s.len() - from,
{
    if from < 0 || from >= s.len() {
        None
    } else if s[from] == c {
        Some(from)
    } else {
        index_of_from(s, c, from + 1)
    }
}

/// The last position holding `c`.
pub open spec fn last_index_of(s: Seq<char>, c: char) -> Option<int>
    decreases s.len(),
{
    if s.len() == 0 {
        None
    } else if s.last() == c {
        Some(s.len() - 1)
    } else {
        last_index_of(s.drop_last(), c)
    }
}

pub proof fn lemma_find_from_facts(s: Seq<char>, pat: Seq<char>, from: int)
    requires
        0 <= from,
    ensures
        find_from(s, pat, from) matches Some(i) ==> from <= i && occurs_at(s, pat, i) && forall|
            k: int,
        |
            from <= k < i ==> !occurs_at(s, pat, k),
        find_from(s, pat, from) is None ==> forall|k: int| from <= k ==> !occurs_at(s, pat, k),
    decreases s.len() + 1 - from,
{
    if from < 0 || from + pat.len() > s.len() {
    } else if occurs_at(s, pat, from) {
    } else {
        lemma_find_from_facts(s, pat, from + 1);
    }
}

pub proof fn lemma_index_of_from_facts(s: Seq<char>, c: char, from: int)
    requires
        0 <= from,
    ensures
        index_of_from(s, c, from) matches Some(i) ==> from <= i < s.len() && s[i] == c && forall|
            k: int,
        |
            from <= k < i ==> s[k] != c,
        index_of_from(s, c, from) is None ==> forall|k: int| from <= k < s.len() ==> s[k] != c,
    decreases s.len() - from,
{
    if from >= s.len() {
    } else if s[from] == c {
    } else {
        lemma_index_of_from_facts(s, c, from + 1);
    }
}

pub proof fn lemma_last_index_of_facts(s: Seq<char>, c: char)
    ensures
        last_index_of(s, c) matches Some(i) ==> 0 <= i < s.len() && s[i] == c && forall|k: int|
            i < k < s.len() ==> s[k] != c,
        last_index_of(s, c) is None ==> forall|k: int| 0 <= k < s.len() ==> s[k] != c,
    decreases s.len(),
{
    if s.len() == 0 {
    } else if s.last() == c {
    } else {
        lemma_last_index_of_facts(s.drop_last(), c);
        assert forall|k: int| 0 <= k < s.len() - 1 implies s.drop_last()[k] == s[k] by {}
    }
}

/// First position at or after `from` where `pat` occurs.
pub fn find_chars_from(s: &[char], pat: &[char], from: usize) -> (r: Option<usize>)
    ensures
        match r {
            Some(i) => find_from(s@, pat@, from as int) == Some(i as int),
            None => find_from(s@, pat@, from as int) is None,
        },
{
    let mut i: usize = from;
    while i <= s.len() && pat.len() <= s.len() - i
        invariant
            from <= i,
            find_from(s@, pat@, from as int) == find_from(s@, pat@, i as int),
        decreases s.len() + 1 - i,
    {
        if range_eq(s, i, i + pat.len(), pat) {
            return Some(i);
        }
        if i == s.len() {
            assert(find_from(s@, pat@, i + 1) is None);
            return None;
        }
        i = i + 1;
    }
    None
}

/// First position at or after `from` holding `c`.
pub fn index_of_char_from(s: &[char], c: char, from: usize) -> (r: Option<usize>)
    ensures
        match r {
            Some(i) => index_of_from(s@, c, from as int) == Some(i as int),
            None => index_of_from(s@, c, from as int) is None,
        },
{
    let mut i: usize = from;
    while i < s.len()
        invariant
            from <= i,
            index_of_from(s@, c, from as int) == index_of_from(s@, c, i as int),
        decreases s.len() - i,
    {
        if s[i] == c {
            return Some(i);
        }
        i = i + 1;
    }
    None
}

/// Last position holding `c`.
pub fn last_index_of_char(s: &[char], c: char) -> (r: Option<usize>)
    ensures
        match r {
            Some(i) => last_index_of(s@, c) == Some(i as int),
            None => last_index_of(s@, c) is None,
        },
{
    let mut i: usize = s.len();
    assert(s@.take(s.len() as int) == s@);
    while i > 0
        invariant
            i <= s.len(),
            last_index_of(s@, c) == last_index_of(s@.take(i as int), c),
            forall|k: int| i <= k < s.len() ==> s@[k] != c,
        decreases i,
    {
        assert(s@.take(i as int).drop_last() == s@.take(i - 1));
        if s[i - 1] == c {
            return Some(i - 1);
        }
        i = i - 1;
    }
    None
}

// ---------------------------------------------------------------------------
// Whitespace
// ---------------------------------------------------------------------------

/// Unicode `White_Space`, the set that std's `char::is_whitespace` tests.
pub open spec fn is_whitespace(c: char) -> bool {
    let v = c as u32;
    (0x09 <= v && v <= 0x0d) || v == 0x20 || v == 0x85 || v == 0xa0 || v == 0x1680 || (0x2000
        <= v && v <= 0x200a) || v == 0x2028 || v == 0x2029 || v == 0x202f || v == 0x205f || v
        == 0x3000
}

pub fn char_is_whitespace(c: char) -> (r: bool)
    ensures
        r == is_whitespace(c),
{
    let v = c as u32;
    (0x09 <= v && v <= 0x0d) || v == 0x20 || v == 0x85 || v == 0xa0 || v == 0x1680 || (0x2000
        <= v && v <= 0x200a) || v == 0x2028 || v == 0x2029 || v == 0x202f || v == 0x205f || v
        == 0x3000
}

/// `s` without its leading whitespace.
pub open spec fn trim_start(s: Seq<char>) -> Seq<char>
    decreases s.len(),
{
    if s.len() > 0 && is_whitespace(s[0]) {
        trim_start(s.drop_first())
    } else {
        s
    }
}

/// `s` without its trailing whitespace.
pub open spec fn trim_end(s: Seq<char>) -> Seq<char>
    decreases s.len(),
{
    if s.len() > 0 && is_whitespace(s.last()) {
        trim_end(s.drop_last())
    } else {
        s
    }
}

/// `s` without leading and trailing whitespace (std's `str::trim`).
pub open spec fn trim(s: Seq<char>) -> Seq<char> {
    trim_end(trim_start(s))
}

proof fn lemma_trim_start_skip(s: Seq<char>, i: int)
    requires
        0 <= i <= s.len(),
        forall|k: int| 0 <= k < i ==> is_whitespace(s[k]),
    ensures
        trim_start(s) == trim_start(s.skip(i)),
    decreases i,
{
    if i > 0 {
        assert(is_whitespace(s[0]));
        assert(s.drop_first().skip(i - 1) == s.skip(i));
        assert forall|k: int| 0 <= k < i - 1 implies is_whitespace(s.drop_first()[k]) by {
            assert(s.drop_first()[k] == s[k + 1]);
        }
        lemma_trim_start_skip(s.drop_first(), i - 1);
        assert(trim_start(s) == trim_start(s.drop_first()));
    } else {
        assert(s.skip(0) == s);
    }
}

proof fn lemma_trim_end_take(s: Seq<char>, j: int)
    requires
        0 <= j <= s.len(),
        forall|k: int| j <= k < s.len() ==> is_whitespace(s[k]),
    ensures
        trim_end(s) == trim_end(s.take(j)),
    decreases s.len() - j,
{
    if j < s.len() {
        assert(is_whitespace(s.last()));
        assert forall|k: int| j <= k < s.len() - 1 implies is_whitespace(s.drop_last()[k]) by {
            assert(s.drop_last()[k] == s[k]);
        }
        assert(s.drop_last().take(j) == s.take(j));
        lemma_trim_end_take(s.drop_last(), j);
    } else {
        assert(s.take(j) == s);
    }
}

/// `chars` without leading and trailing whitespace.
pub fn trim_chars(chars: &[char]) -> (out: Vec<char>)
    ensures
        out@ == trim(chars@),
{
    let mut i: usize = 0;
    while i < chars.len() && char_is_whitespace(chars[i])
        invariant
            i <= chars.len(),
            forall|k: int| 0 <= k < i ==> is_whitespace(chars@[k]),
        decreases chars.len() - i,
    {
        i = i + 1;
    }
    proof {
        lemma_trim_start_skip(chars@, i as int);
    }
    let ghost rest = chars@.skip(i as int);
    let mut j: usize = chars.len();
    while j > i && char_is_whitespace(chars[j - 1])
        invariant
            i <= j <= chars.len(),
            forall|k: int| j <= k < chars.len() ==> is_whitespace(chars@[k]),
        decreases j,
    {
        j = j - 1;
    }
    proof {
        if i < chars.len() {
            assert(!is_whitespace(rest[0]));
            assert(trim_start(rest) == rest);
        } else {
            assert(rest.len() == 0);
        }
        assert(trim_start(chars@) == rest);
        lemma_trim_end_take(rest, j - i);
        assert(rest.take(j - i) == chars@.subrange(i as int, j as int));
        if j > i {
            assert(!is_whitespace(chars@.subrange(i as int, j as int).last()));
        }
    }
    slice_chars(chars, i, j)
}

/// `s` without leading and trailing whitespace, as characters.
pub fn trimmed(s: &str) -> (out: Vec<char>)
    ensures
        out@ == trim(s@),
{
    let cs = chars_of(s);
    trim_chars(&cs)
}

/// `s` with every `c` taken out (std's `str::replace(c, "")`).
pub open spec fn remove_char(s: Seq<char>, c: char) -> Seq<char> {
    s.filter(|x: char| x != c)
}

pub fn remove_char_chars(chars: &[char], c: char) -> (out: Vec<char>)
    ensures
        out@ == remove_char(chars@, c),
{
    let mut out: Vec<char> = Vec::new();
    let mut i: usize = 0;
    while i < chars.len()
        invariant
            i <= chars.len(),
            out@ == remove_char(chars@.take(i as int), c),
        decreases chars.len() - i,
    {
        proof {
            assert(chars@.take(i + 1).drop_last() == chars@.take(i as int));
            reveal_with_fuel(Seq::filter, 1);
        }
        if chars[i] != c {
            out.push(chars[i]);
        }
        i = i + 1;
    }
    assert(chars@.take(chars.len() as int) == chars@);
    out
}

// ---------------------------------------------------------------------------
// Decimal numbers
// ---------------------------------------------------------------------------

pub open spec fn is_digit(c: char) -> bool {
    '0' <= c && c <= '9'
}

pub open spec fn digit_value(c: char) -> int {
    c as int - '0' as int
}

pub open spec fn all_digits(s: Seq<char>) -> bool {
    forall|i: int| 0 <= i < s.len() ==> is_digit(#[trigger] s[i])
}

/// The value of a run of decimal digits.
pub open spec fn digits_value(s: Seq<char>) -> nat
    decreases s.len(),
{
    if s.len() == 0 {
        0
    } else {
        (digits_value(s.drop_last()) * 10 + digit_value(s.last())) as nat
    }
}

/// The number a text denotes when it is a sign (`+` or, where `signed`, `-`)
/// followed by at least one decimal digit, the rule of std's integer
/// `FromStr`; range is checked by the callers.
pub open spec fn signed_value(s: Seq<char>, signed: bool) -> Option<int> {
    if s.len() > 0 && s[0] == '-' && signed {
        let body = s.drop_first();
        if body.len() > 0 && all_digits(body) {
            Some(-digits_value(body))
        } else {
            None
        }
    } else {
        let body = if s.len() > 0 && s[0] == '+' {
            s.drop_first()
        } else {
            s
        };
        if body.len() > 0 && all_digits(body) {
            Some(digits_value(body) as int)
        } else {
            None
        }
    }
}

/// std's `str::parse::<i64>`: `Some` exactly on the texts it accepts.
pub open spec fn parse_i64(s: Seq<char>) -> Option<i64> {
    match signed_value(s, true) {
        Some(v) => if i64::MIN <= v <= i64::MAX {
            Some(v as i64)
        } else {
            None
        },
        None => None,
    }
}

/// std's `str::parse::<u32>`.
pub open spec fn parse_u32(s: Seq<char>) -> Option<u32> {
    match signed_value(s, false) {
        Some(v) => if 0 <= v <= u32::MAX {
            Some(v as u32)
        } else {
            None
        },
        None => None,
    }
}

/// std's `str::parse::<usize>`.
pub open spec fn parse_usize(s: Seq<char>) -> Option<usize> {
    match signed_value(s, false) {
        Some(v) => if 0 <= v <= usize::MAX {
            Some(v as usize)
        } else {
            None
        },
        None => None,
    }
}

/// std's `str::parse::<i32>`.
pub open spec fn parse_i32(s: Seq<char>) -> Option<i32> {
    match signed_value(s, true) {
        Some(v) => if i32::MIN <= v <= i32::MAX {
            Some(v as i32)
        } else {
            None
        },
        None => None,
    }
}

proof fn lemma_digits_prefix_le(s: Seq<char>, i: int, j: int)
    requires
        0 <= i <= j <= s.len(),
        all_digits(s),
    ensures
        digits_value(s.take(i)) <= digits_value(s.take(j)),
    decreases j - i,
{
    if i < j {
        lemma_digits_prefix_le(s, i, j - 1);
        assert(s.take(j).drop_last() == s.take(j - 1));
        assert(is_digit(s[j - 1]));
    }
}

/// Reads the digits `chars[from..]`; `None` as soon as the value passes `bound`.
fn digits_up_to(chars: &[char], from: usize, bound: u128) -> (r: Option<u128>)
    requires
        from <= chars.len(),
        bound <= u64::MAX as u128 + 1,
    ensures
        ({
            let body = chars@.skip(from as int);
            match r {
                Some(v) => body.len() > 0 && all_digits(body) && v == digits_value(body) && v
                    <= bound,
                None => !(body.len() > 0 && all_digits(body) && digits_value(body) <= bound),
            }
        }),
{
    let ghost body = chars@.skip(from as int);
    if from == chars.len() {
        return None;
    }
    let mut acc: u128 = 0;
    let mut i: usize = from;
    while i < chars.len()
        invariant
            from <= i <= chars.len(),
            bound <= u64::MAX as u128 + 1,
            body == chars@.skip(from as int),
            all_digits(body.take(i - from)),
            acc == digits_value(body.take(i - from)),
            acc <= bound,
        decreases chars.len() - i,
    {
        let c = chars[i];
        assert(body[i - from] == c);
        if !('0' <= c && c <= '9') {
            assert(!all_digits(body));
            return None;
        }
        let d = (c as u32 - '0' as u32) as u128;
        acc = acc * 10 + d;
        i = i + 1;
        proof {
            assert(body.take(i - from).drop_last() == body.take(i - from - 1));
            assert(all_digits(body.take(i - from)));
        }
        if acc > bound {
            proof {
                if all_digits(body) {
                    lemma_digits_prefix_le(body, i - from, body.len() as int);
                    assert(body.take(body.len() as int) == body);
                }
            }
            return None;
        }
    }
    assert(body.take(i - from) == body);
    Some(acc)
}

/// Parses a signed decimal as std's `str::parse::<i64>` does.
pub fn parse_i64_chars(chars: &[char]) -> (r: Option<i64>)
    ensures
        r == parse_i64(chars@),
{
    if chars.len() > 0 && chars[0] == '-' {
        proof {
            assert(chars@.skip(1) == chars@.drop_first());
        }
        match digits_up_to(chars, 1, 9223372036854775808u128) {
            Some(v) => {
                if v == 9223372036854775808u128 {
                    Some(i64::MIN)
                } else {
                    Some(-(v as i64))
                }
            },
            None => None,
        }
    } else {
        let from: usize = if chars.len() > 0 && chars[0] == '+' {
            1
        } else {
            0
        };
        proof {
            assert(chars@.skip(1) == chars@.drop_first());
            assert(chars@.skip(0) == chars@);
        }
        match digits_up_to(chars, from, 9223372036854775807u128) {
            Some(v) => Some(v as i64),
            None => None,
        }
    }
}

/// Parses an unsigned decimal up to `bound` as std's unsigned `FromStr` does.
fn parse_unsigned_chars(chars: &[char], bound: u64) -> (r: Option<u64>)
    ensures
        match r {
            Some(v) => signed_value(chars@, false) == Some(v as int) && v <= bound,
            None => !(signed_value(chars@, false) matches Some(v) && 0 <= v <= bound),
        },
{
    let from: usize = if chars.len() > 0 && chars[0] == '+' {
        1
    } else {
        0
    };
    proof {
        assert(chars@.skip(1) == chars@.drop_first());
        assert(chars@.skip(0) == chars@);
    }
    if chars.len() > 0 && chars[0] == '-' {
        return None;
    }
    match digits_up_to(chars, from, bound as u128) {
        Some(v) => Some(v as u64),
        None => None,
    }
}

/// Parses as std's `str::parse::<u32>` does.
pub fn parse_u32_chars(chars: &[char]) -> (r: Option<u32>)
    ensures
        r == parse_u32(chars@),
{
    match parse_unsigned_chars(chars, 4294967295u64) {
        Some(v) => Some(v as u32),
        None => None,
    }
}

/// Parses as std's `str::parse::<usize>` does.
pub fn parse_usize_chars(chars: &[char]) -> (r: Option<usize>)
    ensures
        r == parse_usize(chars@),
{
    match parse_unsigned_chars(chars, usize::MAX as u64) {
        Some(v) => Some(v as usize),
        None => None,
    }
}

/// Parses as std's `str::parse::<i32>` does.
pub fn parse_i32_chars(chars: &[char]) -> (r: Option<i32>)
    ensures
        r == parse_i32(chars@),
{
    match parse_i64_chars(chars) {
        Some(v) => if -2147483648 <= v && v <= 2147483647 {
            Some(v as i32)
        } else {
            None
        },
        None => None,
    }
}

/// The decimal digit for `d < 10`.
pub open spec fn digit_char(d: nat) -> char {
    ('0' as u32 + d) as char
}

/// The decimal text of `n`, without sign or leading zeros.
pub open spec fn decimal(n: nat) -> Seq<char>
    decreases n,
{
    if n < 10 {
        seq![digit_char(n)]
    } else {
        decimal(n / 10).push(digit_char(n % 10))
    }
}

/// The decimal text of a signed number, as `Display` writes it.
pub open spec fn signed_decimal(n: int) -> Seq<char> {
    if n < 0 {
        seq!['-'] + decimal((-n) as nat)
    } else {
        decimal(n as nat)
    }
}

pub proof fn lemma_decimal_facts(n: nat)
    ensures
        decimal(n).len() > 0,
        all_digits(decimal(n)),
        digits_value(decimal(n)) == n,
        is_digit(decimal(n)[0]),
        n > 0 ==> decimal(n)[0] != '0',
    decreases n,
{
    if n >= 10 {
        lemma_decimal_facts(n / 10);
        let d = decimal(n);
        assert(d.drop_last() == decimal(n / 10));
        assert(digit_value(digit_char(n % 10)) == n % 10);
        assert(d.last() == digit_char(n % 10));
        assert(digits_value(d) == digits_value(d.drop_last()) * 10 + digit_value(d.last()));
        assert((n / 10) * 10 + n % 10 == n);
        assert(digits_value(d) == n);
    } else {
        let d = decimal(n);
        assert(d.drop_last() =~= Seq::<char>::empty());
        assert(digit_value(digit_char(n)) == n);
        assert(digits_value(d.drop_last()) == 0);
        assert(digits_value(d) == n);
        assert forall|i: int| 0 <= i < d.len() implies is_digit(#[trigger] d[i]) by {
            if i < d.len() - 1 {
                assert(d[i] == decimal(n / 10)[i]);
            }
        }
    }
}

/// The character of the decimal digit `d`.
pub fn digit_to_char(d: u32) -> (c: char)
    requires
        d < 10,
    ensures
        c == digit_char(d as nat),
{
    if d == 0 {
        '0'
    } else if d == 1 {
        '1'
    } else if d == 2 {
        '2'
    } else if d == 3 {
        '3'
    } else if d == 4 {
        '4'
    } else if d == 5 {
        '5'
    } else if d == 6 {
        '6'
    } else if d == 7 {
        '7'
    } else if d == 8 {
        '8'
    } else {
        '9'
    }
}

fn push_decimal(out: &mut Vec<char>, n: u64)
    ensures
        final(out)@ == old(out)@ + decimal(n as nat),
    decreases n,
{
    if n >= 10 {
        push_decimal(out, n / 10);
    }
    let c = digit_to_char((n % 10) as u32);
    out.push(c);
    proof {
        if n >= 10 {
            assert(decimal(n as nat) == decimal((n / 10) as nat).push(digit_char((n % 10) as nat)));
        }
    }
}

/// The decimal text of `n`.
pub fn u64_decimal(n: u64) -> (out: Vec<char>)
    ensures
        out@ == decimal(n as nat),
{
    let mut out: Vec<char> = Vec::new();
    push_decimal(&mut out, n);
    out
}

/// The decimal text of `n` as `Display` writes it.
pub fn i64_decimal(n: i64) -> (out: Vec<char>)
    ensures
        out@ == signed_decimal(n as int),
{
    let mut out: Vec<char> = Vec::new();
    if n < 0 {
        out.push('-');
        let m: u64 = if n == i64::MIN {
            9223372036854775808u64
        } else {
            (-n) as u64
        };
        push_decimal(&mut out, m);
    } else {
        push_decimal(&mut out, n as u64);
    }
    out
}

/// Law: the text that `i64_decimal` writes reads back, through `parse_i64`,
/// as the number it was written from.
pub proof fn law_i64_decimal_parses_back(n: i64)
    ensures
        parse_i64(signed_decimal(n as int)) == Some(n),
{
    if n < 0 {
        let m = (-n) as nat;
        lemma_decimal_facts(m);
        let s = signed_decimal(n as int);
        assert(s.drop_first() == decimal(m));
    } else {
        lemma_decimal_facts(n as nat);
    }
}

/// Law: the decimal text of an unsigned number reads back as that number.
pub proof fn law_u32_decimal_parses_back(n: u32)
    ensures
        parse_u32(decimal(n as nat)) == Some(n),
{
    lemma_decimal_facts(n as nat);
}

} // verus!
