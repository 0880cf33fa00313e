//! Character-level text model shared by the whole library: trimming, ASCII
//! case folding, decimal integers, and string building.
use vstd::prelude::*;
use vstd::string::StrSliceExecFns;
use vstd::string::StringExecFns;

verus! {

/// `char::is_whitespace`: the Unicode `White_Space` property.
pub open spec fn is_space(c: char) -> bool {
    let u = c as u32;
    ||| 0x09 <= u <= 0x0D
    ||| u == 0x20
    ||| u == 0x85
    ||| u == 0xA0
    ||| u == 0x1680
    ||| 0x2000 <= u <= 0x200A
    ||| u == 0x2028
    ||| u == 0x2029
    ||| u == 0x202F
    ||| u == 0x205F
    ||| u == 0x3000
}

/// Index of the first non-space character at or after `i` (or `s.len()`).
pub open spec fn first_non_space(s: Seq<char>, i: int) -> int
    decreases s.len() - i,
{
    if i >= s.len() {
        s.len() as int
    } else if is_space(s[i]) {
        first_non_space(s, i + 1)
    } else {
        i
    }
}

/// One past the last non-space character strictly before `j` (or `0`).
pub open spec fn end_non_space(s: Seq<char>, j: int) -> int
    decreases j,
{
    if j <= 0 {
        0
    } else if is_space(s[j - 1]) {
        end_non_space(s, j - 1)
    } else {
        j
    }
}

/// `str::trim`: the text without its leading and trailing white space.
pub open spec fn trim(s: Seq<char>) -> Seq<char> {
    let a = first_non_space(s, 0);
    if a >= s.len() {
        Seq::empty()
    } else {
        s.subrange(a, end_non_space(s, s.len() as int))
    }
}

/// `char::to_ascii_lowercase`.
pub open spec fn ascii_lower_char(c: char) -> char {
    if 'A' <= c <= 'Z' {
        ((c as u32) + 32) as char
    } else {
        c
    }
}

/// `str::to_ascii_lowercase`.
pub open spec fn ascii_lower(s: Seq<char>) -> Seq<char> {
    s.map_values(|c: char| ascii_lower_char(c))
}

/// The decimal digit character for `d` in `0..10`.
pub open spec fn digit_char(d: int) -> char {
    (('0' as int) + d) as char
}

/// Decimal text of a natural number, without leading zeros.
pub open spec fn nat_decimal(n: nat) -> Seq<char>
    decreases n,
{
    if n < 10 {
        seq![digit_char(n as int)]
    } else {
        nat_decimal(n / 10).push(digit_char((n % 10) as int))
    }
}

/// Decimal text of an integer as `Display` writes it.
pub open spec fn int_decimal(v: int) -> Seq<char> {
    if v < 0 {
        seq!['-'] + nat_decimal((-v) as nat)
    } else {
        nat_decimal(v as nat)
    }
}

/// `bool` as `Display` writes it.
pub open spec fn bool_text(b: bool) -> Seq<char> {
    if b {
        seq!['t', 'r', 'u', 'e']
    } else {
        seq!['f', 'a', 'l', 's', 'e']
    }
}

pub open spec fn is_ascii_digit(c: char) -> bool {
    '0' <= c <= '9'
}

/// The value of a sequence of ASCII digits.
pub open spec fn digits_value(s: Seq<char>) -> int
    decreases s.len(),
{
    if s.len() == 0 {
        0
    } else {
        digits_value(s.drop_last()) * 10 + ((s.last() as int) - ('0' as int))
    }
}

pub open spec fn all_digits(s: Seq<char>) -> bool {
    forall|i: int| 0 <= i < s.len() ==> is_ascii_digit(#[trigger] s[i])
}

/// What `str::parse` of an integer type with bounds `lo..=hi` reads: an
/// optional sign (`-` only when `lo < 0`) and at least one ASCII digit.
pub open spec fn parse_int_in(s: Seq<char>, lo: int, hi: int) -> Option<int> {
    if s.len() > 0 && s[0] == '-' && lo < 0 {
        let d = s.drop_first();
        if d.len() > 0 && all_digits(d) && lo <= -digits_value(d) {
            Some(-digits_value(d))
        } else {
            None
        }
    } else {
        let d = if s.len() > 0 && s[0] == '+' {
            s.drop_first()
        } else {
            s
        };
        if d.len() > 0 && all_digits(d) && digits_value(d) <= hi {
            Some(digits_value(d))
        } else {
            None
        }
    }
}

pub open spec fn parse_i64(s: Seq<char>) -> Option<int> {
    parse_int_in(s, i64::MIN as int, i64::MAX as int)
}

pub open spec fn parse_u64(s: Seq<char>) -> Option<int> {
    parse_int_in(s, 0, u64::MAX as int)
}

pub open spec fn parse_u32(s: Seq<char>) -> Option<int> {
    parse_int_in(s, 0, u32::MAX as int)
}

pub open spec fn parse_u16(s: Seq<char>) -> Option<int> {
    parse_int_in(s, 0, u16::MAX as int)
}

/// `str::contains` with a string pattern.
pub open spec fn contains_text(s: Seq<char>, pat: Seq<char>) -> bool {
    exists|i: int| 0 <= i <= s.len() - pat.len() && #[trigger] s.subrange(i, i + pat.len()) == pat
}

/// `str::starts_with` with a string pattern.
pub open spec fn starts_with_text(s: Seq<char>, pat: Seq<char>) -> bool {
    pat.len() <= s.len() && s.subrange(0, pat.len() as int) == pat
}

/// Text equality of two optional strings, compared by content.
pub open spec fn opt_text(o: Option<String>) -> Option<Seq<char>> {
    match o {
        Some(s) => Some(s@),
        None => None,
    }
}

/// The trimmed text of an optional value, kept only when it is not empty
/// (`.map(str::trim).filter(|v| !v.is_empty())`).
pub open spec fn nonblank(o: Option<Seq<char>>) -> Option<Seq<char>> {
    match o {
        Some(s) => if trim(s).len() > 0 {
            Some(trim(s))
        } else {
            None
        },
        None => None,
    }
}

/// `str::trim`.
#[verifier::external_body]
pub(crate) fn trim_str(s: &str) -> (r: &str)
    ensures
        r@ == trim(s@),
{
    s.trim()
}

/// `str::to_ascii_lowercase`.
#[verifier::external_body]
pub(crate) fn ascii_lowercase(s: &str) -> (r: String)
    ensures
        r@ == ascii_lower(s@),
{
    s.to_ascii_lowercase()
}

/// `<i64 as FromStr>::from_str`, keeping only whether it succeeded.
#[verifier::external_body]
pub(crate) fn parse_i64_text(s: &str) -> (r: Option<i64>)
    ensures
        match r {
            Some(v) => parse_i64(s@) == Some(v as int),
            None => parse_i64(s@) is None,
        },
{
    s.parse::<i64>().ok()
}

/// `<u64 as FromStr>::from_str`, keeping only whether it succeeded.
#[verifier::external_body]
pub(crate) fn parse_u64_text(s: &str) -> (r: Option<u64>)
    ensures
        match r {
            Some(v) => parse_u64(s@) == Some(v as int),
            None => parse_u64(s@) is None,
        },
{
    s.parse::<u64>().ok()
}

/// `<u32 as FromStr>::from_str`, keeping only whether it succeeded.
#[verifier::external_body]
pub(crate) fn parse_u32_text(s: &str) -> (r: Option<u32>)
    ensures
        match r {
            Some(v) => parse_u32(s@) == Some(v as int),
            None => parse_u32(s@) is None,
        },
{
    s.parse::<u32>().ok()
}

/// `<u16 as FromStr>::from_str`, keeping only whether it succeeded.
#[verifier::external_body]
pub(crate) fn parse_u16_text(s: &str) -> (r: Option<u16>)
    ensures
        match r {
            Some(v) => parse_u16(s@) == Some(v as int),
            None => parse_u16(s@) is None,
        },
{
    s.parse::<u16>().ok()
}

/// `<i64 as ToString>::to_string`.
#[verifier::external_body]
pub(crate) fn i64_text(v: i64) -> (r: String)
    ensures
        r@ == int_decimal(v as int),
{
    v.to_string()
}

/// `<u64 as ToString>::to_string`.
#[verifier::external_body]
pub(crate) fn u64_text(v: u64) -> (r: String)
    ensures
        r@ == int_decimal(v as int),
{
    v.to_string()
}

/// `<str as PartialEq>::eq`.
#[verifier::external_body]
pub(crate) fn str_eq(a: &str, b: &str) -> (r: bool)
    ensures
        r == (a@ == b@),
{
    a == b
}

/// `str::contains` with a `&str` pattern.
#[verifier::external_body]
pub(crate) fn str_contains(s: &str, pat: &str) -> (r: bool)
    ensures
        r == contains_text(s@, pat@),
{
    s.contains(pat)
}

/// `str::starts_with` with a `&str` pattern.
#[verifier::external_body]
pub(crate) fn str_starts_with(s: &str, pat: &str) -> (r: bool)
    ensures
        r == starts_with_text(s@, pat@),
{
    s.starts_with(pat)
}

/// `String::push`.
#[verifier::external_body]
pub(crate) fn push_char(s: &mut String, c: char)
    ensures
        final(s)@ == old(s)@.push(c),
{
    s.push(c)
}

/// A fresh `String` holding `s`.
pub fn owned(s: &str) -> (r: String)
    ensures
        r@ == s@,
{
    String::from_str(s)
}

/// Concatenation of two pieces of text.
pub fn concat2(a: &str, b: &str) -> (r: String)
    ensures
        r@ == a@ + b@,
{
    let mut r = String::from_str(a);
    r.append(b);
    r
}

/// Concatenation of three pieces of text.
pub fn concat3(a: &str, b: &str, c: &str) -> (r: String)
    ensures
        r@ == a@ + b@ + c@,
{
    let mut r = String::from_str(a);
    r.append(b);
    r.append(c);
    r
}

/// Concatenation of five pieces of text.
pub fn concat5(a: &str, b: &str, c: &str, d: &str, e: &str) -> (r: String)
    ensures
        r@ == a@ + b@ + c@ + d@ + e@,
{
    let mut r = String::from_str(a);
    r.append(b);
    r.append(c);
    r.append(d);
    r.append(e);
    r
}

/// The trimmed text of `value` when it is not blank
/// (`.map(str::trim).filter(|v| !v.is_empty())`).
pub fn nonblank_text(value: Option<&str>) -> (r: Option<String>)
    ensures
        opt_text(r) == nonblank(match value { Some(v) => Some(v@), None => None }),
{
    match value {
        Some(v) => {
            let t = trim_str(v);
            if t.unicode_len() == 0 {
                None
            } else {
                Some(owned(t))
            }
        },
        None => None,
    }
}

/// `str::split_whitespace`: the maximal runs of characters that are not
/// white space, in order.
pub open spec fn words(s: Seq<char>) -> Seq<Seq<char>>
    decreases s.len(),
{
    if s.len() == 0 {
        Seq::empty()
    } else {
        let w = words(s.drop_last());
        let c = s.last();
        if is_space(c) {
            w
        } else if s.len() >= 2 && !is_space(s[s.len() - 2]) {
            w.drop_last().push(w.last().push(c))
        } else {
            w.push(seq![c])
        }
    }
}

/// `str::split_whitespace`, collected.
#[verifier::external_body]
pub(crate) fn split_words(s: &str) -> (r: Vec<&str>)
    ensures
        r@.map_values(|w: &str| w@) == words(s@),
{
    s.split_whitespace().collect()
}

/// `<u16 as ToString>::to_string`.
#[verifier::external_body]
pub(crate) fn u16_text(v: u16) -> (r: String)
    ensures
        r@ == int_decimal(v as int),
{
    v.to_string()
}

/// `<u32 as ToString>::to_string`.
#[verifier::external_body]
pub(crate) fn u32_text(v: u32) -> (r: String)
    ensures
        r@ == int_decimal(v as int),
{
    v.to_string()
}

/// `<usize as ToString>::to_string`.
#[verifier::external_body]
pub(crate) fn usize_text(v: usize) -> (r: String)
    ensures
        r@ == int_decimal(v as int),
{
    v.to_string()
}

/// `String::push_str`.
pub fn push_text(s: &mut String, t: &str)
    ensures
        final(s)@ == old(s)@ + t@,
{
    s.append(t);
}

/// `usize` read from decimal text.
pub open spec fn parse_usize(s: Seq<char>) -> Option<int> {
    parse_int_in(s, 0, usize::MAX as int)
}

/// `<usize as FromStr>::from_str`, keeping only whether it succeeded.
#[verifier::external_body]
pub(crate) fn parse_usize_text(s: &str) -> (r: Option<usize>)
    ensures
        match r {
            Some(v) => parse_usize(s@) == Some(v as int),
            None => parse_usize(s@) is None,
        },
{
    s.parse::<usize>().ok()
}

/// The text with which `<u32 as FromStr>::from_str` reports that it cannot
/// read `s` (its `ParseIntError`'s `Display`).
pub uninterp spec fn u32_error_text(s: Seq<char>) -> Seq<char>;

/// The text with which `<i64 as FromStr>::from_str` reports that it cannot
/// read `s` (its `ParseIntError`'s `Display`).
pub uninterp spec fn i64_error_text(s: Seq<char>) -> Seq<char>;

/// `<u32 as FromStr>::from_str`, or the error's text.
#[verifier::external_body]
pub(crate) fn parse_u32_reporting(s: &str) -> (r: Result<u32, String>)
    ensures
        match r {
            Ok(v) => parse_u32(s@) == Some(v as int),
            Err(m) => parse_u32(s@) is None && m@ == u32_error_text(s@),
        },
{
    s.parse::<u32>().map_err(|e| e.to_string())
}

/// `<i64 as FromStr>::from_str`, or the error's text.
#[verifier::external_body]
pub(crate) fn parse_i64_reporting(s: &str) -> (r: Result<i64, String>)
    ensures
        match r {
            Ok(v) => parse_i64(s@) == Some(v as int),
            Err(m) => parse_i64(s@) is None && m@ == i64_error_text(s@),
        },
{
    s.parse::<i64>().map_err(|e| e.to_string())
}

/// The texts of a sequence of strings.
pub open spec fn texts(v: Seq<String>) -> Seq<Seq<char>> {
    v.map_values(|s: String| s@)
}

/// `parts` joined with `sep` between neighbours (`[T]::join`).
pub open spec fn join(parts: Seq<Seq<char>>, sep: Seq<char>) -> Seq<char>
    decreases parts.len(),
{
    if parts.len() == 0 {
        Seq::empty()
    } else if parts.len() == 1 {
        parts[0]
    } else {
        join(parts.drop_last(), sep) + sep + parts.last()
    }
}

/// The strings joined with `sep` between neighbours.
pub fn join_texts(parts: &Vec<String>, sep: &str) -> (r: String)
    ensures
        r@ == join(texts(parts@), sep@),
{
    let mut out = String::new();
    let n = parts.len();
    let mut i: usize = 0;
    while i < n
        invariant
            n == parts@.len(),
            i <= n,
            out@ == join(texts(parts@.take(i as int)), sep@),
        decreases n - i,
    {
        if i > 0 {
            push_text(&mut out, sep);
        }
        push_text(&mut out, parts[i].as_str());
        proof {
            let t = texts(parts@.take(i + 1));
            assert(t.drop_last() =~= texts(parts@.take(i as int)));
            assert(t.last() == parts@[i as int]@);
            if i == 0 {
                assert(out@ =~= parts@[0]@);
            }
        }
        i = i + 1;
    }
    assert(parts@.take(n as int) =~= parts@);
    out
}

/// Whether a sequence of strings holds one with the text `s`.
pub fn is_listed(list: &Vec<String>, s: &str) -> (r: bool)
    ensures
        r == texts(list@).contains(s@),
{
    let n = list.len();
    let mut i: usize = 0;
    while i < n
        invariant
            n == list@.len(),
            i <= n,
            forall|j: int| 0 <= j < i ==> list@[j]@ != s@,
        decreases n - i,
    {
        if str_eq(list[i].as_str(), s) {
            assert(texts(list@)[i as int] == s@);
            return true;
        }
        i = i + 1;
    }
    proof {
        if texts(list@).contains(s@) {
            let j = choose|j: int| 0 <= j < texts(list@).len() && texts(list@)[j] == s@;
            assert(list@[j]@ == s@);
        }
    }
    false
}

/// `str::to_lowercase`: the full Unicode lower-case mapping of the text.
pub uninterp spec fn unicode_lowercase(s: Seq<char>) -> Seq<char>;

/// `str::to_lowercase`.
#[verifier::external_body]
pub(crate) fn to_lowercase_text(s: &str) -> (r: String)
    ensures
        r@ == unicode_lowercase(s@),
{
    s.to_lowercase()
}

/// Every `from` character of `s` replaced by `to`.
pub open spec fn replace_char(s: Seq<char>, from: char, to: char) -> Seq<char> {
    s.map_values(|c: char| if c == from {
        to
    } else {
        c
    })
}

/// `str::replace` of one character by another.
pub fn replace_char_text(s: &str, from: char, to: char) -> (r: String)
    ensures
        r@ == replace_char(s@, from, to),
{
    let mut out = String::new();
    let n = s.unicode_len();
    let mut i: usize = 0;
    while i < n
        invariant
            n == s@.len(),
            i <= n,
            out@ == replace_char(s@.take(i as int), from, to),
        decreases n - i,
    {
        let c = s.get_char(i);
        push_char(&mut out, if c == from { to } else { c });
        i = i + 1;
        assert(out@ =~= replace_char(s@.take(i as int), from, to));
    }
    assert(s@.take(n as int) =~= s@);
    out
}


// ---------------------------------------------------------------- lemmas

/// Decimal text reads back as the number it writes.
pub proof fn lemma_nat_decimal_digits(n: nat)
    ensures
        nat_decimal(n).len() > 0,
        all_digits(nat_decimal(n)),
        digits_value(nat_decimal(n)) == n,
    decreases n,
{
    let k = (n % 10) as int;
    assert(digit_char(k) as int == ('0' as int) + k);
    if n < 10 {
        let s = seq![digit_char(n as int)];
        assert(s.drop_last() =~= Seq::<char>::empty());
        assert(digits_value(s) == digits_value(s.drop_last()) * 10 + ((s.last() as int) - ('0' as int)));
        assert(digits_value(s) == n);
    } else {
        lemma_nat_decimal_digits(n / 10);
        let d = nat_decimal(n / 10);
        let s = d.push(digit_char(k));
        assert(s.drop_last() =~= d);
        assert(digits_value(s) == digits_value(d) * 10 + k);
        assert((n / 10) * 10 + k == n);
        assert forall|i: int| 0 <= i < s.len() implies is_ascii_digit(#[trigger] s[i]) by {
            if i < d.len() {
                assert(s[i] == d[i]);
            }
        }
    }
}

/// Every parser of an integer type whose range holds `n` reads the decimal
/// text of `n` as `n`.
pub proof fn lemma_parse_nat_decimal(n: nat, lo: int, hi: int)
    requires
        lo <= n <= hi,
    ensures
        parse_int_in(nat_decimal(n), lo, hi) == Some(n as int),
{
    lemma_nat_decimal_digits(n);
    let s = nat_decimal(n);
    assert(is_ascii_digit(s[0]));
}

/// The words of a text that ends in a space, followed by more text, are the
/// words of each part.
pub proof fn lemma_words_concat(a: Seq<char>, b: Seq<char>)
    requires
        a.len() > 0 ==> is_space(a.last()),
    ensures
        words(a + b) == words(a) + words(b),
    decreases b.len(),
{
    if b.len() == 0 {
        assert(a + b =~= a);
        assert(words(b) =~= Seq::<Seq<char>>::empty());
        assert(words(a) + words(b) =~= words(a));
    } else {
        let s = a + b;
        let bd = b.drop_last();
        lemma_words_concat(a, bd);
        assert(s.drop_last() =~= a + bd);
        let c = b.last();
        assert(s.last() == c);
        if is_space(c) {
        } else if b.len() >= 2 && !is_space(b[b.len() - 2]) {
            assert(s[s.len() - 2] == b[b.len() - 2]);
            lemma_words_last_word(bd);
            let wa = words(a);
            let v = words(bd);
            assert((wa + v).drop_last() =~= wa + v.drop_last());
            assert((wa + v).last() == v.last());
            assert((wa + v.drop_last()).push(v.last().push(c)) =~= wa + v.drop_last().push(v.last().push(c)));
        } else {
            if b.len() >= 2 {
                assert(s[s.len() - 2] == b[b.len() - 2]);
            } else if a.len() > 0 {
                assert(s[s.len() - 2] == a.last());
            }
            assert((words(a) + words(bd)).push(seq![c]) =~= words(a) + words(bd).push(seq![c]));
        }
    }
}

/// A text that ends in something other than a space has a word.
pub proof fn lemma_words_last_word(s: Seq<char>)
    requires
        s.len() > 0,
        !is_space(s.last()),
    ensures
        words(s).len() > 0,
    decreases s.len(),
{
    if s.len() >= 2 && !is_space(s[s.len() - 2]) {
        let d = s.drop_last();
        assert(d.last() == s[s.len() - 2]);
        lemma_words_last_word(d);
    }
}

/// A text without spaces is one word.
pub proof fn lemma_words_single(w: Seq<char>)
    requires
        w.len() > 0,
        forall|i: int| 0 <= i < w.len() ==> !is_space(#[trigger] w[i]),
    ensures
        words(w) == seq![w],
    decreases w.len(),
{
    if w.len() == 1 {
        assert(w.drop_last() =~= Seq::<char>::empty());
        assert(words(w.drop_last()) =~= Seq::<Seq<char>>::empty());
        assert(seq![w.last()] =~= w);
        assert(!is_space(w[0]));
        assert(words(w) == Seq::<Seq<char>>::empty().push(seq![w.last()]));
        assert(Seq::<Seq<char>>::empty().push(w) =~= seq![w]);
    } else {
        let d = w.drop_last();
        assert forall|i: int| 0 <= i < d.len() implies !is_space(#[trigger] d[i]) by {
            assert(d[i] == w[i]);
        }
        lemma_words_single(d);
        assert(w[w.len() - 2] == d[d.len() - 1]);
        assert(!is_space(w.last()));
        assert(d.push(w.last()) =~= w);
        assert(seq![d].drop_last() =~= Seq::<Seq<char>>::empty());
        assert(seq![d].drop_last().push(seq![d].last().push(w.last())) =~= seq![w]);
    }
}

/// A word without spaces followed by a space is that one word.
pub proof fn lemma_words_word_space(w: Seq<char>)
    requires
        w.len() > 0,
        forall|i: int| 0 <= i < w.len() ==> !is_space(#[trigger] w[i]),
    ensures
        words(w + seq![' ']) == seq![w],
{
    lemma_words_single(w);
    let s = w + seq![' '];
    assert(s.drop_last() =~= w);
    assert(is_space(' '));
}

/// A word of lower-case ASCII letters and underscores.
pub open spec fn lower_word(w: Seq<char>) -> bool {
    &&& w.len() > 0
    &&& forall|i: int| 0 <= i < w.len() ==> ('a' <= #[trigger] w[i] <= 'z' || w[i] == '_')
}

/// A word of lower-case letters reads as itself: trimming and case folding
/// leave it as it is.
pub proof fn lemma_lower_word_reads_as_itself(w: Seq<char>)
    requires
        lower_word(w),
    ensures
        trim(w) == w,
        ascii_lower(w) == w,
        nonblank(Some(w)) == Some(w),
{
    assert(!is_space(w[0]));
    assert(!is_space(w[w.len() - 1]));
    assert(first_non_space(w, 0) == 0);
    assert(end_non_space(w, w.len() as int) == w.len());
    assert(w.subrange(0, w.len() as int) =~= w);
    assert(ascii_lower(w) =~= w);
}

} // verus!
