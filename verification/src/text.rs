//! Text helpers: characters of a string, comparison, search and joining.

use vstd::prelude::*;
use vstd::string::StringExecFns;

verus! {

/// The characters of `s`, in order.
pub fn chars_of(s: &str) -> (res: Vec<char>)
    ensures
        res@ == s@,
{
    let mut out: Vec<char> = Vec::new();
    for c in it: s.chars()
        invariant
            out@ == it.seq().take(it.index() as int),
            it.seq() == s@,
    {
        out.push(c);
    }
    out
}

/// Whether two texts hold the same characters.
pub fn same_text(a: &str, b: &str) -> (res: bool)
    ensures
        res == (a@ == b@),
{
    a.to_owned() == b.to_owned()
}

/// `a` followed by `b`.
pub fn concat2(a: &str, b: &str) -> (res: String)
    ensures
        res@ == a@ + b@,
{
    let mut out = String::new();
    out.append(a);
    out.append(b);
    assert(out@ =~= a@ + b@);
    out
}

/// `a`, `b` and `c` in a row.
pub fn concat3(a: &str, b: &str, c: &str) -> (res: String)
    ensures
        res@ == a@ + b@ + c@,
{
    let mut out = String::new();
    out.append(a);
    out.append(b);
    out.append(c);
    assert(out@ =~= a@ + b@ + c@);
    out
}

/// Whether `needle` stands in `hay` at position `i`.
pub open spec fn occurs_at(hay: Seq<char>, needle: Seq<char>, i: int) -> bool {
    0 <= i && i + needle.len() <= hay.len() && hay.subrange(i, i + needle.len()) == needle
}

/// Whether `needle` stands somewhere in `hay`. The empty text stands in
/// every text.
pub open spec fn is_substring(needle: Seq<char>, hay: Seq<char>) -> bool {
    exists|i: int| occurs_at(hay, needle, i)
}

/// Whether `needle` stands in `hay` at position `at`.
fn matches_at(hay: &Vec<char>, needle: &Vec<char>, at: usize) -> (res: bool)
    requires
        at + needle.len() <= hay.len(),
    ensures
        res == occurs_at(hay@, needle@, at as int),
{
    let ghost window = hay@.subrange(at as int, at + needle.len());
    let mut k: usize = 0;
    while k < needle.len()
        invariant
            k <= needle.len(),
            at + needle.len() <= hay.len(),
            window == hay@.subrange(at as int, at + needle.len()),
            forall|x: int| 0 <= x < k ==> window[x] == needle[x],
        decreases needle.len() - k,
    {
        if hay[at + k] != needle[k] {
            assert(window[k as int] != needle[k as int]);
            return false;
        }
        k += 1;
    }
    assert(window =~= needle@);
    true
}

/// Whether `needle` stands somewhere in `hay`.
pub fn contains_text(hay: &str, needle: &str) -> (res: bool)
    ensures
        res == is_substring(needle@, hay@),
{
    let h = chars_of(hay);
    let n = chars_of(needle);
    if n.len() > h.len() {
        return false;
    }
    if n.len() == 0 {
        assert(hay@.subrange(0, 0) =~= needle@);
        assert(occurs_at(hay@, needle@, 0));
        return true;
    }
    let last: usize = h.len() - n.len();
    let mut i: usize = 0;
    while i <= last
        invariant
            i <= last + 1,
            last == h.len() - n.len(),
            0 < n.len() <= h.len(),
            h@ == hay@,
            n@ == needle@,
            forall|x: int| 0 <= x < i ==> !occurs_at(hay@, needle@, x),
        decreases last + 1 - i,
    {
        if matches_at(&h, &n, i) {
            assert(occurs_at(hay@, needle@, i as int));
            return true;
        }
        i += 1;
    }
    false
}

/// Whether `text` ends with `suffix`.
pub open spec fn ends_with(text: Seq<char>, suffix: Seq<char>) -> bool {
    suffix.len() <= text.len() && text.subrange(text.len() - suffix.len(), text.len() as int)
        == suffix
}

/// Whether `text` begins with `prefix`.
pub open spec fn starts_with(text: Seq<char>, prefix: Seq<char>) -> bool {
    prefix.len() <= text.len() && text.subrange(0, prefix.len() as int) == prefix
}

/// `text` without the characters `c` at its end.
pub open spec fn trimmed_end(text: Seq<char>, c: char) -> Seq<char>
    decreases text.len(),
{
    if text.len() > 0 && text.last() == c {
        trimmed_end(text.drop_last(), c)
    } else {
        text
    }
}

/// `text` without the copies of `suffix` at its end. An empty suffix takes
/// nothing away.
pub open spec fn without_suffix(text: Seq<char>, suffix: Seq<char>) -> Seq<char>
    decreases text.len(),
{
    if suffix.len() > 0 && ends_with(text, suffix) {
        without_suffix(text.take(text.len() - suffix.len()), suffix)
    } else {
        text
    }
}

/// Whether the first `end` characters of `text` end with `suffix`.
pub(crate) fn ends_with_chars(text: &Vec<char>, end: usize, suffix: &Vec<char>) -> (res: bool)
    requires
        end <= text.len(),
    ensures
        res == ends_with(text@.take(end as int), suffix@),
{
    if suffix.len() > end {
        return false;
    }
    let start: usize = end - suffix.len();
    let ghost head = text@.take(end as int);
    let ghost tail = head.subrange(head.len() - suffix.len(), head.len() as int);
    let mut k: usize = 0;
    while k < suffix.len()
        invariant
            k <= suffix.len(),
            end <= text.len(),
            suffix.len() <= end,
            start == end - suffix.len(),
            head == text@.take(end as int),
            tail == head.subrange(head.len() - suffix.len(), head.len() as int),
            forall|x: int| 0 <= x < k ==> tail[x] == suffix[x],
        decreases suffix.len() - k,
    {
        if text[start + k] != suffix[k] {
            assert(tail[k as int] != suffix[k as int]);
            return false;
        }
        k += 1;
    }
    assert(tail =~= suffix@);
    true
}

/// Whether `text` begins with `prefix`.
pub fn begins_with(text: &str, prefix: &str) -> (res: bool)
    ensures
        res == starts_with(text@, prefix@),
{
    let t = chars_of(text);
    let p = chars_of(prefix);
    if p.len() > t.len() {
        return false;
    }
    let ghost head = text@.subrange(0, prefix@.len() as int);
    let mut k: usize = 0;
    while k < p.len()
        invariant
            k <= p.len(),
            p.len() <= t.len(),
            t@ == text@,
            p@ == prefix@,
            head == text@.subrange(0, prefix@.len() as int),
            forall|x: int| 0 <= x < k ==> head[x] == p[x],
        decreases p.len() - k,
    {
        if t[k] != p[k] {
            assert(head[k as int] != p[k as int]);
            return false;
        }
        k += 1;
    }
    assert(head =~= prefix@);
    true
}

/// `text` without the characters `c` at its end.
pub fn trim_end_char(text: &str, c: char) -> (res: String)
    ensures
        res@ == trimmed_end(text@, c),
{
    let chars = chars_of(text);
    let mut end: usize = chars.len();
    assert(text@.take(end as int) =~= text@);
    while end > 0 && chars[end - 1] == c
        invariant
            end <= chars.len(),
            chars@ == text@,
            trimmed_end(text@, c) == trimmed_end(text@.take(end as int), c),
        decreases end,
    {
        assert(text@.take(end as int).drop_last() =~= text@.take(end as int - 1));
        end -= 1;
    }
    String::from_str(text.substring_char(0, end))
}

/// `text` without the copies of `suffix` at its end.
pub fn trim_end_text(text: &str, suffix: &str) -> (res: String)
    ensures
        res@ == without_suffix(text@, suffix@),
{
    let chars = chars_of(text);
    let tail = chars_of(suffix);
    let mut end: usize = chars.len();
    assert(text@.take(end as int) =~= text@);
    if tail.len() == 0 {
        return String::from_str(text);
    }
    while ends_with_chars(&chars, end, &tail)
        invariant
            end <= chars.len(),
            chars@ == text@,
            tail@ == suffix@,
            tail.len() > 0,
            without_suffix(text@, suffix@) == without_suffix(text@.take(end as int), suffix@),
        decreases end,
    {
        assert(text@.take(end as int).take(end - tail.len()) =~= text@.take(end - tail.len()));
        end -= tail.len();
    }
    String::from_str(text.substring_char(0, end))
}

/// `text` without the whitespace at its beginning and end, as `str::trim`
/// gives it.
pub uninterp spec fn whitespace_trimmed(text: Seq<char>) -> Seq<char>;

/// `text` in lower case, as `str::to_lowercase` gives it.
pub uninterp spec fn lowercased(text: Seq<char>) -> Seq<char>;

/// Trusted: `str::trim`, copied into a `String`. Claimed: the result
/// depends on the characters of `text` alone.
#[verifier::external_body]
pub(crate) fn trim(text: &str) -> (res: String)
    ensures
        res@ == whitespace_trimmed(text@),
{
    text.trim().to_owned()
}

/// Trusted: `str::to_lowercase`. Claimed: the result depends on the
/// characters of `text` alone.
#[verifier::external_body]
pub(crate) fn lowercase(text: &str) -> (res: String)
    ensures
        res@ == lowercased(text@),
{
    text.to_lowercase()
}

/// The whitespace-separated terms of a text, as `str::split_whitespace`
/// gives them.
pub uninterp spec fn whitespace_terms(text: Seq<char>) -> Seq<Seq<char>>;

/// Trusted: `str::split_whitespace`, each term copied into a `String`.
/// Claimed: the terms depend on the characters of `text` alone.
#[verifier::external_body]
pub(crate) fn split_terms(text: &str) -> (res: Vec<String>)
    ensures
        res.deep_view() == whitespace_terms(text@),
{
    text.split_whitespace().map(str::to_owned).collect()
}

/// The decimal digit `d` as text.
pub open spec fn digit_text(d: nat) -> Seq<char> {
    if d == 0 {
        "0"@
    } else if d == 1 {
        "1"@
    } else if d == 2 {
        "2"@
    } else if d == 3 {
        "3"@
    } else if d == 4 {
        "4"@
    } else if d == 5 {
        "5"@
    } else if d == 6 {
        "6"@
    } else if d == 7 {
        "7"@
    } else if d == 8 {
        "8"@
    } else {
        "9"@
    }
}

/// The number `n` in decimal digits, without leading zeros.
pub open spec fn decimal_text(n: nat) -> Seq<char>
    decreases n,
{
    if n < 10 {
        digit_text(n)
    } else {
        decimal_text(n / 10) + digit_text(n % 10)
    }
}

/// The decimal digit `d` as text.
fn digit(d: usize) -> (res: String)
    requires
        d < 10,
    ensures
        res@ == digit_text(d as nat),
{
    if d == 0 {
        String::from_str("0")
    } else if d == 1 {
        String::from_str("1")
    } else if d == 2 {
        String::from_str("2")
    } else if d == 3 {
        String::from_str("3")
    } else if d == 4 {
        String::from_str("4")
    } else if d == 5 {
        String::from_str("5")
    } else if d == 6 {
        String::from_str("6")
    } else if d == 7 {
        String::from_str("7")
    } else if d == 8 {
        String::from_str("8")
    } else {
        String::from_str("9")
    }
}

/// The number `n` in decimal digits.
pub fn decimal(n: usize) -> (res: String)
    ensures
        res@ == decimal_text(n as nat),
    decreases n,
{
    if n < 10 {
        digit(n)
    } else {
        let head = decimal(n / 10);
        let last = digit(n % 10);
        concat2(head.as_str(), last.as_str())
    }
}

/// What follows the first `prefix.len()` characters of `text`: nothing when
/// `text` is shorter than that.
pub fn rest_after(text: &str, prefix: &str) -> (res: String)
    ensures
        res@ == if prefix@.len() <= text@.len() {
            text@.skip(prefix@.len() as int)
        } else {
            Seq::empty()
        },
{
    let n = text.unicode_len();
    let k = prefix.unicode_len();
    if k <= n {
        let out = String::from_str(text.substring_char(k, n));
        assert(out@ =~= text@.skip(k as int));
        out
    } else {
        String::new()
    }
}

/// Whether `needle` is one of `items`.
pub fn list_contains(items: &Vec<String>, needle: &str) -> (res: bool)
    ensures
        res == items.deep_view().contains(needle@),
{
    let mut i: usize = 0;
    while i < items.len()
        invariant
            i <= items.len(),
            forall|x: int| 0 <= x < i ==> items.deep_view()[x] != needle@,
        decreases items.len() - i,
    {
        assert(items.deep_view()[i as int] == items[i as int]@);
        if same_text(items[i].as_str(), needle) {
            return true;
        }
        i += 1;
    }
    false
}

/// Copies a list of texts.
pub fn clone_texts(items: &Vec<String>) -> (res: Vec<String>)
    ensures
        res.deep_view() == items.deep_view(),
{
    let mut out: Vec<String> = Vec::new();
    let mut i: usize = 0;
    while i < items.len()
        invariant
            i <= items.len(),
            out.len() == i,
            forall|k: int| 0 <= k < i ==> out[k]@ == items[k]@,
        decreases items.len() - i,
    {
        out.push(items[i].clone());
        i += 1;
    }
    assert(out.deep_view() =~= items.deep_view());
    out
}

} // verus!
