//! Character-level text handling: search normalization, whitespace
//! trimming and collapsing, truncation with an ellipsis, substring search
//! and lexicographic order.
use vstd::prelude::*;
use vstd::utf8::is_ascii_chars;

verus! {

broadcast use vstd::string::group_string_axioms;

/// The ellipsis character appended to truncated text.
pub open spec fn ellipsis() -> char {
    '\u{2026}'
}

/// ASCII digits and ASCII letters (`char::is_ascii_alphanumeric`).
pub open spec fn is_ascii_alnum(c: char) -> bool {
    ('0' <= c && c <= '9') || ('a' <= c && c <= 'z') || ('A' <= c && c <= 'Z')
}

/// ASCII upper-case letters mapped to lower case; every other character kept.
pub open spec fn ascii_lower(c: char) -> char {
    if 'A' <= c && c <= 'Z' {
        ((c as u32) + 32) as char
    } else {
        c
    }
}

/// Characters with the Unicode `White_Space` property (`char::is_whitespace`).
pub open spec fn is_white_space(c: char) -> bool {
    ||| ('\u{9}' <= c && c <= '\u{d}')
    ||| c == ' '
    ||| c == '\u{85}'
    ||| c == '\u{a0}'
    ||| c == '\u{1680}'
    ||| ('\u{2000}' <= c && c <= '\u{200a}')
    ||| c == '\u{2028}'
    ||| c == '\u{2029}'
    ||| c == '\u{202f}'
    ||| c == '\u{205f}'
    ||| c == '\u{3000}'
}

/// The search form of a text: its ASCII letters and digits, lower-cased,
/// everything else dropped.
pub open spec fn normalized(s: Seq<char>) -> Seq<char> {
    s.filter(|c: char| is_ascii_alnum(c)).map_values(|c: char| ascii_lower(c))
}

/// `s` without its leading and trailing whitespace (`str::trim`).
pub open spec fn trimmed(s: Seq<char>) -> Seq<char>
    decreases s.len(),
{
    if s.len() == 0 {
        s
    } else if is_white_space(s[0]) {
        trimmed(s.drop_first())
    } else if is_white_space(s.last()) {
        trimmed(s.drop_last())
    } else {
        s
    }
}

/// The maximal runs of non-whitespace characters of `s`, in order
/// (`str::split_whitespace`).
pub open spec fn words(s: Seq<char>) -> Seq<Seq<char>>
    decreases s.len(),
{
    if s.len() == 0 {
        Seq::empty()
    } else {
        let w = words(s.drop_last());
        let c = s.last();
        if is_white_space(c) {
            w
        } else if s.len() >= 2 && !is_white_space(s[s.len() - 2]) {
            w.update(w.len() - 1, w.last().push(c))
        } else {
            w.push(seq![c])
        }
    }
}

/// The given pieces joined with one space between neighbours.
pub open spec fn joined_with_spaces(ws: Seq<Seq<char>>) -> Seq<char>
    decreases ws.len(),
{
    if ws.len() == 0 {
        Seq::empty()
    } else if ws.len() == 1 {
        ws[0]
    } else {
        joined_with_spaces(ws.drop_last()) + seq![' '] + ws.last()
    }
}

/// Every whitespace run collapsed to one space, leading and trailing
/// whitespace removed.
pub open spec fn collapsed(s: Seq<char>) -> Seq<char> {
    joined_with_spaces(words(s))
}

/// The first `limit` characters followed by an ellipsis when the text is
/// longer than `limit`; otherwise the text itself.
pub open spec fn truncated_chars(s: Seq<char>, limit: nat) -> Seq<char> {
    if s.len() > limit {
        s.take(limit as int).push(ellipsis())
    } else {
        s
    }
}

/// The text cut to at most `width` characters, the last of which is an
/// ellipsis when anything was cut.
pub open spec fn truncated_to_width(s: Seq<char>, width: nat) -> Seq<char> {
    if width == 0 {
        Seq::empty()
    } else if s.len() <= width {
        s
    } else if width == 1 {
        seq![ellipsis()]
    } else {
        s.take(width - 1).push(ellipsis())
    }
}

/// `needle` occurs in `hay` at some position.
pub open spec fn occurs_in(needle: Seq<char>, hay: Seq<char>) -> bool {
    exists|i: int| 0 <= i && i + needle.len() <= hay.len() && #[trigger] hay.subrange(i, i + needle.len()) == needle
}

/// Lexicographic order by code point; a proper prefix comes first.
pub open spec fn text_lt(a: Seq<char>, b: Seq<char>) -> bool
    decreases a.len(),
{
    if b.len() == 0 {
        false
    } else if a.len() == 0 {
        true
    } else if a[0] != b[0] {
        a[0] < b[0]
    } else {
        text_lt(a.drop_first(), b.drop_first())
    }
}

/// The decimal digit character for `d < 10`.
pub open spec fn digit_char(d: nat) -> char {
    ((48 + d) as u32) as char
}

/// The decimal representation of `n`, without leading zeros.
pub open spec fn decimal_text(n: nat) -> Seq<char>
    decreases n,
{
    if n < 10 {
        seq![digit_char(n)]
    } else {
        decimal_text(n / 10).push(digit_char(n % 10))
    }
}

// ---------------------------------------------------------------------------
// Lemmas
// ---------------------------------------------------------------------------

/// No text orders before itself.
pub proof fn lemma_text_lt_irreflexive(a: Seq<char>)
    ensures
        !text_lt(a, a),
    decreases a.len(),
{
    if a.len() > 0 {
        lemma_text_lt_irreflexive(a.drop_first());
    }
}

/// The text order is transitive.
pub proof fn lemma_text_lt_transitive(a: Seq<char>, b: Seq<char>, c: Seq<char>)
    requires
        text_lt(a, b),
        text_lt(b, c),
    ensures
        text_lt(a, c),
    decreases a.len(),
{
    if a.len() > 0 && b.len() > 0 && c.len() > 0 && a[0] == b[0] && b[0] == c[0] {
        lemma_text_lt_transitive(a.drop_first(), b.drop_first(), c.drop_first());
    }
}

/// Of two different texts, one orders before the other.
pub proof fn lemma_text_lt_total(a: Seq<char>, b: Seq<char>)
    ensures
        a =~= b || text_lt(a, b) || text_lt(b, a),
    decreases a.len(),
{
    if a.len() > 0 && b.len() > 0 && a[0] == b[0] {
        lemma_text_lt_total(a.drop_first(), b.drop_first());
        if a.drop_first() =~= b.drop_first() {
            assert(a =~= seq![a[0]] + a.drop_first());
            assert(b =~= seq![b[0]] + b.drop_first());
        }
    }
}

proof fn lemma_trimmed_drop_leading(t: Seq<char>, k: int)
    requires
        0 <= k <= t.len(),
        forall|j: int| 0 <= j < k ==> is_white_space(#[trigger] t[j]),
    ensures
        trimmed(t) == trimmed(t.subrange(k, t.len() as int)),
    decreases k,
{
    if k == 0 {
        assert(t.subrange(0, t.len() as int) =~= t);
    } else {
        assert(is_white_space(t[0]));
        let u = t.drop_first();
        assert forall|j: int| 0 <= j < k - 1 implies is_white_space(#[trigger] u[j]) by {
            assert(u[j] == t[j + 1]);
        }
        lemma_trimmed_drop_leading(u, k - 1);
        assert(u.subrange(k - 1, u.len() as int) =~= t.subrange(k, t.len() as int));
    }
}

proof fn lemma_trimmed_drop_trailing(t: Seq<char>, k: int)
    requires
        1 <= k <= t.len(),
        !is_white_space(t[0]),
        forall|j: int| k <= j < t.len() ==> is_white_space(#[trigger] t[j]),
    ensures
        trimmed(t) == trimmed(t.subrange(0, k)),
    decreases t.len() - k,
{
    if k == t.len() {
        assert(t.subrange(0, k) =~= t);
    } else {
        assert(is_white_space(t.last()));
        let u = t.drop_last();
        assert forall|j: int| k <= j < u.len() implies is_white_space(#[trigger] u[j]) by {
            assert(u[j] == t[j]);
        }
        lemma_trimmed_drop_trailing(u, k);
        assert(u.subrange(0, k) =~= t.subrange(0, k));
    }
}

proof fn lemma_words_nonempty_when_last_visible(s: Seq<char>)
    requires
        s.len() > 0,
        !is_white_space(s.last()),
    ensures
        words(s).len() > 0,
    decreases s.len(),
{
    let w = words(s.drop_last());
    if s.len() >= 2 && !is_white_space(s[s.len() - 2]) {
        assert(s.drop_last().last() == s[s.len() - 2]);
        lemma_words_nonempty_when_last_visible(s.drop_last());
    }
}

proof fn lemma_joined_extend_last(w: Seq<Seq<char>>, c: char)
    requires
        w.len() > 0,
    ensures
        joined_with_spaces(w.update(w.len() - 1, w.last().push(c))) == joined_with_spaces(w).push(c),
{
    let u = w.update(w.len() - 1, w.last().push(c));
    if w.len() == 1 {
        assert(u[0] == w[0].push(c));
    } else {
        assert(u.drop_last() =~= w.drop_last());
        assert(joined_with_spaces(u) == joined_with_spaces(u.drop_last()) + seq![' '] + u.last());
        assert(joined_with_spaces(u) =~= joined_with_spaces(w).push(c));
    }
}

proof fn lemma_joined_push(w: Seq<Seq<char>>, x: Seq<char>)
    ensures
        joined_with_spaces(w.push(x)) == if w.len() == 0 {
            x
        } else {
            joined_with_spaces(w) + seq![' '] + x
        },
{
    let u = w.push(x);
    assert(u.drop_last() =~= w);
    if w.len() == 0 {
        assert(u[0] == x);
    }
}

// ---------------------------------------------------------------------------
// Trusted wrappers over std
// ---------------------------------------------------------------------------

/// `String::push`: appends one character at the end.
#[verifier::external_body]
pub(crate) fn push_char(s: &mut String, c: char)
    ensures
        final(s)@ == old(s)@.push(c),
{
    s.push(c);
}

/// `String::pop`: removes and returns the last character, if any.
#[verifier::external_body]
pub(crate) fn pop_char(s: &mut String) -> (r: Option<char>)
    ensures
        old(s)@.len() == 0 ==> r is None && final(s)@ == old(s)@,
        old(s)@.len() > 0 ==> r == Some(old(s)@.last()) && final(s)@ == old(s)@.drop_last(),
{
    s.pop()
}

/// What `str::to_lowercase` returns for a text (full Unicode case mapping).
pub uninterp spec fn unicode_lowercase(s: Seq<char>) -> Seq<char>;

/// `str::to_lowercase`: the Unicode lower-case form of the text, named by
/// `unicode_lowercase`; its mapping of non-ASCII characters is not written
/// out here. As documented, every character maps to one or more
/// characters, so exactly the empty text lower-cases to the empty text; an
/// all-ASCII text lower-cases character by character, `A`-`Z` to `a`-`z`.
#[verifier::external_body]
pub(crate) fn to_lowercase(s: &str) -> (r: String)
    ensures
        r@ == unicode_lowercase(s@),
        r@.len() == 0 <==> s@.len() == 0,
        is_ascii_chars(s@) ==> r@ == s@.map_values(|c: char| ascii_lower(c)),
{
    s.to_lowercase()
}

// ---------------------------------------------------------------------------
// Executable functions
// ---------------------------------------------------------------------------

/// The characters of a text.
pub fn chars_of(s: &str) -> (v: Vec<char>)
    ensures
        v@ == s@,
{
    let mut v: Vec<char> = Vec::new();
    for c in it: s.chars()
        invariant
            v@ == it.seq().take(it.index() as int),
            it.seq() == s@,
    {
        v.push(c);
    }
    v
}

/// A text made of the given characters.
pub fn string_from_chars(v: &[char]) -> (s: String)
    ensures
        s@ == v@,
{
    let mut s = String::new();
    let mut i: usize = 0;
    while i < v.len()
        invariant
            i <= v.len(),
            s@ == v@.take(i as int),
        decreases v.len() - i,
    {
        push_char(&mut s, v[i]);
        assert(v@.take(i + 1) =~= v@.take(i as int).push(v@[i as int]));
        i = i + 1;
    }
    assert(v@.take(v.len() as int) =~= v@);
    s
}

pub fn is_ascii_alnum_char(c: char) -> (b: bool)
    ensures
        b == is_ascii_alnum(c),
{
    ('0' <= c && c <= '9') || ('a' <= c && c <= 'z') || ('A' <= c && c <= 'Z')
}

pub fn ascii_lower_char(c: char) -> (r: char)
    ensures
        r == ascii_lower(c),
{
    if 'A' <= c && c <= 'Z' {
        let b: u8 = c as u8;
        (b + 32) as char
    } else {
        c
    }
}

pub fn is_white_space_char(c: char) -> (b: bool)
    ensures
        b == is_white_space(c),
{
    ('\u{9}' <= c && c <= '\u{d}') || c == ' ' || c == '\u{85}' || c == '\u{a0}' || c == '\u{1680}'
        || ('\u{2000}' <= c && c <= '\u{200a}') || c == '\u{2028}' || c == '\u{2029}' || c
        == '\u{202f}' || c == '\u{205f}' || c == '\u{3000}'
}

/// Keeps the ASCII letters and digits of a text, lower-cased.
pub fn normalize_search_text(value: &str) -> (r: String)
    ensures
        r@ == normalized(value@),
{
    let chars = chars_of(value);
    let mut out: Vec<char> = Vec::new();
    let mut i: usize = 0;
    while i < chars.len()
        invariant
            i <= chars.len(),
            chars@ == value@,
            out@ == normalized(chars@.take(i as int)),
        decreases chars.len() - i,
    {
        let c = chars[i];
        let ghost prefix = chars@.take(i as int);
        let ghost next = chars@.take(i + 1);
        proof {
            assert(next.drop_last() =~= prefix);
            assert(next.last() == c);
            reveal_with_fuel(Seq::filter, 1);
        }
        if is_ascii_alnum_char(c) {
            out.push(ascii_lower_char(c));
            proof {
                let f = prefix.filter(|c: char| is_ascii_alnum(c));
                assert(next.filter(|c: char| is_ascii_alnum(c)) == f.push(c));
                assert(out@ =~= f.push(c).map_values(|c: char| ascii_lower(c)));
            }
        } else {
            proof {
                assert(next.filter(|c: char| is_ascii_alnum(c)) == prefix.filter(
                    |c: char| is_ascii_alnum(c),
                ));
            }
        }
        i = i + 1;
    }
    assert(chars@.take(chars.len() as int) =~= chars@);
    string_from_chars(out.as_slice())
}

/// The text without leading and trailing whitespace.
pub fn trim(value: &str) -> (r: String)
    ensures
        r@ == trimmed(value@),
{
    let chars = chars_of(value);
    let n = chars.len();
    let mut start: usize = 0;
    while start < n && is_white_space_char(chars[start])
        invariant
            start <= n,
            n == chars@.len(),
            forall|j: int| 0 <= j < start ==> is_white_space(#[trigger] chars@[j]),
        decreases n - start,
    {
        start = start + 1;
    }
    proof {
        lemma_trimmed_drop_leading(chars@, start as int);
    }
    if start == n {
        proof {
            assert(chars@.subrange(n as int, n as int).len() == 0);
        }
        return String::new();
    }
    let mut end: usize = n;
    while end > start + 1 && is_white_space_char(chars[end - 1])
        invariant
            start < end <= n,
            n == chars@.len(),
            forall|j: int| end <= j < n ==> is_white_space(#[trigger] chars@[j]),
        decreases end,
    {
        end = end - 1;
    }
    let ghost t = chars@.subrange(start as int, n as int);
    proof {
        assert forall|j: int| (end - start) <= j < t.len() implies is_white_space(#[trigger] t[j]) by {
            assert(t[j] == chars@[j + start]);
        }
        assert(t[0] == chars@[start as int]);
        lemma_trimmed_drop_trailing(t, (end - start) as int);
        let u = t.subrange(0, (end - start) as int);
        assert(u =~= chars@.subrange(start as int, end as int));
        assert(u[0] == chars@[start as int]);
        assert(u.last() == chars@[end - 1]);
    }
    let mut out: Vec<char> = Vec::new();
    let mut k: usize = start;
    while k < end
        invariant
            start <= k <= end <= n,
            n == chars@.len(),
            out@ == chars@.subrange(start as int, k as int),
        decreases end - k,
    {
        out.push(chars[k]);
        assert(out@ =~= chars@.subrange(start as int, k + 1));
        k = k + 1;
    }
    string_from_chars(out.as_slice())
}

/// Collapses every whitespace run to one space and drops leading and
/// trailing whitespace (`split_whitespace` followed by `join(" ")`).
pub fn collapse_whitespace(value: &str) -> (r: String)
    ensures
        r@ == collapsed(value@),
{
    let chars = chars_of(value);
    let mut out: Vec<char> = Vec::new();
    let mut in_word = false;
    let mut i: usize = 0;
    while i < chars.len()
        invariant
            i <= chars.len(),
            chars@ == value@,
            out@ == joined_with_spaces(words(chars@.take(i as int))),
            in_word == (i > 0 && !is_white_space(chars@[i - 1])),
            (out@.len() == 0) == (words(chars@.take(i as int)).len() == 0),
        decreases chars.len() - i,
    {
        let c = chars[i];
        let ghost prefix = chars@.take(i as int);
        let ghost next = chars@.take(i + 1);
        proof {
            assert(next.drop_last() =~= prefix);
            assert(next.last() == c);
            if i > 0 {
                assert(next[next.len() - 2] == chars@[i - 1]);
            }
        }
        if is_white_space_char(c) {
            in_word = false;
        } else {
            if in_word {
                proof {
                    assert(prefix.last() == chars@[i - 1]);
                    lemma_words_nonempty_when_last_visible(prefix);
                    lemma_joined_extend_last(words(prefix), c);
                }
                out.push(c);
            } else {
                proof {
                    lemma_joined_push(words(prefix), seq![c]);
                }
                if out.len() > 0 {
                    out.push(' ');
                }
                out.push(c);
                proof {
                    if words(prefix).len() == 0 {
                        assert(out@ =~= seq![c]);
                    } else {
                        assert(out@ =~= joined_with_spaces(words(prefix)) + seq![' '] + seq![c]);
                    }
                }
            }
            in_word = true;
        }
        i = i + 1;
    }
    assert(chars@.take(chars.len() as int) =~= chars@);
    string_from_chars(out.as_slice())
}

/// Cuts a text to `limit` characters and marks the cut with an ellipsis.
pub fn truncate_chars(value: &str, limit: usize) -> (r: String)
    ensures
        r@ == truncated_chars(value@, limit as nat),
{
    let chars = chars_of(value);
    if chars.len() > limit {
        let mut out: Vec<char> = Vec::new();
        let mut i: usize = 0;
        while i < limit
            invariant
                i <= limit < chars.len(),
                out@ == chars@.take(i as int),
            decreases limit - i,
        {
            out.push(chars[i]);
            assert(out@ =~= chars@.take(i + 1));
            i = i + 1;
        }
        out.push('\u{2026}');
        string_from_chars(out.as_slice())
    } else {
        string_from_chars(chars.as_slice())
    }
}

/// Cuts a text so that it fits in `width` columns, ending with an ellipsis
/// when anything was cut.
pub fn truncate_to_width(value: &str, width: usize) -> (r: String)
    ensures
        r@ == truncated_to_width(value@, width as nat),
        r@.len() <= width,
{
    if width == 0 {
        return String::new();
    }
    let chars = chars_of(value);
    if chars.len() <= width {
        return string_from_chars(chars.as_slice());
    }
    if width == 1 {
        let mut out: Vec<char> = Vec::new();
        out.push('\u{2026}');
        assert(out@ =~= seq![ellipsis()]);
        return string_from_chars(out.as_slice());
    }
    let keep = width - 1;
    let mut out: Vec<char> = Vec::new();
    let mut i: usize = 0;
    while i < keep
        invariant
            i <= keep < chars.len(),
            out@ == chars@.take(i as int),
        decreases keep - i,
    {
        out.push(chars[i]);
        assert(out@ =~= chars@.take(i + 1));
        i = i + 1;
    }
    out.push('\u{2026}');
    string_from_chars(out.as_slice())
}

/// Whether `needle` occurs in `hay`.
pub fn occurs(needle: &[char], hay: &[char]) -> (b: bool)
    ensures
        b == occurs_in(needle@, hay@),
{
    let n = needle.len();
    let h = hay.len();
    if n == 0 {
        assert(hay@.subrange(0int, 0int + needle@.len()) =~= needle@);
        return true;
    }
    if n > h {
        return false;
    }
    let mut i: usize = 0;
    while h - i >= n
        invariant
            1 <= n <= h,
            i <= h,
            n == needle@.len(),
            h == hay@.len(),
            forall|p: int| 0 <= p < i ==> #[trigger] hay@.subrange(p, p + n) != needle@,
        decreases h - i,
    {
        let mut j: usize = 0;
        let mut same = true;
        while j < n
            invariant
                j <= n,
                i + n <= h,
                n == needle@.len(),
                h == hay@.len(),
                same ==> forall|q: int| 0 <= q < j ==> hay@[i + q] == needle@[q],
                !same ==> hay@.subrange(i as int, i + n) != needle@,
            decreases n - j,
        {
            if hay[i + j] != needle[j] {
                same = false;
                proof {
                    assert(hay@.subrange(i as int, i + n)[j as int] == hay@[i + j]);
                }
            }
            j = j + 1;
        }
        if same {
            assert(hay@.subrange(i as int, i + n) =~= needle@);
            return true;
        }
        i = i + 1;
    }
    proof {
        assert forall|p: int| 0 <= p && p + n <= h implies #[trigger] hay@.subrange(p, p + n)
            != needle@ by {
            assert(p < i);
        }
    }
    false
}

/// Compares two texts by code point, a proper prefix first.
pub fn chars_lt(a: &[char], b: &[char]) -> (r: bool)
    ensures
        r == text_lt(a@, b@),
{
    let mut i: usize = 0;
    assert(a@.skip(0) =~= a@);
    assert(b@.skip(0) =~= b@);
    while i < a.len() && i < b.len() && a[i] == b[i]
        invariant
            i <= a.len(),
            i <= b.len(),
            text_lt(a@, b@) == text_lt(a@.skip(i as int), b@.skip(i as int)),
        decreases a.len() - i,
    {
        proof {
            let x = a@.skip(i as int);
            let y = b@.skip(i as int);
            assert(x.drop_first() =~= a@.skip(i + 1));
            assert(y.drop_first() =~= b@.skip(i + 1));
        }
        i = i + 1;
    }
    proof {
        let x = a@.skip(i as int);
        let y = b@.skip(i as int);
        if i < a.len() {
            assert(x[0] == a@[i as int]);
        }
        if i < b.len() {
            assert(y[0] == b@[i as int]);
        }
    }
    if i == b.len() {
        false
    } else if i == a.len() {
        true
    } else {
        a[i] < b[i]
    }
}

/// Appends the decimal representation of `n`.
pub fn push_decimal(s: &mut String, n: u128)
    ensures
        final(s)@ == old(s)@ + decimal_text(n as nat),
    decreases n,
{
    if n >= 10 {
        push_decimal(s, n / 10);
    }
    let d: u8 = (n % 10) as u8;
    let c = (48u8 + d) as char;
    push_char(s, c);
    proof {
        if n >= 10 {
            assert(decimal_text(n as nat) == decimal_text((n / 10) as nat).push(digit_char((n % 10) as nat)));
        }
    }
}

} // verus!
