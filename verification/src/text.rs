//! Text primitives: case folding, trimming, decimal numbers and substring search.

use vstd::prelude::*;

verus! {

/// `String::push` appends one character.
pub assume_specification[ String::push ](s: &mut String, c: char)
    ensures
        final(s)@ == old(s)@.push(c),
;

/// Whether `needle` is a contiguous run of characters of `haystack`.
pub open spec fn occurs(haystack: Seq<char>, needle: Seq<char>) -> bool {
    exists|i: int|
        0 <= i <= haystack.len() - needle.len() && #[trigger] haystack.subrange(
            i,
            i + needle.len(),
        ) == needle
}

/// Whether `needle` stands in `v` from `at` on.
fn matches_at(v: &Vec<char>, needle: &Vec<char>, at: usize) -> (b: bool)
    requires
        at + needle.len() <= v.len(),
    ensures
        b == (v@.subrange(at as int, at + needle.len()) == needle@),
{
    let mut i: usize = 0;
    while i < needle.len()
        invariant
            i <= needle.len(),
            at + needle.len() <= v.len(),
            forall|j: int| 0 <= j < i ==> v@[at + j] == #[trigger] needle@[j],
        decreases needle.len() - i,
    {
        if v[at + i] != needle[i] {
            assert(v@.subrange(at as int, at + needle.len())[i as int] != needle@[i as int]);
            return false;
        }
        i = i + 1;
    }
    assert(v@.subrange(at as int, at + needle.len()) =~= needle@);
    true
}

/// Whether `needle` is a contiguous run of characters of `haystack`.
pub fn contains(haystack: &str, needle: &str) -> (found: bool)
    ensures
        found == occurs(haystack@, needle@),
{
    let v = chars_of(haystack);
    let n = chars_of(needle);
    if n.len() > v.len() {
        return false;
    }
    let last: usize = v.len() - n.len();
    let mut i: usize = 0;
    while i <= last
        invariant
            v@ == haystack@,
            n@ == needle@,
            last == v.len() - n.len(),
            i <= last + 1,
            forall|j: int|
                0 <= j < i ==> #[trigger] haystack@.subrange(j, j + needle@.len()) != needle@,
        decreases last + 1 - i,
    {
        if matches_at(&v, &n, i) {
            return true;
        }
        if i == last {
            return false;
        }
        i = i + 1;
    }
    false
}

/// The characters of `s`, in order.
pub fn chars_of(s: &str) -> (v: Vec<char>)
    ensures
        v@ == s@,
{
    let mut v: Vec<char> = Vec::new();
    for c in it: s.chars()
        invariant
            v@ == it.seq().take(it.index() as int),
            it.seq() == s@,
    {
        v.push(c);
    }
    v
}

/// The text made of `v[from..to]`.
pub fn text_of(v: &Vec<char>, from: usize, to: usize) -> (s: String)
    requires
        from <= to <= v.len(),
    ensures
        s@ == v@.subrange(from as int, to as int),
{
    let mut s = String::new();
    let mut i: usize = from;
    while i < to
        invariant
            from <= i <= to <= v.len(),
            s@ == v@.subrange(from as int, i as int),
        decreases to - i,
    {
        s.push(v[i]);
        i = i + 1;
    }
    s
}

/// `c`, with an upper-case ASCII letter replaced by its lower-case form.
pub open spec fn lower_char(c: char) -> char {
    if 'A' <= c && c <= 'Z' {
        ((c as u8) + 32) as char
    } else {
        c
    }
}

/// `s` with every upper-case ASCII letter replaced by its lower-case form.
pub open spec fn ascii_lower(s: Seq<char>) -> Seq<char> {
    s.map_values(|c: char| lower_char(c))
}

pub fn to_ascii_lowercase(s: &str) -> (lower: String)
    ensures
        lower@ == ascii_lower(s@),
{
    let mut lower = String::new();
    for c in it: s.chars()
        invariant
            it.seq() == s@,
            lower@ == ascii_lower(it.seq().take(it.index() as int)),
    {
        let l: char = if 'A' <= c && c <= 'Z' {
            ((c as u8) + 32) as char
        } else {
            c
        };
        lower.push(l);
        assert(ascii_lower(s@.take(it.index() + 1)) =~= ascii_lower(s@.take(it.index() as int)).push(
            lower_char(s@[it.index() as int]),
        ));
    }
    assert(s@.take(s@.len() as int) =~= s@);
    lower
}

/// Whether two strings hold the same text.
pub fn same(a: &str, b: &str) -> (same: bool)
    ensures
        same == (a@ == b@),
{
    a.to_string() == b.to_string()
}

/// Compares two strings, ASCII letters taken without regard to case.
pub fn eq_ignore_ascii_case(a: &str, b: &str) -> (same: bool)
    ensures
        same == (ascii_lower(a@) == ascii_lower(b@)),
{
    to_ascii_lowercase(a) == to_ascii_lowercase(b)
}

/// The Unicode `White_Space` property.
pub open spec fn is_whitespace(c: char) -> bool {
    ||| '\u{9}' <= c && c <= '\u{d}'
    ||| c == '\u{20}'
    ||| c == '\u{85}'
    ||| c == '\u{a0}'
    ||| c == '\u{1680}'
    ||| '\u{2000}' <= c && c <= '\u{200a}'
    ||| c == '\u{2028}'
    ||| c == '\u{2029}'
    ||| c == '\u{202f}'
    ||| c == '\u{205f}'
    ||| c == '\u{3000}'
}

fn whitespace(c: char) -> (b: bool)
    ensures
        b == is_whitespace(c),
{
    ('\u{9}' <= c && c <= '\u{d}') || c == '\u{20}' || c == '\u{85}' || c == '\u{a0}' || c
        == '\u{1680}' || ('\u{2000}' <= c && c <= '\u{200a}') || c == '\u{2028}' || c == '\u{2029}'
        || c == '\u{202f}' || c == '\u{205f}' || c == '\u{3000}'
}

/// `s` without its leading whitespace.
pub open spec fn trim_start(s: Seq<char>) -> Seq<char>
    decreases s.len(),
{
    if s.len() > 0 && is_whitespace(s[0]) {
        trim_start(s.drop_first())
    } else {
        s
    }
}

/// `s` without its trailing whitespace.
pub open spec fn trim_end(s: Seq<char>) -> Seq<char>
    decreases s.len(),
{
    if s.len() > 0 && is_whitespace(s.last()) {
        trim_end(s.drop_last())
    } else {
        s
    }
}

/// `s` without its leading and trailing whitespace.
pub open spec fn trimmed(s: Seq<char>) -> Seq<char> {
    trim_start(trim_end(s))
}

pub fn trim(s: &str) -> (t: String)
    ensures
        t@ == trimmed(s@),
{
    let v = chars_of(s);
    let mut j: usize = v.len();
    assert(v@.subrange(0, j as int) =~= s@);
    while j > 0 && whitespace(v[j - 1])
        invariant
            j <= v.len(),
            v@ == s@,
            trim_end(s@) == trim_end(v@.subrange(0, j as int)),
        decreases j,
    {
        assert(v@.subrange(0, j as int).drop_last() =~= v@.subrange(0, j - 1));
        j = j - 1;
    }
    assert(trim_end(s@) == v@.subrange(0, j as int));
    let mut i: usize = 0;
    while i < j && whitespace(v[i])
        invariant
            i <= j <= v.len(),
            trim_start(trim_end(s@)) == trim_start(v@.subrange(i as int, j as int)),
        decreases j - i,
    {
        assert(v@.subrange(i as int, j as int).drop_first() =~= v@.subrange(i + 1, j as int));
        i = i + 1;
    }
    text_of(&v, i, j)
}

/// `s` without the slashes at its end.
pub open spec fn without_trailing_slashes(s: Seq<char>) -> Seq<char>
    decreases s.len(),
{
    if s.len() > 0 && s.last() == '/' {
        without_trailing_slashes(s.drop_last())
    } else {
        s
    }
}

pub fn trim_end_slashes(s: &str) -> (t: String)
    ensures
        t@ == without_trailing_slashes(s@),
{
    let v = chars_of(s);
    let mut j: usize = v.len();
    assert(v@.subrange(0, j as int) =~= s@);
    while j > 0 && v[j - 1] == '/'
        invariant
            j <= v.len(),
            v@ == s@,
            without_trailing_slashes(s@) == without_trailing_slashes(v@.subrange(0, j as int)),
        decreases j,
    {
        assert(v@.subrange(0, j as int).drop_last() =~= v@.subrange(0, j - 1));
        j = j - 1;
    }
    text_of(&v, 0, j)
}

/// The decimal digit of `d`.
pub open spec fn digit(d: nat) -> char {
    (48 + d) as char
}

/// `n` in decimal, without leading zeros.
pub open spec fn decimal(n: nat) -> Seq<char>
    decreases n,
{
    if n < 10 {
        seq![digit(n)]
    } else {
        decimal(n / 10).push(digit(n % 10))
    }
}

pub fn decimal_text(n: u128) -> (s: String)
    ensures
        s@ == decimal(n as nat),
    decreases n,
{
    let d: u8 = (n % 10) as u8;
    if n < 10 {
        let mut s = String::new();
        s.push((48 + d) as char);
        assert(s@ =~= decimal(n as nat));
        s
    } else {
        let mut s = decimal_text(n / 10);
        s.push((48 + d) as char);
        s
    }
}

/// `n` in decimal, with zeros in front up to `width` digits.
pub open spec fn zero_padded(n: nat, width: nat) -> Seq<char> {
    let digits = decimal(n);
    if digits.len() < width {
        Seq::new((width - digits.len()) as nat, |i: int| '0') + digits
    } else {
        digits
    }
}

pub fn zero_padded_text(n: u64, width: usize) -> (s: String)
    ensures
        s@ == zero_padded(n as nat, width as nat),
{
    let digits = chars_of(decimal_text(n as u128).as_str());
    let mut s = String::new();
    if digits.len() < width {
        let zeros: usize = width - digits.len();
        let mut i: usize = 0;
        while i < zeros
            invariant
                i <= zeros,
                s@ == Seq::new(i as nat, |j: int| '0'),
            decreases zeros - i,
        {
            s.push('0');
            i = i + 1;
        }
    }
    let tail = text_of(&digits, 0, digits.len());
    s.append(tail.as_str());
    assert(s@ =~= zero_padded(n as nat, width as nat));
    s
}

/// Index of the first `c` in `s`, or the length of `s` when there is none.
pub open spec fn find_char(s: Seq<char>, c: char) -> int
    decreases s.len(),
{
    if s.len() == 0 || s[0] == c {
        0
    } else {
        1 + find_char(s.drop_first(), c)
    }
}

/// Splits `s` at the first `c`: what stands before it, and what follows it where there is one.
pub fn split_at_char(s: &str, c: char) -> (parts: (String, Option<String>))
    ensures
        0 <= find_char(s@, c) <= s@.len(),
        parts.0@ == s@.take(find_char(s@, c)),
        parts.1 is Some <==> find_char(s@, c) < s@.len(),
        parts.1 is Some ==> parts.1->0@ == s@.skip(find_char(s@, c) + 1),
{
    let v = chars_of(s);
    let mut i: usize = 0;
    assert(v@.skip(0) =~= v@);
    while i < v.len() && v[i] != c
        invariant
            i <= v.len(),
            v@ == s@,
            find_char(s@, c) == i + find_char(v@.skip(i as int), c),
        decreases v.len() - i,
    {
        assert(v@.skip(i as int).drop_first() =~= v@.skip(i + 1));
        i = i + 1;
    }
    assert(find_char(v@.skip(i as int), c) == 0);
    let head = text_of(&v, 0, i);
    if i < v.len() {
        let tail = text_of(&v, i + 1, v.len());
        (head, Some(tail))
    } else {
        (head, None)
    }
}

/// `prefix`, then `rest`.
pub fn prefixed(prefix: &str, rest: &str) -> (s: String)
    ensures
        s@ == prefix@ + rest@,
{
    let mut s = prefix.to_string();
    s.append(rest);
    s
}

/// `parts` in order, with `sep` between neighbours.
pub open spec fn joined(parts: Seq<Seq<char>>, sep: Seq<char>) -> Seq<char>
    decreases parts.len(),
{
    if parts.len() == 0 {
        seq![]
    } else if parts.len() == 1 {
        parts[0]
    } else {
        joined(parts.drop_last(), sep) + sep + parts.last()
    }
}

/// The texts of `v`.
pub open spec fn texts(v: Seq<String>) -> Seq<Seq<char>> {
    v.map_values(|s: String| s@)
}

pub fn join(parts: &Vec<String>, sep: &str) -> (s: String)
    ensures
        s@ == joined(texts(parts@), sep@),
{
    let mut s = String::new();
    let mut i: usize = 0;
    while i < parts.len()
        invariant
            i <= parts.len(),
            s@ == joined(texts(parts@).take(i as int), sep@),
        decreases parts.len() - i,
    {
        let ghost all = texts(parts@);
        if i > 0 {
            s.append(sep);
        }
        s.append(parts[i].as_str());
        assert(all.take(i + 1).drop_last() =~= all.take(i as int));
        assert(s@ =~= joined(all.take(i + 1), sep@));
        i = i + 1;
    }
    assert(texts(parts@).take(parts.len() as int) =~= texts(parts@));
    s
}

/// Whether `a` comes strictly before `b` in lexicographic order of code points.
pub open spec fn text_before(a: Seq<char>, b: Seq<char>) -> bool
    decreases a.len(),
{
    if b.len() == 0 {
        false
    } else if a.len() == 0 {
        true
    } else if a[0] != b[0] {
        a[0] < b[0]
    } else {
        text_before(a.drop_first(), b.drop_first())
    }
}

/// Text order is transitive.
pub proof fn text_before_transitive(a: Seq<char>, b: Seq<char>, c: Seq<char>)
    requires
        text_before(a, b),
        text_before(b, c),
    ensures
        text_before(a, c),
    decreases a.len(),
{
    if a.len() > 0 && a[0] == b[0] && b[0] == c[0] {
        text_before_transitive(a.drop_first(), b.drop_first(), c.drop_first());
    }
}

/// Of two texts, exactly one comes first unless they are the same text.
pub proof fn text_before_total(a: Seq<char>, b: Seq<char>)
    ensures
        text_before(a, b) || text_before(b, a) || a == b,
        !(text_before(a, b) && text_before(b, a)),
        a == b ==> !text_before(a, b),
    decreases a.len(),
{
    if a.len() > 0 && b.len() > 0 && a[0] == b[0] {
        text_before_total(a.drop_first(), b.drop_first());
        assert(a =~= seq![a[0]] + a.drop_first());
        assert(b =~= seq![b[0]] + b.drop_first());
    } else if a.len() == 0 && b.len() == 0 {
        assert(a =~= b);
    }
}

pub fn comes_before(a: &str, b: &str) -> (before: bool)
    ensures
        before == text_before(a@, b@),
{
    let x = chars_of(a);
    let y = chars_of(b);
    let mut i: usize = 0;
    assert(x@.skip(0) =~= x@);
    assert(y@.skip(0) =~= y@);
    while i < x.len() && i < y.len() && x[i] == y[i]
        invariant
            i <= x.len(),
            i <= y.len(),
            x@ == a@,
            y@ == b@,
            text_before(a@, b@) == text_before(x@.skip(i as int), y@.skip(i as int)),
        decreases x.len() - i,
    {
        assert(x@.skip(i as int).drop_first() =~= x@.skip(i + 1));
        assert(y@.skip(i as int).drop_first() =~= y@.skip(i + 1));
        i = i + 1;
    }
    if i >= y.len() {
        false
    } else if i >= x.len() {
        true
    } else {
        x[i] < y[i]
    }
}

/// The text of an optional string.
pub open spec fn opt_text(s: Option<String>) -> Option<Seq<char>> {
    match s {
        Some(t) => Some(t@),
        None => None,
    }
}

/// The text of an optional string slice.
pub open spec fn opt_str(s: Option<&str>) -> Option<Seq<char>> {
    match s {
        Some(t) => Some(t@),
        None => None,
    }
}

/// Bytes that `c` takes in UTF-8.
pub open spec fn utf8_width(c: char) -> nat {
    vstd::utf8::encode_scalar(c as u32).len()
}

fn width_of(c: char) -> (n: usize)
    ensures
        n == utf8_width(c),
{
    let v: u32 = c as u32;
    if v <= 0x7F {
        1
    } else if v <= 0x7FF {
        2
    } else if v <= 0xFFFF {
        3
    } else {
        4
    }
}

/// As many characters of `s`, from the front, as fit into `max` bytes of UTF-8.
pub open spec fn truncated(s: Seq<char>, max: int) -> Seq<char>
    decreases s.len(),
{
    if s.len() == 0 || utf8_width(s[0]) > max {
        Seq::empty()
    } else {
        seq![s[0]] + truncated(s.skip(1), max - utf8_width(s[0]))
    }
}

/// Truncate to at most `max` bytes without splitting a UTF-8 code point.
pub fn truncate_utf8(s: &str, max: usize) -> (t: String)
    ensures
        t@ == truncated(s@, max as int),
{
    let v = chars_of(s);
    let mut i: usize = 0;
    let mut left: usize = max;
    assert(v@.skip(0) =~= v@);
    assert(v@.take(0) =~= Seq::<char>::empty());
    assert(v@.take(0) + truncated(v@, max as int) =~= truncated(v@, max as int));
    while i < v.len()
        invariant
            i <= v.len(),
            v@ == s@,
            truncated(s@, max as int) == s@.take(i as int) + truncated(
                s@.skip(i as int),
                left as int,
            ),
        decreases v.len() - i,
    {
        let width = width_of(v[i]);
        assert(s@.skip(i as int)[0] == s@[i as int]);
        if width > left {
            assert(truncated(s@, max as int) =~= s@.take(i as int));
            return text_of(&v, 0, i);
        }
        assert(s@.skip(i as int).skip(1) =~= s@.skip(i + 1));
        assert(s@.take(i as int) + (seq![s@[i as int]] + truncated(s@.skip(i + 1), left - width))
            =~= s@.take(i + 1) + truncated(s@.skip(i + 1), left - width));
        left = left - width;
        i = i + 1;
    }
    assert(truncated(s@, max as int) =~= s@);
    s.to_string()
}

/// Truncation keeps a prefix that takes at most `max` bytes of UTF-8, and no longer one would do;
/// a text that fits is kept whole.
pub proof fn truncation_keeps_what_fits(s: Seq<char>, max: int)
    requires
        max >= 0,
    ensures
        ({
            let t = truncated(s, max);
            &&& t.len() <= s.len()
            &&& t == s.take(t.len() as int)
            &&& vstd::utf8::encode_utf8(t).len() <= max
            &&& t.len() < s.len() ==> vstd::utf8::encode_utf8(s.take(t.len() as int + 1)).len() > max
        }),
        vstd::utf8::encode_utf8(s).len() <= max ==> truncated(s, max) == s,
    decreases s.len(),
{
    let t = truncated(s, max);
    if s.len() == 0 {
        assert(t =~= s.take(0));
        assert(t =~= s);
    } else if utf8_width(s[0]) > max {
        assert(t =~= s.take(0));
        assert(s.take(1)[0] == s[0]);
        assert(vstd::utf8::encode_utf8(s.take(1)).len() >= utf8_width(s[0]));
        assert(vstd::utf8::encode_utf8(s).len() >= utf8_width(s[0]));
    } else {
        let rest = s.skip(1);
        let w = utf8_width(s[0]);
        truncation_keeps_what_fits(rest, max - w);
        let u = truncated(rest, max - w);
        assert(s.drop_first() =~= rest);
        assert(t.drop_first() =~= u);
        assert forall|i: int| 0 <= i < t.len() implies t[i] == s[i] by {
            if i > 0 {
                assert(t[i] == u[i - 1]);
                assert(u[i - 1] == rest.take(u.len() as int)[i - 1]);
            }
        }
        assert(t =~= s.take(t.len() as int));
        if t.len() < s.len() {
            let more = s.take(t.len() as int + 1);
            assert(more.drop_first() =~= rest.take(u.len() as int + 1));
            assert(more[0] == s[0]);
        }
        if vstd::utf8::encode_utf8(s).len() <= max {
            assert(t =~= s);
        }
    }
}

/// Lower-casing keeps the length, moves each of the letters A to Z to the place of its lower-case
/// form, and leaves every other character as it is; doing it twice changes nothing more.
pub proof fn lowering_changes_capitals_alone(s: Seq<char>, i: int)
    requires
        0 <= i < s.len(),
    ensures
        ascii_lower(s).len() == s.len(),
        'A' <= s[i] <= 'Z' ==> ascii_lower(s)[i] as int == s[i] as int + ('a' as int - 'A' as int),
        !('A' <= s[i] <= 'Z') ==> ascii_lower(s)[i] == s[i],
        ascii_lower(ascii_lower(s))[i] == ascii_lower(s)[i],
{
}

/// A text occurs in another if and only if the other can be cut into something, the text, and
/// something more.
pub proof fn what_occurs_can_be_cut_out(haystack: Seq<char>, needle: Seq<char>)
    ensures
        occurs(haystack, needle) <==> exists|a: Seq<char>, b: Seq<char>|
            haystack == #[trigger] (a + needle + b),
{
    if occurs(haystack, needle) {
        let i = choose|i: int|
            0 <= i <= haystack.len() - needle.len() && #[trigger] haystack.subrange(
                i,
                i + needle.len(),
            ) == needle;
        let a = haystack.take(i);
        let b = haystack.skip(i + needle.len());
        assert(haystack =~= a + needle + b) by {
            assert forall|j: int| 0 <= j < haystack.len() implies haystack[j] == (a + needle + b)[j] by {
                if i <= j < i + needle.len() {
                    assert(haystack.subrange(i, i + needle.len())[j - i] == needle[j - i]);
                }
            }
        }
    }
    if exists|a: Seq<char>, b: Seq<char>| haystack == #[trigger] (a + needle + b) {
        let (a, b) = choose|a: Seq<char>, b: Seq<char>| haystack == #[trigger] (a + needle + b);
        text_occurs_where_it_stands(a, needle, b);
    }
}

/// A text occurs in everything that it stands in.
pub proof fn text_occurs_where_it_stands(a: Seq<char>, needle: Seq<char>, b: Seq<char>)
    ensures
        occurs(a + needle + b, needle),
{
    let h = a + needle + b;
    let i = a.len() as int;
    assert(h.subrange(i, i + needle.len()) =~= needle);
}

/// Whitespace is the twenty-five characters with the Unicode property of that name.
pub proof fn whitespace_characters(c: char)
    ensures
        is_whitespace(c) <==> set![
            0x09int, 0x0a, 0x0b, 0x0c, 0x0d, 0x20, 0x85, 0xa0, 0x1680, 0x2000, 0x2001, 0x2002,
            0x2003, 0x2004, 0x2005, 0x2006, 0x2007, 0x2008, 0x2009, 0x200a, 0x2028, 0x2029, 0x202f,
            0x205f, 0x3000,
        ].contains(c as int),
{
}

/// Whether every character of `s` is whitespace.
pub open spec fn blank(s: Seq<char>) -> bool {
    forall|i: int| 0 <= i < s.len() ==> is_whitespace(#[trigger] s[i])
}

proof fn lemma_trim_start(s: Seq<char>) -> (a: Seq<char>)
    ensures
        s == a + trim_start(s),
        blank(a),
        trim_start(s).len() > 0 ==> !is_whitespace(trim_start(s)[0]),
    decreases s.len(),
{
    if s.len() > 0 && is_whitespace(s[0]) {
        let rest = lemma_trim_start(s.drop_first());
        let a = seq![s[0]] + rest;
        assert(s =~= seq![s[0]] + s.drop_first());
        assert(seq![s[0]] + (rest + trim_start(s)) =~= a + trim_start(s));
        a
    } else {
        assert(s =~= Seq::<char>::empty() + s);
        Seq::empty()
    }
}

proof fn lemma_trim_end(s: Seq<char>) -> (b: Seq<char>)
    ensures
        s == trim_end(s) + b,
        blank(b),
        trim_end(s).len() > 0 ==> !is_whitespace(trim_end(s).last()),
    decreases s.len(),
{
    if s.len() > 0 && is_whitespace(s.last()) {
        let rest = lemma_trim_end(s.drop_last());
        let b = rest.push(s.last());
        assert(s =~= s.drop_last().push(s.last()));
        assert((trim_end(s) + rest).push(s.last()) =~= trim_end(s) + b);
        b
    } else {
        assert(s =~= s + Seq::<char>::empty());
        Seq::empty()
    }
}

/// Trimming takes off the whitespace at both ends and nothing else: the text is whitespace, what is
/// left, and whitespace, and what is left neither begins nor ends with whitespace.
pub proof fn trimming_takes_whitespace_off_the_ends(s: Seq<char>)
    ensures
        exists|a: Seq<char>, b: Seq<char>|
            s == #[trigger] (a + trimmed(s) + b) && blank(a) && blank(b),
        trimmed(s).len() > 0 ==> !is_whitespace(trimmed(s)[0]) && !is_whitespace(
            trimmed(s).last(),
        ),
{
    let b = lemma_trim_end(s);
    let a = lemma_trim_start(trim_end(s));
    assert(s =~= a + trimmed(s) + b);
    if trimmed(s).len() > 0 {
        assert(trimmed(s).last() == trim_end(s).last());
    }
}

/// Whitespace around a text that has none at its ends is what trimming takes off.
pub proof fn trimming_finds_the_text(a: Seq<char>, t: Seq<char>, b: Seq<char>)
    requires
        blank(a),
        blank(b),
        t.len() > 0 ==> !is_whitespace(t[0]) && !is_whitespace(t.last()),
    ensures
        trimmed(a + t + b) == t,
{
    let s = a + t + b;
    let x = lemma_trim_end(s);
    let y = lemma_trim_start(trim_end(s));
    let u = trimmed(s);
    assert(s =~= y + u + x);
    if t.len() == 0 {
        if u.len() > 0 {
            assert(s[y.len() as int] == u[0]);
            assert(blank(s)) by {
                assert forall|i: int| 0 <= i < s.len() implies is_whitespace(#[trigger] s[i]) by {
                    if i < a.len() {
                        assert(s[i] == a[i]);
                    } else {
                        assert(s[i] == b[i - a.len()]);
                    }
                }
            }
        }
        assert(u =~= t);
    } else {
        let k = a.len() as int;
        let e = k + t.len() - 1;
        assert(s[k] == t[0]);
        assert(s[e] == t.last());
        if y.len() > k {
            assert(s[k] == y[k]);
        }
        if y.len() + u.len() <= e {
            assert(s[e] == x[e - y.len() - u.len()]);
        }
        assert(u.len() > 0);
        let f = y.len() as int;
        let g = f + u.len() - 1;
        assert(s[f] == u[0]);
        assert(s[g] == u.last()) by {
            assert(u.last() == trim_end(s).last());
        }
        assert(!is_whitespace(u.last())) by {
            assert(u.last() == trim_end(s).last());
        }
        if f < k {
            assert(s[f] == a[f]);
        }
        if g > e {
            assert(s[g] == b[g - e - 1]);
        }
        assert(f == k && g == e);
        assert(u =~= s.subrange(f, g + 1));
        assert(t =~= s.subrange(k, e + 1));
    }
}

/// Only slashes at the end are taken off, and all of them.
pub proof fn only_trailing_slashes_go(s: Seq<char>)
    ensures
        ({
            let t = without_trailing_slashes(s);
            &&& t.len() <= s.len()
            &&& t == s.take(t.len() as int)
            &&& forall|i: int| t.len() <= i < s.len() ==> #[trigger] s[i] == '/'
            &&& t.len() > 0 ==> t.last() != '/'
        }),
    decreases s.len(),
{
    let t = without_trailing_slashes(s);
    if s.len() > 0 && s.last() == '/' {
        let d = s.drop_last();
        only_trailing_slashes_go(d);
        assert(t =~= s.take(t.len() as int));
        assert forall|i: int| t.len() <= i < s.len() implies #[trigger] s[i] == '/' by {
            if i < d.len() {
                assert(s[i] == d[i]);
            }
        }
    } else {
        assert(t =~= s.take(t.len() as int));
    }
}

/// The number that a string of decimal digits stands for.
pub open spec fn number(s: Seq<char>) -> int
    decreases s.len(),
{
    if s.len() == 0 {
        0
    } else {
        number(s.drop_last()) * 10 + (s.last() as int - '0' as int)
    }
}

pub open spec fn all_digits(s: Seq<char>) -> bool {
    forall|i: int| 0 <= i < s.len() ==> '0' <= #[trigger] s[i] <= '9'
}

/// Decimal digits stand for the number they were made of, without a leading zero unless the number
/// is zero.
pub proof fn decimal_is_its_number(n: nat)
    ensures
        number(decimal(n)) == n,
        all_digits(decimal(n)),
        decimal(n).len() > 0,
        n > 0 ==> decimal(n)[0] != '0',
        n == 0 ==> decimal(n).len() == 1,
    decreases n,
{
    let s = decimal(n);
    if n < 10 {
        assert(s.drop_last() =~= Seq::<char>::empty());
        assert(number(s.drop_last()) == 0);
        assert(s.last() == digit(n));
    } else {
        decimal_is_its_number(n / 10);
        assert(s.drop_last() =~= decimal(n / 10));
        assert(s.last() == digit(n % 10));
        assert(s[0] == decimal(n / 10)[0]);
    }
}

proof fn leading_zeros_do_not_count(k: nat, s: Seq<char>)
    ensures
        number(Seq::new(k, |i: int| '0') + s) == number(s),
    decreases k + s.len(),
{
    let zeros = Seq::new(k, |i: int| '0');
    if s.len() > 0 {
        leading_zeros_do_not_count(k, s.drop_last());
        assert((zeros + s).drop_last() =~= zeros + s.drop_last());
    } else if k > 0 {
        leading_zeros_do_not_count((k - 1) as nat, s);
        assert((zeros + s).drop_last() =~= Seq::new((k - 1) as nat, |i: int| '0') + s);
    } else {
        assert(zeros + s =~= s);
    }
}

/// Padding changes neither the number nor the kind of characters, and makes the text as wide as
/// asked for, but never shorter.
pub proof fn padded_is_its_number(n: nat, width: nat)
    ensures
        number(zero_padded(n, width)) == n,
        all_digits(zero_padded(n, width)),
        zero_padded(n, width).len() == if decimal(n).len() < width {
            width
        } else {
            decimal(n).len()
        },
{
    decimal_is_its_number(n);
    let digits = decimal(n);
    if digits.len() < width {
        leading_zeros_do_not_count((width - digits.len()) as nat, digits);
    }
}

/// The first place of a character is where it stands with none of it before, or the end.
pub proof fn the_first_place_of_a_character(s: Seq<char>, c: char)
    ensures
        0 <= find_char(s, c) <= s.len(),
        find_char(s, c) < s.len() ==> s[find_char(s, c)] == c,
        forall|i: int| 0 <= i < find_char(s, c) ==> #[trigger] s[i] != c,
    decreases s.len(),
{
    if s.len() > 0 && s[0] != c {
        let rest = s.drop_first();
        the_first_place_of_a_character(rest, c);
        assert forall|i: int| 0 <= i < find_char(s, c) implies #[trigger] s[i] != c by {
            if i > 0 {
                assert(s[i] == rest[i - 1]);
            }
        }
    }
}

/// Joining nothing gives nothing, joining one part gives the part, and joining a list that is cut in
/// two joins both halves with one separator between them.
pub proof fn joining_splits(p: Seq<Seq<char>>, q: Seq<Seq<char>>, part: Seq<char>, sep: Seq<char>)
    ensures
        joined(Seq::empty(), sep) == Seq::<char>::empty(),
        joined(seq![part], sep) == part,
        p.len() > 0 && q.len() > 0 ==> joined(p + q, sep) == joined(p, sep) + sep + joined(q, sep),
    decreases q.len(),
{
    if p.len() > 0 && q.len() > 0 {
        assert((p + q).drop_last() =~= p + q.drop_last());
        assert((p + q).last() == q.last());
        if q.len() == 1 {
            assert(p + q.drop_last() =~= p);
        } else {
            joining_splits(p, q.drop_last(), part, sep);
            assert(joined(p, sep) + sep + joined(q.drop_last(), sep) + sep + q.last() =~= joined(
                p,
                sep,
            ) + sep + (joined(q.drop_last(), sep) + sep + q.last()));
        }
    }
}

/// One text comes before another if it is a proper beginning of it, or has the smaller character at
/// the first place where they differ.
pub proof fn texts_are_compared_at_their_first_difference(a: Seq<char>, b: Seq<char>, k: int)
    requires
        0 <= k <= a.len(),
        k <= b.len(),
        a.take(k) == b.take(k),
        k < a.len() && k < b.len() ==> a[k] != b[k],
    ensures
        k == b.len() ==> !text_before(a, b),
        k < b.len() && k == a.len() ==> text_before(a, b),
        k < b.len() && k < a.len() ==> text_before(a, b) == (a[k] < b[k]),
    decreases k,
{
    if k > 0 {
        assert(a[0] == a.take(k)[0]);
        assert(b[0] == b.take(k)[0]);
        let x = a.drop_first();
        let y = b.drop_first();
        assert(x.take(k - 1) =~= a.take(k).drop_first());
        assert(y.take(k - 1) =~= b.take(k).drop_first());
        texts_are_compared_at_their_first_difference(x, y, k - 1);
    }
}

/// Optional and listed texts are those of the strings, one for one and in order.
pub proof fn texts_are_those_of_the_strings(v: Seq<String>, i: int, s: String)
    requires
        0 <= i < v.len(),
    ensures
        texts(v).len() == v.len(),
        texts(v)[i] == v[i]@,
        opt_text(Some(s)) == Some(s@),
        opt_text(None) is None,
{
}

} // verus!
