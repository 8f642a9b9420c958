//! Character and string helpers shared by the storage and routing logic.

use vstd::prelude::*;

verus! {

/// `String::push` appends one character.
pub assume_specification[ String::push ](string: &mut String, ch: char)
    ensures
        final(string)@ == old(string)@.push(ch),
;

/// Whether `c` is an ASCII letter or digit.
pub open spec fn is_ascii_alnum(c: char) -> bool {
    ('a' <= c && c <= 'z') || ('A' <= c && c <= 'Z') || ('0' <= c && c <= '9')
}

/// The character that `c` becomes inside a stable storage id.
pub open spec fn storage_id_char(c: char) -> char {
    if is_ascii_alnum(c) || c == '-' || c == '_' || c == '.' {
        c
    } else {
        '-'
    }
}

pub open spec fn sanitize_part(s: Seq<char>) -> Seq<char> {
    s.map_values(|c: char| storage_id_char(c))
}

pub fn sanitize_into(out: &mut String, part: &str)
    ensures
        final(out)@ == old(out)@ + sanitize_part(part@),
{
    let ghost start = out@;
    for c in it: part.chars()
        invariant
            it.seq() == part@,
            out@ == start + sanitize_part(part@.take(it.index() as int)),
    {
        let ghost before = part@.take(it.index() as int);
        let d = if ('a' <= c && c <= 'z') || ('A' <= c && c <= 'Z') || ('0' <= c && c <= '9')
            || c == '-' || c == '_' || c == '.' {
            c
        } else {
            '-'
        };
        out.push(d);
        assert(part@.take(it.index() + 1) =~= before.push(c));
        assert(sanitize_part(before.push(c)) =~= sanitize_part(before).push(d));
    }
}

/// Joins `parts` with `sep` between consecutive parts.
pub open spec fn join_with(parts: Seq<Seq<char>>, sep: Seq<char>) -> Seq<char>
    decreases parts.len(),
{
    if parts.len() == 0 {
        Seq::empty()
    } else if parts.len() == 1 {
        parts[0]
    } else {
        join_with(parts.drop_last(), sep) + sep + parts.last()
    }
}

/// The stable storage id of `parts`: each part with every character outside
/// `[A-Za-z0-9._-]` replaced by `-`, the parts joined by `-`.
pub open spec fn storage_id_of(parts: Seq<Seq<char>>) -> Seq<char> {
    join_with(parts.map_values(|p: Seq<char>| sanitize_part(p)), seq!['-'])
}

pub open spec fn str_views(parts: Seq<&str>) -> Seq<Seq<char>> {
    parts.map_values(|p: &str| p@)
}

/// The ASCII digit for `d < 10`.
pub open spec fn digit_char(d: nat) -> char {
    (48 + d) as char
}

/// Decimal representation of `n`, most significant digit first, no leading zeros.
pub open spec fn decimal(n: nat) -> Seq<char>
    decreases n,
{
    if n < 10 {
        seq![digit_char(n)]
    } else {
        decimal(n / 10).push(digit_char(n % 10))
    }
}

/// Decimal representation of a signed integer, with a leading `-` when negative.
pub open spec fn signed_decimal(n: int) -> Seq<char> {
    if n < 0 {
        seq!['-'] + decimal((-n) as nat)
    } else {
        decimal(n as nat)
    }
}

fn push_decimal(out: &mut String, n: u64)
    ensures
        final(out)@ == old(out)@ + decimal(n as nat),
    decreases n,
{
    if n >= 10 {
        push_decimal(out, n / 10);
    }
    let d = (n % 10) as u8;
    let c = (48u8 + d) as char;
    out.push(c);
}

/// Formats `n` in decimal, as `u64::to_string` does.
pub fn u64_to_decimal(n: u64) -> (s: String)
    ensures
        s@ == decimal(n as nat),
{
    let mut s = String::new();
    push_decimal(&mut s, n);
    s
}

/// Formats `n` in decimal, as `i64::to_string` does.
pub fn i64_to_decimal(n: i64) -> (s: String)
    ensures
        s@ == signed_decimal(n as int),
{
    let mut s = String::new();
    if n < 0 {
        s.push('-');
        let m = (-(n as i128)) as u64;
        push_decimal(&mut s, m);
    } else {
        push_decimal(&mut s, n as u64);
    }
    s
}

/// `char::is_whitespace`: the Unicode `White_Space` property.
pub open spec fn is_whitespace(c: char) -> bool {
    let u = c as u32;
    (0x9 <= u && u <= 0xd) || u == 0x20 || u == 0x85 || u == 0xa0 || u == 0x1680 || (0x2000 <= u
        && u <= 0x200a) || u == 0x2028 || u == 0x2029 || u == 0x202f || u == 0x205f || u == 0x3000
}

pub open spec fn trim_start(s: Seq<char>) -> Seq<char>
    decreases s.len(),
{
    if s.len() > 0 && is_whitespace(s[0]) {
        trim_start(s.drop_first())
    } else {
        s
    }
}

pub open spec fn trim_end(s: Seq<char>) -> Seq<char>
    decreases s.len(),
{
    if s.len() > 0 && is_whitespace(s.last()) {
        trim_end(s.drop_last())
    } else {
        s
    }
}

/// `str::trim`: the text without its leading and trailing whitespace.
pub open spec fn trim(s: Seq<char>) -> Seq<char> {
    trim_end(trim_start(s))
}

pub fn char_is_whitespace(c: char) -> (b: bool)
    ensures
        b == is_whitespace(c),
{
    let u = c as u32;
    (0x9 <= u && u <= 0xd) || u == 0x20 || u == 0x85 || u == 0xa0 || u == 0x1680 || (0x2000 <= u
        && u <= 0x200a) || u == 0x2028 || u == 0x2029 || u == 0x202f || u == 0x205f || u == 0x3000
}

proof fn lemma_trim_start_skip(s: Seq<char>, i: int)
    requires
        0 <= i <= s.len(),
        forall|j: int| 0 <= j < i ==> is_whitespace(#[trigger] s[j]),
    ensures
        trim_start(s) == trim_start(s.skip(i)),
    decreases i,
{
    if i > 0 {
        assert(is_whitespace(s[0]));
        let rest = s.drop_first();
        assert forall|j: int| 0 <= j < i - 1 implies is_whitespace(#[trigger] rest[j]) by {
            assert(rest[j] == s[j + 1]);
        }
        lemma_trim_start_skip(rest, i - 1);
        assert(rest.skip(i - 1) =~= s.skip(i));
    } else {
        assert(s.skip(0) =~= s);
    }
}

proof fn lemma_trim_end_take(s: Seq<char>, k: int)
    requires
        0 <= k <= s.len(),
        forall|j: int| k <= j < s.len() ==> is_whitespace(#[trigger] s[j]),
    ensures
        trim_end(s) == trim_end(s.take(k)),
    decreases s.len() - k,
{
    if k < s.len() {
        assert(is_whitespace(s.last()));
        let rest = s.drop_last();
        lemma_trim_end_take(rest, k);
        assert(rest.take(k) =~= s.take(k));
    } else {
        assert(s.take(k) =~= s);
    }
}

/// The characters of `s`.
pub fn chars_of(s: &str) -> (v: Vec<char>)
    ensures
        v@ == s@,
{
    let mut v: Vec<char> = Vec::new();
    for c in it: s.chars()
        invariant
            it.seq() == s@,
            v@ == s@.take(it.index() as int),
    {
        v.push(c);
        assert(s@.take(it.index() + 1) =~= s@.take(it.index() as int).push(c));
    }
    v
}

/// The string made of `v[from..to]`.
pub fn string_of_range(v: &Vec<char>, from: usize, to: usize) -> (s: String)
    requires
        from <= to <= v@.len(),
    ensures
        s@ == v@.subrange(from as int, to as int),
{
    let mut s = String::new();
    let mut i = from;
    while i < to
        invariant
            from <= i <= to <= v@.len(),
            s@ == v@.subrange(from as int, i as int),
        decreases to - i,
    {
        s.push(v[i]);
        assert(v@.subrange(from as int, i + 1) =~= v@.subrange(from as int, i as int).push(v@[i as int]));
        i += 1;
    }
    s
}

/// `str::trim`, owned.
pub fn trim_text(s: &str) -> (t: String)
    ensures
        t@ == trim(s@),
{
    let v = chars_of(s);
    let n = v.len();
    let mut start: usize = 0;
    while start < n && char_is_whitespace(v[start])
        invariant
            n == v@.len(),
            start <= n,
            forall|j: int| 0 <= j < start ==> is_whitespace(#[trigger] v@[j]),
        decreases n - start,
    {
        start += 1;
    }
    let mut end: usize = n;
    while end > start && char_is_whitespace(v[end - 1])
        invariant
            n == v@.len(),
            start <= end <= n,
            forall|j: int| end <= j < n ==> is_whitespace(#[trigger] v@[j]),
        decreases end,
    {
        end -= 1;
    }
    proof {
        lemma_trim_start_skip(v@, start as int);
        let rest = v@.skip(start as int);
        if start < n {
            assert(!is_whitespace(rest[0]));
        } else {
            assert(rest.len() == 0);
        }
        assert(trim_start(rest) == rest);
        assert forall|j: int| end - start <= j < rest.len() implies is_whitespace(#[trigger] rest[j]) by {
            assert(rest[j] == v@[j + start]);
        }
        lemma_trim_end_take(rest, end - start);
        let kept = rest.take(end - start);
        if end > start {
            assert(kept.last() == v@[end - 1]);
        }
        assert(trim_end(kept) == kept);
        assert(kept =~= v@.subrange(start as int, end as int));
    }
    string_of_range(&v, start, end)
}

} // verus!
