//! Text helpers: conversions between strings and character vectors, and the
//! whitespace-aware operations the pipeline needs.

use vstd::prelude::*;

verus! {

/// Whether `c` has Unicode's `White_Space` property: the tab, the line and
/// page breaks, the space, the next-line and no-break controls, and the
/// spaces and separators of the general punctuation and CJK blocks, 25 code
/// points in all.
pub open spec fn is_whitespace(c: char) -> bool {
    ||| ('\u{9}' <= c && c <= '\u{d}')
    ||| c == ' '
    ||| c == '\u{85}'
    ||| c == '\u{a0}'
    ||| c == '\u{1680}'
    ||| ('\u{2000}' <= c && c <= '\u{200a}')
    ||| c == '\u{2028}'
    ||| c == '\u{2029}'
    ||| c == '\u{202f}'
    ||| c == '\u{205f}'
    ||| c == '\u{3000}'
}

/// `char::is_whitespace` of std tells whether the character has the
/// `White_Space` property, which is the set stated by [`is_whitespace`].
pub assume_specification[ char::is_whitespace ](c: char) -> (b: bool)
    ensures
        b == is_whitespace(c),
;

/// `s` with every character replaced by its lower-case form, as
/// `str::to_lowercase` gives it.
pub uninterp spec fn lowercased(s: Seq<char>) -> Seq<char>;

/// `str::to_lowercase` of std: the result depends on the text alone and is
/// the text named by [`lowercased`].
pub assume_specification[ str::to_lowercase ](s: &str) -> (lower: String)
    ensures
        lower@ == lowercased(s@),
;

/// `String::push` of std appends the character to the end of the string.
pub assume_specification[ String::push ](s: &mut String, ch: char)
    ensures
        final(s)@ == old(s)@.push(ch),
;

/// The characters of `s`, in order.
pub fn chars_of(s: &str) -> (v: Vec<char>)
    ensures
        v@ == s@,
{
    let mut v: Vec<char> = Vec::new();
    for c in it: s.chars()
        invariant
            it.seq() == s@,
            v@ == s@.take(it.index() as int),
    {
        v.push(c);
    }
    v
}

/// The string made of the characters of `v`, in order.
pub fn string_of(v: &Vec<char>) -> (s: String)
    ensures
        s@ == v@,
{
    let mut s = String::new();
    let mut i: usize = 0;
    while i < v.len()
        invariant
            i <= v.len(),
            s@ == v@.take(i as int),
        decreases v.len() - i,
    {
        s.push(v[i]);
        i += 1;
    }
    s
}

/// The characters of `v` from index `from` up to, not including, `to`.
pub fn slice_of(v: &Vec<char>, from: usize, to: usize) -> (part: Vec<char>)
    requires
        from <= to <= v.len(),
    ensures
        part@ == v@.subrange(from as int, to as int),
{
    let mut part: Vec<char> = Vec::new();
    let mut i: usize = from;
    while i < to
        invariant
            from <= i <= to <= v.len(),
            part@ == v@.subrange(from as int, i as int),
        decreases to - i,
    {
        part.push(v[i]);
        i += 1;
    }
    part
}

/// `s` without its leading whitespace.
pub open spec fn trim_start(s: Seq<char>) -> Seq<char>
    decreases s.len(),
{
    if s.len() > 0 && is_whitespace(s[0]) {
        trim_start(s.drop_first())
    } else {
        s
    }
}

/// `s` without its trailing whitespace.
pub open spec fn trim_end(s: Seq<char>) -> Seq<char>
    decreases s.len(),
{
    if s.len() > 0 && is_whitespace(s.last()) {
        trim_end(s.drop_last())
    } else {
        s
    }
}

/// `s` without leading and trailing whitespace.
pub open spec fn trimmed(s: Seq<char>) -> Seq<char> {
    trim_end(trim_start(s))
}

/// The characters of `v` without leading and trailing whitespace.
pub fn trim_chars(v: &Vec<char>) -> (t: Vec<char>)
    ensures
        t@ == trimmed(v@),
{
    let n = v.len();
    let mut start: usize = 0;
    assert(v@.skip(0) =~= v@);
    while start < n && v[start].is_whitespace()
        invariant
            start <= n == v.len(),
            trim_start(v@) == trim_start(v@.skip(start as int)),
        decreases n - start,
    {
        assert(v@.skip(start as int).drop_first() =~= v@.skip(start as int + 1));
        start += 1;
    }
    assert(trim_start(v@) == v@.skip(start as int));
    let mut end: usize = n;
    assert(v@.skip(start as int) =~= v@.subrange(start as int, n as int));
    while end > start && v[end - 1].is_whitespace()
        invariant
            start <= end <= n == v.len(),
            trimmed(v@) == trim_end(v@.subrange(start as int, end as int)),
        decreases end,
    {
        assert(v@.subrange(start as int, end as int).drop_last() =~= v@.subrange(
            start as int,
            end as int - 1,
        ));
        end -= 1;
    }
    slice_of(v, start, end)
}

/// `s` without leading and trailing whitespace.
pub fn trim_text(s: &str) -> (t: String)
    ensures
        t@ == trimmed(s@),
{
    let chars = chars_of(s);
    let kept = trim_chars(&chars);
    string_of(&kept)
}

/// The least index at which `c` stands in `s`, or the length of `s` where it
/// does not occur.
pub open spec fn position_of(s: Seq<char>, c: char) -> int
    decreases s.len(),
{
    if s.len() == 0 || s[0] == c {
        0
    } else {
        1 + position_of(s.drop_first(), c)
    }
}

/// What [`position_of`] finds: nothing before it is `c`, and it is `c` unless
/// it is the end.
pub proof fn lemma_position_of(s: Seq<char>, c: char)
    ensures
        0 <= position_of(s, c) <= s.len(),
        forall|j: int| 0 <= j < position_of(s, c) ==> s[j] != c,
        position_of(s, c) < s.len() ==> s[position_of(s, c)] == c,
    decreases s.len(),
{
    if s.len() == 0 || s[0] == c {
    } else {
        let rest = s.drop_first();
        lemma_position_of(rest, c);
        assert forall|j: int| 0 <= j < position_of(s, c) implies s[j] != c by {
            if j > 0 {
                assert(s[j] == rest[j - 1]);
            }
        }
        if position_of(rest, c) < rest.len() {
            assert(s[position_of(s, c)] == rest[position_of(rest, c)]);
        }
    }
}

/// An index with the properties of [`position_of`] is that position.
pub proof fn lemma_position_unique(s: Seq<char>, c: char, i: int)
    requires
        0 <= i <= s.len(),
        forall|j: int| 0 <= j < i ==> s[j] != c,
        i < s.len() ==> s[i] == c,
    ensures
        position_of(s, c) == i,
{
    lemma_position_of(s, c);
}

/// The first `limit` pieces of `s` when it is cut at every `sep`.
pub open spec fn leading_pieces(s: Seq<char>, sep: char, limit: nat) -> Seq<Seq<char>>
    decreases limit,
{
    if limit == 0 {
        Seq::empty()
    } else {
        let cut = position_of(s, sep);
        if cut >= s.len() {
            seq![s]
        } else {
            seq![s.take(cut)] + leading_pieces(s.skip(cut + 1), sep, (limit - 1) as nat)
        }
    }
}

/// `parts` written one after another with `sep` between neighbours.
pub open spec fn joined(parts: Seq<Seq<char>>, sep: Seq<char>) -> Seq<char>
    decreases parts.len(),
{
    if parts.len() == 0 {
        Seq::empty()
    } else if parts.len() == 1 {
        parts[0]
    } else {
        joined(parts.drop_last(), sep) + sep + parts.last()
    }
}

/// Whether a word begins at index `i` of `s`: a character that is not
/// whitespace, at the start or after whitespace.
pub open spec fn word_starts_at(s: Seq<char>, i: int) -> bool {
    0 <= i < s.len() && !is_whitespace(s[i]) && (i == 0 || is_whitespace(s[i - 1]))
}

/// How many words begin before index `n` of `s`.
pub open spec fn words_before(s: Seq<char>, n: int) -> nat
    decreases n,
{
    if n <= 0 {
        0
    } else {
        words_before(s, n - 1) + if word_starts_at(s, n - 1) {
            1nat
        } else {
            0nat
        }
    }
}

/// How many words `s` has, a word being a longest run of characters that are
/// not whitespace.
pub open spec fn word_count(s: Seq<char>) -> nat {
    words_before(s, s.len() as int)
}

/// Counts the whitespace-separated words of `v`.
pub fn count_words(v: &Vec<char>) -> (n: usize)
    ensures
        n == word_count(v@),
{
    let mut count: usize = 0;
    let mut after_space = true;
    let mut i: usize = 0;
    while i < v.len()
        invariant
            i <= v.len(),
            count <= i,
            count == words_before(v@, i as int),
            after_space == (i == 0 || is_whitespace(v@[i - 1])),
        decreases v.len() - i,
    {
        let space = v[i].is_whitespace();
        if !space && after_space {
            count += 1;
        }
        after_space = space;
        i += 1;
    }
    count
}

/// The decimal digit for `d`, for `0 <= d < 10`.
pub open spec fn digit_char(d: int) -> char {
    "0123456789"@[d]
}

/// `n` written in decimal, without leading zeros.
pub open spec fn decimal(n: nat) -> Seq<char>
    decreases n,
{
    if n < 10 {
        seq![digit_char(n as int)]
    } else {
        decimal(n / 10).push(digit_char((n % 10) as int))
    }
}

/// Appends `n` in decimal to `out`.
pub fn push_decimal(n: u64, out: &mut Vec<char>)
    ensures
        final(out)@ == old(out)@ + decimal(n as nat),
    decreases n,
{
    if n >= 10 {
        push_decimal(n / 10, out);
    }
    proof {
        reveal_strlit("0123456789");
    }
    let d = "0123456789".get_char((n % 10) as usize);
    out.push(d);
    assert(out@ =~= old(out)@ + decimal(n as nat));
}

/// Appends the characters of `s` to `out`.
pub fn push_text(s: &str, out: &mut Vec<char>)
    ensures
        final(out)@ == old(out)@ + s@,
{
    let mut chars = chars_of(s);
    out.append(&mut chars);
}

/// The texts held by a list of character vectors.
pub open spec fn texts(parts: Seq<Vec<char>>) -> Seq<Seq<char>> {
    Seq::new(parts.len(), |i: int| parts[i]@)
}

/// The least index from `start` on at which `sep` stands in `v`, or the
/// length of `v`.
pub fn find_from(v: &Vec<char>, start: usize, sep: char) -> (at: usize)
    requires
        start <= v.len(),
    ensures
        start <= at <= v.len(),
        at - start == position_of(v@.skip(start as int), sep),
{
    let mut at: usize = start;
    while at < v.len() && v[at] != sep
        invariant
            start <= at <= v.len(),
            forall|k: int| start <= k < at ==> v@[k] != sep,
        decreases v.len() - at,
    {
        at += 1;
    }
    proof {
        lemma_position_unique(v@.skip(start as int), sep, at - start);
    }
    at
}

/// Cuts `v` at every `sep` and returns the first `limit` pieces.
pub fn split_leading(v: &Vec<char>, sep: char, limit: usize) -> (pieces: Vec<Vec<char>>)
    ensures
        texts(pieces@) == leading_pieces(v@, sep, limit as nat),
{
    let n = v.len();
    let mut pieces: Vec<Vec<char>> = Vec::new();
    let mut start: usize = 0;
    let mut open = true;
    assert(v@.skip(0) =~= v@);
    assert(texts(pieces@) + leading_pieces(v@, sep, limit as nat) =~= leading_pieces(
        v@,
        sep,
        limit as nat,
    ));
    while open && pieces.len() < limit
        invariant
            n == v.len(),
            start <= n,
            pieces.len() <= limit,
            leading_pieces(v@, sep, limit as nat) == texts(pieces@) + if open {
                leading_pieces(v@.skip(start as int), sep, (limit - pieces.len()) as nat)
            } else {
                Seq::empty()
            },
        decreases limit - pieces.len(), open as int,
    {
        let ghost before = pieces@;
        let ghost rest = v@.skip(start as int);
        let at = find_from(v, start, sep);
        let piece = slice_of(v, start, at);
        pieces.push(piece);
        assert(texts(pieces@) =~= texts(before).push(piece@));
        if at == n {
            assert(piece@ =~= rest);
            assert(texts(pieces@) + Seq::<Seq<char>>::empty() =~= texts(before) + seq![rest]);
            open = false;
        } else {
            assert(piece@ =~= rest.take(at - start));
            assert(rest.skip(at - start + 1) =~= v@.skip(at as int + 1));
            assert(texts(pieces@) + leading_pieces(
                v@.skip(at as int + 1),
                sep,
                (limit - pieces.len()) as nat,
            ) =~= texts(before) + (seq![piece@] + leading_pieces(
                v@.skip(at as int + 1),
                sep,
                (limit - pieces.len()) as nat,
            )));
            start = at + 1;
        }
    }
    assert(texts(pieces@) + Seq::<Seq<char>>::empty() =~= texts(pieces@));
    pieces
}

/// Writes `parts` one after another with `sep` between neighbours.
pub fn join_chars(parts: &Vec<Vec<char>>, sep: &str) -> (whole: Vec<char>)
    ensures
        whole@ == joined(texts(parts@), sep@),
{
    let mut whole: Vec<char> = Vec::new();
    let mut i: usize = 0;
    assert(texts(parts@).take(0) =~= Seq::<Seq<char>>::empty());
    while i < parts.len()
        invariant
            i <= parts.len(),
            whole@ == joined(texts(parts@).take(i as int), sep@),
        decreases parts.len() - i,
    {
        let ghost so_far = texts(parts@).take(i as int + 1);
        assert(so_far.drop_last() =~= texts(parts@).take(i as int));
        assert(so_far.last() == parts@[i as int]@);
        if i > 0 {
            push_text(sep, &mut whole);
        } else {
            assert(whole@ =~= Seq::<char>::empty());
        }
        let mut part = slice_of(&parts[i], 0, parts[i].len());
        assert(part@ =~= parts@[i as int]@);
        whole.append(&mut part);
        assert(whole@ =~= joined(so_far, sep@));
        i += 1;
    }
    assert(texts(parts@).take(parts.len() as int) =~= texts(parts@));
    whole
}

/// Whether two texts are the same.
pub fn same_text(a: &str, b: &str) -> (same: bool)
    ensures
        same == (a@ == b@),
{
    let left = a.to_owned();
    let right = b.to_owned();
    left == right
}

/// The texts held by a list of strings.
pub open spec fn strings(parts: Seq<String>) -> Seq<Seq<char>> {
    Seq::new(parts.len(), |i: int| parts[i]@)
}

/// Writes `parts` one after another with `sep` between neighbours.
pub fn join_strings(parts: &Vec<String>, sep: &str) -> (whole: String)
    ensures
        whole@ == joined(strings(parts@), sep@),
{
    let mut whole: Vec<char> = Vec::new();
    let mut i: usize = 0;
    assert(strings(parts@).take(0) =~= Seq::<Seq<char>>::empty());
    while i < parts.len()
        invariant
            i <= parts.len(),
            whole@ == joined(strings(parts@).take(i as int), sep@),
        decreases parts.len() - i,
    {
        let ghost so_far = strings(parts@).take(i as int + 1);
        assert(so_far.drop_last() =~= strings(parts@).take(i as int));
        assert(so_far.last() == parts@[i as int]@);
        if i > 0 {
            push_text(sep, &mut whole);
        } else {
            assert(whole@ =~= Seq::<char>::empty());
        }
        push_text(parts[i].as_str(), &mut whole);
        assert(whole@ =~= joined(so_far, sep@));
        i += 1;
    }
    assert(strings(parts@).take(parts.len() as int) =~= strings(parts@));
    string_of(&whole)
}

/// `n` written in decimal, with a minus sign where it is negative.
pub open spec fn signed_decimal(n: int) -> Seq<char> {
    if n < 0 {
        seq!['-'] + decimal((-n) as nat)
    } else {
        decimal(n as nat)
    }
}

/// Appends `n` in decimal to `out`.
pub fn push_signed(n: i32, out: &mut Vec<char>)
    ensures
        final(out)@ == old(out)@ + signed_decimal(n as int),
{
    if n < 0 {
        out.push('-');
        let magnitude: u64 = (-(n as i64)) as u64;
        push_decimal(magnitude, out);
        assert(out@ =~= old(out)@ + signed_decimal(n as int));
    } else {
        push_decimal(n as u64, out);
    }
}

/// `a` followed by `b`.
pub fn glue(a: &str, b: &str) -> (whole: String)
    ensures
        whole@ == a@ + b@,
{
    let mut out: Vec<char> = Vec::new();
    push_text(a, &mut out);
    push_text(b, &mut out);
    string_of(&out)
}

} // verus!
