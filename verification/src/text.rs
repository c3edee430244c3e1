//! Character-level text helpers used by the dashboard's views: decimal
//! rendering, whitespace trimming, truncation with an ellipsis, URL scheme
//! stripping, relative times and greedy word wrapping.
use vstd::prelude::*;

verus! {

broadcast use vstd::string::group_string_axioms;

// ── Outside behaviour ─────────────────────────────────────────────────────────

/// Whether `c` has the Unicode `White_Space` property: tab, line feed,
/// vertical tab, form feed, carriage return, space, next line, no-break
/// space, ogham space mark, the spaces U+2000 to U+200A, line and paragraph
/// separators, narrow no-break space, medium mathematical space and
/// ideographic space.
pub open spec fn is_white_space(c: char) -> bool {
    let u = c as u32;
    ||| 0x09 <= u <= 0x0d
    ||| u == 0x20
    ||| u == 0x85
    ||| u == 0xa0
    ||| u == 0x1680
    ||| 0x2000 <= u <= 0x200a
    ||| u == 0x2028
    ||| u == 0x2029
    ||| u == 0x202f
    ||| u == 0x205f
    ||| u == 0x3000
}

/// Calls `char::is_whitespace`, which std documents as the Unicode
/// `White_Space` property (the 25 code points listed by `is_white_space`).
#[verifier::external_body]
pub(crate) fn char_is_whitespace(c: char) -> (r: bool)
    ensures
        r == is_white_space(c),
{
    c.is_whitespace()
}

/// Collects characters into a `String` (`FromIterator<char> for String`),
/// which appends them in order.
#[verifier::external_body]
pub(crate) fn string_from_chars(chars: &Vec<char>) -> (s: String)
    ensures
        s@ == chars@,
{
    chars.iter().collect()
}

/// The characters of `s`, in order.
pub fn chars_of(s: &str) -> (v: Vec<char>)
    ensures
        v@ == s@,
{
    let mut v: Vec<char> = Vec::new();
    for c in it: s.chars()
        invariant
            v@ == it.seq().take(it.index()),
            it.seq() == s@,
    {
        v.push(c);
    }
    v
}

/// Appends the characters of `s` to `buf`.
pub fn push_str(buf: &mut Vec<char>, s: &str)
    ensures
        final(buf)@ == old(buf)@ + s@,
{
    let chars = chars_of(s);
    let ghost start = buf@;
    let mut i: usize = 0;
    while i < chars.len()
        invariant
            i <= chars.len(),
            chars@ == s@,
            buf@ == start + s@.take(i as int),
        decreases chars.len() - i,
    {
        buf.push(chars[i]);
        i = i + 1;
        assert(buf@ =~= start + s@.take(i as int));
    }
    assert(s@.take(chars.len() as int) =~= s@);
}

/// The concatenation of `a` and `b` as a new `String`.
pub fn concat_str(a: &str, b: &str) -> (s: String)
    ensures
        s@ == a@ + b@,
{
    let mut buf: Vec<char> = Vec::new();
    push_str(&mut buf, a);
    push_str(&mut buf, b);
    assert(buf@ =~= a@ + b@);
    string_from_chars(&buf)
}

// ── Decimal rendering ─────────────────────────────────────────────────────────

/// The ASCII digit for `d` (`0 <= d < 10`).
pub open spec fn digit_char(d: nat) -> char {
    if d == 0 { '0' }
    else if d == 1 { '1' }
    else if d == 2 { '2' }
    else if d == 3 { '3' }
    else if d == 4 { '4' }
    else if d == 5 { '5' }
    else if d == 6 { '6' }
    else if d == 7 { '7' }
    else if d == 8 { '8' }
    else { '9' }
}

/// The decimal representation of `n`, without sign or leading zeros
/// (what `Display` writes for an unsigned integer).
pub open spec fn decimal(n: nat) -> Seq<char>
    decreases n,
{
    if n < 10 {
        seq![digit_char(n)]
    } else {
        decimal(n / 10).push(digit_char(n % 10))
    }
}

/// `count` copies of `'0'`.
pub open spec fn zeros(count: nat) -> Seq<char> {
    Seq::new(count, |i: int| '0')
}

/// The decimal representation of `n` left-padded with zeros to at least
/// `width` characters (what `{:0width$}` writes).
pub open spec fn decimal_padded(n: nat, width: nat) -> Seq<char> {
    let d = decimal(n);
    if d.len() < width {
        zeros((width - d.len()) as nat) + d
    } else {
        d
    }
}

fn digit(d: u64) -> (c: char)
    requires
        d < 10,
    ensures
        c == digit_char(d as nat),
{
    if d == 0 { '0' }
    else if d == 1 { '1' }
    else if d == 2 { '2' }
    else if d == 3 { '3' }
    else if d == 4 { '4' }
    else if d == 5 { '5' }
    else if d == 6 { '6' }
    else if d == 7 { '7' }
    else if d == 8 { '8' }
    else { '9' }
}

/// Appends the decimal digits of `n` to `buf`.
pub fn push_decimal(buf: &mut Vec<char>, n: u64)
    ensures
        final(buf)@ == old(buf)@ + decimal(n as nat),
    decreases n,
{
    if n >= 10 {
        push_decimal(buf, n / 10);
    }
    buf.push(digit(n % 10));
}

/// The number of decimal digits of `n`.
pub fn decimal_len(n: u64) -> (len: usize)
    ensures
        len == decimal(n as nat).len(),
    decreases n,
{
    if n < 10 {
        1
    } else {
        proof {
            assert(pow10(19) == 10000000000000000000nat) by {
                reveal_with_fuel(pow10, 20);
            }
            lemma_decimal_len_bound(n as nat / 10, 19);
        }
        decimal_len(n / 10) + 1
    }
}

/// `10` raised to `k`.
pub open spec fn pow10(k: nat) -> nat
    decreases k,
{
    if k == 0 { 1 } else { 10 * pow10((k - 1) as nat) }
}

/// A value below `10^k` (with `k >= 1`) has at most `k` decimal digits.
pub proof fn lemma_decimal_len_bound(n: nat, k: nat)
    requires
        k >= 1,
        n < pow10(k),
    ensures
        1 <= decimal(n).len() <= k,
    decreases n,
{
    if n >= 10 {
        let p = pow10((k - 1) as nat);
        if k == 1 {
            assert(pow10(1) == 10) by {
                reveal_with_fuel(pow10, 2);
            }
        } else {
            assert(n / 10 < p) by (nonlinear_arith)
                requires
                    n < 10 * p,
            ;
            lemma_decimal_len_bound(n / 10, (k - 1) as nat);
        }
    }
}

/// Appends the decimal digits of `n`, zero-padded to at least `width`
/// characters, to `buf`.
pub fn push_decimal_padded(buf: &mut Vec<char>, n: u64, width: usize)
    ensures
        final(buf)@ == old(buf)@ + decimal_padded(n as nat, width as nat),
{
    let len = decimal_len(n);
    let ghost start = buf@;
    if len < width {
        let pad = width - len;
        let mut i: usize = 0;
        while i < pad
            invariant
                i <= pad,
                buf@ == start + zeros(i as nat),
            decreases pad - i,
        {
            buf.push('0');
            i = i + 1;
            assert(buf@ =~= start + zeros(i as nat));
        }
    }
    push_decimal(buf, n);
    assert(buf@ =~= start + decimal_padded(n as nat, width as nat));
}

/// The decimal representation of `n` as a `String`.
pub fn u64_to_string(n: u64) -> (s: String)
    ensures
        s@ == decimal(n as nat),
{
    let mut buf: Vec<char> = Vec::new();
    push_decimal(&mut buf, n);
    assert(buf@ =~= decimal(n as nat));
    string_from_chars(&buf)
}

/// The decimal representation of a signed value (a `-` before the digits of
/// its magnitude when negative), as `Display` writes it.
pub open spec fn signed_decimal(n: int) -> Seq<char> {
    if n < 0 {
        seq!['-'] + decimal((-n) as nat)
    } else {
        decimal(n as nat)
    }
}

/// The decimal representation of `n` as a `String`.
pub fn i64_to_string(n: i64) -> (s: String)
    ensures
        s@ == signed_decimal(n as int),
{
    let mut buf: Vec<char> = Vec::new();
    if n < 0 {
        buf.push('-');
        let magnitude: u64 = if n == i64::MIN {
            9223372036854775808u64
        } else {
            (-n) as u64
        };
        push_decimal(&mut buf, magnitude);
    } else {
        push_decimal(&mut buf, n as u64);
    }
    assert(buf@ =~= signed_decimal(n as int));
    string_from_chars(&buf)
}

// ── Trimming ──────────────────────────────────────────────────────────────────

/// `s` without its leading whitespace.
pub open spec fn trim_start(s: Seq<char>) -> Seq<char>
    decreases s.len(),
{
    if s.len() > 0 && is_white_space(s[0]) {
        trim_start(s.drop_first())
    } else {
        s
    }
}

/// `s` without its trailing whitespace (`str::trim_end`).
pub open spec fn trim_end(s: Seq<char>) -> Seq<char>
    decreases s.len(),
{
    if s.len() > 0 && is_white_space(s.last()) {
        trim_end(s.drop_last())
    } else {
        s
    }
}

/// `s` without leading and trailing whitespace (`str::trim`).
pub open spec fn trim(s: Seq<char>) -> Seq<char> {
    trim_end(trim_start(s))
}

/// Index of the first character of `v` that is not whitespace (or `v.len()`).
fn trim_start_index(v: &Vec<char>) -> (i: usize)
    ensures
        i <= v.len(),
        trim_start(v@) == v@.skip(i as int),
{
    let mut i: usize = 0;
    assert(v@.skip(0) =~= v@);
    while i < v.len() && char_is_whitespace(v[i])
        invariant
            i <= v.len(),
            trim_start(v@) == trim_start(v@.skip(i as int)),
        decreases v.len() - i,
    {
        assert(v@.skip(i as int).drop_first() =~= v@.skip(i + 1));
        i = i + 1;
    }
    i
}

/// Length of the prefix of `v@.take(end)` left after removing trailing
/// whitespace.
fn trim_end_index(v: &Vec<char>, end: usize) -> (e: usize)
    requires
        end <= v.len(),
    ensures
        e <= end,
        trim_end(v@.take(end as int)) == v@.take(e as int),
{
    let mut e: usize = end;
    while e > 0 && char_is_whitespace(v[e - 1])
        invariant
            e <= end <= v.len(),
            trim_end(v@.take(end as int)) == trim_end(v@.take(e as int)),
        decreases e,
    {
        assert(v@.take(e as int).drop_last() =~= v@.take(e - 1));
        e = e - 1;
    }
    e
}

/// The characters `v[from..to]`.
fn slice_chars(v: &Vec<char>, from: usize, to: usize) -> (r: Vec<char>)
    requires
        from <= to <= v.len(),
    ensures
        r@ == v@.subrange(from as int, to as int),
{
    let mut r: Vec<char> = Vec::new();
    let mut i = from;
    while i < to
        invariant
            from <= i <= to <= v.len(),
            r@ == v@.subrange(from as int, i as int),
        decreases to - i,
    {
        r.push(v[i]);
        i = i + 1;
        assert(r@ =~= v@.subrange(from as int, i as int));
    }
    r
}

/// `s` with leading and trailing whitespace removed.
pub fn trim_str(s: &str) -> (r: Vec<char>)
    ensures
        r@ == trim(s@),
{
    let v = chars_of(s);
    let i = trim_start_index(&v);
    let rest = slice_chars(&v, i, v.len());
    assert(rest@ =~= v@.skip(i as int));
    let e = trim_end_index(&rest, rest.len());
    assert(rest@.take(rest.len() as int) =~= rest@);
    slice_chars(&rest, 0, e)
}

// ── Truncation ────────────────────────────────────────────────────────────────

/// The horizontal ellipsis `…` that marks a cut.
pub open spec fn ellipsis() -> char {
    '\u{2026}'
}

/// What `truncate(s, max_chars)` shows: `s` itself when it has at most
/// `max_chars` characters, else its first `max_chars - 1` characters (none
/// when `max_chars` is 0) with trailing whitespace removed and `…` appended.
pub open spec fn truncated(s: Seq<char>, max_chars: nat) -> Seq<char> {
    if s.len() <= max_chars {
        s
    } else {
        let keep = if max_chars == 0 { 0 } else { max_chars - 1 };
        trim_end(s.take(keep)).push(ellipsis())
    }
}

/// Shortens `s` to fit in `max_chars` characters, marking a cut with `…`.
pub fn truncate(s: &str, max_chars: usize) -> (r: String)
    ensures
        r@ == truncated(s@, max_chars as nat),
{
    let v = chars_of(s);
    if v.len() <= max_chars {
        let out = slice_chars(&v, 0, v.len());
        assert(out@ =~= s@);
        string_from_chars(&out)
    } else {
        let keep = max_chars.saturating_sub(1);
        let e = trim_end_index(&v, keep);
        let mut out = slice_chars(&v, 0, e);
        out.push('\u{2026}');
        assert(out@ =~= truncated(s@, max_chars as nat));
        string_from_chars(&out)
    }
}

// ── URL schemes ───────────────────────────────────────────────────────────────

/// The characters of `"https://"`.
pub open spec fn https_prefix() -> Seq<char> {
    seq!['h', 't', 't', 'p', 's', ':', '/', '/']
}

/// The characters of `"http://"`.
pub open spec fn http_prefix() -> Seq<char> {
    seq!['h', 't', 't', 'p', ':', '/', '/']
}

/// Whether `s` begins with `p`.
pub open spec fn has_prefix(s: Seq<char>, p: Seq<char>) -> bool {
    p.len() <= s.len() && s.take(p.len() as int) == p
}

/// `s` with every leading repetition of the non-empty pattern `p` removed
/// (`str::trim_start_matches`).
pub open spec fn strip_all(s: Seq<char>, p: Seq<char>) -> Seq<char>
    decreases s.len(),
{
    if p.len() > 0 && has_prefix(s, p) {
        strip_all(s.skip(p.len() as int), p)
    } else {
        s
    }
}

/// What `strip_scheme(url)` shows: every leading `https://`, then every
/// leading `http://`, removed.
pub open spec fn scheme_stripped(url: Seq<char>) -> Seq<char> {
    strip_all(strip_all(url, https_prefix()), http_prefix())
}

/// Whether `v[at..]` begins with `p`.
fn matches_at(v: &Vec<char>, at: usize, p: &Vec<char>) -> (r: bool)
    requires
        at <= v.len(),
    ensures
        r == has_prefix(v@.skip(at as int), p@),
{
    if p.len() > v.len() - at {
        return false;
    }
    let mut k: usize = 0;
    while k < p.len()
        invariant
            k <= p.len(),
            at + p.len() <= v.len(),
            forall|j: int| 0 <= j < k ==> v@[at + j] == p@[j],
        decreases p.len() - k,
    {
        if v[at + k] != p[k] {
            assert(v@.skip(at as int).take(p.len() as int)[k as int] != p@[k as int]);
            return false;
        }
        k = k + 1;
    }
    assert(v@.skip(at as int).take(p.len() as int) =~= p@);
    true
}

/// Advances `from` past every repetition of the non-empty pattern `p`.
fn skip_all(v: &Vec<char>, from: usize, p: &Vec<char>) -> (i: usize)
    requires
        from <= v.len(),
        p.len() > 0,
    ensures
        from <= i <= v.len(),
        strip_all(v@.skip(from as int), p@) == v@.skip(i as int),
{
    let mut i = from;
    while matches_at(v, i, p)
        invariant
            from <= i <= v.len(),
            p.len() > 0,
            strip_all(v@.skip(from as int), p@) == strip_all(v@.skip(i as int), p@),
        decreases v.len() - i,
    {
        assert(v@.skip(i as int).skip(p.len() as int) =~= v@.skip(i + p.len()));
        i = i + p.len();
    }
    i
}

/// `url` without its leading `https://` and `http://` schemes.
pub fn strip_scheme(url: &str) -> (r: String)
    ensures
        r@ == scheme_stripped(url@),
{
    let v = chars_of(url);
    let https = vec!['h', 't', 't', 'p', 's', ':', '/', '/'];
    let http = vec!['h', 't', 't', 'p', ':', '/', '/'];
    assert(https@ =~= https_prefix());
    assert(http@ =~= http_prefix());
    assert(v@.skip(0) =~= v@);
    let i = skip_all(&v, 0, &https);
    let j = skip_all(&v, i, &http);
    let out = slice_chars(&v, j, v.len());
    assert(out@ =~= v@.skip(j as int));
    string_from_chars(&out)
}

// ── Relative time ─────────────────────────────────────────────────────────────

/// The characters of `" ago"` preceded by a unit letter.
pub open spec fn ago(unit: char) -> Seq<char> {
    seq![unit, ' ', 'a', 'g', 'o']
}

/// How `relative_time` describes an age of `age` seconds: whole seconds
/// under a minute, whole minutes under an hour, whole hours under a day,
/// whole days beyond.
pub open spec fn age_text(age: nat) -> Seq<char> {
    if age < 60 {
        decimal(age) + ago('s')
    } else if age < 3600 {
        decimal(age / 60) + ago('m')
    } else if age < 86400 {
        decimal(age / 3600) + ago('h')
    } else {
        decimal(age / 86400) + ago('d')
    }
}

/// The age of an event at `ts` seen at `now`, both Unix seconds; events in
/// the future have age 0.
pub open spec fn age_of(now: int, ts: int) -> nat {
    if now - ts > 0 { (now - ts) as nat } else { 0 }
}

fn push_ago(buf: &mut Vec<char>, unit: char)
    ensures
        final(buf)@ == old(buf)@ + ago(unit),
{
    buf.push(unit);
    buf.push(' ');
    buf.push('a');
    buf.push('g');
    buf.push('o');
    assert(buf@ =~= old(buf)@ + ago(unit));
}

/// Describes how long ago `ts` was, seen at `now` (both Unix seconds).
pub fn relative_time_at(now: i64, ts: i64) -> (r: String)
    ensures
        r@ == age_text(age_of(now as int, ts as int)),
{
    let wide: i128 = now as i128 - ts as i128;
    let age: u64 = if wide > 0 { wide as u64 } else { 0 };
    let mut buf: Vec<char> = Vec::new();
    if age < 60 {
        push_decimal(&mut buf, age);
        push_ago(&mut buf, 's');
    } else if age < 3600 {
        push_decimal(&mut buf, age / 60);
        push_ago(&mut buf, 'm');
    } else if age < 86400 {
        push_decimal(&mut buf, age / 3600);
        push_ago(&mut buf, 'h');
    } else {
        push_decimal(&mut buf, age / 86400);
        push_ago(&mut buf, 'd');
    }
    assert(buf@ =~= age_text(age_of(now as int, ts as int)));
    string_from_chars(&buf)
}


/// Describes how long ago `ts` (Unix seconds) was, by the system clock.
pub fn relative_time(ts: i64) -> (r: String)
    ensures
        exists|now: u64| r@ == #[trigger] age_text(age_of((now as i64) as int, ts as int)),
{
    let now = crate::dates::unix_now_secs();
    relative_time_at(now as i64, ts)
}

// ── UTF-8 widths ──────────────────────────────────────────────────────────────

/// The number of bytes of the UTF-8 encoding of `c` (`char::len_utf8`).
pub open spec fn char_width(c: char) -> nat {
    let v = c as u32;
    if v <= 0x7F {
        1
    } else if v <= 0x7FF {
        2
    } else if v <= 0xFFFF {
        3
    } else {
        4
    }
}

/// The number of bytes of the UTF-8 encoding of `s` (`str::len`).
pub open spec fn utf8_len(s: Seq<char>) -> nat
    decreases s.len(),
{
    if s.len() == 0 {
        0
    } else {
        utf8_len(s.drop_last()) + char_width(s.last())
    }
}

/// `char_width` agrees with the length of vstd's UTF-8 encoding of a char.
pub proof fn lemma_char_width_encoding(c: char)
    ensures
        vstd::utf8::encode_scalar(c as u32).len() == char_width(c),
{
    vstd::utf8::char_is_scalar(c);
}

/// The encoded length of a concatenation is the sum of the encoded lengths.
pub proof fn lemma_encode_len_concat(a: Seq<char>, b: Seq<char>)
    ensures
        vstd::utf8::encode_utf8(a + b).len() == vstd::utf8::encode_utf8(a).len()
            + vstd::utf8::encode_utf8(b).len(),
    decreases a.len(),
{
    if a.len() > 0 {
        assert((a + b).drop_first() =~= a.drop_first() + b);
        lemma_encode_len_concat(a.drop_first(), b);
    } else {
        assert(a + b =~= b);
    }
}

/// `utf8_len` is the length of vstd's UTF-8 encoding, that is what `str::len`
/// returns.
pub proof fn lemma_utf8_len_is_encoded_len(s: Seq<char>)
    ensures
        utf8_len(s) == vstd::utf8::encode_utf8(s).len(),
    decreases s.len(),
{
    if s.len() > 0 {
        lemma_utf8_len_is_encoded_len(s.drop_last());
        assert(s =~= s.drop_last() + seq![s.last()]);
        lemma_encode_len_concat(s.drop_last(), seq![s.last()]);
        lemma_char_width_encoding(s.last());
        assert(seq![s.last()].drop_first() =~= Seq::<char>::empty());
        assert(vstd::utf8::encode_utf8(seq![s.last()]) =~= vstd::utf8::encode_scalar(
            s.last() as u32,
        )) by {
            reveal_with_fuel(vstd::utf8::encode_utf8, 2);
        }
    }
}

/// `utf8_len` of a concatenation is the sum of the parts.
pub proof fn lemma_utf8_len_concat(a: Seq<char>, b: Seq<char>)
    ensures
        utf8_len(a + b) == utf8_len(a) + utf8_len(b),
    decreases b.len(),
{
    if b.len() == 0 {
        assert(a + b =~= a);
    } else {
        assert((a + b).drop_last() =~= a + b.drop_last());
        lemma_utf8_len_concat(a, b.drop_last());
    }
}

/// The UTF-8 width of `c` (`char::len_utf8`).
pub fn char_utf8_width(c: char) -> (w: u8)
    ensures
        w == char_width(c),
{
    let v = c as u32;
    if v <= 0x7F {
        1
    } else if v <= 0x7FF {
        2
    } else if v <= 0xFFFF {
        3
    } else {
        4
    }
}

// ── Word wrapping ─────────────────────────────────────────────────────────────

/// Splitting `s` on whitespace, read left to right: the words completed so far
/// and the (possibly empty) word still being read.
pub open spec fn split_state(s: Seq<char>) -> (Seq<Seq<char>>, Seq<char>)
    decreases s.len(),
{
    if s.len() == 0 {
        (Seq::empty(), Seq::empty())
    } else {
        let prev = split_state(s.drop_last());
        let c = s.last();
        if is_white_space(c) {
            if prev.1.len() > 0 {
                (prev.0.push(prev.1), Seq::empty())
            } else {
                prev
            }
        } else {
            (prev.0, prev.1.push(c))
        }
    }
}

/// The maximal runs of non-whitespace characters of `s`, in order
/// (`str::split_whitespace`).
pub open spec fn words(s: Seq<char>) -> Seq<Seq<char>> {
    let st = split_state(s);
    if st.1.len() > 0 {
        st.0.push(st.1)
    } else {
        st.0
    }
}

/// One step of greedy line filling: `word` joins the current line after a
/// space when the line stays within `width` bytes, else it starts a new line.
pub open spec fn fill_step(state: (Seq<Seq<char>>, Seq<char>), word: Seq<char>, width: nat) -> (
    Seq<Seq<char>>,
    Seq<char>,
) {
    let lines = state.0;
    let current = state.1;
    if current.len() == 0 {
        (lines, word)
    } else if utf8_len(current) + 1 + utf8_len(word) <= width {
        (lines, current + seq![' '] + word)
    } else {
        (lines.push(current), word)
    }
}

/// Greedy line filling over `ws`: the finished lines and the line in progress.
pub open spec fn fill(ws: Seq<Seq<char>>, width: nat) -> (Seq<Seq<char>>, Seq<char>)
    decreases ws.len(),
{
    if ws.len() == 0 {
        (Seq::empty(), Seq::empty())
    } else {
        fill_step(fill(ws.drop_last(), width), ws.last(), width)
    }
}

/// The finished lines followed by the line in progress, if any.
pub open spec fn close_lines(state: (Seq<Seq<char>>, Seq<char>)) -> Seq<Seq<char>> {
    if state.1.len() > 0 {
        state.0.push(state.1)
    } else {
        state.0
    }
}

/// The lines `word_wrap(text, width)` returns: with `width` 0 the text
/// unchanged as one line, else the words of `text` filled greedily into lines
/// of at most `width` bytes, words separated by one space (a word longer than
/// `width` gets a line of its own).
pub open spec fn wrapped(text: Seq<char>, width: nat) -> Seq<Seq<char>> {
    if width == 0 {
        seq![text]
    } else {
        close_lines(fill(words(text), width))
    }
}

/// The views of a vector of strings.
pub open spec fn string_views(v: Seq<String>) -> Seq<Seq<char>> {
    v.map_values(|l: String| l@)
}

/// Adds `word` to the line in progress, or closes that line and starts a
/// new one with `word`.
fn place_word(
    lines: &mut Vec<String>,
    current: &mut Vec<char>,
    current_bytes: &mut u128,
    word: &Vec<char>,
    word_bytes: u128,
    width: usize,
)
    requires
        *old(current_bytes) == utf8_len(old(current)@),
        word_bytes == utf8_len(word@),
        *old(current_bytes) + word_bytes + 1 < u128::MAX,
    ensures
        (string_views(final(lines)@), final(current)@) == fill_step(
            (string_views(old(lines)@), old(current)@),
            word@,
            width as nat,
        ),
        *final(current_bytes) == utf8_len(final(current)@),
        *final(current_bytes) <= *old(current_bytes) + 1 + word_bytes,
{
    if current.len() == 0 {
        *current = slice_chars(word, 0, word.len());
        *current_bytes = word_bytes;
        assert(current@ =~= word@);
    } else if *current_bytes + 1 + word_bytes <= width as u128 {
        let ghost before = current@;
        current.push(' ');
        let mut k: usize = 0;
        while k < word.len()
            invariant
                k <= word.len(),
                current@ == before + seq![' '] + word@.take(k as int),
            decreases word.len() - k,
        {
            current.push(word[k]);
            k = k + 1;
            assert(current@ =~= before + seq![' '] + word@.take(k as int));
        }
        assert(word@.take(word.len() as int) =~= word@);
        proof {
            lemma_utf8_len_concat(before + seq![' '], word@);
            lemma_utf8_len_concat(before, seq![' ']);
            assert(seq![' '].drop_last() =~= Seq::<char>::empty());
            assert(' ' as u32 == 32);
            assert(utf8_len(Seq::<char>::empty()) == 0);
            assert(seq![' '].last() == ' ');
            assert(utf8_len(seq![' ']) == 1);
            assert(utf8_len(current@) == utf8_len(before) + 1 + utf8_len(word@));
        }
        *current_bytes = *current_bytes + 1 + word_bytes;
    } else {
        let ghost old_lines = lines@;
        lines.push(string_from_chars(current));
        assert(string_views(lines@) =~= string_views(old_lines).push(old(current)@));
        *current = slice_chars(word, 0, word.len());
        *current_bytes = word_bytes;
        assert(current@ =~= word@);
    }
}

/// Greedily wraps the words of `text` into lines of at most `width` bytes.
pub fn word_wrap(text: &str, width: usize) -> (lines: Vec<String>)
    ensures
        string_views(lines@) == wrapped(text@, width as nat),
{
    if width == 0 {
        let mut one: Vec<String> = Vec::new();
        one.push(text.to_owned());
        assert(string_views(one@) =~= seq![text@]);
        return one;
    }
    let v = chars_of(text);
    let mut lines: Vec<String> = Vec::new();
    let mut current: Vec<char> = Vec::new();
    let mut current_bytes: u128 = 0;
    let mut word: Vec<char> = Vec::new();
    let mut word_bytes: u128 = 0;
    let mut i: usize = 0;
    assert(string_views(lines@) =~= Seq::<Seq<char>>::empty());
    assert(v@.take(0) =~= Seq::<char>::empty());
    while i < v.len()
        invariant
            i <= v.len(),
            v@ == text@,
            word@ == split_state(v@.take(i as int)).1,
            word_bytes == utf8_len(word@),
            (string_views(lines@), current@) == fill(
                split_state(v@.take(i as int)).0,
                width as nat,
            ),
            current_bytes == utf8_len(current@),
            current_bytes + word_bytes <= 5 * i,
        decreases v.len() - i,
    {
        let c = v[i];
        let ghost prefix = v@.take(i as int);
        assert(v@.take(i + 1).drop_last() =~= prefix);
        if char_is_whitespace(c) {
            if word.len() > 0 {
                place_word(&mut lines, &mut current, &mut current_bytes, &word, word_bytes, width);
                assert(split_state(prefix).0.push(word@).drop_last() =~= split_state(prefix).0);
                word = Vec::new();
                word_bytes = 0;
                assert(word@ =~= Seq::<char>::empty());
            }
        } else {
            let ghost before = word@;
            word.push(c);
            proof {
                assert(word@.drop_last() =~= before);
            }
            word_bytes = word_bytes + char_utf8_width(c) as u128;
        }
        i = i + 1;
    }
    assert(v@.take(v.len() as int) =~= v@);
    let ghost st = split_state(v@);
    if word.len() > 0 {
        place_word(&mut lines, &mut current, &mut current_bytes, &word, word_bytes, width);
        assert(st.0.push(word@).drop_last() =~= st.0);
    }
    if current.len() > 0 {
        let ghost old_lines = lines@;
        lines.push(string_from_chars(&current));
        assert(string_views(lines@) =~= string_views(old_lines).push(current@));
    }
    lines
}


// ── Laws ──────────────────────────────────────────────────────────────────────

/// Whether `c` is kept by `split_whitespace`.
pub open spec fn non_space(c: char) -> bool {
    !is_white_space(c)
}

/// Every word is non-empty and free of whitespace.
pub open spec fn proper_words(ws: Seq<Seq<char>>) -> bool {
    forall|i: int|
        0 <= i < ws.len() ==> (#[trigger] ws[i]).len() > 0 && forall|j: int|
            0 <= j < ws[i].len() ==> !is_white_space(#[trigger] ws[i][j])
}

proof fn lemma_split_state(s: Seq<char>)
    ensures
        proper_words(split_state(s).0),
        forall|j: int|
            0 <= j < split_state(s).1.len() ==> !is_white_space(#[trigger] split_state(s).1[j]),
        split_state(s).0.flatten() + split_state(s).1 == s.filter(|c: char| non_space(c)),
    decreases s.len(),
{
    let f = |c: char| non_space(c);
    if s.len() == 0 {
        reveal(Seq::filter);
        assert(Seq::<Seq<char>>::empty().flatten() =~= Seq::<char>::empty());
        assert(split_state(s).0.flatten() + split_state(s).1 =~= s.filter(f));
    } else {
        let p = s.drop_last();
        let c = s.last();
        lemma_split_state(p);
        assert(s =~= p.push(c));
        p.lemma_filter_push(c, f);
        let (w, cur) = split_state(p);
        if is_white_space(c) {
            if cur.len() > 0 {
                w.lemma_flatten_push(cur);
                assert(w.push(cur).flatten() + Seq::<char>::empty() =~= w.flatten() + cur);
                assert forall|i: int| 0 <= i < w.push(cur).len() implies (#[trigger] w.push(cur)[i]).len()
                    > 0 && forall|j: int|
                    0 <= j < w.push(cur)[i].len() ==> !is_white_space(#[trigger] w.push(cur)[i][j]) by {
                    if i < w.len() {
                        assert(w.push(cur)[i] == w[i]);
                    } else {
                        assert(w.push(cur)[i] == cur);
                    }
                }
            }
        } else {
            assert(w.flatten() + cur.push(c) =~= (w.flatten() + cur).push(c));
        }
    }
}

/// Law: the words of `s` are non-empty, hold no whitespace, and together
/// hold exactly the non-whitespace characters of `s`, in order.
pub proof fn lemma_words(s: Seq<char>)
    ensures
        proper_words(words(s)),
        words(s).flatten() == s.filter(|c: char| non_space(c)),
{
    lemma_split_state(s);
    let (w, cur) = split_state(s);
    if cur.len() > 0 {
        w.lemma_flatten_push(cur);
        assert forall|i: int| 0 <= i < w.push(cur).len() implies (#[trigger] w.push(cur)[i]).len() > 0
            && forall|j: int|
            0 <= j < w.push(cur)[i].len() ==> !is_white_space(#[trigger] w.push(cur)[i][j]) by {
            if i < w.len() {
                assert(w.push(cur)[i] == w[i]);
            } else {
                assert(w.push(cur)[i] == cur);
            }
        }
    } else {
        assert(w.flatten() + cur =~= w.flatten());
    }
}

/// Words joined by single spaces.
pub open spec fn join_words(g: Seq<Seq<char>>) -> Seq<char>
    decreases g.len(),
{
    if g.len() == 0 {
        Seq::empty()
    } else if g.len() == 1 {
        g[0]
    } else {
        join_words(g.drop_last()) + seq![' '] + g.last()
    }
}

/// Greedy line filling over `ws`, keeping the words of each line: the
/// finished lines and the line in progress.
pub open spec fn fill_groups(ws: Seq<Seq<char>>, width: nat) -> (Seq<Seq<Seq<char>>>, Seq<Seq<char>>)
    decreases ws.len(),
{
    if ws.len() == 0 {
        (Seq::empty(), Seq::empty())
    } else {
        let prev = fill_groups(ws.drop_last(), width);
        let word = ws.last();
        if prev.1.len() == 0 {
            (prev.0, seq![word])
        } else if utf8_len(join_words(prev.1)) + 1 + utf8_len(word) <= width {
            (prev.0, prev.1.push(word))
        } else {
            (prev.0.push(prev.1), seq![word])
        }
    }
}

/// The finished lines followed by the line in progress, if any.
pub open spec fn close_groups(st: (Seq<Seq<Seq<char>>>, Seq<Seq<char>>)) -> Seq<Seq<Seq<char>>> {
    if st.1.len() > 0 {
        st.0.push(st.1)
    } else {
        st.0
    }
}

/// The words of each line `word_wrap(text, width)` returns (`width > 0`).
pub open spec fn line_groups(text: Seq<char>, width: nat) -> Seq<Seq<Seq<char>>> {
    close_groups(fill_groups(words(text), width))
}

/// The lines of a grouping, each its words joined by single spaces.
pub open spec fn joined_lines(groups: Seq<Seq<Seq<char>>>) -> Seq<Seq<char>> {
    groups.map_values(|g: Seq<Seq<char>>| join_words(g))
}

/// The properties of a grouping of `ws` into lines of `width` bytes: it
/// keeps the words in order, no line is empty, a line over `width` bytes
/// holds a single word, and a line ends only where the next word would not
/// fit after it.
pub open spec fn good_grouping(groups: Seq<Seq<Seq<char>>>, ws: Seq<Seq<char>>, width: nat) -> bool {
    &&& groups.flatten() == ws
    &&& forall|i: int|
        0 <= i < groups.len() ==> (#[trigger] groups[i]).len() > 0 && (utf8_len(join_words(groups[i]))
            <= width || groups[i].len() == 1)
    &&& forall|i: int|
        0 <= i < groups.len() - 1 ==> utf8_len(join_words(#[trigger] groups[i])) + 1 + utf8_len(
            groups[i + 1][0],
        ) > width
}

proof fn lemma_fill_groups(ws: Seq<Seq<char>>, width: nat)
    requires
        proper_words(ws),
    ensures
        (fill_groups(ws, width).1.len() == 0) == (ws.len() == 0),
        good_grouping(close_groups(fill_groups(ws, width)), ws, width),
        fill(ws, width).0 == joined_lines(fill_groups(ws, width).0),
        fill(ws, width).1 == join_words(fill_groups(ws, width).1),
        fill_groups(ws, width).1.len() > 0 ==> join_words(fill_groups(ws, width).1).len() > 0,
    decreases ws.len(),
{
    if ws.len() == 0 {
        assert(Seq::<Seq<Seq<char>>>::empty().flatten() =~= Seq::<Seq<char>>::empty());
        assert(joined_lines(Seq::<Seq<Seq<char>>>::empty()) =~= Seq::<Seq<char>>::empty());
        assert(ws =~= Seq::<Seq<char>>::empty());
        assert(good_grouping(Seq::<Seq<Seq<char>>>::empty(), ws, width));
    } else {
        let p = ws.drop_last();
        let word = ws.last();
        assert(proper_words(p)) by {
            assert forall|i: int| 0 <= i < p.len() implies (#[trigger] p[i]).len() > 0 && forall|j: int|
                0 <= j < p[i].len() ==> !is_white_space(#[trigger] p[i][j]) by {
                assert(p[i] == ws[i]);
            }
        }
        assert(word == ws[ws.len() - 1]);
        lemma_fill_groups(p, width);
        let (gs, cur) = fill_groups(p, width);
        let old_groups = if cur.len() > 0 { gs.push(cur) } else { gs };
        assert(ws =~= p.push(word));
        if cur.len() == 0 {
            assert(p.len() == 0);
            assert(gs.flatten() == Seq::<Seq<char>>::empty());
            assert(gs.len() == 0) by {
                if gs.len() > 0 {
                    assert(old_groups[0].len() > 0);
                    gs.lemma_flatten_length_ge_single_element_length(0);
                }
            }
            let ng = seq![seq![word]];
            ng.lemma_flatten_singleton();
            assert(ng.flatten() =~= ws);
            assert(join_words(seq![word]) == word);
            assert(joined_lines(gs) =~= Seq::<Seq<char>>::empty());
            assert(close_groups(fill_groups(ws, width)) =~= ng);
            assert(good_grouping(ng, ws, width));
        } else {
            let jc = join_words(cur);
            assert(cur.push(word).drop_last() =~= cur);
            if utf8_len(jc) + 1 + utf8_len(word) <= width {
                let nc = cur.push(word);
                assert(join_words(nc) == jc + seq![' '] + word);
                lemma_utf8_len_concat(jc + seq![' '], word);
                lemma_utf8_len_concat(jc, seq![' ']);
                assert(seq![' '].drop_last() =~= Seq::<char>::empty());
                assert(utf8_len(Seq::<char>::empty()) == 0);
                assert(seq![' '].last() == ' ');
                assert(' ' as u32 == 32);
                assert(utf8_len(seq![' ']) == 1);
                gs.lemma_flatten_push(cur);
                gs.lemma_flatten_push(nc);
                let ng = gs.push(nc);
                assert(ng.flatten() =~= ws);
                assert forall|i: int| 0 <= i < ng.len() implies (#[trigger] ng[i]).len() > 0 && (utf8_len(
                    join_words(ng[i]),
                ) <= width || ng[i].len() == 1) by {
                    if i < gs.len() {
                        assert(ng[i] == old_groups[i]);
                    }
                }
                assert forall|i: int| 0 <= i < ng.len() - 1 implies utf8_len(join_words(#[trigger] ng[i]))
                    + 1 + utf8_len(ng[i + 1][0]) > width by {
                    assert(ng[i] == old_groups[i]);
                    if i + 1 < gs.len() {
                        assert(ng[i + 1] == old_groups[i + 1]);
                    } else {
                        assert(ng[i + 1][0] == old_groups[i + 1][0]);
                    }
                }
                assert(join_words(nc).len() > 0);
                assert(close_groups(fill_groups(ws, width)) =~= ng);
                assert(good_grouping(ng, ws, width));
            } else {
                let ngs = gs.push(cur);
                let ng = ngs.push(seq![word]);
                gs.lemma_flatten_push(cur);
                ngs.lemma_flatten_push(seq![word]);
                assert(ng.flatten() =~= ws);
                assert(join_words(seq![word]) == word);
                assert(joined_lines(ngs) =~= joined_lines(gs).push(jc));
                assert forall|i: int| 0 <= i < ng.len() implies (#[trigger] ng[i]).len() > 0 && (utf8_len(
                    join_words(ng[i]),
                ) <= width || ng[i].len() == 1) by {
                    if i < ngs.len() {
                        assert(ng[i] == old_groups[i]);
                    }
                }
                assert forall|i: int| 0 <= i < ng.len() - 1 implies utf8_len(join_words(#[trigger] ng[i]))
                    + 1 + utf8_len(ng[i + 1][0]) > width by {
                    assert(ng[i] == old_groups[i]);
                    if i + 1 < ngs.len() {
                        assert(ng[i + 1] == old_groups[i + 1]);
                    } else {
                        assert(ng[i + 1] == seq![word]);
                    }
                }
                assert(close_groups(fill_groups(ws, width)) =~= ng);
                assert(good_grouping(ng, ws, width));
            }
        }
    }
}

/// Law: for a positive width, `word_wrap` cuts the words of the text into
/// lines whose words, in order, are the words of the text; each line is its
/// words joined by single spaces; a line longer than `width` bytes is a
/// single word; and a line ends only where the next word would not fit on
/// it.
pub proof fn lemma_word_wrap(text: Seq<char>, width: nat)
    requires
        width > 0,
    ensures
        wrapped(text, width) == joined_lines(line_groups(text, width)),
        good_grouping(line_groups(text, width), words(text), width),
{
    lemma_words(text);
    lemma_fill_groups(words(text), width);
    let (gs, cur) = fill_groups(words(text), width);
    if cur.len() > 0 {
        assert(joined_lines(gs.push(cur)) =~= joined_lines(gs).push(join_words(cur)));
    }
}

/// The text with its whitespace normalised: every run of whitespace between
/// two other characters becomes one space, and whitespace at either end is
/// dropped. Read left to right, each character other than whitespace is
/// kept, preceded by a space when whitespace separates it from the
/// character kept before it.
pub open spec fn squeeze(s: Seq<char>) -> Seq<char>
    decreases s.len(),
{
    if s.len() == 0 {
        Seq::empty()
    } else {
        let p = s.drop_last();
        let c = s.last();
        let r = squeeze(p);
        if is_white_space(c) {
            r
        } else if r.len() > 0 && is_white_space(p.last()) {
            r + seq![' ', c]
        } else {
            r.push(c)
        }
    }
}

/// Joined words are non-empty when the last word is.
proof fn lemma_join_words_len(g: Seq<Seq<char>>)
    requires
        g.len() > 0,
    ensures
        join_words(g).len() >= g.last().len(),
{
}

/// Joining the concatenation of two non-empty word lists puts one space
/// between their joins.
proof fn lemma_join_words_concat(a: Seq<Seq<char>>, b: Seq<Seq<char>>)
    requires
        a.len() > 0,
        b.len() > 0,
    ensures
        join_words(a + b) == join_words(a) + seq![' '] + join_words(b),
    decreases b.len(),
{
    if b.len() == 1 {
        assert((a + b).drop_last() =~= a);
        assert((a + b).last() == b[0]);
    } else {
        let b0 = b.drop_last();
        lemma_join_words_concat(a, b0);
        assert((a + b).drop_last() =~= a + b0);
        assert((a + b).last() == b.last());
        assert(join_words(a + b) =~= join_words(a) + seq![' '] + join_words(b));
    }
}

/// Joining the lines of a grouping is joining all its words.
proof fn lemma_join_joined_lines(gs: Seq<Seq<Seq<char>>>)
    requires
        forall|i: int| 0 <= i < gs.len() ==> (#[trigger] gs[i]).len() > 0,
    ensures
        join_words(joined_lines(gs)) == join_words(gs.flatten()),
    decreases gs.len(),
{
    if gs.len() == 0 {
        assert(joined_lines(gs) =~= Seq::<Seq<char>>::empty());
        assert(gs.flatten() =~= Seq::<Seq<char>>::empty());
    } else {
        let p = gs.drop_last();
        let g = gs.last();
        assert forall|i: int| 0 <= i < p.len() implies (#[trigger] p[i]).len() > 0 by {
            assert(p[i] == gs[i]);
        }
        lemma_join_joined_lines(p);
        assert(gs =~= p.push(g));
        p.lemma_flatten_push(g);
        assert(joined_lines(gs) =~= joined_lines(p).push(join_words(g)));
        assert(joined_lines(gs).drop_last() =~= joined_lines(p));
        if p.len() == 0 {
            assert(p.flatten() =~= Seq::<Seq<char>>::empty());
            assert(gs.flatten() =~= g);
        } else {
            assert(p[0].len() > 0);
            assert(p.flatten().len() > 0) by {
                p.lemma_flatten_length_ge_single_element_length(0);
            }
            lemma_join_words_concat(p.flatten(), g);
        }
    }
}

/// The words of `s` joined by single spaces are `squeeze(s)`, and a word is
/// being read exactly when `s` ends in a character other than whitespace.
proof fn lemma_words_squeeze(s: Seq<char>)
    ensures
        join_words(words(s)) == squeeze(s),
        (split_state(s).1.len() > 0) == (s.len() > 0 && !is_white_space(s.last())),
    decreases s.len(),
{
    if s.len() > 0 {
        let p = s.drop_last();
        let c = s.last();
        lemma_words_squeeze(p);
        lemma_split_state(p);
        let (w, cur) = split_state(p);
        if !is_white_space(c) {
            if cur.len() > 0 {
                lemma_join_words_len(w.push(cur));
                if w.len() > 0 {
                    assert(w.push(cur.push(c)).drop_last() =~= w);
                    assert(w.push(cur).drop_last() =~= w);
                    assert(join_words(w.push(cur.push(c))) =~= join_words(w.push(cur)).push(c));
                } else {
                    assert(join_words(w.push(cur.push(c))) =~= join_words(w.push(cur)).push(c));
                }
            } else {
                assert(cur =~= Seq::<char>::empty());
                assert(cur.push(c) =~= seq![c]);
                if w.len() > 0 {
                    assert(w[w.len() - 1].len() > 0);
                    lemma_join_words_len(w);
                    assert(w.push(seq![c]).drop_last() =~= w);
                    assert(join_words(w.push(seq![c])) =~= join_words(w) + seq![' ', c]);
                } else {
                    assert(join_words(w.push(seq![c])) =~= squeeze(s));
                }
            }
        }
    }
}

/// Law: for a positive width, the lines of `word_wrap` joined by single
/// spaces are the text with its whitespace normalised: no character other
/// than whitespace is lost, added or moved, and a space separates two of
/// them exactly where whitespace separated them in the text.
pub proof fn lemma_word_wrap_keeps_text(text: Seq<char>, width: nat)
    requires
        width > 0,
    ensures
        join_words(wrapped(text, width)) == squeeze(text),
{
    lemma_word_wrap(text, width);
    let gs = line_groups(text, width);
    assert forall|i: int| 0 <= i < gs.len() implies (#[trigger] gs[i]).len() > 0 by {}
    lemma_join_joined_lines(gs);
    lemma_words_squeeze(text);
}

/// `trim_end(s)` is a prefix of `s`.
pub proof fn lemma_trim_end_prefix(s: Seq<char>)
    ensures
        trim_end(s).len() <= s.len(),
        s.take(trim_end(s).len() as int) == trim_end(s),
    decreases s.len(),
{
    if s.len() > 0 && is_white_space(s.last()) {
        lemma_trim_end_prefix(s.drop_last());
        assert(s.take(trim_end(s).len() as int) =~= s.drop_last().take(trim_end(s).len() as int));
    } else {
        assert(s.take(s.len() as int) =~= s);
    }
}

/// Law: with room for at least one character, `truncate` never shows more
/// than `max_chars` characters; it shows the text unchanged when it fits,
/// and otherwise a prefix of the text followed by `…`.
pub proof fn lemma_truncate(s: Seq<char>, max_chars: nat)
    requires
        max_chars >= 1,
    ensures
        truncated(s, max_chars).len() <= max_chars,
        s.len() <= max_chars ==> truncated(s, max_chars) == s,
        s.len() > max_chars ==> {
            let t = truncated(s, max_chars);
            &&& t.last() == ellipsis()
            &&& s.take(t.len() - 1) == t.drop_last()
        },
{
    if s.len() > max_chars {
        let keep = (max_chars - 1) as nat;
        lemma_trim_end_prefix(s.take(keep as int));
        let t = trim_end(s.take(keep as int));
        assert(t.push(ellipsis()).drop_last() =~= t);
        assert(s.take(t.len() as int) =~= s.take(keep as int).take(t.len() as int));
    }
}

/// `strip_all(s, p)` is a suffix of `s` that does not begin with `p`.
pub proof fn lemma_strip_all(s: Seq<char>, p: Seq<char>)
    requires
        p.len() > 0,
    ensures
        strip_all(s, p).len() <= s.len(),
        strip_all(s, p) == s.skip(s.len() - strip_all(s, p).len()),
        !has_prefix(strip_all(s, p), p),
    decreases s.len(),
{
    if has_prefix(s, p) {
        let rest = s.skip(p.len() as int);
        lemma_strip_all(rest, p);
        assert(rest.skip(rest.len() - strip_all(rest, p).len()) =~= s.skip(
            s.len() - strip_all(rest, p).len(),
        ));
    } else {
        assert(s.skip(0) =~= s);
    }
}

/// Law: `strip_scheme` shows an ending of the URL that does not begin with
/// `http://`.
pub proof fn lemma_strip_scheme(url: Seq<char>)
    ensures
        scheme_stripped(url).len() <= url.len(),
        scheme_stripped(url) == url.skip(url.len() - scheme_stripped(url).len()),
        !has_prefix(scheme_stripped(url), http_prefix()),
{
    let a = strip_all(url, https_prefix());
    lemma_strip_all(url, https_prefix());
    lemma_strip_all(a, http_prefix());
    let b = strip_all(a, http_prefix());
    assert(url.skip(url.len() - a.len()).skip(a.len() - b.len()) =~= url.skip(url.len() - b.len()));
}

} // verus!
