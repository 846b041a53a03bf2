//! Text helpers shared by the parsers and the message builders.
//!
//! Text is modelled as `Seq<char>`; every helper states its result over that
//! view.

use vstd::prelude::*;
use vstd::string::*;
use vstd::utf8::*;

verus! {

/// `String::push` of the standard library: the character is appended at the
/// end of the string, and nothing else changes.
pub assume_specification[ std::string::String::push ](s: &mut std::string::String, c: char)
    ensures
        final(s)@ == old(s)@.push(c),
;

/// The characters of `s`, in order.
pub fn to_chars(s: &str) -> (chars: Vec<char>)
    ensures
        chars@ == s@,
{
    let mut chars: Vec<char> = Vec::new();
    for c in it: s.chars()
        invariant
            it.seq() == s@,
            chars@ == s@.take(it.index() as int),
    {
        chars.push(c);
    }
    chars
}

/// The string made of the characters `chars[from..to]`.
pub fn from_chars(chars: &[char], from: usize, to: usize) -> (s: String)
    requires
        from <= to <= chars@.len(),
    ensures
        s@ == chars@.subrange(from as int, to as int),
{
    let mut s = String::new();
    let mut i: usize = from;
    while i < to
        invariant
            from <= i <= to <= chars@.len(),
            s@ == chars@.subrange(from as int, i as int),
        decreases to - i,
    {
        s.push(chars[i]);
        i += 1;
    }
    s
}

/// What follows `prefix` in `s`, where `s` begins with `prefix`.
pub fn strip_prefix(s: &str, prefix: &str) -> (rest: Option<String>)
    ensures
        match rest {
            Some(r) => prefix@.is_prefix_of(s@) && r@ == s@.skip(prefix@.len() as int),
            None => !prefix@.is_prefix_of(s@),
        },
{
    let chars = to_chars(s);
    let head = to_chars(prefix);
    if head.len() > chars.len() {
        return None;
    }
    let mut i: usize = 0;
    while i < head.len()
        invariant
            i <= head@.len() <= chars@.len(),
            chars@ == s@,
            head@ == prefix@,
            forall|j: int| 0 <= j < i ==> chars@[j] == head@[j],
        decreases head@.len() - i,
    {
        if chars[i] != head[i] {
            assert(s@.subrange(0, prefix@.len() as int)[i as int] != prefix@[i as int]);
            return None;
        }
        i += 1;
    }
    assert(prefix@ =~= s@.subrange(0, prefix@.len() as int));
    let rest = from_chars(chars.as_slice(), head.len(), chars.len());
    Some(rest)
}

/// Whether two strings hold the same characters.
pub fn str_eq(a: &str, b: &str) -> (same: bool)
    ensures
        same == (a@ == b@),
{
    let x = a.as_bytes();
    let y = b.as_bytes();
    proof {
        encode_utf8_decode_utf8(a@);
        encode_utf8_decode_utf8(b@);
    }
    if x.len() != y.len() {
        return false;
    }
    let mut i: usize = 0;
    while i < x.len()
        invariant
            i <= x@.len(),
            x@.len() == y@.len(),
            x@.take(i as int) == y@.take(i as int),
            x@ == a.spec_bytes(),
            y@ == b.spec_bytes(),
            decode_utf8(encode_utf8(a@)) == a@,
            decode_utf8(encode_utf8(b@)) == b@,
        decreases x@.len() - i,
    {
        if x[i] != y[i] {
            return false;
        }
        assert(x@.take(i + 1) == x@.take(i as int).push(x@[i as int]));
        assert(y@.take(i + 1) == y@.take(i as int).push(y@[i as int]));
        i += 1;
    }
    assert(x@ == x@.take(i as int));
    assert(y@ == y@.take(i as int));
    true
}

/// The index of the first item of `s` that is `x`, or the length of `s`
/// where there is none.
pub open spec fn first_index<T>(s: Seq<T>, x: T) -> int
    decreases s.len(),
{
    if s.len() == 0 {
        0
    } else if s[0] == x {
        0
    } else {
        1 + first_index(s.drop_first(), x)
    }
}

/// `first_index` is the least index at which `x` stands.
pub proof fn lemma_first_index<T>(s: Seq<T>, x: T)
    ensures
        0 <= first_index(s, x) <= s.len(),
        first_index(s, x) < s.len() ==> s[first_index(s, x)] == x,
        forall|i: int| 0 <= i < first_index(s, x) ==> #[trigger] s[i] != x,
    decreases s.len(),
{
    if s.len() > 0 && s[0] != x {
        let rest = s.drop_first();
        lemma_first_index(rest, x);
        assert forall|i: int| 0 <= i < first_index(s, x) implies #[trigger] s[i] != x by {
            if i > 0 {
                assert(s[i] == rest[i - 1]);
            }
        }
        if first_index(s, x) < s.len() {
            assert(s[first_index(s, x)] == rest[first_index(rest, x)]);
        }
    }
}

/// An index `n` before which `x` does not stand, and at which it stands or
/// `s` ends, is `first_index`.
pub proof fn lemma_first_index_unique<T>(s: Seq<T>, x: T, n: int)
    requires
        0 <= n <= s.len(),
        forall|i: int| 0 <= i < n ==> #[trigger] s[i] != x,
        n < s.len() ==> s[n] == x,
    ensures
        first_index(s, x) == n,
{
    lemma_first_index(s, x);
    let f = first_index(s, x);
    if f < n {
        assert(s[f] != x);
    } else if n < f {
        assert(s[n] != x);
    }
}

/// The index of the first `c` in `chars[from..to]`, or `to` where there is
/// none.
pub fn find_char(chars: &[char], from: usize, to: usize, c: char) -> (at: usize)
    requires
        from <= to <= chars@.len(),
    ensures
        from <= at <= to,
        at - from == first_index(chars@.subrange(from as int, to as int), c),
{
    let ghost part = chars@.subrange(from as int, to as int);
    let mut at: usize = from;
    while at < to
        invariant
            from <= at <= to <= chars@.len(),
            part == chars@.subrange(from as int, to as int),
            forall|i: int| 0 <= i < at - from ==> #[trigger] part[i] != c,
        decreases to - at,
    {
        if chars[at] == c {
            proof {
                assert(part[at - from] == chars@[at as int]);
                lemma_first_index_unique(part, c, at - from);
            }
            return at;
        }
        assert(part[at - from] == chars@[at as int]);
        at += 1;
    }
    proof {
        lemma_first_index_unique(part, c, at - from);
    }
    at
}

/// The decimal digit `d` as a character.
pub open spec fn digit_char(d: nat) -> char
    recommends
        d < 10,
{
    (('0' as nat) + d) as char
}

/// The decimal numeral of `n`, without leading zeros (`0` is `"0"`).
pub open spec fn decimal(n: nat) -> Seq<char>
    decreases n,
{
    if n < 10 {
        seq![digit_char(n)]
    } else {
        decimal(n / 10).push(digit_char(n % 10))
    }
}

/// The decimal numeral of `n`, with zeros in front up to `width` characters.
pub open spec fn zero_padded(n: nat, width: nat) -> Seq<char> {
    let numeral = decimal(n);
    if numeral.len() >= width {
        numeral
    } else {
        Seq::new((width - numeral.len()) as nat, |i: int| '0') + numeral
    }
}

/// The numeral of a signed number in a field of five characters, filled with
/// zeros after the sign: `17` is `"00017"`, `-17` is `"-0017"`.
pub open spec fn signed_padded5(n: int) -> Seq<char> {
    if n < 0 {
        seq!['-'] + zero_padded((-n) as nat, 4)
    } else {
        zero_padded(n as nat, 5)
    }
}

/// The character of one decimal digit.
pub fn digit_of(d: u8) -> (c: char)
    requires
        d < 10,
    ensures
        c == digit_char(d as nat),
{
    let code: u8 = 48u8 + d;
    code as char
}

/// Appends the decimal numeral of `n` to `out`.
pub fn push_decimal(out: &mut String, n: u64)
    ensures
        final(out)@ == old(out)@ + decimal(n as nat),
    decreases n,
{
    if n >= 10 {
        push_decimal(out, n / 10);
    }
    let d: u8 = (n % 10) as u8;
    out.push(digit_of(d));
}

/// The decimal numeral of `n` as a string.
pub fn decimal_string(n: u64) -> (s: String)
    ensures
        s@ == decimal(n as nat),
{
    let mut s = String::new();
    push_decimal(&mut s, n);
    s
}

/// Appends the numeral of `n` to `out`, with zeros in front up to `width`
/// characters.
pub fn push_zero_padded(out: &mut String, n: u64, width: usize)
    ensures
        final(out)@ == old(out)@ + zero_padded(n as nat, width as nat),
{
    let numeral = decimal_string(n);
    let len: usize = numeral.as_str().unicode_len();
    let ghost before = out@;
    let mut filled: usize = len;
    while filled < width
        invariant
            len <= filled,
            filled == len || filled <= width,
            len == decimal(n as nat).len(),
            out@ == before + Seq::new((filled - len) as nat, |i: int| '0'),
        decreases width - filled,
    {
        out.push('0');
        filled += 1;
        assert(out@ =~= before + Seq::new((filled - len) as nat, |i: int| '0'));
    }
    let ghost zeros = Seq::new((filled - len) as nat, |i: int| '0');
    out.append(numeral.as_str());
    assert(out@ == before + zero_padded(n as nat, width as nat)) by {
        if len >= width {
            assert(zeros =~= Seq::<char>::empty());
            assert(before + zeros + decimal(n as nat) =~= before + decimal(n as nat));
        } else {
            assert(before + zeros + decimal(n as nat) =~= before + (zeros + decimal(n as nat)));
        }
    }
}

/// Appends `signed_padded5(n)` to `out`.
pub fn push_signed_padded5(out: &mut String, n: i32)
    ensures
        final(out)@ == old(out)@ + signed_padded5(n as int),
{
    let ghost before = out@;
    if n < 0 {
        out.push('-');
        let wide: i64 = n as i64;
        let magnitude: u64 = (-wide) as u64;
        push_zero_padded(out, magnitude, 4);
        assert(out@ == before + (seq!['-'] + zero_padded((-n) as nat, 4)));
    } else {
        push_zero_padded(out, n as u64, 5);
    }
}

/// The characters that count as white space: those with the Unicode property
/// `White_Space`.
pub open spec fn is_whitespace(c: char) -> bool {
    let u = c as u32;
    ||| 0x09 <= u <= 0x0D
    ||| u == 0x20
    ||| u == 0x85
    ||| u == 0xA0
    ||| u == 0x1680
    ||| 0x2000 <= u <= 0x200A
    ||| u == 0x2028
    ||| u == 0x2029
    ||| u == 0x202F
    ||| u == 0x205F
    ||| u == 0x3000
}

/// Whether `c` is white space.
pub fn char_is_whitespace(c: char) -> (b: bool)
    ensures
        b == is_whitespace(c),
{
    let u: u32 = c as u32;
    (0x09 <= u && u <= 0x0D) || u == 0x20 || u == 0x85 || u == 0xA0 || u == 0x1680 || (0x2000 <= u
        && u <= 0x200A) || u == 0x2028 || u == 0x2029 || u == 0x202F || u == 0x205F || u == 0x3000
}

/// The number of white-space characters at the start of `s`.
pub open spec fn leading_whitespace(s: Seq<char>) -> nat
    decreases s.len(),
{
    if s.len() > 0 && is_whitespace(s[0]) {
        1 + leading_whitespace(s.drop_first())
    } else {
        0
    }
}

/// `s` without the white space at its start.
pub open spec fn trim_start(s: Seq<char>) -> Seq<char> {
    s.skip(leading_whitespace(s) as int)
}

/// The leading white space is a prefix of white-space characters that stops
/// at the first other character.
pub proof fn lemma_leading_whitespace(s: Seq<char>)
    ensures
        leading_whitespace(s) <= s.len(),
        forall|i: int| 0 <= i < leading_whitespace(s) ==> is_whitespace(#[trigger] s[i]),
        leading_whitespace(s) < s.len() ==> !is_whitespace(s[leading_whitespace(s) as int]),
    decreases s.len(),
{
    if s.len() > 0 && is_whitespace(s[0]) {
        let rest = s.drop_first();
        lemma_leading_whitespace(rest);
        assert forall|i: int| 0 <= i < leading_whitespace(s) implies is_whitespace(
            #[trigger] s[i],
        ) by {
            if i > 0 {
                assert(s[i] == rest[i - 1]);
            }
        }
        if leading_whitespace(s) < s.len() {
            assert(s[leading_whitespace(s) as int] == rest[leading_whitespace(rest) as int]);
        }
    }
}

/// A position `n` such that everything before it is white space and the
/// character at it is not (or the text ends there) is the length of the
/// leading white space.
pub proof fn lemma_leading_whitespace_unique(s: Seq<char>, n: nat)
    requires
        n <= s.len(),
        forall|i: int| 0 <= i < n ==> is_whitespace(#[trigger] s[i]),
        n < s.len() ==> !is_whitespace(s[n as int]),
    ensures
        leading_whitespace(s) == n,
    decreases s.len(),
{
    if s.len() > 0 && is_whitespace(s[0]) {
        let rest = s.drop_first();
        assert(n >= 1);
        assert forall|i: int| 0 <= i < n - 1 implies is_whitespace(#[trigger] rest[i]) by {
            assert(rest[i] == s[i + 1]);
        }
        if n < s.len() {
            assert(rest[n - 1] == s[n as int]);
        }
        lemma_leading_whitespace_unique(rest, (n - 1) as nat);
    } else {
        if n > 0 {
            assert(is_whitespace(s[0]));
        }
    }
}

/// The index of the first character of `chars` that is not white space, or
/// the length of `chars` where there is none.
pub fn skip_whitespace(chars: &[char]) -> (start: usize)
    ensures
        start == leading_whitespace(chars@),
        start <= chars@.len(),
{
    let mut start: usize = 0;
    while start < chars.len() && char_is_whitespace(chars[start])
        invariant
            start <= chars@.len(),
            forall|i: int| 0 <= i < start ==> is_whitespace(#[trigger] chars@[i]),
        decreases chars@.len() - start,
    {
        start += 1;
    }
    proof {
        lemma_leading_whitespace_unique(chars@, start as nat);
    }
    start
}

/// The number of white-space characters at the end of `s`.
pub open spec fn trailing_whitespace(s: Seq<char>) -> nat
    decreases s.len(),
{
    if s.len() > 0 && is_whitespace(s.last()) {
        1 + trailing_whitespace(s.drop_last())
    } else {
        0
    }
}

/// `s` without the white space at its end.
pub open spec fn trim_end(s: Seq<char>) -> Seq<char> {
    s.take(s.len() - trailing_whitespace(s))
}

/// `s` without the white space at its start and at its end.
pub open spec fn trim(s: Seq<char>) -> Seq<char> {
    trim_end(trim_start(s))
}

/// Whether every character of `s` is white space.
pub open spec fn all_whitespace(s: Seq<char>) -> bool {
    forall|i: int| 0 <= i < s.len() ==> is_whitespace(#[trigger] s[i])
}

/// The trailing white space is a suffix of white-space characters that
/// stops at the last other character.
pub proof fn lemma_trailing_whitespace(s: Seq<char>)
    ensures
        trailing_whitespace(s) <= s.len(),
        forall|i: int|
            s.len() - trailing_whitespace(s) <= i < s.len() ==> is_whitespace(#[trigger] s[i]),
        trailing_whitespace(s) < s.len() ==> !is_whitespace(
            s[s.len() - trailing_whitespace(s) - 1],
        ),
    decreases s.len(),
{
    if s.len() > 0 && is_whitespace(s.last()) {
        let rest = s.drop_last();
        lemma_trailing_whitespace(rest);
        assert forall|i: int|
            s.len() - trailing_whitespace(s) <= i < s.len() implies is_whitespace(
            #[trigger] s[i],
        ) by {
            if i < s.len() - 1 {
                assert(s[i] == rest[i]);
            }
        }
        if trailing_whitespace(s) < s.len() {
            assert(s[s.len() - trailing_whitespace(s) - 1] == rest[rest.len()
                - trailing_whitespace(rest) - 1]);
        }
    }
}

/// A number `n` such that the last `n` characters are white space and the
/// character before them is not (or the text begins there) is the length of
/// the trailing white space.
pub proof fn lemma_trailing_whitespace_unique(s: Seq<char>, n: nat)
    requires
        n <= s.len(),
        forall|i: int| s.len() - n <= i < s.len() ==> is_whitespace(#[trigger] s[i]),
        n < s.len() ==> !is_whitespace(s[s.len() - n - 1]),
    ensures
        trailing_whitespace(s) == n,
    decreases s.len(),
{
    if s.len() > 0 && is_whitespace(s.last()) {
        let rest = s.drop_last();
        assert(n >= 1);
        assert forall|i: int| rest.len() - (n - 1) <= i < rest.len() implies is_whitespace(
            #[trigger] rest[i],
        ) by {
            assert(rest[i] == s[i]);
        }
        if n < s.len() {
            assert(rest[rest.len() - (n - 1) - 1] == s[s.len() - n - 1]);
        }
        lemma_trailing_whitespace_unique(rest, (n - 1) as nat);
    } else {
        if n > 0 {
            assert(is_whitespace(s[s.len() - 1]));
        }
    }
}

/// White space before a text does not change what is left of it when it is
/// trimmed.
pub proof fn lemma_trim_ignores_leading_whitespace(space: Seq<char>, s: Seq<char>)
    requires
        all_whitespace(space),
    ensures
        trim_start(space + s) == trim_start(s),
        trim(space + s) == trim(s),
{
    let whole = space + s;
    lemma_leading_whitespace(s);
    let n = space.len() + leading_whitespace(s);
    assert forall|i: int| 0 <= i < n implies is_whitespace(#[trigger] whole[i]) by {
        if i < space.len() {
            assert(whole[i] == space[i]);
        } else {
            assert(whole[i] == s[i - space.len()]);
        }
    }
    if n < whole.len() {
        assert(whole[n as int] == s[leading_whitespace(s) as int]);
    }
    lemma_leading_whitespace_unique(whole, n);
    assert(trim_start(whole) == trim_start(s));
}

/// White space after a text does not change what is left of it when it is
/// trimmed.
pub proof fn lemma_trim_ignores_trailing_whitespace(s: Seq<char>, space: Seq<char>)
    requires
        all_whitespace(space),
    ensures
        trim(s + space) == trim(s),
{
    let whole = s + space;
    lemma_leading_whitespace(s);
    let n = leading_whitespace(s);
    if n < s.len() {
        assert forall|i: int| 0 <= i < n implies is_whitespace(#[trigger] whole[i]) by {
            assert(whole[i] == s[i]);
        }
        assert(whole[n as int] == s[n as int]);
        lemma_leading_whitespace_unique(whole, n);
        let t = trim_start(s);
        let u = trim_start(whole);
        assert(u == t + space);
        assert(t[0] == s[n as int]);
        lemma_trailing_whitespace(t);
        let k = trailing_whitespace(t);
        if k == t.len() {
            assert(is_whitespace(t[0]));
        }
        let m = space.len() + k;
        assert forall|i: int| u.len() - m <= i < u.len() implies is_whitespace(
            #[trigger] u[i],
        ) by {
            if i < t.len() {
                assert(u[i] == t[i]);
            } else {
                assert(u[i] == space[i - t.len()]);
            }
        }
        assert(u[u.len() - m - 1] == t[t.len() - k - 1]);
        lemma_trailing_whitespace_unique(u, m);
        assert(trim_end(u) == trim_end(t));
    } else {
        assert forall|i: int| 0 <= i < whole.len() implies is_whitespace(#[trigger] whole[i]) by {
            if i < s.len() {
                assert(whole[i] == s[i]);
            } else {
                assert(whole[i] == space[i - s.len()]);
            }
        }
        lemma_leading_whitespace_unique(whole, whole.len());
        assert(trim_start(whole) == trim_start(s));
    }
}

/// The bounds of what is left of `chars` when the white space at its start
/// and at its end is taken away.
pub fn trim_bounds(chars: &[char]) -> (bounds: (usize, usize))
    ensures
        bounds.0 <= bounds.1 <= chars@.len(),
        chars@.subrange(bounds.0 as int, bounds.1 as int) == trim(chars@),
{
    let start: usize = skip_whitespace(chars);
    let ghost t = chars@.skip(start as int);
    let mut end: usize = chars.len();
    while end > start && char_is_whitespace(chars[end - 1])
        invariant
            start <= end <= chars@.len(),
            forall|i: int| end <= i < chars@.len() ==> is_whitespace(#[trigger] chars@[i]),
        decreases end,
    {
        end -= 1;
    }
    proof {
        let n = (chars@.len() - end) as nat;
        assert forall|i: int| t.len() - n <= i < t.len() implies is_whitespace(#[trigger] t[i]) by {
            assert(t[i] == chars@[start + i]);
        }
        if n < t.len() {
            assert(t[t.len() - n - 1] == chars@[end - 1]);
        }
        lemma_trailing_whitespace_unique(t, n);
        assert(chars@.subrange(start as int, end as int) == t.take(t.len() - n));
    }
    (start, end)
}

/// The upper-case form of `s`, after the case mappings of Unicode: what
/// `str::to_uppercase` gives for the text `s`.
pub uninterp spec fn upper_text(s: Seq<char>) -> Seq<char>;

/// `str::to_uppercase` of the standard library: the upper-case equivalent
/// of the text, as a new string. The result is a function of the text alone.
#[verifier::external_body]
pub(crate) fn to_upper(s: &str) -> (upper: String)
    ensures
        upper@ == upper_text(s@),
{
    s.to_uppercase()
}

/// Whether `chars` begins with `prefix`.
pub fn starts_with(chars: &[char], prefix: &str) -> (found: bool)
    ensures
        found == prefix@.is_prefix_of(chars@),
{
    let n: usize = prefix.unicode_len();
    if chars.len() < n {
        return false;
    }
    let mut i: usize = 0;
    while i < n
        invariant
            i <= n <= chars@.len(),
            n == prefix@.len(),
            forall|j: int| 0 <= j < i ==> chars@[j] == prefix@[j],
        decreases n - i,
    {
        if chars[i] != prefix.get_char(i) {
            assert(chars@.subrange(0, n as int)[i as int] != prefix@[i as int]);
            return false;
        }
        i += 1;
    }
    assert(prefix@ =~= chars@.subrange(0, n as int));
    true
}

} // verus!
