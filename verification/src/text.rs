//! Text building blocks: decimal and hexadecimal rendering of integers and
//! the small amount of string plumbing the library needs.
use vstd::prelude::*;

verus! {

/// An optional string as an optional character sequence.
pub open spec fn opt_view(o: Option<String>) -> Option<Seq<char>> {
    match o {
        Some(s) => Some(s@),
        None => None,
    }
}

/// An optional string slice as an optional character sequence.
pub open spec fn opt_str_view(o: Option<&str>) -> Option<Seq<char>> {
    match o {
        Some(s) => Some(s@),
        None => None,
    }
}

/// An owned copy of an optional string slice.
pub fn opt_string(o: Option<&str>) -> (res: Option<String>)
    ensures
        opt_view(res) == opt_str_view(o),
{
    match o {
        Some(s) => Some(String::from_str(s)),
        None => None,
    }
}

/// A copy of an optional string.
pub fn copy_opt_string(o: &Option<String>) -> (res: Option<String>)
    ensures
        opt_view(res) == opt_view(*o),
{
    match o {
        Some(s) => Some(s.clone()),
        None => None,
    }
}

/// Whether two strings hold the same characters.
pub fn str_equal(a: &str, b: &str) -> (res: bool)
    ensures
        res == (a@ == b@),
{
    let n = a.unicode_len();
    if n != b.unicode_len() {
        return false;
    }
    let mut i: usize = 0;
    while i < n
        invariant
            n == a@.len(),
            n == b@.len(),
            i <= n,
            forall|j: int| 0 <= j < i ==> a@[j] == b@[j],
        decreases n - i,
    {
        if a.get_char(i) != b.get_char(i) {
            return false;
        }
        i = i + 1;
    }
    assert(a@ =~= b@);
    true
}

/// The ASCII digit for `d` (`0 <= d < 10`).
pub open spec fn digit_char(d: nat) -> char {
    (48 + d) as char
}

/// The decimal rendering of `n`, without leading zeros (`0` renders as "0").
pub open spec fn decimal(n: nat) -> Seq<char>
    decreases n,
{
    if n < 10 {
        seq![digit_char(n)]
    } else {
        decimal(n / 10).push(digit_char(n % 10))
    }
}

/// Appends `c` to `s` (std's `String::push`).
#[verifier::external_body]
pub(crate) fn push_char(s: &mut String, c: char)
    ensures
        final(s)@ == old(s)@.push(c),
{
    s.push(c);
}

/// The ASCII digit character for a value below ten.
pub fn digit(d: u64) -> (c: char)
    requires
        d < 10,
    ensures
        c == digit_char(d as nat),
{
    let b: u8 = 48u8 + (d as u8);
    b as char
}

/// Appends the decimal rendering of `n` to `s`.
pub fn push_decimal(s: &mut String, n: u64)
    ensures
        final(s)@ == old(s)@ + decimal(n as nat),
    decreases n,
{
    if n >= 10 {
        push_decimal(s, n / 10);
    }
    push_char(s, digit(n % 10));
    assert(decimal(n as nat) == if n < 10 { seq![digit_char(n as nat)] } else { decimal((n / 10) as nat).push(digit_char((n % 10) as nat)) });
}

/// `prefix`, then the decimal rendering of `n`, then `suffix`.
pub fn text_with_number(prefix: &str, n: u64, suffix: &str) -> (s: String)
    ensures
        s@ == prefix@ + decimal(n as nat) + suffix@,
{
    let mut s = String::from_str(prefix);
    push_decimal(&mut s, n);
    s.append(suffix);
    s
}

/// The text that std gives for the failure to read `bytes` as UTF-8.
pub uninterp spec fn utf8_error_text(bytes: Seq<u8>) -> Seq<char>;

/// `std::str::from_utf8`: `None` when `bytes` is valid UTF-8, otherwise the
/// error's text.
#[verifier::external_body]
pub(crate) fn utf8_error(bytes: &[u8]) -> (res: Option<String>)
    ensures
        res is None <==> vstd::utf8::valid_utf8(bytes@),
        res is Some ==> res->Some_0@ == utf8_error_text(bytes@),
{
    match std::str::from_utf8(bytes) {
        Ok(_) => None,
        Err(error) => Some(error.to_string()),
    }
}

/// Bytes below 0x80 are valid UTF-8.
pub proof fn lemma_ascii_valid_utf8(s: Seq<u8>)
    requires
        forall|i: int| 0 <= i < s.len() ==> #[trigger] s[i] < 0x80,
    ensures
        vstd::utf8::valid_utf8(s),
    decreases s.len(),
{
    if s.len() != 0 {
        let rest = vstd::utf8::pop_first_scalar(s);
        assert(rest =~= s.subrange(1, s.len() as int));
        assert forall|i: int| 0 <= i < rest.len() implies #[trigger] rest[i] < 0x80 by {
            assert(rest[i] == s[i + 1]);
        }
        lemma_ascii_valid_utf8(rest);
    }
}

/// Whether `c` is white space in Unicode's sense (std's `char::is_whitespace`).
pub open spec fn is_unicode_whitespace(c: char) -> bool {
    let u = c as u32;
    ||| 9 <= u <= 13
    ||| u == 32
    ||| u == 0x85
    ||| u == 0xA0
    ||| u == 0x1680
    ||| 0x2000 <= u <= 0x200A
    ||| u == 0x2028
    ||| u == 0x2029
    ||| u == 0x202F
    ||| u == 0x205F
    ||| u == 0x3000
}

/// Which characters a trim removes: white space, or one given character.
#[derive(Clone, Copy)]
pub enum CharClass {
    Whitespace,
    Exactly(char),
}

pub open spec fn in_class(c: char, class: CharClass) -> bool {
    match class {
        CharClass::Whitespace => is_unicode_whitespace(c),
        CharClass::Exactly(x) => c == x,
    }
}

/// `s` without its leading characters of `class`.
pub open spec fn strip_start(s: Seq<char>, class: CharClass) -> Seq<char>
    decreases s.len(),
{
    if s.len() > 0 && in_class(s[0], class) {
        strip_start(s.drop_first(), class)
    } else {
        s
    }
}

/// `s` without its trailing characters of `class`.
pub open spec fn strip_end(s: Seq<char>, class: CharClass) -> Seq<char>
    decreases s.len(),
{
    if s.len() > 0 && in_class(s.last(), class) {
        strip_end(s.drop_last(), class)
    } else {
        s
    }
}

/// `s` without leading and trailing characters of `class` (std's `trim`
/// for white space, `trim_matches` for one character).
pub open spec fn strip(s: Seq<char>, class: CharClass) -> Seq<char> {
    strip_end(strip_start(s, class), class)
}

/// What a strip leaves neither starts nor ends with a character of the
/// class, and is a contiguous part of the text.
pub proof fn lemma_strip_leaves_no_edge(s: Seq<char>, class: CharClass)
    ensures
        strip(s, class).len() > 0 ==> !in_class(strip(s, class)[0], class) && !in_class(strip(s, class).last(), class),
        exists|i: int, j: int| 0 <= i <= j <= s.len() && strip(s, class) == s.subrange(i, j),
{
    lemma_strip_start_shape(s, class);
    let t = strip_start(s, class);
    lemma_strip_end_shape(t, class);
    let i = choose|i: int| 0 <= i <= s.len() && t == s.subrange(i, s.len() as int);
    let j = choose|j: int| 0 <= j <= t.len() && strip_end(t, class) == t.subrange(0, j);
    assert(strip(s, class) == s.subrange(i, i + j));
    if strip(s, class).len() > 0 {
        assert(strip(s, class)[0] == t[0]);
    }
}

proof fn lemma_strip_start_shape(s: Seq<char>, class: CharClass)
    ensures
        strip_start(s, class).len() > 0 ==> !in_class(strip_start(s, class)[0], class),
        exists|i: int| 0 <= i <= s.len() && strip_start(s, class) == s.subrange(i, s.len() as int),
    decreases s.len(),
{
    if s.len() > 0 && in_class(s[0], class) {
        lemma_strip_start_shape(s.drop_first(), class);
        let i = choose|i: int| 0 <= i <= s.drop_first().len() && strip_start(s.drop_first(), class) == s.drop_first().subrange(i, s.drop_first().len() as int);
        assert(s.drop_first().subrange(i, s.drop_first().len() as int) =~= s.subrange(i + 1, s.len() as int));
    } else {
        assert(s =~= s.subrange(0, s.len() as int));
    }
}

proof fn lemma_strip_end_shape(s: Seq<char>, class: CharClass)
    ensures
        strip_end(s, class).len() > 0 ==> !in_class(strip_end(s, class).last(), class),
        exists|j: int| 0 <= j <= s.len() && strip_end(s, class) == s.subrange(0, j),
    decreases s.len(),
{
    if s.len() > 0 && in_class(s.last(), class) {
        lemma_strip_end_shape(s.drop_last(), class);
        let j = choose|j: int| 0 <= j <= s.drop_last().len() && strip_end(s.drop_last(), class) == s.drop_last().subrange(0, j);
        assert(s.drop_last().subrange(0, j) =~= s.subrange(0, j));
    } else {
        assert(s =~= s.subrange(0, s.len() as int));
    }
}

/// Whether `c` is white space.
pub fn is_whitespace(c: char) -> (res: bool)
    ensures
        res == is_unicode_whitespace(c),
{
    let u = c as u32;
    (9 <= u && u <= 13) || u == 32 || u == 0x85 || u == 0xA0 || u == 0x1680 || (0x2000 <= u && u <= 0x200A)
        || u == 0x2028 || u == 0x2029 || u == 0x202F || u == 0x205F || u == 0x3000
}

pub fn char_in_class(c: char, class: CharClass) -> (res: bool)
    ensures
        res == in_class(c, class),
{
    match class {
        CharClass::Whitespace => is_whitespace(c),
        CharClass::Exactly(x) => c == x,
    }
}

/// The characters of `s`.
pub fn chars_of(s: &str) -> (res: Vec<char>)
    ensures
        res@ == s@,
{
    let n = s.unicode_len();
    let mut res: Vec<char> = Vec::new();
    let mut i: usize = 0;
    while i < n
        invariant
            n == s@.len(),
            i <= n,
            res@ == s@.take(i as int),
        decreases n - i,
    {
        res.push(s.get_char(i));
        assert(res@ =~= s@.take(i + 1));
        i = i + 1;
    }
    assert(s@.take(n as int) =~= s@);
    res
}

/// A string holding the characters `chars[from..to]`.
pub fn string_of(chars: &Vec<char>, from: usize, to: usize) -> (res: String)
    requires
        from <= to <= chars@.len(),
    ensures
        res@ == chars@.subrange(from as int, to as int),
{
    let mut res = String::new();
    let mut i: usize = from;
    while i < to
        invariant
            from <= i <= to,
            to <= chars@.len(),
            res@ == chars@.subrange(from as int, i as int),
        decreases to - i,
    {
        push_char(&mut res, chars[i]);
        assert(res@ =~= chars@.subrange(from as int, i + 1));
        i = i + 1;
    }
    res
}

proof fn lemma_strip_start_step(s: Seq<char>, i: int, class: CharClass)
    requires
        0 <= i < s.len(),
        in_class(s[i], class),
    ensures
        strip_start(s.subrange(i, s.len() as int), class) == strip_start(s.subrange(i + 1, s.len() as int), class),
{
    let t = s.subrange(i, s.len() as int);
    assert(t.drop_first() =~= s.subrange(i + 1, s.len() as int));
}

proof fn lemma_strip_end_step(s: Seq<char>, j: int, class: CharClass)
    requires
        0 < j <= s.len(),
        in_class(s[j - 1], class),
    ensures
        strip_end(s.subrange(0, j), class) == strip_end(s.subrange(0, j - 1), class),
{
    let t = s.subrange(0, j);
    assert(t.drop_last() =~= s.subrange(0, j - 1));
}

/// The bounds of `chars` with leading and trailing characters of `class`
/// removed.
pub fn strip_bounds(chars: &Vec<char>, class: CharClass) -> (res: (usize, usize))
    ensures
        res.0 <= res.1 <= chars@.len(),
        chars@.subrange(res.0 as int, res.1 as int) == strip(chars@, class),
{
    let n = chars.len();
    let mut i: usize = 0;
    assert(chars@.subrange(0, n as int) =~= chars@);
    while i < n && char_in_class(chars[i], class)
        invariant
            i <= n,
            n == chars@.len(),
            strip_start(chars@, class) == strip_start(chars@.subrange(i as int, n as int), class),
        decreases n - i,
    {
        proof {
            lemma_strip_start_step(chars@, i as int, class);
        }
        i = i + 1;
    }
    let ghost rest = chars@.subrange(i as int, n as int);
    assert(strip_start(chars@, class) == rest);
    let mut j: usize = n;
    assert(rest.subrange(0, (j - i) as int) =~= rest);
    while j > i && char_in_class(chars[j - 1], class)
        invariant
            i <= j <= n,
            n == chars@.len(),
            rest == chars@.subrange(i as int, n as int),
            strip_end(rest, class) == strip_end(rest.subrange(0, (j - i) as int), class),
        decreases j,
    {
        proof {
            assert(rest[(j - 1 - i) as int] == chars@[j - 1]);
            lemma_strip_end_step(rest, (j - i) as int, class);
        }
        j = j - 1;
    }
    assert(rest.subrange(0, (j - i) as int) =~= chars@.subrange(i as int, j as int));
    if j > i {
        assert(rest.subrange(0, (j - i) as int).last() == chars@[j - 1]);
    }
    (i, j)
}

/// `s` with leading and trailing characters of `class` removed.
pub fn strip_text(s: &str, class: CharClass) -> (res: String)
    ensures
        res@ == strip(s@, class),
{
    let chars = chars_of(s);
    let (from, to) = strip_bounds(&chars, class);
    string_of(&chars, from, to)
}

/// What std's lossy UTF-8 decoding makes of `bytes`.
pub uninterp spec fn lossy_utf8(bytes: Seq<u8>) -> Seq<char>;

/// `String::from_utf8_lossy`: the text of `bytes`, with each invalid
/// sequence replaced by U+FFFD; valid UTF-8 is decoded as it stands.
#[verifier::external_body]
pub(crate) fn from_utf8_lossy(bytes: &[u8]) -> (res: String)
    ensures
        res@ == lossy_utf8(bytes@),
        vstd::utf8::valid_utf8(bytes@) ==> res@ == vstd::utf8::decode_utf8(bytes@),
{
    String::from_utf8_lossy(bytes).into_owned()
}

/// The text that std's `Debug` formatting gives for `c`, quotes included.
pub uninterp spec fn char_debug_text(c: char) -> Seq<char>;

/// `format!("{:?}", c)`.
#[verifier::external_body]
pub(crate) fn char_debug(c: char) -> (res: String)
    ensures
        res@ == char_debug_text(c),
{
    format!("{:?}", c)
}

} // verus!
