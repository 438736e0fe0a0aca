//! Text helpers shared by the whole crate: character classes, decimal
//! numbers, prefixes, trimming and joining, each with a model over
//! `Seq<char>`.

use vstd::prelude::*;
use vstd::string::*;

verus! {

/// ASCII decimal digit.
pub open spec fn is_digit(c: char) -> bool {
    '0' <= c && c <= '9'
}

/// ASCII letter or decimal digit.
pub open spec fn is_ascii_alphanumeric(c: char) -> bool {
    ('a' <= c && c <= 'z') || ('A' <= c && c <= 'Z') || is_digit(c)
}

/// Characters with the Unicode `White_Space` property.
pub open spec fn is_whitespace(c: char) -> bool {
    let u = c as u32;
    (0x09 <= u && u <= 0x0D) || u == 0x20 || u == 0x85 || u == 0xA0 || u == 0x1680 || (0x2000 <= u
        && u <= 0x200A) || u == 0x2028 || u == 0x2029 || u == 0x202F || u == 0x205F || u == 0x3000
}

/// The character that writes the decimal digit `d`.
pub open spec fn digit_char(d: nat) -> char {
    if d == 0 {
        '0'
    } else if d == 1 {
        '1'
    } else if d == 2 {
        '2'
    } else if d == 3 {
        '3'
    } else if d == 4 {
        '4'
    } else if d == 5 {
        '5'
    } else if d == 6 {
        '6'
    } else if d == 7 {
        '7'
    } else if d == 8 {
        '8'
    } else {
        '9'
    }
}

/// The value of a decimal digit character.
pub open spec fn digit_value(c: char) -> nat {
    (c as u32 - '0' as u32) as nat
}

/// Decimal notation of a natural number, without leading zeros.
pub open spec fn decimal(n: nat) -> Seq<char>
    decreases n,
{
    if n < 10 {
        seq![digit_char(n)]
    } else {
        decimal(n / 10).push(digit_char(n % 10))
    }
}

/// Decimal notation of an integer: a minus sign before negative numbers.
pub open spec fn signed_decimal(i: int) -> Seq<char> {
    if i < 0 {
        seq!['-'] + decimal((-i) as nat)
    } else {
        decimal(i as nat)
    }
}

/// `text` begins with `prefix`.
pub open spec fn has_prefix(text: Seq<char>, prefix: Seq<char>) -> bool {
    prefix.len() <= text.len() && text.subrange(0, prefix.len() as int) == prefix
}

/// `text` without its leading white space.
pub open spec fn trim_start(text: Seq<char>) -> Seq<char>
    decreases text.len(),
{
    if text.len() > 0 && is_whitespace(text[0]) {
        trim_start(text.drop_first())
    } else {
        text
    }
}

/// `text` without its trailing white space.
pub open spec fn trim_end(text: Seq<char>) -> Seq<char>
    decreases text.len(),
{
    if text.len() > 0 && is_whitespace(text.last()) {
        trim_end(text.drop_last())
    } else {
        text
    }
}

/// `text` without leading and trailing white space.
pub open spec fn trim(text: Seq<char>) -> Seq<char> {
    trim_end(trim_start(text))
}

/// Why a text is not a number that fits.
#[derive(Debug, Clone, Copy, PartialEq, Eq, Structural)]
pub enum NumberError {
    /// The text is empty.
    Empty,
    /// The text holds something else than decimal digits after an optional
    /// leading plus sign, or a sign alone.
    InvalidDigit,
    /// The number is above the limit.
    Overflow,
}

impl NumberError {
    /// The message for this failure.
    pub open spec fn message(self) -> Seq<char> {
        match self {
            NumberError::Empty => "cannot parse integer from empty string"@,
            NumberError::InvalidDigit => "invalid digit found in string"@,
            NumberError::Overflow => "number too large to fit in target type"@,
        }
    }

    /// The message for this failure.
    pub fn as_str(&self) -> (r: &'static str)
        ensures
            r@ == self.message(),
    {
        match self {
            NumberError::Empty => "cannot parse integer from empty string",
            NumberError::InvalidDigit => "invalid digit found in string",
            NumberError::Overflow => "number too large to fit in target type",
        }
    }
}

/// Reads `digits` from the left as a decimal number continuing `so_far`.
/// The first character that is no digit, or the first digit that takes the
/// number above `limit`, decides the failure.
pub open spec fn read_digits(digits: Seq<char>, so_far: nat, limit: nat) -> Result<nat, NumberError>
    decreases digits.len(),
{
    if digits.len() == 0 {
        Ok(so_far)
    } else if !is_digit(digits[0]) {
        Err(NumberError::InvalidDigit)
    } else if so_far * 10 + digit_value(digits[0]) > limit {
        Err(NumberError::Overflow)
    } else {
        read_digits(digits.drop_first(), so_far * 10 + digit_value(digits[0]), limit)
    }
}

/// The unsigned number that `text` writes in decimal notation, an optional
/// plus sign before the digits, if it is at most `limit`.
pub open spec fn parse_number(text: Seq<char>, limit: nat) -> Result<nat, NumberError> {
    if text.len() == 0 {
        Err(NumberError::Empty)
    } else if text.len() == 1 && (text[0] == '+' || text[0] == '-') {
        Err(NumberError::InvalidDigit)
    } else if text[0] == '+' {
        read_digits(text.drop_first(), 0, limit)
    } else {
        read_digits(text, 0, limit)
    }
}

/// Position `i` begins a line of `text`.
pub open spec fn is_line_start(text: Seq<char>, i: int) -> bool {
    0 <= i < text.len() && (i == 0 || text[i - 1] == '\n')
}

/// `prefix` stands in `text` from position `i` on.
pub open spec fn occurs_at(text: Seq<char>, i: int, prefix: Seq<char>) -> bool {
    0 <= i && i + prefix.len() <= text.len() && text.subrange(i, i + prefix.len()) == prefix
}

/// Some line of `text` begins with `prefix`. Lines end at a line feed, so a
/// prefix that holds one begins no line.
pub open spec fn line_begins_with(text: Seq<char>, prefix: Seq<char>) -> bool {
    !prefix.contains('\n') && exists|i: int| is_line_start(text, i) && #[trigger] occurs_at(
        text,
        i,
        prefix,
    )
}

/// Every character of `text` is a decimal digit.
pub open spec fn all_digits(text: Seq<char>) -> bool {
    forall|i: int| 0 <= i < text.len() ==> is_digit(#[trigger] text[i])
}

/// `a` stands before `b`, or equals it, in the order of dictionaries: the
/// first character in which they differ decides, and a text stands before
/// every text that it begins.
pub open spec fn in_order(a: Seq<char>, b: Seq<char>) -> bool
    decreases a.len(),
{
    if a.len() == 0 {
        true
    } else if b.len() == 0 {
        false
    } else if a[0] != b[0] {
        a[0] < b[0]
    } else {
        in_order(a.drop_first(), b.drop_first())
    }
}

/// Of two texts one stands before the other, or they are equal.
pub proof fn lemma_in_order_total(a: Seq<char>, b: Seq<char>)
    ensures
        in_order(a, b) || in_order(b, a),
    decreases a.len(),
{
    if a.len() > 0 && b.len() > 0 && a[0] == b[0] {
        lemma_in_order_total(a.drop_first(), b.drop_first());
    }
}

/// The order of dictionaries is transitive.
pub proof fn lemma_in_order_transitive(a: Seq<char>, b: Seq<char>, c: Seq<char>)
    requires
        in_order(a, b),
        in_order(b, c),
    ensures
        in_order(a, c),
    decreases a.len(),
{
    if a.len() > 0 && b.len() > 0 && c.len() > 0 && a[0] == b[0] && b[0] == c[0] {
        lemma_in_order_transitive(a.drop_first(), b.drop_first(), c.drop_first());
    }
}

/// Where the first line of `text` ends: at the first line feed, or at the
/// end of the text.
pub open spec fn first_break(text: Seq<char>) -> nat
    decreases text.len(),
{
    if text.len() == 0 || text[0] == '\n' {
        0
    } else {
        1 + first_break(text.drop_first())
    }
}

/// The line that stands in `text` before position `end`, without the
/// carriage return that a line feed at `end` may follow.
pub open spec fn line_before(text: Seq<char>, end: int) -> Seq<char> {
    if 0 < end < text.len() && text[end - 1] == '\r' {
        text.take(end - 1)
    } else {
        text.take(end)
    }
}

/// The lines of `text`: what stands between its line endings, each a line
/// feed or a carriage return and a line feed. A line ending at the very
/// end opens no further line.
pub open spec fn lines(text: Seq<char>) -> Seq<Seq<char>>
    decreases text.len(),
{
    if text.len() == 0 {
        Seq::empty()
    } else {
        let end = first_break(text);
        if end < text.len() {
            seq![line_before(text, end as int)] + lines(text.skip(end as int + 1))
        } else {
            seq![text]
        }
    }
}

/// Where the word at the start of `text` ends: at the first white space,
/// or at the end of the text.
pub open spec fn word_end(text: Seq<char>) -> nat
    decreases text.len(),
{
    if text.len() == 0 || is_whitespace(text[0]) {
        0
    } else {
        1 + word_end(text.drop_first())
    }
}

/// The first of the words of `text` that white space separates; empty
/// where there is none.
pub open spec fn first_word(text: Seq<char>) -> Seq<char> {
    let rest = trim_start(text);
    rest.take(word_end(rest) as int)
}

/// What follows the first word of `text`.
pub open spec fn after_first_word(text: Seq<char>) -> Seq<char> {
    let rest = trim_start(text);
    rest.skip(word_end(rest) as int)
}

/// The second of the words of `text`, if it has two.
pub open spec fn second_word(text: Seq<char>) -> Option<Seq<char>> {
    let word = first_word(after_first_word(text));
    if word.len() > 0 {
        Some(word)
    } else {
        None
    }
}

/// The path of `name` below the directory `base`: a slash stands between
/// them unless `base` is empty or ends in one, and an absolute `name`
/// stands for itself.
pub open spec fn path_join(base: Seq<char>, name: Seq<char>) -> Seq<char> {
    if name.len() > 0 && name[0] == '/' {
        name
    } else if base.len() == 0 || base.last() == '/' {
        base + name
    } else {
        base + "/"@ + name
    }
}

/// The views of a list of strings.
pub open spec fn views(items: Seq<String>) -> Seq<Seq<char>> {
    items.map_values(|s: String| s@)
}

/// Whether `c` is an ASCII decimal digit.
pub fn char_is_digit(c: char) -> (r: bool)
    ensures
        r == is_digit(c),
{
    c >= '0' && c <= '9'
}

/// Whether `c` is an ASCII letter or decimal digit.
pub fn char_is_ascii_alphanumeric(c: char) -> (r: bool)
    ensures
        r == is_ascii_alphanumeric(c),
{
    (c >= 'a' && c <= 'z') || (c >= 'A' && c <= 'Z') || char_is_digit(c)
}

/// Whether `c` is white space.
pub fn char_is_whitespace(c: char) -> (r: bool)
    ensures
        r == is_whitespace(c),
{
    let u: u32 = c as u32;
    (0x09 <= u && u <= 0x0D) || u == 0x20 || u == 0x85 || u == 0xA0 || u == 0x1680 || (0x2000 <= u
        && u <= 0x200A) || u == 0x2028 || u == 0x2029 || u == 0x202F || u == 0x205F || u == 0x3000
}

/// The characters of a string, in order.
pub fn chars_of(s: &str) -> (r: Vec<char>)
    ensures
        r@ == s@,
{
    broadcast use vstd::string::group_string_axioms;

    let mut out: Vec<char> = Vec::new();
    let chars = s.chars();
    for c in it: chars
        invariant
            it.seq() == s@,
            out@ == it.seq().take(it.index() as int),
    {
        out.push(c);
    }
    out
}

/// Whether two strings hold the same characters.
pub fn same_text(a: &str, b: &str) -> (r: bool)
    ensures
        r == (a@ == b@),
{
    let x = chars_of(a);
    let y = chars_of(b);
    if x.len() != y.len() {
        return false;
    }
    let mut i: usize = 0;
    while i < x.len()
        invariant
            i <= x.len(),
            x.len() == y.len(),
            x@ == a@,
            y@ == b@,
            forall|j: int| 0 <= j < i ==> x@[j] == y@[j],
        decreases x.len() - i,
    {
        if x[i] != y[i] {
            return false;
        }
        i += 1;
    }
    assert(a@ =~= b@);
    true
}

/// Whether `text` begins with `prefix`.
pub fn starts_with(text: &str, prefix: &str) -> (r: bool)
    ensures
        r == has_prefix(text@, prefix@),
{
    let x = chars_of(text);
    let p = chars_of(prefix);
    if p.len() > x.len() {
        return false;
    }
    let mut i: usize = 0;
    while i < p.len()
        invariant
            i <= p.len(),
            p.len() <= x.len(),
            x@ == text@,
            p@ == prefix@,
            forall|j: int| 0 <= j < i ==> x@[j] == p@[j],
        decreases p.len() - i,
    {
        if x[i] != p[i] {
            assert(text@.subrange(0, prefix@.len() as int)[i as int] != prefix@[i as int]);
            return false;
        }
        i += 1;
    }
    assert(text@.subrange(0, prefix@.len() as int) =~= prefix@);
    true
}

/// The one-character text of a decimal digit.
fn digit_str(d: u64) -> (r: &'static str)
    requires
        d < 10,
    ensures
        r@ == seq![digit_char(d as nat)],
{
    proof {
        reveal_strlit("0");
        reveal_strlit("1");
        reveal_strlit("2");
        reveal_strlit("3");
        reveal_strlit("4");
        reveal_strlit("5");
        reveal_strlit("6");
        reveal_strlit("7");
        reveal_strlit("8");
        reveal_strlit("9");
    }
    let r = if d == 0 {
        "0"
    } else if d == 1 {
        "1"
    } else if d == 2 {
        "2"
    } else if d == 3 {
        "3"
    } else if d == 4 {
        "4"
    } else if d == 5 {
        "5"
    } else if d == 6 {
        "6"
    } else if d == 7 {
        "7"
    } else if d == 8 {
        "8"
    } else {
        "9"
    };
    assert(r@ =~= seq![digit_char(d as nat)]);
    r
}

/// Writes a number in decimal notation.
pub fn decimal_string(n: u64) -> (r: String)
    ensures
        r@ == decimal(n as nat),
    decreases n,
{
    if n < 10 {
        String::from_str(digit_str(n))
    } else {
        let mut out = decimal_string(n / 10);
        out.append(digit_str(n % 10));
        assert(out@ =~= decimal((n / 10) as nat).push(digit_char((n % 10) as nat)));
        out
    }
}

/// Writes a signed number in decimal notation.
pub fn signed_decimal_string(i: i32) -> (r: String)
    ensures
        r@ == signed_decimal(i as int),
{
    if i < 0 {
        let magnitude: u64 = (-(i as i64)) as u64;
        let digits = decimal_string(magnitude);
        let mut out = String::from_str("-");
        out.append(digits.as_str());
        proof {
            reveal_strlit("-");
            assert("-"@ =~= seq!['-']);
        }
        out
    } else {
        decimal_string(i as u64)
    }
}

/// `head + middle + tail` as an owned string.
pub fn framed(head: &str, middle: &str, tail: &str) -> (r: String)
    ensures
        r@ == head@ + middle@ + tail@,
{
    let mut out = String::from_str(head);
    out.append(middle);
    out.append(tail);
    out
}

/// `head + tail` as an owned string.
pub fn joined(head: &str, tail: &str) -> (r: String)
    ensures
        r@ == head@ + tail@,
{
    let mut out = String::from_str(head);
    out.append(tail);
    out
}

/// Decimal notation is never empty and holds digits only.
pub proof fn lemma_decimal_digits(n: nat)
    ensures
        decimal(n).len() > 0,
        all_digits(decimal(n)),
    decreases n,
{
    if n >= 10 {
        lemma_decimal_digits(n / 10);
    }
}

/// Reading digits goes on behind a text where reading the text left off.
pub proof fn lemma_read_digits_append(head: Seq<char>, tail: Seq<char>, so_far: nat, limit: nat)
    ensures
        read_digits(head + tail, so_far, limit) == match read_digits(head, so_far, limit) {
            Ok(value) => read_digits(tail, value, limit),
            Err(e) => Err(e),
        },
    decreases head.len(),
{
    if head.len() == 0 {
        assert(head + tail =~= tail);
    } else {
        let whole = head + tail;
        assert(whole[0] == head[0]);
        assert(whole.drop_first() =~= head.drop_first() + tail);
        if is_digit(head[0]) && so_far * 10 + digit_value(head[0]) <= limit {
            lemma_read_digits_append(
                head.drop_first(),
                tail,
                so_far * 10 + digit_value(head[0]),
                limit,
            );
        }
    }
}

/// A number that is written in decimal notation is read back as itself.
pub proof fn lemma_decimal_is_read_back(n: nat, limit: nat)
    requires
        n <= limit,
    ensures
        parse_number(decimal(n), limit) == Ok::<nat, NumberError>(n),
    decreases n,
{
    lemma_decimal_digits(n);
    let text = decimal(n);
    assert(is_digit(text[0]));
    if n < 10 {
        assert(text[0] == digit_char(n));
        assert(digit_value(digit_char(n)) == n);
        assert(text.drop_first() =~= Seq::empty());
        assert(read_digits(text.drop_first(), n, limit) == Ok::<nat, NumberError>(n));
        assert(read_digits(text, 0, limit) == Ok::<nat, NumberError>(n));
    } else {
        let head = decimal(n / 10);
        let last = digit_char(n % 10);
        let one = seq![last];
        lemma_decimal_is_read_back(n / 10, limit);
        lemma_decimal_digits(n / 10);
        assert(is_digit(head[0]));
        assert(text =~= head + one);
        lemma_read_digits_append(head, one, 0, limit);
        assert(one[0] == last);
        assert(is_digit(last));
        assert(digit_value(last) == n % 10);
        assert((n / 10) * 10 + n % 10 == n);
        assert(one.drop_first() =~= Seq::empty());
        assert(read_digits(one.drop_first(), n, limit) == Ok::<nat, NumberError>(n));
        assert(read_digits(one, n / 10, limit) == Ok::<nat, NumberError>(n));
        assert(read_digits(head, 0, limit) == Ok::<nat, NumberError>(n / 10));
    }
}

/// Reads a decimal number that must not exceed `limit`.
pub fn parse_limited(text: &str, limit: u64) -> (r: Result<u64, NumberError>)
    ensures
        match r {
            Ok(n) => n <= limit && parse_number(text@, limit as nat) == Ok::<nat, NumberError>(
                n as nat,
            ),
            Err(e) => parse_number(text@, limit as nat) == Err::<nat, NumberError>(e),
        },
{
    let chars = chars_of(text);
    if chars.len() == 0 {
        return Err(NumberError::Empty);
    }
    if chars.len() == 1 && (chars[0] == '+' || chars[0] == '-') {
        return Err(NumberError::InvalidDigit);
    }
    let first: usize = if chars[0] == '+' {
        1
    } else {
        0
    };
    let ghost digits = if chars@[0] == '+' {
        chars@.drop_first()
    } else {
        chars@
    };
    assert(digits =~= chars@.subrange(first as int, chars.len() as int));
    let mut i: usize = first;
    let mut value: u64 = 0;
    while i < chars.len()
        invariant
            first <= i <= chars.len(),
            value <= limit,
            chars@ == text@,
            parse_number(text@, limit as nat) == read_digits(digits, 0, limit as nat),
            read_digits(digits, 0, limit as nat) == read_digits(
                chars@.subrange(i as int, chars.len() as int),
                value as nat,
                limit as nat,
            ),
        decreases chars.len() - i,
    {
        let c = chars[i];
        let ghost rest = chars@.subrange(i as int, chars.len() as int);
        assert(rest[0] == c);
        assert(rest.drop_first() =~= chars@.subrange(i + 1, chars.len() as int));
        if !char_is_digit(c) {
            assert(read_digits(rest, value as nat, limit as nat) == Err::<nat, NumberError>(
                NumberError::InvalidDigit,
            ));
            return Err(NumberError::InvalidDigit);
        }
        let d: u64 = (c as u32 - '0' as u32) as u64;
        assert(d == digit_value(c));
        if d > limit || value > (limit - d) / 10 {
            assert(value * 10 + d > limit) by (nonlinear_arith)
                requires
                    d > limit || value > (limit - d) / 10,
            ;
            assert(read_digits(rest, value as nat, limit as nat) == Err::<nat, NumberError>(
                NumberError::Overflow,
            ));
            return Err(NumberError::Overflow);
        }
        assert(value * 10 + d <= limit) by (nonlinear_arith)
            requires
                value <= (limit - d) / 10,
                d <= limit,
        ;
        assert(read_digits(rest, value as nat, limit as nat) == read_digits(
            rest.drop_first(),
            (value * 10 + d) as nat,
            limit as nat,
        ));
        value = value * 10 + d;
        i += 1;
    }
    assert(chars@.subrange(i as int, chars.len() as int).len() == 0);
    Ok(value)
}

/// Reads a decimal `u64`.
pub fn parse_u64(text: &str) -> (r: Result<u64, NumberError>)
    ensures
        match r {
            Ok(n) => parse_number(text@, u64::MAX as nat) == Ok::<nat, NumberError>(n as nat),
            Err(e) => parse_number(text@, u64::MAX as nat) == Err::<nat, NumberError>(e),
        },
{
    parse_limited(text, u64::MAX)
}

/// Reads a decimal `u32`.
pub fn parse_u32(text: &str) -> (r: Result<u32, NumberError>)
    ensures
        match r {
            Ok(n) => parse_number(text@, u32::MAX as nat) == Ok::<nat, NumberError>(n as nat),
            Err(e) => parse_number(text@, u32::MAX as nat) == Err::<nat, NumberError>(e),
        },
{
    match parse_limited(text, 0xFFFF_FFFF) {
        Ok(n) => Ok(n as u32),
        Err(e) => Err(e),
    }
}

/// Whether `chars` holds `prefix` from position `at` on.
fn matches_at(chars: &Vec<char>, at: usize, prefix: &Vec<char>) -> (r: bool)
    requires
        at <= chars.len(),
    ensures
        r == occurs_at(chars@, at as int, prefix@),
{
    if prefix.len() > chars.len() - at {
        return false;
    }
    let mut k: usize = 0;
    while k < prefix.len()
        invariant
            k <= prefix.len(),
            at + prefix.len() <= chars.len(),
            forall|j: int| 0 <= j < k ==> chars@[at + j] == prefix@[j],
        decreases prefix.len() - k,
    {
        if chars[at + k] != prefix[k] {
            assert(chars@.subrange(at as int, at + prefix.len())[k as int] != prefix@[k as int]);
            return false;
        }
        k += 1;
    }
    assert(chars@.subrange(at as int, at + prefix.len()) =~= prefix@);
    true
}

/// Whether some line of `text` begins with `prefix`.
pub fn any_line_begins_with(text: &str, prefix: &str) -> (r: bool)
    ensures
        r == line_begins_with(text@, prefix@),
{
    let chars = chars_of(text);
    let wanted = chars_of(prefix);
    let mut k: usize = 0;
    while k < wanted.len()
        invariant
            k <= wanted.len(),
            wanted@ == prefix@,
            forall|j: int| 0 <= j < k ==> prefix@[j] != '\n',
        decreases wanted.len() - k,
    {
        if wanted[k] == '\n' {
            return false;
        }
        k += 1;
    }
    assert(!prefix@.contains('\n'));
    let mut i: usize = 0;
    while i < chars.len()
        invariant
            i <= chars.len(),
            chars@ == text@,
            wanted@ == prefix@,
            !prefix@.contains('\n'),
            forall|j: int| 0 <= j < i ==> !(is_line_start(text@, j) && occurs_at(text@, j, prefix@)),
        decreases chars.len() - i,
    {
        if (i == 0 || chars[i - 1] == '\n') && matches_at(&chars, i, &wanted) {
            assert(is_line_start(text@, i as int) && occurs_at(text@, i as int, prefix@));
            return true;
        }
        i += 1;
    }
    false
}

/// The characters of `text` from position `from` up to `to`.
pub fn slice_of(text: &str, from: usize, to: usize) -> (r: String)
    requires
        from <= to <= text@.len(),
    ensures
        r@ == text@.subrange(from as int, to as int),
{
    String::from_str(text.substring_char(from, to))
}

/// Whether `a` stands before `b`, or equals it, in the order of
/// dictionaries.
pub fn text_in_order(a: &str, b: &str) -> (r: bool)
    ensures
        r == in_order(a@, b@),
{
    let x = chars_of(a);
    let y = chars_of(b);
    let mut i: usize = 0;
    assert(x@.skip(0) =~= x@ && y@.skip(0) =~= y@);
    while i < x.len() && i < y.len()
        invariant
            i <= x.len(),
            i <= y.len(),
            x@ == a@,
            y@ == b@,
            in_order(a@, b@) == in_order(x@.skip(i as int), y@.skip(i as int)),
        decreases x.len() - i,
    {
        proof {
            assert(x@.skip(i as int).drop_first() =~= x@.skip(i + 1));
            assert(y@.skip(i as int).drop_first() =~= y@.skip(i + 1));
        }
        if x[i] != y[i] {
            return x[i] < y[i];
        }
        i += 1;
    }
    i == x.len()
}

/// Where the line that begins at `from` ends.
fn line_end(chars: &Vec<char>, from: usize) -> (r: usize)
    requires
        from <= chars.len(),
    ensures
        from <= r <= chars.len(),
        r - from == first_break(chars@.skip(from as int)),
{
    let mut end: usize = from;
    while end < chars.len() && chars[end] != '\n'
        invariant
            from <= end <= chars.len(),
            first_break(chars@.skip(from as int)) == (end - from) + first_break(
                chars@.skip(end as int),
            ),
        decreases chars.len() - end,
    {
        assert(chars@.skip(end as int).drop_first() =~= chars@.skip(end + 1));
        end += 1;
    }
    end
}

/// The lines of `text`.
pub fn split_lines(text: &str) -> (r: Vec<String>)
    ensures
        views(r@) == lines(text@),
{
    let chars = chars_of(text);
    let mut out: Vec<String> = Vec::new();
    let mut start: usize = 0;
    assert(chars@.skip(0) =~= chars@);
    assert(views(out@) =~= Seq::empty());
    while start < chars.len()
        invariant
            start <= chars.len(),
            chars@ == text@,
            lines(text@) == views(out@) + lines(chars@.skip(start as int)),
        decreases chars.len() - start,
    {
        let end = line_end(&chars, start);
        let ghost rest = chars@.skip(start as int);
        let ghost before = out@;
        let stop: usize = if start < end && end < chars.len() && chars[end - 1] == '\r' {
            end - 1
        } else {
            end
        };
        out.push(slice_of(text, start, stop));
        proof {
            assert(rest.take(stop - start) =~= text@.subrange(start as int, stop as int));
            if end < chars.len() {
                assert(line_before(rest, end - start) == rest.take(stop - start));
                assert(views(out@) =~= views(before).push(rest.take(stop - start)));
                assert(rest.skip(end - start + 1) =~= chars@.skip(end + 1));
            } else {
                assert(rest.take(end - start) =~= rest);
                assert(views(out@) =~= views(before).push(rest));
                assert(chars@.skip(chars.len() as int) =~= Seq::empty());
            }
        }
        if end < chars.len() {
            start = end + 1;
        } else {
            start = end;
        }
    }
    assert(views(out@) + Seq::<Seq<char>>::empty() =~= views(out@));
    out
}

/// Where the white space that begins at `from` ends.
fn skip_whitespace(chars: &Vec<char>, from: usize) -> (r: usize)
    requires
        from <= chars.len(),
    ensures
        from <= r <= chars.len(),
        trim_start(chars@.skip(from as int)) == chars@.skip(r as int),
{
    let mut at: usize = from;
    while at < chars.len() && char_is_whitespace(chars[at])
        invariant
            from <= at <= chars.len(),
            trim_start(chars@.skip(from as int)) == trim_start(chars@.skip(at as int)),
        decreases chars.len() - at,
    {
        assert(chars@.skip(at as int).drop_first() =~= chars@.skip(at + 1));
        at += 1;
    }
    at
}

/// Where the word that begins at `from` ends.
fn skip_word(chars: &Vec<char>, from: usize) -> (r: usize)
    requires
        from <= chars.len(),
    ensures
        from <= r <= chars.len(),
        r - from == word_end(chars@.skip(from as int)),
{
    let mut at: usize = from;
    while at < chars.len() && !char_is_whitespace(chars[at])
        invariant
            from <= at <= chars.len(),
            word_end(chars@.skip(from as int)) == (at - from) + word_end(chars@.skip(at as int)),
        decreases chars.len() - at,
    {
        assert(chars@.skip(at as int).drop_first() =~= chars@.skip(at + 1));
        at += 1;
    }
    at
}

/// The second of the words of `text`, if it has two.
pub fn second_word_of(text: &str) -> (r: Option<String>)
    ensures
        match r {
            Some(word) => second_word(text@) == Some(word@),
            None => second_word(text@) is None,
        },
{
    let chars = chars_of(text);
    assert(chars@.skip(0) =~= chars@);
    let first_start = skip_whitespace(&chars, 0);
    let first_end = skip_word(&chars, first_start);
    let ghost rest = chars@.skip(first_start as int);
    assert(rest.skip(first_end - first_start) =~= chars@.skip(first_end as int));
    let second_start = skip_whitespace(&chars, first_end);
    let second_end = skip_word(&chars, second_start);
    proof {
        let tail = chars@.skip(second_start as int);
        assert(tail.take(second_end - second_start) =~= text@.subrange(
            second_start as int,
            second_end as int,
        ));
    }
    if second_end > second_start {
        Some(slice_of(text, second_start, second_end))
    } else {
        None
    }
}

/// The path of `name` below the directory `base`.
pub fn join_path(base: &str, name: &str) -> (r: String)
    ensures
        r@ == path_join(base@, name@),
{
    let b = chars_of(base);
    let n = chars_of(name);
    if n.len() > 0 && n[0] == '/' {
        String::from_str(name)
    } else if b.len() == 0 || b[b.len() - 1] == '/' {
        joined(base, name)
    } else {
        framed(base, "/", name)
    }
}

/// `String::push` of the standard library. Trusted: it appends the
/// character to the end of the string.
pub assume_specification[ String::push ](s: &mut String, c: char)
    ensures
        final(s)@ == old(s)@.push(c),
;

/// The string that holds `chars` in order.
pub fn string_of(chars: &Vec<char>) -> (r: String)
    ensures
        r@ == chars@,
{
    let mut out = String::new();
    let mut i: usize = 0;
    assert(chars@.take(0) =~= Seq::empty());
    while i < chars.len()
        invariant
            i <= chars.len(),
            out@ == chars@.take(i as int),
        decreases chars.len() - i,
    {
        out.push(chars[i]);
        assert(chars@.take(i + 1) =~= chars@.take(i as int).push(chars@[i as int]));
        i += 1;
    }
    assert(chars@.take(chars.len() as int) =~= chars@);
    out
}

/// A copy of `text` without leading and trailing white space.
pub fn trimmed(text: &str) -> (r: String)
    ensures
        r@ == trim(text@),
{
    let chars = chars_of(text);
    let mut start: usize = 0;
    assert(chars@.subrange(0, chars.len() as int) =~= chars@);
    while start < chars.len() && char_is_whitespace(chars[start])
        invariant
            start <= chars.len(),
            trim_start(chars@) == trim_start(chars@.subrange(start as int, chars.len() as int)),
        decreases chars.len() - start,
    {
        proof {
            let rest = chars@.subrange(start as int, chars.len() as int);
            assert(rest.drop_first() =~= chars@.subrange(start + 1, chars.len() as int));
        }
        start += 1;
    }
    let mut end: usize = chars.len();
    while end > start && char_is_whitespace(chars[end - 1])
        invariant
            start <= end <= chars.len(),
            trim_end(chars@.subrange(start as int, chars.len() as int)) == trim_end(
                chars@.subrange(start as int, end as int),
            ),
        decreases end,
    {
        proof {
            let rest = chars@.subrange(start as int, end as int);
            assert(rest.drop_last() =~= chars@.subrange(start as int, end - 1));
        }
        end -= 1;
    }
    proof {
        let kept = chars@.subrange(start as int, chars.len() as int);
        assert(trim_start(chars@) == kept);
        assert(trim_end(chars@.subrange(start as int, end as int)) == chars@.subrange(
            start as int,
            end as int,
        ));
    }
    String::from_str(text.substring_char(start, end))
}

} // verus!
