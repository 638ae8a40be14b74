//! Small verified helpers over text, stated over the character sequence
//! that a string denotes.

use vstd::prelude::*;
use vstd::string::*;

verus! {

/// Whether two string slices denote the same characters.
pub fn same_text(a: &str, b: &str) -> (same: bool)
    ensures
        same == (a@ == b@),
{
    let left = a.to_owned();
    let right = b.to_owned();
    left == right
}

/// The characters of a string, one by one.
pub fn chars_of(s: &str) -> (chars: Vec<char>)
    ensures
        chars@ == s@,
{
    let mut chars: Vec<char> = Vec::new();
    for c in it: s.chars()
        invariant
            it.seq() == s@,
            chars@ == s@.take(it.index() as int),
    {
        chars.push(c);
        proof {
            let at = it.index() as int;
            assert(s@.take(at + 1) =~= s@.take(at).push(s@[at]));
        }
    }
    proof {
        assert(s@.take(s@.len() as int) =~= s@);
    }
    chars
}

/// The white space of Unicode: what `char::is_whitespace` accepts.
pub open spec fn is_whitespace(c: char) -> bool {
    let code = c as u32;
    ||| 0x09 <= code <= 0x0D
    ||| code == 0x20
    ||| code == 0x85
    ||| code == 0xA0
    ||| code == 0x1680
    ||| 0x2000 <= code <= 0x200A
    ||| code == 0x2028
    ||| code == 0x2029
    ||| code == 0x202F
    ||| code == 0x205F
    ||| code == 0x3000
}

/// A class of characters to scan for.
#[derive(Clone, Copy, Debug)]
pub enum CharClass {
    /// White space.
    Whitespace,
    /// One given character.
    Only(char),
    /// Every character but one.
    AllBut(char),
}

impl CharClass {
    /// Whether a character belongs to the class.
    pub open spec fn holds(self, c: char) -> bool {
        match self {
            CharClass::Whitespace => is_whitespace(c),
            CharClass::Only(one) => c == one,
            CharClass::AllBut(one) => c != one,
        }
    }

    /// Whether a character belongs to the class.
    pub fn contains(self, c: char) -> (b: bool)
        ensures
            b == self.holds(c),
    {
        match self {
            CharClass::Whitespace => {
                let code = c as u32;
                (0x09 <= code && code <= 0x0D) || code == 0x20 || code == 0x85 || code == 0xA0
                    || code == 0x1680 || (0x2000 <= code && code <= 0x200A) || code == 0x2028
                    || code == 0x2029 || code == 0x202F || code == 0x205F || code == 0x3000
            },
            CharClass::Only(one) => c == one,
            CharClass::AllBut(one) => c != one,
        }
    }
}

/// How many characters at the front of a sequence belong to a class.
pub open spec fn leading(s: Seq<char>, class: CharClass) -> int
    decreases s.len(),
{
    if s.len() > 0 && class.holds(s[0]) {
        1 + leading(s.drop_first(), class)
    } else {
        0
    }
}

/// How many characters at the back of a sequence belong to a class.
pub open spec fn trailing(s: Seq<char>, class: CharClass) -> int
    decreases s.len(),
{
    if s.len() > 0 && class.holds(s.last()) {
        1 + trailing(s.drop_last(), class)
    } else {
        0
    }
}

/// `leading` is the length of the longest prefix inside the class.
pub proof fn lemma_leading(s: Seq<char>, class: CharClass, k: int)
    requires
        0 <= k <= s.len(),
        forall|j: int| 0 <= j < k ==> class.holds(#[trigger] s[j]),
        k < s.len() ==> !class.holds(s[k]),
    ensures
        leading(s, class) == k,
    decreases k,
{
    if k > 0 {
        let rest = s.drop_first();
        assert forall|j: int| 0 <= j < k - 1 implies class.holds(#[trigger] rest[j]) by {
            assert(rest[j] == s[j + 1]);
        }
        lemma_leading(rest, class, k - 1);
    }
}

/// `trailing` is the length of the longest suffix inside the class.
pub proof fn lemma_trailing(s: Seq<char>, class: CharClass, k: int)
    requires
        0 <= k <= s.len(),
        forall|j: int| s.len() - k <= j < s.len() ==> class.holds(#[trigger] s[j]),
        k < s.len() ==> !class.holds(s[s.len() - k - 1]),
    ensures
        trailing(s, class) == k,
    decreases k,
{
    if k > 0 {
        let rest = s.drop_last();
        assert forall|j: int| rest.len() - (k - 1) <= j < rest.len() implies class.holds(
            #[trigger] rest[j],
        ) by {
            assert(rest[j] == s[j]);
        }
        lemma_trailing(rest, class, k - 1);
    }
}

/// How many characters at the front of `chars`, from `from` on, belong to
/// the class.
pub fn count_leading(chars: &Vec<char>, from: usize, class: CharClass) -> (n: usize)
    requires
        from <= chars.len(),
    ensures
        n == leading(chars@.skip(from as int), class),
        from + n <= chars.len(),
{
    let mut at: usize = from;
    while at < chars.len() && class.contains(chars[at])
        invariant
            from <= at <= chars.len(),
            forall|j: int| from <= j < at ==> class.holds(#[trigger] chars@[j]),
        decreases chars.len() - at,
    {
        at = at + 1;
    }
    proof {
        let rest = chars@.skip(from as int);
        assert forall|j: int| 0 <= j < at - from implies class.holds(#[trigger] rest[j]) by {
            assert(rest[j] == chars@[from + j]);
        }
        lemma_leading(rest, class, at - from);
    }
    at - from
}

/// How many characters at the back of `chars`, before `to`, belong to the
/// class.
pub fn count_trailing(chars: &Vec<char>, to: usize, class: CharClass) -> (n: usize)
    requires
        to <= chars.len(),
    ensures
        n == trailing(chars@.take(to as int), class),
        n <= to,
{
    let mut at: usize = to;
    while at > 0 && class.contains(chars[at - 1])
        invariant
            at <= to <= chars.len(),
            forall|j: int| at <= j < to ==> class.holds(#[trigger] chars@[j]),
        decreases at,
    {
        at = at - 1;
    }
    proof {
        let head = chars@.take(to as int);
        assert forall|j: int| head.len() - (to - at) <= j < head.len() implies class.holds(
            #[trigger] head[j],
        ) by {
            assert(head[j] == chars@[j]);
        }
        lemma_trailing(head, class, to - at);
    }
    to - at
}

/// The string made of the characters of `chars` from `from` up to `to`.
pub fn text_between(chars: &Vec<char>, from: usize, to: usize) -> (text: String)
    requires
        from <= to <= chars.len(),
    ensures
        text@ == chars@.subrange(from as int, to as int),
{
    let mut text = String::new();
    let mut at: usize = from;
    while at < to
        invariant
            from <= at <= to <= chars.len(),
            text@ == chars@.subrange(from as int, at as int),
        decreases to - at,
    {
        push_char(&mut text, chars[at]);
        proof {
            assert(chars@.subrange(from as int, at + 1) =~= chars@.subrange(
                from as int,
                at as int,
            ).push(chars@[at as int]));
        }
        at = at + 1;
    }
    text
}

/// A sequence without the white space at its two ends.
pub open spec fn trimmed(s: Seq<char>) -> Seq<char> {
    let rest = s.skip(leading(s, CharClass::Whitespace));
    rest.take(rest.len() - trailing(rest, CharClass::Whitespace))
}

/// A string without the white space at its two ends, as `str::trim` gives it.
pub fn trim(s: &str) -> (text: String)
    ensures
        text@ == trimmed(s@),
{
    let chars = chars_of(s);
    let start = count_leading(&chars, 0, CharClass::Whitespace);
    proof {
        assert(chars@.skip(0) =~= chars@);
    }
    let rest = text_between(&chars, start, chars.len());
    let rest_chars = chars_of(rest.as_str());
    proof {
        assert(chars@.subrange(start as int, chars@.len() as int) =~= chars@.skip(start as int));
        assert(rest_chars@.take(rest_chars@.len() as int) =~= rest_chars@);
    }
    let cut = count_trailing(&rest_chars, rest_chars.len(), CharClass::Whitespace);
    let text = text_between(&rest_chars, 0, rest_chars.len() - cut);
    proof {
        assert(rest_chars@.subrange(0, rest_chars@.len() - cut) =~= rest_chars@.take(
            rest_chars@.len() - cut,
        ));
    }
    text
}

/// The part of a sequence before the first `stop`; the whole sequence when
/// it holds none.
pub open spec fn before_first(s: Seq<char>, stop: char) -> Seq<char> {
    s.take(leading(s, CharClass::AllBut(stop)))
}

/// The part of a string before the first `stop`, as the first item of
/// `str::split` gives it.
pub fn text_before(s: &str, stop: char) -> (text: String)
    ensures
        text@ == before_first(s@, stop),
{
    let chars = chars_of(s);
    let end = count_leading(&chars, 0, CharClass::AllBut(stop));
    proof {
        assert(chars@.skip(0) =~= chars@);
        assert(chars@.subrange(0, end as int) =~= chars@.take(end as int));
    }
    text_between(&chars, 0, end)
}

/// A sequence without the run of `lead` at its front.
pub open spec fn without_leading(s: Seq<char>, lead: char) -> Seq<char> {
    s.skip(leading(s, CharClass::Only(lead)))
}

/// A string without the run of `lead` at its front, as
/// `str::trim_start_matches` gives it for one character.
pub fn strip_leading(s: &str, lead: char) -> (text: String)
    ensures
        text@ == without_leading(s@, lead),
{
    let chars = chars_of(s);
    let start = count_leading(&chars, 0, CharClass::Only(lead));
    proof {
        assert(chars@.skip(0) =~= chars@);
        assert(chars@.subrange(start as int, chars@.len() as int) =~= chars@.skip(start as int));
    }
    text_between(&chars, start, chars.len())
}

/// Whether a string begins with another, as `str::starts_with` says.
pub fn has_prefix(s: &str, prefix: &str) -> (b: bool)
    ensures
        b == prefix@.is_prefix_of(s@),
{
    let chars = chars_of(s);
    let wanted = chars_of(prefix);
    if wanted.len() > chars.len() {
        return false;
    }
    let mut at: usize = 0;
    while at < wanted.len()
        invariant
            at <= wanted.len() <= chars.len(),
            chars@ == s@,
            wanted@ == prefix@,
            forall|j: int| 0 <= j < at ==> chars@[j] == wanted@[j],
        decreases wanted.len() - at,
    {
        if chars[at] != wanted[at] {
            proof {
                assert(s@.subrange(0, prefix@.len() as int)[at as int] == chars@[at as int]);
            }
            return false;
        }
        at = at + 1;
    }
    proof {
        assert(prefix@ =~= s@.subrange(0, prefix@.len() as int));
    }
    true
}

/// The pieces of a sequence between the occurrences of a separator. A
/// sequence without the separator is one piece, the empty one too.
pub open spec fn pieces(s: Seq<char>, sep: char) -> Seq<Seq<char>>
    decreases s.len(),
{
    let k = leading(s, CharClass::AllBut(sep));
    if 0 <= k < s.len() {
        seq![s.take(k)] + pieces(s.skip(k + 1), sep)
    } else {
        seq![s]
    }
}

/// What a sequence of strings says.
pub open spec fn texts(strings: Seq<String>) -> Seq<Seq<char>> {
    strings.map_values(|t: String| t@)
}

/// The pieces of a string between the occurrences of a separator, as
/// `str::split` gives them for one character.
pub fn split(s: &str, sep: char) -> (parts: Vec<String>)
    ensures
        texts(parts@) == pieces(s@, sep),
{
    let chars = chars_of(s);
    let mut parts: Vec<String> = Vec::new();
    let mut start: usize = 0;
    proof {
        assert(chars@.skip(0) =~= chars@);
        assert(texts(parts@) =~= Seq::empty());
    }
    loop
        invariant
            start <= chars.len(),
            chars@ == s@,
            pieces(s@, sep) == texts(parts@) + pieces(chars@.skip(start as int), sep),
        decreases chars.len() - start,
    {
        let run = count_leading(&chars, start, CharClass::AllBut(sep));
        let end = start + run;
        let piece = text_between(&chars, start, end);
        let ghost rest = chars@.skip(start as int);
        let ghost before = parts@;
        parts.push(piece);
        proof {
            assert(rest.take(run as int) =~= chars@.subrange(start as int, end as int));
            assert(texts(before.push(piece)) =~= texts(before).push(piece@));
        }
        if end == chars.len() {
            proof {
                assert(rest.take(run as int) =~= rest);
                assert(pieces(rest, sep) =~= seq![rest]);
                assert(texts(parts@) =~= pieces(s@, sep));
            }
            return parts;
        }
        proof {
            assert(rest.skip(run + 1) =~= chars@.skip(end + 1));
            assert(pieces(rest, sep) =~= seq![rest.take(run as int)] + pieces(
                rest.skip(run + 1),
                sep,
            ));
            assert(texts(parts@) + pieces(chars@.skip(end + 1), sep) =~= pieces(s@, sep));
        }
        start = end + 1;
    }
}

/// Whether a character is one of the ten decimal digits.
pub open spec fn is_digit(c: char) -> bool {
    '0' <= c <= '9'
}

/// How many decimal digits a sequence holds.
pub open spec fn digit_count(s: Seq<char>) -> nat
    decreases s.len(),
{
    if s.len() == 0 {
        0
    } else {
        digit_count(s.drop_last()) + if is_digit(s.last()) {
            1nat
        } else {
            0nat
        }
    }
}

/// How many decimal digits a string holds.
pub fn count_digits(s: &str) -> (n: usize)
    ensures
        n == digit_count(s@),
{
    let chars = chars_of(s);
    let mut n: usize = 0;
    let mut at: usize = 0;
    while at < chars.len()
        invariant
            at <= chars.len(),
            n <= at,
            n == digit_count(chars@.take(at as int)),
        decreases chars.len() - at,
    {
        proof {
            assert(chars@.take(at + 1).drop_last() =~= chars@.take(at as int));
        }
        let c = chars[at];
        if '0' <= c && c <= '9' {
            n = n + 1;
        }
        at = at + 1;
    }
    proof {
        assert(chars@.take(chars@.len() as int) =~= chars@);
    }
    n
}

/// The character of a decimal digit.
pub open spec fn digit_char(d: nat) -> char {
    if d == 0 {
        '0'
    } else if d == 1 {
        '1'
    } else if d == 2 {
        '2'
    } else if d == 3 {
        '3'
    } else if d == 4 {
        '4'
    } else if d == 5 {
        '5'
    } else if d == 6 {
        '6'
    } else if d == 7 {
        '7'
    } else if d == 8 {
        '8'
    } else {
        '9'
    }
}

/// A number in decimal: its digits, most significant first, with no
/// leading zero but for zero itself.
pub open spec fn decimal(n: nat) -> Seq<char>
    decreases n,
{
    if n < 10 {
        seq![digit_char(n)]
    } else {
        decimal(n / 10).push(digit_char(n % 10))
    }
}

fn digit(d: u64) -> (c: char)
    requires
        d < 10,
    ensures
        c == digit_char(d as nat),
{
    match d {
        0 => '0',
        1 => '1',
        2 => '2',
        3 => '3',
        4 => '4',
        5 => '5',
        6 => '6',
        7 => '7',
        8 => '8',
        _ => '9',
    }
}

/// Writes a number in decimal, as `to_string` does.
pub fn to_decimal(n: u64) -> (text: String)
    ensures
        text@ == decimal(n as nat),
    decreases n,
{
    if n < 10 {
        let mut text = String::new();
        push_char(&mut text, digit(n));
        proof {
            assert(text@ =~= seq![digit_char(n as nat)]);
        }
        text
    } else {
        let mut text = to_decimal(n / 10);
        push_char(&mut text, digit(n % 10));
        text
    }
}

/// The value of a decimal digit.
pub open spec fn digit_value(c: char) -> nat {
    (c as u32 - '0' as u32) as nat
}

/// The number that a sequence of decimal digits writes.
pub open spec fn decimal_value(s: Seq<char>) -> nat
    decreases s.len(),
{
    if s.len() == 0 {
        0
    } else {
        10 * decimal_value(s.drop_last()) + digit_value(s.last())
    }
}

/// Whether a sequence holds decimal digits only.
pub open spec fn all_digits(s: Seq<char>) -> bool {
    forall|i: int| 0 <= i < s.len() ==> is_digit(#[trigger] s[i])
}

/// The unsigned number that a text writes, if it writes one no greater
/// than `max`: an optional `+`, then at least one decimal digit and
/// nothing else. This is what `str::parse` accepts for an unsigned
/// integer type whose greatest value is `max`.
pub open spec fn unsigned_of(s: Seq<char>, max: nat) -> Option<nat> {
    let body = if s.len() > 0 && s[0] == '+' {
        s.drop_first()
    } else {
        s
    };
    if body.len() > 0 && all_digits(body) && decimal_value(body) <= max {
        Some(decimal_value(body))
    } else {
        None
    }
}

/// Reading more digits never makes the number smaller.
pub proof fn lemma_value_grows(s: Seq<char>, k: int)
    requires
        0 <= k <= s.len(),
    ensures
        decimal_value(s.take(k)) <= decimal_value(s),
    decreases s.len() - k,
{
    if k < s.len() {
        lemma_value_grows(s, k + 1);
        assert(s.take(k + 1).drop_last() =~= s.take(k));
    } else {
        assert(s.take(k) =~= s);
    }
}

/// Reads an unsigned decimal number no greater than `max`.
pub fn parse_unsigned(s: &str, max: u64) -> (number: Option<u64>)
    ensures
        match number {
            Some(n) => unsigned_of(s@, max as nat) == Some(n as nat),
            None => unsigned_of(s@, max as nat) is None,
        },
{
    let chars = chars_of(s);
    let start: usize = if chars.len() > 0 && chars[0] == '+' {
        1
    } else {
        0
    };
    let ghost body = chars@.skip(start as int);
    let ghost wanted = if s@.len() > 0 && s@[0] == '+' {
        s@.drop_first()
    } else {
        s@
    };
    proof {
        assert(chars@.skip(0) =~= chars@);
        if chars@.len() > 0 {
            assert(chars@.skip(1) =~= chars@.drop_first());
        }
        assert(body == wanted);
        assert(body.take(0) =~= Seq::empty());
    }
    if start == chars.len() {
        return None;
    }
    let mut value: u64 = 0;
    let mut at: usize = start;
    while at < chars.len()
        invariant
            start <= at <= chars.len(),
            body == chars@.skip(start as int),
            body == wanted,
            wanted == if s@.len() > 0 && s@[0] == '+' {
                s@.drop_first()
            } else {
                s@
            },
            value <= max,
            value == decimal_value(body.take(at - start)),
            all_digits(body.take(at - start)),
        decreases chars.len() - at,
    {
        let c = chars[at];
        proof {
            assert(body[at - start] == c);
            assert(body.take(at - start + 1).drop_last() =~= body.take(at - start));
            assert(body.take(at - start + 1).last() == c);
        }
        if !('0' <= c && c <= '9') {
            return None;
        }
        let d: u64 = (c as u32 - '0' as u32) as u64;
        let wide: u128 = value as u128 * 10 + d as u128;
        if wide > max as u128 {
            proof {
                lemma_value_grows(body, at - start + 1);
            }
            return None;
        }
        value = wide as u64;
        at = at + 1;
    }
    proof {
        assert(body.take(body.len() as int) =~= body);
    }
    Some(value)
}

/// `String::push`: the string grows by the one character at its end.
#[verifier::external_body]
fn push_char(text: &mut String, c: char)
    ensures
        final(text)@ == old(text)@.push(c),
{
    text.push(c)
}

} // verus!
