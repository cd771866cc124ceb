//! Searching and comparing text.

use vstd::prelude::*;
use vstd::string::StringSliceAdditionalSpecFns;
use vstd::utf8::{encode_utf8, encode_utf8_decode_utf8};

verus! {

/// A character with Unicode's `White_Space` property.
pub open spec fn white_space(c: char) -> bool {
    ||| '\u{9}' <= c <= '\u{d}'
    ||| c == ' '
    ||| c == '\u{85}'
    ||| c == '\u{a0}'
    ||| c == '\u{1680}'
    ||| '\u{2000}' <= c <= '\u{200a}'
    ||| c == '\u{2028}'
    ||| c == '\u{2029}'
    ||| c == '\u{202f}'
    ||| c == '\u{205f}'
    ||| c == '\u{3000}'
}

/// Nothing is left of `s` once the white space around it is taken off.
pub open spec fn blank(s: Seq<char>) -> bool {
    forall|i: int| 0 <= i < s.len() ==> white_space(#[trigger] s[i])
}

/// The same letter in lower case, where it is an ASCII letter.
pub open spec fn lower(c: char) -> char {
    if 'A' <= c <= 'Z' {
        ((c as u32 + 32) as u32) as char
    } else {
        c
    }
}

/// `s` with its ASCII letters in lower case.
pub open spec fn lowered(s: Seq<char>) -> Seq<char> {
    Seq::new(s.len(), |i: int| lower(s[i]))
}

/// `part` stands in `s` at position `at`.
pub open spec fn occurs_at(s: Seq<char>, part: Seq<char>, at: int) -> bool {
    0 <= at && at + part.len() <= s.len() && s.subrange(at, at + part.len()) == part
}

/// `part` stands somewhere in `s`.
pub open spec fn occurs(s: Seq<char>, part: Seq<char>) -> bool {
    exists|at: int| occurs_at(s, part, at)
}

/// The end of the run of characters from `i` on that are white space (or, where `spaces` is
/// false, that are not).
pub open spec fn run_end(s: Seq<char>, i: int, spaces: bool) -> int
    decreases s.len() - i,
{
    if i >= s.len() {
        s.len() as int
    } else if white_space(s[i]) == spaces {
        run_end(s, i + 1, spaces)
    } else {
        i
    }
}

/// The beginning of the run of white space that ends at `j`.
pub open spec fn trimmed_end(s: Seq<char>, j: int) -> int
    decreases j,
{
    if 0 < j <= s.len() && white_space(s[j - 1]) {
        trimmed_end(s, j - 1)
    } else {
        j
    }
}

/// `s` without the white space around it.
pub open spec fn trimmed(s: Seq<char>) -> Seq<char> {
    let from = run_end(s, 0, true);
    if from == s.len() {
        Seq::empty()
    } else {
        s.subrange(from, trimmed_end(s, s.len() as int))
    }
}

/// The position of the first `c` at or after `i`, or the length.
pub open spec fn position_of(s: Seq<char>, c: char, i: int) -> int
    decreases s.len() - i,
{
    if i >= s.len() {
        s.len() as int
    } else if s[i] == c {
        i
    } else {
        position_of(s, c, i + 1)
    }
}

/// A decimal digit.
pub open spec fn digit(c: char) -> bool {
    '0' <= c <= '9'
}

pub open spec fn all_digits(s: Seq<char>) -> bool {
    forall|i: int| 0 <= i < s.len() ==> digit(#[trigger] s[i])
}

/// The number that a run of digits denotes.
pub open spec fn digits_value(s: Seq<char>) -> nat
    decreases s.len(),
{
    if s.len() == 0 {
        0
    } else {
        digits_value(s.drop_last()) * 10 + (s.last() as nat - '0' as nat) as nat
    }
}

/// `s` without a plus sign at its beginning.
pub open spec fn unsigned_part(s: Seq<char>) -> Seq<char> {
    if s.len() > 0 && s[0] == '+' {
        s.skip(1)
    } else {
        s
    }
}

/// The whole number that `s` writes: digits, with an optional plus sign before them.
pub open spec fn number(s: Seq<char>) -> Option<nat> {
    let body = unsigned_part(s);
    if body.len() > 0 && all_digits(body) {
        Some(digits_value(body))
    } else {
        None
    }
}

pub fn is_white_space(c: char) -> (r: bool)
    ensures
        r == white_space(c),
{
    ('\u{9}' <= c && c <= '\u{d}') || c == ' ' || c == '\u{85}' || c == '\u{a0}' || c == '\u{1680}'
        || ('\u{2000}' <= c && c <= '\u{200a}') || c == '\u{2028}' || c == '\u{2029}' || c
        == '\u{202f}' || c == '\u{205f}' || c == '\u{3000}'
}

/// The characters of a text.
pub fn characters(s: &str) -> (r: Vec<char>)
    ensures
        r@ == s@,
{
    let mut r: Vec<char> = Vec::new();
    for c in it: s.chars()
        invariant
            r@ == it.seq().take(it.index()),
            it.seq() == s@,
    {
        r.push(c);
        assert(it.seq().take(it.index()).push(c) == it.seq().take(it.index() + 1));
    }
    assert(s@.take(s@.len() as int) == s@);
    r
}

/// Whether two texts are the same.
pub fn same_text(a: &str, b: &str) -> (r: bool)
    ensures
        r == (a@ == b@),
{
    let x: &[u8] = a.as_bytes();
    let y: &[u8] = b.as_bytes();
    proof {
        encode_utf8_decode_utf8(a@);
        encode_utf8_decode_utf8(b@);
    }
    if x.len() != y.len() {
        return false;
    }
    let mut i: usize = 0;
    while i < x.len()
        invariant
            x@.len() == y@.len(),
            x@ == a.spec_bytes(),
            y@ == b.spec_bytes(),
            i <= x@.len(),
            forall|j: int| 0 <= j < i ==> x@[j] == y@[j],
        decreases x@.len() - i,
    {
        if x[i] != y[i] {
            assert(a.spec_bytes() != b.spec_bytes());
            return false;
        }
        i += 1;
    }
    assert(x@ == y@);
    true
}

/// The length of a text in bytes.
pub fn byte_len(s: &str) -> (r: usize)
    ensures
        r == encode_utf8(s@).len(),
{
    s.as_bytes().len()
}

/// Whether a text is empty or white space alone.
pub fn is_blank(s: &str) -> (r: bool)
    ensures
        r == blank(s@),
{
    let c: Vec<char> = characters(s);
    let mut i: usize = 0;
    while i < c.len()
        invariant
            c@ == s@,
            i <= c@.len(),
            forall|j: int| 0 <= j < i ==> white_space(#[trigger] c@[j]),
        decreases c@.len() - i,
    {
        if !is_white_space(c[i]) {
            return false;
        }
        i += 1;
    }
    true
}

fn to_lower(c: char) -> (r: char)
    ensures
        r == lower(c),
{
    if 'A' <= c && c <= 'Z' {
        (c as u8 + 32) as char
    } else {
        c
    }
}

/// The characters of a text with the ASCII letters in lower case.
pub fn lower_case(s: &str) -> (r: Vec<char>)
    ensures
        r@ == lowered(s@),
{
    let c: Vec<char> = characters(s);
    let mut r: Vec<char> = Vec::new();
    let mut i: usize = 0;
    while i < c.len()
        invariant
            c@ == s@,
            i == r@.len() <= c@.len(),
            forall|j: int| 0 <= j < i ==> r@[j] == lower(c@[j]),
        decreases c@.len() - i,
    {
        r.push(to_lower(c[i]));
        i += 1;
    }
    assert(r@ == lowered(s@));
    r
}

fn stands_at(s: &[char], part: &[char], at: usize) -> (r: bool)
    requires
        at + part@.len() <= s@.len(),
    ensures
        r == occurs_at(s@, part@, at as int),
{
    let mut i: usize = 0;
    let length: usize = s.len();
    while i < part.len()
        invariant
            length == s@.len(),
            at + part@.len() <= s@.len(),
            i <= part@.len(),
            forall|j: int| 0 <= j < i ==> s@[at + j] == part@[j],
        decreases part@.len() - i,
    {
        if s[at + i] != part[i] {
            assert(s@.subrange(at as int, at + part@.len())[i as int] == s@[at + i]);
            return false;
        }
        i += 1;
    }
    assert(s@.subrange(at as int, at + part@.len()) == part@);
    true
}

/// Whether `part` stands somewhere among the characters `s`.
pub fn holds(s: &[char], part: &str) -> (r: bool)
    ensures
        r == occurs(s@, part@),
{
    let p: Vec<char> = characters(part);
    if p.len() > s.len() {
        assert forall|at: int| !occurs_at(s@, part@, at) by {}
        return false;
    }
    let last: usize = s.len() - p.len();
    let mut at: usize = 0;
    while at < last
        invariant
            p@ == part@,
            last == s@.len() - p@.len(),
            at <= last,
            forall|j: int| 0 <= j < at ==> !occurs_at(s@, part@, j),
        decreases last - at,
    {
        if stands_at(s, p.as_slice(), at) {
            return true;
        }
        at += 1;
    }
    if stands_at(s, p.as_slice(), last) {
        return true;
    }
    assert forall|j: int| !occurs_at(s@, part@, j) by {}
    false
}

/// Whether a text contains another.
pub fn contains(s: &str, part: &str) -> (r: bool)
    ensures
        r == occurs(s@, part@),
{
    let c: Vec<char> = characters(s);
    holds(c.as_slice(), part)
}

/// Whether characters spell a text but for the case of ASCII letters.
pub fn spells(a: &[char], b: &str) -> (r: bool)
    ensures
        r == (lowered(a@) == lowered(b@)),
{
    let y: Vec<char> = lower_case(b);
    if a.len() != y.len() {
        assert(lowered(a@).len() == a@.len());
        return false;
    }
    let mut i: usize = 0;
    while i < a.len()
        invariant
            y@ == lowered(b@),
            a@.len() == y@.len(),
            i <= a@.len(),
            forall|j: int| 0 <= j < i ==> lower(a@[j]) == y@[j],
        decreases a@.len() - i,
    {
        if to_lower(a[i]) != y[i] {
            assert(lowered(a@)[i as int] != lowered(b@)[i as int]);
            return false;
        }
        i += 1;
    }
    assert(lowered(a@) == y@);
    true
}

/// Whether two texts are the same but for the case of ASCII letters.
pub fn same_letters(a: &str, b: &str) -> (r: bool)
    ensures
        r == (lowered(a@) == lowered(b@)),
{
    let x: Vec<char> = characters(a);
    spells(x.as_slice(), b)
}

/// The end of a run of white space, or of other characters.
pub fn skip_run(s: &[char], from: usize, spaces: bool) -> (r: usize)
    requires
        from <= s@.len(),
    ensures
        r == run_end(s@, from as int, spaces),
        from <= r <= s@.len(),
{
    let mut i: usize = from;
    while i < s.len() && is_white_space(s[i]) == spaces
        invariant
            from <= i <= s@.len(),
            run_end(s@, from as int, spaces) == run_end(s@, i as int, spaces),
        decreases s@.len() - i,
    {
        i += 1;
    }
    i
}

proof fn lemma_run_end(s: Seq<char>, i: int)
    requires
        0 <= i <= s.len(),
    ensures
        i <= run_end(s, i, true) <= s.len(),
        run_end(s, i, true) < s.len() ==> !white_space(s[run_end(s, i, true)]),
    decreases s.len() - i,
{
    if i < s.len() && white_space(s[i]) {
        lemma_run_end(s, i + 1);
    }
}

/// Characters without the white space around them.
pub fn trim(s: &[char]) -> (r: Vec<char>)
    ensures
        r@ == trimmed(s@),
{
    let from: usize = skip_run(s, 0, true);
    if from == s.len() {
        return Vec::new();
    }
    proof {
        lemma_run_end(s@, 0);
    }
    let mut to: usize = s.len();
    while is_white_space(s[to - 1])
        invariant
            from < to <= s@.len(),
            !white_space(s@[from as int]),
            trimmed_end(s@, s@.len() as int) == trimmed_end(s@, to as int),
        decreases to,
    {
        to -= 1;
    }
    piece(s, from, to)
}

/// A copy of the characters from one position to another.
pub fn piece(s: &[char], from: usize, to: usize) -> (r: Vec<char>)
    requires
        from <= to <= s@.len(),
    ensures
        r@ == s@.subrange(from as int, to as int),
{
    let mut r: Vec<char> = Vec::new();
    let mut i: usize = from;
    while i < to
        invariant
            from <= i <= to <= s@.len(),
            r@ == s@.subrange(from as int, i as int),
        decreases to - i,
    {
        r.push(s[i]);
        assert(r@ == s@.subrange(from as int, i + 1));
        i += 1;
    }
    r
}

/// The position of the first `c` at or after a position, or the length.
pub fn find(s: &[char], c: char, from: usize) -> (r: usize)
    requires
        from <= s@.len(),
    ensures
        r == position_of(s@, c, from as int),
        from <= r <= s@.len(),
        r < s@.len() ==> s@[r as int] == c,
{
    let mut i: usize = from;
    while i < s.len() && s[i] != c
        invariant
            from <= i <= s@.len(),
            position_of(s@, c, from as int) == position_of(s@, c, i as int),
        decreases s@.len() - i,
    {
        i += 1;
    }
    i
}

proof fn lemma_digits_grow(s: Seq<char>, n: int)
    requires
        0 <= n <= s.len(),
    ensures
        digits_value(s.take(n)) <= digits_value(s),
    decreases s.len() - n,
{
    if n < s.len() {
        lemma_digits_grow(s, n + 1);
        assert(s.take(n + 1).drop_last() == s.take(n));
        assert(digits_value(s.take(n)) <= digits_value(s.take(n)) * 10 + (s.take(n + 1).last()
            as nat - '0' as nat) as nat);
    } else {
        assert(s.take(n) == s);
    }
}

/// The whole number that characters write, where it is at most `limit`.
pub fn parse_number(s: &[char], limit: u64) -> (r: Option<u64>)
    ensures
        match number(s@) {
            Some(n) if n <= limit => r == Some(n as u64),
            _ => r is None,
        },
{
    let start: usize = if s.len() > 0 && s[0] == '+' {
        1
    } else {
        0
    };
    let ghost body = unsigned_part(s@);
    assert(body == s@.skip(start as int));
    if start == s.len() {
        return None;
    }
    let mut value: u64 = 0;
    let mut i: usize = start;
    assert(body.take(0) == Seq::<char>::empty());
    while i < s.len()
        invariant
            body == s@.skip(start as int),
            body == unsigned_part(s@),
            body.len() > 0,
            start <= i <= s@.len(),
            value == digits_value(body.take(i - start)),
            value <= limit,
            forall|j: int| 0 <= j < i - start ==> digit(#[trigger] body[j]),
        decreases s@.len() - i,
    {
        let c: char = s[i];
        assert(body[i - start] == c);
        if !('0' <= c && c <= '9') {
            assert(!digit(body[i - start]));
            return None;
        }
        let d: u64 = c as u64 - '0' as u64;
        proof {
            assert(body.take(i - start + 1).drop_last() == body.take(i - start));
            lemma_digits_grow(body, i - start + 1);
        }
        let wide: u128 = value as u128 * 10 + d as u128;
        if wide > limit as u128 {
            assert(digits_value(body.take(i - start + 1)) == wide);
            assert(digits_value(body) > limit);
            return None;
        }
        value = wide as u64;
        i += 1;
    }
    assert(body.take(body.len() as int) == body);
    Some(value)
}

/// The text made of these characters.
pub fn compose(s: &[char]) -> (r: String)
    ensures
        r@ == s@,
{
    let mut r: String = String::new();
    let mut i: usize = 0;
    while i < s.len()
        invariant
            i <= s@.len(),
            r@ == s@.take(i as int),
        decreases s@.len() - i,
    {
        push_char(&mut r, s[i]);
        assert(s@.take(i as int).push(s@[i as int]) == s@.take(i + 1));
        i += 1;
    }
    assert(s@.take(s@.len() as int) == s@);
    r
}

/// One text after another.
pub fn join(a: &str, b: &str) -> (r: String)
    ensures
        r@ == a@ + b@,
{
    let mut r: String = a.to_owned();
    r.append(b);
    r
}

/// `n` in decimal digits, without leading zeros.
pub open spec fn decimal(n: nat) -> Seq<char>
    decreases n,
{
    let d = ('0' as nat + n % 10) as char;
    if n < 10 {
        seq![d]
    } else {
        decimal(n / 10).push(d)
    }
}

/// A whole number written in decimal.
pub fn decimal_text(n: u64) -> (r: String)
    ensures
        r@ == decimal(n as nat),
    decreases n,
{
    let d: char = (('0' as u8) + (n % 10) as u8) as char;
    if n < 10 {
        let mut r: String = String::new();
        push_char(&mut r, d);
        assert(r@ == seq![d]);
        r
    } else {
        let mut r: String = decimal_text(n / 10);
        push_char(&mut r, d);
        r
    }
}

/// `s` without the run of `c` at its end.
pub open spec fn without_tail(s: Seq<char>, c: char) -> Seq<char>
    decreases s.len(),
{
    if s.len() > 0 && s.last() == c {
        without_tail(s.drop_last(), c)
    } else {
        s
    }
}

/// A text without the run of a character at its end.
pub fn strip_tail(s: &str, c: char) -> (r: String)
    ensures
        r@ == without_tail(s@, c),
{
    let text: Vec<char> = characters(s);
    let mut to: usize = text.len();
    assert(text@.take(to as int) == text@);
    while to > 0 && text[to - 1] == c
        invariant
            to <= text@.len(),
            text@ == s@,
            without_tail(s@, c) == without_tail(text@.take(to as int), c),
        decreases to,
    {
        assert(text@.take(to as int).drop_last() == text@.take(to - 1));
        to -= 1;
    }
    let kept: Vec<char> = piece(text.as_slice(), 0, to);
    assert(kept@ == text@.take(to as int));
    compose(kept.as_slice())
}

/// `String::push`: the character is appended, and nothing else changes.
#[verifier::external_body]
fn push_char(s: &mut String, c: char)
    ensures
        final(s)@ == old(s)@.push(c),
{
    s.push(c)
}

/// A number that is written in decimal is read back as itself.
pub proof fn law_decimal_is_read_back(n: nat)
    ensures
        number(decimal(n)) == Some(n),
        n >= 10 ==> decimal(n)[0] != '0',
{
    lemma_decimal(n);
    let s = decimal(n);
    assert(digit(s[0]));
    assert(unsigned_part(s) == s);
}

proof fn lemma_decimal(n: nat)
    ensures
        decimal(n).len() > 0,
        all_digits(decimal(n)),
        digits_value(decimal(n)) == n,
        n > 0 ==> decimal(n)[0] != '0',
    decreases n,
{
    let s = decimal(n);
    let d = ('0' as nat + n % 10) as char;
    assert(digit(d));
    assert(d as nat - '0' as nat == n % 10);
    if n < 10 {
        assert(s == seq![d]);
        assert(s.drop_last() == Seq::<char>::empty());
        reveal_with_fuel(digits_value, 2);
    } else {
        let rest = decimal(n / 10);
        lemma_decimal(n / 10);
        assert(s.drop_last() == rest);
        assert(s[0] == rest[0]);
        assert forall|i: int| 0 <= i < s.len() implies digit(#[trigger] s[i]) by {
            if i < rest.len() {
                assert(s[i] == rest[i]);
            }
        }
    }
}

/// A text without the white space around it begins and ends with something else, or is empty, and
/// only white space was taken off.
pub proof fn law_trimmed(s: Seq<char>)
    ensures
        trimmed(s).len() == 0 <==> blank(s),
        trimmed(s).len() > 0 ==> {
            &&& !white_space(trimmed(s)[0])
            &&& !white_space(trimmed(s).last())
            &&& exists|from: int, to: int|
                {
                    &&& 0 <= from < to <= s.len()
                    &&& trimmed(s) == #[trigger] s.subrange(from, to)
                    &&& forall|i: int| 0 <= i < from ==> white_space(#[trigger] s[i])
                    &&& forall|i: int| to <= i < s.len() ==> white_space(#[trigger] s[i])
                }
        },
{
    lemma_run_end(s, 0);
    lemma_run_is_space(s, 0);
    let from = run_end(s, 0, true);
    if from < s.len() {
        lemma_trimmed_end(s, s.len() as int, from);
        let to = trimmed_end(s, s.len() as int);
        assert(trimmed(s) == s.subrange(from, to));
        assert(trimmed(s)[0] == s[from]);
        assert(trimmed(s).last() == s[to - 1]);
    }
}

proof fn lemma_run_is_space(s: Seq<char>, i: int)
    requires
        0 <= i <= s.len(),
    ensures
        forall|j: int| i <= j < run_end(s, i, true) ==> white_space(#[trigger] s[j]),
    decreases s.len() - i,
{
    if i < s.len() && white_space(s[i]) {
        lemma_run_is_space(s, i + 1);
    }
}

proof fn lemma_trimmed_end(s: Seq<char>, j: int, from: int)
    requires
        0 <= from < j <= s.len(),
        !white_space(s[from]),
        forall|i: int| j <= i < s.len() ==> white_space(#[trigger] s[i]),
    ensures
        from < trimmed_end(s, j) <= j,
        !white_space(s[trimmed_end(s, j) - 1]),
        forall|i: int| trimmed_end(s, j) <= i < s.len() ==> white_space(#[trigger] s[i]),
    decreases j,
{
    if white_space(s[j - 1]) {
        lemma_trimmed_end(s, j - 1, from);
    }
}

/// Lower case does not depend on the case that a text is written in: it has as many characters, and
/// those that are no ASCII capitals stay.
pub proof fn law_lowered(s: Seq<char>)
    ensures
        lowered(s).len() == s.len(),
        lowered(lowered(s)) == lowered(s),
        forall|i: int|
            0 <= i < s.len() && !('A' <= s[i] <= 'Z') ==> #[trigger] lowered(s)[i] == s[i],
        forall|i: int|
            0 <= i < s.len() && 'A' <= s[i] <= 'Z' ==> (#[trigger] lowered(s)[i]) as nat == s[i]
                as nat + 32,
{
    assert(lowered(lowered(s)) =~= lowered(s));
}

/// A text without the run of a character at its end does not end with it, and is the text as far as
/// that run.
pub proof fn law_without_tail(s: Seq<char>, c: char)
    ensures
        ({
            let kept = without_tail(s, c);
            &&& kept.len() <= s.len()
            &&& kept == s.take(kept.len() as int)
            &&& kept.len() > 0 ==> kept.last() != c
            &&& forall|i: int| kept.len() <= i < s.len() ==> #[trigger] s[i] == c
        }),
    decreases s.len(),
{
    if s.len() > 0 && s.last() == c {
        law_without_tail(s.drop_last(), c);
        let kept = without_tail(s, c);
        assert(s.drop_last().take(kept.len() as int) == s.take(kept.len() as int));
        assert forall|i: int| kept.len() <= i < s.len() implies #[trigger] s[i] == c by {
            if i < s.len() - 1 {
                assert(s.drop_last()[i] == s[i]);
            }
        }
    } else {
        assert(s.take(s.len() as int) == s);
    }
}

/// A text writes a number exactly where it is digits, at least one, with at most a plus sign before
/// them; the sign changes nothing, and each further digit stands for the next lower place.
pub proof fn law_written_numbers(s: Seq<char>, c: char)
    ensures
        number(s) is Some <==> {
            &&& s.len() > 0
            &&& forall|i: int| 1 <= i < s.len() ==> '0' <= #[trigger] s[i] <= '9'
            &&& '0' <= s[0] <= '9' || (s[0] == '+' && s.len() > 1)
        },
        s.len() > 0 && s[0] != '+' ==> number(seq!['+'] + s) == number(s),
        number(s) is Some && '0' <= c <= '9' ==> number(s.push(c)) == Some(
            (10 * number(s)->0 + (c as int - '0' as int)) as nat,
        ),
        s.len() == 1 && '0' <= s[0] <= '9' ==> number(s) == Some(
            (s[0] as int - '0' as int) as nat,
        ),
{
    let body = unsigned_part(s);
    let signed = s.len() > 0 && s[0] == '+';
    if signed {
        assert(forall|i: int| 0 <= i < body.len() ==> body[i] == #[trigger] s[i + 1]);
        assert forall|i: int| 1 <= i < s.len() && all_digits(body) implies '0' <= #[trigger] s[i]
            <= '9' by {
            assert(digit(body[i - 1]));
        }
    } else {
        assert forall|i: int| 0 <= i < s.len() && all_digits(body) implies '0' <= #[trigger] s[i]
            <= '9' by {
            assert(digit(body[i]));
        }
    }
    assert((seq!['+'] + s).skip(1) == s);
    if number(s) is Some && '0' <= c <= '9' {
        let longer = unsigned_part(s.push(c));
        assert(longer == body.push(c));
        assert(longer.drop_last() == body);
        assert forall|i: int| 0 <= i < longer.len() implies digit(#[trigger] longer[i]) by {
            if i < body.len() {
                assert(digit(body[i]));
            }
        }
    }
    if s.len() == 1 && '0' <= s[0] <= '9' {
        assert(digits_value(s.drop_last()) == 0);
        assert(all_digits(s));
    }
}

/// A text holds a part exactly where it is that part with something, or nothing, around it.
pub proof fn law_occurs(s: Seq<char>, part: Seq<char>, before: Seq<char>, after: Seq<char>)
    ensures
        occurs(before + part + after, part),
        occurs(s, part) ==> exists|x: Seq<char>, y: Seq<char>| s == #[trigger] (x + part + y),
{
    let whole = before + part + after;
    assert(whole.subrange(before.len() as int, (before.len() + part.len()) as int) == part);
    assert(occurs_at(whole, part, before.len() as int));
    if occurs(s, part) {
        let at = choose|at: int| occurs_at(s, part, at);
        let x = s.take(at);
        let y = s.skip(at + part.len());
        assert(s == x + s.subrange(at, at + part.len()) + y);
        assert(s == x + part + y);
    }
}

/// The first place of a character holds it and none before does; without one it is the length.
pub proof fn law_first_place(s: Seq<char>, c: char, from: int)
    requires
        0 <= from <= s.len(),
    ensures
        from <= position_of(s, c, from) <= s.len(),
        position_of(s, c, from) < s.len() ==> s[position_of(s, c, from)] == c,
        forall|i: int| from <= i < position_of(s, c, from) ==> #[trigger] s[i] != c,
    decreases s.len() - from,
{
    if from < s.len() && s[from] != c {
        law_first_place(s, c, from + 1);
    }
}

/// The characters that are white space, by their numbers.
pub proof fn law_white_space(c: char)
    ensures
        white_space(c) <==> {
            let n = c as u32;
            ||| 9 <= n <= 13
            ||| n == 32
            ||| n == 133
            ||| n == 160
            ||| n == 5760
            ||| 8192 <= n <= 8202
            ||| n == 8232
            ||| n == 8233
            ||| n == 8239
            ||| n == 8287
            ||| n == 12288
        },
{
}

} // verus!
