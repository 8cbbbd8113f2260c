//! Text as the session descriptions need it: lines, prefixes, fields and decimal
//! numbers.

use vstd::prelude::*;

verus! {

/// `String::push` appends one character.
pub assume_specification[ String::push ](s: &mut String, c: char)
    ensures
        final(s)@ == old(s)@.push(c),
;

/// Where `c` first stands in `s`, or the length of `s` where it does not occur.
pub open spec fn find_char(s: Seq<char>, c: char) -> nat
    decreases s.len(),
{
    if s.len() == 0 || s[0] == c {
        0
    } else {
        1 + find_char(s.skip(1), c)
    }
}

/// A line without the carriage return that may stand before its line feed.
pub open spec fn without_carriage_return(line: Seq<char>) -> Seq<char> {
    if line.len() > 0 && line.last() == '\r' {
        line.drop_last()
    } else {
        line
    }
}

/// The lines of a text. A line ends with a line feed, or a carriage return and a
/// line feed; the last one may lack its ending.
pub open spec fn lines(s: Seq<char>) -> Seq<Seq<char>>
    decreases s.len(),
{
    let end = find_char(s, '\n');
    if s.len() == 0 {
        Seq::empty()
    } else if end >= s.len() {
        seq![s]
    } else {
        seq![without_carriage_return(s.take(end as int))] + lines(s.skip(end as int + 1))
    }
}

/// The parts between the occurrences of a separator: one more than there are
/// separators.
pub open spec fn split(s: Seq<char>, separator: char) -> Seq<Seq<char>>
    decreases s.len(),
{
    let end = find_char(s, separator);
    if end >= s.len() {
        seq![s]
    } else {
        seq![s.take(end as int)] + split(s.skip(end as int + 1), separator)
    }
}

/// The first line that begins with `prefix`.
pub open spec fn first_with_prefix(lines: Seq<Seq<char>>, prefix: Seq<char>) -> Option<Seq<char>>
    decreases lines.len(),
{
    if lines.len() == 0 {
        None
    } else if prefix.is_prefix_of(lines[0]) {
        Some(lines[0])
    } else {
        first_with_prefix(lines.skip(1), prefix)
    }
}

/// `s` without the prefix, as often as the prefix is there.
pub open spec fn trim_prefixes(s: Seq<char>, prefix: Seq<char>) -> Seq<char>
    decreases s.len(),
{
    if prefix.len() > 0 && prefix.is_prefix_of(s) {
        trim_prefixes(s.skip(prefix.len() as int), prefix)
    } else {
        s
    }
}

/// Whether `s` has `part` somewhere in it.
pub open spec fn contains_text(s: Seq<char>, part: Seq<char>) -> bool {
    exists|at: int| occurs_at(s, part, at)
}

pub open spec fn occurs_at(s: Seq<char>, part: Seq<char>, at: int) -> bool {
    0 <= at && at + part.len() <= s.len() && s.subrange(at, at + part.len()) == part
}

/// The characters that Unicode counts as white space.
pub open spec fn is_white_space(c: char) -> bool {
    let n = c as int;
    ||| 0x09 <= n <= 0x0d
    ||| n == 0x20
    ||| n == 0x85
    ||| n == 0xa0
    ||| n == 0x1680
    ||| 0x2000 <= n <= 0x200a
    ||| n == 0x2028
    ||| n == 0x2029
    ||| n == 0x202f
    ||| n == 0x205f
    ||| n == 0x3000
}

/// How many characters at the front are white space, or are not.
pub open spec fn run_length(s: Seq<char>, white: bool) -> nat
    decreases s.len(),
{
    if s.len() == 0 || is_white_space(s[0]) != white {
        0
    } else {
        1 + run_length(s.skip(1), white)
    }
}

/// The words of a text: its longest runs without white space.
pub open spec fn words(s: Seq<char>) -> Seq<Seq<char>>
    decreases s.len(),
{
    let start = run_length(s, true) as int;
    if start >= s.len() {
        Seq::empty()
    } else {
        let rest = s.skip(start);
        let end = run_length(rest, false) as int;
        if end <= 0 || end > rest.len() {
            Seq::empty()
        } else {
            seq![rest.take(end)] + words(rest.skip(end))
        }
    }
}

pub open spec fn is_digit(c: char) -> bool {
    '0' <= c <= '9'
}

pub open spec fn digit_value(c: char) -> nat {
    (c as int - '0' as int) as nat
}

pub open spec fn all_digits(s: Seq<char>) -> bool {
    forall|i: int| 0 <= i < s.len() ==> is_digit(#[trigger] s[i])
}

/// The number that a string of digits denotes.
pub open spec fn digits_value(s: Seq<char>) -> nat
    decreases s.len(),
{
    if s.len() == 0 {
        0
    } else {
        digits_value(s.drop_last()) * 10 + digit_value(s.last())
    }
}

/// The unsigned number that a text denotes: digits, at least one, behind an
/// optional plus sign.
pub open spec fn unsigned_value(s: Seq<char>) -> Option<nat> {
    let digits = if s.len() > 0 && s[0] == '+' {
        s.skip(1)
    } else {
        s
    };
    if digits.len() > 0 && all_digits(digits) {
        Some(digits_value(digits))
    } else {
        None
    }
}

/// The unsigned number that a text denotes, if it is at most `max`.
pub open spec fn bounded_value(s: Seq<char>, max: nat) -> Option<nat> {
    match unsigned_value(s) {
        Some(n) if n <= max => Some(n),
        _ => None,
    }
}

pub open spec fn digit_char(d: nat) -> char {
    ('0' as int + d) as char
}

/// A number in decimal, without leading zeros.
pub open spec fn decimal(n: nat) -> Seq<char>
    decreases n,
{
    if n < 10 {
        seq![digit_char(n)]
    } else {
        decimal(n / 10).push(digit_char(n % 10))
    }
}

/// The items with the separator between each two.
pub open spec fn join(items: Seq<Seq<char>>, separator: Seq<char>) -> Seq<char>
    decreases items.len(),
{
    if items.len() == 0 {
        Seq::empty()
    } else if items.len() == 1 {
        items[0]
    } else {
        join(items.drop_last(), separator) + separator + items.last()
    }
}

/// The contents of a list of character strings.
pub open spec fn views(items: Seq<Vec<char>>) -> Seq<Seq<char>> {
    items.map_values(|item: Vec<char>| item@)
}

proof fn lemma_find_char(s: Seq<char>, c: char, at: nat)
    requires
        at <= s.len(),
        forall|i: int| 0 <= i < at ==> s[i] != c,
        at < s.len() ==> s[at as int] == c,
    ensures
        find_char(s, c) == at,
    decreases at,
{
    if at > 0 {
        let rest = s.skip(1);
        assert forall|i: int| 0 <= i < at - 1 implies rest[i] != c by {
            assert(rest[i] == s[i + 1]);
        }
        lemma_find_char(rest, c, (at - 1) as nat);
    }
}

proof fn lemma_run_length(s: Seq<char>, white: bool, at: nat)
    requires
        at <= s.len(),
        forall|i: int| 0 <= i < at ==> is_white_space(#[trigger] s[i]) == white,
        at < s.len() ==> is_white_space(s[at as int]) != white,
    ensures
        run_length(s, white) == at,
    decreases at,
{
    if at > 0 {
        let rest = s.skip(1);
        assert(is_white_space(s[0]) == white);
        assert forall|i: int| 0 <= i < at - 1 implies is_white_space(#[trigger] rest[i]) == white by {
            assert(rest[i] == s[i + 1]);
        }
        lemma_run_length(rest, white, (at - 1) as nat);
    }
}

/// The characters of a text.
pub fn chars_of(s: &str) -> (chars: Vec<char>)
    ensures
        chars@ == s@,
{
    let mut chars: Vec<char> = Vec::new();
    for c in iter: s.chars()
        invariant
            iter.seq() == s@,
            chars@ == s@.take(iter.index() as int),
    {
        chars.push(c);
    }
    assert(s@.take(s@.len() as int) =~= s@);
    chars
}

/// The text that has these characters.
pub fn string_of(chars: &Vec<char>) -> (s: String)
    ensures
        s@ == chars@,
{
    let mut s = String::new();
    for i in 0..chars.len()
        invariant
            s@ == chars@.take(i as int),
    {
        s.push(chars[i]);
        assert(chars@.take(i as int + 1) =~= chars@.take(i as int).push(chars@[i as int]));
    }
    assert(chars@.take(chars@.len() as int) =~= chars@);
    s
}

pub(crate) fn piece(chars: &Vec<char>, from: usize, to: usize) -> (part: Vec<char>)
    requires
        from <= to <= chars.len(),
    ensures
        part@ == chars@.subrange(from as int, to as int),
{
    let mut part: Vec<char> = Vec::new();
    for i in from..to
        invariant
            from <= to <= chars.len(),
            part@ == chars@.subrange(from as int, i as int),
    {
        part.push(chars[i]);
        assert(chars@.subrange(from as int, i as int + 1) =~= chars@.subrange(
            from as int,
            i as int,
        ).push(chars@[i as int]));
    }
    part
}

/// Where `c` first stands at or after `from`.
pub(crate) fn find_from(chars: &Vec<char>, from: usize, c: char) -> (at: usize)
    requires
        from <= chars.len(),
    ensures
        from <= at <= chars.len(),
        at - from == find_char(chars@.skip(from as int), c),
{
    let mut at: usize = from;
    while at < chars.len() && chars[at] != c
        invariant
            from <= at <= chars.len(),
            forall|i: int| from <= i < at ==> chars@[i] != c,
        decreases chars.len() - at,
    {
        at += 1;
    }
    proof {
        let rest = chars@.skip(from as int);
        assert forall|i: int| 0 <= i < at - from implies rest[i] != c by {
            assert(rest[i] == chars@[from + i]);
        }
        lemma_find_char(rest, c, (at - from) as nat);
    }
    at
}

/// The lines of a text.
pub fn lines_of(chars: &Vec<char>) -> (found: Vec<Vec<char>>)
    ensures
        views(found@) == lines(chars@),
{
    let mut found: Vec<Vec<char>> = Vec::new();
    let mut at: usize = 0;
    assert(chars@.skip(0) =~= chars@);
    assert(views(found@) + lines(chars@) =~= lines(chars@));
    while at < chars.len()
        invariant
            at <= chars.len(),
            views(found@) + lines(chars@.skip(at as int)) == lines(chars@),
        decreases chars.len() - at,
    {
        let ghost rest = chars@.skip(at as int);
        let ghost before = found@;
        let end: usize = find_from(chars, at, '\n');
        if end == chars.len() {
            let line = piece(chars, at, end);
            assert(line@ =~= rest);
            found.push(line);
            assert(views(found@) =~= views(before).push(rest));
            assert(lines(rest) == seq![rest]);
            assert(views(found@) =~= lines(chars@));
            return found;
        }
        let stop: usize = if end > at && chars[end - 1] == '\r' {
            end - 1
        } else {
            end
        };
        let line = piece(chars, at, stop);
        proof {
            let whole = rest.take(end - at);
            assert(whole =~= chars@.subrange(at as int, end as int));
            assert(line@ =~= without_carriage_return(whole));
            assert(rest.skip(end - at + 1) =~= chars@.skip(end as int + 1));
        }
        found.push(line);
        proof {
            let tail = lines(chars@.skip(end as int + 1));
            assert(views(found@) =~= views(before).push(line@));
            assert(lines(rest) =~= seq![line@] + tail);
            assert(views(found@) + tail =~= views(before) + lines(rest));
        }
        at = end + 1;
    }
    assert(views(found@) + lines(chars@.skip(at as int)) =~= views(found@));
    found
}

/// The parts between the separators.
pub fn split_of(chars: &Vec<char>, separator: char) -> (found: Vec<Vec<char>>)
    ensures
        views(found@) == split(chars@, separator),
{
    let mut found: Vec<Vec<char>> = Vec::new();
    let mut at: usize = 0;
    assert(chars@.skip(0) =~= chars@);
    assert(views(found@) + split(chars@, separator) =~= split(chars@, separator));
    loop
        invariant
            at <= chars.len(),
            views(found@) + split(chars@.skip(at as int), separator) == split(chars@, separator),
        decreases chars.len() - at,
    {
        let ghost rest = chars@.skip(at as int);
        let ghost before = found@;
        let end: usize = find_from(chars, at, separator);
        let part = piece(chars, at, end);
        if end == chars.len() {
            assert(part@ =~= rest);
            found.push(part);
            assert(views(found@) =~= views(before).push(rest));
            assert(views(found@) =~= split(chars@, separator));
            return found;
        }
        proof {
            assert(part@ =~= rest.take(end - at));
            assert(rest.skip(end - at + 1) =~= chars@.skip(end as int + 1));
        }
        found.push(part);
        proof {
            let tail = split(chars@.skip(end as int + 1), separator);
            assert(views(found@) =~= views(before).push(part@));
            assert(split(rest, separator) =~= seq![part@] + tail);
            assert(views(found@) + tail =~= views(before) + split(rest, separator));
        }
        at = end + 1;
    }
}

/// Whether the characters begin with `prefix`.
pub fn starts_with(chars: &Vec<char>, prefix: &Vec<char>) -> (does: bool)
    ensures
        does == prefix@.is_prefix_of(chars@),
{
    starts_at(chars, 0, prefix)
}

pub(crate) fn starts_at(chars: &Vec<char>, from: usize, prefix: &Vec<char>) -> (does: bool)
    requires
        from <= chars.len(),
    ensures
        does == prefix@.is_prefix_of(chars@.skip(from as int)),
{
    if prefix.len() > chars.len() - from {
        return false;
    }
    let ghost rest = chars@.skip(from as int);
    for i in 0..prefix.len()
        invariant
            from <= chars.len(),
            prefix.len() <= chars.len() - from,
            rest == chars@.skip(from as int),
            forall|j: int| 0 <= j < i ==> prefix@[j] == chars@[from + j],
    {
        if chars[from + i] != prefix[i] {
            assert(rest[i as int] != prefix@[i as int]);
            assert(!prefix@.is_prefix_of(rest));
            return false;
        }
    }
    assert(prefix@ =~= rest.subrange(0, prefix@.len() as int));
    true
}

/// The first line that begins with `prefix`, by its position.
pub(crate) fn find_line(found: &Vec<Vec<char>>, prefix: &Vec<char>) -> (at: Option<usize>)
    ensures
        match at {
            Some(i) => i < found.len() && first_with_prefix(views(found@), prefix@) == Some(
                found@[i as int]@,
            ),
            None => first_with_prefix(views(found@), prefix@) is None,
        },
{
    assert(views(found@).skip(0) =~= views(found@));
    for i in 0..found.len()
        invariant
            first_with_prefix(views(found@), prefix@) == first_with_prefix(
                views(found@).skip(i as int),
                prefix@,
            ),
    {
        let ghost rest = views(found@).skip(i as int);
        assert(rest[0] == found@[i as int]@);
        if starts_with(&found[i], prefix) {
            return Some(i);
        }
        assert(rest.skip(1) =~= views(found@).skip(i as int + 1));
    }
    None
}

/// The characters without the prefix, as often as it is there.
pub fn trim_prefixes_of(chars: &Vec<char>, prefix: &Vec<char>) -> (rest: Vec<char>)
    ensures
        rest@ == trim_prefixes(chars@, prefix@),
{
    let mut at: usize = 0;
    assert(chars@.skip(0) =~= chars@);
    if prefix.len() > 0 {
        while starts_at(chars, at, prefix)
            invariant
                at <= chars.len(),
                prefix.len() > 0,
                trim_prefixes(chars@, prefix@) == trim_prefixes(chars@.skip(at as int), prefix@),
            decreases chars.len() - at,
        {
            assert(chars@.skip(at as int).skip(prefix@.len() as int) =~= chars@.skip(
                at + prefix@.len(),
            ));
            at += prefix.len();
        }
    }
    let rest = piece(chars, at, chars.len());
    assert(rest@ =~= chars@.skip(at as int));
    rest
}

/// Whether the characters have `part` somewhere in them.
pub fn contains(chars: &Vec<char>, part: &Vec<char>) -> (does: bool)
    ensures
        does == contains_text(chars@, part@),
{
    for at in 0..chars.len()
        invariant
            forall|i: int| 0 <= i < at ==> !occurs_at(chars@, part@, i),
    {
        proof {
            lemma_occurs_at(chars@, part@, at as int);
        }
        if starts_at(chars, at, part) {
            return true;
        }
    }
    proof {
        lemma_occurs_at(chars@, part@, chars@.len() as int);
    }
    starts_at(chars, chars.len(), part)
}

proof fn lemma_occurs_at(s: Seq<char>, part: Seq<char>, at: int)
    requires
        0 <= at <= s.len(),
    ensures
        occurs_at(s, part, at) == part.is_prefix_of(s.skip(at)),
{
    if at + part.len() <= s.len() {
        assert(s.skip(at).subrange(0, part.len() as int) =~= s.subrange(at, at + part.len()));
    }
}

/// Whether a character is white space.
pub fn white_space(c: char) -> (is: bool)
    ensures
        is == is_white_space(c),
{
    let n: u32 = c as u32;
    (0x09 <= n && n <= 0x0d) || n == 0x20 || n == 0x85 || n == 0xa0 || n == 0x1680 || (0x2000 <= n
        && n <= 0x200a) || n == 0x2028 || n == 0x2029 || n == 0x202f || n == 0x205f || n == 0x3000
}

fn run_end(chars: &Vec<char>, from: usize, white: bool) -> (at: usize)
    requires
        from <= chars.len(),
    ensures
        from <= at <= chars.len(),
        at - from == run_length(chars@.skip(from as int), white),
        from < chars.len() && is_white_space(chars@[from as int]) == white ==> at > from,
{
    let mut at: usize = from;
    while at < chars.len() && white_space(chars[at]) == white
        invariant
            from <= at <= chars.len(),
            forall|i: int| from <= i < at ==> is_white_space(#[trigger] chars@[i]) == white,
        decreases chars.len() - at,
    {
        at += 1;
    }
    proof {
        let rest = chars@.skip(from as int);
        assert forall|i: int| 0 <= i < at - from implies is_white_space(#[trigger] rest[i])
            == white by {
            assert(rest[i] == chars@[from + i]);
        }
        lemma_run_length(rest, white, (at - from) as nat);
    }
    at
}

/// The words of a text.
pub fn words_of(chars: &Vec<char>) -> (found: Vec<Vec<char>>)
    ensures
        views(found@) == words(chars@),
{
    let mut found: Vec<Vec<char>> = Vec::new();
    let mut at: usize = 0;
    assert(chars@.skip(0) =~= chars@);
    assert(views(found@) + words(chars@) =~= words(chars@));
    loop
        invariant
            at <= chars.len(),
            views(found@) + words(chars@.skip(at as int)) == words(chars@),
        decreases chars.len() - at,
    {
        let ghost rest = chars@.skip(at as int);
        let ghost before = found@;
        let start: usize = run_end(chars, at, true);
        if start == chars.len() {
            assert(words(rest) =~= Seq::empty());
            assert(views(found@) + words(rest) =~= views(found@));
            return found;
        }
        let end: usize = run_end(chars, start, false);
        let word = piece(chars, start, end);
        proof {
            let tail = chars@.skip(start as int);
            assert(rest.skip(start - at) =~= tail);
            assert(is_white_space(rest[start - at]) != true) by {
                lemma_run_stops(rest, true);
            }
            assert(word@ =~= tail.take(end - start));
            assert(tail.skip(end - start) =~= chars@.skip(end as int));
            assert(words(rest) =~= seq![word@] + words(chars@.skip(end as int)));
        }
        found.push(word);
        proof {
            let tail = words(chars@.skip(end as int));
            assert(views(found@) =~= views(before).push(word@));
            assert(views(found@) + tail =~= views(before) + words(rest));
        }
        at = end;
    }
}

proof fn lemma_run_stops(s: Seq<char>, white: bool)
    ensures
        run_length(s, white) <= s.len(),
        run_length(s, white) < s.len() ==> is_white_space(s[run_length(s, white) as int]) != white,
    decreases s.len(),
{
    if s.len() > 0 && is_white_space(s[0]) == white {
        lemma_run_stops(s.skip(1), white);
    }
}

proof fn lemma_digits_value_grows(s: Seq<char>, upto: int)
    requires
        0 <= upto <= s.len(),
    ensures
        digits_value(s.take(upto)) <= digits_value(s),
    decreases s.len() - upto,
{
    if upto < s.len() {
        assert(s.take(upto + 1).drop_last() =~= s.take(upto));
        lemma_digits_value_grows(s, upto + 1);
    } else {
        assert(s.take(upto) =~= s);
    }
}

/// The unsigned number that a text denotes, if it is at most `max`.
pub fn parse_bounded(chars: &Vec<char>, max: u32) -> (value: Option<u32>)
    ensures
        match value {
            Some(n) => bounded_value(chars@, max as nat) == Some(n as nat),
            None => bounded_value(chars@, max as nat) is None,
        },
{
    let from: usize = if chars.len() > 0 && chars[0] == '+' {
        1
    } else {
        0
    };
    let ghost digits = chars@.skip(from as int);
    proof {
        assert(chars@.skip(0) =~= chars@);
    }
    if from == chars.len() {
        return None;
    }
    let mut value: u64 = 0;
    for i in from..chars.len()
        invariant
            from <= chars.len(),
            digits == chars@.skip(from as int),
            value <= max,
            value == digits_value(digits.take(i - from)),
            forall|j: int| 0 <= j < i - from ==> is_digit(#[trigger] digits[j]),
            unsigned_value(chars@) == if digits.len() > 0 && all_digits(digits) {
                Some(digits_value(digits))
            } else {
                None
            },
    {
        let c: char = chars[i];
        assert(digits[i - from] == c);
        if !('0' <= c && c <= '9') {
            assert(!is_digit(digits[i - from]));
            return None;
        }
        proof {
            assert(digits.take(i - from + 1).drop_last() =~= digits.take(i - from));
            lemma_digits_value_grows(digits, i - from + 1);
        }
        value = value * 10 + (c as u64 - '0' as u64);
        if value > max as u64 {
            return None;
        }
    }
    assert(digits.take(digits.len() as int) =~= digits);
    assert(all_digits(digits));
    Some(value as u32)
}

fn digit_of(d: u64) -> (c: char)
    requires
        d < 10,
    ensures
        c == digit_char(d as nat),
{
    match d {
        0 => '0',
        1 => '1',
        2 => '2',
        3 => '3',
        4 => '4',
        5 => '5',
        6 => '6',
        7 => '7',
        8 => '8',
        _ => '9',
    }
}

/// Appends a number in decimal.
pub fn push_decimal(out: &mut String, n: u64)
    ensures
        final(out)@ == old(out)@ + decimal(n as nat),
    decreases n,
{
    let ghost before = out@;
    if n >= 10 {
        push_decimal(out, n / 10);
    }
    out.push(digit_of(n % 10));
    assert(out@ =~= before + decimal(n as nat));
}

/// A number in decimal.
pub fn decimal_of(n: u64) -> (s: String)
    ensures
        s@ == decimal(n as nat),
{
    let mut s = String::new();
    push_decimal(&mut s, n);
    assert(s@ =~= decimal(n as nat));
    s
}

/// Reading a decimal number gives back the number that was written.
pub proof fn decimal_round_trip(n: nat)
    ensures
        unsigned_value(decimal(n)) == Some(n),
{
    lemma_decimal(n);
}

proof fn lemma_decimal(n: nat)
    ensures
        decimal(n).len() > 0,
        all_digits(decimal(n)),
        decimal(n)[0] != '+',
        digits_value(decimal(n)) == n,
    decreases n,
{
    if n < 10 {
        assert(digit_char(n) as int == '0' as int + n);
        assert(decimal(n).drop_last() =~= Seq::empty());
        reveal_with_fuel(digits_value, 2);
    } else {
        lemma_decimal(n / 10);
        assert(digit_char(n % 10) as int == '0' as int + n % 10);
        assert(decimal(n).drop_last() =~= decimal(n / 10));
        assert forall|i: int| 0 <= i < decimal(n).len() implies is_digit(
            #[trigger] decimal(n)[i],
        ) by {
            if i < decimal(n / 10).len() {
                assert(decimal(n)[i] == decimal(n / 10)[i]);
            }
        }
    }
}

/// Whether a character does not occur in a text.
pub open spec fn lacks(s: Seq<char>, c: char) -> bool {
    forall|i: int| 0 <= i < s.len() ==> #[trigger] s[i] != c
}

/// Where a separator stands behind a text that has none, the text is the first
/// part.
pub proof fn lemma_split_front(front: Seq<char>, separator: char, rest: Seq<char>)
    requires
        lacks(front, separator),
    ensures
        split(front + seq![separator] + rest, separator) == seq![front] + split(rest, separator),
{
    let s = front + seq![separator] + rest;
    assert forall|i: int| 0 <= i < front.len() implies s[i] != separator by {
        assert(s[i] == front[i]);
    }
    lemma_find_char(s, separator, front.len());
    assert(s.take(front.len() as int) =~= front);
    assert(s.skip(front.len() as int + 1) =~= rest);
}

/// A text without the separator is its only part.
pub proof fn lemma_split_whole(s: Seq<char>, separator: char)
    requires
        lacks(s, separator),
    ensures
        split(s, separator) == seq![s],
{
    lemma_find_char(s, separator, s.len());
}

/// A decimal number has nothing but digits in it, and at least one.
pub proof fn lemma_decimal_digits(n: nat)
    ensures
        decimal(n).len() > 0,
        all_digits(decimal(n)),
{
    lemma_decimal(n);
}

/// Joining can begin at the front as well.
pub proof fn lemma_join_front(items: Seq<Seq<char>>, separator: Seq<char>)
    requires
        items.len() >= 2,
    ensures
        join(items, separator) == items[0] + separator + join(items.skip(1), separator),
    decreases items.len(),
{
    let rest = items.skip(1);
    if items.len() == 2 {
        assert(items.drop_last() =~= seq![items[0]]);
        assert(rest =~= seq![items[1]]);
        assert(join(items, separator) == join(seq![items[0]], separator) + separator + items[1]);
    } else {
        lemma_join_front(items.drop_last(), separator);
        assert(items.drop_last().skip(1) =~= rest.drop_last());
        assert(join(items, separator) =~= items[0] + separator + join(rest, separator));
    }
}

/// Whether a text is a line that is read back as it was written.
pub open spec fn is_plain_line(s: Seq<char>) -> bool {
    s.len() > 0 && lacks(s, '\n') && lacks(s, '\r')
}

/// Lines that are joined by line feeds are read back as they were.
pub proof fn lines_of_joined_lines(items: Seq<Seq<char>>)
    requires
        forall|i: int| 0 <= i < items.len() ==> is_plain_line(#[trigger] items[i]),
    ensures
        lines(join(items, seq!['\n'])) == items,
    decreases items.len(),
{
    if items.len() == 1 {
        assert(is_plain_line(items[0]));
        lemma_find_char(items[0], '\n', items[0].len());
        assert(lines(items[0]) =~= items);
    } else if items.len() > 1 {
        let first = items[0];
        let rest = items.skip(1);
        let tail = join(rest, seq!['\n']);
        let s = join(items, seq!['\n']);
        assert forall|i: int| 0 <= i < rest.len() implies is_plain_line(#[trigger] rest[i]) by {
            assert(rest[i] == items[i + 1]);
        }
        lines_of_joined_lines(rest);
        lemma_join_front(items, seq!['\n']);
        assert(is_plain_line(first));
        assert(s =~= first + seq!['\n'] + tail);
        assert forall|i: int| 0 <= i < first.len() implies s[i] != '\n' by {
            assert(s[i] == first[i]);
        }
        lemma_find_char(s, '\n', first.len());
        assert(s.take(first.len() as int) =~= first);
        assert(s.skip(first.len() as int + 1) =~= tail);
        assert(first.last() != '\r');
        assert(lines(s) =~= seq![first] + rest);
        assert(seq![first] + rest =~= items);
    } else {
        assert(lines(join(items, seq!['\n'])) =~= items);
    }
}

proof fn lemma_find_char_stops(s: Seq<char>, c: char)
    ensures
        find_char(s, c) <= s.len(),
        lacks(s.take(find_char(s, c) as int), c),
    decreases s.len(),
{
    if s.len() > 0 && s[0] != c {
        let rest = s.skip(1);
        lemma_find_char_stops(rest, c);
        let at = find_char(s, c) as int;
        assert forall|i: int| 0 <= i < at implies #[trigger] s.take(at)[i] != c by {
            if i > 0 {
                assert(rest.take(at - 1)[i - 1] == s.take(at)[i]);
            }
        }
    }
}

/// No line has a line feed in it.
pub proof fn lemma_lines_lack_line_feeds(s: Seq<char>)
    ensures
        forall|i: int| 0 <= i < lines(s).len() ==> lacks(#[trigger] lines(s)[i], '\n'),
    decreases s.len(),
{
    let end = find_char(s, '\n') as int;
    lemma_find_char_stops(s, '\n');
    if s.len() == 0 {
    } else if end >= s.len() {
        assert(s.take(end) =~= s);
    } else {
        let tail = s.skip(end + 1);
        lemma_lines_lack_line_feeds(tail);
        let first = without_carriage_return(s.take(end));
        assert forall|i: int| 0 <= i < first.len() implies #[trigger] first[i] != '\n' by {
            assert(first[i] == s.take(end)[i]);
        }
        assert forall|i: int| 0 <= i < lines(s).len() implies lacks(
            #[trigger] lines(s)[i],
            '\n',
        ) by {
            if i > 0 {
                assert(lines(s)[i] == lines(tail)[i - 1]);
            }
        }
    }
}

/// A line that is found by its prefix is one of the lines.
pub proof fn lemma_first_with_prefix(all: Seq<Seq<char>>, prefix: Seq<char>)
    ensures
        first_with_prefix(all, prefix) matches Some(line) ==> all.contains(line),
    decreases all.len(),
{
    if all.len() > 0 && !prefix.is_prefix_of(all[0]) {
        lemma_first_with_prefix(all.skip(1), prefix);
        if let Some(line) = first_with_prefix(all, prefix) {
            let i = choose|i: int| 0 <= i < all.skip(1).len() && all.skip(1)[i] == line;
            assert(all[i + 1] == line);
        }
    } else if all.len() > 0 {
        assert(all.contains(all[0]));
    }
}

/// What is left behind a prefix has no character that the whole lacks.
pub proof fn lemma_trimmed_lacks(s: Seq<char>, prefix: Seq<char>, c: char)
    requires
        lacks(s, c),
    ensures
        lacks(trim_prefixes(s, prefix), c),
    decreases s.len(),
{
    if prefix.len() > 0 && prefix.is_prefix_of(s) {
        let rest = s.skip(prefix.len() as int);
        assert forall|i: int| 0 <= i < rest.len() implies #[trigger] rest[i] != c by {
            assert(rest[i] == s[prefix.len() + i]);
        }
        lemma_trimmed_lacks(rest, prefix, c);
    }
}

/// A line feed ends a line, and so does a carriage return before a line feed, which is
/// not part of the line; what is left at the end is a line unless it is empty.
pub proof fn lines_end_at_line_feeds(front: Seq<char>, rest: Seq<char>)
    requires
        !front.contains('\n'),
    ensures
        lines(front + seq!['\r', '\n'] + rest) == seq![front] + lines(rest),
        (front.len() == 0 || front.last() != '\r') ==> lines(front + seq!['\n'] + rest) == seq![
            front,
        ] + lines(rest),
        front.len() > 0 ==> lines(front) == seq![front],
        lines(Seq::empty()) == Seq::<Seq<char>>::empty(),
{
    let s = front + seq!['\r', '\n'] + rest;
    assert forall|i: int| 0 <= i < front.len() + 1 implies s[i] != '\n' by {
        if i < front.len() {
            assert(s[i] == front[i]);
            assert(front.contains(front[i]));
        }
    }
    lemma_find_char(s, '\n', front.len() + 1);
    assert(s.take(front.len() as int + 1).drop_last() =~= front);
    assert(s.skip(front.len() as int + 2) =~= rest);
    assert(lines(s) =~= seq![front] + lines(rest));
    let t = front + seq!['\n'] + rest;
    assert forall|i: int| 0 <= i < front.len() implies t[i] != '\n' by {
        assert(t[i] == front[i]);
        assert(front.contains(front[i]));
    }
    lemma_find_char(t, '\n', front.len());
    assert(t.take(front.len() as int) =~= front);
    assert(t.skip(front.len() as int + 1) =~= rest);
    assert forall|i: int| 0 <= i < front.len() implies front[i] != '\n' by {
        assert(front.contains(front[i]));
    }
    lemma_find_char(front, '\n', front.len());
}

/// The parts of a text have no separator in them, and with a separator between each two
/// they are the text.
pub proof fn parts_join_to_the_whole(s: Seq<char>, separator: char)
    ensures
        split(s, separator).len() > 0,
        join(split(s, separator), seq![separator]) == s,
        forall|i: int|
            0 <= i < split(s, separator).len() ==> !(#[trigger] split(s, separator)[i]).contains(
                separator,
            ),
    decreases s.len(),
{
    lemma_find_char_stops(s, separator);
    let end = find_char(s, separator) as int;
    let parts = split(s, separator);
    if end >= s.len() {
        assert(s.take(end) =~= s);
        assert forall|i: int| 0 <= i < parts.len() implies !(#[trigger] parts[i]).contains(
            separator,
        ) by {
            assert(lacks(s, separator));
        }
    } else {
        let rest = s.skip(end + 1);
        let first = s.take(end);
        parts_join_to_the_whole(rest, separator);
        lemma_found(s, separator);
        assert(parts.skip(1) =~= split(rest, separator));
        lemma_join_front(parts, seq![separator]);
        assert(s =~= first + seq![separator] + rest);
        assert forall|i: int| 0 <= i < parts.len() implies !(#[trigger] parts[i]).contains(
            separator,
        ) by {
            if i == 0 {
                assert(lacks(first, separator));
            } else {
                assert(parts[i] == split(rest, separator)[i - 1]);
            }
        }
    }
}

proof fn lemma_found(s: Seq<char>, c: char)
    ensures
        find_char(s, c) < s.len() ==> s[find_char(s, c) as int] == c,
    decreases s.len(),
{
    if s.len() > 0 && s[0] != c {
        lemma_found(s.skip(1), c);
    }
}

/// Joining one item gives the item, and joining more gives the first one, a separator
/// and the rest joined.
pub proof fn joining_puts_separators_between(
    item: Seq<char>,
    items: Seq<Seq<char>>,
    separator: Seq<char>,
)
    ensures
        join(seq![item], separator) == item,
        items.len() > 0 ==> join(seq![item] + items, separator) == item + separator + join(
            items,
            separator,
        ),
        join(Seq::empty(), separator) == Seq::<char>::empty(),
{
    if items.len() > 0 {
        lemma_join_front(seq![item] + items, separator);
        assert((seq![item] + items).skip(1) =~= items);
    }
}

/// Of the ASCII characters, the space and those from the tab to the carriage return are
/// white space, and no other.
pub proof fn ascii_white_space(c: char)
    requires
        c as int <= 0x7f,
    ensures
        is_white_space(c) <==> c == ' ' || '\t' <= c <= '\r',
{
}

/// White space separates words and is not part of any.
pub proof fn white_space_separates_words(word: Seq<char>, c: char, rest: Seq<char>)
    requires
        is_white_space(c),
        forall|i: int| 0 <= i < word.len() ==> !is_white_space(#[trigger] word[i]),
    ensures
        words(seq![c] + rest) == words(rest),
        word.len() > 0 ==> words(word) == seq![word],
        word.len() > 0 ==> words(word + seq![c] + rest) == seq![word] + words(rest),
        words(Seq::empty()) == Seq::<Seq<char>>::empty(),
{
    lemma_words_behind_white(c, rest);
    if word.len() > 0 {
        lemma_run_length(word, true, 0);
        assert(word.skip(0) =~= word);
        lemma_run_length(word, false, word.len());
        assert(word.take(word.len() as int) =~= word);
        assert(word.skip(word.len() as int) =~= Seq::empty());
        assert(words(Seq::<char>::empty()) =~= Seq::empty());
        assert(words(word) =~= seq![word]);
        let s = word + seq![c] + rest;
        assert(s[0] == word[0]);
        lemma_run_length(s, true, 0);
        assert(s.skip(0) =~= s);
        assert forall|i: int| 0 <= i < word.len() implies is_white_space(#[trigger] s[i])
            == false by {
            assert(s[i] == word[i]);
        }
        assert(s[word.len() as int] == c);
        lemma_run_length(s, false, word.len());
        assert(s.take(word.len() as int) =~= word);
        assert(s.skip(word.len() as int) =~= seq![c] + rest);
    }
}

proof fn lemma_words_behind_white(c: char, rest: Seq<char>)
    requires
        is_white_space(c),
    ensures
        words(seq![c] + rest) == words(rest),
{
    let s = seq![c] + rest;
    assert(s.skip(1) =~= rest);
    let start = run_length(rest, true) as int;
    assert(run_length(s, true) == start + 1);
    if start < rest.len() {
        assert(s.skip(start + 1) =~= rest.skip(start));
    }
}

/// The line that is found is the first one that begins with the prefix; none is found
/// exactly where none does.
pub proof fn first_line_with_a_prefix_is_found(all: Seq<Seq<char>>, prefix: Seq<char>, at: int)
    requires
        0 <= at <= all.len(),
        forall|i: int| 0 <= i < at ==> !prefix.is_prefix_of(#[trigger] all[i]),
        at < all.len() ==> prefix.is_prefix_of(all[at]),
    ensures
        first_with_prefix(all, prefix) == if at < all.len() {
            Some(all[at])
        } else {
            None
        },
    decreases at,
{
    if at > 0 {
        let rest = all.skip(1);
        assert forall|i: int| 0 <= i < at - 1 implies !prefix.is_prefix_of(#[trigger] rest[i]) by {
            assert(rest[i] == all[i + 1]);
        }
        assert(!prefix.is_prefix_of(all[0]));
        first_line_with_a_prefix_is_found(rest, prefix, at - 1);
    }
}

/// A prefix is taken off as often as it is there; a text that does not begin with it
/// stays as it is.
pub proof fn prefixes_are_taken_off(s: Seq<char>, prefix: Seq<char>)
    ensures
        trim_prefixes(prefix + s, prefix) == trim_prefixes(s, prefix),
        !prefix.is_prefix_of(s) ==> trim_prefixes(s, prefix) == s,
{
    let whole = prefix + s;
    assert(whole.subrange(0, prefix.len() as int) =~= prefix);
    assert(whole.skip(prefix.len() as int) =~= s);
    if prefix.len() == 0 {
        assert(whole =~= s);
    }
}

/// A text has a part in it exactly if it is the part with something before and behind
/// it.
pub proof fn contained_parts_stand_somewhere(front: Seq<char>, part: Seq<char>, back: Seq<char>)
    ensures
        contains_text(front + part + back, part),
        forall|s: Seq<char>| #[trigger]
            contains_text(s, part) ==> exists|at: int|
                0 <= at <= s.len() - part.len() && #[trigger] s.skip(at).take(part.len() as int)
                    == part,
{
    let s = front + part + back;
    assert(s.subrange(front.len() as int, (front.len() + part.len()) as int) =~= part);
    assert(occurs_at(s, part, front.len() as int));
    assert forall|s: Seq<char>| #[trigger] contains_text(s, part) implies exists|at: int|
        0 <= at <= s.len() - part.len() && #[trigger] s.skip(at).take(part.len() as int)
            == part by {
        let at = choose|at: int| occurs_at(s, part, at);
        assert(s.skip(at).take(part.len() as int) =~= s.subrange(at, at + part.len()));
    }
}

/// A number in decimal ends in the character of its last digit, behind the decimal of
/// the rest; one digit stands alone.
pub proof fn decimals_are_made_of_digits(n: nat, d: nat)
    requires
        d < 10,
    ensures
        decimal(d) == seq![("0123456789"@)[d as int]],
        n > 0 ==> decimal(10 * n + d) == decimal(n).push(("0123456789"@)[d as int]),
{
    reveal_strlit("0123456789");
    assert((10 * n + d) / 10 == n && (10 * n + d) % 10 == d);
}

/// Each further digit makes ten times the number and the digit; a plus sign in front
/// changes nothing; a text with anything else in it, or without a digit, is no number.
pub proof fn numbers_are_read_digit_by_digit(s: Seq<char>, c: char, n: nat)
    requires
        unsigned_value(s) == Some(n),
    ensures
        '0' <= c <= '9' ==> unsigned_value(s.push(c)) == Some(
            (10 * n + (c as int - '0' as int)) as nat,
        ),
        '0' <= c <= '9' ==> unsigned_value(seq![c]) == Some((c as int - '0' as int) as nat),
        !('0' <= c <= '9') ==> unsigned_value(s.push(c)) is None,
        s[0] != '+' ==> unsigned_value(seq!['+'] + s) == Some(n),
        unsigned_value(Seq::empty()) is None,
        unsigned_value(seq!['+']) is None,
{
    let digits = if s[0] == '+' {
        s.skip(1)
    } else {
        s
    };
    assert(s.len() > 0);
    let longer = s.push(c);
    let more = if s[0] == '+' {
        longer.skip(1)
    } else {
        longer
    };
    assert(more =~= digits.push(c));
    assert(more.drop_last() =~= digits);
    assert(more.last() == c);
    if is_digit(c) {
        assert forall|i: int| 0 <= i < more.len() implies is_digit(#[trigger] more[i]) by {
            if i < digits.len() {
                assert(more[i] == digits[i]);
            }
        }
        assert(seq![c].drop_last() =~= Seq::empty());
        reveal_with_fuel(digits_value, 2);
        assert(all_digits(seq![c]));
    } else {
        assert(!is_digit(more[more.len() - 1]));
    }
    assert((seq!['+'] + s).skip(1) =~= s);
    assert(seq!['+'].skip(1) =~= Seq::empty());
}

/// A number is read within a bound exactly if it is a number and within the bound.
pub proof fn bounds_are_kept(s: Seq<char>, max: nat, n: nat)
    ensures
        bounded_value(s, max) == Some(n) <==> unsigned_value(s) == Some(n) && n <= max,
{
}

/// Beyond the ASCII characters, white space is the next line, the space that does not
/// break and its narrow kin, the ogham space, the eleven spaces from 0x2000 on, the two
/// separators, the mathematical space and the ideographic one.
pub proof fn wide_white_space(c: char)
    requires
        c as int > 0x7f,
    ensures
        is_white_space(c) <==> 0 <= c as int - 0x2000 < 11 || seq![
            0x85int,
            0xA0,
            0x1680,
            0x2028,
            0x2029,
            0x202F,
            0x205F,
            0x3000,
        ].contains(c as int),
{
    let n = c as int;
    let wide = seq![0x85int, 0xA0, 0x1680, 0x2028, 0x2029, 0x202F, 0x205F, 0x3000];
    assert(wide[0] == 0x85 && wide[1] == 0xA0 && wide[2] == 0x1680 && wide[3] == 0x2028);
    assert(wide[4] == 0x2029 && wide[5] == 0x202F && wide[6] == 0x205F && wide[7] == 0x3000);
    if wide.contains(n) {
        let i = choose|i: int| 0 <= i < wide.len() && wide[i] == n;
        assert(n == wide[i]);
    }
}

} // verus!
