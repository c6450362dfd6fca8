//! Text as sequences of characters: numbers, prefixes, words and letter case.
use vstd::prelude::*;

verus! {

/// The decimal digit of value `d`.
pub open spec fn digit_char(d: int) -> char {
    ('0' as int + d) as char
}

/// Whether a character is an ASCII decimal digit.
pub open spec fn is_digit(c: char) -> bool {
    '0' as int <= c as int <= '9' as int
}

/// The decimal digits of a number, without leading zeros.
pub open spec fn digits(n: nat) -> Seq<char>
    decreases n,
{
    if n < 10 {
        seq![digit_char(n as int)]
    } else {
        digits(n / 10).push(digit_char((n % 10) as int))
    }
}

/// The decimal digits of an integer, with a minus sign before a negative one.
pub open spec fn signed_digits(n: int) -> Seq<char> {
    if n < 0 {
        seq!['-'] + digits((-n) as nat)
    } else {
        digits(n as nat)
    }
}

/// Whether a text consists of digits, at least one.
pub open spec fn is_numeral(s: Seq<char>) -> bool {
    s.len() > 0 && forall|i: int| 0 <= i < s.len() ==> is_digit(#[trigger] s[i])
}

/// The number that a text of digits stands for.
pub open spec fn numeral_value(s: Seq<char>) -> nat
    decreases s.len(),
{
    if s.len() == 0 {
        0
    } else {
        numeral_value(s.drop_last()) * 10 + (s.last() as int - '0' as int) as nat
    }
}

/// The number of at most `max` that a text stands for: digits, with or without a plus sign
/// before them.
pub open spec fn parsed_unsigned(s: Seq<char>, max: nat) -> Option<nat> {
    let body = if s.len() > 0 && s[0] == '+' {
        s.drop_first()
    } else {
        s
    };
    if is_numeral(body) && numeral_value(body) <= max {
        Some(numeral_value(body))
    } else {
        None
    }
}

/// The 32-bit integer that a text stands for: digits, with or without a sign before them.
pub open spec fn parsed_i32(s: Seq<char>) -> Option<int> {
    if s.len() > 0 && s[0] == '-' {
        if is_numeral(s.drop_first()) && numeral_value(s.drop_first()) <= 0x8000_0000 {
            Some(-(numeral_value(s.drop_first()) as int))
        } else {
            None
        }
    } else {
        match parsed_unsigned(s, 0x7FFF_FFFF) {
            Some(n) => Some(n as int),
            None => None,
        }
    }
}

/// Whether `part` stands in `s` at position `at`.
pub open spec fn stands_at(s: Seq<char>, at: int, part: Seq<char>) -> bool {
    &&& 0 <= at
    &&& at + part.len() <= s.len()
    &&& s.subrange(at, at + part.len()) == part
}

/// Whether `s` begins with `prefix`.
pub open spec fn begins_with(s: Seq<char>, prefix: Seq<char>) -> bool {
    stands_at(s, 0, prefix)
}

/// Whether `part` stands anywhere in `s`.
pub open spec fn has_part(s: Seq<char>, part: Seq<char>) -> bool {
    exists|at: int| stands_at(s, at, part)
}

/// `s` without `prefix`, however often it stands at the beginning.
pub open spec fn without_prefix(s: Seq<char>, prefix: Seq<char>) -> Seq<char>
    decreases s.len(),
{
    if prefix.len() > 0 && begins_with(s, prefix) {
        without_prefix(s.skip(prefix.len() as int), prefix)
    } else {
        s
    }
}

/// An ASCII capital letter as the small one; any other character as it is.
pub open spec fn lower(c: char) -> char {
    if 'A' as int <= c as int <= 'Z' as int {
        (c as int + 32) as char
    } else {
        c
    }
}

/// A text with its ASCII capital letters as small ones.
pub open spec fn lowered(s: Seq<char>) -> Seq<char> {
    s.map_values(|c: char| lower(c))
}

/// Whether a character is white space.
pub open spec fn is_space(c: char) -> bool {
    let code = c as int;
    ||| 0x09 <= code <= 0x0D
    ||| code == 0x20
    ||| code == 0x85
    ||| code == 0xA0
    ||| code == 0x1680
    ||| 0x2000 <= code <= 0x200A
    ||| code == 0x2028
    ||| code == 0x2029
    ||| code == 0x202F
    ||| code == 0x205F
    ||| code == 0x3000
}

/// A text without the white space at its beginning.
pub open spec fn trimmed_start(s: Seq<char>) -> Seq<char>
    decreases s.len(),
{
    if s.len() > 0 && is_space(s[0]) {
        trimmed_start(s.drop_first())
    } else {
        s
    }
}

/// A text without the white space at its end.
pub open spec fn trimmed_end(s: Seq<char>) -> Seq<char>
    decreases s.len(),
{
    if s.len() > 0 && is_space(s.last()) {
        trimmed_end(s.drop_last())
    } else {
        s
    }
}

/// A text without the white space at both ends.
pub open spec fn trimmed(s: Seq<char>) -> Seq<char> {
    trimmed_end(trimmed_start(s))
}

/// How many characters stand before the first white space.
pub open spec fn word_len(s: Seq<char>) -> nat
    decreases s.len(),
{
    if s.len() == 0 || is_space(s[0]) {
        0
    } else {
        1 + word_len(s.drop_first())
    }
}

/// The word number `n` of a text, counted from zero; words are parted by white space.
pub open spec fn nth_word(s: Seq<char>, n: nat) -> Option<Seq<char>>
    decreases n,
{
    let t = trimmed_start(s);
    if t.len() == 0 {
        None
    } else if n == 0 {
        Some(t.take(word_len(t) as int))
    } else {
        nth_word(t.skip(word_len(t) as int), (n - 1) as nat)
    }
}

/// How many characters stand before the first line feed.
pub open spec fn line_len(s: Seq<char>) -> nat
    decreases s.len(),
{
    if s.len() == 0 || s[0] == '\n' {
        0
    } else {
        1 + line_len(s.drop_first())
    }
}

/// The first line of a text that begins with `prefix`.
pub open spec fn first_line_with(s: Seq<char>, prefix: Seq<char>) -> Option<Seq<char>>
    decreases s.len(),
{
    let line = s.take(line_len(s) as int);
    if begins_with(line, prefix) {
        Some(line)
    } else if line_len(s) < s.len() {
        first_line_with(s.skip(line_len(s) as int + 1), prefix)
    } else {
        None
    }
}

/// Reading back what was written as digits gives the number.
pub proof fn lemma_digits_parse(n: nat, max: nat)
    requires
        n <= max,
    ensures
        parsed_unsigned(digits(n), max) == Some(n),
{
    lemma_digits_numeral(n);
}

/// Reading back what was written as a signed number gives the number.
pub proof fn lemma_signed_digits_parse(n: i32)
    ensures
        parsed_i32(signed_digits(n as int)) == Some(n as int),
{
    if n < 0 {
        lemma_digits_numeral((-n) as nat);
        assert(signed_digits(n as int).drop_first() =~= digits((-n) as nat));
    } else {
        lemma_digits_numeral(n as nat);
    }
}

/// Taking a prefix off a text that was put behind it once gives the text, unless that begins
/// with the prefix itself.
pub proof fn lemma_prefix_comes_off(prefix: Seq<char>, rest: Seq<char>)
    requires
        prefix.len() > 0,
        !begins_with(rest, prefix),
    ensures
        begins_with(prefix + rest, prefix),
        without_prefix(prefix + rest, prefix) == rest,
{
    assert((prefix + rest).subrange(0, prefix.len() as int) =~= prefix);
    assert((prefix + rest).skip(prefix.len() as int) =~= rest);
    reveal_with_fuel(without_prefix, 2);
}

/// The digits of a number are a numeral of its value.
pub proof fn lemma_digits_numeral(n: nat)
    ensures
        is_numeral(digits(n)),
        numeral_value(digits(n)) == n,
    decreases n,
{
    if n >= 10 {
        lemma_digits_numeral(n / 10);
        assert(digits(n).drop_last() =~= digits(n / 10));
    } else {
        assert(digits(n).drop_last() =~= seq![]);
        assert(numeral_value(digits(n).drop_last()) == 0);
    }
}

/// Different numbers have different digits.
pub proof fn lemma_digits_differ(m: nat, n: nat)
    requires
        m != n,
    ensures
        digits(m) != digits(n),
{
    lemma_digits_numeral(m);
    lemma_digits_numeral(n);
}

proof fn lemma_numeral_grows(s: Seq<char>, i: int)
    requires
        0 <= i <= s.len(),
    ensures
        numeral_value(s.take(i)) <= numeral_value(s),
    decreases s.len() - i,
{
    if i < s.len() {
        lemma_numeral_grows(s, i + 1);
        assert(s.take(i + 1).drop_last() =~= s.take(i));
    } else {
        assert(s.take(i) =~= s);
    }
}

pub(crate) proof fn lemma_trimmed_start(s: Seq<char>, k: int)
    requires
        0 <= k <= s.len(),
        forall|i: int| 0 <= i < k ==> is_space(#[trigger] s[i]),
        k < s.len() ==> !is_space(s[k]),
    ensures
        trimmed_start(s) == s.skip(k),
    decreases k,
{
    if k > 0 {
        assert forall|i: int| 0 <= i < k - 1 implies is_space(#[trigger] s.drop_first()[i]) by {
            assert(is_space(s[i + 1]));
        }
        assert(is_space(s[0]));
        lemma_trimmed_start(s.drop_first(), k - 1);
        assert(s.drop_first().skip(k - 1) =~= s.skip(k));
    } else {
        assert(s.skip(0) =~= s);
    }
}

proof fn lemma_trimmed_end(s: Seq<char>, k: int)
    requires
        0 <= k <= s.len(),
        forall|i: int| k <= i < s.len() ==> is_space(#[trigger] s[i]),
        k > 0 ==> !is_space(s[k - 1]),
    ensures
        trimmed_end(s) == s.take(k),
    decreases s.len() - k,
{
    if k < s.len() {
        assert(is_space(s[s.len() - 1]));
        assert forall|i: int| k <= i < s.len() - 1 implies is_space(
            #[trigger] s.drop_last()[i],
        ) by {
            assert(is_space(s[i]));
        }
        lemma_trimmed_end(s.drop_last(), k);
        assert(s.drop_last().take(k) =~= s.take(k));
    } else {
        assert(s.take(k) =~= s);
    }
}

pub(crate) proof fn lemma_word_len(s: Seq<char>, k: int)
    requires
        0 <= k <= s.len(),
        forall|i: int| 0 <= i < k ==> !is_space(#[trigger] s[i]),
        k < s.len() ==> is_space(s[k]),
    ensures
        word_len(s) == k,
    decreases k,
{
    if k > 0 {
        assert(!is_space(s[0]));
        assert forall|i: int| 0 <= i < k - 1 implies !is_space(#[trigger] s.drop_first()[i]) by {
            assert(!is_space(s[i + 1]));
        }
        lemma_word_len(s.drop_first(), k - 1);
    }
}

pub(crate) proof fn lemma_line_len(s: Seq<char>, k: int)
    requires
        0 <= k <= s.len(),
        forall|i: int| 0 <= i < k ==> #[trigger] s[i] != '\n',
        k < s.len() ==> s[k] == '\n',
    ensures
        line_len(s) == k,
    decreases k,
{
    if k > 0 {
        assert(s[0] != '\n');
        assert forall|i: int| 0 <= i < k - 1 implies #[trigger] s.drop_first()[i] != '\n' by {
            assert(s[i + 1] != '\n');
        }
        lemma_line_len(s.drop_first(), k - 1);
    }
}

/// The characters of a string.
pub fn chars_of(s: &str) -> (out: Vec<char>)
    ensures
        out@ == s@,
{
    let mut out: Vec<char> = Vec::new();
    for c in it: s.chars()
        invariant
            out@ == it.seq().take(it.index() as int),
            it.seq() == s@,
    {
        out.push(c);
    }
    out
}

/// The characters from position `from` up to position `to`.
pub fn part_of(s: &Vec<char>, from: usize, to: usize) -> (out: Vec<char>)
    requires
        from <= to <= s@.len(),
    ensures
        out@ == s@.subrange(from as int, to as int),
{
    let mut out: Vec<char> = Vec::new();
    let mut i: usize = from;
    while i < to
        invariant
            from <= i <= to <= s@.len(),
            out@ == s@.subrange(from as int, i as int),
        decreases to - i,
    {
        out.push(s[i]);
        i = i + 1;
        assert(out@ =~= s@.subrange(from as int, i as int));
    }
    out
}

/// Whether `part` stands in `s` at position `at`.
pub fn is_at(s: &Vec<char>, at: usize, part: &Vec<char>) -> (found: bool)
    ensures
        found == stands_at(s@, at as int, part@),
{
    if at > s.len() || part.len() > s.len() - at {
        return false;
    }
    let mut i: usize = 0;
    while i < part.len()
        invariant
            i <= part@.len(),
            at + part@.len() <= s.len(),
            forall|j: int| 0 <= j < i ==> s@[at + j] == #[trigger] part@[j],
        decreases part.len() - i,
    {
        if s[at + i] != part[i] {
            assert(s@.subrange(at as int, at + part@.len())[i as int] != part@[i as int]);
            return false;
        }
        i = i + 1;
    }
    assert(s@.subrange(at as int, at + part@.len()) =~= part@);
    true
}

/// Whether two texts are the same.
pub fn same(a: &Vec<char>, b: &Vec<char>) -> (out: bool)
    ensures
        out == (a@ == b@),
{
    if a.len() != b.len() {
        return false;
    }
    let out = is_at(a, 0, b);
    assert(a@.subrange(0, a@.len() as int) =~= a@);
    out
}

/// Whether two strings are the same.
pub fn same_str(a: &str, b: &str) -> (out: bool)
    ensures
        out == (a@ == b@),
{
    same(&chars_of(a), &chars_of(b))
}

/// Whether `s` begins with `prefix`.
pub fn begins(s: &Vec<char>, prefix: &Vec<char>) -> (out: bool)
    ensures
        out == begins_with(s@, prefix@),
{
    is_at(s, 0, prefix)
}

/// Whether `part` stands anywhere in `s`.
pub fn contains(s: &Vec<char>, part: &Vec<char>) -> (found: bool)
    ensures
        found == has_part(s@, part@),
{
    let mut at: usize = 0;
    while at < s.len()
        invariant
            at <= s@.len(),
            forall|k: int| 0 <= k < at ==> !#[trigger] stands_at(s@, k, part@),
        decreases s.len() - at,
    {
        if is_at(s, at, part) {
            return true;
        }
        at = at + 1;
    }
    is_at(s, at, part)
}

/// `s` without `prefix`, however often it stands at the beginning.
pub fn strip_prefix(s: &Vec<char>, prefix: &Vec<char>) -> (out: Vec<char>)
    ensures
        out@ == without_prefix(s@, prefix@),
{
    let mut from: usize = 0;
    assert(s@.skip(0) =~= s@);
    if prefix.len() > 0 {
        while is_at(s, from, prefix)
            invariant
                prefix@.len() > 0,
                from <= s@.len(),
                without_prefix(s@.skip(from as int), prefix@) == without_prefix(s@, prefix@),
            ensures
                from <= s@.len(),
                without_prefix(s@.skip(from as int), prefix@) == without_prefix(s@, prefix@),
                !stands_at(s@, from as int, prefix@),
            decreases s.len() - from,
        {
            let ghost rest = s@.skip(from as int);
            assert(rest.subrange(0, prefix@.len() as int) =~= s@.subrange(
                from as int,
                from + prefix@.len(),
            ));
            assert(rest.skip(prefix@.len() as int) =~= s@.skip(from + prefix@.len()));
            from = from + prefix.len();
        }
        let ghost rest = s@.skip(from as int);
        assert(begins_with(rest, prefix@) ==> stands_at(s@, from as int, prefix@)) by {
            if begins_with(rest, prefix@) {
                assert(rest.subrange(0, prefix@.len() as int) =~= s@.subrange(
                    from as int,
                    from + prefix@.len(),
                ));
            }
        }
    }
    assert(s@.subrange(from as int, s@.len() as int) =~= s@.skip(from as int));
    part_of(s, from, s.len())
}

fn lower_char(c: char) -> (out: char)
    ensures
        out == lower(c),
{
    if 'A' <= c && c <= 'Z' {
        (c as u8 + 32) as char
    } else {
        c
    }
}

/// A text with its ASCII capital letters as small ones.
pub fn to_lower(s: &Vec<char>) -> (out: Vec<char>)
    ensures
        out@ == lowered(s@),
{
    let mut out: Vec<char> = Vec::new();
    let mut i: usize = 0;
    while i < s.len()
        invariant
            i <= s@.len(),
            out@ == lowered(s@.take(i as int)),
        decreases s.len() - i,
    {
        out.push(lower_char(s[i]));
        i = i + 1;
        assert(out@ =~= lowered(s@.take(i as int)));
    }
    assert(s@.take(i as int) =~= s@);
    out
}

/// Whether a character is white space.
pub fn space(c: char) -> (out: bool)
    ensures
        out == is_space(c),
{
    let code: u32 = c as u32;
    (0x09 <= code && code <= 0x0D) || code == 0x20 || code == 0x85 || code == 0xA0 || code == 0x1680
        || (0x2000 <= code && code <= 0x200A) || code == 0x2028 || code == 0x2029 || code == 0x202F
        || code == 0x205F || code == 0x3000
}

fn space_end(s: &Vec<char>, from: usize) -> (end: usize)
    requires
        from <= s@.len(),
    ensures
        from <= end <= s@.len(),
        trimmed_start(s@.skip(from as int)) == s@.skip(end as int),
        end < s@.len() ==> !is_space(s@[end as int]),
{
    let mut end: usize = from;
    while end < s.len() && space(s[end])
        invariant
            from <= end <= s@.len(),
            forall|i: int| from <= i < end ==> is_space(#[trigger] s@[i]),
        decreases s.len() - end,
    {
        end = end + 1;
    }
    proof {
        let rest = s@.skip(from as int);
        assert forall|i: int| 0 <= i < end - from implies is_space(#[trigger] rest[i]) by {
            assert(is_space(s@[from + i]));
        }
        lemma_trimmed_start(rest, end - from);
        assert(rest.skip(end - from) =~= s@.skip(end as int));
    }
    end
}

fn word_end(s: &Vec<char>, from: usize) -> (end: usize)
    requires
        from <= s@.len(),
    ensures
        from <= end <= s@.len(),
        word_len(s@.skip(from as int)) == end - from,
{
    let mut end: usize = from;
    while end < s.len() && !space(s[end])
        invariant
            from <= end <= s@.len(),
            forall|i: int| from <= i < end ==> !is_space(#[trigger] s@[i]),
        decreases s.len() - end,
    {
        end = end + 1;
    }
    proof {
        let rest = s@.skip(from as int);
        assert forall|i: int| 0 <= i < end - from implies !is_space(#[trigger] rest[i]) by {
            assert(!is_space(s@[from + i]));
        }
        lemma_word_len(rest, end - from);
    }
    end
}

/// The second word of a text.
pub fn second_word(s: &Vec<char>) -> (out: Option<Vec<char>>)
    ensures
        match out {
            Some(word) => nth_word(s@, 1) == Some(word@),
            None => nth_word(s@, 1) is None,
        },
{
    reveal_with_fuel(nth_word, 2);
    assert(s@.skip(0) =~= s@);
    let first: usize = space_end(s, 0);
    if first == s.len() {
        return None;
    }
    let first_end: usize = word_end(s, first);
    assert(s@.skip(first as int).skip(first_end - first) =~= s@.skip(first_end as int));
    let second: usize = space_end(s, first_end);
    if second == s.len() {
        return None;
    }
    let second_end: usize = word_end(s, second);
    assert(s@.skip(second as int).take(second_end - second) =~= s@.subrange(
        second as int,
        second_end as int,
    ));
    Some(part_of(s, second, second_end))
}

/// A text without the white space at both ends.
pub fn trim(text: &str) -> (out: &str)
    ensures
        out@ == trimmed(text@),
{
    let s = chars_of(text);
    assert(s@.skip(0) =~= s@);
    let start: usize = space_end(&s, 0);
    let ghost rest = s@.skip(start as int);
    let mut end: usize = s.len();
    while end > start && space(s[end - 1])
        invariant
            start <= end <= s@.len(),
            forall|i: int| end <= i < s@.len() ==> is_space(#[trigger] s@[i]),
        decreases end,
    {
        end = end - 1;
    }
    proof {
        assert forall|i: int| end - start <= i < rest.len() implies is_space(
            #[trigger] rest[i],
        ) by {
            assert(is_space(s@[start + i]));
        }
        lemma_trimmed_end(rest, end - start);
        assert(rest.take(end - start) =~= s@.subrange(start as int, end as int));
    }
    text.substring_char(start, end)
}

/// The first line of a text that begins with `prefix`.
pub fn find_line(s: &Vec<char>, prefix: &Vec<char>) -> (out: Option<Vec<char>>)
    ensures
        match out {
            Some(line) => first_line_with(s@, prefix@) == Some(line@),
            None => first_line_with(s@, prefix@) is None,
        },
{
    let mut from: usize = 0;
    assert(s@.skip(0) =~= s@);
    loop
        invariant
            from <= s@.len(),
            first_line_with(s@.skip(from as int), prefix@) == first_line_with(s@, prefix@),
        decreases s.len() - from,
    {
        let ghost rest = s@.skip(from as int);
        let mut end: usize = from;
        while end < s.len() && s[end] != '\n'
            invariant
                from <= end <= s@.len(),
                forall|i: int| from <= i < end ==> #[trigger] s@[i] != '\n',
            decreases s.len() - end,
        {
            end = end + 1;
        }
        proof {
            assert forall|i: int| 0 <= i < end - from implies #[trigger] rest[i] != '\n' by {
                assert(s@[from + i] != '\n');
            }
            lemma_line_len(rest, end - from);
            assert(rest.take(end - from) =~= s@.subrange(from as int, end as int));
        }
        let line = part_of(s, from, end);
        if begins(&line, prefix) {
            return Some(line);
        }
        if end == s.len() {
            return None;
        }
        assert(rest.skip(end - from + 1) =~= s@.skip(end + 1));
        from = end + 1;
    }
}

fn digit_str(d: u64) -> (out: &'static str)
    requires
        d < 10,
    ensures
        out@ == seq![digit_char(d as int)],
{
    proof {
        reveal_strlit("0");
        reveal_strlit("1");
        reveal_strlit("2");
        reveal_strlit("3");
        reveal_strlit("4");
        reveal_strlit("5");
        reveal_strlit("6");
        reveal_strlit("7");
        reveal_strlit("8");
        reveal_strlit("9");
    }
    match d {
        0 => "0",
        1 => "1",
        2 => "2",
        3 => "3",
        4 => "4",
        5 => "5",
        6 => "6",
        7 => "7",
        8 => "8",
        _ => "9",
    }
}

/// Appends the decimal digits of `n`.
pub fn push_number(s: &mut String, n: u64)
    ensures
        final(s)@ == old(s)@ + digits(n as nat),
    decreases n,
{
    if n >= 10 {
        push_number(s, n / 10);
    }
    s.append(digit_str(n % 10));
    assert(s@ =~= old(s)@ + digits(n as nat));
}

/// Appends the decimal digits of `n`, with a minus sign if it is negative.
pub fn push_signed(s: &mut String, n: i32)
    ensures
        final(s)@ == old(s)@ + signed_digits(n as int),
{
    if n < 0 {
        proof {
            reveal_strlit("-");
        }
        s.append("-");
        push_number(s, (-(n as i64)) as u64);
        assert(s@ =~= old(s)@ + signed_digits(n as int));
    } else {
        push_number(s, n as u64);
    }
}

/// `prefix` with the decimal digits of `n` after it.
pub fn numbered(prefix: &str, n: u64) -> (out: String)
    ensures
        out@ == prefix@ + digits(n as nat),
{
    let mut out = String::new();
    out.append(prefix);
    push_number(&mut out, n);
    assert(out@ =~= prefix@ + digits(n as nat));
    out
}

fn parse_digits(s: &Vec<char>, from: usize, max: u64) -> (out: Option<u64>)
    requires
        from <= s@.len(),
    ensures
        out == (if is_numeral(s@.skip(from as int)) && numeral_value(s@.skip(from as int)) <= max {
            Some(numeral_value(s@.skip(from as int)) as u64)
        } else {
            None
        }),
{
    let ghost body = s@.skip(from as int);
    if from == s.len() {
        return None;
    }
    let mut value: u64 = 0;
    let mut i: usize = from;
    while i < s.len()
        invariant
            from <= i <= s@.len(),
            body == s@.skip(from as int),
            value == numeral_value(body.take(i - from)),
            value <= max,
            forall|j: int| 0 <= j < i - from ==> is_digit(#[trigger] body[j]),
        decreases s.len() - i,
    {
        let c = s[i];
        assert(body[i - from] == c);
        if !('0' <= c && c <= '9') {
            return None;
        }
        let next: u128 = value as u128 * 10 + (c as u8 - 48) as u128;
        assert(body.take(i - from + 1).drop_last() =~= body.take(i - from));
        if next > max as u128 {
            proof {
                lemma_numeral_grows(body, i - from + 1);
            }
            return None;
        }
        value = next as u64;
        i = i + 1;
    }
    assert(body.take(i - from) =~= body);
    Some(value)
}

fn parse_unsigned(s: &Vec<char>, max: u64) -> (out: Option<u64>)
    ensures
        match out {
            Some(n) => parsed_unsigned(s@, max as nat) == Some(n as nat),
            None => parsed_unsigned(s@, max as nat) is None,
        },
{
    assert(s@.skip(0) =~= s@);
    if s.len() > 0 && s[0] == '+' {
        assert(s@.skip(1) =~= s@.drop_first());
        parse_digits(s, 1, max)
    } else {
        parse_digits(s, 0, max)
    }
}

/// Reads a text as a `usize`.
pub fn parse_usize(s: &Vec<char>) -> (out: Option<usize>)
    ensures
        match out {
            Some(n) => parsed_unsigned(s@, usize::MAX as nat) == Some(n as nat),
            None => parsed_unsigned(s@, usize::MAX as nat) is None,
        },
{
    match parse_unsigned(s, usize::MAX as u64) {
        Some(n) => Some(n as usize),
        None => None,
    }
}

/// Reads a text as a `u32`.
pub fn parse_u32(s: &Vec<char>) -> (out: Option<u32>)
    ensures
        match out {
            Some(n) => parsed_unsigned(s@, u32::MAX as nat) == Some(n as nat),
            None => parsed_unsigned(s@, u32::MAX as nat) is None,
        },
{
    match parse_unsigned(s, u32::MAX as u64) {
        Some(n) => Some(n as u32),
        None => None,
    }
}

/// Reads a text as an `i32`.
pub fn parse_i32(s: &Vec<char>) -> (out: Option<i32>)
    ensures
        match out {
            Some(n) => parsed_i32(s@) == Some(n as int),
            None => parsed_i32(s@) is None,
        },
{
    if s.len() > 0 && s[0] == '-' {
        assert(s@.skip(1) =~= s@.drop_first());
        match parse_digits(s, 1, 0x8000_0000) {
            Some(n) => Some((-(n as i64)) as i32),
            None => None,
        }
    } else {
        match parse_unsigned(s, 0x7FFF_FFFF) {
            Some(n) => Some(n as i32),
            None => None,
        }
    }
}

} // verus!
