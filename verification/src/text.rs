//! Text operations on `str` and `String`, each with a contract over the
//! sequence of characters that the text holds.

use vstd::prelude::*;

verus! {

/// `String::push` appends one character at the end of the text.
pub assume_specification[ std::string::String::push ](target: &mut std::string::String, c: char)
    ensures
        final(target)@ == old(target)@.push(c),
;

/// The characters of a text, in order.
pub fn chars_of(text: &str) -> (chars: Vec<char>)
    ensures
        chars@ == text@,
{
    let mut chars: Vec<char> = Vec::new();
    for c in it: text.chars()
        invariant
            chars@ == it.seq().take(it.index()),
            it.seq() == text@,
    {
        chars.push(c);
    }
    chars
}

/// The text that the characters `chars[from..to]` spell.
pub fn text_of(chars: &Vec<char>, from: usize, to: usize) -> (text: String)
    requires
        from <= to <= chars.len(),
    ensures
        text@ == chars@.subrange(from as int, to as int),
{
    let mut text = String::new();
    for i in from..to
        invariant
            from <= i <= to <= chars.len(),
            text@ == chars@.subrange(from as int, i as int),
    {
        text.push(chars[i]);
    }
    text
}

/// Whether two texts are the same.
pub fn same_text(left: &str, right: &str) -> (same: bool)
    ensures
        same == (left@ == right@),
{
    left.to_string() == right.to_string()
}

/// Whether a text has no characters.
pub fn is_empty_text(content: &str) -> (empty: bool)
    ensures
        empty == (content@.len() == 0),
{
    let empty = same_text(content, "");
    proof {
        reveal_strlit("");
        assert(content@.len() == 0 ==> content@ =~= ""@);
    }
    empty
}

/// Whether `words` holds a text equal to `word`.
pub fn holds_text(words: &Vec<String>, word: &str) -> (found: bool)
    ensures
        found == words.deep_view().contains(word@),
{
    for i in 0..words.len()
        invariant
            forall|k: int| 0 <= k < i ==> words.deep_view()[k] != word@,
    {
        if same_text(words[i].as_str(), word) {
            assert(words.deep_view()[i as int] == word@);
            return true;
        }
    }
    false
}

/// Whether `part` occurs in `text` at position `at`.
pub open spec fn occurs_at(text: Seq<char>, part: Seq<char>, at: int) -> bool {
    0 <= at && at + part.len() <= text.len() && text.subrange(at, at + part.len()) == part
}

/// Whether `part` occurs anywhere in `text`.
pub open spec fn occurs_in(text: Seq<char>, part: Seq<char>) -> bool {
    exists|at: int| occurs_at(text, part, at)
}

pub open spec fn starts_with(text: Seq<char>, part: Seq<char>) -> bool {
    occurs_at(text, part, 0)
}

pub open spec fn ends_with(text: Seq<char>, part: Seq<char>) -> bool {
    occurs_at(text, part, text.len() - part.len())
}

fn chars_occur_at(text: &Vec<char>, part: &Vec<char>, at: usize) -> (found: bool)
    requires
        at + part.len() <= text.len(),
    ensures
        found == occurs_at(text@, part@, at as int),
{
    for i in 0..part.len()
        invariant
            at + part.len() <= text.len(),
            forall|k: int| 0 <= k < i ==> text@[at + k] == part@[k],
    {
        if text[at + i] != part[i] {
            assert(text@.subrange(at as int, at + part@.len())[i as int] != part@[i as int]);
            return false;
        }
    }
    assert(text@.subrange(at as int, at + part@.len()) =~= part@);
    true
}

/// Whether a text begins with `part`.
pub fn text_starts_with(text: &str, part: &str) -> (found: bool)
    ensures
        found == starts_with(text@, part@),
{
    let chars = chars_of(text);
    let part_chars = chars_of(part);
    part_chars.len() <= chars.len() && chars_occur_at(&chars, &part_chars, 0)
}

/// Whether a text ends in `part`.
pub fn text_ends_with(text: &str, part: &str) -> (found: bool)
    ensures
        found == ends_with(text@, part@),
{
    let chars = chars_of(text);
    let part_chars = chars_of(part);
    part_chars.len() <= chars.len() && chars_occur_at(
        &chars,
        &part_chars,
        chars.len() - part_chars.len(),
    )
}

/// Whether a text holds `part` at any position.
pub fn text_contains(text: &str, part: &str) -> (found: bool)
    ensures
        found == occurs_in(text@, part@),
{
    let chars = chars_of(text);
    let part_chars = chars_of(part);
    if part_chars.len() > chars.len() {
        return false;
    }
    let last: usize = chars.len() - part_chars.len();
    let mut at: usize = 0;
    while at <= last
        invariant
            last + part_chars.len() == chars.len(),
            chars@ == text@,
            part_chars@ == part@,
            at <= last + 1,
            forall|k: int| 0 <= k < at ==> !occurs_at(text@, part@, k),
        decreases last + 1 - at,
    {
        if chars_occur_at(&chars, &part_chars, at) {
            assert(occurs_at(text@, part@, at as int));
            return true;
        }
        if at == last {
            assert(forall|k: int| occurs_at(text@, part@, k) ==> 0 <= k <= last);
            return false;
        }
        at += 1;
    }
    false
}

/// A part occurs in a text that has it in its middle.
pub proof fn part_of_middle(before: Seq<char>, part: Seq<char>, after: Seq<char>)
    ensures
        occurs_in(before + part + after, part),
{
    let whole = before + part + after;
    assert(whole.subrange(before.len() as int, (before.len() + part.len()) as int) =~= part);
    assert(occurs_at(whole, part, before.len() as int));
}

/// A part of a part occurs in the whole.
pub proof fn part_of_part(whole: Seq<char>, middle: Seq<char>, part: Seq<char>)
    requires
        occurs_in(whole, middle),
        occurs_in(middle, part),
    ensures
        occurs_in(whole, part),
{
    let at = choose|at: int| occurs_at(whole, middle, at);
    let within = choose|within: int| occurs_at(middle, part, within);
    assert(whole.subrange(at + within, at + within + part.len()) =~= whole.subrange(
        at,
        at + middle.len(),
    ).subrange(within, within + part.len()));
    assert(occurs_at(whole, part, at + within));
}

/// The characters with the Unicode property `White_Space`.
pub open spec fn white_space(c: char) -> bool {
    ||| '\u{9}' <= c <= '\u{d}'
    ||| c == '\u{20}'
    ||| c == '\u{85}'
    ||| c == '\u{a0}'
    ||| c == '\u{1680}'
    ||| '\u{2000}' <= c <= '\u{200a}'
    ||| c == '\u{2028}'
    ||| c == '\u{2029}'
    ||| c == '\u{202f}'
    ||| c == '\u{205f}'
    ||| c == '\u{3000}'
}

/// Whether a character has the Unicode property `White_Space`.
pub fn is_white_space(c: char) -> (blank: bool)
    ensures
        blank == white_space(c),
{
    ('\u{9}' <= c && c <= '\u{d}') || c == '\u{20}' || c == '\u{85}' || c == '\u{a0}' || c
        == '\u{1680}' || ('\u{2000}' <= c && c <= '\u{200a}') || c == '\u{2028}' || c
        == '\u{2029}' || c == '\u{202f}' || c == '\u{205f}' || c == '\u{3000}'
}

/// `text` without the white space that it begins with.
pub open spec fn trim_start(text: Seq<char>) -> Seq<char>
    decreases text.len(),
{
    if text.len() > 0 && white_space(text[0]) {
        trim_start(text.drop_first())
    } else {
        text
    }
}

/// `text` without the white space that it ends in.
pub open spec fn trim_end(text: Seq<char>) -> Seq<char>
    decreases text.len(),
{
    if text.len() > 0 && white_space(text.last()) {
        trim_end(text.drop_last())
    } else {
        text
    }
}

/// `text` without the white space at its two ends.
pub open spec fn trim(text: Seq<char>) -> Seq<char> {
    trim_end(trim_start(text))
}

/// `text` without the run of `mark` that it ends in.
pub open spec fn trim_end_mark(text: Seq<char>, mark: char) -> Seq<char>
    decreases text.len(),
{
    if text.len() > 0 && text.last() == mark {
        trim_end_mark(text.drop_last(), mark)
    } else {
        text
    }
}

/// `text` without the run of `mark` that it begins with.
pub open spec fn trim_start_mark(text: Seq<char>, mark: char) -> Seq<char>
    decreases text.len(),
{
    if text.len() > 0 && text[0] == mark {
        trim_start_mark(text.drop_first(), mark)
    } else {
        text
    }
}

/// A text without the white space at its two ends.
pub fn trimmed(text: &str) -> (result: String)
    ensures
        result@ == trim(text@),
{
    let chars = chars_of(text);
    let mut from: usize = 0;
    assert(chars@.subrange(0, chars@.len() as int) =~= text@);
    while from < chars.len() && is_white_space(chars[from])
        invariant
            from <= chars.len(),
            trim_start(chars@.subrange(from as int, chars@.len() as int)) == trim_start(text@),
        decreases chars.len() - from,
    {
        assert(chars@.subrange(from as int, chars@.len() as int).drop_first() =~= chars@.subrange(
            from + 1,
            chars@.len() as int,
        ));
        from += 1;
    }
    let ghost inner = chars@.subrange(from as int, chars@.len() as int);
    assert(trim_start(text@) == inner);
    let mut to: usize = chars.len();
    while to > from && is_white_space(chars[to - 1])
        invariant
            from <= to <= chars.len(),
            trim_end(chars@.subrange(from as int, to as int)) == trim_end(inner),
        decreases to,
    {
        assert(chars@.subrange(from as int, to as int).drop_last() =~= chars@.subrange(
            from as int,
            to - 1,
        ));
        to -= 1;
    }
    text_of(&chars, from, to)
}

/// A text without the run of `mark` that it ends in.
pub fn trimmed_end_mark(text: &str, mark: char) -> (result: String)
    ensures
        result@ == trim_end_mark(text@, mark),
{
    let chars = chars_of(text);
    let mut to: usize = chars.len();
    assert(chars@.subrange(0, chars@.len() as int) =~= text@);
    while to > 0 && chars[to - 1] == mark
        invariant
            to <= chars.len(),
            trim_end_mark(chars@.subrange(0, to as int), mark) == trim_end_mark(text@, mark),
        decreases to,
    {
        assert(chars@.subrange(0, to as int).drop_last() =~= chars@.subrange(0, to - 1));
        to -= 1;
    }
    text_of(&chars, 0, to)
}

/// A text without the run of `mark` that it begins with.
pub fn trimmed_start_mark(text: &str, mark: char) -> (result: String)
    ensures
        result@ == trim_start_mark(text@, mark),
{
    let chars = chars_of(text);
    let mut from: usize = 0;
    assert(chars@.subrange(0, chars@.len() as int) =~= text@);
    while from < chars.len() && chars[from] == mark
        invariant
            from <= chars.len(),
            trim_start_mark(chars@.subrange(from as int, chars@.len() as int), mark)
                == trim_start_mark(text@, mark),
        decreases chars.len() - from,
    {
        assert(chars@.subrange(from as int, chars@.len() as int).drop_first() =~= chars@.subrange(
            from + 1,
            chars@.len() as int,
        ));
        from += 1;
    }
    text_of(&chars, from, chars.len())
}

/// The lower-case form of an ASCII capital; any other character is itself.
pub open spec fn lower_char(c: char) -> char {
    if 'A' <= c <= 'Z' {
        ((c as u32) + 32) as char
    } else {
        c
    }
}

/// `text` with each ASCII capital in its lower-case form.
pub open spec fn lower_ascii(text: Seq<char>) -> Seq<char> {
    text.map_values(|c: char| lower_char(c))
}

fn lowered_char(c: char) -> (lower: char)
    ensures
        lower == lower_char(c),
{
    if 'A' <= c && c <= 'Z' {
        ((c as u8) + 32) as char
    } else {
        c
    }
}

/// A text with each ASCII capital in its lower-case form.
pub fn lowered_ascii(text: &str) -> (result: String)
    ensures
        result@ == lower_ascii(text@),
{
    let chars = chars_of(text);
    let mut result = String::new();
    for i in 0..chars.len()
        invariant
            chars@ == text@,
            result@ == lower_ascii(text@).take(i as int),
    {
        result.push(lowered_char(chars[i]));
        assert(lower_ascii(text@).take(i + 1) =~= lower_ascii(text@).take(i as int).push(
            lower_char(chars@[i as int]),
        ));
    }
    assert(lower_ascii(text@).take(chars@.len() as int) =~= lower_ascii(text@));
    result
}

/// The decimal digit for a number below ten.
pub open spec fn digit_char(digit: int) -> char {
    if digit == 0 {
        '0'
    } else if digit == 1 {
        '1'
    } else if digit == 2 {
        '2'
    } else if digit == 3 {
        '3'
    } else if digit == 4 {
        '4'
    } else if digit == 5 {
        '5'
    } else if digit == 6 {
        '6'
    } else if digit == 7 {
        '7'
    } else if digit == 8 {
        '8'
    } else {
        '9'
    }
}

/// A natural number in decimal notation, without leading zeros.
pub open spec fn decimal_nat(n: nat) -> Seq<char>
    decreases n,
{
    if n < 10 {
        seq![digit_char(n as int)]
    } else {
        decimal_nat(n / 10).push(digit_char((n % 10) as int))
    }
}

/// An integer in decimal notation.
pub open spec fn decimal(n: int) -> Seq<char> {
    if n < 0 {
        "-"@ + decimal_nat((-n) as nat)
    } else {
        decimal_nat(n as nat)
    }
}

fn push_digit(out: &mut String, digit: u64)
    requires
        digit < 10,
    ensures
        final(out)@ == old(out)@.push(digit_char(digit as int)),
{
    let c: char = match digit {
        0 => '0',
        1 => '1',
        2 => '2',
        3 => '3',
        4 => '4',
        5 => '5',
        6 => '6',
        7 => '7',
        8 => '8',
        _ => '9',
    };
    out.push(c);
}

fn push_decimal(out: &mut String, n: u64)
    ensures
        final(out)@ == old(out)@ + decimal_nat(n as nat),
    decreases n,
{
    if n >= 10 {
        push_decimal(out, n / 10);
    }
    push_digit(out, n % 10);
    assert(out@ =~= old(out)@ + decimal_nat(n as nat));
}

/// An unsigned integer in decimal notation.
pub fn unsigned_text(n: u64) -> (text: String)
    ensures
        text@ == decimal(n as int),
{
    let mut text = String::new();
    push_decimal(&mut text, n);
    assert(text@ =~= decimal_nat(n as nat));
    text
}

/// A signed integer in decimal notation.
pub fn signed_text(n: i32) -> (text: String)
    ensures
        text@ == decimal(n as int),
{
    if n < 0 {
        let mut text = "-".to_string();
        let magnitude: i64 = -(n as i64);
        push_decimal(&mut text, magnitude as u64);
        text
    } else {
        unsigned_text(n as u64)
    }
}

/// The first `count` of `parts`, one after the other with `separator` between them.
pub open spec fn join_first(parts: Seq<Seq<char>>, separator: Seq<char>, count: nat) -> Seq<char>
    decreases count,
{
    if count == 0 {
        Seq::empty()
    } else if count == 1 {
        parts[0]
    } else {
        join_first(parts, separator, (count - 1) as nat) + separator + parts[count - 1]
    }
}

/// All of `parts`, one after the other with `separator` between them.
pub open spec fn join(parts: Seq<Seq<char>>, separator: Seq<char>) -> Seq<char> {
    join_first(parts, separator, parts.len())
}

/// Texts one after the other with `separator` between them.
pub fn joined(parts: &Vec<String>, separator: &str) -> (result: String)
    ensures
        result@ == join(parts.deep_view(), separator@),
{
    let mut result = String::new();
    for i in 0..parts.len()
        invariant
            result@ == join_first(parts.deep_view(), separator@, i as nat),
    {
        if i > 0 {
            result.append(separator);
        }
        result.append(parts[i].as_str());
        if i == 0 {
            assert(result@ =~= parts.deep_view()[0]);
        }
    }
    result
}

/// Whether `left` from position `at` on comes before `right` from there on, character
/// by character.
pub open spec fn below_from(left: Seq<char>, right: Seq<char>, at: nat) -> bool
    decreases right.len() - at,
{
    if at >= right.len() {
        false
    } else if at >= left.len() {
        true
    } else if left[at as int] == right[at as int] {
        below_from(left, right, at + 1)
    } else {
        left[at as int] < right[at as int]
    }
}

/// Whether `left` comes before `right` in the order of texts.
pub open spec fn below(left: Seq<char>, right: Seq<char>) -> bool {
    below_from(left, right, 0)
}

/// Whether a text comes before another in the order of texts.
pub fn is_below(left: &str, right: &str) -> (result: bool)
    ensures
        result == below(left@, right@),
{
    let left_chars = chars_of(left);
    let right_chars = chars_of(right);
    let mut at: usize = 0;
    while at < right_chars.len()
        invariant
            at <= right_chars.len(),
            left_chars@ == left@,
            right_chars@ == right@,
            below(left@, right@) == below_from(left@, right@, at as nat),
        decreases right_chars.len() - at,
    {
        if at >= left_chars.len() {
            return true;
        }
        if left_chars[at] != right_chars[at] {
            return left_chars[at] < right_chars[at];
        }
        at += 1;
    }
    false
}

proof fn below_from_irreflexive(text: Seq<char>, at: nat)
    ensures
        !below_from(text, text, at),
    decreases text.len() - at,
{
    if at < text.len() {
        below_from_irreflexive(text, at + 1);
    }
}

proof fn below_from_transitive(a: Seq<char>, b: Seq<char>, c: Seq<char>, at: nat)
    requires
        below_from(a, b, at),
        below_from(b, c, at),
    ensures
        below_from(a, c, at),
    decreases c.len() - at,
{
    if at < a.len() && at < b.len() && at < c.len() && a[at as int] == b[at as int] && b[at as int]
        == c[at as int] {
        below_from_transitive(a, b, c, at + 1);
    }
}

proof fn below_from_total(a: Seq<char>, b: Seq<char>, at: nat)
    requires
        at <= a.len(),
        at <= b.len(),
        forall|k: int| 0 <= k < at ==> a[k] == b[k],
        !below_from(a, b, at),
        !below_from(b, a, at),
    ensures
        a == b,
    decreases b.len() - at,
{
    if at < a.len() && at < b.len() {
        below_from_total(a, b, at + 1);
    } else {
        assert(a =~= b);
    }
}

/// The order of texts is a strict total order.
pub proof fn text_order(a: Seq<char>, b: Seq<char>, c: Seq<char>)
    ensures
        !below(a, a),
        below(a, b) && below(b, c) ==> below(a, c),
        below(a, b) || below(b, a) || a == b,
        !(below(a, b) && below(b, a)),
{
    below_from_irreflexive(a, 0);
    if below(a, b) && below(b, c) {
        below_from_transitive(a, b, c, 0);
    }
    if below(a, b) && below(b, a) {
        below_from_transitive(a, b, a, 0);
    }
    if !below(a, b) && !below(b, a) {
        below_from_total(a, b, 0);
    }
}


/// A text comes before another where the first characters in which they differ do.
pub proof fn below_by(left: Seq<char>, right: Seq<char>, at: nat)
    requires
        at < left.len(),
        at < right.len(),
        forall|k: int| 0 <= k < at ==> left[k] == right[k],
        left[at as int] < right[at as int],
    ensures
        below(left, right),
{
    below_by_from(left, right, at, 0);
}

proof fn below_by_from(left: Seq<char>, right: Seq<char>, at: nat, from: nat)
    requires
        from <= at,
        at < left.len(),
        at < right.len(),
        forall|k: int| 0 <= k < at ==> left[k] == right[k],
        left[at as int] < right[at as int],
    ensures
        below_from(left, right, from),
    decreases at - from,
{
    if from < at {
        below_by_from(left, right, at, from + 1);
    }
}

/// Whether a text is made of parts, one after the other, with a separator between each two.
pub open spec fn laid_out(whole: Seq<char>, parts: Seq<Seq<char>>, separator: Seq<char>) -> bool
    decreases parts.len(),
{
    if parts.len() == 0 {
        whole.len() == 0
    } else if parts.len() == 1 {
        whole == parts[0]
    } else {
        let first = parts[0] + separator;
        starts_with(whole, first) && laid_out(
            whole.subrange(first.len() as int, whole.len() as int),
            parts.drop_first(),
            separator,
        )
    }
}

proof fn join_first_from_front(parts: Seq<Seq<char>>, separator: Seq<char>, count: nat)
    requires
        2 <= count <= parts.len(),
    ensures
        join_first(parts, separator, count) == parts[0] + separator + join_first(
            parts.drop_first(),
            separator,
            (count - 1) as nat,
        ),
    decreases count,
{
    let rest = parts.drop_first();
    if count == 2 {
        assert(join_first(parts, separator, 1) == parts[0]);
        assert(join_first(rest, separator, 1) == rest[0]);
    } else {
        join_first_from_front(parts, separator, (count - 1) as nat);
        assert(rest[count - 2] == parts[count - 1]);
        assert(join_first(parts, separator, count) =~= parts[0] + separator + join_first(
            rest,
            separator,
            (count - 1) as nat,
        ));
    }
}

proof fn join_first_of_more(
    parts: Seq<Seq<char>>,
    last: Seq<char>,
    separator: Seq<char>,
    count: nat,
)
    requires
        count <= parts.len(),
    ensures
        join_first(parts.push(last), separator, count) == join_first(parts, separator, count),
    decreases count,
{
    if count > 0 {
        join_first_of_more(parts, last, separator, (count - 1) as nat);
        assert(parts.push(last)[count - 1] == parts[count - 1]);
    }
}

pub(crate) proof fn join_push(parts: Seq<Seq<char>>, last: Seq<char>, separator: Seq<char>)
    requires
        parts.len() > 0,
    ensures
        join(parts.push(last), separator) == join(parts, separator) + separator + last,
{
    join_first_of_more(parts, last, separator, parts.len());
}

/// Joined parts stand one after the other, none left out, with the separator between each two.
pub proof fn join_lays_out(parts: Seq<Seq<char>>, separator: Seq<char>)
    ensures
        laid_out(join(parts, separator), parts, separator),
    decreases parts.len(),
{
    if parts.len() >= 2 {
        let whole = join(parts, separator);
        let rest = parts.drop_first();
        let first = parts[0] + separator;
        join_first_from_front(parts, separator, parts.len());
        join_lays_out(rest, separator);
        assert(whole == first + join(rest, separator));
        assert(whole.subrange(0, first.len() as int) =~= first);
        assert(whole.subrange(first.len() as int, whole.len() as int) =~= join(rest, separator));
    }
}

/// Each part occurs in a text that is made of them.
pub proof fn part_is_laid_out(
    whole: Seq<char>,
    parts: Seq<Seq<char>>,
    separator: Seq<char>,
    at: int,
)
    requires
        laid_out(whole, parts, separator),
        0 <= at < parts.len(),
    ensures
        occurs_in(whole, parts[at]),
    decreases parts.len(),
{
    if parts.len() == 1 {
        assert(whole.subrange(0, whole.len() as int) =~= parts[0]);
        assert(occurs_at(whole, parts[0], 0));
    } else {
        let first = parts[0] + separator;
        if at == 0 {
            assert(whole.subrange(0, parts[0].len() as int) =~= whole.subrange(
                0,
                first.len() as int,
            ).subrange(0, parts[0].len() as int));
            assert(first.subrange(0, parts[0].len() as int) =~= parts[0]);
            assert(occurs_at(whole, parts[0], 0));
        } else {
            let rest = whole.subrange(first.len() as int, whole.len() as int);
            part_is_laid_out(rest, parts.drop_first(), separator, at - 1);
            assert(parts.drop_first()[at - 1] == parts[at]);
            assert(whole.subrange(first.len() as int, first.len() as int + rest.len()) =~= rest);
            assert(occurs_at(whole, rest, first.len() as int));
            part_of_part(whole, rest, parts[at]);
        }
    }
}

/// Whether a character is a decimal digit.
pub open spec fn digit(c: char) -> bool {
    '0' <= c <= '9'
}

/// The number that decimal digits spell.
pub open spec fn spelled(digits: Seq<char>) -> int
    decreases digits.len(),
{
    if digits.len() == 0 {
        0
    } else {
        spelled(digits.drop_last()) * 10 + (digits.last() as int - '0' as int)
    }
}

proof fn decimal_nat_spells(n: nat)
    ensures
        decimal_nat(n).len() > 0,
        forall|i: int| 0 <= i < decimal_nat(n).len() ==> digit(#[trigger] decimal_nat(n)[i]),
        spelled(decimal_nat(n)) == n,
        decimal_nat(n).len() > 1 ==> decimal_nat(n)[0] != '0',
        n > 0 ==> decimal_nat(n)[0] != '0',
    decreases n,
{
    let shown = decimal_nat(n);
    if n < 10 {
        assert(shown.drop_last() =~= Seq::empty());
        assert(spelled(Seq::<char>::empty()) == 0);
    } else {
        decimal_nat_spells(n / 10);
        assert(shown.drop_last() =~= decimal_nat(n / 10));
    }
}

/// A number in decimal notation is a run of digits that spells it, without leading zeros, after a
/// minus sign where it is negative.
pub proof fn decimal_spells(n: int)
    ensures
        ({
            let digits = if n < 0 {
                decimal(n).subrange(1, decimal(n).len() as int)
            } else {
                decimal(n)
            };
            &&& n < 0 ==> decimal(n)[0] == '-'
            &&& digits.len() > 0
            &&& forall|i: int| 0 <= i < digits.len() ==> digit(#[trigger] digits[i])
            &&& spelled(digits) == (if n < 0 {
                -n
            } else {
                n
            })
            &&& digits.len() > 1 ==> digits[0] != '0'
        }),
{
    if n < 0 {
        decimal_nat_spells((-n) as nat);
        reveal_strlit("-");
        assert(decimal(n).subrange(1, decimal(n).len() as int) =~= decimal_nat((-n) as nat));
    } else {
        decimal_nat_spells(n as nat);
    }
}

/// Whether a text is all white space.
pub open spec fn blank(text: Seq<char>) -> bool {
    forall|i: int| 0 <= i < text.len() ==> white_space(#[trigger] text[i])
}

proof fn trim_start_cuts(text: Seq<char>)
    ensures
        trim_start(text).len() <= text.len(),
        trim_start(text) == text.subrange(text.len() - trim_start(text).len(), text.len() as int),
        blank(text.subrange(0, text.len() - trim_start(text).len())),
        trim_start(text).len() > 0 ==> !white_space(trim_start(text)[0]),
    decreases text.len(),
{
    if text.len() > 0 && white_space(text[0]) {
        let rest = text.drop_first();
        trim_start_cuts(rest);
        let kept = trim_start(rest);
        assert(kept =~= text.subrange(text.len() - kept.len(), text.len() as int));
        let cut = text.subrange(0, text.len() - kept.len());
        assert forall|i: int| 0 <= i < cut.len() implies white_space(#[trigger] cut[i]) by {
            if i > 0 {
                assert(rest.subrange(0, rest.len() - kept.len())[i - 1] == cut[i]);
            }
        }
    } else {
        assert(text.subrange(0, text.len() as int) =~= text);
    }
}

proof fn trim_end_cuts(text: Seq<char>)
    ensures
        trim_end(text).len() <= text.len(),
        trim_end(text) == text.subrange(0, trim_end(text).len() as int),
        blank(text.subrange(trim_end(text).len() as int, text.len() as int)),
        trim_end(text).len() > 0 ==> !white_space(trim_end(text).last()),
    decreases text.len(),
{
    if text.len() > 0 && white_space(text.last()) {
        let rest = text.drop_last();
        trim_end_cuts(rest);
        let kept = trim_end(rest);
        assert(kept =~= text.subrange(0, kept.len() as int));
        let cut = text.subrange(kept.len() as int, text.len() as int);
        assert forall|i: int| 0 <= i < cut.len() implies white_space(#[trigger] cut[i]) by {
            if i < cut.len() - 1 {
                assert(rest.subrange(kept.len() as int, rest.len() as int)[i] == cut[i]);
            }
        }
    } else {
        assert(text.subrange(0, text.len() as int) =~= text);
    }
}

/// Trimming cuts white space off the two ends of a text, all of it and nothing else.
pub proof fn trim_cuts_white_space(text: Seq<char>)
    ensures
        exists|from: int|
            0 <= from && from + trim(text).len() <= text.len() && trim(text)
                == #[trigger] text.subrange(from, from + trim(text).len()) && blank(
                text.subrange(0, from),
            ) && blank(text.subrange(from + trim(text).len(), text.len() as int)),
        trim(text).len() > 0 ==> !white_space(trim(text)[0]) && !white_space(trim(text).last()),
{
    let middle = trim_start(text);
    let kept = trim(text);
    trim_start_cuts(text);
    trim_end_cuts(middle);
    let from = text.len() - middle.len();
    assert(kept =~= text.subrange(from, from + kept.len()));
    assert(text.subrange(from + kept.len(), text.len() as int) =~= middle.subrange(
        kept.len() as int,
        middle.len() as int,
    ));
    if kept.len() > 0 {
        assert(kept[0] == middle[0]);
    }
}

/// Trimming a mark off the end of a text cuts the run of it there, and nothing else.
pub proof fn trim_end_mark_cuts(text: Seq<char>, mark: char)
    ensures
        trim_end_mark(text, mark).len() <= text.len(),
        trim_end_mark(text, mark) == text.subrange(0, trim_end_mark(text, mark).len() as int),
        forall|i: int|
            trim_end_mark(text, mark).len() <= i < text.len() ==> #[trigger] text[i] == mark,
        trim_end_mark(text, mark).len() > 0 ==> trim_end_mark(text, mark).last() != mark,
    decreases text.len(),
{
    if text.len() > 0 && text.last() == mark {
        let rest = text.drop_last();
        trim_end_mark_cuts(rest, mark);
        let kept = trim_end_mark(rest, mark);
        assert(kept =~= text.subrange(0, kept.len() as int));
        assert forall|i: int| kept.len() <= i < text.len() implies #[trigger] text[i] == mark by {
            if i < rest.len() {
                assert(rest[i] == text[i]);
            }
        }
    } else {
        assert(text.subrange(0, text.len() as int) =~= text);
    }
}

/// Trimming a mark off the start of a text cuts the run of it there, and nothing else.
pub proof fn trim_start_mark_cuts(text: Seq<char>, mark: char)
    ensures
        trim_start_mark(text, mark).len() <= text.len(),
        trim_start_mark(text, mark) == text.subrange(
            text.len() - trim_start_mark(text, mark).len(),
            text.len() as int,
        ),
        forall|i: int|
            0 <= i < text.len() - trim_start_mark(text, mark).len() ==> #[trigger] text[i] == mark,
        trim_start_mark(text, mark).len() > 0 ==> trim_start_mark(text, mark)[0] != mark,
    decreases text.len(),
{
    if text.len() > 0 && text[0] == mark {
        let rest = text.drop_first();
        trim_start_mark_cuts(rest, mark);
        let kept = trim_start_mark(rest, mark);
        assert(kept =~= text.subrange(text.len() - kept.len(), text.len() as int));
        assert forall|i: int| 0 <= i < text.len() - kept.len() implies #[trigger] text[i]
            == mark by {
            if i > 0 {
                assert(rest[i - 1] == text[i]);
            }
        }
    } else {
        assert(text.subrange(0, text.len() as int) =~= text);
    }
}

/// The lower-case form of a text has the same characters, but for capitals, each of which is the
/// small letter at the same place of the alphabet.
pub proof fn lower_ascii_lowers(text: Seq<char>)
    ensures
        lower_ascii(text).len() == text.len(),
        forall|i: int|
            0 <= i < text.len() ==> if 'A' <= #[trigger] text[i] <= 'Z' {
                'a' <= lower_ascii(text)[i] <= 'z' && lower_ascii(text)[i] as int - 'a' as int
                    == text[i] as int - 'A' as int
            } else {
                lower_ascii(text)[i] == text[i]
            },
{
}

/// Among the ASCII characters, white space is the blank and the controls from tab to carriage
/// return.
pub proof fn ascii_white_space(c: char)
    requires
        c as int <= 127,
    ensures
        white_space(c) <==> c as int == 32 || 9 <= c as int <= 13,
{
}

} // verus!
