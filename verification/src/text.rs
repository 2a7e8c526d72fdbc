//! Text as sequences of characters: searching, reading a number, telling
//! blank text from text, and the label type that the renderer draws.

use crate::chat_client::{ServerInfo, Status};
use crate::geometry::{Color, Point};
use vstd::prelude::*;
use vstd::std_specs::iter::IteratorSpec;
use vstd::string::StringExecFns;

verus! {

broadcast use vstd::string::group_string_axioms;

/// The characters of a string, in order.
pub fn chars_of(s: &str) -> (chars: Vec<char>)
    ensures
        chars@ == s@,
{
    let mut chars: Vec<char> = Vec::new();
    let mut it = s.chars();
    loop
        invariant
            chars@ + it.remaining() == s@,
            it.decrease() is Some,
        decreases it.decrease()->0,
    {
        match it.next() {
            Some(c) => {
                chars.push(c);
            },
            None => {
                return chars;
            },
        }
    }
}

/// Whether `needle` stands in `hay` at position `at`.
pub open spec fn occurs_at(hay: Seq<char>, needle: Seq<char>, at: int) -> bool {
    &&& 0 <= at
    &&& at + needle.len() <= hay.len()
    &&& forall|k: int| 0 <= k < needle.len() ==> hay[at + k] == #[trigger] needle[k]
}

/// The first position from `from` on at which `needle` stands in `hay`.
pub open spec fn find_from(hay: Seq<char>, needle: Seq<char>, from: int) -> Option<int>
    decreases hay.len() - from,
{
    if from < 0 || from + needle.len() > hay.len() {
        None
    } else if occurs_at(hay, needle, from) {
        Some(from)
    } else {
        find_from(hay, needle, from + 1)
    }
}

/// Whether `needle` stands somewhere in `hay`.
pub open spec fn spec_contains(hay: Seq<char>, needle: Seq<char>) -> bool {
    find_from(hay, needle, 0) is Some
}

/// `find_from` gives the first occurrence at or after `from`, and `None`
/// only where there is none.
pub proof fn lemma_find_from_is_first(hay: Seq<char>, needle: Seq<char>, from: int)
    requires
        0 <= from,
    ensures
        match find_from(hay, needle, from) {
            Some(at) => {
                &&& from <= at
                &&& occurs_at(hay, needle, at)
                &&& forall|j: int| from <= j < at ==> !occurs_at(hay, needle, j)
            },
            None => forall|j: int| from <= j ==> !occurs_at(hay, needle, j),
        },
    decreases hay.len() - from,
{
    if from + needle.len() <= hay.len() && !occurs_at(hay, needle, from) {
        lemma_find_from_is_first(hay, needle, from + 1);
    }
}

fn matches_at(hay: &Vec<char>, needle: &Vec<char>, at: usize) -> (same: bool)
    requires
        at + needle.len() <= hay.len(),
    ensures
        same == occurs_at(hay@, needle@, at as int),
{
    let mut k: usize = 0;
    while k < needle.len()
        invariant
            k <= needle.len(),
            at + needle.len() <= hay.len(),
            forall|j: int| 0 <= j < k ==> hay@[at + j] == #[trigger] needle@[j],
        decreases needle.len() - k,
    {
        if hay[at + k] != needle[k] {
            return false;
        }
        k = k + 1;
    }
    true
}

/// Searches `hay` for `needle`, starting at position `from`.
pub fn find_chars(hay: &Vec<char>, needle: &Vec<char>, from: usize) -> (found: Option<usize>)
    ensures
        match found {
            Some(at) => find_from(hay@, needle@, from as int) == Some(at as int),
            None => find_from(hay@, needle@, from as int) is None,
        },
{
    if needle.len() > hay.len() {
        return None;
    }
    let last: usize = hay.len() - needle.len();
    let mut at: usize = from;
    while at <= last
        invariant
            from <= at,
            last == hay.len() - needle.len(),
            find_from(hay@, needle@, from as int) == find_from(hay@, needle@, at as int),
        decreases last + 1 - at,
    {
        if matches_at(hay, needle, at) {
            return Some(at);
        }
        at = at + 1;
    }
    None
}

/// The position, counted in characters, of the first occurrence of
/// `needle` in `hay`.
pub fn find(hay: &str, needle: &str) -> (found: Option<usize>)
    ensures
        match found {
            Some(at) => find_from(hay@, needle@, 0) == Some(at as int),
            None => find_from(hay@, needle@, 0) is None,
        },
{
    let hay = chars_of(hay);
    let needle = chars_of(needle);
    find_chars(&hay, &needle, 0)
}

/// Whether `c` is one of the digits `0` to `9`.
pub open spec fn is_digit(c: char) -> bool {
    '0' <= c <= '9'
}

/// The number that a digit stands for.
pub open spec fn digit_value(c: char) -> int {
    c as int - '0' as int
}

pub open spec fn all_digits(s: Seq<char>) -> bool {
    forall|i: int| 0 <= i < s.len() ==> is_digit(#[trigger] s[i])
}

/// The number that a sequence of digits stands for in base ten.
pub open spec fn decimal_value(s: Seq<char>) -> int
    decreases s.len(),
{
    if s.len() == 0 {
        0
    } else {
        decimal_value(s.drop_last()) * 10 + digit_value(s.last())
    }
}

/// The number that a run of digits spells, where it has at least one
/// digit and nothing else, and the value is no more than `u32::MAX`.
pub open spec fn spec_parse_digits(digits: Seq<char>) -> Option<u32> {
    if digits.len() > 0 && all_digits(digits) && decimal_value(digits) <= u32::MAX {
        Some(decimal_value(digits) as u32)
    } else {
        None
    }
}

/// The number that `s` spells out: an optional `+`, then at least one
/// digit and nothing else, the value no more than `u32::MAX`. Any other
/// text spells no number.
pub open spec fn spec_parse_u32(s: Seq<char>) -> Option<u32> {
    if s.len() > 0 && s[0] == '+' {
        spec_parse_digits(s.subrange(1, s.len() as int))
    } else {
        spec_parse_digits(s)
    }
}

/// A number is no smaller than what its leading digits spell.
pub proof fn lemma_decimal_value_prefix(s: Seq<char>, k: int)
    requires
        all_digits(s),
        0 <= k <= s.len(),
    ensures
        0 <= decimal_value(s.take(k)) <= decimal_value(s),
    decreases s.len() - k,
{
    lemma_decimal_value_nonnegative(s.take(k));
    if k == s.len() {
        assert(s.take(k) =~= s);
    } else {
        lemma_decimal_value_prefix(s, k + 1);
        assert(s.take(k + 1).drop_last() =~= s.take(k));
        assert(is_digit(s[k]));
    }
}

pub proof fn lemma_decimal_value_nonnegative(s: Seq<char>)
    requires
        all_digits(s),
    ensures
        0 <= decimal_value(s),
    decreases s.len(),
{
    if s.len() > 0 {
        assert(is_digit(s[s.len() - 1]));
        lemma_decimal_value_nonnegative(s.drop_last());
    }
}

/// Reads the number that the characters from `from` up to `to` spell.
pub fn parse_u32_chars(s: &Vec<char>, from: usize, to: usize) -> (value: Option<u32>)
    requires
        from <= to <= s.len(),
    ensures
        value == spec_parse_u32(s@.subrange(from as int, to as int)),
{
    let ghost text = s@.subrange(from as int, to as int);
    let start: usize = if from < to && s[from] == '+' {
        from + 1
    } else {
        from
    };
    let ghost digits = s@.subrange(start as int, to as int);
    proof {
        if start == from {
            assert(digits =~= text);
        } else {
            assert(digits =~= text.subrange(1, text.len() as int));
        }
    }
    assert(spec_parse_u32(text) == spec_parse_digits(digits));
    if start == to {
        return None;
    }
    let mut acc: u64 = 0;
    let mut i: usize = start;
    while i < to
        invariant
            start <= i <= to <= s.len(),
            digits == s@.subrange(start as int, to as int),
            spec_parse_u32(s@.subrange(from as int, to as int)) == spec_parse_digits(digits),
            all_digits(digits.take(i - start)),
            acc == decimal_value(digits.take(i - start)),
            acc <= u32::MAX,
        decreases to - i,
    {
        let c: char = s[i];
        assert(digits[i - start] == c);
        if c < '0' || c > '9' {
            assert(!is_digit(digits[i - start]));
            return None;
        }
        let d: u64 = (c as u32 - '0' as u32) as u64;
        proof {
            let grown = digits.take(i - start + 1);
            assert(grown.drop_last() =~= digits.take(i - start));
            assert(grown.last() == c);
        }
        acc = acc * 10 + d;
        if acc > u32::MAX as u64 {
            proof {
                if all_digits(digits) {
                    lemma_decimal_value_prefix(digits, i - start + 1);
                }
            }
            return None;
        }
        i = i + 1;
    }
    assert(digits.take(to - start) =~= digits);
    Some(acc as u32)
}

/// Reads the number that `s` spells.
pub fn parse_u32(s: &str) -> (value: Option<u32>)
    ensures
        value == spec_parse_u32(s@),
{
    let chars = chars_of(s);
    proof {
        assert(chars@.subrange(0, chars@.len() as int) =~= chars@);
    }
    parse_u32_chars(&chars, 0, chars.len())
}

/// Whether `c` is white space: one of the characters that Unicode gives
/// the property White_Space.
pub open spec fn is_space(c: char) -> bool {
    let code = c as int;
    ||| 0x09 <= code <= 0x0d
    ||| code == 0x20
    ||| code == 0x85
    ||| code == 0xa0
    ||| code == 0x1680
    ||| 0x2000 <= code <= 0x200a
    ||| code == 0x2028
    ||| code == 0x2029
    ||| code == 0x202f
    ||| code == 0x205f
    ||| code == 0x3000
}

/// Whether a text says nothing: it is empty, or white space throughout.
pub open spec fn spec_is_blank(s: Seq<char>) -> bool {
    forall|i: int| 0 <= i < s.len() ==> is_space(#[trigger] s[i])
}

fn space(c: char) -> (yes: bool)
    ensures
        yes == is_space(c),
{
    let code: u32 = c as u32;
    (0x09 <= code && code <= 0x0d) || code == 0x20 || code == 0x85 || code == 0xa0 || code
        == 0x1680 || (0x2000 <= code && code <= 0x200a) || code == 0x2028 || code == 0x2029
        || code == 0x202f || code == 0x205f || code == 0x3000
}

/// Tells whether a text is empty or white space throughout.
pub fn is_blank(s: &str) -> (blank: bool)
    ensures
        blank == spec_is_blank(s@),
{
    let chars = chars_of(s);
    let mut i: usize = 0;
    while i < chars.len()
        invariant
            i <= chars.len(),
            chars@ == s@,
            forall|j: int| 0 <= j < i ==> is_space(#[trigger] chars@[j]),
        decreases chars.len() - i,
    {
        if !space(chars[i]) {
            return false;
        }
        i = i + 1;
    }
    true
}

/// `String::pop` of the standard library takes the last character off a
/// string and hands it back; on an empty string it does nothing and hands
/// back `None`.
pub assume_specification[ String::pop ](s: &mut String) -> (last: Option<char>)
    ensures
        old(s)@.len() == 0 ==> last is None && final(s)@ == old(s)@,
        old(s)@.len() > 0 ==> last == Some(old(s)@.last()) && final(s)@ == old(s)@.drop_last(),
;

/// `String::push` of the standard library puts one character at the end
/// of a string.
pub assume_specification[ String::push ](s: &mut String, ch: char)
    ensures
        final(s)@ == old(s)@.push(ch),
;

/// The string that these characters spell.
pub fn string_of(chars: &Vec<char>) -> (s: String)
    ensures
        s@ == chars@,
{
    let mut s = String::new();
    let mut i: usize = 0;
    while i < chars.len()
        invariant
            i <= chars.len(),
            s@ == chars@.take(i as int),
        decreases chars.len() - i,
    {
        s.push(chars[i]);
        assert(s@ =~= chars@.take(i as int + 1));
        i = i + 1;
    }
    assert(chars@.take(chars.len() as int) =~= chars@);
    s
}

/// The digit that stands for `d`, for `d` below ten.
pub open spec fn digit_char(d: int) -> char {
    ('0' as int + d) as char
}

/// The digits that spell `n` in base ten, without leading zeros.
pub open spec fn spec_decimal_digits(n: nat) -> Seq<char>
    decreases n,
{
    if n < 10 {
        seq![digit_char(n as int)]
    } else {
        spec_decimal_digits(n / 10).push(digit_char((n % 10) as int))
    }
}

/// Spells `n` in base ten.
pub fn decimal_digits(n: u32) -> (digits: Vec<char>)
    ensures
        digits@ == spec_decimal_digits(n as nat),
    decreases n,
{
    let last: char = ((n % 10) as u8 + 48u8) as char;
    assert(last == digit_char((n % 10) as int));
    if n < 10 {
        let mut digits: Vec<char> = Vec::new();
        digits.push(last);
        assert(digits@ =~= seq![last]);
        digits
    } else {
        let mut digits = decimal_digits(n / 10);
        digits.push(last);
        digits
    }
}

/// The colour that the status of the server is written in.
pub open spec fn spec_status_color(status: Status) -> Color {
    match status {
        Status::Online => Color { r: 67, g: 181, b: 129, a: 255 },
        Status::Offline => Color { r: 250, g: 166, b: 26, a: 255 },
        Status::Error => Color { r: 237, g: 66, b: 69, a: 255 },
    }
}

/// The line that tells what is known of the server.
pub open spec fn spec_server_info_label(info: ServerInfo) -> Seq<char> {
    "Player count: "@ + spec_decimal_digits(info.player_count as nat) + ", Status: "@
        + info.status.spec_label()
}

/// A line of text for the renderer to draw: where, what, and in which
/// colour.
#[derive(Debug)]
pub struct DrawText {
    pub pos: Point,
    pub text: String,
    pub color: Color,
}

/// A piece of text with the font it is drawn in.
#[derive(Debug)]
pub struct Text {
    font: String,
    font_size: u16,
    content: String,
}

/// What a piece of text is, as plain values.
pub struct TextView {
    pub font: Seq<char>,
    pub font_size: u16,
    pub content: Seq<char>,
}

impl View for Text {
    type V = TextView;

    closed spec fn view(&self) -> TextView {
        TextView { font: self.font@, font_size: self.font_size, content: self.content@ }
    }
}

impl Clone for Text {
    fn clone(&self) -> (t: Self)
        ensures
            t@ == self@,
    {
        Text { font: self.font.clone(), font_size: self.font_size, content: self.content.clone() }
    }
}

impl Text {
    pub fn new(font: String, font_size: u16, content: String) -> (t: Self)
        ensures
            t@ == (TextView { font: font@, font_size, content: content@ }),
    {
        Self { font, font_size, content }
    }

    /// The name of the font.
    pub fn font(&self) -> (font: &String)
        ensures
            font@ == self@.font,
    {
        &self.font
    }

    pub fn font_size(&self) -> (size: u16)
        ensures
            size == self@.font_size,
    {
        self.font_size
    }

    /// What the text says.
    pub fn content(&self) -> (content: &String)
        ensures
            content@ == self@.content,
    {
        &self.content
    }

    /// What the renderer draws for this text at `pos`: its content, in
    /// white.
    pub fn draw(&self, pos: Point) -> (line: DrawText)
        ensures
            line.pos == pos,
            line.text@ == self@.content,
            line.color == (Color { r: 255, g: 255, b: 255, a: 255 }),
    {
        DrawText { pos, text: self.content.clone(), color: Color::rgb(255, 255, 255) }
    }

    /// What the renderer draws at `pos` to tell what is known of the
    /// server: the number of players and the status, green while the
    /// server is online, orange while it is offline, red after an error.
    pub fn draw_server_info(server_info: &ServerInfo, pos: Point) -> (line: DrawText)
        ensures
            line.pos == pos,
            line.text@ == spec_server_info_label(*server_info),
            line.color == spec_status_color(server_info.status),
    {
        let mut text = "Player count: ".to_owned();
        let count = string_of(&decimal_digits(server_info.player_count));
        text.append(count.as_str());
        text.append(", Status: ");
        let status = server_info.status.label();
        text.append(status.as_str());
        let color = match server_info.status {
            Status::Online => Color::rgb(67, 181, 129),
            Status::Offline => Color::rgb(250, 166, 26),
            Status::Error => Color::rgb(237, 66, 69),
        };
        DrawText { pos, text, color }
    }
}

} // verus!
