//! How results are presented: as a table, as JSON, or as compact lines. The
//! format and the quiet flag are held in a value that every rendering call
//! is handed; nothing here is read from the surroundings.

use vstd::prelude::*;
use vstd::string::StringExecFns;
use colored::Colorize;
use crate::cli::OutputFormat;
pub use crate::dates::{format_date, format_date_only, format_relative};
use crate::text::{
    chars_of, contains_text, has_infix, has_suffix, join_texts, joined, lowercase, slice_text,
    texts, truncated,
};
use crate::types::Priority;

verus! {

/// The format and the quiet flag of a run.
#[derive(Clone, Copy)]
pub struct OutputSettings {
    format: OutputFormat,
    quiet: bool,
}

/// A colour of the terminal.
#[derive(Clone, Copy, PartialEq, Eq, Structural)]
pub enum Tint {
    Red,
    Green,
    Yellow,
    Blue,
    Magenta,
    BrightBlack,
    Rgb { r: u8, g: u8, b: u8 },
}

/// How a cell is shown: in which colour, if any, and whether in bold.
#[derive(Clone, Copy, PartialEq, Eq, Structural)]
pub struct Paint {
    pub tint: Option<Tint>,
    pub bold: bool,
}

/// What is to be written for a collection.
pub enum Rendering<R> {
    /// The items themselves, serialized as JSON; no projection is applied.
    Json,
    /// One line for each item.
    Lines(Vec<String>),
    /// One table row for each item.
    Table(Vec<R>),
}

impl OutputSettings {
    /// The format in force.
    pub closed spec fn format(&self) -> OutputFormat {
        self.format
    }

    /// Whether messages are suppressed.
    pub closed spec fn quiet(&self) -> bool {
        self.quiet
    }

    /// Settings with this format and quiet flag.
    pub fn new(format: OutputFormat, quiet: bool) -> (s: OutputSettings)
        ensures
            s.format() == format,
            s.quiet() == quiet,
    {
        OutputSettings { format, quiet }
    }
}

impl Default for OutputSettings {
    fn default() -> (s: OutputSettings)
        ensures
            s.format() == OutputFormat::Table,
            !s.quiet(),
    {
        OutputSettings { format: OutputFormat::Table, quiet: false }
    }
}

/// Sets the format, and leaves the quiet flag as it is.
pub fn set_format(settings: &mut OutputSettings, format: OutputFormat)
    ensures
        final(settings).format() == format,
        final(settings).quiet() == old(settings).quiet(),
{
    settings.format = format;
}

/// The format in force.
pub fn get_format(settings: &OutputSettings) -> (r: OutputFormat)
    ensures
        r == settings.format(),
{
    settings.format
}

/// Sets the quiet flag, and leaves the format as it is.
pub fn set_quiet(settings: &mut OutputSettings, quiet: bool)
    ensures
        final(settings).quiet() == quiet,
        final(settings).format() == old(settings).format(),
{
    settings.quiet = quiet;
}

/// Whether messages are suppressed.
pub fn is_quiet(settings: &OutputSettings) -> (r: bool)
    ensures
        r == settings.quiet(),
{
    settings.quiet
}

/// Whether output is JSON.
pub fn is_json_output(settings: &OutputSettings) -> (r: bool)
    ensures
        r == (settings.format() == OutputFormat::Json),
{
    match settings.format {
        OutputFormat::Json => true,
        _ => false,
    }
}

/* Collections and single items */

/// What is written for a collection. As JSON the items go out as they are
/// and neither projection is used; in compact form there is one line for
/// each item, by `to_compact`; as a table one row for each item, by `to_row`.
/// Lines and rows stand in the order of the items.
pub fn render_collection<T, R, F: Fn(&T) -> R, G: Fn(&T) -> String>(
    settings: &OutputSettings,
    items: &Vec<T>,
    to_row: F,
    to_compact: G,
) -> (r: Rendering<R>)
    requires
        forall|i: int| 0 <= i < items@.len() ==> call_requires(to_row, (&#[trigger] items@[i],)),
        forall|i: int|
            0 <= i < items@.len() ==> call_requires(to_compact, (&#[trigger] items@[i],)),
    ensures
        match settings.format() {
            OutputFormat::Json => r is Json,
            OutputFormat::Compact => {
                &&& r matches Rendering::Lines(lines)
                &&& lines@.len() == items@.len()
                &&& forall|i: int|
                    0 <= i < items@.len() ==> call_ensures(
                        to_compact,
                        (&items@[i],),
                        #[trigger] lines@[i],
                    )
            },
            OutputFormat::Table => {
                &&& r matches Rendering::Table(rows)
                &&& rows@.len() == items@.len()
                &&& forall|i: int|
                    0 <= i < items@.len() ==> call_ensures(to_row, (&items@[i],), #[trigger] rows@[i])
            },
        },
{
    match settings.format {
        OutputFormat::Json => Rendering::Json,
        OutputFormat::Compact => {
            let mut lines: Vec<String> = Vec::new();
            let mut i: usize = 0;
            while i < items.len()
                invariant
                    i <= items@.len(),
                    lines@.len() == i,
                    forall|k: int|
                        0 <= k < items@.len() ==> call_requires(
                            to_compact,
                            (&#[trigger] items@[k],),
                        ),
                    forall|k: int|
                        0 <= k < i ==> call_ensures(
                            to_compact,
                            (&items@[k],),
                            #[trigger] lines@[k],
                        ),
                decreases items@.len() - i,
            {
                let line = to_compact(&items[i]);
                lines.push(line);
                i += 1;
            }
            Rendering::Lines(lines)
        },
        OutputFormat::Table => {
            let mut rows: Vec<R> = Vec::new();
            let mut i: usize = 0;
            while i < items.len()
                invariant
                    i <= items@.len(),
                    rows@.len() == i,
                    forall|k: int|
                        0 <= k < items@.len() ==> call_requires(to_row, (&#[trigger] items@[k],)),
                    forall|k: int|
                        0 <= k < i ==> call_ensures(to_row, (&items@[k],), #[trigger] rows@[k]),
                decreases items@.len() - i,
            {
                let row = to_row(&items[i]);
                rows.push(row);
                i += 1;
            }
            Rendering::Table(rows)
        },
    }
}

/// Whether a single item is written as JSON, as it is; in the other
/// formats its own display is used.
pub fn item_as_json(settings: &OutputSettings) -> (r: bool)
    ensures
        r == (settings.format() == OutputFormat::Json),
{
    is_json_output(settings)
}

/// What stands between the cells of a row in compact form.
pub const CELL_SEPARATOR: &'static str = " | ";

/// The line that shows a row in compact form, where a command has no form
/// of its own: the cells, with a bar between each two.
pub fn compact_row(cells: &Vec<String>) -> (r: String)
    ensures
        r@ == joined(texts(cells@), CELL_SEPARATOR@),
{
    join_texts(cells, CELL_SEPARATOR)
}

/* Messages */

/// The hexadecimal digit, in lowercase, for a value below sixteen.
pub open spec fn hex_char(d: int) -> char {
    if d < 10 {
        ('0' as int + d) as u8 as char
    } else {
        ('a' as int + d - 10) as u8 as char
    }
}

/// What stands for a character inside a JSON string: a backslash before a
/// double quote and before a backslash; the short escapes for backspace,
/// tab, line feed, form feed and carriage return; `\u00` and two
/// hexadecimal digits for every other character below U+0020; every other
/// character itself.
pub open spec fn json_escape(c: char) -> Seq<char> {
    if c == '"' {
        seq!['\\', '"']
    } else if c == '\\' {
        seq!['\\', '\\']
    } else if c == '\u{8}' {
        seq!['\\', 'b']
    } else if c == '\t' {
        seq!['\\', 't']
    } else if c == '\n' {
        seq!['\\', 'n']
    } else if c == '\u{c}' {
        seq!['\\', 'f']
    } else if c == '\r' {
        seq!['\\', 'r']
    } else if (c as int) < 0x20 {
        seq!['\\', 'u', '0', '0', hex_char(c as int / 16), hex_char(c as int % 16)]
    } else {
        seq![c]
    }
}

/// A text as it stands inside a JSON string: each character by `json_escape`.
pub open spec fn json_escaped(s: Seq<char>) -> Seq<char>
    decreases s.len(),
{
    if s.len() == 0 {
        s
    } else {
        json_escaped(s.drop_last()) + json_escape(s.last())
    }
}

/// The JSON object with the one member `message`, whose value is the text.
pub open spec fn json_message(message: Seq<char>) -> Seq<char> {
    "{\"message\": \""@ + json_escaped(message) + "\"}"@
}

/// What is written for a message: nothing in quiet mode; as JSON an object
/// with the message as its one member; else the message itself.
pub open spec fn message_text(settings: OutputSettings, message: Seq<char>) -> Option<Seq<char>> {
    if settings.quiet() {
        None
    } else if settings.format() == OutputFormat::Json {
        Some(json_message(message))
    } else {
        Some(message)
    }
}

/// The character that stands behind a backslash for the character `c`, for
/// the short escapes of JSON.
pub open spec fn short_escape(c: char) -> Option<char> {
    if c == '"' || c == '\\' || c == '/' {
        Some(c)
    } else if c == 'b' {
        Some('\u{8}')
    } else if c == 't' {
        Some('\t')
    } else if c == 'n' {
        Some('\n')
    } else if c == 'f' {
        Some('\u{c}')
    } else if c == 'r' {
        Some('\r')
    } else {
        None
    }
}

/// The character that four hexadecimal digits stand for behind `\u`, as
/// far as it lies below U+0100.
pub open spec fn unicode_escape(a: char, b: char, c: char, d: char) -> Option<char> {
    match (hex_value(a), hex_value(b), hex_value(c), hex_value(d)) {
        (Some(w), Some(x), Some(y), Some(z)) => {
            let code = ((w * 16 + x) * 16 + y) * 16 + z;
            if code < 0x100 {
                Some(code as u8 as char)
            } else {
                None
            }
        },
        _ => None,
    }
}

/// `c` before what `rest` stands for.
pub open spec fn before(c: char, rest: Option<Seq<char>>) -> Option<Seq<char>> {
    match rest {
        Some(r) => Some(seq![c] + r),
        None => None,
    }
}

/// The text that the inside of a JSON string stands for; `None` where it
/// is none: where a double quote or a character below U+0020 stands
/// unescaped, or a backslash starts no escape. Of the escapes with `\u`
/// those below U+0100 are read.
pub open spec fn json_unescaped(s: Seq<char>) -> Option<Seq<char>>
    decreases s.len(),
{
    if s.len() == 0 {
        Some(Seq::empty())
    } else if s[0] == '\\' {
        if s.len() >= 2 && short_escape(s[1]) is Some {
            before(short_escape(s[1])->0, json_unescaped(s.skip(2)))
        } else if s.len() >= 6 && s[1] == 'u' && unicode_escape(s[2], s[3], s[4], s[5]) is Some {
            before(unicode_escape(s[2], s[3], s[4], s[5])->0, json_unescaped(s.skip(6)))
        } else {
            None
        }
    } else if s[0] == '"' || (s[0] as int) < 0x20 {
        None
    } else {
        before(s[0], json_unescaped(s.drop_first()))
    }
}

/// Escaping goes character by character: what stands for two texts, one
/// after the other, is what stands for the first and then for the second.
pub proof fn lemma_json_escaped_concat(a: Seq<char>, b: Seq<char>)
    ensures
        json_escaped(a + b) == json_escaped(a) + json_escaped(b),
    decreases b.len(),
{
    if b.len() == 0 {
        assert(a + b =~= a);
        assert(json_escaped(a) + json_escaped(b) =~= json_escaped(a));
    } else {
        assert((a + b).drop_last() =~= a + b.drop_last());
        assert((a + b).last() == b.last());
        lemma_json_escaped_concat(a, b.drop_last());
        assert(json_escaped(a + b) =~= json_escaped(a) + json_escaped(b));
    }
}

/// What stands for one character is read back as that character, whatever
/// follows it.
proof fn lemma_json_escape_read_back(c: char, rest: Seq<char>)
    ensures
        json_unescaped(json_escape(c) + rest) == before(c, json_unescaped(rest)),
{
    let e = json_escape(c);
    let s = e + rest;
    if c == '"' || c == '\\' || c == '\u{8}' || c == '\t' || c == '\n' || c == '\u{c}' || c
        == '\r' {
        assert(s[0] == '\\');
        assert(s[1] == e[1]);
        assert(short_escape(s[1]) == Some(c));
        assert(s.skip(2) =~= rest);
    } else if (c as int) < 0x20 {
        let high = c as int / 16;
        let low = c as int % 16;
        assert(s[0] == '\\' && s[1] == 'u' && s[2] == '0' && s[3] == '0');
        assert(s[4] == hex_char(high) && s[5] == hex_char(low));
        assert(short_escape('u') is None);
        assert(hex_value('0') == Some(0int));
        assert(hex_value(hex_char(high)) == Some(high));
        assert(hex_value(hex_char(low)) == Some(low));
        assert(((0 * 16 + 0) * 16 + high) * 16 + low == c as int);
        assert((c as int) as u8 as char == c);
        assert(unicode_escape(s[2], s[3], s[4], s[5]) == Some(c));
        assert(s.skip(6) =~= rest);
    } else {
        assert(s[0] == c);
        assert(s.drop_first() =~= rest);
    }
}

/// Escaping loses nothing: the escaped form of every text is the inside of
/// a JSON string that stands for that text.
pub proof fn lemma_json_escaped_reads_back(s: Seq<char>)
    ensures
        json_unescaped(json_escaped(s)) == Some(s),
    decreases s.len(),
{
    if s.len() > 0 {
        let first = seq![s[0]];
        let rest = s.drop_first();
        assert(s =~= first + rest);
        lemma_json_escaped_concat(first, rest);
        assert(first.last() == s[0]);
        assert(first.drop_last() =~= Seq::<char>::empty());
        assert(json_escaped(first.drop_last()).len() == 0);
        assert(json_escaped(first) =~= json_escape(s[0]));
        lemma_json_escaped_reads_back(rest);
        lemma_json_escape_read_back(s[0], json_escaped(rest));
        assert(seq![s[0]] + rest =~= s);
    }
}

/// The message that a JSON object with the one member `message` holds;
/// `None` for a text that is no such object.
pub open spec fn json_message_read(text: Seq<char>) -> Option<Seq<char>> {
    let open = "{\"message\": \""@;
    let close = "\"}"@;
    if text.len() >= open.len() + close.len() && text.take(open.len() as int) == open
        && text.skip(text.len() - close.len()) == close {
        json_unescaped(text.subrange(open.len() as int, text.len() - close.len()))
    } else {
        None
    }
}

/// The JSON form of every message is a JSON object that holds that
/// message, also where the message holds a double quote, a backslash or a
/// line break.
pub proof fn lemma_json_message_reads_back(message: Seq<char>)
    ensures
        json_message_read(json_message(message)) == Some(message),
{
    let open = "{\"message\": \""@;
    let close = "\"}"@;
    let whole = json_message(message);
    let inner = json_escaped(message);
    assert(whole.len() == open.len() + inner.len() + close.len());
    assert(whole.take(open.len() as int) =~= open);
    assert(whole.skip(whole.len() - close.len()) =~= close);
    assert(whole.subrange(open.len() as int, whole.len() - close.len()) =~= inner);
    lemma_json_escaped_reads_back(message);
}

fn hex_digit_char(d: u8) -> (c: char)
    requires
        d < 16,
    ensures
        c == hex_char(d as int),
{
    if d < 10 {
        (48u8 + d) as char
    } else {
        (87u8 + d) as char
    }
}

/// Writes what stands for `c` inside a JSON string at the end of `out`.
pub fn push_json_escape(out: &mut String, c: char)
    ensures
        final(out)@ == old(out)@ + json_escape(c),
{
    let ghost before = out@;
    if c == '"' {
        out.push('\\');
        out.push('"');
    } else if c == '\\' {
        out.push('\\');
        out.push('\\');
    } else if c == '\u{8}' {
        out.push('\\');
        out.push('b');
    } else if c == '\t' {
        out.push('\\');
        out.push('t');
    } else if c == '\n' {
        out.push('\\');
        out.push('n');
    } else if c == '\u{c}' {
        out.push('\\');
        out.push('f');
    } else if c == '\r' {
        out.push('\\');
        out.push('r');
    } else if (c as u32) < 0x20 {
        let code: u8 = c as u8;
        out.push('\\');
        out.push('u');
        out.push('0');
        out.push('0');
        out.push(hex_digit_char(code / 16));
        out.push(hex_digit_char(code % 16));
    } else {
        out.push(c);
    }
    assert(out@ =~= before + json_escape(c));
}

/// A text as it stands inside a JSON string.
pub fn json_escape_text(s: &str) -> (r: String)
    ensures
        r@ == json_escaped(s@),
{
    let v = chars_of(s);
    let mut r = String::new();
    let mut i: usize = 0;
    while i < v.len()
        invariant
            i <= v.len(),
            v@ == s@,
            r@ == json_escaped(s@.take(i as int)),
        decreases v.len() - i,
    {
        assert(s@.take(i + 1).drop_last() =~= s@.take(i as int));
        push_json_escape(&mut r, v[i]);
        i += 1;
    }
    assert(s@.take(v.len() as int) =~= s@);
    r
}

/// What is written for a success message, if anything.
pub fn render_message(settings: &OutputSettings, message: &str) -> (r: Option<String>)
    ensures
        match message_text(*settings, message@) {
            Some(text) => r matches Some(t) && t@ == text,
            None => r is None,
        },
{
    if settings.quiet {
        None
    } else if is_json_output(settings) {
        let mut t = String::from_str("{\"message\": \"");
        let escaped = json_escape_text(message);
        t.append(escaped.as_str());
        t.append("\"}");
        Some(t)
    } else {
        Some(String::from_str(message))
    }
}

/* Colour */

/// The value of a hexadecimal digit.
pub open spec fn hex_value(c: char) -> Option<int> {
    if '0' <= c && c <= '9' {
        Some(c as int - '0' as int)
    } else if 'a' <= c && c <= 'f' {
        Some(c as int - 'a' as int + 10)
    } else if 'A' <= c && c <= 'F' {
        Some(c as int - 'A' as int + 10)
    } else {
        None
    }
}

/// The value of two characters read as a hexadecimal number, as
/// `u8::from_str_radix` of std reads them: two digits, or a plus sign and
/// one digit.
pub open spec fn hex_pair(a: char, b: char) -> Option<int> {
    match hex_value(b) {
        None => None,
        Some(low) => if a == '+' {
            Some(low)
        } else {
            match hex_value(a) {
                Some(high) => Some(high * 16 + low),
                None => None,
            }
        },
    }
}

/// The number of `#` at the start of a text.
pub open spec fn hashes(s: Seq<char>) -> int
    decreases s.len(),
{
    if s.len() == 0 || s[0] != '#' {
        0
    } else {
        1 + hashes(s.drop_first())
    }
}

/// The colour that a text spells: after any number of `#`, exactly three
/// pairs of hexadecimal digits, for red, green and blue.
pub open spec fn hex_color(hex: Seq<char>) -> Option<(int, int, int)> {
    let digits = hex.skip(hashes(hex));
    if digits.len() != 6 {
        None
    } else {
        match (
            hex_pair(digits[0], digits[1]),
            hex_pair(digits[2], digits[3]),
            hex_pair(digits[4], digits[5]),
        ) {
            (Some(r), Some(g), Some(b)) => Some((r, g, b)),
            _ => None,
        }
    }
}

proof fn lemma_hashes(s: Seq<char>, k: int)
    requires
        0 <= k <= s.len(),
        forall|j: int| 0 <= j < k ==> s[j] == '#',
        k < s.len() ==> s[k] != '#',
    ensures
        hashes(s) == k,
    decreases k,
{
    if k > 0 {
        assert forall|j: int| 0 <= j < k - 1 implies s.drop_first()[j] == '#' by {
            assert(s.drop_first()[j] == s[j + 1]);
        }
        assert(k - 1 < s.drop_first().len() ==> s.drop_first()[k - 1] == s[k]);
        lemma_hashes(s.drop_first(), k - 1);
    }
}

fn hex_digit(c: char) -> (r: Option<u8>)
    ensures
        match hex_value(c) {
            Some(v) => r == Some(v as u8) && 0 <= v < 16,
            None => r is None,
        },
{
    if '0' <= c && c <= '9' {
        Some((c as u32 - '0' as u32) as u8)
    } else if 'a' <= c && c <= 'f' {
        Some((c as u32 - 'a' as u32 + 10) as u8)
    } else if 'A' <= c && c <= 'F' {
        Some((c as u32 - 'A' as u32 + 10) as u8)
    } else {
        None
    }
}

fn hex_byte(a: char, b: char) -> (r: Option<u8>)
    ensures
        match hex_pair(a, b) {
            Some(v) => r == Some(v as u8) && 0 <= v < 256,
            None => r is None,
        },
{
    match hex_digit(b) {
        None => None,
        Some(low) => {
            if a == '+' {
                Some(low)
            } else {
                match hex_digit(a) {
                    Some(high) => Some(high * 16 + low),
                    None => None,
                }
            }
        },
    }
}

/// Reads a colour written in hexadecimal, with or without `#` before it.
pub fn parse_hex_color(hex: &str) -> (r: Result<(u8, u8, u8), ()>)
    ensures
        match hex_color(hex@) {
            Some((red, green, blue)) => r == Ok::<(u8, u8, u8), ()>(
                (red as u8, green as u8, blue as u8),
            ) && 0 <= red < 256 && 0 <= green < 256 && 0 <= blue < 256,
            None => r is Err,
        },
{
    let v = chars_of(hex);
    let mut k: usize = 0;
    while k < v.len() && v[k] == '#'
        invariant
            k <= v.len(),
            v@ == hex@,
            forall|j: int| 0 <= j < k ==> v@[j] == '#',
        decreases v.len() - k,
    {
        k += 1;
    }
    proof {
        lemma_hashes(hex@, k as int);
    }
    if v.len() - k != 6 {
        return Err(());
    }
    let red = hex_byte(v[k], v[k + 1]);
    let green = hex_byte(v[k + 2], v[k + 3]);
    let blue = hex_byte(v[k + 4], v[k + 5]);
    match (red, green, blue) {
        (Some(r), Some(g), Some(b)) => Ok((r, g, b)),
        _ => Err(()),
    }
}

/// The colour that a status name suggests, by the words in it.
pub open spec fn name_tint(lower: Seq<char>) -> Option<Tint> {
    if has_infix(lower, "done"@) || has_infix(lower, "complete"@) || has_infix(lower, "closed"@) {
        Some(Tint::Green)
    } else if has_infix(lower, "progress"@) || has_infix(lower, "started"@) {
        Some(Tint::Blue)
    } else if has_infix(lower, "review"@) {
        Some(Tint::Magenta)
    } else if has_infix(lower, "blocked"@) || has_infix(lower, "canceled"@) || has_infix(
        lower,
        "cancelled"@,
    ) {
        Some(Tint::Red)
    } else if has_infix(lower, "backlog"@) || has_infix(lower, "triage"@) {
        Some(Tint::BrightBlack)
    } else {
        None
    }
}

/// The colour of a status: the one the service gave, where it spells a
/// colour, else the one its name suggests.
pub open spec fn status_paint(status: Seq<char>, color: Option<Seq<char>>) -> Option<Tint> {
    match color {
        Some(hex) if hex_color(hex) is Some => {
            let c = hex_color(hex)->0;
            Some(Tint::Rgb { r: c.0 as u8, g: c.1 as u8, b: c.2 as u8 })
        },
        _ => name_tint(lowercase(status)),
    }
}

/// The colour that a status name in lowercase suggests, by the words in it.
pub fn tint_for_name(lower: &str) -> (r: Option<Tint>)
    ensures
        r == name_tint(lower@),
{
    let l = lower;
    if contains_text(l, "done") || contains_text(l, "complete") || contains_text(l, "closed") {
        Some(Tint::Green)
    } else if contains_text(l, "progress") || contains_text(l, "started") {
        Some(Tint::Blue)
    } else if contains_text(l, "review") {
        Some(Tint::Magenta)
    } else if contains_text(l, "blocked") || contains_text(l, "canceled") || contains_text(
        l,
        "cancelled",
    ) {
        Some(Tint::Red)
    } else if contains_text(l, "backlog") || contains_text(l, "triage") {
        Some(Tint::BrightBlack)
    } else {
        None
    }
}

/// The colour of a status.
pub fn status_tint(status: &str, color: Option<&str>) -> (r: Option<Tint>)
    ensures
        r == status_paint(
            status@,
            match color {
                Some(hex) => Some(hex@),
                None => None,
            },
        ),
{
    if let Some(hex) = color {
        if let Ok((r, g, b)) = parse_hex_color(hex) {
            return Some(Tint::Rgb { r, g, b });
        }
    }
    let lower = status.to_lowercase();
    tint_for_name(lower.as_str())
}

/// The character with which every escape sequence of a terminal starts.
pub const ESCAPE: char = '\u{1b}';

/// The escape sequence that ends colour and style.
pub const RESET: &'static str = "\u{1b}[0m";

/// Whether `shown` is `text` as a terminal is to show it: the text itself,
/// or the text before the reset sequence and behind whatever sets its
/// colour and style.
pub open spec fn carries(shown: Seq<char>, text: Seq<char>) -> bool {
    shown == text || has_suffix(shown, text + RESET@)
}

/// `Colorize::color` of the colored crate and the `to_string` of its
/// result: the text as the terminal is to show it in this colour. Whether
/// anything is added to the text depends on the environment. A text
/// without an escape character comes back as it is, or between a style
/// prefix and the reset sequence.
#[verifier::external_body]
fn tinted(text: &str, tint: Tint) -> (r: String)
    ensures
        !text@.contains(ESCAPE) ==> carries(r@, text@),
{
    let color = match tint {
        Tint::Red => colored::Color::Red,
        Tint::Green => colored::Color::Green,
        Tint::Yellow => colored::Color::Yellow,
        Tint::Blue => colored::Color::Blue,
        Tint::Magenta => colored::Color::Magenta,
        Tint::BrightBlack => colored::Color::BrightBlack,
        Tint::Rgb { r, g, b } => colored::Color::TrueColor { r, g, b },
    };
    text.color(color).to_string()
}

/// `Colorize::color` and `Colorize::bold` of the colored crate and the
/// `to_string` of their result: as `tinted`, in bold.
#[verifier::external_body]
fn tinted_bold(text: &str, tint: Tint) -> (r: String)
    ensures
        !text@.contains(ESCAPE) ==> carries(r@, text@),
{
    let color = match tint {
        Tint::Red => colored::Color::Red,
        Tint::Green => colored::Color::Green,
        Tint::Yellow => colored::Color::Yellow,
        Tint::Blue => colored::Color::Blue,
        Tint::Magenta => colored::Color::Magenta,
        Tint::BrightBlack => colored::Color::BrightBlack,
        Tint::Rgb { r, g, b } => colored::Color::TrueColor { r, g, b },
    };
    text.color(color).bold().to_string()
}

/// A text as it is shown with a paint: unchanged without a colour; with
/// one, and no escape character in the text, the text itself or the text
/// before the reset sequence.
pub fn painted(text: &str, paint: Paint) -> (r: String)
    ensures
        paint.tint is None ==> r@ == text@,
        !text@.contains(ESCAPE) ==> carries(r@, text@),
{
    match paint.tint {
        None => String::from_str(text),
        Some(tint) => {
            if paint.bold {
                tinted_bold(text, tint)
            } else {
                tinted(text, tint)
            }
        },
    }
}

/// Format status with color based on state type
pub fn status_colored(status: &str, color: Option<&str>) -> (r: String)
    ensures
        status_paint(
            status@,
            match color {
                Some(hex) => Some(hex@),
                None => None,
            },
        ) is None ==> r@ == status@,
        !status@.contains(ESCAPE) ==> carries(r@, status@),
{
    let tint = status_tint(status, color);
    painted(status, Paint { tint, bold: false })
}

/// How a priority is painted: urgent in bold red, high in bold yellow,
/// medium in blue, low in bright black, none not at all.
pub open spec fn priority_paint(p: Priority) -> Paint {
    match p {
        Priority::NoPriority => Paint { tint: None, bold: false },
        Priority::Urgent => Paint { tint: Some(Tint::Red), bold: true },
        Priority::High => Paint { tint: Some(Tint::Yellow), bold: true },
        Priority::Medium => Paint { tint: Some(Tint::Blue), bold: false },
        Priority::Low => Paint { tint: Some(Tint::BrightBlack), bold: false },
    }
}

/// How a priority is painted.
pub fn paint_of_priority(p: Priority) -> (r: Paint)
    ensures
        r == priority_paint(p),
{
    match p {
        Priority::NoPriority => Paint { tint: None, bold: false },
        Priority::Urgent => Paint { tint: Some(Tint::Red), bold: true },
        Priority::High => Paint { tint: Some(Tint::Yellow), bold: true },
        Priority::Medium => Paint { tint: Some(Tint::Blue), bold: false },
        Priority::Low => Paint { tint: Some(Tint::BrightBlack), bold: false },
    }
}

/// The name of a priority holds no escape character.
pub proof fn lemma_priority_name_is_plain(p: Priority)
    ensures
        !p.name().contains(ESCAPE),
{
    reveal_strlit("None");
    reveal_strlit("Urgent");
    reveal_strlit("High");
    reveal_strlit("Medium");
    reveal_strlit("Low");
    let name = p.name();
    assert forall|i: int| 0 <= i < name.len() implies name[i] != ESCAPE by {}
}

/// The cell that shows a status: in colour only in a table; in every other
/// format the status as it is.
pub fn status_cell(settings: &OutputSettings, status: &str, color: Option<&str>) -> (r: String)
    ensures
        settings.format() != OutputFormat::Table ==> r@ == status@,
        !status@.contains(ESCAPE) ==> carries(r@, status@),
{
    match settings.format {
        OutputFormat::Table => status_colored(status, color),
        _ => String::from_str(status),
    }
}

/// The cell that shows a priority: in colour only in a table; in every
/// other format the priority's name as it is.
pub fn priority_cell(settings: &OutputSettings, p: Priority) -> (r: String)
    ensures
        settings.format() != OutputFormat::Table ==> r@ == p.name(),
        p == Priority::NoPriority ==> r@ == p.name(),
        carries(r@, p.name()),
{
    proof {
        lemma_priority_name_is_plain(p);
    }
    match settings.format {
        OutputFormat::Table => painted(p.label(), paint_of_priority(p)),
        _ => String::from_str(p.label()),
    }
}

/// Truncate a string with ellipsis, counting characters.
pub fn truncate(s: &str, max: usize) -> (r: String)
    ensures
        r@ == truncated(s@, max as nat),
{
    let v = chars_of(s);
    if v.len() <= max {
        String::from_str(s)
    } else {
        let keep: usize = if max >= 3 {
            max - 3
        } else {
            0
        };
        let mut r = slice_text(&v, 0, keep);
        r.push('.');
        r.push('.');
        r.push('.');
        r
    }
}

} // verus!
