//! What the response views show: the line of figures above a response, and
//! its body as numbered, highlighted lines of code.

use crate::utils::{
    decimal, duration_secs, duration_subsec_millis, duration_text, format_duration, padded,
    push_decimal, push_padded,
};
use std::time::Duration;
use syntect::easy::HighlightLines;
use syntect::highlighting::{Theme, ThemeSet};
use syntect::parsing::{SyntaxReference, SyntaxSet};
use vstd::prelude::*;
use vstd::utf8::encode_utf8;

verus! {

/// A colour by its red, green and blue parts.
#[derive(Clone, Copy, Debug, PartialEq, Eq, Structural)]
pub struct Rgb {
    pub r: u8,
    pub g: u8,
    pub b: u8,
}

/// A stretch of text in one colour.
#[derive(Debug, PartialEq, Eq)]
pub struct Span {
    pub color: Rgb,
    pub text: String,
}

/// A span as contracts see it: the text by its characters.
pub struct SpanView {
    pub color: Rgb,
    pub text: Seq<char>,
}

impl View for Span {
    type V = SpanView;

    open spec fn view(&self) -> SpanView {
        SpanView { color: self.color, text: self.text@ }
    }
}

impl DeepView for Span {
    type V = SpanView;

    open spec fn deep_view(&self) -> SpanView {
        self@
    }
}

/// syntect's set of syntax definitions.
#[verifier::external_type_specification]
#[verifier::external_body]
pub struct ExSyntaxSet(SyntaxSet);

/// One syntax definition of a syntect syntax set.
#[verifier::external_type_specification]
#[verifier::external_body]
pub struct ExSyntaxReference(SyntaxReference);

/// syntect's set of colour themes.
#[verifier::external_type_specification]
#[verifier::external_body]
pub struct ExThemeSet(ThemeSet);

/// One colour theme of a syntect theme set.
#[verifier::external_type_specification]
#[verifier::external_body]
pub struct ExTheme(Theme);

/// syntect's line-by-line highlighter, which carries the state of the parse
/// from one line to the next.
#[verifier::external_type_specification]
#[verifier::external_body]
pub struct ExHighlightLines<'a>(HighlightLines<'a>);

/// The number of characters of `text` in front of its first line feed; the
/// length of `text` where it has none.
pub open spec fn first_line_feed(text: Seq<char>) -> int
    decreases text.len(),
{
    if text.len() == 0 || text[0] == '\n' {
        0
    } else {
        1 + first_line_feed(text.drop_first())
    }
}

/// `line` without the carriage return at its end, if it has one.
pub open spec fn without_carriage_return(line: Seq<char>) -> Seq<char> {
    if line.len() > 0 && line.last() == '\r' {
        line.drop_last()
    } else {
        line
    }
}

/// The lines of `text`. A line ends at a line feed; a carriage return right
/// before the line feed belongs to the line ending. The last line need not
/// end in a line feed, and keeps a carriage return at its end. Text that ends
/// with a line ending has no empty line after it.
pub open spec fn lines_of(text: Seq<char>) -> Seq<Seq<char>>
    decreases text.len(),
{
    let end = first_line_feed(text);
    if text.len() == 0 {
        Seq::empty()
    } else if 0 <= end < text.len() {
        seq![without_carriage_return(text.take(end))] + lines_of(text.skip(end + 1))
    } else {
        seq![text]
    }
}

/// The text that `spans` spell when they are read one after the other.
pub open spec fn spelled(spans: Seq<SpanView>) -> Seq<char>
    decreases spans.len(),
{
    if spans.len() == 0 {
        Seq::empty()
    } else {
        spelled(spans.drop_last()) + spans.last().text
    }
}

/// Where the first line feed of a text stands: behind the characters in
/// front of it that are none.
pub proof fn lemma_first_line_feed(text: Seq<char>, n: int)
    requires
        0 <= n <= text.len(),
        forall|i: int| 0 <= i < n ==> text[i] != '\n',
        n == text.len() || text[n] == '\n',
    ensures
        first_line_feed(text) == n,
    decreases n,
{
    if n > 0 {
        let rest = text.drop_first();
        assert forall|i: int| 0 <= i < n - 1 implies rest[i] != '\n' by {
            assert(rest[i] == text[i + 1]);
        }
        lemma_first_line_feed(rest, n - 1);
    }
}

/// Cuts a text into its lines, as `lines_of` describes them.
pub fn text_lines(code: &str) -> (lines: Vec<String>)
    ensures
        lines.deep_view() == lines_of(code@),
{
    let ghost text = code@;
    let mut lines: Vec<String> = Vec::new();
    let mut current = String::new();
    let mut pending: bool = false;
    let ghost mut start: int = 0;
    assert(text.skip(0) =~= text);
    assert(text.subrange(0, 0) =~= Seq::<char>::empty());
    for c in iter: code.chars()
        invariant
            iter.seq() == text,
            text == code@,
            0 <= start <= iter.index(),
            lines_of(text) == lines.deep_view() + lines_of(text.skip(start)),
            text.subrange(start, iter.index() as int) == if pending {
                current@.push('\r')
            } else {
                current@
            },
            forall|i: int| start <= i < iter.index() ==> text[i] != '\n',
            !pending ==> current@.len() == 0 || current@.last() != '\r',
    {
        let ghost k = iter.index() as int;
        let ghost line = text.subrange(start, k);
        assert(text.subrange(start, k + 1) =~= line.push(c));
        if c == '\n' {
            proof {
                let tail = text.skip(start);
                assert forall|i: int| 0 <= i < k - start implies tail[i] != '\n' by {
                    assert(tail[i] == text[start + i]);
                }
                lemma_first_line_feed(tail, k - start);
                assert(tail.take(k - start) =~= line);
                assert(tail.skip(k - start + 1) =~= text.skip(k + 1));
                if pending {
                    assert(line.drop_last() =~= current@);
                }
                assert(without_carriage_return(line) == current@);
                assert(lines_of(tail) == seq![current@] + lines_of(text.skip(k + 1)));
            }
            let ghost before = lines.deep_view();
            lines.push(current);
            current = String::new();
            pending = false;
            proof {
                assert(lines.deep_view() =~= before + seq![lines@.last()@]);
                start = k + 1;
                assert(text.subrange(k + 1, k + 1) =~= Seq::<char>::empty());
            }
        } else if c == '\r' {
            if pending {
                current.push('\r');
            }
            pending = true;
        } else {
            if pending {
                current.push('\r');
                pending = false;
            }
            current.push(c);
        }
    }
    let ghost end = text.len() as int;
    if pending {
        current.push('\r');
    }
    proof {
        let tail = text.skip(start);
        assert(tail =~= text.subrange(start, end));
        assert(tail == current@);
        if tail.len() > 0 {
            lemma_first_line_feed(tail, tail.len() as int);
        }
    }
    if current.as_str().unicode_len() > 0 {
        let ghost before = lines.deep_view();
        lines.push(current);
        assert(lines.deep_view() =~= before + seq![lines@.last()@]);
    } else {
        assert(lines.deep_view() + Seq::<Seq<char>>::empty() =~= lines.deep_view());
    }
    lines
}

/// `SyntaxSet::load_defaults_newlines` loads the syntax definitions that
/// syntect ships.
#[verifier::external_body]
fn default_syntaxes() -> SyntaxSet {
    SyntaxSet::load_defaults_newlines()
}

/// `ThemeSet::load_defaults` loads the themes that syntect ships.
#[verifier::external_body]
fn default_themes() -> ThemeSet {
    ThemeSet::load_defaults()
}

/// `SyntaxSet::find_syntax_by_extension` looks a syntax up by a file
/// extension.
#[verifier::external_body]
fn syntax_by_extension<'a>(syntaxes: &'a SyntaxSet, extension: &str) -> Option<
    &'a SyntaxReference,
> {
    syntaxes.find_syntax_by_extension(extension)
}

/// `SyntaxSet::find_syntax_by_name` looks a syntax up by its name.
#[verifier::external_body]
fn syntax_by_name<'a>(syntaxes: &'a SyntaxSet, name: &str) -> Option<&'a SyntaxReference> {
    syntaxes.find_syntax_by_name(name)
}

/// `BTreeMap::get` on the map `themes` of a syntect `ThemeSet` looks a theme
/// up by its name.
#[verifier::external_body]
fn theme_by_name<'a>(themes: &'a ThemeSet, name: &str) -> Option<&'a Theme> {
    themes.themes.get(name)
}

/// `HighlightLines::new` makes a highlighter for one text in the given syntax
/// and theme.
#[verifier::external_body]
fn new_highlighter<'a>(syntax: &SyntaxReference, theme: &'a Theme) -> HighlightLines<'a> {
    HighlightLines::new(syntax, theme)
}

/// `HighlightLines::highlight_line` cuts the next line of the text into
/// styled pieces, of which the foreground colour and the text are kept.
/// `None` where the highlighter reports an error. Nothing is taken for
/// granted of the pieces: whether they make the line is looked at by the
/// caller. The syntax set is the one that the highlighter's syntax came from.
#[verifier::external_body]
fn highlight_line(highlighter: &mut HighlightLines<'_>, line: &str, syntaxes: &SyntaxSet) -> (spans:
    Option<Vec<Span>>) {
    let pieces = highlighter.highlight_line(line, syntaxes).ok()?;
    Some(pieces.into_iter().map(|(style, text)| Span {
        color: Rgb { r: style.foreground.r, g: style.foreground.g, b: style.foreground.b },
        text: text.to_owned(),
    }).collect())
}

/// Whether `spans`, read one after the other, make `line`.
pub fn spells(spans: &Vec<Span>, line: &String) -> (same: bool)
    ensures
        same == (spelled(spans.deep_view()) == line@),
{
    let ghost pieces = spans.deep_view();
    let mut text = String::new();
    let n: usize = spans.len();
    let mut i: usize = 0;
    assert(pieces.take(0) =~= Seq::<SpanView>::empty());
    while i < n
        invariant
            i <= n,
            n == spans@.len(),
            pieces == spans.deep_view(),
            pieces.len() == n,
            text@ == spelled(pieces.take(i as int)),
        decreases n - i,
    {
        text.append(spans[i].text.as_str());
        proof {
            assert(pieces.take(i + 1).drop_last() =~= pieces.take(i as int));
            assert(pieces.take(i + 1).last() == pieces[i as int]);
            assert(pieces[i as int] == spans@[i as int].deep_view());
        }
        i = i + 1;
    }
    assert(pieces.take(n as int) =~= pieces);
    text == *line
}

/// One line of code as it is shown.
pub struct CodeLineView {
    /// The line number, right-aligned, with a blank behind it.
    pub number: Seq<char>,
    pub spans: Seq<SpanView>,
}

/// The number in front of line `n`: right-aligned in four columns, then a
/// blank.
pub open spec fn line_number(n: nat) -> Seq<char> {
    padded(n, 4, ' ').push(' ')
}

/// The highlighted lines, numbered from one.
pub open spec fn numbered(lines: Seq<Seq<SpanView>>) -> Seq<CodeLineView> {
    Seq::new(lines.len(), |i: int| CodeLineView { number: line_number((i + 1) as nat), spans: lines[i] })
}

/// The number of bytes that `text` takes.
pub open spec fn byte_len(text: Seq<char>) -> nat {
    encode_utf8(text).len()
}

/// The number of bytes that the texts of `spans` take together.
pub open spec fn span_bytes(spans: Seq<SpanView>) -> nat
    decreases spans.len(),
{
    if spans.len() == 0 {
        0
    } else {
        span_bytes(spans.drop_last()) + byte_len(spans.last().text)
    }
}

/// The width of a line: the bytes of its number and of its spans.
pub open spec fn line_width(line: CodeLineView) -> nat {
    byte_len(line.number) + span_bytes(line.spans)
}

/// The width of the widest line; zero where there is no line.
pub open spec fn max_width(lines: Seq<CodeLineView>) -> nat
    decreases lines.len(),
{
    if lines.len() == 0 {
        0
    } else {
        let rest = max_width(lines.drop_last());
        let last = line_width(lines.last());
        if last > rest {
            last
        } else {
            rest
        }
    }
}

/// `n`, held at the largest number that a size can be.
pub open spec fn clamped(n: nat) -> usize {
    if n > usize::MAX {
        usize::MAX
    } else {
        n as usize
    }
}

/// The columns at which the spans of `line` start: each span starts where the
/// one before it ends, the first one behind the line number.
pub open spec fn span_offsets(line: CodeLineView) -> Seq<usize> {
    Seq::new(
        line.spans.len(),
        |k: int| clamped(byte_len(line.number) + span_bytes(line.spans.take(k))),
    )
}

/// A response body as numbered lines of highlighted code.
pub struct CodeView {
    numbers: Vec<String>,
    lines: Vec<Vec<Span>>,
}

impl View for CodeView {
    type V = Seq<CodeLineView>;

    closed spec fn view(&self) -> Seq<CodeLineView> {
        Seq::new(
            self.lines@.len(),
            |i: int| CodeLineView { number: self.numbers@[i]@, spans: self.lines@[i].deep_view() },
        )
    }
}

/// The number of bytes that `text` takes.
pub fn text_bytes(text: &str) -> (n: usize)
    ensures
        n == byte_len(text@),
{
    text.as_bytes().len()
}

/// The text in front of line `n`.
pub fn line_label(n: u64) -> (label: String)
    ensures
        label@ == line_number(n as nat),
{
    let mut label = String::new();
    push_padded(&mut label, n, 4, ' ');
    label.push(' ');
    label
}

impl CodeView {
    #[verifier::type_invariant]
    spec fn inv(self) -> bool {
        self.numbers@.len() == self.lines@.len()
    }

    /// Highlights `code` and numbers its lines. The syntax is the one that
    /// syntect has for the file extension `language`, or plain text where it
    /// has none; the theme is `base16-ocean.dark`. The view has the lines of
    /// `code`, each cut into pieces that spell it. `None` where syntect lacks
    /// the syntax or the theme, fails on a line, or hands back pieces that do
    /// not spell the line.
    pub fn new(code: &str, language: &str) -> (view: Option<CodeView>)
        ensures
            view matches Some(v) ==> v.shows(lines_of(code@)),
    {
        let syntaxes = default_syntaxes();
        let themes = default_themes();
        let syntax = match syntax_by_extension(&syntaxes, language) {
            Some(syntax) => syntax,
            None => match syntax_by_name(&syntaxes, "Plain Text") {
                Some(syntax) => syntax,
                None => {
                    return None;
                },
            },
        };
        let theme = match theme_by_name(&themes, "base16-ocean.dark") {
            Some(theme) => theme,
            None => {
                return None;
            },
        };
        let mut highlighter = new_highlighter(syntax, theme);
        let lines = text_lines(code);
        let n: usize = lines.len();
        let mut highlighted: Vec<Vec<Span>> = Vec::new();
        let mut i: usize = 0;
        while i < n
            invariant
                i <= n,
                n == lines@.len(),
                highlighted@.len() == i,
                forall|j: int|
                    0 <= j < i ==> spelled((#[trigger] highlighted@[j]).deep_view()) == lines@[j]@,
            decreases n - i,
        {
            match highlight_line(&mut highlighter, lines[i].as_str(), &syntaxes) {
                Some(spans) => {
                    if !spells(&spans, &lines[i]) {
                        return None;
                    }
                    highlighted.push(spans);
                },
                None => {
                    return None;
                },
            }
            i = i + 1;
        }
        let view = CodeView::from_highlighted(highlighted);
        Some(view)
    }

    /// Whether the view shows the lines `text`: it has one line for each,
    /// numbered from one, and the pieces of each line spell it.
    pub open spec fn shows(&self, text: Seq<Seq<char>>) -> bool {
        &&& self@.len() == text.len()
        &&& forall|j: int|
            0 <= j < text.len() ==> (#[trigger] self@[j]).number == line_number((j + 1) as nat)
        &&& forall|j: int| 0 <= j < text.len() ==> spelled((#[trigger] self@[j]).spans) == text[j]
    }

    /// Numbers the highlighted lines from one.
    pub fn from_highlighted(lines: Vec<Vec<Span>>) -> (view: CodeView)
        ensures
            view@ == numbered(lines.deep_view()),
    {
        let n: usize = lines.len();
        let mut numbers: Vec<String> = Vec::new();
        let mut i: usize = 0;
        while i < n
            invariant
                i <= n,
                n == lines@.len(),
                numbers@.len() == i,
                forall|j: int| 0 <= j < i ==> (#[trigger] numbers@[j])@ == line_number((j + 1) as nat),
            decreases n - i,
        {
            numbers.push(line_label((i + 1) as u64));
            i = i + 1;
        }
        let view = CodeView { numbers, lines };
        view
    }

    /// The number of lines.
    pub fn line_count(&self) -> (n: usize)
        ensures
            n == self@.len(),
    {
        self.lines.len()
    }

    /// The number in front of line `row`, if there is such a line.
    pub fn number(&self, row: usize) -> (number: Option<&String>)
        ensures
            match number {
                Some(text) => row < self@.len() && text@ == self@[row as int].number,
                None => row >= self@.len(),
            },
    {
        proof {
            use_type_invariant(self);
        }
        if row < self.numbers.len() {
            Some(&self.numbers[row])
        } else {
            None
        }
    }

    /// The spans of line `row`, if there is such a line.
    pub fn spans(&self, row: usize) -> (spans: Option<&Vec<Span>>)
        ensures
            match spans {
                Some(line) => row < self@.len() && line.deep_view() == self@[row as int].spans,
                None => row >= self@.len(),
            },
    {
        if row < self.lines.len() {
            Some(&self.lines[row])
        } else {
            None
        }
    }

    /// The columns at which the spans of line `row` start, if there is such a
    /// line.
    pub fn offsets(&self, row: usize) -> (offsets: Option<Vec<usize>>)
        ensures
            match offsets {
                Some(columns) => row < self@.len() && columns@ == span_offsets(self@[row as int]),
                None => row >= self@.len(),
            },
    {
        proof {
            use_type_invariant(self);
        }
        if row >= self.lines.len() {
            return None;
        }
        let number: &String = &self.numbers[row];
        let spans: &Vec<Span> = &self.lines[row];
        let ghost line = self@[row as int];
        let m: usize = spans.len();
        let mut columns: Vec<usize> = Vec::new();
        let mut x_offset: usize = text_bytes(number.as_str());
        let mut k: usize = 0;
        while k < m
            invariant
                k <= m,
                m == spans@.len(),
                line.spans == spans.deep_view(),
                line.spans.len() == m,
                columns@.len() == k,
                x_offset == clamped(byte_len(line.number) + span_bytes(line.spans.take(k as int))),
                forall|j: int| 0 <= j < k ==> columns@[j] == span_offsets(line)[j],
            decreases m - k,
        {
            columns.push(x_offset);
            assert(line.spans.take(k + 1).drop_last() =~= line.spans.take(k as int));
            x_offset = x_offset.saturating_add(text_bytes(spans[k].text.as_str()));
            k = k + 1;
        }
        Some(columns)
    }

    /// The size that the view asks for: the width of its widest line and the
    /// number of its lines. A width beyond the largest size is held there.
    pub fn required_size(&self) -> (size: (usize, usize))
        ensures
            size.0 == clamped(max_width(self@)),
            size.1 == self@.len(),
    {
        proof {
            use_type_invariant(self);
        }
        let n: usize = self.lines.len();
        let mut max_line_length: usize = 0;
        let mut i: usize = 0;
        while i < n
            invariant
                i <= n,
                n == self.lines@.len(),
                n == self.numbers@.len(),
                n == self@.len(),
                max_line_length == clamped(max_width(self@.take(i as int))),
            decreases n - i,
        {
            let spans: &Vec<Span> = &self.lines[i];
            let ghost line = self@[i as int];
            let m: usize = spans.len();
            let mut width: usize = text_bytes(self.numbers[i].as_str());
            let mut k: usize = 0;
            while k < m
                invariant
                    k <= m,
                    m == spans@.len(),
                    line.spans == spans.deep_view(),
                    line.spans.len() == m,
                    width == clamped(byte_len(line.number) + span_bytes(line.spans.take(k as int))),
                decreases m - k,
            {
                assert(line.spans.take(k + 1).drop_last() =~= line.spans.take(k as int));
                width = width.saturating_add(text_bytes(spans[k].text.as_str()));
                k = k + 1;
            }
            proof {
                assert(line.spans.take(m as int) =~= line.spans);
                assert(self@.take(i + 1).drop_last() =~= self@.take(i as int));
            }
            if width > max_line_length {
                max_line_length = width;
            }
            i = i + 1;
        }
        assert(self@.take(n as int) =~= self@);
        (max_line_length, n)
    }
}

/// The three figures above a response: its status, the time it took and its
/// size.
#[derive(Debug, PartialEq, Eq)]
pub struct ResponseInfo {
    pub status: String,
    pub time: String,
    pub size: String,
}

impl ResponseInfo {
    /// The figure for the status.
    pub open spec fn status_text(status_code: Seq<char>) -> Seq<char> {
        "Status: "@ + status_code
    }

    /// The figure for a time of `total_seconds` seconds and `millis`
    /// milliseconds.
    pub open spec fn time_text(total_seconds: nat, millis: nat) -> Seq<char> {
        "Time: "@ + duration_text(total_seconds, millis)
    }

    /// The figure for a size of `response_size` bytes.
    pub open spec fn size_text(response_size: nat) -> Seq<char> {
        "Size: "@ + decimal(response_size) + " B"@
    }

    pub fn new(status_code: &str, duration: Duration, response_size: usize) -> (info: ResponseInfo)
        ensures
            info.status@ == ResponseInfo::status_text(status_code@),
            info.time@ == ResponseInfo::time_text(
                duration_secs(duration) as nat,
                duration_subsec_millis(duration) as nat,
            ),
            info.size@ == ResponseInfo::size_text(response_size as nat),
    {
        let mut status = "Status: ".to_owned();
        status.append(status_code);
        let mut time = "Time: ".to_owned();
        let elapsed = format_duration(duration);
        time.append(elapsed.as_str());
        let mut size = "Size: ".to_owned();
        push_decimal(&mut size, response_size as u64);
        size.append(" B");
        ResponseInfo { status, time, size }
    }
}

} // verus!
