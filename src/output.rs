//! Terminal messages as data.
//!
//! Each function describes what to print: a line is an optional icon followed by
//! styled spans of text. Rendering them to a terminal, with or without color, is
//! left to the caller.
use vstd::prelude::*;

use crate::text::{before_char, contains, is_infix, join, join_spec, prefix_before, views};

verus! {

/// A text color.
#[derive(Debug, Clone, Copy, PartialEq, Eq, Structural)]
pub enum Color {
    Default,
    Green,
    Blue,
    Yellow,
    Red,
    Cyan,
    Magenta,
}

/// How a span of text looks.
#[derive(Debug, Clone, Copy, PartialEq, Eq, Structural)]
pub struct Style {
    pub color: Color,
    pub bold: bool,
    pub dim: bool,
    pub underlined: bool,
}

/// The icon that leads a message.
#[derive(Debug, Clone, Copy, PartialEq, Eq, Structural)]
pub enum Icon {
    Success,
    Info,
    Warning,
    Error,
    Step,
    Directory,
    Next,
}

/// Where a line goes.
#[derive(Debug, Clone, Copy, PartialEq, Eq, Structural)]
pub enum Stream {
    Stdout,
    Stderr,
}

/// A run of text in one style.
#[derive(Debug, Clone)]
pub struct Span {
    pub text: String,
    pub style: Style,
}

/// One line of output.
#[derive(Debug, Clone)]
pub struct Line {
    pub stream: Stream,
    pub icon: Option<Icon>,
    pub spans: Vec<Span>,
}

/// A line over mathematical values.
#[verifier::ext_equal]
pub struct LineView {
    pub stream: Stream,
    pub icon: Option<Icon>,
    pub spans: Seq<(Seq<char>, Style)>,
}

impl View for Line {
    type V = LineView;

    open spec fn view(&self) -> LineView {
        LineView {
            stream: self.stream,
            icon: self.icon,
            spans: self.spans@.map_values(|s: Span| (s.text@, s.style)),
        }
    }
}

/// The views of some lines.
pub open spec fn lines_view(v: Seq<Line>) -> Seq<LineView> {
    v.map_values(|l: Line| l@)
}

/// A style.
pub open spec fn st(color: Color, bold: bool, dim: bool, underlined: bool) -> Style {
    Style { color, bold, dim, underlined }
}

/// Unstyled text.
pub open spec fn plain_style() -> Style {
    st(Color::Default, false, false, false)
}

/// A line on the output stream.
pub open spec fn out_line(icon: Option<Icon>, spans: Seq<(Seq<char>, Style)>) -> LineView {
    LineView { stream: Stream::Stdout, icon, spans }
}

/// An empty line.
pub open spec fn blank_view() -> LineView {
    out_line(None, seq![])
}

pub open spec fn success_view(m: Seq<char>) -> LineView {
    out_line(Some(Icon::Success), seq![(m, st(Color::Green, true, false, false))])
}

pub open spec fn info_view(m: Seq<char>) -> LineView {
    out_line(Some(Icon::Info), seq![(m, st(Color::Blue, false, false, false))])
}

pub open spec fn warning_view(m: Seq<char>) -> LineView {
    out_line(Some(Icon::Warning), seq![(m, st(Color::Yellow, true, false, false))])
}

pub open spec fn error_view(m: Seq<char>) -> LineView {
    LineView {
        stream: Stream::Stderr,
        icon: Some(Icon::Error),
        spans: seq![(m, st(Color::Red, true, false, false))],
    }
}

pub open spec fn step_view(m: Seq<char>) -> LineView {
    out_line(Some(Icon::Step), seq![(m, st(Color::Cyan, false, false, false))])
}

pub open spec fn key_value_view(k: Seq<char>, v: Seq<char>) -> LineView {
    out_line(
        None,
        seq![
            ("   "@, plain_style()),
            (k, st(Color::Default, true, false, false)),
            (": "@, plain_style()),
            (v, plain_style()),
        ],
    )
}

/// A section heading, bold and underlined, between empty lines.
pub open spec fn header_view(title: Seq<char>) -> Seq<LineView> {
    seq![
        blank_view(),
        out_line(None, seq![(title, st(Color::Default, true, false, true))]),
        blank_view(),
    ]
}

/// The lines of a list of next steps: nothing for no steps, else a heading
/// and one indented, dimmed line per step.
pub open spec fn next_steps_view(steps: Seq<Seq<char>>) -> Seq<LineView> {
    if steps.len() == 0 {
        seq![]
    } else {
        seq![
            blank_view(),
            out_line(Some(Icon::Next), seq![("Next steps:"@, st(Color::Cyan, true, false, false))]),
        ] + steps.map_values(|s: Seq<char>| step_line(s))
    }
}

/// One of the next steps: indented and dimmed.
pub open spec fn step_line(s: Seq<char>) -> LineView {
    out_line(None, seq![("  "@, plain_style()), (s, st(Color::Default, false, true, false))])
}

/// The guidance that goes with an error message, chosen by what the message says.
pub open spec fn format_error_view(m: Seq<char>) -> Seq<LineView> {
    if is_infix(m, "not found. Use 'cza list'"@) {
        seq![error_view(before_char(m, '.')), info_view("Use 'cza list' to see available templates."@)]
    } else if is_infix(m, "already exists"@) {
        seq![
            error_view(m),
            info_view("Choose a different project name or remove the existing directory."@),
        ]
    } else if is_infix(m, "Project name"@) {
        seq![
            error_view(m),
            info_view(
                "Project names can only contain alphanumeric characters, hyphens, and underscores."@,
            ),
        ]
    } else {
        seq![error_view(m)]
    }
}

/// Appends a line, keeping track of the lines' views.
pub fn push_line(lines: &mut Vec<Line>, line: Line)
    ensures
        lines_view(final(lines)@) == lines_view(old(lines)@).push(line@),
        final(lines)@.len() == old(lines)@.len() + 1,
{
    let ghost before = lines@;
    lines.push(line);
    assert(lines_view(lines@) =~= lines_view(before).push(line@));
}

/// Appends copies of some lines, in order.
pub fn append_lines(lines: &mut Vec<Line>, more: &Vec<Line>)
    ensures
        lines_view(final(lines)@) == lines_view(old(lines)@) + lines_view(more@),
{
    let ghost start = lines_view(lines@);
    let ghost all = lines_view(more@);
    let mut i: usize = 0;
    let n = more.len();
    while i < n
        invariant
            n == more@.len(),
            i <= n,
            lines_view(more@) == all,
            lines_view(lines@) == start + all.take(i as int),
        decreases n - i,
    {
        let l = more[i].clone_line();
        push_line(lines, l);
        assert(all.take(i + 1) =~= all.take(i as int).push(all[i as int]));
        assert(start + all.take(i + 1) =~= (start + all.take(i as int)).push(all[i as int]));
        i = i + 1;
    }
    assert(all.take(n as int) =~= all);
}

impl Line {
    /// A copy of a line.
    pub fn clone_line(&self) -> (r: Line)
        ensures
            r@ == self@,
    {
        let mut spans: Vec<Span> = Vec::new();
        let mut i: usize = 0;
        while i < self.spans.len()
            invariant
                i <= self.spans@.len(),
                spans@.map_values(|s: Span| (s.text@, s.style)) == self@.spans.take(
                    i as int,
                ),
            decreases self.spans@.len() - i,
        {
            let ghost before = spans@;
            spans.push(
                Span { text: self.spans[i].text.clone(), style: self.spans[i].style },
            );
            assert(spans@.map_values(|s: Span| (s.text@, s.style)) =~= before.map_values(
                |s: Span| (s.text@, s.style),
            ).push(self@.spans[i as int]));
            assert(self@.spans.take(i + 1) =~= self@.spans.take(i as int).push(self@.spans[i as int]));
            i = i + 1;
        }
        let r = Line { stream: self.stream, icon: self.icon, spans };
        assert(self@.spans.take(self.spans@.len() as int) =~= self@.spans);
        assert(r@ =~= self@);
        r
    }
}

/// A line of spans.
fn line_of(stream: Stream, icon: Option<Icon>) -> (r: Line)
    ensures
        r@ == (LineView { stream, icon, spans: seq![] }),
{
    let r = Line { stream, icon, spans: Vec::new() };
    assert(r@.spans =~= seq![]);
    r
}

/// Appends a span to a line.
fn push_span(line: &mut Line, text: &str, style: Style)
    ensures
        final(line)@ == (LineView { spans: old(line)@.spans.push((text@, style)), ..old(line)@ }),
{
    let ghost before = line.spans@;
    line.spans.push(Span { text: String::from_str(text), style });
    assert(line.spans@.map_values(|s: Span| (s.text@, s.style)) =~= before.map_values(
        |s: Span| (s.text@, s.style),
    ).push((text@, style)));
}

/// A line with an icon and one span.
fn single(stream: Stream, icon: Icon, text: &str, style: Style) -> (r: Line)
    ensures
        r@ == (LineView { stream, icon: Some(icon), spans: seq![(text@, style)] }),
{
    let mut r = line_of(stream, Some(icon));
    push_span(&mut r, text, style);
    r
}

/// An empty line.
fn blank() -> (r: Line)
    ensures
        r@ == blank_view(),
{
    line_of(Stream::Stdout, None)
}

fn plain_st() -> (r: Style)
    ensures
        r == plain_style(),
{
    Style { color: Color::Default, bold: false, dim: false, underlined: false }
}

/// A success message, green and bold.
pub fn success(message: &str) -> (r: Line)
    ensures
        r@ == success_view(message@),
{
    single(
        Stream::Stdout,
        Icon::Success,
        message,
        Style { color: Color::Green, bold: true, dim: false, underlined: false },
    )
}

/// An informational message, blue.
pub fn info(message: &str) -> (r: Line)
    ensures
        r@ == info_view(message@),
{
    single(
        Stream::Stdout,
        Icon::Info,
        message,
        Style { color: Color::Blue, bold: false, dim: false, underlined: false },
    )
}

/// A warning, yellow and bold.
pub fn warning(message: &str) -> (r: Line)
    ensures
        r@ == warning_view(message@),
{
    single(
        Stream::Stdout,
        Icon::Warning,
        message,
        Style { color: Color::Yellow, bold: true, dim: false, underlined: false },
    )
}

/// An error, red and bold, on the error stream.
pub fn error(message: &str) -> (r: Line)
    ensures
        r@ == error_view(message@),
{
    single(
        Stream::Stderr,
        Icon::Error,
        message,
        Style { color: Color::Red, bold: true, dim: false, underlined: false },
    )
}

/// A progress step, cyan.
pub fn step(message: &str) -> (r: Line)
    ensures
        r@ == step_view(message@),
{
    single(
        Stream::Stdout,
        Icon::Step,
        message,
        Style { color: Color::Cyan, bold: false, dim: false, underlined: false },
    )
}

/// The location of a directory, the path magenta and bold.
pub fn directory(path: &str) -> (r: Line)
    ensures
        r@ == out_line(
            Some(Icon::Directory),
            seq![("Location: "@, plain_style()), (path@, st(Color::Magenta, true, false, false))],
        ),
{
    let mut r = line_of(Stream::Stdout, Some(Icon::Directory));
    push_span(&mut r, "Location: ", plain_st());
    push_span(
        &mut r,
        path,
        Style { color: Color::Magenta, bold: true, dim: false, underlined: false },
    );
    r
}

/// The next steps to take: nothing when there are none.
pub fn next_steps(steps: &[&str]) -> (r: Vec<Line>)
    ensures
        lines_view(r@) == next_steps_view(steps@.map_values(|s: &str| s@)),
{
    let mut r: Vec<Line> = Vec::new();
    if steps.len() == 0 {
        assert(lines_view(r@) =~= seq![]);
        return r;
    }
    r.push(blank());
    r.push(
        single(
            Stream::Stdout,
            Icon::Next,
            "Next steps:",
            Style { color: Color::Cyan, bold: true, dim: false, underlined: false },
        ),
    );
    let ghost all = steps@.map_values(|s: &str| s@);
    let mut i: usize = 0;
    while i < steps.len()
        invariant
            i <= steps@.len(),
            all == steps@.map_values(|s: &str| s@),
            r@.len() == 2 + i,
            lines_view(r@)[0] == blank_view(),
            lines_view(r@)[1] == out_line(
                Some(Icon::Next),
                seq![("Next steps:"@, st(Color::Cyan, true, false, false))],
            ),
            forall|j: int| 0 <= j < i ==> #[trigger] lines_view(r@)[2 + j] == step_line(all[j]),
        decreases steps@.len() - i,
    {
        let mut l = line_of(Stream::Stdout, None);
        push_span(&mut l, "  ", plain_st());
        push_span(
            &mut l,
            steps[i],
            Style { color: Color::Default, bold: false, dim: true, underlined: false },
        );
        assert(l@ =~= step_line(all[i as int]));
        let ghost before = r@;
        r.push(l);
        assert(lines_view(r@) =~= lines_view(before).push(l@));
        i = i + 1;
    }
    let ghost want = next_steps_view(all);
    assert(all.len() == steps@.len());
    assert forall|j: int| 0 <= j < all.len() implies want[2 + j] == step_line(all[j]) by {
        assert(want[2 + j] == all.map_values(|s: Seq<char>| step_line(s))[j]);
    }
    assert(lines_view(r@) =~= want);
    r
}

/// A command to try, with what it does.
pub fn command_example(description: &str, command: &str) -> (r: Line)
    ensures
        r@ == out_line(
            None,
            seq![
                ("  "@, plain_style()),
                (description@, st(Color::Default, false, true, false)),
                (": "@, plain_style()),
                (command@, st(Color::Green, true, false, false)),
            ],
        ),
{
    let mut r = line_of(Stream::Stdout, None);
    push_span(&mut r, "  ", plain_st());
    push_span(
        &mut r,
        description,
        Style { color: Color::Default, bold: false, dim: true, underlined: false },
    );
    push_span(&mut r, ": ", plain_st());
    push_span(
        &mut r,
        command,
        Style { color: Color::Green, bold: true, dim: false, underlined: false },
    );
    r
}

/// A section heading, bold and underlined, between empty lines.
pub fn header(title: &str) -> (r: Vec<Line>)
    ensures
        lines_view(r@) == header_view(title@),
{
    let mut t = line_of(Stream::Stdout, None);
    push_span(
        &mut t,
        title,
        Style { color: Color::Default, bold: true, dim: false, underlined: true },
    );
    let mut r: Vec<Line> = Vec::new();
    r.push(blank());
    r.push(t);
    r.push(blank());
    assert(lines_view(r@) =~= seq![
        blank_view(),
        out_line(None, seq![(title@, st(Color::Default, true, false, true))]),
        blank_view(),
    ]);
    r
}

/// A message without styling.
pub fn plain(message: &str) -> (r: Line)
    ensures
        r@ == out_line(None, seq![(message@, plain_style())]),
{
    let mut r = line_of(Stream::Stdout, None);
    push_span(&mut r, message, plain_st());
    r
}

/// A labelled value, the label bold.
fn key_value(key: &str, value: &str) -> (r: Line)
    ensures
        r@ == key_value_view(key@, value@),
{
    let mut r = line_of(Stream::Stdout, None);
    push_span(&mut r, "   ", plain_st());
    push_span(&mut r, key, Style { color: Color::Default, bold: true, dim: false, underlined: false });
    push_span(&mut r, ": ", plain_st());
    push_span(&mut r, value, plain_st());
    r
}

/// A template in a short listing: its name, green and bold, and its description, dimmed.
pub fn template_item(name: &str, description: &str) -> (r: Line)
    ensures
        r@ == out_line(
            None,
            seq![
                ("  "@, plain_style()),
                (name@, st(Color::Green, true, false, false)),
                (" - "@, plain_style()),
                (description@, st(Color::Default, false, true, false)),
            ],
        ),
{
    let mut r = line_of(Stream::Stdout, None);
    push_span(&mut r, "  ", plain_st());
    push_span(&mut r, name, Style { color: Color::Green, bold: true, dim: false, underlined: false });
    push_span(&mut r, " - ", plain_st());
    push_span(
        &mut r,
        description,
        Style { color: Color::Default, bold: false, dim: true, underlined: false },
    );
    r
}

/// A template in a detailed listing: its key, then its name, description,
/// frameworks (comma separated) and repository, then an empty line.
pub fn template_detailed(
    key: &str,
    name: &str,
    description: &str,
    frameworks: &Vec<String>,
    repository: &str,
) -> (r: Vec<Line>)
    ensures
        lines_view(r@) == seq![
            out_line(Some(Icon::Step), seq![(key@, st(Color::Green, true, false, false))]),
            key_value_view("Name"@, name@),
            key_value_view("Description"@, description@),
            key_value_view("Frameworks"@, join_spec(views(frameworks@), ", "@)),
            key_value_view("Repository"@, repository@),
            blank_view(),
        ],
{
    let mut r: Vec<Line> = Vec::new();
    r.push(
        single(
            Stream::Stdout,
            Icon::Step,
            key,
            Style { color: Color::Green, bold: true, dim: false, underlined: false },
        ),
    );
    r.push(key_value("Name", name));
    r.push(key_value("Description", description));
    let joined = join(frameworks, ", ");
    r.push(key_value("Frameworks", joined.as_str()));
    r.push(key_value("Repository", repository));
    r.push(blank());
    assert(lines_view(r@) =~= seq![
        out_line(Some(Icon::Step), seq![(key@, st(Color::Green, true, false, false))]),
        key_value_view("Name"@, name@),
        key_value_view("Description"@, description@),
        key_value_view("Frameworks"@, join_spec(views(frameworks@), ", "@)),
        key_value_view("Repository"@, repository@),
        blank_view(),
    ]);
    r
}

/// The lines that report an error: the message, with guidance for a missing
/// template, an existing directory or a bad project name.
pub fn format_error(message: &str) -> (r: Vec<Line>)
    ensures
        lines_view(r@) == format_error_view(message@),
{
    let mut r: Vec<Line> = Vec::new();
    if contains(message, "not found. Use 'cza list'") {
        let head = prefix_before(message, '.');
        r.push(error(head.as_str()));
        r.push(info("Use 'cza list' to see available templates."));
    } else if contains(message, "already exists") {
        r.push(error(message));
        r.push(info("Choose a different project name or remove the existing directory."));
    } else if contains(message, "Project name") {
        r.push(error(message));
        r.push(
            info(
                "Project names can only contain alphanumeric characters, hyphens, and underscores.",
            ),
        );
    } else {
        r.push(error(message));
    }
    assert(lines_view(r@) =~= format_error_view(message@));
    r
}

} // verus!
