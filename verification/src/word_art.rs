//! The banner shown when the application starts.
use vstd::prelude::*;
use vstd::string::*;

use figlet_rs::FIGlet;

use crate::app_env::{AppEnv, LogLevel};

verus! {

/// The FIGlet fonts that `figlet_rs` bundles.
#[derive(Debug, Clone, Copy, PartialEq, Eq, Structural)]
pub enum FontName {
    Standard,
    Small,
    Big,
    Slant,
}

/// The text that `figlet_rs` renders for `message` in the bundled `font`,
/// `None` where the font cannot render it: a function of the two alone,
/// since each font is parsed from text compiled into the crate.
pub uninterp spec fn figlet_figure(font: FontName, message: Seq<char>) -> Option<Seq<char>>;

/// `figlet_rs::FIGlet::standard`, `small`, `big` or `slant`, as `font`
/// says, then `FIGlet::convert` on `message`, the figure turned into text;
/// `None` where either fails. Named by `figlet_figure`; nothing more is
/// claimed of the figure.
#[verifier::external_body]
fn render_figure(font: FontName, message: &str) -> (r: Option<String>)
    ensures
        r is Some <==> figlet_figure(font, message@) is Some,
        r matches Some(figure) ==> figlet_figure(font, message@) == Some(figure@),
{
    let loaded = match font {
        FontName::Standard => FIGlet::standard(),
        FontName::Small => FIGlet::small(),
        FontName::Big => FIGlet::big(),
        FontName::Slant => FIGlet::slant(),
    };
    match loaded {
        Ok(figlet) => figlet.convert(message).map(|figure| figure.to_string()),
        Err(_) => None,
    }
}

/// The art for `input` in `font`: its figure, or nothing where there is
/// none.
pub open spec fn spec_art(input: Seq<char>, font: FontName) -> Seq<char> {
    match figlet_figure(font, input) {
        Some(figure) => figure,
        None => Seq::<char>::empty(),
    }
}

/// The terminal colours the banner uses.
#[derive(Debug, Clone, Copy, PartialEq, Eq, Structural)]
pub enum Color {
    Magenta,
    Green,
    BgRed,
}

/// The escape sequence that ends colouring.
pub open spec fn reset_code() -> Seq<char> {
    seq!['\x1b', '[', '0', 'm']
}

impl Color {
    /// The escape sequence that starts the colour.
    pub open spec fn code(&self) -> Seq<char> {
        match self {
            Color::Magenta => seq!['\x1b', '[', '3', '5', 'm'],
            Color::Green => seq!['\x1b', '[', '3', '2', 'm'],
            Color::BgRed => seq!['\x1b', '[', '4', '1', 'm'],
        }
    }

    /// The escape sequence that starts the colour.
    pub fn get(&self) -> (r: &'static str)
        ensures
            r@ == self.code(),
    {
        proof {
            reveal_strlit("\x1b[35m");
            reveal_strlit("\x1b[32m");
            reveal_strlit("\x1b[41m");
        }
        let r = match self {
            Color::Magenta => "\x1b[35m",
            Color::Green => "\x1b[32m",
            Color::BgRed => "\x1b[41m",
        };
        assert(r@ =~= self.code());
        r
    }
}

/// The index of the first '\n' in `s`.
pub open spec fn first_newline(s: Seq<char>) -> Option<int>
    decreases s.len(),
{
    if s.len() == 0 {
        None
    } else if s[0] == '\n' {
        Some(0)
    } else {
        match first_newline(s.drop_first()) {
            Some(i) => Some(i + 1),
            None => None,
        }
    }
}

/// A line without the '\r' of a "\r\n" ending.
pub open spec fn strip_cr(line: Seq<char>) -> Seq<char> {
    if line.len() > 0 && line.last() == '\r' {
        line.drop_last()
    } else {
        line
    }
}

/// The lines of `s`, as `str::lines` yields them: split after each '\n',
/// without the "\n" or "\r\n" that ends them; a last line ending adds no
/// empty line.
pub open spec fn lines(s: Seq<char>) -> Seq<Seq<char>>
    decreases s.len(),
{
    if s.len() == 0 {
        Seq::empty()
    } else {
        match first_newline(s) {
            None => seq![s],
            Some(i) => if 0 <= i < s.len() {
                seq![strip_cr(s.take(i))] + lines(s.skip(i + 1))
            } else {
                Seq::empty()
            },
        }
    }
}

/// Each line with the colour code before it and a '\n' after it.
pub open spec fn painted_lines(lines: Seq<Seq<char>>, tint: Seq<char>) -> Seq<char>
    decreases lines.len(),
{
    if lines.len() == 0 {
        Seq::empty()
    } else {
        tint + lines[0] + seq!['\n'] + painted_lines(lines.drop_first(), tint)
    }
}

/// `text` coloured line by line, with the reset code at the end.
pub open spec fn spec_paint(text: Seq<char>, color: Color) -> Seq<char> {
    painted_lines(lines(text), color.code()) + reset_code()
}

/// `first_newline` finds the first '\n' at `j`, or none where `j` is the
/// length.
proof fn lemma_first_newline(s: Seq<char>, j: int)
    requires
        0 <= j <= s.len(),
        forall|k: int| 0 <= k < j ==> s[k] != '\n',
        j < s.len() ==> s[j] == '\n',
    ensures
        first_newline(s) == if j < s.len() {
            Some(j)
        } else {
            None::<int>
        },
    decreases j,
{
    if s.len() > 0 && j > 0 {
        lemma_first_newline(s.drop_first(), j - 1);
    }
}

/// Whether `sub` occurs in `s`.
pub open spec fn contains(s: Seq<char>, sub: Seq<char>) -> bool {
    exists|i: int| 0 <= i && i + sub.len() <= s.len() && #[trigger] s.subrange(i, i + sub.len()) == sub
}

/// Painting one line without a line break puts the colour code before it
/// and a newline and the reset code after it.
pub proof fn law_paint_single_line(text: Seq<char>, color: Color)
    requires
        text.len() > 0,
        forall|i: int| 0 <= i < text.len() ==> text[i] != '\n',
    ensures
        spec_paint(text, color) == color.code() + text + seq!['\n'] + reset_code(),
{
    lemma_first_newline(text, text.len() as int);
    assert(lines(text) == seq![text]);
    assert(seq![text].drop_first() =~= Seq::<Seq<char>>::empty());
    assert(painted_lines(Seq::<Seq<char>>::empty(), color.code()) =~= Seq::<char>::empty());
    assert(seq![text][0] == text);
    assert(painted_lines(seq![text], color.code()) =~= color.code() + text + seq!['\n']);
}

/// `text` coloured line by line: each line of `text` after the colour code
/// and followed by '\n', then the reset code.
pub fn paint_text(text: &str, color: Color) -> (r: String)
    ensures
        r@ == spec_paint(text@, color),
{
    let tint = color.get();
    let n = text.unicode_len();
    let mut output = String::new();
    let mut pos: usize = 0;
    assert(text@.skip(0) =~= text@);
    while pos < n
        invariant
            pos <= n,
            n == text@.len(),
            tint@ == color.code(),
            output@ + painted_lines(lines(text@.skip(pos as int)), tint@) == painted_lines(
                lines(text@),
                tint@,
            ),
        decreases n - pos,
    {
        let ghost rest = text@.skip(pos as int);
        let mut end = pos;
        while end < n && text.get_char(end) != '\n'
            invariant
                pos <= end <= n,
                n == text@.len(),
                rest == text@.skip(pos as int),
                forall|k: int| 0 <= k < end - pos ==> rest[k] != '\n',
            decreases n - end,
        {
            end = end + 1;
        }
        proof {
            lemma_first_newline(rest, end - pos);
        }
        // Drop the '\r' of a "\r\n" ending.
        let line_end = if end < n && end > pos && text.get_char(end - 1) == '\r' {
            end - 1
        } else {
            end
        };
        let line = text.substring_char(pos, line_end);
        output.append(tint);
        output.append(line);
        output.append("\n");
        proof {
            reveal_strlit("\n");
            let l = if end < n {
                strip_cr(rest.take(end - pos))
            } else {
                rest
            };
            assert(l =~= line@);
            if end < n {
                assert(rest.skip(end - pos + 1) =~= text@.skip(end + 1));
                assert(lines(rest) == seq![l] + lines(text@.skip(end + 1)));
                assert((seq![l] + lines(text@.skip(end + 1))).drop_first() =~= lines(
                    text@.skip(end + 1),
                ));
            } else {
                assert(lines(rest) == seq![l]);
                assert(seq![l].drop_first() =~= Seq::<Seq<char>>::empty());
                assert(text@.skip(n as int) =~= Seq::<char>::empty());
            }
        }
        pos = if end < n {
            end + 1
        } else {
            end
        };
    }
    assert(text@.skip(n as int) =~= Seq::<char>::empty());
    output.append("\x1b[0m");
    proof {
        reveal_strlit("\x1b[0m");
    }
    output
}

/// `input` as ASCII art in `font`; empty where the font cannot render it.
pub fn create_art(input: &str, font: FontName) -> (r: String)
    ensures
        r@ == spec_art(input@, font),
{
    match render_figure(font, input) {
        Some(text) => text,
        None => String::new(),
    }
}

/// The line with the version and the author.
pub open spec fn version_line(semver: Seq<char>, author: Seq<char>) -> Seq<char> {
    seq!['v'] + semver + seq![' ', ' ', ' ', ' '] + author
}

/// The warning repeated under the banner in a verbose log level.
pub open spec fn mode_banner(level: LogLevel) -> Option<Seq<char>> {
    match level {
        LogLevel::Trace => Some("!! TRACE MODE !!"@),
        LogLevel::Debug => Some("!! DEBUG MODE !!"@),
        _ => None,
    }
}

/// The intro: the art in magenta, the version line in green, in trace or
/// debug level three red warnings after a newline, and a final newline.
pub open spec fn spec_intro(art: Seq<char>, semver: Seq<char>, author: Seq<char>, level: LogLevel) -> Seq<
    char,
> {
    let head = spec_paint(art, Color::Magenta) + spec_paint(version_line(semver, author), Color::Green);
    match mode_banner(level) {
        Some(text) => {
            let warning = spec_paint(text, Color::BgRed);
            head + seq!['\n'] + warning + warning + warning + seq!['\n']
        },
        None => head + seq!['\n'],
    }
}

/// In trace and debug level the intro shows the mode's warning, whatever
/// the art; in the other levels it ends right after the version line.
pub proof fn law_intro_warns_in_verbose_levels(
    art: Seq<char>,
    semver: Seq<char>,
    author: Seq<char>,
    level: LogLevel,
)
    ensures
        level == LogLevel::Trace ==> contains(spec_intro(art, semver, author, level), "!! TRACE MODE !!"@),
        level == LogLevel::Debug ==> contains(spec_intro(art, semver, author, level), "!! DEBUG MODE !!"@),
        !(level == LogLevel::Trace || level == LogLevel::Debug) ==> spec_intro(art, semver, author, level)
            == spec_paint(art, Color::Magenta) + spec_paint(version_line(semver, author), Color::Green)
            + seq!['\n'],
{
    reveal_strlit("!! TRACE MODE !!");
    reveal_strlit("!! DEBUG MODE !!");
    if let Some(text) = mode_banner(level) {
        assert(text.len() == 16);
        law_paint_single_line(text, Color::BgRed);
        let head = spec_paint(art, Color::Magenta) + spec_paint(version_line(semver, author), Color::Green);
        let warning = spec_paint(text, Color::BgRed);
        let out = spec_intro(art, semver, author, level);
        let i: int = head.len() as int + 6;
        assert(out == head + seq!['\n'] + warning + warning + warning + seq!['\n']);
        assert(out.subrange(i, i + 16) =~= text);
    }
}

/// The intro around a given piece of art.
pub fn compose_intro(art: &str, semver: &str, author: &str, level: LogLevel) -> (r: String)
    ensures
        r@ == spec_intro(art@, semver@, author@, level),
{
    proof {
        reveal_strlit("v");
        reveal_strlit("    ");
        reveal_strlit("\n");
        reveal_strlit("!! TRACE MODE !!");
        reveal_strlit("!! DEBUG MODE !!");
    }
    let leafcast = paint_text(art, Color::Magenta);
    let mut version_text = String::from_str("v");
    version_text.append(semver);
    version_text.append("    ");
    version_text.append(author);
    assert(version_text@ =~= version_line(semver@, author@));
    let version = paint_text(version_text.as_str(), Color::Green);
    let mut output = leafcast;
    output.append(version.as_str());
    let ghost head = output@;
    assert(head =~= spec_paint(art@, Color::Magenta) + spec_paint(
        version_line(semver@, author@),
        Color::Green,
    ));
    let banner: Option<&str> = match level {
        LogLevel::Trace => Some("!! TRACE MODE !!"),
        LogLevel::Debug => Some("!! DEBUG MODE !!"),
        _ => None,
    };
    if let Some(text) = banner {
        output.append("\n");
        let warning = paint_text(text, Color::BgRed);
        let ghost before = output@;
        for _i in 0..3usize
            invariant
                output@ == before + (if _i == 0 {
                    Seq::<char>::empty()
                } else if _i == 1 {
                    warning@
                } else if _i == 2 {
                    warning@ + warning@
                } else {
                    warning@ + warning@ + warning@
                }),
        {
            output.append(warning.as_str());
        }
        assert(banner == Some(text) && mode_banner(level) == Some(text@));
        assert(output@ =~= head + seq!['\n'] + warning@ + warning@ + warning@);
    } else {
        assert(mode_banner(level) is None);
    }
    output.append("\n");
    output
}

/// The intro for the settings' log level, around the application's name in
/// FIGlet art in `font`.
pub fn display_intro(app_envs: &AppEnv, semver: &str, author: &str, font: FontName) -> (r: String)
    ensures
        r@ == spec_intro(spec_art("Leafcast"@, font), semver@, author@, app_envs.log_level),
{
    let art = create_art("Leafcast", font);
    compose_intro(art.as_str(), semver, author, app_envs.log_level)
}

/// The intro text, printed once at start.
pub struct Intro {
    data: String,
}

impl Intro {
    pub closed spec fn spec_text(&self) -> Seq<char> {
        self.data@
    }

    /// The intro for the settings, with the art in `font`.
    pub fn new(app_envs: &AppEnv, semver: &str, author: &str, font: FontName) -> (r: Self)
        ensures
            r.spec_text() == spec_intro(spec_art("Leafcast"@, font), semver@, author@, app_envs.log_level),
    {
        Intro { data: display_intro(app_envs, semver, author, font) }
    }

    /// The text to print.
    pub fn text(&self) -> (r: &str)
        ensures
            r@ == self.spec_text(),
    {
        self.data.as_str()
    }
}

} // verus!
