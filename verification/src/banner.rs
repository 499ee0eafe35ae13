//! The start-up banner: the access URL as a QR symbol beside the logo.
//!
//! The banner has two layouts.  The simple one prints three status lines and
//! then the symbol below them.  The side-by-side one prints the symbol with
//! the logo and the status lines to its right, centred against it.  Which one
//! is used depends on the width of the terminal and of what is to be shown.
//!
//! The colours come from the `colored` crate, which decides by the
//! environment whether it paints at all; the layout is therefore stated over
//! the lines as they came back from painting, whatever they hold.

use crate::qr::{grid_of, render_rows, Cell, QrMatrix};
use crate::text::{followed_by, push_line, repeat_char, repeated, texts};
use colored::Colorize;
use unicode_width::UnicodeWidthStr;
use vstd::prelude::*;

verus! {

/// The terminal width assumed when the terminal does not tell its own.
pub const DEFAULT_COLUMNS: u16 = 80;

/// The longest working-directory text that is shown in full.
pub const LABEL_LIMIT: usize = 30;

/// How many characters of each end of a longer text are kept.
pub const LABEL_KEEP: usize = 15;

/// The character that begins an escape sequence.
pub const ESCAPE: char = '\u{1b}';

/// What `qrcode::QrCode::new` makes of the text `data`: `None` where it
/// fails, else the width of the symbol and its modules row by row, `true` for
/// a dark one.
pub uninterp spec fn qr_symbol_of(data: Seq<char>) -> Option<(nat, Seq<bool>)>;

/// What `unicode_width::UnicodeWidthStr::width` returns for `text`.
pub uninterp spec fn display_width_of(text: Seq<char>) -> nat;

/// `qrcode::QrCode::new` on the bytes of `data`, then `QrCode::width` and
/// `QrCode::into_colors`, each colour turned into a flag.  The encoder is a
/// function of the data alone; the contract names what it returns and claims
/// nothing of the symbol itself, not even that it is square.
#[verifier::external_body]
fn qr_encode(data: &str) -> (out: Option<(usize, Vec<bool>)>)
    ensures
        match out {
            Some((width, cells)) => qr_symbol_of(data@) == Some((width as nat, cells@)),
            None => qr_symbol_of(data@) is None,
        },
{
    let code = qrcode::QrCode::new(data).ok()?;
    let width = code.width();
    let dark = |color| match color {
        qrcode::Color::Dark => true,
        qrcode::Color::Light => false,
    };
    Some((width, code.into_colors().into_iter().map(dark).collect()))
}

/// `UnicodeWidthStr::width`: the number of terminal columns that the crate
/// reckons for `text`, a function of its characters alone.
#[verifier::external_body]
fn display_width(text: &str) -> (columns: usize)
    ensures
        columns == display_width_of(text@),
{
    text.width()
}

/// `Colorize::bright_yellow`, then `bold`, printed to a string.  Whether
/// escape sequences are added depends on the environment; either way a text
/// without an escape character comes back whole, with nothing or with escape
/// sequences around it.
#[verifier::external_body]
fn paint_yellow(text: &str) -> (out: String)
    ensures
        is_painted(text@, out@),
{
    text.bright_yellow().bold().to_string()
}

/// `Colorize::bright_cyan`, then `bold`, printed to a string; the contract
/// is that of `paint_yellow`.
#[verifier::external_body]
fn paint_cyan(text: &str) -> (out: String)
    ensures
        is_painted(text@, out@),
{
    text.bright_cyan().bold().to_string()
}

/// `Colorize::bright_purple`, then `bold`, printed to a string; the
/// contract is that of `paint_yellow`.
#[verifier::external_body]
fn paint_purple(text: &str) -> (out: String)
    ensures
        is_painted(text@, out@),
{
    text.bright_purple().bold().to_string()
}

/// `Colorize::bright_green`, then `bold`, printed to a string; the contract
/// is that of `paint_yellow`.
#[verifier::external_body]
fn paint_green(text: &str) -> (out: String)
    ensures
        is_painted(text@, out@),
{
    text.bright_green().bold().to_string()
}

/// Whether `out` may be what painting made of `text`: a text without an
/// escape character is found whole in its painted form, with nothing or with
/// escape sequences before and after it.  Of a text that holds an escape
/// character nothing is said.
pub open spec fn is_painted(text: Seq<char>, out: Seq<char>) -> bool {
    !text.contains(ESCAPE) ==> exists|before: Seq<char>, after: Seq<char>|
        out == #[trigger] (before + text + after)
}

/// The five lines of the logo.
pub open spec fn logo() -> Seq<Seq<char>> {
    seq![
        " _     _           ____ "@,
        "| |   (_)_   _____/ ___|  ___ _ ____   _____ _ __ "@,
        "| |   | \\ \\ / / _ \\___ \\ / _ \\ '__\\ \\ / / _ \\ '__| "@,
        "| |___| |\\ V /  __/___) |  __/ |   \\ V /  __/ | "@,
        "|_____|_| \\_/ \\___|____/ \\___|_|    \\_/ \\___|_| "@,
    ]
}

/// The working directory as the banner shows it: in full up to
/// `LABEL_LIMIT` characters, else its first and last `LABEL_KEEP`
/// characters with two dots between them.
pub open spec fn dir_label(dir: Seq<char>) -> Seq<char> {
    if dir.len() > LABEL_LIMIT {
        dir.take(LABEL_KEEP as int) + ".."@ + dir.skip(dir.len() - LABEL_KEEP)
    } else {
        dir
    }
}

/// The three status lines, unpainted: where the server listens, what it
/// shows, and the hint to scan.
pub open spec fn status_lines(url: Seq<char>, dir: Seq<char>) -> Seq<Seq<char>> {
    seq![
        "Started at "@ + url,
        "Showing index of "@ + dir_label(dir),
        "Scan the QR Code to access on mobile devices"@,
    ]
}

/// The text block that stands beside the symbol: the logo, an empty line, and
/// the status lines.
pub open spec fn text_block(status: Seq<Seq<char>>) -> Seq<Seq<char>> {
    logo() + seq![Seq::<char>::empty()] + status
}

/// The greatest display width among `lines`; zero for no lines.
pub open spec fn widest(lines: Seq<Seq<char>>) -> nat
    decreases lines.len(),
{
    if lines.len() == 0 {
        0
    } else {
        let before = widest(lines.drop_last());
        let here = display_width_of(lines.last());
        if here > before {
            here
        } else {
            before
        }
    }
}

/// The width that the side-by-side layout is reckoned to need: the symbol,
/// four columns, and the widest line of text.
pub open spec fn normal_output_width(matrix_width: nat, text_width: nat) -> nat {
    matrix_width + 4 + text_width
}

/// Whether the simple layout is used: the terminal is narrower than the
/// symbol, or not wider than the side-by-side layout needs.
pub open spec fn is_simple_layout(term_width: nat, matrix_width: nat, text_width: nat) -> bool {
    term_width < matrix_width || term_width <= normal_output_width(matrix_width, text_width)
}

/// The width of the terminal, or `DEFAULT_COLUMNS` where it is unknown.
pub open spec fn columns_or_default(term_width: Option<u16>) -> nat {
    match term_width {
        Some(w) => w as nat,
        None => DEFAULT_COLUMNS as nat,
    }
}

/// The rows of the symbol made at least `text_height` high: the missing rows
/// are blank lines of the symbol's width, half of them above, and the odd
/// one below.
pub open spec fn padded_rows(rows: Seq<Seq<char>>, matrix_width: nat, text_height: nat) -> Seq<
    Seq<char>,
> {
    if rows.len() < text_height {
        let missing = (text_height - rows.len()) as nat;
        let above = missing / 2;
        let below = (missing - above) as nat;
        Seq::new(above, |i: int| repeated(' ', matrix_width)) + rows + Seq::new(
            below,
            |i: int| repeated(' ', matrix_width),
        )
    } else {
        rows
    }
}

/// A row of the symbol with a line of text to its right.
pub open spec fn joined(row: Seq<char>, separator: Seq<char>, text: Seq<char>) -> Seq<char> {
    row + " "@ + separator + " "@ + text
}

/// The side-by-side layout: the padded rows of the symbol, and the text
/// block centred against them, each of its lines joined to the row it stands
/// beside.
pub open spec fn side_by_side(
    rows: Seq<Seq<char>>,
    matrix_width: nat,
    side: Seq<Seq<char>>,
    separator: Seq<char>,
) -> Seq<Seq<char>> {
    let body = padded_rows(rows, matrix_width, side.len());
    let offset = (body.len() - side.len()) / 2;
    Seq::new(
        body.len(),
        |i: int|
            if offset <= i < offset + side.len() {
                joined(body[i], separator, side[i - offset])
            } else {
                body[i]
            },
    )
}

/// The simple layout: the status lines, then the rows of the symbol.
pub open spec fn simple_layout(status: Seq<Seq<char>>, rows: Seq<Seq<char>>) -> Seq<Seq<char>> {
    status + rows
}

/// The text of a banner as it is printed.
#[derive(Clone, Debug, PartialEq, Eq)]
pub struct BannerText {
    /// The status lines of the simple layout.
    pub status: Vec<String>,
    /// The lines that stand beside the symbol in the side-by-side layout.
    pub side: Vec<String>,
    /// What stands between a row of the symbol and the line beside it.
    pub separator: String,
    /// The greatest display width among the lines of the text block.
    pub width: usize,
}

/// The model of a `BannerText`.
pub struct BannerTextModel {
    pub status: Seq<Seq<char>>,
    pub side: Seq<Seq<char>>,
    pub separator: Seq<char>,
    pub width: nat,
}

impl View for BannerText {
    type V = BannerTextModel;

    open spec fn view(&self) -> BannerTextModel {
        BannerTextModel {
            status: texts(self.status@),
            side: texts(self.side@),
            separator: self.separator@,
            width: self.width as nat,
        }
    }
}

/// The lines of the banner for the rows of a symbol, in the layout that the
/// width of the terminal calls for.
pub open spec fn frame_of(
    rows: Seq<Seq<char>>,
    matrix_width: nat,
    term_width: nat,
    text: BannerTextModel,
) -> Seq<Seq<char>> {
    if is_simple_layout(term_width, matrix_width, text.width) {
        simple_layout(text.status, rows)
    } else {
        side_by_side(rows, matrix_width, text.side, text.separator)
    }
}

/// The symbol that an encoder's answer describes, if it describes one.
pub open spec fn symbol_grid(code: Option<(nat, Seq<bool>)>) -> Option<Seq<Seq<Cell>>> {
    match code {
        Some((width, cells)) => grid_of(width, cells),
        None => None,
    }
}

/// The banner for an encoder's answer: no line at all where there is no
/// symbol, else the frame around its rendering.
pub open spec fn banner_of(
    code: Option<(nat, Seq<bool>)>,
    term_width: Option<u16>,
    text: BannerTextModel,
) -> Seq<Seq<char>> {
    match symbol_grid(code) {
        Some(grid) => frame_of(
            render_rows(grid),
            grid.len(),
            columns_or_default(term_width),
            text,
        ),
        None => Seq::empty(),
    }
}

/// What holds of the text of every banner made for `url` and `dir`, however
/// it was painted: the status lines are the three of `status_lines`, painted;
/// the side lines are the text block of the logo, an empty line and the
/// painted status lines, each painted once more; the separator is a painted
/// bar; and the width is that of the widest line of the text block.
pub open spec fn is_banner_text(text: BannerTextModel, url: Seq<char>, dir: Seq<char>) -> bool {
    &&& text.status.len() == 3
    &&& forall|i: int|
        0 <= i < 3 ==> is_painted(status_lines(url, dir)[i], #[trigger] text.status[i])
    &&& text.side.len() == logo().len() + 4
    &&& forall|k: int|
        0 <= k < text.side.len() ==> is_painted(
            text_block(text.status)[k],
            #[trigger] text.side[k],
        )
    &&& is_painted("|"@, text.separator)
    &&& text.width == widest(text_block(text.status))
}

/// The working directory as the banner shows it.
pub fn working_dir_label(dir: &str) -> (label: String)
    ensures
        label@ == dir_label(dir@),
{
    let chars = crate::text::to_chars(dir);
    let n = chars.len();
    if n > LABEL_LIMIT {
        let head = crate::text::from_char_range(&chars, 0, LABEL_KEEP);
        let tail = crate::text::from_char_range(&chars, n - LABEL_KEEP, n);
        let mut label = head;
        label.append("..");
        label.append(tail.as_str());
        label
    } else {
        String::from_str(dir)
    }
}

/// The three status lines, unpainted.
pub fn status_text(url: &str, dir: &str) -> (lines: Vec<String>)
    ensures
        texts(lines@) == status_lines(url@, dir@),
{
    let label = working_dir_label(dir);
    let mut lines: Vec<String> = Vec::new();
    lines.push(followed_by("Started at ", url));
    lines.push(followed_by("Showing index of ", label.as_str()));
    lines.push(String::from_str("Scan the QR Code to access on mobile devices"));
    lines
}

/// The five lines of the logo.
pub fn logo_lines() -> (lines: Vec<String>)
    ensures
        texts(lines@) == logo(),
{
    let mut lines: Vec<String> = Vec::new();
    lines.push(String::from_str(" _     _           ____ "));
    lines.push(String::from_str("| |   (_)_   _____/ ___|  ___ _ ____   _____ _ __ "));
    lines.push(String::from_str("| |   | \\ \\ / / _ \\___ \\ / _ \\ '__\\ \\ / / _ \\ '__| "));
    lines.push(String::from_str("| |___| |\\ V /  __/___) |  __/ |   \\ V /  __/ | "));
    lines.push(String::from_str("|_____|_| \\_/ \\___|____/ \\___|_|    \\_/ \\___|_| "));
    lines
}

/// The greatest display width among `lines`.
pub fn widest_line(lines: &Vec<String>) -> (width: usize)
    ensures
        width == widest(texts(lines@)),
{
    let mut width: usize = 0;
    let mut i: usize = 0;
    while i < lines.len()
        invariant
            i <= lines.len(),
            width == widest(texts(lines@).take(i as int)),
        decreases lines.len() - i,
    {
        let here = display_width(lines[i].as_str());
        proof {
            let all = texts(lines@);
            assert(all.take(i + 1).drop_last() == all.take(i as int));
        }
        if here > width {
            width = here;
        }
        i += 1;
    }
    assert(texts(lines@).take(lines.len() as int) == texts(lines@));
    width
}

/// Whether the simple layout is used for a terminal of `term_width`
/// columns.
pub fn use_simple_layout(term_width: u16, matrix_width: usize, text_width: usize) -> (simple: bool)
    ensures
        simple == is_simple_layout(term_width as nat, matrix_width as nat, text_width as nat),
{
    let term = term_width as u128;
    let normal = matrix_width as u128 + 4 + text_width as u128;
    term < matrix_width as u128 || term <= normal
}

/// The simple layout of `status` and `rows`.
pub fn simple_frame(status: &Vec<String>, rows: &Vec<String>) -> (frame: Vec<String>)
    ensures
        texts(frame@) == simple_layout(texts(status@), texts(rows@)),
{
    let mut frame: Vec<String> = Vec::new();
    let mut i: usize = 0;
    while i < status.len()
        invariant
            i <= status.len(),
            texts(frame@) == texts(status@).take(i as int),
        decreases status.len() - i,
    {
        push_line(&mut frame, status[i].clone());
        i += 1;
    }
    let mut j: usize = 0;
    while j < rows.len()
        invariant
            j <= rows.len(),
            texts(frame@) == texts(status@) + texts(rows@).take(j as int),
        decreases rows.len() - j,
    {
        push_line(&mut frame, rows[j].clone());
        j += 1;
    }
    frame
}

/// The rows of the symbol made at least `text_height` high with blank lines.
pub fn pad_rows(rows: &Vec<String>, matrix_width: usize, text_height: usize) -> (body: Vec<String>)
    ensures
        texts(body@) == padded_rows(texts(rows@), matrix_width as nat, text_height as nat),
{
    let mut body: Vec<String> = Vec::new();
    let mut above: usize = 0;
    let mut below: usize = 0;
    if rows.len() < text_height {
        let missing = text_height - rows.len();
        above = missing / 2;
        below = missing - above;
    }
    let ghost blank = repeated(' ', matrix_width as nat);
    let ghost top = Seq::new(above as nat, |i: int| blank);
    let ghost bottom = Seq::new(below as nat, |i: int| blank);
    let mut i: usize = 0;
    while i < above
        invariant
            i <= above,
            blank == repeated(' ', matrix_width as nat),
            top == Seq::new(above as nat, |i: int| blank),
            texts(body@) == top.take(i as int),
        decreases above - i,
    {
        push_line(&mut body, repeat_char(' ', matrix_width));
        i += 1;
    }
    let mut j: usize = 0;
    while j < rows.len()
        invariant
            j <= rows.len(),
            texts(body@) == top + texts(rows@).take(j as int),
        decreases rows.len() - j,
    {
        push_line(&mut body, rows[j].clone());
        j += 1;
    }
    let mut k: usize = 0;
    while k < below
        invariant
            k <= below,
            blank == repeated(' ', matrix_width as nat),
            bottom == Seq::new(below as nat, |i: int| blank),
            texts(body@) == top + texts(rows@) + bottom.take(k as int),
        decreases below - k,
    {
        push_line(&mut body, repeat_char(' ', matrix_width));
        k += 1;
    }
    body
}

/// The side-by-side layout of `rows` and the lines `side`.
pub fn side_by_side_frame(
    rows: &Vec<String>,
    matrix_width: usize,
    side: &Vec<String>,
    separator: &str,
) -> (frame: Vec<String>)
    ensures
        texts(frame@) == side_by_side(
            texts(rows@),
            matrix_width as nat,
            texts(side@),
            separator@,
        ),
{
    let body = pad_rows(rows, matrix_width, side.len());
    let ghost want = side_by_side(texts(rows@), matrix_width as nat, texts(side@), separator@);
    let offset = (body.len() - side.len()) / 2;
    let mut frame: Vec<String> = Vec::new();
    let mut i: usize = 0;
    while i < body.len()
        invariant
            i <= body.len(),
            body.len() >= side.len(),
            offset == (body.len() - side.len()) / 2,
            texts(body@) == padded_rows(texts(rows@), matrix_width as nat, side.len() as nat),
            want == side_by_side(texts(rows@), matrix_width as nat, texts(side@), separator@),
            frame.len() == i,
            forall|k: int| 0 <= k < i ==> (#[trigger] frame@[k])@ == want[k],
        decreases body.len() - i,
    {
        if offset <= i && i - offset < side.len() {
            let mut line = body[i].clone();
            line.append(" ");
            line.append(separator);
            line.append(" ");
            line.append(side[i - offset].as_str());
            frame.push(line);
        } else {
            frame.push(body[i].clone());
        }
        i += 1;
    }
    frame
}

/// The banner around the rows of a symbol, in the layout that the width of
/// the terminal calls for.
pub fn compose_frame(
    rows: &Vec<String>,
    matrix_width: usize,
    term_width: u16,
    text: &BannerText,
) -> (frame: Vec<String>)
    ensures
        texts(frame@) == frame_of(texts(rows@), matrix_width as nat, term_width as nat, text@),
{
    if use_simple_layout(term_width, matrix_width, text.width) {
        simple_frame(&text.status, rows)
    } else {
        side_by_side_frame(rows, matrix_width, &text.side, text.separator.as_str())
    }
}

/// The banner for what the encoder answered: nothing where it gave no
/// symbol, or its cells do not fill a square; else the frame around the
/// rendered symbol.  An unknown terminal width counts as `DEFAULT_COLUMNS`.
pub fn banner_frame(
    code: Option<(usize, Vec<bool>)>,
    term_width: Option<u16>,
    text: &BannerText,
) -> (frame: Vec<String>)
    ensures
        texts(frame@) == banner_of(
            match code {
                Some((width, cells)) => Some((width as nat, cells@)),
                None => None,
            },
            term_width,
            text@,
        ),
{
    let columns = match term_width {
        Some(w) => w,
        None => DEFAULT_COLUMNS,
    };
    match code {
        Some((width, cells)) => {
            match QrMatrix::from_cells(width, &cells) {
                Some(matrix) => {
                    let rows = matrix.render();
                    compose_frame(&rows, matrix.width(), columns, text)
                },
                None => {
                    let frame: Vec<String> = Vec::new();
                    frame
                },
            }
        },
        None => {
            let frame: Vec<String> = Vec::new();
            frame
        },
    }
}

/// The painted text of the banner for the server at `url` that shows `dir`.
/// The status lines are painted one colour each; the text block is the logo,
/// an empty line and the painted status lines; its width is measured before
/// each of its lines is painted once more for the side.
pub fn paint_banner(url: &str, dir: &str) -> (text: BannerText)
    ensures
        is_banner_text(text@, url@, dir@),
{
    let plain = status_text(url, dir);
    assert(texts(plain@).len() == 3);
    let mut status: Vec<String> = Vec::new();
    status.push(paint_yellow(plain[0].as_str()));
    status.push(paint_cyan(plain[1].as_str()));
    status.push(paint_purple(plain[2].as_str()));
    let mut block = logo_lines();
    assert(texts(block@).len() == 5);
    push_line(&mut block, String::new());
    let mut i: usize = 0;
    while i < 3
        invariant
            i <= 3,
            status.len() == 3,
            block.len() == 6 + i,
            texts(block@) == logo() + seq![Seq::<char>::empty()] + texts(status@).take(i as int),
        decreases 3 - i,
    {
        push_line(&mut block, status[i].clone());
        i += 1;
    }
    assert(texts(status@).take(3) == texts(status@));
    let width = widest_line(&block);
    let mut side: Vec<String> = Vec::new();
    let mut j: usize = 0;
    while j < block.len()
        invariant
            j <= block.len(),
            side.len() == j,
            forall|k: int| 0 <= k < j ==> is_painted(block@[k]@, #[trigger] side@[k]@),
        decreases block.len() - j,
    {
        side.push(paint_green(block[j].as_str()));
        j += 1;
    }
    let separator = paint_cyan("|");
    let text = BannerText { status, side, separator, width };
    text
}

/// The lines of the start-up banner for the server at `url` that shows the
/// directory `dir`, on a terminal of `term_width` columns.
///
/// The symbol is the one that the encoder makes of `url`.  Around it stands
/// the banner text for `url` and `dir`, of which `is_banner_text` says what
/// holds however it was painted.  Where the encoder fails there is no banner.
pub fn echo_renderer(url: &str, dir: &str, term_width: Option<u16>) -> (frame: Vec<String>)
    ensures
        exists|text: BannerTextModel|
            is_banner_text(text, url@, dir@) && texts(frame@) == #[trigger] banner_of(
                qr_symbol_of(url@),
                term_width,
                text,
            ),
{
    let code = qr_encode(url);
    let text = paint_banner(url, dir);
    let frame = banner_frame(code, term_width, &text);
    frame
}

/// A terminal narrower than the width that the side-by-side layout needs
/// gets the simple layout: the status lines, then the rows of the symbol.
pub proof fn lemma_narrow_terminal_gets_simple_layout(
    rows: Seq<Seq<char>>,
    matrix_width: nat,
    term_width: nat,
    text: BannerTextModel,
)
    requires
        term_width < normal_output_width(matrix_width, text.width),
    ensures
        is_simple_layout(term_width, matrix_width, text.width),
        frame_of(rows, matrix_width, term_width, text) == simple_layout(text.status, rows),
{
}

/// In the side-by-side layout every line of text stands beside a row: the
/// frame is as high as the higher of the symbol and the text block, and the
/// text block lies within it.
pub proof fn lemma_side_by_side_holds_text(
    rows: Seq<Seq<char>>,
    matrix_width: nat,
    side: Seq<Seq<char>>,
    separator: Seq<char>,
)
    ensures
        ({
            let frame = side_by_side(rows, matrix_width, side, separator);
            let offset = (frame.len() - side.len()) / 2;
            &&& frame.len() == if rows.len() < side.len() {
                side.len()
            } else {
                rows.len()
            }
            &&& 0 <= offset <= frame.len() - side.len()
            &&& forall|k: int|
                0 <= k < side.len() ==> #[trigger] frame[offset + k] == joined(
                    padded_rows(rows, matrix_width, side.len())[offset + k],
                    separator,
                    side[k],
                )
        }),
{
}

} // verus!
