use live_server::banner::{
    banner_frame, compose_frame, echo_renderer, logo_lines, pad_rows, paint_banner,
    side_by_side_frame, simple_frame, status_text, use_simple_layout, widest_line,
    working_dir_label, BannerText, DEFAULT_COLUMNS,
};
use live_server::qr::{Cell, QrMatrix};

const DARK: Cell = Cell::Dark;
const LIGHT: Cell = Cell::Light;

fn lines(list: &[&str]) -> Vec<String> {
    list.iter().map(|s| s.to_string()).collect()
}

fn text() -> BannerText {
    BannerText {
        status: lines(&["one", "two", "three"]),
        side: lines(&["A", "B", "C"]),
        separator: "|".to_string(),
        width: 10,
    }
}

/// The lines of the symbol for `data`, drawn from the encoder's own answer.
fn expected_rows(data: &str) -> (usize, Vec<String>) {
    let code = qrcode::QrCode::new(data).unwrap();
    let width = code.width();
    let colors = code.into_colors();
    let dark = |r: usize, c: usize| r < width && colors[r * width + c] == qrcode::Color::Dark;
    let mut rows = Vec::new();
    let mut r = 0;
    while r < width {
        let mut line = String::new();
        for c in 0..width {
            line.push(match (dark(r, c), dark(r + 1, c)) {
                (true, true) => '\u{2588}',
                (false, true) => '\u{2584}',
                (true, false) => '\u{2580}',
                (false, false) => ' ',
            });
        }
        rows.push(line);
        r += 2;
    }
    (width, rows)
}

#[test]
fn matrix_must_be_square() {
    assert!(QrMatrix::from_rows(vec![vec![DARK, LIGHT], vec![LIGHT, DARK]]).is_some());
    assert!(QrMatrix::from_rows(Vec::new()).is_some());
    assert!(QrMatrix::from_rows(vec![vec![DARK, LIGHT]]).is_none());
    assert!(QrMatrix::from_rows(vec![vec![DARK], vec![LIGHT]]).is_none());
    assert!(QrMatrix::from_rows(vec![vec![DARK, LIGHT], vec![LIGHT]]).is_none());
    assert!(QrMatrix::from_cells(2, &vec![true, false, false, true]).is_some());
    assert!(QrMatrix::from_cells(2, &vec![true, false, false]).is_none());
    assert!(QrMatrix::from_cells(0, &Vec::new()).is_some());
    assert!(QrMatrix::from_cells(usize::MAX, &vec![true]).is_none());
}

#[test]
fn matrix_from_cells_reads_row_by_row() {
    let m = QrMatrix::from_cells(3, &vec![true, false, false, false, true, false, true, true, true])
        .unwrap();
    assert_eq!(m.width(), 3);
    assert_eq!(m.cell(0, 0), DARK);
    assert_eq!(m.cell(0, 1), LIGHT);
    assert_eq!(m.cell(1, 1), DARK);
    assert_eq!(m.cell(1, 2), LIGHT);
    assert_eq!(m.cell(2, 0), DARK);
    assert_eq!(m.cell(0, 2), LIGHT);
}

#[test]
fn render_pairs_rows_into_half_blocks() {
    let m = QrMatrix::from_rows(vec![
        vec![DARK, DARK, LIGHT, LIGHT],
        vec![DARK, LIGHT, DARK, LIGHT],
        vec![LIGHT, LIGHT, DARK, DARK],
        vec![DARK, LIGHT, LIGHT, DARK],
    ])
    .unwrap();
    assert_eq!(m.render(), lines(&["\u{2588}\u{2580}\u{2584} ", "\u{2584} \u{2580}\u{2588}"]));
}

#[test]
fn render_shows_a_last_row_alone() {
    let m = QrMatrix::from_rows(vec![
        vec![DARK, LIGHT, DARK],
        vec![DARK, DARK, LIGHT],
        vec![DARK, LIGHT, DARK],
    ])
    .unwrap();
    assert_eq!(m.render(), lines(&["\u{2588}\u{2584}\u{2580}", "\u{2580} \u{2580}"]));
    let one = QrMatrix::from_rows(vec![vec![LIGHT]]).unwrap();
    assert_eq!(one.render(), lines(&[" "]));
    let none = QrMatrix::from_rows(Vec::new()).unwrap();
    assert_eq!(none.render(), Vec::<String>::new());
}

#[test]
fn label_keeps_a_short_directory() {
    assert_eq!(working_dir_label("/home/me"), "/home/me");
    assert_eq!(working_dir_label(""), "");
    let thirty = "/123456789/123456789/123456789";
    assert_eq!(thirty.len(), 30);
    assert_eq!(working_dir_label(thirty), thirty);
}

#[test]
fn label_cuts_a_long_directory() {
    let long = "/home/someone/projects/website/public/assets";
    assert_eq!(working_dir_label(long), "/home/someone/p..e/public/assets");
    let thirty_one = "/123456789/123456789/123456789/";
    assert_eq!(working_dir_label(thirty_one), "/123456789/1234..6789/123456789/");
}

#[test]
fn label_counts_characters() {
    let long = "/\u{76ee}\u{5f55}/".repeat(8);
    assert_eq!(long.chars().count(), 32);
    let label = working_dir_label(&long);
    assert_eq!(label.chars().count(), 32);
    let head: String = long.chars().take(15).collect();
    let tail: String = long.chars().skip(17).collect();
    assert_eq!(label, format!("{}..{}", head, tail));
}

#[test]
fn status_lines_name_the_url_and_the_directory() {
    assert_eq!(
        status_text("http://192.168.1.7:5437", "/srv/www"),
        lines(&[
            "Started at http://192.168.1.7:5437",
            "Showing index of /srv/www",
            "Scan the QR Code to access on mobile devices",
        ])
    );
}

#[test]
fn logo_has_five_lines() {
    let logo = logo_lines();
    assert_eq!(logo.len(), 5);
    assert_eq!(logo[0], " _     _           ____ ");
    assert_eq!(logo[1], "| |   (_)_   _____/ ___|  ___ _ ____   _____ _ __ ");
    assert_eq!(logo[2], "| |   | \\ \\ / / _ \\___ \\ / _ \\ '__\\ \\ / / _ \\ '__| ");
    assert_eq!(logo[3], "| |___| |\\ V /  __/___) |  __/ |   \\ V /  __/ | ");
    assert_eq!(logo[4], "|_____|_| \\_/ \\___|____/ \\___|_|    \\_/ \\___|_| ");
}

#[test]
fn widest_line_measures_columns() {
    assert_eq!(widest_line(&Vec::new()), 0);
    assert_eq!(widest_line(&lines(&["", "abc", "ab"])), 3);
    assert_eq!(widest_line(&lines(&["abcd", "\u{65e5}\u{672c}\u{8a9e}"])), 6);
    assert_eq!(widest_line(&logo_lines()), 51);
}

#[test]
fn narrow_terminal_gets_the_simple_layout() {
    // The side-by-side layout is reckoned to need 21 + 4 + 51 columns.
    assert!(use_simple_layout(75, 21, 51));
    assert!(use_simple_layout(76, 21, 51));
    assert!(!use_simple_layout(77, 21, 51));
    assert!(use_simple_layout(20, 21, 0));
    assert!(use_simple_layout(0, 0, 0));
    assert!(use_simple_layout(4, 0, 0));
    assert!(!use_simple_layout(5, 0, 0));
    assert!(use_simple_layout(u16::MAX, usize::MAX, usize::MAX));
    assert!(use_simple_layout(u16::MAX, 65_000, 600));
    assert!(!use_simple_layout(u16::MAX, 65_000, 500));
}

#[test]
fn simple_layout_puts_the_status_above_the_symbol() {
    let rows = lines(&["##", "# "]);
    assert_eq!(simple_frame(&lines(&["one", "two"]), &rows), lines(&["one", "two", "##", "# "]));
    assert_eq!(compose_frame(&rows, 2, 16, &text()), lines(&["one", "two", "three", "##", "# "]));
}

#[test]
fn padding_adds_blank_lines_round_a_low_symbol() {
    let rows = lines(&["##", "# "]);
    assert_eq!(pad_rows(&rows, 2, 2), rows);
    assert_eq!(pad_rows(&rows, 2, 1), rows);
    assert_eq!(pad_rows(&rows, 2, 4), lines(&["  ", "##", "# ", "  "]));
    assert_eq!(pad_rows(&rows, 2, 5), lines(&["  ", "##", "# ", "  ", "  "]));
    assert_eq!(pad_rows(&Vec::new(), 3, 3), lines(&["   ", "   ", "   "]));
}

#[test]
fn side_by_side_centres_the_text() {
    let rows = lines(&["r0", "r1", "r2", "r3", "r4", "r5"]);
    let side = lines(&["A", "B", "C"]);
    assert_eq!(
        side_by_side_frame(&rows, 2, &side, "|"),
        lines(&["r0", "r1 | A", "r2 | B", "r3 | C", "r4", "r5"])
    );
    let rows = lines(&["r0", "r1", "r2", "r3", "r4"]);
    assert_eq!(
        side_by_side_frame(&rows, 2, &side, "|"),
        lines(&["r0", "r1 | A", "r2 | B", "r3 | C", "r4"])
    );
    assert_eq!(side_by_side_frame(&rows, 2, &Vec::new(), "|"), rows);
}

#[test]
fn side_by_side_pads_a_low_symbol() {
    let rows = lines(&["##"]);
    let side = lines(&["A", "B", "C", "D"]);
    assert_eq!(
        side_by_side_frame(&rows, 2, &side, "+"),
        lines(&["   + A", "## + B", "   + C", "   + D"])
    );
}

#[test]
fn wide_terminal_gets_the_side_by_side_layout() {
    let rows = lines(&["##", "# ", "##"]);
    assert_eq!(compose_frame(&rows, 2, 17, &text()), lines(&["## | A", "#  | B", "## | C"]));
    assert_eq!(compose_frame(&rows, 2, 16, &text()), lines(&["one", "two", "three", "##", "# ", "##"]));
}

#[test]
fn banner_without_a_symbol_is_empty() {
    assert_eq!(banner_frame(None, Some(200), &text()), Vec::<String>::new());
    assert_eq!(banner_frame(Some((2, vec![true, false, true])), Some(200), &text()), Vec::<String>::new());
}

#[test]
fn banner_frames_the_rendered_symbol() {
    let cells = vec![true, true, false, true];
    assert_eq!(
        banner_frame(Some((2, cells.clone())), Some(17), &text()),
        lines(&["   | A", "\u{2580}\u{2588} | B", "   | C"])
    );
    assert_eq!(
        banner_frame(Some((2, cells.clone())), Some(16), &text()),
        lines(&["one", "two", "three", "\u{2580}\u{2588}"])
    );
    assert_eq!(DEFAULT_COLUMNS, 80);
    assert_eq!(
        banner_frame(Some((2, cells)), None, &text()),
        lines(&["   | A", "\u{2580}\u{2588} | B", "   | C"])
    );
}

#[test]
fn painted_banner_has_the_logo_and_the_status_lines() {
    colored::control::set_override(false);
    let text = paint_banner("http://10.0.0.2:5437", "/srv/www");
    assert_eq!(text.status, status_text("http://10.0.0.2:5437", "/srv/www"));
    let mut block = logo_lines();
    block.push(String::new());
    block.extend(text.status.clone());
    assert_eq!(text.side, block);
    assert_eq!(text.separator, "|");
    assert_eq!(text.width, 51);
}

#[test]
fn painted_banner_measures_the_painted_lines() {
    colored::control::set_override(true);
    let text = paint_banner("http://10.0.0.2:5437", "/srv/www");
    assert_eq!(text.status.len(), 3);
    assert_eq!(text.side.len(), 9);
    assert!(text.status[0].contains("Started at http://10.0.0.2:5437"));
    assert!(text.status[0].starts_with('\u{1b}'));
    assert!(text.side[8].contains("Scan the QR Code to access on mobile devices"));
    let mut block = logo_lines();
    block.push(String::new());
    block.extend(text.status.clone());
    assert_eq!(text.width, widest_line(&block));
    assert!(text.width >= 51);
}

#[test]
fn echo_renderer_draws_the_symbol_of_the_url() {
    colored::control::set_override(false);
    let url = "http://192.168.0.10:5437";
    let (width, rows) = expected_rows(url);
    assert!(width >= 21);
    let frame = echo_renderer(url, "/srv/www", Some(20));
    let mut expected = status_text(url, "/srv/www");
    expected.extend(rows.clone());
    assert_eq!(frame, expected);

    let wide = echo_renderer(url, "/srv/www", Some(1000));
    assert_eq!(wide, side_by_side_frame(&rows, width, &paint_banner(url, "/srv/www").side, "|"));
    assert_eq!(wide.len(), rows.len());
    assert_eq!(wide[0], rows[0]);
    let offset = (rows.len() - 9) / 2;
    assert_eq!(wide[offset], format!("{} | {}", rows[offset], " _     _           ____ "));
    assert_eq!(
        wide[offset + 8],
        format!("{} | {}", rows[offset + 8], "Scan the QR Code to access on mobile devices")
    );
}

#[test]
fn echo_renderer_falls_back_to_eighty_columns() {
    colored::control::set_override(false);
    let url = "http://192.168.0.10:5437";
    let (width, _) = expected_rows(url);
    let frame = echo_renderer(url, "/srv/www", None);
    assert_eq!(frame, echo_renderer(url, "/srv/www", Some(80)));
    let simple = 80 <= width + 4 + 51;
    assert_eq!(frame[0].starts_with("Started at"), simple);
}

#[test]
fn echo_renderer_gives_up_on_a_url_too_long_to_encode() {
    let url = "x".repeat(10_000);
    assert_eq!(echo_renderer(&url, "/srv/www", Some(200)), Vec::<String>::new());
}
