use cpu_console::{highlight_line, sgr_for_style, Cell, Color, Renderer, Style};

fn text(chars: Vec<char>) -> String {
    chars.into_iter().collect()
}

fn styled(fg: Option<Color>, bg: Option<Color>, bold: bool) -> Style {
    Style {
        fg,
        bg,
        bold,
        dim: false,
        italic: false,
        underlined: false,
        reversed: false,
        crossed_out: false,
    }
}

#[test]
fn sgr_encoding() {
    // the default style encodes to a bare reset
    assert_eq!(text(sgr_for_style(Style::default())), "\u{1b}[0m");
    // named foreground
    assert_eq!(
        text(sgr_for_style(styled(Some(Color::Red), None, false))),
        "\u{1b}[0;31m"
    );
    // bold plus named background
    assert_eq!(
        text(sgr_for_style(styled(None, Some(Color::Blue), true))),
        "\u{1b}[0;1;44m"
    );
    // 24-bit foreground
    assert_eq!(
        text(sgr_for_style(styled(Some(Color::Rgb(1, 22, 77)), None, false))),
        "\u{1b}[0;38;2;1;22;77m"
    );
    // indexed background
    assert_eq!(
        text(sgr_for_style(styled(None, Some(Color::Indexed(208)), false))),
        "\u{1b}[0;48;5;208m"
    );
    // an explicitly reset color is omitted, like an unset one
    assert_eq!(
        text(sgr_for_style(styled(Some(Color::Reset), None, false))),
        "\u{1b}[0m"
    );
}

#[test]
fn first_draw_is_a_full_repaint() {
    let mut renderer = Renderer::new(2, 2);
    let out = text(renderer.draw(&Vec::new()));
    // hide, clear+home, reset, then each row addressed and four blanks,
    // then reset and show
    assert_eq!(
        out,
        "\u{1b}[?25l\u{1b}[2J\u{1b}[H\u{1b}[0m\u{1b}[1;1H  \u{1b}[2;1H  \u{1b}[0m\u{1b}[?25h"
    );
}

#[test]
fn diff_draw_addresses_only_changed_cells() {
    let mut renderer = Renderer::new(4, 3);
    let _ = renderer.draw(&Vec::new());
    let updates = vec![(1u16, 1u16, Cell::new('A', Style::default()))];
    let out = text(renderer.draw(&updates));
    // only the changed cell is addressed; its style equals the running
    // default, so no SGR is emitted for it
    assert_eq!(out, "\u{1b}[?25l\u{1b}[0m\u{1b}[2;2HA\u{1b}[0m\u{1b}[?25h");
}

#[test]
fn diff_draw_emits_sgr_on_style_change() {
    let mut renderer = Renderer::new(4, 3);
    let _ = renderer.draw(&Vec::new());
    let updates = vec![(0u16, 0u16, Cell::new('B', styled(Some(Color::Green), None, false)))];
    let out = text(renderer.draw(&updates));
    assert_eq!(
        out,
        "\u{1b}[?25l\u{1b}[0m\u{1b}[1;1H\u{1b}[0;32mB\u{1b}[0m\u{1b}[?25h"
    );
}

#[test]
fn identical_redraw_writes_no_cells() {
    let mut renderer = Renderer::new(8, 4);
    let updates = vec![
        (0u16, 0u16, Cell::new('h', Style::default())),
        (1u16, 0u16, Cell::new('i', styled(Some(Color::Cyan), None, true))),
    ];
    // first draw: full repaint of the frame
    let _ = renderer.draw(&updates);
    // drawing the identical content again emits only the bracketing
    let out = text(renderer.draw(&updates));
    assert_eq!(out, "\u{1b}[?25l\u{1b}[0m\u{1b}[0m\u{1b}[?25h");
}

#[test]
fn out_of_bounds_updates_are_ignored() {
    let mut renderer = Renderer::new(2, 2);
    let _ = renderer.draw(&Vec::new());
    let updates = vec![(5u16, 7u16, Cell::new('X', Style::default()))];
    let out = text(renderer.draw(&updates));
    assert_eq!(out, "\u{1b}[?25l\u{1b}[0m\u{1b}[0m\u{1b}[?25h");
}

#[test]
fn clear_resets_the_previous_frame() {
    let mut renderer = Renderer::new(2, 1);
    let updates = vec![(0u16, 0u16, Cell::new('Z', Style::default()))];
    let _ = renderer.draw(&updates);
    let out = text(renderer.clear());
    assert_eq!(out, "\u{1b}[?25l\u{1b}[2J\u{1b}[H\u{1b}[0m");
    assert_eq!(renderer.get_cursor_position(), (0, 0));
    // after a clear the frame is blank again, so the same update is a
    // fresh diff write
    let again = text(renderer.draw(&updates));
    assert_eq!(again, "\u{1b}[?25l\u{1b}[0m\u{1b}[1;1HZ\u{1b}[0m\u{1b}[?25h");
}

#[test]
fn request_full_repaint_repaints_everything() {
    let mut renderer = Renderer::new(2, 1);
    let _ = renderer.draw(&Vec::new());
    renderer.request_full_repaint();
    let out = text(renderer.draw(&Vec::new()));
    assert_eq!(
        out,
        "\u{1b}[?25l\u{1b}[2J\u{1b}[H\u{1b}[0m\u{1b}[1;1H  \u{1b}[0m\u{1b}[?25h"
    );
}

#[test]
fn cursor_primitives() {
    let mut renderer = Renderer::new(80, 24);
    assert_eq!(renderer.size(), (80, 24));
    assert_eq!(text(renderer.hide_cursor()), "\u{1b}[?25l");
    assert_eq!(text(renderer.show_cursor()), "\u{1b}[?25h");
    let goto = text(renderer.set_cursor_position(10, 5));
    assert_eq!(goto, "\u{1b}[6;11H");
    assert_eq!(renderer.get_cursor_position(), (10, 5));
}

#[test]
fn highlight_line_plain_and_matched() {
    // no query: one plain padded span
    let spans = highlight_line("avx", "=true", 6, None);
    assert_eq!(spans.len(), 1);
    assert_eq!(spans[0].text, "avx   =true");

    // a short query is inert
    let spans = highlight_line("avx", "=true", 6, Some("a"));
    assert_eq!(spans.len(), 1);

    // a matching query splits the name around the matched run
    let spans = highlight_line("IA32_EFER", " = 0x1", 12, Some("efer"));
    assert_eq!(spans.len(), 4);
    assert_eq!(spans[0].text, "IA32_");
    assert_eq!(spans[1].text, "EFER");
    assert_eq!(spans[2].text, "   ");
    assert_eq!(spans[3].text, " = 0x1");

    // a non-matching query stays plain
    let spans = highlight_line("IA32_EFER", "", 9, Some("xyz"));
    assert_eq!(spans.len(), 1);
    assert_eq!(spans[0].text, "IA32_EFER");
}
