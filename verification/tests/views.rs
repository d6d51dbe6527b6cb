use papirus::views::{line_label, text_bytes, CodeView, ResponseInfo, Rgb, Span};
use std::time::Duration;

fn span(r: u8, g: u8, b: u8, text: &str) -> Span {
    Span { color: Rgb { r, g, b }, text: text.to_string() }
}

#[test]
fn line_numbers_are_right_aligned_in_four_columns() {
    assert_eq!(line_label(1), "   1 ");
    assert_eq!(line_label(42), "  42 ");
    assert_eq!(line_label(999), " 999 ");
    assert_eq!(line_label(1000), "1000 ");
    assert_eq!(line_label(12345), "12345 ");
}

#[test]
fn text_is_measured_in_bytes() {
    assert_eq!(text_bytes(""), 0);
    assert_eq!(text_bytes("abc"), 3);
    assert_eq!(text_bytes("héllo"), 6);
}

#[test]
fn highlighted_lines_are_numbered_from_one() {
    let view = CodeView::from_highlighted(vec![
        vec![span(1, 2, 3, "let"), span(4, 5, 6, " x")],
        vec![],
        vec![span(7, 8, 9, "}")],
    ]);
    assert_eq!(view.line_count(), 3);
    assert_eq!(view.number(0).unwrap(), "   1 ");
    assert_eq!(view.number(1).unwrap(), "   2 ");
    assert_eq!(view.number(2).unwrap(), "   3 ");
    assert_eq!(view.number(3), None);
    assert_eq!(view.spans(0).unwrap(), &vec![span(1, 2, 3, "let"), span(4, 5, 6, " x")]);
    assert_eq!(view.spans(1).unwrap(), &vec![]);
    assert_eq!(view.spans(3), None);
}

#[test]
fn spans_start_where_the_one_before_ends() {
    let view = CodeView::from_highlighted(vec![
        vec![span(0, 0, 0, "let"), span(0, 0, 0, " "), span(0, 0, 0, "é = 1;")],
        vec![],
    ]);
    assert_eq!(view.offsets(0), Some(vec![5, 8, 9]));
    assert_eq!(view.offsets(1), Some(vec![]));
    assert_eq!(view.offsets(2), None);
}

#[test]
fn the_required_size_is_the_widest_line_by_the_number_of_lines() {
    let empty = CodeView::from_highlighted(vec![]);
    assert_eq!(empty.required_size(), (0, 0));
    let view = CodeView::from_highlighted(vec![
        vec![span(0, 0, 0, "ab")],
        vec![span(0, 0, 0, "abcdef"), span(0, 0, 0, "gh")],
        vec![],
    ]);
    assert_eq!(view.required_size(), (13, 3));
}

#[test]
fn plain_text_is_one_span_in_the_theme_foreground() {
    let view = CodeView::new("hello world\nsecond line", "txt").unwrap();
    assert_eq!(view.line_count(), 2);
    assert_eq!(view.number(0).unwrap(), "   1 ");
    assert_eq!(view.number(1).unwrap(), "   2 ");
    assert_eq!(view.spans(0).unwrap(), &vec![span(192, 197, 206, "hello world")]);
    assert_eq!(view.spans(1).unwrap(), &vec![span(192, 197, 206, "second line")]);
    assert_eq!(view.required_size(), (16, 2));
}

#[test]
fn an_unknown_language_is_shown_as_plain_text() {
    let view = CodeView::new("{\"a\": 1}", "no-such-language").unwrap();
    assert_eq!(view.spans(0).unwrap(), &vec![span(192, 197, 206, "{\"a\": 1}")]);
}

#[test]
fn code_is_cut_into_spans_that_spell_the_line() {
    let code = "{\"message\": \"success\", \"n\": [1, 2]}\n  {\"id\": null}";
    let view = CodeView::new(code, "json").unwrap();
    assert_eq!(view.line_count(), 2);
    for (row, line) in code.lines().enumerate() {
        let spans = view.spans(row).unwrap();
        let spelled: String = spans.iter().map(|s| s.text.as_str()).collect();
        assert_eq!(spelled, line);
    }
    let first = view.spans(0).unwrap();
    assert!(first.len() > 1);
    assert!(first.iter().any(|s| s.color != first[0].color));
}

#[test]
fn no_code_has_no_lines() {
    let view = CodeView::new("", "json").unwrap();
    assert_eq!(view.line_count(), 0);
    assert_eq!(view.required_size(), (0, 0));
}

#[test]
fn the_response_figures_are_labelled() {
    let info = ResponseInfo::new("200 OK", Duration::from_millis(1500), 1234);
    assert_eq!(
        info,
        ResponseInfo {
            status: "Status: 200 OK".into(),
            time: "Time: 1.500s".into(),
            size: "Size: 1234 B".into(),
        }
    );
    let info = ResponseInfo::new("", Duration::from_millis(0), 0);
    assert_eq!(info.status, "Status: ");
    assert_eq!(info.time, "Time: 0ms");
    assert_eq!(info.size, "Size: 0 B");
}

fn shown(code: &str) -> Vec<String> {
    let view = CodeView::new(code, "txt").unwrap();
    (0..view.line_count())
        .map(|row| view.spans(row).unwrap().iter().map(|s| s.text.as_str()).collect())
        .collect()
}

#[test]
fn line_endings_are_not_shown() {
    assert_eq!(shown(""), Vec::<String>::new());
    assert_eq!(shown("\n"), vec![""]);
    assert_eq!(shown("\n\n"), vec!["", ""]);
    assert_eq!(shown("a"), vec!["a"]);
    assert_eq!(shown("a\n"), vec!["a"]);
    assert_eq!(shown("a\nb"), vec!["a", "b"]);
    assert_eq!(shown("a\r\nb\r\n"), vec!["a", "b"]);
    assert_eq!(shown("a\n\nb"), vec!["a", "", "b"]);
}

#[test]
fn a_carriage_return_without_a_line_feed_stays() {
    assert_eq!(shown("a\r"), vec!["a\r"]);
    assert_eq!(shown("a\rb\nc"), vec!["a\rb", "c"]);
    assert_eq!(shown("a\r\r\nb"), vec!["a\r", "b"]);
    assert_eq!(shown("\r\n"), vec![""]);
    assert_eq!(shown("\r"), vec!["\r"]);
}
