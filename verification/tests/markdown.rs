//! Markdown becomes styled spans.

use picrust::markdown::{
    can_render, fmt_text_to_styled_text, render_markdown, try_render_markdown, Kind, Marks, MdCell,
    MdLine, MdPiece,
};
use picrust::markdown_room::lines_have_room;
use picrust::style::{Colour, Span, Style};

fn cell(kind: Kind, text: &str, width: usize) -> MdCell {
    MdCell {
        kind,
        number_style: Style::plain().italic(),
        pieces: vec![MdPiece { text: text.to_string(), style: Style::plain().bold() }],
        width,
        margins: (0, 0),
    }
}

fn marks() -> Marks {
    let look = |n: u8| Style::plain().fg(Colour::AnsiValue(n));
    Marks {
        indent_style: look(1),
        bullet: '*',
        bullet_style: look(2),
        quote: '>',
        quote_style: look(3),
        rule: '=',
        rule_style: look(4),
        table_style: look(5),
        vertical: '|',
        horizontal: '-',
        cross: '+',
    }
}

fn spans_to_string(spans: &[Span]) -> String {
    spans.iter().map(|s| s.text.as_str()).collect()
}

#[test]
fn basic_paragraph() {
    let st = render_markdown("Hello **world**!", 80);
    let spans = st.spans();
    assert!(!spans.is_empty(), "paragraph should produce spans");
    let combined = spans_to_string(spans);
    assert!(combined.contains("Hello"), "should contain paragraph text");
    assert!(combined.contains("world"), "should contain bold text");

    // The bold span should have the bold attribute.
    let bold_span = spans.iter().find(|s| s.text == "world");
    assert!(bold_span.is_some(), "bold text should be a separate span");
    if let Some(span) = bold_span {
        assert!(span.style.bold, "bold span should have bold style");
    }
}

#[test]
fn header_renders() {
    let st = render_markdown("# Title", 80);
    let spans = st.spans();
    assert!(!spans.is_empty());
    let combined = spans_to_string(spans);
    assert!(combined.contains("Title"), "header text should appear");
}

#[test]
fn list_items() {
    let st = render_markdown("- one\n- two", 80);
    let combined = spans_to_string(st.spans());
    assert!(
        combined.contains('•') || combined.contains('*'),
        "list should contain bullet character"
    );
    assert!(combined.contains("one"), "first item");
    assert!(combined.contains("two"), "second item");
}

#[test]
fn inline_code() {
    let st = render_markdown("Use `foo()` here", 80);
    let spans = st.spans();
    let code_span = spans.iter().find(|s| s.text == "foo()");
    assert!(code_span.is_some(), "inline code should be a separate span");
}

#[test]
fn code_block() {
    let st = render_markdown("```\nlet x = 1;\n```", 80);
    let combined = spans_to_string(st.spans());
    assert!(combined.contains("let"), "code block content should appear");
}

#[test]
fn horizontal_rule() {
    let st = render_markdown("---", 80);
    let spans = st.spans();
    assert!(!spans.is_empty(), "HR should produce at least one span");
    let combined = spans_to_string(spans);
    assert!(combined.len() >= 3, "HR should be at least 3 chars wide");
    // The default MadSkin uses '―' for horizontal rules.
    assert!(
        combined.contains('―'),
        "HR should contain the default hr character"
    );
}

#[test]
fn empty_input() {
    let st = render_markdown("", 80);
    assert!(st.is_empty() || st.spans().is_empty());
}

#[test]
fn whitespace_only() {
    // Whitespace-only markdown should not crash.
    let _st = render_markdown("   \n\n  ", 80);
}

#[test]
fn quote_line() {
    let st = render_markdown("> quoted text", 80);
    let combined = spans_to_string(st.spans());
    assert!(combined.contains("quoted"), "quote text should appear");
}

#[test]
fn inline_style_combinations() {
    let st = render_markdown("plain **bold** *italic* ***both*** `code`", 80);
    let spans = st.spans();
    assert!(!spans.is_empty());

    // Bold
    assert!(spans.iter().any(|s| s.text == "bold" && s.style.bold));
    // Italic
    assert!(spans.iter().any(|s| s.text == "italic" && s.style.italic));
    // Bold+italic
    assert!(spans
        .iter()
        .any(|s| s.text == "both" && s.style.bold && s.style.italic));
    // Inline code
    assert!(spans.iter().any(|s| s.text == "code"));
}

#[test]
fn nested_list() {
    let st = render_markdown("- a\n  - b\n    - c", 80);
    let combined = spans_to_string(st.spans());
    assert!(combined.contains('•'), "bullets should appear");
    assert!(combined.contains("a"), "first item");
    assert!(combined.contains("b"), "nested item");
    assert!(combined.contains("c"), "double-nested item");
}

#[test]
fn paragraphs_are_wrapped_at_the_width() {
    let wide = spans_to_string(render_markdown("aaaa bbbb cccc", 80).spans());
    assert!(wide.contains("aaaa bbbb cccc"));
    let narrow = spans_to_string(render_markdown("aaaa bbbb cccc", 6).spans());
    assert!(!narrow.contains("aaaa bbbb"));
    assert!(narrow.lines().count() >= 3);
}

#[test]
fn tables_are_drawn_with_their_cells() {
    let st = render_markdown("| a | b |\n|---|---|\n| one | two |", 80);
    let combined = spans_to_string(st.spans());
    assert!(combined.contains("one"));
    assert!(combined.contains("two"));
    assert!(combined.contains('\u{2502}'));
}

#[test]
fn a_rule_is_as_wide_as_the_text() {
    for (width, wide) in [(10usize, 10usize), (40, 40), (200, 120)] {
        let st = render_markdown("---", width);
        let shown = spans_to_string(st.spans());
        assert_eq!(shown.chars().filter(|c| *c == '\u{2015}').count(), wide);
    }
}

#[test]
fn lists_need_room_for_their_marks() {
    let drawn = |md: &str, width: usize| {
        let r = try_render_markdown(md, width);
        assert_eq!(r.is_some(), can_render(md, width));
        r.map(|st| spans_to_string(st.spans()))
    };
    assert!(drawn("   * abcdefgh", 4).is_none());
    assert!(drawn("   * abcdefgh", 5).unwrap().contains('a'));
    assert!(drawn("   * abcdefgh", 2).is_some());
    assert!(drawn("10. abcdefgh", 3).is_none());
    assert!(drawn("10. abcdefgh", 10).unwrap().contains("abcdef"));
    assert!(drawn("plain text", 3).is_some());
    let table = "| 1. first step | 2. second step |\n|---|---|\n| a | b |";
    assert!(drawn(table, 80).unwrap().contains("first step"));
    assert!(drawn(table, 12).is_none());
    assert!(drawn("| first step | second step |\n|---|---|\n| a | b |", 12).is_some());
}

#[test]
fn lists_are_numbered_in_the_range_of_their_numbers() {
    assert!(try_render_markdown("4294967295. last", 40).is_none());
    assert!(try_render_markdown("4294967293. one\n1. two", 40).is_some());
    assert!(try_render_markdown("4294967294. one\n1. two", 40).is_none());
    assert!(try_render_markdown("99999999999999999999. far", 40).is_some());
    assert!(try_render_markdown("In 4294967295. words", 40).is_some());
    assert!(try_render_markdown("4294967295 words", 40).is_some());
    assert!(try_render_markdown("4294967295.words", 40).is_some());
    assert!(try_render_markdown("    4294967295. code", 40).is_some());
    assert!(try_render_markdown("```\n4294967295. code\n```", 40).is_some());
    let lines = "4294967290. x\n\na\nb\nc\nd\ne\nf\ng\nh";
    assert!(try_render_markdown(lines, 40).is_some());
    assert!(try_render_markdown("4294967294. x\n\n4294967294. y", 40).is_some());
    assert!(try_render_markdown("4294967294. x\n```\n```\n1. y", 40).is_none());
    assert!(try_render_markdown("4294967294. x\n 1. y\n 2. z", 40).is_some());
    assert!(try_render_markdown("4294967294. x\n 1. y\n2. z", 40).is_none());
}

#[test]
fn a_wide_table_may_have_numbered_cells() {
    let row = format!("| 1. First | {} |", "x".repeat(100));
    let drawn = spans_to_string(try_render_markdown(&row, 80).unwrap().spans());
    assert!(drawn.contains("First"));
    assert!(try_render_markdown(&row, 12).is_some());
    assert!(try_render_markdown(&row, 9).is_none());
    assert!(try_render_markdown(&row, 4).is_some());
    assert!(try_render_markdown(&row, 0).is_some());
}

#[test]
fn what_can_be_drawn_is_drawn() {
    let pieces = [
        "plain words here\n", "| a | b |\n", "| 1. one | 22. two words | c |\n", "|---|:-:|\n",
        "|   * deep | - x |\n", "* item of a list\n", "  * inner item\n", "10. tenth\n", "\n",
        "> quoted text\n", "```\n", "# Head\n", "   7) seven\n", "---\n", "| |\n", "|\n",
    ];
    let mut seed: u64 = 1;
    let mut drawn = 0;
    let mut refused = 0;
    for width in 0..30usize {
        for _ in 0..60 {
            let mut md = String::new();
            for _ in 0..6 {
                seed = seed.wrapping_mul(6364136223846793005).wrapping_add(1442695040888963407);
                md.push_str(pieces[(seed >> 33) as usize % pieces.len()]);
            }
            match try_render_markdown(&md, width) {
                Some(_) => drawn += 1,
                None => refused += 1,
            }
        }
    }
    assert_eq!(drawn + refused, 1800);
    assert!(drawn > 900);
}

#[test]
fn given_lines_become_spans() {
    let lines = vec![
        MdLine::Normal(cell(Kind::Paragraph, "p", 1)),
        MdLine::Normal(cell(Kind::ListItem(1), "i", 4)),
        MdLine::Normal(cell(Kind::ListItemFollowUp(1), "f", 4)),
        MdLine::Normal(cell(Kind::OrderedListItem { level: 0, index: 12 }, "o", 5)),
        MdLine::Normal(cell(Kind::OrderedListItemFollowUp { level: 0, index: 12 }, "g", 5)),
        MdLine::Normal(cell(Kind::Quote, "q", 3)),
        MdLine::TableRow(vec![cell(Kind::Paragraph, "a", 1), cell(Kind::Paragraph, "b", 1)]),
        MdLine::TableRule { widths: vec![2, 3], columns: 2 },
        MdLine::HorizontalRule,
    ];
    let st = fmt_text_to_styled_text(&lines, Some(4), &marks());
    let want = concat_lines(&["p", "  * i", "      f", "12. o", "    g", "> q", "a | b", "--+---", "===="]);
    assert_eq!(spans_to_string(st.spans()), want);
    let look = |text: &str| st.spans().iter().find(|s| s.text == text).unwrap().style;
    assert_eq!(look("p"), Style::plain().bold());
    assert_eq!(look("* "), Style::plain().fg(Colour::AnsiValue(2)));
    assert_eq!(look("12. "), Style::plain().italic());
    assert_eq!(look("    "), Style::plain().fg(Colour::AnsiValue(1)));
    assert_eq!(look("> "), Style::plain().fg(Colour::AnsiValue(3)));
    assert_eq!(look(" | "), Style::plain().fg(Colour::AnsiValue(5)));
    assert_eq!(look("+"), Style::plain().fg(Colour::AnsiValue(5)));
    assert_eq!(look("===="), Style::plain().fg(Colour::AnsiValue(4)));
    let rule = fmt_text_to_styled_text(&vec![MdLine::HorizontalRule], None, &marks());
    assert_eq!(spans_to_string(rule.spans()), "=".repeat(80));
    assert!(fmt_text_to_styled_text(&Vec::new(), Some(4), &marks()).spans().is_empty());
}

fn concat_lines(lines: &[&str]) -> String {
    lines.join("\n")
}

#[test]
fn given_lines_have_room_or_not() {
    let one = |c: MdCell| vec![MdLine::Normal(c)];
    let item = |width: usize| cell(Kind::OrderedListItem { level: 0, index: 10 }, "x", width);
    assert!(lines_have_room(&one(item(20)), 4));
    assert!(!lines_have_room(&one(item(20)), 3));
    assert!(lines_have_room(&one(item(20)), 2));
    assert!(lines_have_room(&one(item(3)), 3));
    let inset = |width: usize| MdCell { margins: (2, 3), ..cell(Kind::Quote, "x", width) };
    assert!(lines_have_room(&one(inset(20)), 8));
    let deep = MdCell { margins: (2, 3), ..cell(Kind::ListItem(2), "x", 20) };
    assert!(!lines_have_room(&one(deep), 8));
    let vast = MdCell { margins: (usize::MAX, 3), ..cell(Kind::Quote, "x", 1) };
    assert!(!lines_have_room(&one(vast), 80));
    let row = |width: usize| {
        vec![MdLine::TableRow(vec![
            cell(Kind::OrderedListItem { level: 1, index: 1 }, "First", 9),
            cell(Kind::Paragraph, "x", width),
        ])]
    };
    assert!(lines_have_room(&row(100), 80));
    assert!(!lines_have_room(&row(100), 9));
    assert!(lines_have_room(&row(100), 0));
}

#[test]
fn marks_and_colours_are_those_for_dark_backgrounds() {
    let grey = |level: u8| Style::plain().fg(Colour::AnsiValue(232 + level));
    let look = |md: &str, text: &str| {
        let st = render_markdown(md, 40);
        let span = st.spans().iter().find(|s| s.text.contains(text));
        span.unwrap_or_else(|| panic!("no {text}")).style
    };
    assert_eq!(look("- one", "\u{2022} "), grey(8));
    assert_eq!(look("> one", "\u{2590} "), grey(12).bold());
    assert_eq!(look("---", "\u{2015}"), grey(6));
    assert_eq!(look("| a | b |\n|---|---|\n| c | d |", "\u{2502}"), grey(7));
    assert_eq!(look("| a | b |\n|---|---|\n| c | d |", "\u{253c}"), grey(7));
    assert_eq!(look("1. one", "1. "), Style::plain());
    let code = grey(20).bg(Colour::AnsiValue(237));
    assert_eq!(look("```\nlet x = 1;\n```", "let"), code);
    assert_eq!(look("use `x` now", "x"), code);
    assert_eq!(look("# Head", "Head"), Style { underline: true, ..grey(22).bold() });
    assert_eq!(look("## Head", "Head"), Style { underline: true, ..grey(21) });
    assert_eq!(look("#### Head", "Head"), Style { underline: true, ..Style::plain() });
    assert_eq!(look("words", "words"), Style::plain());
}
