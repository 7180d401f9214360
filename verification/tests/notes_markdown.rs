use ely_app::markdown::{
    heading, markdown_preview_blocks, parse_markdown_line, truncate_text, MarkdownPreviewBlock,
};

#[test]
fn markdown_preview_blocks_parse_headings_bullets_and_quotes() {
    let blocks = markdown_preview_blocks("# Heading\n- first\n> quoted\nplain");

    assert_eq!(
        blocks,
        vec![
            MarkdownPreviewBlock::Heading { level: 1, text: "Heading".to_string() },
            MarkdownPreviewBlock::Bullet("first".to_string()),
            MarkdownPreviewBlock::Quote("quoted".to_string()),
            MarkdownPreviewBlock::Paragraph("plain".to_string()),
        ]
    );
}

#[test]
fn markdown_preview_blocks_parse_fenced_code() {
    let blocks = markdown_preview_blocks("```rust\nlet value = 1;\nvalue + 1\n```\nnext");

    assert_eq!(
        blocks,
        vec![
            MarkdownPreviewBlock::Code("let value = 1; value + 1".to_string()),
            MarkdownPreviewBlock::Paragraph("next".to_string()),
        ]
    );
}

#[test]
fn markdown_preview_blocks_limit_visible_blocks() {
    let blocks = markdown_preview_blocks("one\ntwo\nthree\nfour\nfive");

    assert_eq!(blocks.len(), 4);
    assert_eq!(blocks[3], MarkdownPreviewBlock::Paragraph("four".to_string()));
}

#[test]
fn truncate_text_appends_marker_for_long_text() {
    let truncated = truncate_text(&"a".repeat(130), 120);

    assert_eq!(truncated.len(), 123);
    assert!(truncated.ends_with("..."));
}

#[test]
fn unterminated_code_block_is_closed_at_the_end() {
    let blocks = markdown_preview_blocks("intro\n```\na\n\nb\nc\nd");
    assert_eq!(
        blocks,
        vec![
            MarkdownPreviewBlock::Paragraph("intro".to_string()),
            MarkdownPreviewBlock::Code("a b c".to_string()),
        ]
    );
}

#[test]
fn empty_code_block_gives_no_block() {
    let blocks = markdown_preview_blocks("```\n\n```\ntext");
    assert_eq!(blocks, vec![MarkdownPreviewBlock::Paragraph("text".to_string())]);
}

#[test]
fn headings_need_a_space_and_at_most_three_hashes() {
    assert_eq!(heading("## Two"), Some((2, "Two")));
    assert_eq!(heading("###   Three  "), Some((3, "Three")));
    assert_eq!(heading("#### Four"), None);
    assert_eq!(heading("#NoSpace"), None);
    assert_eq!(heading("#   "), None);
    assert_eq!(
        parse_markdown_line("#### Four"),
        Some(MarkdownPreviewBlock::Paragraph("#### Four".to_string()))
    );
}

#[test]
fn blank_items_are_skipped() {
    assert_eq!(parse_markdown_line(""), None);
    assert_eq!(parse_markdown_line("-  "), None);
    assert_eq!(
        parse_markdown_line("* star"),
        Some(MarkdownPreviewBlock::Bullet("star".to_string()))
    );
    assert_eq!(
        parse_markdown_line(">no space"),
        Some(MarkdownPreviewBlock::Paragraph(">no space".to_string()))
    );
    // Lines are trimmed before they are read, so a lone marker is plain text.
    let blocks = markdown_preview_blocks("- \n>  \nkept");
    assert_eq!(
        blocks,
        vec![
            MarkdownPreviewBlock::Paragraph("-".to_string()),
            MarkdownPreviewBlock::Paragraph(">".to_string()),
            MarkdownPreviewBlock::Paragraph("kept".to_string()),
        ]
    );
}

#[test]
fn long_heading_text_is_truncated() {
    let line = format!("# {}", "x".repeat(121));
    match parse_markdown_line(&line) {
        Some(MarkdownPreviewBlock::Heading { level, text }) => {
            assert_eq!(level, 1);
            assert_eq!(text, format!("{}...", "x".repeat(120)));
        }
        other => panic!("unexpected block {other:?}"),
    }
}

#[test]
fn code_block_closing_the_fourth_block_stops_the_preview() {
    let blocks = markdown_preview_blocks("a\nb\nc\n```\nx\n```\nd");
    assert_eq!(blocks.len(), 4);
    assert_eq!(blocks[3], MarkdownPreviewBlock::Code("x".to_string()));
}
