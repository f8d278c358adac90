use docx_parser::BlockStyle;
use docx_parser::MarkdownContent;
use docx_parser::MarkdownDocument;
use docx_parser::MarkdownNumbering;
use docx_parser::MarkdownParagraph;
use docx_parser::ParagraphStyle;
use docx_parser::TextBlock;
use docx_parser::TextType;

fn bold_style() -> BlockStyle {
    BlockStyle {
        bold: true,
        italics: false,
        underline: false,
        strike: false,
        size: None,
    }
}

fn plain_paragraph(text: &str) -> MarkdownParagraph {
    let mut p = MarkdownParagraph::new();
    p.append_text(text, None);
    p
}

fn numbered_paragraph(text: &str, id: isize, level: isize) -> MarkdownParagraph {
    let mut p = plain_paragraph(text);
    p.style = Some(ParagraphStyle {
        style_id: None,
        outline_lvl: None,
        numbering: Some(MarkdownNumbering {
            id: Some(id),
            indent_level: Some(level),
            format: None,
            level_text: None,
        }),
        page_break_before: None,
        style: None,
    });
    p
}

fn numbering_def(id: isize, format: Option<&str>, level_text: Option<&str>) -> MarkdownNumbering {
    MarkdownNumbering {
        id: Some(id),
        indent_level: None,
        format: format.map(|s| s.to_string()),
        level_text: level_text.map(|s| s.to_string()),
    }
}

#[test]
fn test_round_trip_minimal_document() {
    let mut d = MarkdownDocument::new();
    d.title = Some("Doc".to_string());
    let mut p = MarkdownParagraph::new();
    p.style = Some(ParagraphStyle {
        style_id: None,
        outline_lvl: Some(0),
        numbering: None,
        page_break_before: None,
        style: None,
    });
    p.append_text("Hi", Some(bold_style()));
    d.content.push(MarkdownContent::Paragraph(p));
    assert_eq!(d.to_markdown(), "# Doc\n\n# **Hi**\n");
}

#[test]
fn test_render_twice_is_identical() {
    let mut d = MarkdownDocument::new();
    d.title = Some("T".to_string());
    d.numberings.push((4, numbering_def(4, Some("decimal"), None)));
    d.content
        .push(MarkdownContent::Paragraph(numbered_paragraph("a", 4, 0)));
    d.content
        .push(MarkdownContent::Paragraph(numbered_paragraph("b", 4, 0)));
    let first = d.to_markdown();
    let second = d.to_markdown();
    assert_eq!(first, second);
    assert_eq!(first, "# T\n\n1. a\n\n2. b\n");
}

#[test]
fn test_cascade_direct_inline_wins() {
    let mut d = MarkdownDocument::new();
    // The named style sets no inline style of its own.
    d.styles.push((
        "S".to_string(),
        ParagraphStyle {
            style_id: None,
            outline_lvl: None,
            numbering: None,
            page_break_before: None,
            style: None,
        },
    ));
    let mut p = MarkdownParagraph::new();
    p.style = Some(ParagraphStyle {
        style_id: Some("S".to_string()),
        outline_lvl: None,
        numbering: None,
        page_break_before: None,
        style: Some(bold_style()),
    });
    p.append_text("t", None);
    d.content.push(MarkdownContent::Paragraph(p));
    assert_eq!(d.to_markdown(), "**t**\n");
}

#[test]
fn test_cascade_fallback_to_named_style() {
    let mut d = MarkdownDocument::new();
    d.styles.push((
        "S".to_string(),
        ParagraphStyle {
            style_id: None,
            outline_lvl: None,
            numbering: None,
            page_break_before: None,
            style: Some(BlockStyle {
                bold: false,
                italics: true,
                underline: false,
                strike: false,
                size: None,
            }),
        },
    ));
    let mut p = MarkdownParagraph::new();
    p.style = Some(ParagraphStyle {
        style_id: Some("S".to_string()),
        outline_lvl: None,
        numbering: None,
        page_break_before: None,
        style: None,
    });
    p.append_text("t", None);
    d.content.push(MarkdownContent::Paragraph(p));
    assert_eq!(d.to_markdown(), "*t*\n");
}

#[test]
fn test_cascade_named_style_outline() {
    let mut d = MarkdownDocument::new();
    d.styles.push((
        "Heading2".to_string(),
        ParagraphStyle {
            style_id: None,
            outline_lvl: Some(1),
            numbering: None,
            page_break_before: None,
            style: None,
        },
    ));
    let mut p = MarkdownParagraph::new();
    p.style = Some(ParagraphStyle {
        style_id: Some("Heading2".to_string()),
        outline_lvl: None,
        numbering: None,
        page_break_before: None,
        style: None,
    });
    p.append_text("t", None);
    d.content.push(MarkdownContent::Paragraph(p));
    assert_eq!(d.to_markdown(), "## t\n");
}

#[test]
fn test_coalescing_same_style() {
    let mut p = MarkdownParagraph::new();
    p.append_text("Hello ", None);
    p.append_text("World", None);
    assert_eq!(p.blocks.len(), 1);
    assert_eq!(p.blocks[0].text, "Hello World");

    let mut d = MarkdownDocument::new();
    d.content.push(MarkdownContent::Paragraph(p));
    assert_eq!(d.to_markdown(), "Hello World\n");
}

#[test]
fn test_coalescing_same_bold_style() {
    let mut p = MarkdownParagraph::new();
    p.append_text("Hello ", Some(bold_style()));
    p.append_text("World", Some(bold_style()));
    assert_eq!(p.blocks.len(), 1);

    let mut d = MarkdownDocument::new();
    d.content.push(MarkdownContent::Paragraph(p));
    assert_eq!(d.to_markdown(), "**Hello World**\n");
}

#[test]
fn test_coalescing_stops_at_style_change() {
    let mut p = MarkdownParagraph::new();
    p.append_text("Hello ", Some(bold_style()));
    p.append_text("World", None);
    assert_eq!(p.blocks.len(), 2);

    let mut d = MarkdownDocument::new();
    d.content.push(MarkdownContent::Paragraph(p));
    assert_eq!(d.to_markdown(), "**Hello **World\n");
}

#[test]
fn test_image_breaks_coalescing() {
    let mut p = MarkdownParagraph::new();
    p.append_text("Hello ", None);
    p.append_image("alt", "media/image1.png");
    p.append_text("World", None);
    assert_eq!(p.blocks.len(), 3);

    let mut d = MarkdownDocument::new();
    d.content.push(MarkdownContent::Paragraph(p));
    assert_eq!(d.to_markdown(), "Hello ![alt](./media/image1.png)World\n");
}

#[test]
fn test_link_and_bookmark_blocks() {
    let mut p = MarkdownParagraph::new();
    p.append_link("here", "https://example.test");
    p.append_bookmark("anchor1");
    let mut d = MarkdownDocument::new();
    d.content.push(MarkdownContent::Paragraph(p));
    assert_eq!(
        d.to_markdown(),
        "[here](https://example.test)<a name=\"anchor1\"></a>\n"
    );
}

#[test]
fn test_numbering_decimal_fallback_sequence() {
    let mut d = MarkdownDocument::new();
    // An unrecognized format token falls back to decimal numbering.
    d.numberings
        .push((7, numbering_def(7, Some("fancyFormat"), None)));
    d.content
        .push(MarkdownContent::Paragraph(numbered_paragraph("a", 7, 0)));
    d.content
        .push(MarkdownContent::Paragraph(numbered_paragraph("b", 7, 0)));
    d.content
        .push(MarkdownContent::Paragraph(numbered_paragraph("c", 7, 0)));
    assert_eq!(d.to_markdown(), "1. a\n\n2. b\n\n3. c\n");
}

#[test]
fn test_numbering_missing_definition_defaults_to_decimal() {
    let mut d = MarkdownDocument::new();
    d.content
        .push(MarkdownContent::Paragraph(numbered_paragraph("a", 9, 0)));
    assert_eq!(d.to_markdown(), "1. a\n");
}

#[test]
fn test_numbering_bullet_with_level_text() {
    let mut d = MarkdownDocument::new();
    d.numberings
        .push((3, numbering_def(3, Some("bullet"), Some("\u{f0b7}"))));
    d.content
        .push(MarkdownContent::Paragraph(numbered_paragraph("a", 3, 0)));
    d.content
        .push(MarkdownContent::Paragraph(numbered_paragraph("b", 3, 0)));
    d.content
        .push(MarkdownContent::Paragraph(numbered_paragraph("c", 3, 0)));
    assert_eq!(d.to_markdown(), "- a\n\n- b\n\n- c\n");
}

#[test]
fn test_numbering_bullet_with_blank_level_text() {
    let mut d = MarkdownDocument::new();
    d.numberings
        .push((3, numbering_def(3, Some("bullet"), Some("  "))));
    d.content
        .push(MarkdownContent::Paragraph(numbered_paragraph("a", 3, 0)));
    assert_eq!(d.to_markdown(), "  a\n");
}

#[test]
fn test_numbering_letter_formats() {
    let mut d = MarkdownDocument::new();
    d.numberings
        .push((1, numbering_def(1, Some("upperRoman"), None)));
    d.numberings
        .push((2, numbering_def(2, Some("lowerLetter"), None)));
    d.content
        .push(MarkdownContent::Paragraph(numbered_paragraph("a", 1, 0)));
    d.content
        .push(MarkdownContent::Paragraph(numbered_paragraph("b", 1, 0)));
    d.content
        .push(MarkdownContent::Paragraph(numbered_paragraph("c", 2, 0)));
    d.content
        .push(MarkdownContent::Paragraph(numbered_paragraph("d", 2, 0)));
    assert_eq!(d.to_markdown(), "I. a\n\nJ. b\n\na. c\n\nb. d\n");
}

#[test]
fn test_numbering_indentation() {
    let mut d = MarkdownDocument::new();
    d.numberings
        .push((5, numbering_def(5, Some("decimal"), None)));
    d.content
        .push(MarkdownContent::Paragraph(numbered_paragraph("a", 5, 2)));
    assert_eq!(d.to_markdown(), "        1. a\n");
}

#[test]
fn test_counters_shared_across_table_and_paragraphs() {
    let mut d = MarkdownDocument::new();
    d.numberings
        .push((6, numbering_def(6, Some("decimal"), None)));
    d.content
        .push(MarkdownContent::Paragraph(numbered_paragraph("a", 6, 0)));
    let table = vec![(true, vec![vec![numbered_paragraph("in cell", 6, 0)]])];
    d.content.push(MarkdownContent::Table(table));
    d.content
        .push(MarkdownContent::Paragraph(numbered_paragraph("b", 6, 0)));
    assert_eq!(
        d.to_markdown(),
        "1. a\n\n| 2. in cell |\n| ---------- |\n\n3. b\n"
    );
}

#[test]
fn test_table_in_document_width_alignment() {
    let mut d = MarkdownDocument::new();
    let table = vec![
        (
            true,
            vec![vec![plain_paragraph("A")], vec![plain_paragraph("BB")]],
        ),
        (
            false,
            vec![vec![plain_paragraph("X")], vec![plain_paragraph("YYYY")]],
        ),
    ];
    d.content.push(MarkdownContent::Table(table));
    assert_eq!(d.to_markdown(), "| A | BB   |\n| - | ---- |\n| X | YYYY |\n");
}

#[test]
fn test_table_header_synthesis_in_document() {
    let mut d = MarkdownDocument::new();
    let table = vec![(
        false,
        vec![vec![plain_paragraph("X")], vec![plain_paragraph("YYYY")]],
    )];
    d.content.push(MarkdownContent::Table(table));
    assert_eq!(d.to_markdown(), "|   |      |\n| - | ---- |\n| X | YYYY |\n");
}

#[test]
fn test_table_cell_paragraphs_joined_with_break() {
    let mut d = MarkdownDocument::new();
    let table = vec![(
        true,
        vec![vec![plain_paragraph("one"), plain_paragraph("two")]],
    )];
    d.content.push(MarkdownContent::Table(table));
    assert_eq!(
        d.to_markdown(),
        "| one<br/>two |\n| ----------- |\n"
    );
}

#[test]
fn test_inline_markup_nesting_order() {
    let block = TextBlock::new(
        "t".to_string(),
        Some(BlockStyle {
            bold: true,
            italics: true,
            underline: true,
            strike: true,
            size: None,
        }),
        TextType::Text,
    );
    let style = ParagraphStyle {
        style_id: None,
        outline_lvl: None,
        numbering: None,
        page_break_before: None,
        style: None,
    };
    assert_eq!(block.to_markdown(&style), "~~__***t***__~~");
}

#[test]
fn test_paragraph_inline_style_overrides_run_flags() {
    // The combination rule takes the paragraph's boolean flags in totality
    // once the paragraph carries any inline style.
    let block = TextBlock::new("t".to_string(), Some(bold_style()), TextType::Text);
    let style = ParagraphStyle {
        style_id: None,
        outline_lvl: None,
        numbering: None,
        page_break_before: None,
        style: Some(BlockStyle {
            bold: false,
            italics: true,
            underline: false,
            strike: false,
            size: None,
        }),
    };
    assert_eq!(block.to_markdown(&style), "*t*");
}

#[test]
fn test_block_style_combine_keeps_size_when_other_unset() {
    let mut s = BlockStyle::new();
    s.size = Some(19);
    s.bold = true;
    let other = BlockStyle {
        bold: false,
        italics: true,
        underline: false,
        strike: false,
        size: None,
    };
    s.combine_with(&other);
    assert_eq!(s.size, Some(19));
    assert!(!s.bold);
    assert!(s.italics);

    let with_size = BlockStyle {
        bold: false,
        italics: false,
        underline: false,
        strike: false,
        size: Some(24),
    };
    s.combine_with(&with_size);
    assert_eq!(s.size, Some(24));
}

#[test]
fn test_paragraph_style_combine_prefers_set_fields() {
    let mut own = ParagraphStyle::new();
    own.outline_lvl = Some(2);
    let named = ParagraphStyle {
        style_id: None,
        outline_lvl: Some(0),
        numbering: Some(MarkdownNumbering {
            id: Some(1),
            indent_level: None,
            format: None,
            level_text: None,
        }),
        page_break_before: Some(true),
        style: None,
    };
    own.combine_with(&named);
    assert_eq!(own.outline_lvl, Some(2));
    assert_eq!(own.page_break_before, Some(true));
    assert!(own.numbering.is_some());
}

#[test]
fn test_heading_levels_capped() {
    let mut d = MarkdownDocument::new();
    for lvl in 0..7 {
        let mut p = plain_paragraph("h");
        p.style = Some(ParagraphStyle {
            style_id: None,
            outline_lvl: Some(lvl),
            numbering: None,
            page_break_before: None,
            style: None,
        });
        d.content.push(MarkdownContent::Paragraph(p));
    }
    assert_eq!(
        d.to_markdown(),
        "# h\n\n## h\n\n### h\n\n#### h\n\n##### h\n\n###### h\n\n###### h\n"
    );
}

#[test]
fn test_empty_document_renders_empty() {
    let d = MarkdownDocument::new();
    assert_eq!(d.to_markdown(), "");
}

#[test]
fn test_title_only_document() {
    let mut d = MarkdownDocument::new();
    d.title = Some("Only".to_string());
    assert_eq!(d.to_markdown(), "# Only\n\n");
}
