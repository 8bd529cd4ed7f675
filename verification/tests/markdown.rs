use mdcmd::markdown::{parse_image_line, parse_inline, parse_markdown};
use mdcmd::palette::Palette;
use mdcmd::style::{Color, MOD_BOLD, MOD_CROSSED_OUT, MOD_ITALIC};

fn get_mock_palette() -> Palette {
    Palette {
        bg: Color::Black,
        border_active: Color::Blue,
        border_inactive: Color::Gray,
        text_primary: Color::White,
        text_secondary: Color::Gray,
        text_muted: Color::Gray,
        text_dimmed: Color::DarkGray,
        accent: Color::Blue,
        accent_soft: Color::DarkGray,
        open_bg: Color::Black,
        code: Color::Yellow,
        code_bg: Color::Black,
        heading2: Color::Blue,
        heading3: Color::Blue,
        heading4: Color::Blue,
    }
}

#[test]
fn test_headers() {
    let content = "# My Heading\nSome text";
    let palette = get_mock_palette();
    let parsed = parse_markdown(content, &palette);
    assert_eq!(parsed.text.lines.len(), 3); // Heading line, line separator, text line
    assert_eq!(parsed.line_map, vec![0, 0, 1]);
}

#[test]
fn test_lists_and_tasks() {
    let content = "- [ ] Unfinished task\n- [x] Finished task\n- Normal item";
    let palette = get_mock_palette();
    let parsed = parse_markdown(content, &palette);
    assert_eq!(parsed.text.lines.len(), 3);

    assert!(parsed.text.lines[0].to_string().contains("☐"));
    assert!(parsed.text.lines[1].to_string().contains("☑"));
    assert!(parsed.text.lines[2].to_string().contains("•"));
}

#[test]
fn test_inline_formatting() {
    let spans = parse_inline("Normal text with `code` and **bold**", Color::White, Color::Yellow, Color::Black);
    assert_eq!(spans.len(), 4);
    assert_eq!(spans[0].content, "Normal text with ");
    assert_eq!(spans[1].content, " code ");
    assert_eq!(spans[2].content, " and ");
    assert_eq!(spans[3].content, "bold");
}

#[test]
fn test_standalone_image() {
    let content = "Intro\n![A cat](images/cat.png)\nOutro";
    let palette = get_mock_palette();
    let parsed = parse_markdown(content, &palette);
    assert_eq!(parsed.text.lines.len(), 3);
    assert_eq!(parsed.images.len(), 1);
    assert_eq!(parsed.images[0].line, 1);
    assert_eq!(parsed.images[0].alt, "A cat");
    assert_eq!(parsed.images[0].src, "images/cat.png");
    assert!(parsed.text.lines[1].to_string().contains("A cat"));
}

#[test]
fn test_image_with_title_and_no_alt() {
    let content = r#"![](pic.jpg "My title")"#;
    let palette = get_mock_palette();
    let parsed = parse_markdown(content, &palette);
    assert_eq!(parsed.images.len(), 1);
    assert_eq!(parsed.images[0].alt, "");
    assert_eq!(parsed.images[0].src, "pic.jpg");
}

#[test]
fn test_image_with_quarto_attribute_block() {
    let content = r#"![First assembly.](images/IMG_0051.jpeg){fig-alt="First assembly."}"#;
    let palette = get_mock_palette();
    let parsed = parse_markdown(content, &palette);
    assert_eq!(parsed.images.len(), 1);
    assert_eq!(parsed.images[0].alt, "First assembly.");
    assert_eq!(parsed.images[0].src, "images/IMG_0051.jpeg");
}

#[test]
fn test_image_inside_code_block_is_not_parsed() {
    let content = "```\n![alt](pic.png)\n```";
    let palette = get_mock_palette();
    let parsed = parse_markdown(content, &palette);
    assert!(parsed.images.is_empty());
}

#[test]
fn heading_underline_covers_title_bytes() {
    let palette = get_mock_palette();
    let parsed = parse_markdown("# Héllo", &palette);
    assert_eq!(parsed.text.lines.len(), 2);
    assert_eq!(parsed.text.lines[0].to_string(), "# Héllo");
    // "Héllo" is six bytes long, plus two.
    assert_eq!(parsed.text.lines[1].to_string(), "─".repeat(8));
    assert_eq!(parsed.text.lines[0].spans[0].style.fg, Some(Color::Blue));
    assert_eq!(parsed.text.lines[0].spans[1].style.add_modifier.bits, MOD_BOLD);
}

#[test]
fn sub_headings_quotes_and_tasks_have_their_markers() {
    let palette = get_mock_palette();
    let parsed = parse_markdown("## Two\n### Three\n#### Four\n> quoted\n>bare\n* [x] done", &palette);
    assert_eq!(parsed.line_map, vec![0, 1, 2, 3, 4, 5]);
    let texts: Vec<String> = parsed.text.lines.iter().map(|l| l.to_string()).collect();
    assert_eq!(texts, vec!["## Two", "### Three", "#### Four", "│ quoted", "│ bare", "☑ done"]);
    assert_eq!(parsed.text.lines[3].spans[1].style.add_modifier.bits, MOD_ITALIC);
    assert_eq!(parsed.text.lines[5].spans[1].style.add_modifier.bits, MOD_CROSSED_OUT);
}

#[test]
fn code_block_lines_are_verbatim_and_fences_toggle() {
    let palette = get_mock_palette();
    let parsed = parse_markdown("```rust\n# not a heading\n  - not a list\n```\n- item", &palette);
    let texts: Vec<String> = parsed.text.lines.iter().map(|l| l.to_string()).collect();
    assert_eq!(texts, vec!["```rust", "# not a heading", "  - not a list", "```", "• item"]);
    assert_eq!(parsed.text.lines[1].spans.len(), 1);
    assert_eq!(parsed.text.lines[1].spans[0].style.fg, Some(Color::Yellow));
    assert_eq!(parsed.line_map, vec![0, 1, 2, 3, 4]);
}

#[test]
fn crlf_line_endings_are_dropped() {
    let palette = get_mock_palette();
    let parsed = parse_markdown("one\r\ntwo\r\n", &palette);
    let texts: Vec<String> = parsed.text.lines.iter().map(|l| l.to_string()).collect();
    assert_eq!(texts, vec!["one", "two"]);
}

#[test]
fn empty_document_renders_nothing() {
    let palette = get_mock_palette();
    let parsed = parse_markdown("", &palette);
    assert_eq!(parsed.text.lines.len(), 0);
    assert!(parsed.line_map.is_empty());
    assert!(parsed.images.is_empty());
}

#[test]
fn image_placeholder_shows_source_without_alt() {
    let palette = get_mock_palette();
    let parsed = parse_markdown("  ![](a/b.png)  ", &palette);
    assert_eq!(parsed.images.len(), 1);
    assert_eq!(parsed.images[0].line, 0);
    assert_eq!(parsed.text.lines[0].to_string(), "🖼  a/b.png");
}

#[test]
fn image_line_syntax() {
    let r = parse_image_line("![x](y.png)").unwrap();
    assert_eq!(r.alt, "x");
    assert_eq!(r.src, "y.png");
    assert!(parse_image_line("text ![x](y.png)").is_none());
    assert!(parse_image_line("![x](y.png) trailing").is_none());
    assert!(parse_image_line("![x]()").is_none());
    let titled = parse_image_line("![x]( y.png  \"T\" )").unwrap();
    assert_eq!(titled.src, "y.png");
    let single = parse_image_line("![x](a b.png 'T')").unwrap();
    assert_eq!(single.src, "a b.png 'T'");
}

#[test]
fn inline_code_and_bold_styles() {
    let spans = parse_inline("a `b` **c** d", Color::White, Color::Yellow, Color::Black);
    let contents: Vec<&str> = spans.iter().map(|s| s.content.as_str()).collect();
    assert_eq!(contents, vec!["a ", " b ", " ", "c", " d"]);
    assert_eq!(spans[1].style.fg, Some(Color::Yellow));
    assert_eq!(spans[1].style.bg, Some(Color::Black));
    assert_eq!(spans[3].style.add_modifier.bits, MOD_BOLD);
    assert_eq!(spans[0].style.fg, Some(Color::White));
}

#[test]
fn inline_unclosed_markers_stay_text() {
    let spans = parse_inline("a `b and **c", Color::White, Color::Yellow, Color::Black);
    let text: String = spans.iter().map(|s| s.content.as_str()).collect();
    assert_eq!(text, "a `b and **c");
}
