use git_cliff_tui::document::{build_document, split_blocks, DocBlock, ViewDocument};

fn texts(raw: &[u8]) -> Vec<Vec<u8>> {
    split_blocks(&raw.to_vec())
}

#[test]
fn empty_input_has_no_blocks() {
    assert_eq!(texts(b""), Vec::<Vec<u8>>::new());
}

#[test]
fn blank_lines_only_have_no_blocks() {
    assert_eq!(texts(b"\n\n\n"), Vec::<Vec<u8>>::new());
}

#[test]
fn single_paragraph_is_one_block() {
    assert_eq!(texts(b"# v1.0\nNotes"), vec![b"# v1.0\nNotes".to_vec()]);
}

#[test]
fn blank_line_separates_blocks() {
    assert_eq!(texts(b"alpha\n\nbeta"), vec![b"alpha".to_vec(), b"beta".to_vec()]);
}

#[test]
fn consecutive_blank_lines_make_no_empty_blocks() {
    assert_eq!(
        texts(b"alpha\n\n\n\nbeta\n"),
        vec![b"alpha".to_vec(), b"beta".to_vec()]
    );
}

#[test]
fn trailing_newline_adds_no_block() {
    assert_eq!(texts(b"alpha\nbeta\n"), vec![b"alpha\nbeta".to_vec()]);
}

#[test]
fn build_document_lays_blocks_out_with_no_gaps() {
    let doc = build_document(b"alpha\n\nbeta\ngamma\n\ndelta".to_vec()).unwrap();
    assert_eq!(doc.blocks.len(), 3);
    assert_eq!(doc.blocks[0].offset, 0);
    let mut expected_offset = 0;
    for block in &doc.blocks {
        assert_eq!(block.offset, expected_offset);
        expected_offset += block.height;
    }
    assert_eq!(doc.total_height, expected_offset);
}

#[test]
fn build_document_heights_match_the_markdown_renderer() {
    let doc = build_document(b"# v1.0\nNotes".to_vec()).unwrap();
    assert_eq!(doc.blocks.len(), 1);
    let direct = tui_markdown::from_str("# v1.0\nNotes").height();
    assert_eq!(doc.blocks[0].height, direct);
    assert_eq!(doc.total_height, direct);
}

#[test]
fn build_document_keeps_the_raw_text() {
    let doc = build_document(b"alpha\n\nbeta".to_vec()).unwrap();
    assert_eq!(doc.raw, b"alpha\n\nbeta".to_vec());
}

fn stacked(heights: &[usize]) -> ViewDocument {
    let mut blocks = Vec::new();
    let mut offset = 0;
    for (i, &height) in heights.iter().enumerate() {
        blocks.push(DocBlock {
            content: format!("block {i}").into_bytes(),
            height,
            offset,
        });
        offset += height;
    }
    ViewDocument {
        raw: Vec::new(),
        blocks,
        total_height: offset,
    }
}

#[test]
fn visible_set_for_three_stacked_blocks() {
    // Blocks of heights [3, 5, 2] cover rows 0..3, 3..8 and 8..10. With a
    // viewport of height 4 scrolled to row 4, the shown rows are 4..8, so
    // exactly the middle block intersects them.
    let doc = stacked(&[3, 5, 2]);
    assert_eq!(doc.total_height, 10);
    assert_eq!(doc.visible_blocks(4, 4), vec![1]);
    assert!(!doc.is_visible(0, 4, 4));
    assert!(doc.is_visible(1, 4, 4));
    assert!(!doc.is_visible(2, 4, 4));
    // The middle block starts at row 3, one row above the viewport top, so
    // one row of it is scrolled past.
    assert_eq!(doc.block_skip(1, 4), 1);
}

#[test]
fn visible_set_at_the_top_shows_the_leading_blocks() {
    let doc = stacked(&[3, 5, 2]);
    assert_eq!(doc.visible_blocks(0, 4), vec![0, 1]);
    assert_eq!(doc.block_skip(0, 0), 0);
}

#[test]
fn visible_set_at_the_bottom_shows_the_trailing_blocks() {
    let doc = stacked(&[3, 5, 2]);
    // Max scroll for total 10 and viewport 4 is 6; rows 6..10 show the
    // tail of the middle block and the whole last block.
    assert_eq!(doc.visible_blocks(6, 4), vec![1, 2]);
    assert_eq!(doc.block_skip(1, 6), 3);
    assert_eq!(doc.block_skip(2, 6), 0);
}

#[test]
fn max_scroll_is_the_overflow_past_the_viewport() {
    assert_eq!(git_cliff_tui::document::max_scroll(10, 4), 6);
    assert_eq!(git_cliff_tui::document::max_scroll(4, 4), 0);
    assert_eq!(git_cliff_tui::document::max_scroll(2, 4), 0);
}

#[test]
fn scroll_denominator_is_never_zero() {
    assert_eq!(git_cliff_tui::document::scroll_denominator(10, 4), 6);
    assert_eq!(git_cliff_tui::document::scroll_denominator(3, 4), 1);
}

#[test]
fn empty_document_has_no_rows() {
    let doc = ViewDocument::empty();
    assert_eq!(doc.total_height, 0);
    assert!(doc.blocks.is_empty());
    assert!(doc.raw.is_empty());
}
