use timeloop::menu::text_layout::{measure_clusters, put_word, ClusterSize, Pen, Row, TextLayout};
use unicode_segmentation::UnicodeSegmentation;
use unicode_width::UnicodeWidthStr;

/// Test normal text formatting
#[test]
fn test_normal_text_formatting() {
    let normal_text = "AAAA ".repeat(20);
    let layout = TextLayout::new(&normal_text, 50);

    assert_eq!(layout.lines[0].content.trim_end(), "AAAA ".repeat(10).trim_end());
    assert!(!layout.lines[0].dash_at_end);
    assert_eq!(layout.lines[1].content.trim_end(), "AAAA ".repeat(10).trim_end());
    assert!(!layout.lines[1].dash_at_end);
}

/// Test formatting of more advanced characters
#[test]
fn test_formatting_with_diacritics() {
    let normal_text = "ÄÄÄÄ ".repeat(20);
    let layout = TextLayout::new(&normal_text, 50);

    assert_eq!(layout.lines[0].content.trim_end(), "ÄÄÄÄ ".repeat(10).trim_end());
    assert!(!layout.lines[0].dash_at_end);
    assert_eq!(layout.lines[1].content.trim_end(), "ÄÄÄÄ ".repeat(10).trim_end());
    assert!(!layout.lines[1].dash_at_end);
}

/// Test formatting of characters which are not 1 column wide
#[test]
fn test_formatting_with_emojis() {
    let normal_text = "😀😀😀😀 ".repeat(20);
    let layout = TextLayout::new(&normal_text, 50);

    assert_eq!(layout.lines[0].content.trim_end(), "😀😀😀😀 ".repeat(5).trim_end());
    assert!(!layout.lines[0].dash_at_end);
    assert_eq!(layout.lines[1].content.trim_end(), "😀😀😀😀 ".repeat(5).trim_end());
    assert!(!layout.lines[1].dash_at_end);
    assert_eq!(layout.lines[2].content.trim_end(), "😀😀😀😀 ".repeat(5).trim_end());
    assert!(!layout.lines[2].dash_at_end);
    assert_eq!(layout.lines[3].content.trim_end(), "😀😀😀😀 ".repeat(5).trim_end());
    assert!(!layout.lines[3].dash_at_end);
}

/// Test formatting of a mix of characters
#[test]
fn test_formatting_with_special_chars() {
    let normal_text = "AB̈😀 ".repeat(20);
    let layout = TextLayout::new(&normal_text, 50);

    assert_eq!(layout.lines[0].content.trim_end(), "AB̈😀 ".repeat(10).trim_end());
    assert!(!layout.lines[0].dash_at_end);
    assert_eq!(layout.lines[1].content.trim_end(), "AB̈😀 ".repeat(10).trim_end());
    assert!(!layout.lines[1].dash_at_end);
}

/// Test line breaks
#[test]
fn test_line_wrapping() {
    let normal_text = "A".repeat(100);
    let layout = TextLayout::new(&normal_text, 50);

    assert_eq!(layout.lines[0].content, "A".repeat(49));
    assert!(layout.lines[0].dash_at_end);
    assert_eq!(layout.lines[1].content, "A".repeat(49));
    assert!(layout.lines[1].dash_at_end);
    assert_eq!(layout.lines[2].content, "AA");
    assert!(!layout.lines[2].dash_at_end);
}

/// Test line breaks with special characters
#[test]
fn test_line_wrapping_with_special_chars() {
    let normal_text = "AB̈😀".repeat(100);
    let layout = TextLayout::new(&normal_text, 101);

    assert_eq!(layout.lines[0].content, "AB̈😀".repeat(25));
    assert!(layout.lines[0].dash_at_end);
    assert_eq!(layout.lines[1].content, "AB̈😀".repeat(25));
    assert!(layout.lines[1].dash_at_end);
    assert_eq!(layout.lines[2].content, "AB̈😀".repeat(25));
    assert!(layout.lines[2].dash_at_end);
    assert_eq!(layout.lines[3].content, "AB̈😀".repeat(25));
    assert!(!layout.lines[3].dash_at_end);
}

/// The columns that a line takes on the screen, its dash included.
fn shown_width(layout: &TextLayout, k: usize) -> usize {
    layout.lines[k].content.width() + if layout.lines[k].dash_at_end { 1 } else { 0 }
}

/// What a reader sees of the layout, put together again: a dash where a
/// word was split, a line feed at the end of each display line.
fn shown(layout: &TextLayout) -> String {
    let mut out = String::new();
    for line in &layout.lines {
        out.push_str(line.content);
        if line.dash_at_end {
            out.push('-');
        }
        out.push('\n');
    }
    out
}

#[test]
fn word_boundaries_that_meet_the_width() {
    let text = "AAAA ".repeat(20);
    let layout = TextLayout::new(&text, 50);
    assert_eq!(layout.lines.len(), 2);
    for k in 0..2 {
        assert_eq!(layout.lines[k].content.trim_end(), "AAAA ".repeat(10).trim_end());
        assert!(!layout.lines[k].dash_at_end);
        assert!(shown_width(&layout, k) <= 50);
    }
    assert_eq!(layout.lines[0].width, 49);
    assert_eq!(layout.lines[0].length, 49);
    assert_eq!(layout.lines[1].width, 50);
    assert_eq!(layout.lines[1].length, 50);
    assert_eq!(layout.max_width, 50);
}

#[test]
fn no_line_is_wider_than_the_width() {
    let texts = [
        "The quick brown fox jumps over the lazy dog and keeps on running through the night".to_string(),
        "A".repeat(100),
        "AB̈😀".repeat(100),
        "😀😀😀😀 ".repeat(20),
        "short\n\nlines with a verylongwordthatgoesonandonandonandonandon in the middle\nend".to_string(),
        "ab ".to_string() + &"x".repeat(52) + " tail",
        "  leading and  double  spaces ".to_string(),
    ];
    for text in &texts {
        for max_width in [3usize, 5, 10, 17, 50, 101] {
            let layout = TextLayout::new(text, max_width);
            for k in 0..layout.lines.len() {
                assert!(shown_width(&layout, k) <= max_width);
                assert!(layout.lines[k].width + usize::from(layout.lines[k].dash_at_end) <= max_width);
                assert_eq!(layout.lines[k].width, layout.lines[k].content.width());
            }
        }
    }
}

#[test]
fn a_line_knows_how_many_graphemes_it_holds() {
    let text = "AB̈😀".repeat(100);
    let layout = TextLayout::new(&text, 101);
    let mut total = 0;
    for line in &layout.lines {
        assert_eq!(line.length, line.content.graphemes(true).count());
        total += line.length;
    }
    assert_eq!(layout.lines[0].length, 75);
    assert_eq!(total, text.graphemes(true).count());

    let text = "one two three four five six seven eight nine ten";
    let layout = TextLayout::new(text, 10);
    let mut total = 0;
    for line in &layout.lines {
        assert_eq!(line.length, line.content.graphemes(true).count());
        total += line.length;
    }
    // one space is left out at each of the places where a line ends
    assert_eq!(total + layout.lines.len() - 1, text.graphemes(true).count());
}

#[test]
fn nothing_of_the_text_is_lost() {
    let text = "one two three four five six seven eight nine ten";
    let layout = TextLayout::new(text, 10);
    assert_eq!(shown(&layout), "one two\nthree four\nfive six\nseven\neight nine\nten\n");

    let text = "It is unquestionablyextraordinary to see";
    let layout = TextLayout::new(text, 12);
    // each piece of the split word leaves room for its dash
    assert_eq!(shown(&layout), "It is unque-\nstionablyex-\ntraordinary\nto see\n");
    let mut rebuilt = String::new();
    for line in &layout.lines {
        rebuilt.push_str(line.content);
        if !line.dash_at_end {
            rebuilt.push(' ');
        }
    }
    assert_eq!(rebuilt.trim_end(), text);
}

#[test]
fn hard_breaks_are_kept() {
    let layout = TextLayout::new("first line\nsecond\n\nlast", 20);
    assert_eq!(layout.lines.len(), 4);
    assert_eq!(layout.lines[0].content, "first line");
    assert_eq!(layout.lines[1].content, "second");
    assert_eq!(layout.lines[2].content, "");
    assert_eq!(layout.lines[2].length, 0);
    assert_eq!(layout.lines[3].content, "last");
    let layout = TextLayout::new("", 20);
    assert_eq!(layout.lines.len(), 1);
    assert_eq!(layout.lines[0].content, "");
    assert!(!layout.lines[0].dash_at_end);
}

#[test]
fn a_word_is_split_in_place_only_if_both_pieces_are_long_enough() {
    // 10 columns are left, of which the space takes one: a word of 15 goes on
    let layout = TextLayout::new("0123456789 abcdefghijklmno", 20);
    assert_eq!(shown(&layout), "0123456789 abcdefgh-\nijklmno\n");
    // a word of 14 would leave fewer than 5 columns for the next line
    let layout = TextLayout::new("0123456789 abcdefghijklmn", 20);
    assert_eq!(shown(&layout), "0123456789\nabcdefghijklmn\n");
    // fewer than 5 columns are left on the line
    let layout = TextLayout::new("0123456789abcdef ghijklmnopqrstuvwxyz", 20);
    assert_eq!(shown(&layout), "0123456789abcdef\nghijklmnopqrstuvwxyz\n");
}

#[test]
fn a_word_that_no_line_can_hold_is_split() {
    let text = "ab ".to_string() + &"x".repeat(52);
    let layout = TextLayout::new(&text, 50);
    assert_eq!(layout.lines.len(), 3);
    assert_eq!(layout.lines[0].content, "ab");
    assert_eq!(layout.lines[1].content, "x".repeat(49));
    assert!(layout.lines[1].dash_at_end);
    assert_eq!(layout.lines[2].content, "xxx");

    let layout = TextLayout::new("abcdefg", 3);
    // the end of the word needs no dash after it
    assert_eq!(shown(&layout), "ab-\ncd-\nefg\n");
}

#[test]
fn a_cluster_is_never_cut() {
    // each 😀 is two columns wide, so an odd width leaves a column free
    let text = "😀".repeat(10);
    let layout = TextLayout::new(&text, 7);
    for line in &layout.lines {
        assert_eq!(line.content.width() % 2, 0);
        assert!(line.content.width() + usize::from(line.dash_at_end) <= 7);
    }
    assert_eq!(layout.lines[0].content, "😀".repeat(3));
    // a combining mark stays with its letter
    let text = "B̈".repeat(10);
    let layout = TextLayout::new(&text, 4);
    assert_eq!(layout.lines[0].content, "B̈".repeat(3));
    assert_eq!(layout.lines[0].length, 3);
    assert_eq!(layout.lines[0].width, 3);
}

#[test]
fn a_source_line_is_added_to_what_is_there() {
    let mut layout = TextLayout::new("one", 10);
    layout.add_source_line("two three four");
    assert_eq!(shown(&layout), "one\ntwo three\nfour\n");
    // a line feed is a character like any other to this function
    layout.add_source_line("a\nb");
    assert_eq!(layout.lines[3].content, "a\nb");
}

/// The sizes of `count` clusters of one character each that are `width`
/// columns wide.
fn clusters(count: usize, width: usize) -> Vec<ClusterSize> {
    vec![ClusterSize { len: 1, width }; count]
}

#[test]
fn a_word_that_fits_goes_onto_the_line() {
    let mut rows = Vec::new();
    let pen = put_word(&mut rows, Pen::initial(), 0, 4, 4, &clusters(4, 1), 50);
    assert_eq!(pen, Pen { start: 0, end: 4, x: 4, fresh: false });
    // the next word stands after a space
    let pen = put_word(&mut rows, pen, 5, 9, 4, &clusters(4, 1), 50);
    assert_eq!(pen, Pen { start: 0, end: 9, x: 9, fresh: false });
    // an empty word takes the column of its space
    let pen = put_word(&mut rows, pen, 10, 10, 0, &clusters(0, 1), 50);
    assert_eq!(pen, Pen { start: 0, end: 10, x: 10, fresh: false });
    assert!(rows.is_empty());
}

#[test]
fn a_word_that_does_not_fit_starts_a_fresh_line() {
    let mut rows = Vec::new();
    let pen = Pen { start: 0, end: 49, x: 49, fresh: false };
    let pen = put_word(&mut rows, pen, 50, 54, 4, &clusters(4, 1), 50);
    assert_eq!(rows, vec![Row { start: 0, end: 49, dash: false, columns: 49 }]);
    assert_eq!(pen, Pen { start: 50, end: 54, x: 4, fresh: false });
    // 6 columns are left: a word of 8 would leave only 2 for the next line
    let mut rows = Vec::new();
    let pen = Pen { start: 0, end: 44, x: 44, fresh: false };
    let pen = put_word(&mut rows, pen, 45, 49, 8, &clusters(4, 2), 50);
    assert_eq!(rows, vec![Row { start: 0, end: 44, dash: false, columns: 44 }]);
    assert_eq!(pen, Pen { start: 45, end: 49, x: 8, fresh: false });
}

#[test]
fn a_word_is_split_between_its_clusters() {
    // a word of 100 columns on a fresh line of 50
    let mut rows = Vec::new();
    let pen = put_word(&mut rows, Pen::initial(), 0, 100, 100, &clusters(100, 1), 50);
    assert_eq!(
        rows,
        vec![
            Row { start: 0, end: 49, dash: true, columns: 49 },
            Row { start: 49, end: 98, dash: true, columns: 49 }
        ]
    );
    assert_eq!(pen, Pen { start: 98, end: 100, x: 2, fresh: false });
    // in place: 10 columns are left, of which the space takes one and the dash another
    let mut rows = Vec::new();
    let pen = Pen { start: 0, end: 10, x: 10, fresh: false };
    let pen = put_word(&mut rows, pen, 11, 26, 15, &clusters(15, 1), 20);
    assert_eq!(rows, vec![Row { start: 0, end: 19, dash: true, columns: 19 }]);
    assert_eq!(pen, Pen { start: 19, end: 26, x: 7, fresh: false });
    // clusters of two columns: three of them and the dash fill a line of 7
    let mut rows = Vec::new();
    let pen = put_word(&mut rows, Pen::initial(), 0, 10, 20, &clusters(10, 2), 7);
    assert_eq!(rows[0], Row { start: 0, end: 3, dash: true, columns: 6 });
    assert_eq!(rows[1], Row { start: 3, end: 6, dash: true, columns: 6 });
    assert_eq!(rows[2], Row { start: 6, end: 9, dash: true, columns: 6 });
    assert_eq!(pen, Pen { start: 9, end: 10, x: 2, fresh: false });
    // a cluster that is as wide as the line stands alone and, with its dash, is too wide
    let mut rows = Vec::new();
    let pen = put_word(&mut rows, Pen::initial(), 0, 2, 4, &clusters(2, 2), 2);
    assert_eq!(rows, vec![Row { start: 0, end: 1, dash: true, columns: 2 }]);
    assert_eq!(pen, Pen { start: 1, end: 2, x: 2, fresh: false });
}

#[test]
fn clusters_are_measured() {
    assert_eq!(
        measure_clusters("AB\u{308}😀x"),
        vec![
            ClusterSize { len: 1, width: 1 },
            ClusterSize { len: 2, width: 1 },
            ClusterSize { len: 1, width: 2 },
            ClusterSize { len: 1, width: 1 }
        ]
    );
    assert!(measure_clusters("").is_empty());
}

#[test]
fn a_layout_can_be_held_against_its_width() {
    let text = "one two three four five six seven eight nine ten";
    assert!(TextLayout::new(text, 10).is_within_width());
    assert!(TextLayout::new(&"AB\u{308}😀".repeat(100), 101).is_within_width());
    // each of the two clusters is as wide as the line, and the first one is shown with a dash
    let layout = TextLayout::new("😀😀", 2);
    assert_eq!(layout.lines.len(), 2);
    assert!(layout.lines[0].dash_at_end);
    assert_eq!(shown_width(&layout, 0), 3);
    assert!(!layout.is_within_width());
    let mut layout = TextLayout::new("abc", 10);
    layout.max_width = 2;
    assert!(!layout.is_within_width());
}

/// Where in `text` the content of a line starts, in bytes.
fn place_of(text: &str, content: &str) -> usize {
    content.as_ptr() as usize - text.as_ptr() as usize
}

#[test]
fn the_lines_follow_one_another_through_the_text() {
    let texts = [
        "one two three four five six seven eight nine ten".to_string(),
        "short\n\nlines with a verylongwordthatgoesonandonandonandonandon in the middle\nend".to_string(),
        "  leading and  double  spaces \n".to_string(),
        "AB\u{308}😀".repeat(40) + " and 😀😀😀 more",
        String::new(),
    ];
    for text in &texts {
        for max_width in [3usize, 5, 10, 17, 50] {
            let layout = TextLayout::new(text, max_width);
            let mut at = 0;
            let mut shown = 0;
            let mut left_out = 0;
            for (k, line) in layout.lines.iter().enumerate() {
                // a line starts where the one before it ended, or one character after
                assert_eq!(place_of(text, line.content), at);
                at += line.content.len();
                shown += line.content.len();
                if k + 1 < layout.lines.len() && !line.dash_at_end {
                    let skipped = text.as_bytes()[at];
                    assert!(skipped == b' ' || skipped == b'\n');
                    at += 1;
                    left_out += 1;
                }
            }
            assert_eq!(at, text.len());
            assert_eq!(shown + left_out, text.len());
            assert!(!layout.lines[layout.lines.len() - 1].dash_at_end);
        }
    }
}

#[test]
fn a_cluster_can_be_wider_than_a_line_of_three_columns() {
    // two leading jamo are one cluster of four columns
    assert_eq!(measure_clusters("\u{1100}\u{1100}x"), vec![
        ClusterSize { len: 2, width: 4 },
        ClusterSize { len: 1, width: 1 }
    ]);
    let layout = TextLayout::new("\u{1100}\u{1100}x", 3);
    assert_eq!(layout.lines.len(), 2);
    assert_eq!(layout.lines[0].content, "\u{1100}\u{1100}");
    assert!(layout.lines[0].dash_at_end);
    assert_eq!(shown_width(&layout, 0), 5);
    assert!(!layout.is_within_width());
}

#[test]
fn clusters_are_not_counted_alike_before_and_after_a_break() {
    // a space and the mark that follows it are one cluster of the text
    let text = "ab \u{308}cd";
    assert_eq!(text.graphemes(true).count(), 5);
    let layout = TextLayout::new(text, 2);
    assert_eq!(layout.lines.len(), 2);
    assert_eq!(layout.lines[0].content, "ab");
    assert_eq!(layout.lines[0].length, 2);
    // the mark is a cluster of its own at the start of the second line
    assert_eq!(layout.lines[1].content, "\u{308}cd");
    assert_eq!(layout.lines[1].length, 3);
}
