use screenpipe_cli::text::{
    characters, copy_texts, decimal_text, format_cell, is_white, pad_right, same_text,
    signed_decimal_text, split_commas, trim,
};

#[test]
fn a_short_cell_is_padded() {
    assert_eq!(format_cell("abc", 6), "abc   ");
    assert_eq!(format_cell("", 3), "   ");
    assert_eq!(format_cell("abcdef", 6), "abcdef");
}

#[test]
fn a_long_cell_is_cut() {
    assert_eq!(format_cell("abcdefg", 6), "abc...");
    assert_eq!(format_cell("abcdefg", 3), "...");
    let long = "x".repeat(40);
    assert_eq!(format_cell(&long, 34), format!("{}...", "x".repeat(31)));
}

#[test]
fn a_cell_is_cut_between_characters() {
    // Four characters of two bytes each: only one of them fits in three bytes.
    assert_eq!(format_cell("éééé", 6), "é...");
    assert_eq!(format_cell("日本語日本語", 10), "日本...");
    assert_eq!(format_cell("😀😀", 6), "...");
}

#[test]
fn a_cell_counts_bytes_to_cut_and_characters_to_pad() {
    // Six bytes, three characters: not cut, and padded to six characters.
    assert_eq!(format_cell("ééé", 6), "ééé   ");
}

#[test]
fn a_cell_agrees_with_the_formatting_of_std() {
    for s in ["", "a", "abc", "é", "日本", "0123456789"] {
        assert_eq!(format_cell(s, 34), format!("{:<34}", s));
    }
}

#[test]
fn a_text_is_padded_by_characters() {
    assert_eq!(pad_right("ab", 4), "ab  ");
    assert_eq!(pad_right("abcde", 4), "abcde");
    assert_eq!(pad_right("éé", 4), format!("{:<4}", "éé"));
    assert_eq!(pad_right("", 0), "");
}

#[test]
fn numbers_are_written_in_decimal() {
    for n in [0u64, 1, 9, 10, 99, 100, 3030, 65535, u64::MAX] {
        assert_eq!(decimal_text(n), n.to_string());
    }
    for n in [0i64, 1, -1, 10, -10, i64::MAX, i64::MIN] {
        assert_eq!(signed_decimal_text(n), n.to_string());
    }
}

#[test]
fn white_space_is_that_of_std() {
    for code in 0..=0x10ffffu32 {
        if let Some(c) = char::from_u32(code) {
            assert_eq!(is_white(c), c.is_whitespace());
        }
    }
}

#[test]
fn trimming_is_that_of_std() {
    for s in ["", " ", "y", " y", "y\n", "\t y \r\n", "a b", "\u{3000}y\u{2003}", "  \n "] {
        assert_eq!(trim(s), s.trim());
    }
}

#[test]
fn texts_are_the_same_by_their_characters() {
    assert!(same_text("", ""));
    assert!(same_text("pipe", "pipe"));
    assert!(!same_text("pipe", "pip"));
    assert!(!same_text("pip", "pipe"));
    assert!(!same_text("Pipe", "pipe"));
}

#[test]
fn a_text_is_split_at_commas() {
    assert_eq!(split_commas("a,b"), vec!["a", "b"]);
    assert_eq!(split_commas("a,,b,"), vec!["a", "b"]);
    assert_eq!(split_commas(",,,"), Vec::<String>::new());
    assert_eq!(split_commas(""), Vec::<String>::new());
    assert_eq!(split_commas(" a , b "), vec![" a ", " b "]);
    assert_eq!(split_commas("é=info,日本"), vec!["é=info", "日本"]);
}

#[test]
fn splitting_is_that_of_std() {
    for s in ["", ",", "a", "a,b,c", ",a,,b,", "x=debug,y[z]=info"] {
        let wanted: Vec<&str> = s.split(',').filter(|p| !p.is_empty()).collect();
        assert_eq!(split_commas(s), wanted);
    }
}

#[test]
fn characters_and_copies_keep_what_they_are_given() {
    assert_eq!(characters("aé日"), vec!['a', 'é', '日']);
    let texts = vec!["a".to_string(), String::new(), "é".to_string()];
    assert_eq!(copy_texts(&texts), texts);
}

#[test]
fn a_cut_cell_takes_no_more_bytes_than_its_width() {
    for s in ["abcdefghijklmnop", "ééééééééééé", "日本語日本語日本語", "😀😀😀😀", "a日b本c語d"] {
        for width in 3..12 {
            let cell = format_cell(s, width);
            assert!(cell.chars().count() <= width);
            if s.len() > width {
                assert!(cell.len() <= width);
                // One more character would not fit before the dots.
                let kept = cell.chars().count() - 3;
                let more: String = s.chars().take(kept + 1).collect();
                assert!(more.len() > width - 3);
            }
        }
    }
}
