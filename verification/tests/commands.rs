use rename_rules::{CaseMode, EvaluationError, Position, RenameCommand, WidthMode};

fn ok(command: RenameCommand, name: &str) -> String {
    match command.evaluate(name) {
        Ok(renamed) => renamed,
        Err(error) => panic!("no name for {:?}: {}", name, error.message()),
    }
}

fn fixed(name: &str, keep_ext: bool) -> RenameCommand {
    RenameCommand::Fixed { name: name.to_string(), keep_ext }
}

fn serial(
    prefix: &str,
    suffix: &str,
    number: u32,
    pad: usize,
    keep_ext: bool,
    keep_original: bool,
) -> RenameCommand {
    RenameCommand::Serial {
        prefix: prefix.to_string(),
        suffix: suffix.to_string(),
        number,
        pad,
        keep_ext,
        keep_original,
    }
}

fn add(text: &str, position: Position) -> RenameCommand {
    RenameCommand::Add { text: text.to_string(), position }
}

fn extension(new_ext: &str) -> RenameCommand {
    RenameCommand::Extension { new_ext: new_ext.to_string() }
}

#[test]
fn fixed_name_keeps_the_extension_on_request() {
    assert_eq!(ok(fixed("cover", true), "photo.jpg"), "cover.jpg");
    assert_eq!(ok(fixed("cover", false), "photo.jpg"), "cover");
    assert_eq!(ok(fixed("cover.png", false), "photo.jpg"), "cover.png");
}

#[test]
fn fixed_name_without_an_old_extension_is_taken_verbatim() {
    assert_eq!(ok(fixed("cover", true), "Makefile"), "cover");
    assert_eq!(ok(fixed("cover", true), ".bashrc"), "cover");
}

#[test]
fn fixed_empty_name_with_extension_is_a_dot_name() {
    assert_eq!(ok(fixed("", true), "photo.jpg"), ".jpg");
    assert_eq!(ok(fixed("", false), "photo.jpg"), "");
}

#[test]
fn serial_name_pads_the_number() {
    assert_eq!(ok(serial("img_", "", 3, 3, true, false), "photo.jpg"), "img_003.jpg");
    assert_eq!(ok(serial("img_", "_x", 42, 5, false, false), "photo.jpg"), "img_00042_x");
}

#[test]
fn serial_name_can_keep_the_old_stem() {
    assert_eq!(ok(serial("a-", "-z", 7, 2, true, true), "photo.jpg"), "a-photo07-z.jpg");
    assert_eq!(ok(serial("", "", 7, 2, false, true), "photo.jpg"), "photo07");
}

#[test]
fn serial_number_wider_than_the_pad_is_not_cut() {
    assert_eq!(ok(serial("", "", 12345, 3, false, false), "x"), "12345");
    assert_eq!(ok(serial("", "", 0, 0, false, false), "x"), "0");
    assert_eq!(ok(serial("", "", 0, 1, false, false), "x"), "0");
    assert_eq!(ok(serial("", "", 0, 4, false, false), "x"), "0000");
    assert_eq!(ok(serial("", "", 4294967295, 12, false, false), "x"), "004294967295");
}

#[test]
fn serial_number_agrees_with_the_format_macro() {
    for number in [0u32, 1, 9, 10, 99, 100, 1234567, 1000000000, u32::MAX] {
        for pad in [0usize, 1, 2, 9, 10, 11, 20] {
            let expected = format!("{:0width$}", number, width = pad);
            assert_eq!(ok(serial("", "", number, pad, false, false), "x"), expected);
        }
    }
}

#[test]
fn serial_without_an_old_extension_adds_none() {
    assert_eq!(ok(serial("n", "", 1, 2, true, false), "Makefile"), "n01");
}

#[test]
fn add_puts_text_before_or_after_the_stem() {
    assert_eq!(ok(add("new_", Position::Start), "photo.jpg"), "new_photo.jpg");
    assert_eq!(ok(add("_old", Position::End), "photo.jpg"), "photo_old.jpg");
    assert_eq!(ok(add("_old", Position::End), "Makefile"), "Makefile_old");
    assert_eq!(ok(add("", Position::Start), "photo.jpg"), "photo.jpg");
    assert_eq!(ok(add("x", Position::End), "archive.tar.gz"), "archive.tarx.gz");
}

#[test]
fn trim_takes_characters_off_the_start() {
    let command = RenameCommand::Trim { count: 2, position: Position::Start };
    assert_eq!(ok(command, "photo.jpg"), "oto.jpg");
}

#[test]
fn trim_takes_characters_off_the_end() {
    let command = RenameCommand::Trim { count: 2, position: Position::End };
    assert_eq!(ok(command, "photo.jpg"), "pho.jpg");
}

#[test]
fn trim_of_nothing_changes_nothing() {
    let command = RenameCommand::Trim { count: 0, position: Position::End };
    assert_eq!(ok(command, "photo.jpg"), "photo.jpg");
}

#[test]
fn trim_counts_characters_not_bytes() {
    let command = RenameCommand::Trim { count: 1, position: Position::Start };
    assert_eq!(ok(command, "名前です.txt"), "前です.txt");
    let command = RenameCommand::Trim { count: 3, position: Position::End };
    assert_eq!(ok(command, "名前です.txt"), "名.txt");
}

#[test]
fn trim_leaves_a_stem_shorter_by_the_count() {
    for count in 0..5usize {
        for position in [Position::Start, Position::End] {
            let renamed = ok(RenameCommand::Trim { count, position }, "photo.jpg");
            assert_eq!(renamed.chars().count(), "photo.jpg".chars().count() - count);
            assert!(renamed.ends_with(".jpg"));
        }
    }
}

#[test]
fn trim_of_the_whole_stem_is_refused() {
    let command = RenameCommand::Trim { count: 5, position: Position::Start };
    match command.evaluate("photo.jpg") {
        Err(EvaluationError::TrimExceedsLength { count, length }) => {
            assert_eq!(count, 5);
            assert_eq!(length, 5);
        }
        other => panic!("unexpected {:?}", other),
    }
}

#[test]
fn trim_of_more_than_the_stem_is_refused() {
    let command = RenameCommand::Trim { count: 9, position: Position::End };
    match command.evaluate("名前.txt") {
        Err(error) => {
            assert!(matches!(error, EvaluationError::TrimExceedsLength { count: 9, length: 2 }));
            assert_eq!(error.message(), "Trim count (9) exceeds name length (2)");
        }
        Ok(renamed) => panic!("unexpected {:?}", renamed),
    }
}

#[test]
fn trim_of_an_empty_stem_is_refused_even_for_nothing() {
    let command = RenameCommand::Trim { count: 0, position: Position::Start };
    match command.evaluate("") {
        Err(error) => assert_eq!(error.message(), "Trim count (0) exceeds name length (0)"),
        Ok(renamed) => panic!("unexpected {:?}", renamed),
    }
}

#[test]
fn trim_message_writes_large_numbers_in_full() {
    let error = EvaluationError::TrimExceedsLength { count: 1234567890, length: 10 };
    assert_eq!(error.message(), "Trim count (1234567890) exceeds name length (10)");
}

#[test]
fn extension_replaces_the_old_extension() {
    assert_eq!(ok(extension("png"), "photo.jpg"), "photo.png");
    assert_eq!(ok(extension("gz"), "archive.tar.bz2"), "archive.tar.gz");
    assert_eq!(ok(extension("txt"), "Makefile"), "Makefile.txt");
}

#[test]
fn extension_drops_leading_dots() {
    assert_eq!(ok(extension(".png"), "photo.jpg"), "photo.png");
    assert_eq!(ok(extension("...tar.gz"), "photo.jpg"), "photo.tar.gz");
}

#[test]
fn extension_that_is_empty_leaves_the_dot() {
    assert_eq!(ok(extension(""), "photo.jpg"), "photo.");
    assert_eq!(ok(extension("."), "photo.jpg"), "photo.");
}

#[test]
fn case_changes_the_stem_only() {
    assert_eq!(ok(RenameCommand::Case { mode: CaseMode::Upper }, "photo.jpg"), "PHOTO.jpg");
    assert_eq!(ok(RenameCommand::Case { mode: CaseMode::Lower }, "PhoTo.JPG"), "photo.JPG");
    assert_eq!(ok(RenameCommand::Case { mode: CaseMode::Lower }, "report.TXT"), "report.TXT");
}

#[test]
fn case_follows_the_unicode_mapping() {
    assert_eq!(ok(RenameCommand::Case { mode: CaseMode::Upper }, "straße.txt"), "STRASSE.txt");
    assert_eq!(ok(RenameCommand::Case { mode: CaseMode::Lower }, "ÀÉÎ.txt"), "àéî.txt");
    assert_eq!(ok(RenameCommand::Case { mode: CaseMode::Lower }, "ΟΔΟΣ.txt"), "οδος.txt");
    assert_eq!(ok(RenameCommand::Case { mode: CaseMode::Upper }, "名前.txt"), "名前.txt");
}

#[test]
fn convert_changes_the_stem_only() {
    let to_full = RenameCommand::Convert { mode: WidthMode::Zenkaku };
    assert_eq!(ok(to_full, "ab 1.txt"), "ａｂ\u{3000}１.txt");
    let to_half = RenameCommand::Convert { mode: WidthMode::Hankaku };
    assert_eq!(ok(to_half, "ａｂ\u{3000}１.ｔｘｔ"), "ab 1.ｔｘｔ");
}

#[test]
fn convert_to_half_width_leaves_other_characters() {
    let to_half = RenameCommand::Convert { mode: WidthMode::Hankaku };
    assert_eq!(ok(to_half, "\u{3000}名前.txt"), " 名前.txt");
}

#[test]
fn rules_that_keep_the_extension_return_it_unchanged() {
    let rules = vec![
        fixed("n", true),
        serial("p", "s", 1, 2, true, true),
        add("x", Position::Start),
        add("x", Position::End),
        RenameCommand::Trim { count: 1, position: Position::Start },
        RenameCommand::Trim { count: 1, position: Position::End },
        RenameCommand::Case { mode: CaseMode::Upper },
        RenameCommand::Case { mode: CaseMode::Lower },
        RenameCommand::Convert { mode: WidthMode::Zenkaku },
        RenameCommand::Convert { mode: WidthMode::Hankaku },
    ];
    for rule in rules {
        let renamed = ok(rule, "Photo１.ＪpG");
        assert_eq!(rename_rules::decompose(&renamed).extension, "ＪpG");
        assert!(renamed.ends_with(".ＪpG"));
    }
}

#[test]
fn convert_to_full_width_and_back_gives_the_name_again() {
    let to_full = RenameCommand::Convert { mode: WidthMode::Zenkaku };
    let to_half = RenameCommand::Convert { mode: WidthMode::Hankaku };
    for name in ["photo 1.jpg", "Makefile", "a-b_c(1)!.tar", "~.x", ".hidden"] {
        let widened = ok(RenameCommand::Convert { mode: WidthMode::Zenkaku }, name);
        assert_ne!(widened, name);
        assert_eq!(ok(RenameCommand::Convert { mode: WidthMode::Hankaku }, &widened), name);
    }
    assert_eq!(ok(to_half, &ok(to_full, "a.b.c")), "a.b.c");
}
