use goldenfile::differs::Differ;
use goldenfile::mint::{
    enter, Comparison, FileOp, Goldenfile, GoldenfileLocation, InvalidInput, Mint, NewGoldenfile,
    Overwrite, Pass, Relocation, LEGACY_VARIABLE, UPDATE_VARIABLE,
};
use goldenfile::recovery::changed_notice;
use std::path::MAIN_SEPARATOR;

fn under(dir: &str, file: &str) -> String {
    format!("{}{}{}", dir, MAIN_SEPARATOR, file)
}

fn entry(file: &str, differ: Differ, location: GoldenfileLocation) -> Goldenfile {
    Goldenfile { file: file.to_string(), differ, location }
}

#[test]
fn a_new_mint_is_empty_and_keeps_empty_files() {
    let mint = Mint::new("fixtures", "stage");
    assert_eq!(mint.path(), "fixtures");
    assert_eq!(mint.tempdir(), "stage");
    assert!(mint.create_empty());
    assert!(mint.files().is_empty());
}

#[test]
fn a_nonempty_mint_drops_empty_files() {
    let mint = Mint::new_nonempty("fixtures", "stage");
    assert!(!mint.create_empty());
    assert!(mint.files().is_empty());
    assert!(!Mint::new_internal("fixtures", "stage", false).create_empty());
    assert!(Mint::new_internal("fixtures", "stage", true).create_empty());
}

#[test]
fn registration_returns_the_staging_path() {
    let mut mint = Mint::new("fixtures", "stage");
    let staged = mint.register_goldenfile_with_differ("out.txt", Differ::Binary);
    assert_eq!(staged, Ok(under("stage", "out.txt")));
    assert_eq!(
        mint.files(),
        &vec![entry("out.txt", Differ::Binary, GoldenfileLocation::Original)]
    );
}

#[test]
fn registration_rejects_an_absolute_path() {
    let mut mint = Mint::new("fixtures", "stage");
    assert_eq!(mint.register_goldenfile("first.txt"), Ok(under("stage", "first.txt")));
    assert_eq!(mint.register_goldenfile("/abs/out.txt"), Err(InvalidInput));
    assert_eq!(
        mint.register_goldenfile_with_differ("/abs/out.txt", Differ::Binary),
        Err(InvalidInput)
    );
    assert_eq!(
        mint.register_goldenfile_with_differ_and_relation(
            "/abs/out.txt",
            Differ::Text,
            GoldenfileLocation::Temporary
        ),
        Err(InvalidInput)
    );
    assert_eq!(mint.new_goldenfile("/abs/out.txt"), Err(InvalidInput));
    assert_eq!(mint.new_goldenfile_with_differ("/abs/out.txt", Differ::Text), Err(InvalidInput));
    assert_eq!(mint.move_goldenfile("/abs/out.txt"), Err(InvalidInput));
    assert_eq!(mint.move_goldenfile_with_differ("/abs/out.txt", Differ::Text), Err(InvalidInput));
    assert_eq!(
        mint.files(),
        &vec![entry("first.txt", Differ::Text, GoldenfileLocation::Original)]
    );
}

#[test]
fn the_error_says_what_is_wrong() {
    assert_eq!(InvalidInput.message(), "Path must be relative.");
}

#[test]
fn registration_picks_the_differ_by_extension() {
    let mut mint = Mint::new("fixtures", "stage");
    mint.register_goldenfile("out.txt").unwrap();
    mint.register_goldenfile("data.bin").unwrap();
    mint.new_goldenfile("pack.zip").unwrap();
    mint.move_goldenfile("notes").unwrap();
    assert_eq!(
        mint.files(),
        &vec![
            entry("out.txt", Differ::Text, GoldenfileLocation::Original),
            entry("data.bin", Differ::Binary, GoldenfileLocation::Original),
            entry("pack.zip", Differ::Binary, GoldenfileLocation::Original),
            entry("notes", Differ::Text, GoldenfileLocation::Temporary),
        ]
    );
}

#[test]
fn registering_a_path_twice_appends_twice() {
    let mut mint = Mint::new("fixtures", "stage");
    mint.register_goldenfile("out.txt").unwrap();
    mint.register_goldenfile_with_differ("out.txt", Differ::Custom(1)).unwrap();
    assert_eq!(
        mint.files(),
        &vec![
            entry("out.txt", Differ::Text, GoldenfileLocation::Original),
            entry("out.txt", Differ::Custom(1), GoldenfileLocation::Original),
        ]
    );
    assert_eq!(mint.check_goldenfiles().len(), 2);
    assert_eq!(mint.update_goldenfiles().len(), 2);
}

#[test]
fn enter_appends_or_rejects() {
    let mut files = vec![entry("a", Differ::Text, GoldenfileLocation::Original)];
    let b = entry("b", Differ::Binary, GoldenfileLocation::Temporary);
    assert_eq!(enter(&mut files, b.clone(), false), Err(InvalidInput));
    assert_eq!(files, vec![entry("a", Differ::Text, GoldenfileLocation::Original)]);
    assert_eq!(enter(&mut files, b.clone(), true), Ok(()));
    assert_eq!(files, vec![entry("a", Differ::Text, GoldenfileLocation::Original), b]);
}

#[test]
fn a_new_goldenfile_at_the_top_needs_no_subdirectory() {
    let mut mint = Mint::new("fixtures", "stage");
    assert_eq!(
        mint.new_goldenfile_with_differ("out.txt", Differ::Text),
        Ok(NewGoldenfile { path: under("stage", "out.txt"), subdirectory: None })
    );
}

#[test]
fn a_new_goldenfile_further_down_needs_its_subdirectory() {
    let mut mint = Mint::new("fixtures", "stage");
    let nested = under("sub", "out.txt");
    assert_eq!(
        mint.new_goldenfile_with_differ(&nested, Differ::Text),
        Ok(NewGoldenfile {
            path: under("stage", &nested),
            subdirectory: Some(under("stage", "sub")),
        })
    );
    assert_eq!(mint.files().len(), 1);
}

#[test]
fn the_staging_directory_is_recognised_with_a_trailing_separator() {
    let stage = format!("stage{}", MAIN_SEPARATOR);
    let mut mint = Mint::new("fixtures", &stage);
    let created = mint.new_goldenfile("out.txt").unwrap();
    assert_eq!(created.subdirectory, None);
}

#[test]
fn a_file_that_was_created_stays_registered() {
    let mut mint = Mint::new("fixtures", "stage");
    mint.new_goldenfile("out.txt").unwrap();
    mint.settle_goldenfile(true);
    assert_eq!(
        mint.files(),
        &vec![entry("out.txt", Differ::Text, GoldenfileLocation::Original)]
    );
}

#[test]
fn a_file_that_was_not_created_leaves_the_registry() {
    let mut mint = Mint::new("fixtures", "stage");
    mint.register_goldenfile("kept.txt").unwrap();
    mint.new_goldenfile("lost.txt").unwrap();
    mint.settle_goldenfile(false);
    assert_eq!(
        mint.files(),
        &vec![entry("kept.txt", Differ::Text, GoldenfileLocation::Original)]
    );
    assert_eq!(mint.check_goldenfiles().len(), 1);
}

#[test]
fn settling_an_empty_registry_changes_nothing() {
    let mut mint = Mint::new("fixtures", "stage");
    mint.settle_goldenfile(false);
    assert!(mint.files().is_empty());
}

#[test]
fn moving_a_goldenfile_names_both_ends() {
    let mut mint = Mint::new("fixtures", "stage");
    assert_eq!(
        mint.move_goldenfile_with_differ("data.bin", Differ::Binary),
        Ok(Relocation {
            gold: under("fixtures", "data.bin"),
            temp: under("stage", "data.bin"),
            subdirectory: None,
        })
    );
    assert_eq!(
        mint.files(),
        &vec![entry("data.bin", Differ::Binary, GoldenfileLocation::Temporary)]
    );
}

#[test]
fn moving_a_goldenfile_further_down_needs_its_subdirectory() {
    let mut mint = Mint::new("fixtures", "stage");
    let nested = under("sub", "data.bin");
    assert_eq!(
        mint.move_goldenfile(&nested),
        Ok(Relocation {
            gold: under("fixtures", &nested),
            temp: under("stage", &nested),
            subdirectory: Some(under("stage", "sub")),
        })
    );
    let deeper = under(&under("a", "b"), "c.txt");
    assert_eq!(
        mint.move_goldenfile_with_differ(&deeper, Differ::Text).unwrap().subdirectory,
        Some(under("stage", &under("a", "b")))
    );
}

#[test]
fn the_verify_pass_compares_each_goldenfile_once_in_order() {
    let mut mint = Mint::new("fixtures", "stage");
    mint.register_goldenfile("out.txt").unwrap();
    mint.move_goldenfile("data.bin").unwrap();
    assert_eq!(
        mint.check_goldenfiles(),
        vec![
            Comparison {
                file: "out.txt".to_string(),
                differ: Differ::Text,
                location: GoldenfileLocation::Original,
                golden: under("fixtures", "out.txt"),
                new: under("stage", "out.txt"),
            },
            Comparison {
                file: "data.bin".to_string(),
                differ: Differ::Binary,
                location: GoldenfileLocation::Temporary,
                golden: under("stage", "data.bin"),
                new: under("fixtures", "data.bin"),
            },
        ]
    );
}

#[test]
fn the_update_pass_copies_from_staging_to_golden() {
    let mut mint = Mint::new("fixtures", "stage");
    mint.register_goldenfile("out.txt").unwrap();
    mint.move_goldenfile("data.bin").unwrap();
    assert_eq!(
        mint.update_goldenfiles(),
        vec![
            Overwrite {
                file: "out.txt".to_string(),
                dest: under("fixtures", "out.txt"),
                source: under("stage", "out.txt"),
            },
            Overwrite {
                file: "data.bin".to_string(),
                dest: under("fixtures", "data.bin"),
                source: under("stage", "data.bin"),
            },
        ]
    );
}

#[test]
fn an_empty_mint_plans_nothing() {
    let mint = Mint::new("fixtures", "stage");
    assert!(mint.check_goldenfiles().is_empty());
    assert!(mint.update_goldenfiles().is_empty());
}

#[test]
fn a_source_with_content_is_copied() {
    let copy = FileOp::Copy {
        notice: "Updating out.txt.".to_string(),
        from: "stage/out.txt".to_string(),
        to: "fixtures/out.txt".to_string(),
    };
    for create_empty in [false, true] {
        for dest_exists in [false, true] {
            assert_eq!(
                Mint::overwrite_file(
                    "fixtures/out.txt",
                    "stage/out.txt",
                    create_empty,
                    "out.txt",
                    12,
                    dest_exists
                ),
                copy
            );
        }
    }
    assert_eq!(
        Mint::overwrite_file("fixtures/out.txt", "stage/out.txt", false, "out.txt", u64::MAX, false),
        copy
    );
}

#[test]
fn an_empty_source_is_copied_where_empty_files_are_kept() {
    for dest_exists in [false, true] {
        assert_eq!(
            Mint::overwrite_file("d", "s", true, "sub/f", 0, dest_exists),
            FileOp::Copy {
                notice: "Updating sub/f.".to_string(),
                from: "s".to_string(),
                to: "d".to_string(),
            }
        );
    }
}

#[test]
fn an_empty_source_removes_the_destination_where_empty_files_are_dropped() {
    assert_eq!(
        Mint::overwrite_file("d", "s", false, "f", 0, true),
        FileOp::Remove { path: "d".to_string() }
    );
    assert_eq!(Mint::overwrite_file("d", "s", false, "f", 0, false), FileOp::Nothing);
}

#[test]
fn a_failing_test_recovers_its_goldenfiles() {
    let mut mint = Mint::new("fixtures", "stage");
    mint.register_goldenfile("out.txt").unwrap();
    mint.move_goldenfile("data.bin").unwrap();
    for (legacy, update) in [(None, None), (Some("1"), Some("1")), (Some("0"), None)] {
        let plan = match mint.on_drop(true, legacy, update) {
            Pass::Recover(plan) => plan,
            other => panic!("a failing test got {:?}", other),
        };
        assert_eq!(plan.len(), 2);
        for recovery in &plan {
            assert_eq!(
                recovery.note,
                "note: run with `UPDATE_GOLDENFILES=1` to update goldenfiles"
            );
        }
        assert!(plan[0].error.ends_with(": goldenfile changed: out.txt"));
        assert!(plan[1].error.ends_with(": goldenfile changed: data.bin"));
        assert_eq!(plan[0].restore, None);
        assert_eq!(
            plan[1].restore,
            Some(Overwrite {
                file: "data.bin".to_string(),
                dest: under("fixtures", "data.bin"),
                source: under("stage", "data.bin"),
            })
        );
    }
}

#[test]
fn a_failing_test_without_goldenfiles_recovers_nothing() {
    let mint = Mint::new("fixtures", "stage");
    assert_eq!(mint.on_drop(true, None, Some("1")), Pass::Recover(vec![]));
    assert_eq!(mint.recover_goldenfiles(), vec![]);
}

#[test]
fn either_variable_set_to_one_asks_for_the_update_pass() {
    let mut mint = Mint::new("fixtures", "stage");
    mint.register_goldenfile("out.txt").unwrap();
    let update = Pass::Update(mint.update_goldenfiles());
    assert_eq!(mint.on_drop(false, Some("1"), None), update);
    assert_eq!(mint.on_drop(false, None, Some("1")), update);
    assert_eq!(mint.on_drop(false, Some("1"), Some("1")), update);
    assert_eq!(mint.on_drop(false, Some("0"), Some("1")), update);
    assert_eq!(mint.on_drop(false, Some("1"), Some("")), update);
}

#[test]
fn anything_else_asks_for_the_verify_pass() {
    let mut mint = Mint::new("fixtures", "stage");
    mint.register_goldenfile("out.txt").unwrap();
    let check = Pass::Check(mint.check_goldenfiles());
    assert_eq!(mint.on_drop(false, None, None), check);
    assert_eq!(mint.on_drop(false, Some("0"), None), check);
    assert_eq!(mint.on_drop(false, Some(""), Some("")), check);
    assert_eq!(mint.on_drop(false, Some("true"), Some("yes")), check);
    assert_eq!(mint.on_drop(false, Some("11"), Some(" 1")), check);
    assert_eq!(mint.on_drop(false, Some("1 "), Some("\u{ff11}")), check);
}

#[test]
fn the_variables_have_their_names() {
    assert_eq!(UPDATE_VARIABLE, "UPDATE_GOLDENFILES");
    assert_eq!(LEGACY_VARIABLE, "REGENERATE_GOLDENFILES");
}

#[test]
fn recovery_restores_only_a_moved_goldenfile() {
    let mut mint = Mint::new("fixtures", "stage");
    mint.register_goldenfile("out.txt").unwrap();
    mint.move_goldenfile("data.bin").unwrap();
    let plan = mint.check_goldenfiles();
    assert_eq!(plan[0].recovery().restore, None);
    assert_eq!(
        plan[1].recovery().restore,
        Some(Overwrite {
            file: "data.bin".to_string(),
            dest: under("fixtures", "data.bin"),
            source: under("stage", "data.bin"),
        })
    );
    assert_eq!(plan[1].recovery().restore, Some(mint.update_goldenfiles()[1].clone()));
}

#[test]
fn recovery_names_the_goldenfile() {
    let mut mint = Mint::new("fixtures", "stage");
    mint.register_goldenfile("out.txt").unwrap();
    let recovery = mint.check_goldenfiles()[0].recovery();
    assert_eq!(recovery.note, "note: run with `UPDATE_GOLDENFILES=1` to update goldenfiles");
    let plain = "error: goldenfile changed: out.txt";
    let painted = "\u{1b}[1;31merror\u{1b}[0m: goldenfile changed: out.txt";
    assert!(recovery.error == plain || recovery.error == painted);
}

#[test]
fn the_changed_line_follows_its_label() {
    assert_eq!(changed_notice("error", "sub/out.txt"), "error: goldenfile changed: sub/out.txt");
    assert_eq!(changed_notice("", ""), ": goldenfile changed: ");
}
