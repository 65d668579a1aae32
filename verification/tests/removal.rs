use shred::remove::{removal_steps, RemoveStep};
use std::path::MAIN_SEPARATOR_STR;
use tempfile::{tempdir, NamedTempFile, TempPath};

fn perform(steps: &[RemoveStep]) {
    for step in steps {
        match step {
            RemoveStep::Rename { from, to } => TempPath::from_path(from).persist(to).unwrap(),
            RemoveStep::Unlink { path } => TempPath::from_path(path).close().unwrap(),
        }
    }
}

#[test]
fn test_delete_files() {
    let dir = tempdir().unwrap();
    let temp_file = NamedTempFile::new_in(dir.path()).unwrap_or_else(|err| {
        panic!("!cannot create tempFile {:?}", err.kind());
    });
    let temp_path = temp_file.into_temp_path();
    let canonical = temp_path.canonicalize().unwrap();
    let parent = canonical.parent().unwrap();
    let name = temp_path.file_name().unwrap();
    let steps = removal_steps(
        canonical.to_str().unwrap(),
        parent.to_str().unwrap(),
        MAIN_SEPARATOR_STR,
        name.to_str().unwrap(),
    );
    perform(&steps);
    let delete_result = temp_path.close();
    assert!(delete_result.is_err());
}

#[test]
fn removal_names_shrink_to_one_zero() {
    let steps = removal_steps("/data/abc", "/data", "/", "abc");
    assert_eq!(
        steps,
        vec![
            RemoveStep::Rename { from: String::from("/data/abc"), to: String::from("/data/000") },
            RemoveStep::Rename { from: String::from("/data/000"), to: String::from("/data/00") },
            RemoveStep::Rename { from: String::from("/data/00"), to: String::from("/data/0") },
            RemoveStep::Unlink { path: String::from("/data/0") },
        ]
    );
}

#[test]
fn removal_of_one_character_name_renames_once() {
    let steps = removal_steps("/data/x", "/data", "/", "x");
    assert_eq!(
        steps,
        vec![
            RemoveStep::Rename { from: String::from("/data/x"), to: String::from("/data/0") },
            RemoveStep::Unlink { path: String::from("/data/0") },
        ]
    );
}

#[test]
fn removal_counts_characters_not_bytes() {
    let steps = removal_steps("/data/\u{e9}\u{e9}", "/data", "/", "\u{e9}\u{e9}");
    assert_eq!(steps.len(), 3);
    assert_eq!(
        steps[0],
        RemoveStep::Rename {
            from: String::from("/data/\u{e9}\u{e9}"),
            to: String::from("/data/00")
        }
    );
}

#[test]
fn removal_of_empty_name_only_unlinks() {
    let steps = removal_steps("/data", "/", "/", "");
    assert_eq!(steps, vec![RemoveStep::Unlink { path: String::from("/data") }]);
}

#[test]
fn removal_renames_once_for_each_character() {
    for len in 1..40usize {
        let name = "n".repeat(len);
        let canonical = format!("/d/{}", name);
        let steps = removal_steps(&canonical, "/d", "/", &name);
        assert_eq!(steps.len(), len + 1);
        let mut at = canonical.clone();
        for (k, step) in steps.iter().enumerate() {
            if k < len {
                let expected = format!("/d/{}", "0".repeat(len - k));
                assert_eq!(step, &RemoveStep::Rename { from: at.clone(), to: expected.clone() });
                at = expected;
            } else {
                assert_eq!(step, &RemoveStep::Unlink { path: at.clone() });
            }
        }
    }
}
