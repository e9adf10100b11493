use vim_anywhere::scratch::{now_local, scratch_name, join_path, scratch_subdir, TempFile, Timestamp};

#[test]
fn scratch_name_formats_all_fields() {
    let t = Timestamp { year: 2026, month: 2, day: 3, hour: 4, minute: 5, second: 6 };
    assert_eq!(scratch_name(&t), "doc-260203040506");
}

#[test]
fn scratch_name_zero_pads_each_field() {
    let t = Timestamp { year: 5, month: 12, day: 31, hour: 23, minute: 59, second: 58 };
    assert_eq!(scratch_name(&t), "doc-051231235958");
}

#[test]
fn scratch_name_ignores_year_sign() {
    let t = Timestamp { year: -7, month: 1, day: 1, hour: 0, minute: 0, second: 0 };
    assert_eq!(scratch_name(&t), "doc-070101000000");
}

#[test]
fn scratch_name_same_second_is_same_name() {
    let a = Timestamp { year: 2026, month: 10, day: 11, hour: 12, minute: 13, second: 14 };
    let b = a;
    assert_eq!(scratch_name(&a), scratch_name(&b));
}

#[test]
fn named_builds_full_path() {
    let t = Timestamp { year: 2026, month: 2, day: 3, hour: 4, minute: 5, second: 6 };
    let f = TempFile::named("/tmp", &t);
    assert_eq!(f.path, "/tmp/vim-anwhere/doc-260203040506");
}

#[test]
fn named_same_second_is_same_path() {
    let t = Timestamp { year: 2026, month: 2, day: 3, hour: 4, minute: 5, second: 6 };
    let a = TempFile::named("/tmp", &t);
    let b = TempFile::named("/tmp", &t);
    assert_eq!(a.path, b.path);
}

#[test]
fn scratch_dir_is_subdir_of_root() {
    assert_eq!(TempFile::scratch_dir("/tmp"), "/tmp/vim-anwhere");
    assert_eq!(scratch_subdir(), "vim-anwhere");
}

#[test]
fn join_path_inserts_separator() {
    assert_eq!(join_path("a", "b"), "a/b");
    assert_eq!(join_path("", "b"), "/b");
}

#[test]
fn now_local_is_within_calendar_bounds() {
    let t = now_local();
    assert!((1..=12).contains(&t.month));
    assert!((1..=31).contains(&t.day));
    assert!(t.hour <= 23);
    assert!(t.minute <= 59);
    assert!(t.second <= 59);
}

#[test]
fn now_local_names_a_well_formed_scratch_file() {
    let t = now_local();
    let name = scratch_name(&t);
    assert_eq!(name.len(), "doc-".len() + 12);
    assert!(name.starts_with("doc-"));
    assert!(name[4..].chars().all(|c| c.is_ascii_digit()));
}
