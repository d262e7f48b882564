use pputil::args::{
    Commands, CompactSortBy, ListCompactArgs, ListExtendedArgs, MyCliArgs, SortOrder,
    XcProvisioningProfileDir, XcProvisioningProfileDirKind,
};
use pputil::payload::Timestamp;
use pputil::record::{failed_record, OptValueAsBoxStr, PrivisionFileData, UnwrapOrNa};
use pputil::payload::PayloadValue;
use pputil::render::{compact_row, compact_table_rows, count_text, detailed_cells, fit_text, flag_text, join_texts};
use pputil::sort::{key_less, sort_key, sorted_positions, text_less, SortKey};

fn s(text: &str) -> String {
    text.to_string()
}

fn record(name: Option<&str>, app_id_name: Option<&str>, exp: Option<i64>) -> PrivisionFileData {
    let mut r = failed_record(s("/profiles/x.mobileprovision"), XcProvisioningProfileDirKind::Xc16);
    r.name = name.map(s);
    r.app_id_name = app_id_name.map(s);
    r.exp_date = exp.map(|secs| Timestamp { secs, nanos: 0 });
    r
}

fn names(rows: &[pputil::render::CompactRow]) -> Vec<String> {
    rows.iter().map(|r| r.cells[0].clone()).collect()
}

fn args(sort_by: CompactSortBy, sort_order: SortOrder) -> ListCompactArgs {
    ListCompactArgs { sort_by, sort_order, allow_wrap: true }
}

const NOW: Timestamp = Timestamp { secs: 1_700_000_000, nanos: 0 };

#[test]
fn sorting_by_name_is_case_insensitive() {
    let rows = vec![
        Ok(record(Some("beta"), None, None)),
        Ok(record(Some("Alpha"), None, None)),
        Err(record(Some("Gamma"), None, None)),
    ];
    let out = compact_table_rows(&rows, &args(CompactSortBy::Name, SortOrder::Asc), &NOW, 0, 300);
    assert_eq!(names(&out), vec![s("Alpha"), s("beta"), s("Gamma")]);
}

#[test]
fn missing_names_sort_as_the_marker() {
    let rows = vec![
        Ok(record(Some("b"), None, None)),
        Ok(record(None, None, None)),
        Ok(record(Some("Z"), None, None)),
        Ok(record(Some("a"), None, None)),
    ];
    let out = compact_table_rows(&rows, &args(CompactSortBy::Name, SortOrder::Asc), &NOW, 0, 300);
    assert_eq!(names(&out), vec![s("_"), s("a"), s("b"), s("Z")]);
}

#[test]
fn descending_is_ascending_reversed() {
    let rows = vec![
        Ok(record(Some("b"), None, None)),
        Ok(record(Some("c"), None, None)),
        Ok(record(Some("a"), None, None)),
        Ok(record(Some("B"), None, None)),
    ];
    let asc = compact_table_rows(&rows, &args(CompactSortBy::Name, SortOrder::Asc), &NOW, 0, 300);
    let desc = compact_table_rows(&rows, &args(CompactSortBy::Name, SortOrder::Desc), &NOW, 0, 300);
    let mut reversed = names(&asc);
    reversed.reverse();
    assert_eq!(names(&desc), reversed);
    assert_eq!(names(&asc), vec![s("a"), s("b"), s("B"), s("c")]);
}

#[test]
fn equal_names_in_other_case_keep_their_order() {
    let rows = vec![
        Ok(record(Some("Profile"), Some("first"), None)),
        Ok(record(Some("a"), None, None)),
        Ok(record(Some("PROFILE"), Some("second"), None)),
        Ok(record(Some("profile"), Some("third"), None)),
    ];
    let out = compact_table_rows(&rows, &args(CompactSortBy::Name, SortOrder::Asc), &NOW, 0, 300);
    assert_eq!(names(&out), vec![s("a"), s("Profile"), s("PROFILE"), s("profile")]);
    assert_eq!(out[1].cells[1], "first");
    assert_eq!(out[2].cells[1], "second");
    assert_eq!(out[3].cells[1], "third");
}

#[test]
fn sorting_by_app_id_name() {
    let rows = vec![
        Ok(record(Some("1"), Some("Zed"), None)),
        Ok(record(Some("2"), Some("alpha"), None)),
    ];
    let out = compact_table_rows(&rows, &args(CompactSortBy::AppIdName, SortOrder::Asc), &NOW, 0, 300);
    assert_eq!(names(&out), vec![s("2"), s("1")]);
}

#[test]
fn sorting_by_expiration_puts_missing_dates_first() {
    let rows = vec![
        Ok(record(Some("late"), None, Some(2_000_000_000))),
        Ok(record(Some("none"), None, None)),
        Ok(record(Some("early"), None, Some(1_000_000_000))),
    ];
    let asc = compact_table_rows(&rows, &args(CompactSortBy::ExpirationDate, SortOrder::Asc), &NOW, 0, 300);
    assert_eq!(names(&asc), vec![s("none"), s("early"), s("late")]);
    let desc = compact_table_rows(&rows, &args(CompactSortBy::ExpirationDate, SortOrder::Desc), &NOW, 0, 300);
    assert_eq!(names(&desc), vec![s("late"), s("early"), s("none")]);
}

#[test]
fn expired_marks_dates_not_later_than_now() {
    let rows = vec![
        Ok(record(Some("past"), None, Some(1_600_000_000))),
        Ok(record(Some("now"), None, Some(NOW.secs))),
        Ok(record(Some("future"), None, Some(1_800_000_000))),
        Ok(record(Some("unknown"), None, None)),
    ];
    let out = compact_table_rows(&rows, &args(CompactSortBy::ExpirationDate, SortOrder::Asc), &NOW, 0, 300);
    let flags: Vec<(String, bool)> = out.iter().map(|r| (r.cells[0].clone(), r.expired)).collect();
    assert_eq!(
        flags,
        vec![(s("unknown"), false), (s("past"), true), (s("now"), true), (s("future"), false)]
    );
}

#[test]
fn compact_row_cells_in_column_order() {
    let mut r = record(Some("N"), Some("App"), Some(1_577_836_800));
    r.ent_app_id = Some(s("TEAM.com.example.app"));
    r.xc_managed = Some(true);
    r.local_provision = Some(false);
    r.team_name = Some(s("The Team"));
    r.provisioned_devices = Some(42);
    r.uuid = Some(s("1234-5678"));
    let row = compact_row(&r, false, &NOW, 3600);
    assert_eq!(
        row.cells,
        vec![
            s("N"),
            s("App"),
            s("TEAM.com.example.app"),
            s("2020-01-01"),
            s("Y"),
            s("N"),
            s("The Team"),
            s("42"),
            s("1234-5678"),
            s("Xc16"),
        ]
    );
    assert!(row.expired);
}

#[test]
fn placeholder_row_shows_markers() {
    let r = failed_record(s("/bad"), XcProvisioningProfileDirKind::Custom);
    let row = compact_row(&r, true, &NOW, 0);
    assert_eq!(
        row.cells,
        vec![
            s("failed to parse file /bad"),
            s("_"),
            s("_"),
            s("_"),
            s("_"),
            s("_"),
            s("_"),
            s("_"),
            s("_"),
            s("Custom"),
        ]
    );
    assert!(!row.expired);
}

#[test]
fn dates_shift_with_the_offset() {
    let mut r = record(Some("N"), None, Some(1_577_836_800));
    r.exp_date = Some(Timestamp { secs: 1_577_836_800, nanos: 0 });
    assert_eq!(compact_row(&r, false, &NOW, -3600).cells[3], "2019-12-31");
    assert_eq!(compact_row(&r, false, &NOW, 0).cells[3], "2020-01-01");
}

#[test]
fn narrow_terminal_truncates_long_columns_unless_wrapping() {
    let mut r = record(Some("A very long profile name that is never cut"), None, None);
    r.ent_app_id = Some(s("ABCDEFGHIJ.com.example.some.long.bundle.identifier"));
    r.team_name = Some(s("A Team Name That Is Long"));
    r.uuid = Some(s("12345678-90ab-cdef-1234-567890abcdef"));
    let rows = vec![Ok(r)];
    let no_wrap = ListCompactArgs { sort_by: CompactSortBy::Name, sort_order: SortOrder::Asc, allow_wrap: false };
    let narrow = compact_table_rows(&rows, &no_wrap, &NOW, 0, 80);
    assert_eq!(narrow[0].cells[0], "A very long profile name that is never cut");
    assert_eq!(narrow[0].cells[2], "ABCDEFGHIJ.com.example.some.l…");
    assert_eq!(narrow[0].cells[2].chars().count(), 30);
    assert_eq!(narrow[0].cells[6], "A Team Name That Is…");
    assert_eq!(narrow[0].cells[8], "12345678-90…");
    let wide = compact_table_rows(&rows, &no_wrap, &NOW, 0, 250);
    assert_eq!(wide[0].cells[8], "12345678-90ab-cdef-1234-567890abcdef");
    let wrap = ListCompactArgs { allow_wrap: true, ..no_wrap };
    let wrapped = compact_table_rows(&rows, &wrap, &NOW, 0, 80);
    assert_eq!(wrapped[0].cells[2], "ABCDEFGHIJ.com.example.some.long.bundle.identifier");
}

#[test]
fn fit_text_keeps_short_text() {
    assert_eq!(fit_text(s("abc"), 3, true), "abc");
    assert_eq!(fit_text(s("abcd"), 3, true), "ab…");
    assert_eq!(fit_text(s("abcd"), 3, false), "abcd");
    assert_eq!(fit_text(s("äöüß"), 2, true), "ä…");
}

#[test]
fn flags_and_counts() {
    assert_eq!(flag_text(Some(true)), "Y");
    assert_eq!(flag_text(Some(false)), "N");
    assert_eq!(flag_text(None), "_");
    assert_eq!(count_text(Some(0)), "0");
    assert_eq!(count_text(Some(1207)), "1207");
    assert_eq!(count_text(None), "_");
}

#[test]
fn detailed_cells_of_a_record() {
    let mut r = record(Some("Dev"), None, Some(1_577_836_800));
    r.xc_managed = Some(false);
    r.app_id_prefixes = Some(vec![s("AAA"), s("BBB")]);
    let cells = detailed_cells(&r, 0);
    assert_eq!(
        cells,
        vec![s("Name: Dev\n\nFile: x.mobileprovision"), s("2020-01-01"), s("N"), s("AAA, BBB")]
    );
    let placeholder = failed_record(s("/bad/p.mobileprovision"), XcProvisioningProfileDirKind::Custom);
    let cells = detailed_cells(&placeholder, 0);
    assert_eq!(cells[0], "Name: failed to parse file /bad/p.mobileprovision\n\nFile: p.mobileprovision");
    assert_eq!(cells[3], "_");
}

#[test]
fn join_texts_separates_each_two() {
    assert_eq!(join_texts(&vec![], ", "), "");
    assert_eq!(join_texts(&vec![s("a")], ", "), "a");
    assert_eq!(join_texts(&vec![s("a"), s("b"), s("c")], "-"), "a-b-c");
}

#[test]
fn text_order_is_by_code_point() {
    assert!(text_less("a", "b"));
    assert!(text_less("", "a"));
    assert!(!text_less("a", ""));
    assert!(!text_less("a", "a"));
    assert!(text_less("ab", "abc"));
    assert!(text_less("Z", "a"));
    assert!(text_less("_", "a"));
    assert!(text_less("z", "ä"));
}

#[test]
fn keys_lower_case_names() {
    let r = record(Some("MiXeD"), None, None);
    assert_eq!(sort_key(&r, CompactSortBy::Name), SortKey::Text(s("mixed")));
    assert_eq!(sort_key(&record(None, None, None), CompactSortBy::AppIdName), SortKey::Text(s("_")));
    assert!(key_less(&SortKey::Date(None), &SortKey::Date(Some(Timestamp { secs: 0, nanos: 0 }))));
    assert!(!key_less(&SortKey::Date(None), &SortKey::Date(None)));
}

#[test]
fn sorted_positions_are_stable() {
    let keys = vec![
        SortKey::Text(s("b")),
        SortKey::Text(s("a")),
        SortKey::Text(s("b")),
        SortKey::Text(s("a")),
    ];
    assert_eq!(sorted_positions(&keys, SortOrder::Asc), vec![1, 3, 0, 2]);
    assert_eq!(sorted_positions(&keys, SortOrder::Desc), vec![2, 0, 3, 1]);
    assert_eq!(sorted_positions(&vec![], SortOrder::Asc), Vec::<usize>::new());
}

#[test]
fn unwrap_or_na_and_as_box_str() {
    assert_eq!(Some(s("x")).unwrap_or_na(), "x");
    assert_eq!(None::<String>.unwrap_or_na(), "_");
    let v = PayloadValue::String(s("t"));
    assert_eq!(Some(&v).as_box_str(), Some(s("t")));
    assert_eq!(Some(&PayloadValue::Boolean(true)).as_box_str(), None);
    assert_eq!(None::<&PayloadValue>.as_box_str(), None);
}

#[test]
fn default_directories_without_custom_ones() {
    let cli = MyCliArgs { command: Commands::ListExtended(ListExtendedArgs {}), custom_dir: vec![], verbose: 0 };
    let dirs = cli.actual_dirs();
    assert_eq!(dirs.len(), 2);
    assert_eq!(dirs[0].relative_path, "~/Library/Developer/Xcode/UserData/Provisioning Profiles");
    assert_eq!(dirs[0].kind, XcProvisioningProfileDirKind::Xc16);
    assert_eq!(dirs[1].relative_path, "~/Library/MobileDevice/Provisioning Profiles");
    assert_eq!(dirs[1].kind, XcProvisioningProfileDirKind::Xc15);
}

#[test]
fn custom_directories_replace_the_defaults() {
    let cli = MyCliArgs {
        command: Commands::List(args(CompactSortBy::Name, SortOrder::Asc)),
        custom_dir: vec![s("/tmp/a"), s("~/b")],
        verbose: 1,
    };
    let dirs = cli.actual_dirs();
    assert_eq!(dirs.len(), 2);
    assert_eq!(dirs[0].relative_path, "/tmp/a");
    assert_eq!(dirs[1].relative_path, "~/b");
    assert!(dirs.iter().all(|d| d.kind == XcProvisioningProfileDirKind::Custom));
}

#[test]
fn absolute_path_keeps_paths_without_tilde() {
    let d = XcProvisioningProfileDir { relative_path: s("/var/profiles"), kind: XcProvisioningProfileDirKind::Custom };
    assert_eq!(d.absolute_path(), "/var/profiles");
    let home = XcProvisioningProfileDir { relative_path: s("~/profiles"), kind: XcProvisioningProfileDirKind::Custom };
    let expanded = home.absolute_path();
    assert!(expanded.ends_with("/profiles"));
    assert!(!expanded.starts_with('~'));
}

#[test]
fn directory_kind_labels() {
    assert_eq!(XcProvisioningProfileDirKind::Xc15.label(), "Xc15");
    assert_eq!(XcProvisioningProfileDirKind::Xc16.label(), "Xc16");
    assert_eq!(XcProvisioningProfileDirKind::Custom.label(), "Custom");
}
