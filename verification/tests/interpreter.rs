use findr::ast::{
    Expr, FileType, PermPrefix, PermSpec, PermTerm, Sign, SizeSpec, SizeSuffix, SymPermOperator,
    SymPermPriv, SymPermStatement, SymPrincipal, Test, TimeSpec,
};
use findr::entry::{Context, Entry, Metadata, Ownership, TimeKind, Timestamp};
use findr::ast::SymPermPriv::{Execute, Read, Write};
use findr::interpreter::Interpreter;

const NOW: i64 = 1_700_000_000;

fn at(secs: i64) -> Timestamp {
    Timestamp { secs, nanos: 0 }
}

fn metadata(len: u64, kind: FileType, mode: u32) -> Metadata {
    Metadata {
        len,
        file_type: Some(kind),
        accessed: Some(at(NOW - 100)),
        created: Some(at(NOW - 300)),
        modified: Some(at(NOW - 200)),
        owner: Some(Ownership { uid: 1000, gid: 100, mode }),
    }
}

fn entry(path: &str, name: &str, metadata: Option<Metadata>) -> Entry {
    Entry {
        path: path.to_string(),
        file_name: name.to_string(),
        metadata,
        user_name: Some("alice".to_string()),
        group_name: Some("staff".to_string()),
    }
}

fn text_file() -> Entry {
    entry("/tmp/work/test.txt", "test.txt", Some(metadata(12, FileType::RegularFile, 0o100644)))
}

fn directory() -> Entry {
    entry("/tmp/work", "work", Some(metadata(4096, FileType::Directory, 0o40755)))
}

fn ctx() -> Context {
    Context::new(at(NOW))
}

fn holds(test: Test, entry: &Entry) -> bool {
    Interpreter::evaluate(&Expr::Test(test), entry, &ctx())
}

#[test]
fn test_true_false() {
    let entry = text_file();
    assert!(Interpreter::evaluate(&Expr::Test(Test::True), &entry, &ctx()));
    assert!(!Interpreter::evaluate(&Expr::Test(Test::False), &entry, &ctx()));
}

#[test]
fn test_name_matching() {
    let entry = text_file();

    let name_test = Test::Name("test.txt".to_string());
    assert!(Interpreter::evaluate(&Expr::Test(name_test), &entry, &ctx()));

    let wildcard_test = Test::Name("*.txt".to_string());
    assert!(Interpreter::evaluate(&Expr::Test(wildcard_test), &entry, &ctx()));

    let no_match_test = Test::Name("*.md".to_string());
    assert!(!Interpreter::evaluate(&Expr::Test(no_match_test), &entry, &ctx()));
}

#[test]
fn test_type_matching() {
    let file_entry = text_file();
    let dir_entry = directory();

    let file_test = Test::Type(FileType::RegularFile);
    assert!(Interpreter::evaluate(&Expr::Test(file_test), &file_entry, &ctx()));

    let dir_test = Test::Type(FileType::Directory);
    assert!(Interpreter::evaluate(&Expr::Test(dir_test), &dir_entry, &ctx()));
}

#[test]
fn test_boolean_logic() {
    let entry = text_file();

    let and_expr = Expr::And(
        Box::new(Expr::Test(Test::True)),
        Box::new(Expr::Test(Test::Name("*.txt".to_string()))),
    );
    assert!(Interpreter::evaluate(&and_expr, &entry, &ctx()));

    let or_expr = Expr::Or(
        Box::new(Expr::Test(Test::False)),
        Box::new(Expr::Test(Test::Name("*.txt".to_string()))),
    );
    assert!(Interpreter::evaluate(&or_expr, &entry, &ctx()));

    let not_expr = Expr::Not(Box::new(Expr::Test(Test::False)));
    assert!(Interpreter::evaluate(&not_expr, &entry, &ctx()));
}

#[test]
fn test_numeric_permission_matching() {
    let entry = text_file();

    let perm_test = Test::Perm(PermSpec { prefix: None, term: PermTerm::Numeric(0o644) });
    assert!(Interpreter::evaluate(&Expr::Test(perm_test), &entry, &ctx()));

    let perm_test_all = Test::Perm(PermSpec {
        prefix: Some(PermPrefix::AllMode),
        term: PermTerm::Numeric(0o044),
    });
    assert!(Interpreter::evaluate(&Expr::Test(perm_test_all), &entry, &ctx()));

    let perm_test_any = Test::Perm(PermSpec {
        prefix: Some(PermPrefix::AnyMode),
        term: PermTerm::Numeric(0o200),
    });
    assert!(Interpreter::evaluate(&Expr::Test(perm_test_any), &entry, &ctx()));
}

#[test]
fn test_symbolic_permission_matching() {
    let entry = text_file();

    let symbolic_stmt = SymPermStatement {
        principal: SymPrincipal::User,
        operator: SymPermOperator::Add,
        privileges: vec![SymPermPriv::Read],
    };

    let perm_test = Test::Perm(PermSpec {
        prefix: Some(PermPrefix::AllMode),
        term: PermTerm::Symbolic(vec![symbolic_stmt]),
    });

    assert!(Interpreter::evaluate(&Expr::Test(perm_test), &entry, &ctx()));
}

#[test]
fn double_negation_changes_nothing() {
    let entry = text_file();
    for test in [Test::True, Test::False, Test::Empty, Test::Name("*.txt".to_string())] {
        let plain = Expr::Test(test.clone());
        let twice = Expr::Not(Box::new(Expr::Not(Box::new(Expr::Test(test)))));
        assert_eq!(
            Interpreter::evaluate(&twice, &entry, &ctx()),
            Interpreter::evaluate(&plain, &entry, &ctx())
        );
    }
}

#[test]
fn and_does_not_consult_the_right_operand_when_the_left_fails() {
    let entry = text_file();
    let expr = Expr::And(
        Box::new(Expr::Test(Test::False)),
        Box::new(Expr::Test(Test::Newer("/no/such/file".to_string()))),
    );
    assert_eq!(Interpreter::next_lookup(&expr, &entry, &ctx()), None);
    assert!(!Interpreter::evaluate(&expr, &entry, &ctx()));
}

#[test]
fn or_does_not_consult_the_right_operand_when_the_left_holds() {
    let entry = text_file();
    let expr = Expr::Or(
        Box::new(Expr::Test(Test::True)),
        Box::new(Expr::Test(Test::Newer("/no/such/file".to_string()))),
    );
    assert_eq!(Interpreter::next_lookup(&expr, &entry, &ctx()), None);
    assert!(Interpreter::evaluate(&expr, &entry, &ctx()));
}

#[test]
fn the_right_operand_is_consulted_when_the_left_does_not_decide() {
    let entry = text_file();
    let expr = Expr::And(
        Box::new(Expr::Test(Test::True)),
        Box::new(Expr::Not(Box::new(Expr::Test(Test::Newer("ref".to_string()))))),
    );
    let mut ctx = ctx();
    assert_eq!(Interpreter::next_lookup(&expr, &entry, &ctx), Some("ref".to_string()));
    ctx.record("ref".to_string(), None);
    assert_eq!(Interpreter::next_lookup(&expr, &entry, &ctx), None);
    assert!(Interpreter::evaluate(&expr, &entry, &ctx));
}

#[test]
fn lookups_are_asked_for_from_left_to_right() {
    let entry = text_file();
    let expr = Expr::Or(
        Box::new(Expr::Test(Test::Anewer("first".to_string()))),
        Box::new(Expr::Test(Test::Cnewer("second".to_string()))),
    );
    let mut ctx = ctx();
    assert_eq!(Interpreter::next_lookup(&expr, &entry, &ctx), Some("first".to_string()));
    ctx.record("first".to_string(), None);
    assert_eq!(Interpreter::next_lookup(&expr, &entry, &ctx), Some("second".to_string()));
    ctx.record(
        "second".to_string(),
        Some(Metadata { created: Some(at(NOW - 1000)), ..metadata(1, FileType::RegularFile, 0o644) }),
    );
    assert_eq!(Interpreter::next_lookup(&expr, &entry, &ctx), None);
    assert!(Interpreter::evaluate(&expr, &entry, &ctx));
}

#[test]
fn a_reference_is_not_asked_for_when_the_entry_has_no_such_time() {
    let mut meta = metadata(12, FileType::RegularFile, 0o644);
    meta.modified = None;
    let entry = entry("/tmp/a", "a", Some(meta));
    let unreadable = self::entry("/tmp/b", "b", None);
    let expr = Expr::Test(Test::Newer("ref".to_string()));
    assert_eq!(Interpreter::next_lookup(&expr, &entry, &ctx()), None);
    assert!(!Interpreter::evaluate(&expr, &entry, &ctx()));
    assert_eq!(Interpreter::next_lookup(&expr, &unreadable, &ctx()), None);
    assert!(!Interpreter::evaluate(&expr, &unreadable, &ctx()));
}

#[test]
fn size_of_a_file_of_1024_bytes() {
    let entry = entry("/tmp/k", "k", Some(metadata(1024, FileType::RegularFile, 0o644)));
    let size = |sign, value, suffix| Test::Size(SizeSpec { sign, value, suffix });
    assert!(holds(size(Sign::Exact, 1, Some(SizeSuffix::Kb)), &entry));
    assert!(holds(size(Sign::Plus, 1, Some(SizeSuffix::Bytes)), &entry));
    assert!(holds(size(Sign::Minus, 2, Some(SizeSuffix::Kb)), &entry));
    assert!(!holds(size(Sign::Exact, 2048, Some(SizeSuffix::Bytes)), &entry));
    assert!(holds(size(Sign::Exact, 2, None), &entry));
    assert!(holds(size(Sign::Exact, 2, Some(SizeSuffix::Blocks)), &entry));
    assert!(holds(size(Sign::Exact, 512, Some(SizeSuffix::Words)), &entry));
    assert!(holds(size(Sign::Minus, 1, Some(SizeSuffix::Mb)), &entry));
    assert!(holds(size(Sign::Minus, 1, Some(SizeSuffix::Gb)), &entry));
    assert!(!holds(size(Sign::Plus, 1, Some(SizeSuffix::Kb)), &entry));
}

#[test]
fn size_in_bytes_is_value_times_unit() {
    let bytes = |value, suffix| {
        Interpreter::calculate_size_in_bytes(&SizeSpec { sign: Sign::Exact, value, suffix })
    };
    assert_eq!(bytes(3, None), 1536);
    assert_eq!(bytes(3, Some(SizeSuffix::Blocks)), 1536);
    assert_eq!(bytes(3, Some(SizeSuffix::Bytes)), 3);
    assert_eq!(bytes(3, Some(SizeSuffix::Words)), 6);
    assert_eq!(bytes(3, Some(SizeSuffix::Kb)), 3072);
    assert_eq!(bytes(3, Some(SizeSuffix::Mb)), 3 * 1024 * 1024);
    assert_eq!(bytes(3, Some(SizeSuffix::Gb)), 3 * 1024 * 1024 * 1024);
    assert_eq!(bytes(u64::MAX, Some(SizeSuffix::Gb)), (u64::MAX as u128) << 30);
}

#[test]
fn a_size_beyond_64_bits_is_greater_than_any_file() {
    let entry = entry("/tmp/k", "k", Some(metadata(u64::MAX, FileType::RegularFile, 0o644)));
    let huge = SizeSpec { sign: Sign::Minus, value: u64::MAX, suffix: Some(SizeSuffix::Kb) };
    assert!(holds(Test::Size(huge), &entry));
}

#[test]
fn empty_is_length_zero() {
    let empty = entry("/tmp/e", "e", Some(metadata(0, FileType::RegularFile, 0o644)));
    let empty_dir = entry("/tmp/d", "d", Some(metadata(0, FileType::Directory, 0o755)));
    assert!(holds(Test::Empty, &empty));
    assert!(holds(Test::Empty, &empty_dir));
    assert!(!holds(Test::Empty, &text_file()));
    assert!(!holds(Test::Empty, &directory()));
}

#[test]
fn permission_composition_on_mode_644() {
    let entry = text_file();
    let perm = |prefix, term| Test::Perm(PermSpec { prefix, term });
    assert!(holds(perm(None, PermTerm::Numeric(0o644)), &entry));
    assert!(holds(perm(Some(PermPrefix::AllMode), PermTerm::Numeric(0o044)), &entry));
    assert!(holds(perm(Some(PermPrefix::AnyMode), PermTerm::Numeric(0o200)), &entry));
    assert!(holds(perm(Some(PermPrefix::AllMode), PermTerm::Numeric(0o400)), &entry));
    let user_read = SymPermStatement {
        principal: SymPrincipal::User,
        operator: SymPermOperator::Add,
        privileges: vec![SymPermPriv::Read],
    };
    assert!(holds(perm(Some(PermPrefix::AllMode), PermTerm::Symbolic(vec![user_read])), &entry));
    assert!(!holds(perm(None, PermTerm::Numeric(0o755)), &entry));
    assert!(!holds(perm(Some(PermPrefix::AllMode), PermTerm::Numeric(0o111)), &entry));
    assert!(!holds(perm(Some(PermPrefix::AnyMode), PermTerm::Numeric(0o111)), &entry));
    assert!(!holds(perm(Some(PermPrefix::AnyMode), PermTerm::Numeric(0)), &entry));
    assert!(holds(perm(Some(PermPrefix::AllMode), PermTerm::Numeric(0)), &entry));
}

#[test]
fn symbolic_statements_apply_from_left_to_right() {
    let stmt = |principal, operator, privileges: Vec<SymPermPriv>| SymPermStatement {
        principal,
        operator,
        privileges,
    };
    let rwx = vec![SymPermPriv::Read, SymPermPriv::Write, SymPermPriv::Execute];
    let add_all = stmt(SymPrincipal::All, SymPermOperator::Add, rwx.clone());
    let set_group_read = stmt(SymPrincipal::Group, SymPermOperator::Assign, vec![SymPermPriv::Read]);
    let drop_other_write = stmt(SymPrincipal::Other, SymPermOperator::Remove, vec![SymPermPriv::Write]);
    let list = vec![add_all.clone(), set_group_read.clone(), drop_other_write.clone()];
    assert_eq!(Interpreter::symbolic_to_numeric(&list, 0o600), 0o745);
    let reversed = vec![drop_other_write, set_group_read, add_all];
    assert_eq!(Interpreter::symbolic_to_numeric(&reversed, 0o600), 0o777);
    assert_eq!(Interpreter::symbolic_to_numeric(&[], 0o640), 0o640);
    let clear_user = stmt(SymPrincipal::User, SymPermOperator::Assign, vec![]);
    assert_eq!(Interpreter::symbolic_to_numeric(&[clear_user], 0o755), 0o055);
}

#[test]
fn permission_masks() {
    assert_eq!(Interpreter::get_principal_mask(&SymPrincipal::User), 0o700);
    assert_eq!(Interpreter::get_principal_mask(&SymPrincipal::Group), 0o070);
    assert_eq!(Interpreter::get_principal_mask(&SymPrincipal::Other), 0o007);
    assert_eq!(Interpreter::get_principal_mask(&SymPrincipal::All), 0o777);
    assert_eq!(Interpreter::get_permission_mask(&SymPrincipal::User, &[Read]), 0o400);
    assert_eq!(Interpreter::get_permission_mask(&SymPrincipal::User, &[Read, Write]), 0o600);
    assert_eq!(Interpreter::get_permission_mask(&SymPrincipal::Group, &[Write, Execute]), 0o030);
    assert_eq!(Interpreter::get_permission_mask(&SymPrincipal::Other, &[Execute, Execute]), 0o001);
    assert_eq!(Interpreter::get_permission_mask(&SymPrincipal::All, &[Read, Execute]), 0o555);
    assert_eq!(Interpreter::get_permission_mask(&SymPrincipal::All, &[]), 0);
}

#[test]
fn numeric_and_symbolic_matching() {
    assert!(Interpreter::match_numeric_perm(0o644, 0o644, &None));
    assert!(!Interpreter::match_numeric_perm(0o640, 0o644, &None));
    assert!(Interpreter::match_numeric_perm(0o640, 0o644, &Some(PermPrefix::AllMode)));
    assert!(!Interpreter::match_numeric_perm(0o650, 0o644, &Some(PermPrefix::AllMode)));
    assert!(Interpreter::match_numeric_perm(0o650, 0o644, &Some(PermPrefix::AnyMode)));
    assert!(!Interpreter::match_numeric_perm(0o111, 0o644, &Some(PermPrefix::AnyMode)));
    let group_write = SymPermStatement {
        principal: SymPrincipal::Group,
        operator: SymPermOperator::Add,
        privileges: vec![SymPermPriv::Write],
    };
    assert!(!Interpreter::match_symbolic_perm(&[group_write.clone()], 0o644, &None));
    assert!(Interpreter::match_symbolic_perm(&[group_write.clone()], 0o664, &None));
    assert!(Interpreter::match_symbolic_perm(&[group_write], 0o644, &Some(PermPrefix::AnyMode)));
}

#[test]
fn only_the_low_nine_bits_of_the_mode_count() {
    let entry = entry("/tmp/s", "s", Some(metadata(1, FileType::RegularFile, 0o104755)));
    let exact = |bits| Test::Perm(PermSpec { prefix: None, term: PermTerm::Numeric(bits) });
    assert!(holds(exact(0o755), &entry));
    assert!(!holds(exact(0o4755), &entry));
}

#[test]
fn time_sign_semantics() {
    let mut meta = metadata(1, FileType::RegularFile, 0o644);
    meta.modified = Some(at(NOW - 30 * 60));
    let entry = entry("/tmp/t", "t", Some(meta));
    let mmin = |sign, value| Test::Mmin(TimeSpec { sign, value });
    assert!(holds(mmin(Sign::Exact, 30), &entry));
    assert!(!holds(mmin(Sign::Plus, 30), &entry));
    assert!(holds(mmin(Sign::Minus, 31), &entry));
    assert!(holds(mmin(Sign::Plus, 29), &entry));
    assert!(!holds(mmin(Sign::Minus, 30), &entry));
}

#[test]
fn time_tests_use_their_own_time_and_unit() {
    let mut meta = metadata(1, FileType::RegularFile, 0o644);
    meta.accessed = Some(at(NOW - 2 * 86400 - 5));
    meta.created = Some(at(NOW - 3 * 86400));
    meta.modified = Some(at(NOW - 86399));
    let entry = entry("/tmp/t", "t", Some(meta));
    let exact = |value| TimeSpec { sign: Sign::Exact, value };
    assert!(holds(Test::Atime(exact(2)), &entry));
    assert!(holds(Test::Amin(exact(2880)), &entry));
    assert!(holds(Test::Ctime(exact(3)), &entry));
    assert!(holds(Test::Cmin(exact(4320)), &entry));
    assert!(holds(Test::Mtime(exact(0)), &entry));
    assert!(holds(Test::Mmin(exact(1439)), &entry));
    assert!(!holds(Test::Mtime(exact(1)), &entry));
}

#[test]
fn a_time_in_the_future_never_matches() {
    let mut meta = metadata(1, FileType::RegularFile, 0o644);
    meta.modified = Some(Timestamp { secs: NOW, nanos: 1 });
    let entry = entry("/tmp/t", "t", Some(meta));
    for sign in [Sign::Exact, Sign::Plus, Sign::Minus] {
        assert!(!holds(Test::Mmin(TimeSpec { sign, value: 0 }), &entry));
        assert!(!holds(Test::Mtime(TimeSpec { sign, value: 1 }), &entry));
    }
}

#[test]
fn elapsed_time_counts_whole_units() {
    let spec = |sign, value| TimeSpec { sign, value };
    let now = Timestamp { secs: 1000, nanos: 0 };
    let then = Timestamp { secs: 940, nanos: 1 };
    assert!(Interpreter::compare_time_spec(then, &spec(Sign::Exact, 0), 60, now));
    let then = Timestamp { secs: 940, nanos: 0 };
    assert!(Interpreter::compare_time_spec(then, &spec(Sign::Exact, 1), 60, now));
    assert!(Interpreter::compare_time_spec(now, &spec(Sign::Exact, 0), 60, now));
    let before_epoch = Timestamp { secs: -61, nanos: 0 };
    let epoch = Timestamp { secs: 0, nanos: 0 };
    assert!(Interpreter::compare_time_spec(before_epoch, &spec(Sign::Exact, 1), 60, epoch));
    let first = Timestamp { secs: i64::MIN, nanos: 0 };
    let last = Timestamp { secs: i64::MAX, nanos: 999_999_999 };
    assert!(Interpreter::compare_time_spec(first, &spec(Sign::Exact, u64::MAX), 1, last));
    assert!(!Interpreter::compare_time_spec(first, &spec(Sign::Plus, u64::MAX), 1, last));
    assert!(!Interpreter::compare_time_spec(last, &spec(Sign::Minus, u64::MAX), 1, first));
}

#[test]
fn newer_compares_the_same_kind_of_time() {
    let entry = text_file();
    let mut ctx = ctx();
    let mut reference = metadata(1, FileType::RegularFile, 0o644);
    reference.accessed = Some(at(NOW - 50));
    reference.created = Some(at(NOW - 300));
    reference.modified = Some(at(NOW - 250));
    ctx.record("ref".to_string(), Some(reference));
    ctx.record("gone".to_string(), None);
    let eval = |test| Interpreter::evaluate(&Expr::Test(test), &entry, &ctx);
    assert!(!eval(Test::Anewer("ref".to_string())));
    assert!(!eval(Test::Cnewer("ref".to_string())));
    assert!(eval(Test::Mnewer("ref".to_string())));
    assert!(eval(Test::Newer("ref".to_string())));
    assert!(!eval(Test::Newer("gone".to_string())));
    assert!(!eval(Test::Newer("never looked up".to_string())));
}

#[test]
fn the_first_answer_for_a_path_counts() {
    let entry = text_file();
    let mut ctx = ctx();
    ctx.record("ref".to_string(), None);
    ctx.record("ref".to_string(), Some(metadata(1, FileType::RegularFile, 0o644)));
    assert_eq!(ctx.find(&"ref".to_string()), Some(None));
    assert_eq!(ctx.find(&"other".to_string()), None);
    let mut older = metadata(1, FileType::RegularFile, 0o644);
    older.modified = Some(at(NOW - 1000));
    let mut other = Context::new(at(NOW));
    other.record("ref".to_string(), Some(older));
    other.record("ref".to_string(), None);
    assert!(!Interpreter::evaluate(&Expr::Test(Test::Newer("ref".to_string())), &entry, &ctx));
    assert!(Interpreter::evaluate(&Expr::Test(Test::Newer("ref".to_string())), &entry, &other));
}

#[test]
fn timestamps_are_ordered_by_seconds_then_nanoseconds() {
    let a = Timestamp { secs: 5, nanos: 10 };
    let b = Timestamp { secs: 5, nanos: 11 };
    let c = Timestamp { secs: 4, nanos: 999_999_999 };
    assert!(b.is_after(&a));
    assert!(!a.is_after(&b));
    assert!(!a.is_after(&a));
    assert!(a.is_after(&c));
    assert_eq!(Timestamp { secs: -1, nanos: 1 }.nanos_since_epoch(), -999_999_999);
    assert_eq!(Timestamp { secs: 2, nanos: 3 }.nanos_since_epoch(), 2_000_000_003);
}

#[test]
fn owners_by_number_and_by_name() {
    let entry = text_file();
    assert!(holds(Test::Uid(1000), &entry));
    assert!(!holds(Test::Uid(1001), &entry));
    assert!(holds(Test::Gid(100), &entry));
    assert!(!holds(Test::Gid(1000), &entry));
    assert!(holds(Test::User("1000".to_string()), &entry));
    assert!(!holds(Test::User("100".to_string()), &entry));
    assert!(holds(Test::User("alice".to_string()), &entry));
    assert!(!holds(Test::User("staff".to_string()), &entry));
    assert!(holds(Test::Group("100".to_string()), &entry));
    assert!(holds(Test::Group("staff".to_string()), &entry));
    assert!(!holds(Test::Group("alice".to_string()), &entry));
    assert!(!holds(Test::User("99999999999".to_string()), &entry));
    assert!(holds(Test::User("+1000".to_string()), &entry));
    assert!(holds(Test::Group("+0100".to_string()), &entry));
    assert!(!holds(Test::User("-1000".to_string()), &entry));
}

#[test]
fn a_name_that_cannot_be_resolved_matches_nothing() {
    let mut entry = text_file();
    entry.user_name = None;
    entry.group_name = None;
    assert!(!holds(Test::User("alice".to_string()), &entry));
    assert!(!holds(Test::Group("staff".to_string()), &entry));
    assert!(holds(Test::User("1000".to_string()), &entry));
    assert!(Interpreter::match_owner(&"7".to_string(), 7, &None));
    assert!(!Interpreter::match_owner(&"x".to_string(), 7, &None));
    assert!(Interpreter::match_owner(&"x".to_string(), 7, &Some("x".to_string())));
}

#[test]
fn tests_of_unreadable_metadata_fail() {
    let entry = entry("/tmp/x.txt", "x.txt", None);
    let any = TimeSpec { sign: Sign::Plus, value: 0 };
    let tests = vec![
        Test::Type(FileType::RegularFile),
        Test::Size(SizeSpec { sign: Sign::Minus, value: 1, suffix: None }),
        Test::Empty,
        Test::Amin(any),
        Test::Atime(any),
        Test::Cmin(any),
        Test::Ctime(any),
        Test::Mmin(any),
        Test::Mtime(any),
        Test::User("alice".to_string()),
        Test::Group("staff".to_string()),
        Test::Uid(1000),
        Test::Gid(100),
        Test::Perm(PermSpec { prefix: Some(PermPrefix::AllMode), term: PermTerm::Numeric(0) }),
    ];
    for test in tests {
        assert!(!holds(test, &entry));
    }
    assert!(holds(Test::Name("*.txt".to_string()), &entry));
}

#[test]
fn tests_of_what_the_host_does_not_record_fail() {
    let meta = Metadata {
        len: 5,
        file_type: None,
        accessed: None,
        created: None,
        modified: None,
        owner: None,
    };
    let entry = entry("/tmp/x", "x", Some(meta));
    let any = TimeSpec { sign: Sign::Plus, value: 0 };
    for kind in [
        FileType::BlockFile,
        FileType::CharFile,
        FileType::Directory,
        FileType::NamedPipe,
        FileType::RegularFile,
        FileType::SymbolicLink,
        FileType::Socket,
    ] {
        assert!(!holds(Test::Type(kind), &entry));
    }
    assert!(!holds(Test::Amin(any), &entry));
    assert!(!holds(Test::Ctime(any), &entry));
    assert!(!holds(Test::Mmin(any), &entry));
    assert!(!holds(Test::Uid(0), &entry));
    assert!(!holds(Test::User("0".to_string()), &entry));
    assert!(!holds(Test::Perm(PermSpec { prefix: None, term: PermTerm::Numeric(0) }), &entry));
    assert!(holds(Test::Size(SizeSpec { sign: Sign::Exact, value: 5, suffix: Some(SizeSuffix::Bytes) }), &entry));
}

#[test]
fn each_kind_matches_itself_only() {
    let kinds = [
        FileType::BlockFile,
        FileType::CharFile,
        FileType::Directory,
        FileType::NamedPipe,
        FileType::RegularFile,
        FileType::SymbolicLink,
        FileType::Socket,
    ];
    for actual in kinds {
        let entry = entry("/dev/x", "x", Some(metadata(0, actual, 0o644)));
        for asked in kinds {
            assert_eq!(holds(Test::Type(asked), &entry), asked == actual);
        }
    }
}

#[test]
fn path_and_name_match_different_text() {
    let entry = text_file();
    assert!(holds(Test::Path("/tmp/*/test.txt".to_string()), &entry));
    assert!(holds(Test::Path("*test.txt".to_string()), &entry));
    assert!(!holds(Test::Path("test.txt".to_string()), &entry));
    assert!(!holds(Test::Name("/tmp/*/test.txt".to_string()), &entry));
    assert!(holds(Test::Name("t?st.[a-z]xt".to_string()), &entry));
}

#[test]
fn case_insensitive_globs_lower_both_sides() {
    let entry = entry("/Tmp/Work/README.TXT", "README.TXT", None);
    assert!(!holds(Test::Name("readme.txt".to_string()), &entry));
    assert!(holds(Test::Iname("readme.txt".to_string()), &entry));
    assert!(holds(Test::Iname("ReadMe.*".to_string()), &entry));
    assert!(holds(Test::Iname("*.TXT".to_string()), &text_file()));
    assert!(!holds(Test::Path("/tmp/work/*".to_string()), &entry));
    assert!(holds(Test::Ipath("/TMP/work/*".to_string()), &entry));
    assert!(Interpreter::match_glob_pattern("A*", "abc", true));
    assert!(!Interpreter::match_glob_pattern("A*", "abc", false));
}

#[test]
fn a_malformed_pattern_matches_nothing() {
    let entry = text_file();
    assert!(!holds(Test::Name("[".to_string()), &entry));
    assert!(!holds(Test::Iname("a**b".to_string()), &entry));
    assert!(!holds(Test::Path("[".to_string()), &entry));
    assert!(!holds(Test::Regex("(".to_string()), &entry));
    assert!(!holds(Test::Iregex("[".to_string()), &entry));
    assert!(!Interpreter::accepts(None));
    assert!(!Interpreter::accepts(Some(false)));
    assert!(Interpreter::accepts(Some(true)));
}

#[test]
fn not_of_a_malformed_pattern_holds() {
    let entry = text_file();
    let expr = Expr::Not(Box::new(Expr::Test(Test::Regex("(".to_string()))));
    assert!(Interpreter::evaluate(&expr, &entry, &ctx()));
}

#[test]
fn regular_expressions_match_the_whole_path() {
    let entry = text_file();
    assert!(holds(Test::Regex(".*\\.txt".to_string()), &entry));
    assert!(holds(Test::Regex("/tmp/work/test\\.txt".to_string()), &entry));
    assert!(!holds(Test::Regex("test".to_string()), &entry));
    assert!(!holds(Test::Regex("/tmp".to_string()), &entry));
    assert!(!holds(Test::Regex(".*\\.TXT".to_string()), &entry));
    assert!(holds(Test::Iregex(".*\\.TXT".to_string()), &entry));
    assert!(!holds(Test::Iregex("TEST".to_string()), &entry));
}

#[test]
fn anchoring_wraps_the_pattern() {
    assert_eq!(Interpreter::anchor("a.*", false), "^a.*$");
    assert_eq!(Interpreter::anchor("a.*", true), "(?i)^a.*$");
    assert_eq!(Interpreter::anchor("", false), "^$");
}

#[test]
fn evaluation_is_repeatable() {
    let entry = text_file();
    let expr = Expr::Or(
        Box::new(Expr::Test(Test::Name("*.md".to_string()))),
        Box::new(Expr::And(
            Box::new(Expr::Test(Test::Type(FileType::RegularFile))),
            Box::new(Expr::Not(Box::new(Expr::Test(Test::Empty)))),
        )),
    );
    let copy = expr.clone();
    assert_eq!(copy, expr);
    let first = Interpreter::evaluate(&expr, &entry, &ctx());
    assert!(first);
    for _ in 0..3 {
        assert_eq!(Interpreter::evaluate(&copy, &entry, &ctx()), first);
    }
}

#[test]
fn file_types_and_units_are_written_as_letters() {
    assert_eq!(FileType::BlockFile.to_string(), "b");
    assert_eq!(FileType::CharFile.to_string(), "c");
    assert_eq!(FileType::Directory.to_string(), "d");
    assert_eq!(FileType::NamedPipe.to_string(), "p");
    assert_eq!(FileType::RegularFile.to_string(), "f");
    assert_eq!(FileType::SymbolicLink.to_string(), "l");
    assert_eq!(FileType::Socket.to_string(), "s");
    assert_eq!(SizeSuffix::Blocks.to_string(), "b");
    assert_eq!(SizeSuffix::Bytes.to_string(), "c");
    assert_eq!(SizeSuffix::Words.to_string(), "w");
    assert_eq!(SizeSuffix::Kb.to_string(), "k");
    assert_eq!(SizeSuffix::Mb.to_string(), "M");
    assert_eq!(SizeSuffix::Gb.to_string(), "G");
}

#[test]
fn points_in_time_from_offsets() {
    assert_eq!(Timestamp::after_epoch(5, 7), Some(Timestamp { secs: 5, nanos: 7 }));
    assert_eq!(Timestamp::after_epoch(0, 0), Some(Timestamp { secs: 0, nanos: 0 }));
    assert_eq!(
        Timestamp::after_epoch(i64::MAX as u64, 1),
        Some(Timestamp { secs: i64::MAX, nanos: 1 })
    );
    assert_eq!(Timestamp::after_epoch(i64::MAX as u64 + 1, 0), None);
    assert_eq!(Timestamp::before_epoch(0, 0), Some(Timestamp { secs: 0, nanos: 0 }));
    assert_eq!(Timestamp::before_epoch(5, 0), Some(Timestamp { secs: -5, nanos: 0 }));
    assert_eq!(Timestamp::before_epoch(5, 1), Some(Timestamp { secs: -6, nanos: 999_999_999 }));
    assert_eq!(Timestamp::before_epoch(0, 2_500_000_000), Some(Timestamp { secs: -3, nanos: 500_000_000 }));
    assert_eq!(Timestamp::before_epoch(i64::MAX as u64, 0), None);
    assert_eq!(Timestamp::before_epoch(u64::MAX, 0), None);
    let before = Timestamp::before_epoch(5, 1).unwrap();
    assert_eq!(before.nanos_since_epoch(), -5_000_000_001);
    let after = Timestamp::after_epoch(5, 1).unwrap();
    assert_eq!(after.nanos_since_epoch(), 5_000_000_001);
    assert!(after.is_after(&before));
}

#[test]
fn metadata_gives_each_time() {
    let meta = metadata(1, FileType::RegularFile, 0o644);
    assert_eq!(meta.time(TimeKind::Accessed), Some(at(NOW - 100)));
    assert_eq!(meta.time(TimeKind::Created), Some(at(NOW - 300)));
    assert_eq!(meta.time(TimeKind::Modified), Some(at(NOW - 200)));
}

#[test]
fn a_decided_expression_stays_decided() {
    let entry = text_file();
    let expr = Expr::Or(
        Box::new(Expr::Test(Test::Newer("a".to_string()))),
        Box::new(Expr::Not(Box::new(Expr::Test(Test::Anewer("b".to_string()))))),
    );
    let mut ctx = ctx();
    let mut older = metadata(1, FileType::RegularFile, 0o644);
    older.modified = Some(at(NOW - 1000));
    assert_eq!(Interpreter::next_lookup(&expr, &entry, &ctx), Some("a".to_string()));
    ctx.record("a".to_string(), Some(older));
    assert_eq!(Interpreter::next_lookup(&expr, &entry, &ctx), None);
    let decided = Interpreter::evaluate(&expr, &entry, &ctx);
    assert!(decided);
    ctx.record("b".to_string(), Some(older));
    ctx.record("a".to_string(), None);
    ctx.record("c".to_string(), None);
    assert_eq!(Interpreter::next_lookup(&expr, &entry, &ctx), None);
    assert_eq!(Interpreter::evaluate(&expr, &entry, &ctx), decided);
}

#[test]
fn a_new_context_holds_no_answers() {
    let ctx = Context::new(at(7));
    assert_eq!(ctx.now, at(7));
    assert!(ctx.references.is_empty());
    assert_eq!(ctx.find(&"x".to_string()), None);
}

#[test]
fn double_negation_consults_the_same_files() {
    let entry = text_file();
    let plain = Expr::Test(Test::Newer("ref".to_string()));
    let twice = Expr::Not(Box::new(Expr::Not(Box::new(plain.clone()))));
    let mut ctx = ctx();
    assert_eq!(
        Interpreter::next_lookup(&twice, &entry, &ctx),
        Interpreter::next_lookup(&plain, &entry, &ctx)
    );
    let mut older = metadata(1, FileType::RegularFile, 0o644);
    older.modified = Some(at(NOW - 1000));
    ctx.record("ref".to_string(), Some(older));
    assert!(Interpreter::evaluate(&plain, &entry, &ctx));
    assert!(Interpreter::evaluate(&twice, &entry, &ctx));
}
