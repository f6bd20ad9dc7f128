use textutils::headr::{
    banner, get_args, head_bytes, head_bytes_text, head_lines, open_error_message, ArgsError,
    LineBudget, Limit, DEFAULT_LINES,
};
use textutils::source::{files_or_stdin, Source};
use textutils::text::right_aligned_decimal;

fn lines(ls: &[&str]) -> Vec<String> {
    ls.iter().map(|l| l.to_string()).collect()
}

#[test]
fn get_args_defaults() {
    let c = get_args(vec![], None, None).unwrap();
    assert_eq!(c.files, lines(&["-"]));
    assert_eq!(c.limit, Limit::Lines(DEFAULT_LINES));
    assert_eq!(DEFAULT_LINES, 10);
}

#[test]
fn get_args_takes_counts() {
    let c = get_args(lines(&["a", "b"]), Some(3), None).unwrap();
    assert_eq!(c.files, lines(&["a", "b"]));
    assert_eq!(c.limit, Limit::Lines(3));
    let c = get_args(lines(&["a"]), None, Some(0)).unwrap();
    assert_eq!(c.limit, Limit::Bytes(0));
}

#[test]
fn get_args_errors() {
    assert_eq!(get_args(vec![], Some(0), None).unwrap_err(), ArgsError::ZeroLines);
    assert_eq!(get_args(vec![], Some(0), Some(4)).unwrap_err(), ArgsError::ZeroLines);
    assert_eq!(
        get_args(vec![], Some(2), Some(4)).unwrap_err(),
        ArgsError::ConflictingLimits
    );
}

#[test]
fn head_lines_default_on_short_file_is_whole_file() {
    let input = lines(&["a", "b", "c"]);
    assert_eq!(head_lines(&input, DEFAULT_LINES), input);
}

#[test]
fn head_lines_takes_first_lines() {
    let input: Vec<String> = (0..20).map(|i| i.to_string()).collect();
    let out = head_lines(&input, 10);
    assert_eq!(out.len(), 10);
    assert_eq!(out, input[..10].to_vec());
    assert_eq!(head_lines(&input, 1), lines(&["0"]));
    assert_eq!(head_lines(&input, 20), input);
    assert_eq!(head_lines(&lines(&[]), 5), lines(&[]));
}

#[test]
fn line_budget_stops_at_limit() {
    let mut b = LineBudget::new(2);
    assert!(b.wants_more());
    b.take_one();
    assert!(b.wants_more());
    b.take_one();
    assert!(!b.wants_more());
    assert_eq!(b.taken, 2);
}

#[test]
fn head_bytes_takes_prefix() {
    let data = b"hello world".to_vec();
    assert_eq!(head_bytes(&data, 5), b"hello".to_vec());
    assert_eq!(head_bytes(&data, 0), Vec::<u8>::new());
    assert_eq!(head_bytes(&data, 100), data);
    assert_eq!(head_bytes(&data, 11).len(), 11);
}

#[test]
fn head_bytes_text_decodes() {
    let data = "héllo".as_bytes().to_vec();
    assert_eq!(head_bytes_text(&data, 3), "hé");
    assert_eq!(head_bytes_text(&data, 100), "héllo");
    assert_eq!(head_bytes_text(&data, 2), "h\u{FFFD}");
    assert_eq!(head_bytes_text(&vec![0xff, b'a'], 2), "\u{FFFD}a");
}

#[test]
fn banners_only_with_several_sources() {
    assert_eq!(banner("a.txt", 0, 1), None);
    assert_eq!(banner("a.txt", 0, 2), Some("==> a.txt <==".to_string()));
    assert_eq!(banner("b.txt", 1, 2), Some("\n==> b.txt <==".to_string()));
}

#[test]
fn head_open_error_names_the_file() {
    assert_eq!(
        open_error_message("nope", "No such file or directory (os error 2)"),
        "nope: No such file or directory (os error 2)"
    );
}

#[test]
fn source_resolution() {
    assert!(matches!(Source::resolve("-"), Source::Stdin));
    match Source::resolve("notes.txt") {
        Source::File(f) => assert_eq!(f, "notes.txt"),
        Source::Stdin => panic!("a file name is not standard input"),
    }
    assert!(matches!(Source::resolve("--"), Source::File(_)));
    assert_eq!(files_or_stdin(vec![]), lines(&["-"]));
    assert_eq!(files_or_stdin(lines(&["x"])), lines(&["x"]));
}

#[test]
fn right_aligned_numbers() {
    assert_eq!(right_aligned_decimal(0, 6), "     0");
    assert_eq!(right_aligned_decimal(42, 6), "    42");
    assert_eq!(right_aligned_decimal(1234567, 6), "1234567");
    assert_eq!(right_aligned_decimal(u64::MAX, 0), "18446744073709551615");
}
