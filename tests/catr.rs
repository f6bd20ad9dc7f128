use textutils::catr::{
    get_args, number_lines, open_error_message, ArgsError, LineNumberer, Numbering,
};

fn lines(ls: &[&str]) -> Vec<String> {
    ls.iter().map(|l| l.to_string()).collect()
}

#[test]
fn get_args_defaults_to_stdin() {
    let c = get_args(vec![], false, false).unwrap();
    assert_eq!(c.files, lines(&["-"]));
    assert_eq!(c.numbering, Numbering::Off);
}

#[test]
fn get_args_picks_numbering() {
    let c = get_args(lines(&["a.txt", "b.txt"]), true, false).unwrap();
    assert_eq!(c.files, lines(&["a.txt", "b.txt"]));
    assert_eq!(c.numbering, Numbering::All);
    let c = get_args(lines(&["a.txt"]), false, true).unwrap();
    assert_eq!(c.numbering, Numbering::NonBlank);
}

#[test]
fn get_args_rejects_both_numberings() {
    assert_eq!(
        get_args(lines(&["a.txt"]), true, true).unwrap_err(),
        ArgsError::ConflictingNumbering
    );
}

#[test]
fn number_all_lines() {
    let out = number_lines(&lines(&["one", "", "three"]), Numbering::All);
    assert_eq!(out, lines(&["     1\tone", "     2\t", "     3\tthree"]));
}

#[test]
fn number_all_keeps_line_count_and_increases() {
    let input: Vec<String> = (0..25).map(|i| format!("line {}", i)).collect();
    let out = number_lines(&input, Numbering::All);
    assert_eq!(out.len(), input.len());
    for (i, l) in out.iter().enumerate() {
        assert_eq!(*l, format!("{:6}\t{}", i + 1, input[i]));
    }
}

#[test]
fn number_nonblank_skips_empty_lines() {
    let out = number_lines(
        &lines(&["", "a", "", "", "b", " ", "c", ""]),
        Numbering::NonBlank,
    );
    assert_eq!(
        out,
        lines(&["", "     1\ta", "", "", "     2\tb", "     3\t ", "     4\tc", ""])
    );
}

#[test]
fn no_numbering_copies_lines() {
    let input = lines(&["x", "", "\ty"]);
    assert_eq!(number_lines(&input, Numbering::Off), input);
}

#[test]
fn empty_source_prints_nothing() {
    assert!(number_lines(&lines(&[]), Numbering::All).is_empty());
    assert!(number_lines(&lines(&[]), Numbering::NonBlank).is_empty());
}

#[test]
fn wide_numbers_overflow_the_field() {
    let mut n = LineNumberer::new(Numbering::All);
    n.count = 999_999;
    assert_eq!(n.render("x"), "1000000\tx");
    assert_eq!(n.count, 1_000_000);
    assert!(n.can_number());
    n.count = u64::MAX;
    assert!(!n.can_number());
}

#[test]
fn numberer_counts_per_mode() {
    let mut n = LineNumberer::new(Numbering::NonBlank);
    assert_eq!(n.render(""), "");
    assert_eq!(n.count, 0);
    assert_eq!(n.render("hi"), "     1\thi");
    assert_eq!(n.count, 1);
    let mut off = LineNumberer::new(Numbering::Off);
    assert_eq!(off.render("hi"), "hi");
    assert_eq!(off.count, 0);
}

#[test]
fn cat_open_error_names_the_file() {
    assert_eq!(
        open_error_message("missing.txt", "No such file or directory (os error 2)"),
        "Cannot open file missing.txt: No such file or directory (os error 2)"
    );
}
