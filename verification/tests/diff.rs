use xdiff::diff::{diff_lines, diff_text, render_diff, render_groups, ChangeTag, DiffLine};

fn line(
    tag: ChangeTag,
    old_index: Option<usize>,
    new_index: Option<usize>,
    spans: &[(bool, &str)],
    missing_newline: bool,
) -> DiffLine {
    DiffLine {
        tag,
        old_index,
        new_index,
        spans: spans.iter().map(|(e, s)| (*e, s.to_string())).collect(),
        missing_newline,
    }
}

#[test]
fn equal_texts_have_no_hunk_and_an_empty_diff() {
    for text in ["", "a", "a\n", "foo\nbar\nbaz\n", "\n\n\n"] {
        assert_eq!(render_diff(text, text, false), "");
        assert_eq!(render_diff(text, text, true), "");
        assert_eq!(diff_text(text, text), "");
    }
    let long = "line\n".repeat(500);
    assert_eq!(render_diff(&long, &long, false), "");
}

#[test]
fn diff_is_the_same_when_made_twice() {
    let old = "a\nb\nc\nd\ne\nf\ng\nh\ni\nj\n";
    let new = "a\nB\nc\nd\ne\nf\ng\nh\ni\nJ\nk\n";
    assert_eq!(render_diff(old, new, false), render_diff(old, new, false));
    assert_eq!(render_diff(old, new, true), render_diff(old, new, true));
    assert_ne!(render_diff(old, new, false), "");
}

#[test]
fn changed_last_line_without_terminator() {
    assert_eq!(
        render_diff("foo\nbar", "foo\nbaz", false),
        "1   1    | foo\n2        |-bar    2    |+baz"
    );
}

#[test]
fn changed_word_is_marked_within_its_line() {
    assert_eq!(
        render_diff("the quick fox\n", "the slow fox\n", false),
        "1        |-the quick fox\n    1    |+the slow fox\n"
    );
    let expected = [
        "\u{1b}[2m1   \u{1b}[0m\u{1b}[2m    \u{1b}[0m |\u{1b}[31m\u{1b}[1m-\u{1b}[0m",
        "\u{1b}[31mthe \u{1b}[0m\u{1b}[31m\u{1b}[40m\u{1b}[4mquick\u{1b}[0m\u{1b}[31m fox\n\u{1b}[0m",
        "\u{1b}[2m    \u{1b}[0m\u{1b}[2m1   \u{1b}[0m |\u{1b}[32m\u{1b}[1m+\u{1b}[0m",
        "\u{1b}[32mthe \u{1b}[0m\u{1b}[32m\u{1b}[40m\u{1b}[4mslow\u{1b}[0m\u{1b}[32m fox\n\u{1b}[0m",
    ]
    .join("");
    assert_eq!(render_diff("the quick fox\n", "the slow fox\n", true), expected);
}

#[test]
fn swapped_texts_swap_deletes_and_inserts() {
    assert_eq!(
        render_diff("foo\nbar", "foo\nbaz", false),
        "1   1    | foo\n2        |-bar    2    |+baz"
    );
    assert_eq!(
        render_diff("foo\nbaz", "foo\nbar", false),
        "1   1    | foo\n2        |-baz    2    |+bar"
    );
}

#[test]
fn empty_old_text_gives_inserts_only() {
    assert_eq!(render_diff("", "a\nb\n", false), "    1    |+a\n    2    |+b\n");
}

#[test]
fn empty_new_text_gives_deletes_only() {
    assert_eq!(render_diff("a\nb\n", "", false), "1        |-a\n2        |-b\n");
}

#[test]
fn trailing_newline_alone_changes_the_last_line_only() {
    assert_eq!(
        render_diff("a\nb\nc", "a\nb\nc\n", false),
        "1   1    | a\n2   2    | b\n3        |-c    3    |+c\n"
    );
}

#[test]
fn far_changes_stand_in_hunks_of_their_own() {
    let old = "1\n2\n3\n4\n5\n6\n7\n8\n9\n10\n11\n12\n";
    let new = "one\n2\n3\n4\n5\n6\n7\n8\n9\n10\n11\ntwelve\n";
    let dashes = "-".repeat(80);
    let expected = format!(
        "{}{}\n{}",
        "1        |-1\n    1    |+one\n2   2    | 2\n3   3    | 3\n4   4    | 4\n",
        dashes,
        "9   9    | 9\n10  10   | 10\n11  11   | 11\n12       |-12\n    12   |+twelve\n"
    );
    assert_eq!(render_diff(old, new, false), expected);
}

#[test]
fn line_numbers_wider_than_the_column_are_not_cut() {
    let hunk = vec![line(ChangeTag::Equal, Some(9998), Some(12344), &[(false, "x\n")], false)];
    assert_eq!(render_groups(&vec![hunk], false), "999912345 | x\n");
}

#[test]
fn colours_wrap_every_piece_in_its_style() {
    let hunk = vec![
        line(ChangeTag::Delete, Some(0), None, &[(false, "a "), (true, "b")], true),
        line(ChangeTag::Insert, None, Some(0), &[(true, "c\n")], false),
        line(ChangeTag::Equal, Some(1), Some(1), &[(false, "d\n")], false),
    ];
    let expected = [
        "\u{1b}[2m1   \u{1b}[0m\u{1b}[2m    \u{1b}[0m |\u{1b}[31m\u{1b}[1m-\u{1b}[0m",
        "\u{1b}[31ma \u{1b}[0m\u{1b}[31m\u{1b}[40m\u{1b}[4mb\u{1b}[0m",
        "\u{1b}[2m    \u{1b}[0m\u{1b}[2m1   \u{1b}[0m |\u{1b}[32m\u{1b}[1m+\u{1b}[0m",
        "\u{1b}[32m\u{1b}[40m\u{1b}[4mc\n\u{1b}[0m",
        "\u{1b}[2m2   \u{1b}[0m\u{1b}[2m2   \u{1b}[0m |\u{1b}[1m\u{1b}[2m \u{1b}[0m",
        "\u{1b}[2md\n\u{1b}[0m",
    ]
    .join("");
    assert_eq!(render_groups(&vec![hunk], true), expected);
}

#[test]
fn no_hunks_render_to_nothing() {
    assert_eq!(render_groups(&Vec::new(), false), "");
    assert_eq!(render_groups(&Vec::new(), true), "");
    assert_eq!(render_groups(&vec![Vec::new(), Vec::new()], false), format!("{}\n", "-".repeat(80)));
}

#[test]
fn diff_text_is_one_of_the_two_renderings() {
    let out = diff_text("a\n", "b\n");
    assert!(out == render_diff("a\n", "b\n", false) || out == render_diff("a\n", "b\n", true));
}

#[test]
fn lines_without_terminator_get_none() {
    assert_eq!(render_diff("a", "b", false), "1        |-a    1    |+b");
    let hunk = vec![
        line(ChangeTag::Delete, Some(0), None, &[(false, "a")], true),
        line(ChangeTag::Insert, None, Some(0), &[(false, "b")], true),
    ];
    assert_eq!(render_groups(&vec![hunk], false), "1        |-a    1    |+b");
}

#[test]
fn hunks_hold_three_lines_of_context() {
    let old = "1\n2\n3\n4\n5\n6\n7\n8\n9\n";
    let new = "1\n2\n3\n4\nfive\n6\n7\n8\n9\n";
    let hunks = diff_lines(old, new);
    assert_eq!(hunks.len(), 1);
    let tags: Vec<ChangeTag> = hunks[0].iter().map(|l| l.tag).collect();
    assert_eq!(
        tags,
        vec![
            ChangeTag::Equal,
            ChangeTag::Equal,
            ChangeTag::Equal,
            ChangeTag::Delete,
            ChangeTag::Insert,
            ChangeTag::Equal,
            ChangeTag::Equal,
            ChangeTag::Equal,
        ]
    );
    assert_eq!(hunks[0][0].old_index, Some(1));
    assert_eq!(hunks[0][7].new_index, Some(7));
    assert!(diff_lines(old, old).is_empty());
    assert!(diff_lines("", "").is_empty());
}
