use neofetch::ansi::ascii_len;
use neofetch::ansi::sgr_closed_exec;
use neofetch::color::cursor_backward;
use neofetch::color::cursor_down;
use neofetch::color::cursor_forward;
use neofetch::color::cursor_up;
use neofetch::join;

#[test]
fn test_cursor_codes() {
    assert_eq!(cursor_up(5), "\u{1b}[5A");
    assert_eq!(cursor_down(0), "\u{1b}[0B");
    assert_eq!(cursor_forward(12), "\u{1b}[12C");
    assert_eq!(cursor_backward(3), "\u{1b}[3D");
}

#[test]
fn test_ascii_len_strips_color_codes() {
    assert_eq!(ascii_len("hello"), 5);
    assert_eq!(ascii_len("\u{1b}[31mhello\u{1b}[0m"), 5);
    assert_eq!(ascii_len("\u{1b}[92m\u{1b}[1mab\u{1b}[0m"), 2);
    assert_eq!(ascii_len(""), 0);
}

// The same measurements that a dedicated width crate makes of strings whose
// escapes are color codes and whose text is plain.
#[test]
fn test_ascii_len_matches_ansi_width() {
    for s in [
        "hello",
        "\u{1b}[31mhello\u{1b}[0m",
        "\u{1b}[92m\u{1b}[1mab\u{1b}[0m",
        "",
        "x \u{1b}[103my\u{1b}[0m z",
    ] {
        assert_eq!(ascii_len(s), ansi_width::ansi_width(s));
    }
}

#[test]
fn test_sgr_closed() {
    assert!(sgr_closed_exec("plain"));
    assert!(sgr_closed_exec("\u{1b}[31mred\u{1b}[0m"));
    assert!(!sgr_closed_exec("broken \u{1b}[31"));
}

// Height reconciliation, right column taller: the printed block has
// max(3, 7) = 7 rows before the cursor returns to the top.
#[test]
fn test_join_right_taller() {
    let out = join("a\nb\nc".to_string(), "1\n2\n3\n4\n5\n6\n7".to_string());
    let expected = "a   \nb   \nc   \n    \n    \n    \n    \n\u{1b}[7A\
        \u{1b}[4C1\n\u{1b}[4C2\n\u{1b}[4C3\n\u{1b}[4C4\n\u{1b}[4C5\n\u{1b}[4C6\n\u{1b}[4C7\n\
        \u{1b}[0B";
    assert_eq!(out, expected);
    let block: String = out.split("\u{1b}[7A").next().unwrap().to_string();
    assert_eq!(block.lines().count(), 7);
}

// Height reconciliation, left column taller: 7 rows again, and the final
// cursor-down makes up the 4 rows the right column is short.
#[test]
fn test_join_left_taller() {
    let out = join(
        "a\nb\nc\nd\ne\nf\ng".to_string(),
        "1\n2\n3".to_string(),
    );
    let expected = "a   \nb   \nc   \nd   \ne   \nf   \ng   \n\u{1b}[7A\
        \u{1b}[4C1\n\u{1b}[4C2\n\u{1b}[4C3\n\u{1b}[4B";
    assert_eq!(out, expected);
    let block: String = out.split("\u{1b}[7A").next().unwrap().to_string();
    assert_eq!(block.lines().count(), 7);
}

// Visible-width invariant: the padding after each left line is measured
// with the color codes stripped, so the right column starts at the same
// column in both rows.
#[test]
fn test_join_pads_by_visible_width() {
    let left = "\u{1b}[31mab\u{1b}[0m\nabc".to_string();
    let out = join(left, "x".to_string());
    let expected = "\u{1b}[31mab\u{1b}[0m    \nabc   \n\u{1b}[2A\u{1b}[6Cx\n\u{1b}[1B";
    assert_eq!(out, expected);
    let rows: Vec<&str> = out.lines().take(2).collect();
    assert_eq!(ascii_len(rows[0]), ascii_len(rows[1]));
    assert_eq!(ascii_len(rows[0]), 6);
}

#[test]
fn test_join_empty_inputs() {
    let out = join(String::new(), String::new());
    assert_eq!(out, "\u{1b}[0A\u{1b}[0B");
}

#[test]
fn test_join_trailing_newline() {
    let out = join("a\n".to_string(), "b".to_string());
    assert_eq!(out, "a   \n\u{1b}[1A\u{1b}[4Cb\n\u{1b}[0B");
}
