use imaginal::trueblue::targets::cli;
use imaginal::trueblue::{self, Target, TrueBlue, DEFAULT_HEIGHT, DEFAULT_WIDTH};

#[test]
fn new_matrix_is_dark_and_full() {
    let tb = TrueBlue::new(Target::CLI);
    assert_eq!(tb.width, DEFAULT_WIDTH);
    assert_eq!(tb.height, DEFAULT_HEIGHT);
    assert_eq!(tb.matrix.len(), 32 * 8);
    assert!(tb.matrix.iter().all(|c| !c));
    assert!(tb.message.is_empty());
    let lines = tb.display();
    assert_eq!(lines.len(), 8);
    assert!(lines.iter().all(|l| l == &".".repeat(32)));
}

#[test]
fn free_new_builds_the_same() {
    let tb = trueblue::new(Target::CLI);
    assert_eq!(tb.matrix.len(), 256);
}

#[test]
fn cli_display_renders_rows() {
    let matrix = vec![true, false, false, true, true, true];
    let lines = cli::display(&matrix, 3, 2);
    assert_eq!(lines, vec!["*..".to_string(), "***".to_string()]);
    assert_eq!(Target::CLI.display(&matrix, 2, 3), vec!["*.", ".*", "**"]);
    assert!(cli::display(&matrix, 3, 0).is_empty());
}
