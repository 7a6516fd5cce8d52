use fterm::logging::filter::{sanitize_line, strip_ansi};

#[test]
fn strip_ansi_plain_text() {
        assert_eq!(strip_ansi("hello world"), "hello world");
    }

#[test]
fn strip_ansi_color_codes() {
        assert_eq!(strip_ansi("\x1b[31mred\x1b[0m text"), "red text");
    }

#[test]
fn strip_ansi_bold_and_reset() {
        assert_eq!(strip_ansi("\x1b[1mbold\x1b[0m"), "bold");
    }

#[test]
fn strip_ansi_cursor_movement() {
        assert_eq!(strip_ansi("\x1b[2Jhello"), "hello");
    }

#[test]
fn strip_ansi_empty_input() {
        assert_eq!(strip_ansi(""), "");
    }

#[test]
fn sanitize_line_plain_text() {
        assert_eq!(sanitize_line("hello world"), "hello world");
    }

#[test]
fn sanitize_line_single_cr() {
        // scp-style: "25%\r100%" → keep last frame "100%"
        assert_eq!(sanitize_line("25%\r100%"), "100%");
    }

#[test]
fn sanitize_line_multiple_cr() {
        assert_eq!(sanitize_line("0%\r50%\r100%"), "100%");
    }

#[test]
fn sanitize_line_trailing_cr() {
        // bare carriage-return at end → empty final frame
        assert_eq!(sanitize_line("done\r"), "");
    }

#[test]
fn sanitize_line_empty() {
        assert_eq!(sanitize_line(""), "");
    }
