use fterm::command::flog::{build_log_items, extract_file_path, run_inner, viewer_command_for};
use fterm::error::Error;

#[test]
fn build_log_items_creates_full_path_strings() {
        // Arrange
        let files = vec![
            String::from("/logs/app.log"),
            String::from("/logs/subdir/deep.log.gz"),
        ];

        // Act
        let items = build_log_items(&files);

        // Assert
        assert_eq!(items.len(), 2);
        assert_eq!(items[0], "/logs/app.log");
        assert_eq!(items[1], "/logs/subdir/deep.log.gz");
    }

#[test]
fn build_log_items_empty_list() {
        // Arrange
        let files: Vec<String> = vec![];

        // Act
        let items = build_log_items(&files);

        // Assert
        assert!(items.is_empty());
    }

#[test]
fn extract_file_path_plain_log() {
        // Arrange & Act & Assert — plain file path (file mode)
        assert_eq!(extract_file_path("/logs/app.log"), "/logs/app.log");
    }

#[test]
fn extract_file_path_gz_log() {
        // Arrange & Act & Assert — gz file path (file mode)
        assert_eq!(extract_file_path("/logs/app.log.gz"), "/logs/app.log.gz");
    }

#[test]
fn extract_file_path_search_result_log() {
        // Arrange & Act & Assert — search result with :line:content
        assert_eq!(
            extract_file_path("/logs/app.log:42:some matched content"),
            "/logs/app.log"
        );
    }

#[test]
fn extract_file_path_search_result_gz() {
        // Arrange & Act & Assert — search result from .gz file
        assert_eq!(
            extract_file_path("/logs/app.log.gz:10:matched line"),
            "/logs/app.log.gz"
        );
    }

#[test]
fn extract_file_path_unknown_format() {
        // Arrange & Act & Assert — unknown format returns as-is
        assert_eq!(extract_file_path("some random text"), "some random text");
    }

#[test]
fn output_format_gz_file() {
    // Arrange
    let path = "/logs/test.log.gz";

    // Act
    let cmd = viewer_command_for(path);

    // Assert: .gz files are shown through zcat
    assert_eq!(cmd, "zcat '/logs/test.log.gz' | less");
}

#[test]
fn output_format_plain_log_file() {
    // Arrange
    let path = "/logs/test.log";

    // Act
    let cmd = viewer_command_for(path);

    // Assert: plain files are shown with less
    assert_eq!(cmd, "less '/logs/test.log'");
}

fn logs() -> Vec<String> {
    vec![String::from("/tmp/logs/test.log")]
}

#[test]
fn run_inner_no_log_dir_returns_error_1() {
    let result = run_inner("/tmp/logs/nonexistent_sub", false, &[], |_items: &[String], _prefix: &str| {
        panic!("select_fn should not be called")
    });
    let out = result.unwrap();
    assert_eq!(out.code, 1);
    assert_eq!(out.message.as_deref(), Some("Error: Log directory does not exist: /tmp/logs/nonexistent_sub"));
}

#[test]
fn run_inner_empty_log_dir_returns_1() {
    let result = run_inner("/tmp/logs", true, &[], |_items: &[String], _prefix: &str| {
        panic!("select_fn should not be called")
    });
    let out = result.unwrap();
    assert_eq!(out.code, 1);
    assert_eq!(out.message.as_deref(), Some("No log files found in: /tmp/logs"));
}

#[test]
fn run_inner_selection_returns_less_command_for_log() {
    let result = run_inner("/tmp/logs", true, &logs(), |_items: &[String], _prefix: &str| {
        Ok(Some(String::from("/path/to/file.log")))
    });
    let out = result.unwrap();
    assert_eq!(out.code, 0);
    assert_eq!(out.command.as_deref(), Some("less '/path/to/file.log'"));
}

#[test]
fn run_inner_selection_cancelled_returns_1() {
    let result = run_inner("/tmp/logs", true, &logs(), |_items: &[String], _prefix: &str| Ok(None));
    assert_eq!(result.unwrap().code, 1);
}

#[test]
fn run_inner_selection_empty_string_returns_1() {
    let result = run_inner("/tmp/logs", true, &logs(), |_items: &[String], _prefix: &str| Ok(Some(String::new())));
    assert_eq!(result.unwrap().code, 1);
}

#[test]
fn run_inner_selection_returns_zcat_for_gz() {
    let result = run_inner("/tmp/logs", true, &logs(), |_items: &[String], _prefix: &str| {
        Ok(Some(String::from("/var/log/session.log.gz")))
    });
    let out = result.unwrap();
    assert_eq!(out.code, 0);
    assert_eq!(out.command.as_deref(), Some("zcat '/var/log/session.log.gz' | less"));
}

#[test]
fn run_inner_selection_from_search_result_log() {
    let result = run_inner("/tmp/logs", true, &logs(), |_items: &[String], _prefix: &str| {
        Ok(Some(String::from("/logs/app.log:42:some matched content")))
    });
    let out = result.unwrap();
    assert_eq!(out.code, 0);
    assert_eq!(out.command.as_deref(), Some("less '/logs/app.log'"));
}

#[test]
fn run_inner_selection_from_search_result_gz() {
    let result = run_inner("/tmp/logs", true, &logs(), |_items: &[String], _prefix: &str| {
        Ok(Some(String::from("/logs/app.log.gz:10:matched line")))
    });
    let out = result.unwrap();
    assert_eq!(out.code, 0);
    assert_eq!(out.command.as_deref(), Some("zcat '/logs/app.log.gz' | less"));
}

#[test]
fn run_inner_select_fn_error_propagates() {
    let result = run_inner("/tmp/logs", true, &logs(), |_items: &[String], _prefix: &str| {
        Err(Error::msg(String::from("fzf crashed")))
    });
    let err_msg = result.unwrap_err().full_message();
    assert!(err_msg.contains("fzf crashed") || err_msg.contains("fzf log selection failed"));
    assert_eq!(err_msg, "fzf log selection failed: fzf crashed");
}

#[test]
fn run_inner_hands_every_log_to_the_selection() {
    let files = vec![String::from("/l/a.log"), String::from("/l/b.log.gz")];
    let result = run_inner("/l", true, &files, |items: &[String], prefix: &str| {
        assert_eq!(items, &[String::from("/l/a.log"), String::from("/l/b.log.gz")][..]);
        assert_eq!(prefix, "/l");
        Ok(None)
    });
    assert_eq!(result.unwrap().code, 1);
}
