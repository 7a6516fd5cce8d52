use fterm::util::fzf::{build_args, Options};

fn default_opts() -> Options {
    Options {
        height: String::from("40%"),
        reverse: false,
        exact: false,
        ansi: false,
        prompt: String::from("Test> "),
        header: None,
        preview: None,
        preview_window: None,
        border: None,
        margin: None,
        delimiter: None,
        nth: None,
        bind: vec![],
    }
}

#[test]
fn build_args_minimal() {
        // Arrange
        let opts = default_opts();

        // Act
        let args = build_args(&opts);

        // Assert
        assert_eq!(args, vec!["--height", "40%", "--prompt", "Test> "]);
    }

#[test]
fn build_args_with_reverse() {
        // Arrange
        let mut opts = default_opts();
        opts.reverse = true;

        // Act
        let args = build_args(&opts);

        // Assert
        assert!(args.contains(&String::from("--reverse")));
    }

#[test]
fn build_args_with_preview() {
        // Arrange
        let mut opts = default_opts();
        opts.preview = Some(String::from("cat {}"));
        opts.preview_window = Some(String::from("right:50%"));

        // Act
        let args = build_args(&opts);

        // Assert
        let preview_idx = args.iter().position(|a| a == "--preview").unwrap();
        assert_eq!(args[preview_idx + 1], "cat {}");
        let pw_idx = args.iter().position(|a| a == "--preview-window").unwrap();
        assert_eq!(args[pw_idx + 1], "right:50%");
    }

#[test]
fn build_args_with_border_and_margin() {
        // Arrange
        let mut opts = default_opts();
        opts.border = Some(String::from("rounded"));
        opts.margin = Some(String::from("0,1"));

        // Act
        let args = build_args(&opts);

        // Assert
        let border_idx = args.iter().position(|a| a == "--border").unwrap();
        assert_eq!(args[border_idx + 1], "rounded");
        let margin_idx = args.iter().position(|a| a == "--margin").unwrap();
        assert_eq!(args[margin_idx + 1], "0,1");
    }

#[test]
fn build_args_with_multiple_binds() {
        // Arrange
        let mut opts = default_opts();
        opts.bind = vec![
            String::from("ctrl-s:reload(rg {q})"),
            String::from("ctrl-f:reload(find .)"),
        ];

        // Act
        let args = build_args(&opts);

        // Assert
        let bind_indices: Vec<usize> = args
            .iter()
            .enumerate()
            .filter(|(_, a)| *a == "--bind")
            .map(|(i, _)| i)
            .collect();
        assert_eq!(bind_indices.len(), 2);
        assert_eq!(args[bind_indices[0] + 1], "ctrl-s:reload(rg {q})");
        assert_eq!(args[bind_indices[1] + 1], "ctrl-f:reload(find .)");
    }

#[test]
fn build_args_all_options() {
        // Arrange
        let opts = Options {
            height: String::from("80%"),
            reverse: true,
            exact: true,
            ansi: true,
            prompt: String::from("SSH> "),
            header: Some(String::from("Press ctrl-s to search")),
            preview: Some(String::from("echo {}")),
            preview_window: Some(String::from("right:60%")),
            border: Some(String::from("rounded")),
            margin: Some(String::from("1,2")),
            delimiter: Some(String::from(":")),
            nth: Some(String::from("1")),
            bind: vec![String::from("ctrl-a:toggle-all")],
        };

        // Act
        let args = build_args(&opts);

        // Assert
        assert_eq!(
            args,
            vec![
                "--height",
                "80%",
                "--reverse",
                "--exact",
                "--ansi",
                "--prompt",
                "SSH> ",
                "--header",
                "Press ctrl-s to search",
                "--preview",
                "echo {}",
                "--preview-window",
                "right:60%",
                "--border",
                "rounded",
                "--margin",
                "1,2",
                "--delimiter",
                ":",
                "--nth",
                "1",
                "--bind",
                "ctrl-a:toggle-all",
            ]
        );
    }
