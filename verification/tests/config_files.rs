use fterm::config::block::{extract_host, find_host_block};
use fterm::config::files::ConfigFile;
use fterm::config::home::{build_config_args, config_path, get_dir};
use fterm::config::hosts::get_all;
use fterm::config::includes::{include_glob_of, include_patterns, IncludeRequest, IncludeWalk};
use fterm::error::Error;

fn file(path: &str, content: &str) -> ConfigFile {
    ConfigFile::new(String::from(path), String::from(content))
}

#[test]
fn extracts_single_host_block() {
    let config = file("/ssh/config", "Host alpha\n  HostName alpha.example.com\n  User admin\n  Port 22\n\nHost beta\n  HostName beta.example.com\n");
    let result = extract_host("alpha", &[config]).unwrap();
    assert_eq!(
        result,
        "# /ssh/config\nHost alpha\n  HostName alpha.example.com\n  User admin\n  Port 22\n\n"
    );
    assert!(!result.contains("beta.example.com"));
}

#[test]
fn block_fallback_when_host_not_found() {
    let config = file("/ssh/config", "Host other\n  HostName other.example.com\n");
    let result = extract_host("missing", &[config]).unwrap();
    assert_eq!(result, "No config found for missing");
}

#[test]
fn block_from_multiple_files_joined_by_newline() {
    let c1 = file("/ssh/config1", "Host alpha\n  HostName alpha.example.com\n");
    let c2 = file("/ssh/config2", "Host alpha\n  User admin\n");
    let result = extract_host("alpha", &[c1, c2]).unwrap();
    assert_eq!(
        result,
        "# /ssh/config1\nHost alpha\n  HostName alpha.example.com\n\n# /ssh/config2\nHost alpha\n  User admin\n"
    );
}

#[test]
fn block_stops_at_match_and_lowercase_host() {
    let block = find_host_block("target", "Host target\n  HostName t\nmatch exec \"true\"\n  ProxyJump p\n").unwrap();
    assert_eq!(block, "Host target\n  HostName t\n");
    let block = find_host_block("target", "host target\n  User u\nhost next\n").unwrap();
    assert_eq!(block, "host target\n  User u\n");
}

#[test]
fn block_truncated_after_twenty_lines() {
    let mut content = String::from("Host target\n");
    for i in 0..30 {
        content.push_str(&format!("  Option{i} value{i}\n"));
    }
    let block = find_host_block("target", &content).unwrap();
    assert_eq!(block.lines().count(), 22);
    assert!(block.ends_with("  Option19 value19\n  ...\n"));
}

#[test]
fn block_multi_host_line_and_no_match() {
    assert!(find_host_block("bar", "Host foo bar baz\n  HostName shared\n").is_some());
    assert!(find_host_block("ba", "Host foo bar baz\n").is_none());
}

#[test]
fn block_unreadable_file_is_an_error() {
    let bad = ConfigFile::unreadable(String::from("/ssh/gone"), Error::msg(String::from("No such file")));
    let err = extract_host("alpha", &[bad]).unwrap_err();
    assert_eq!(err.full_message(), "failed to read config file: /ssh/gone: No such file");
}

#[test]
fn hosts_sorted_unique_without_wildcards() {
    let c1 = file("/ssh/config1", "Host shared\nHost unique1\nHost *\nHost ?.local\n");
    let c2 = file("/ssh/config2", "host shared\nHost foo bar baz\n");
    let hosts = get_all(&[c1, c2]).unwrap();
    assert_eq!(hosts, vec!["bar", "baz", "foo", "shared", "unique1"]);
}

#[test]
fn hosts_empty_for_comments_only() {
    let hosts = get_all(&[file("/ssh/config", "# Just comments\n\n")]).unwrap();
    assert!(hosts.is_empty());
}

#[test]
fn hosts_unreadable_file_is_an_error() {
    let bad = ConfigFile::unreadable(String::from("/ssh/gone"), Error::msg(String::from("denied")));
    let err = get_all(&[file("/ssh/config", "Host a\n"), bad]).unwrap_err();
    assert_eq!(err.full_message(), "Failed to read config file: /ssh/gone: denied");
}

#[test]
fn ssh_dir_prefers_custom_dir() {
    assert_eq!(get_dir(Some("/custom/ssh"), "/home/u"), "/custom/ssh");
    assert_eq!(get_dir(None, "/home/u"), "/home/u/.ssh");
    assert_eq!(config_path(Some("/custom/ssh"), "/home/u"), "/custom/ssh/config");
}

#[test]
fn config_args_for_custom_default_and_windows() {
    assert_eq!(build_config_args(None, true, "/custom/ssh/config").unwrap(), vec!["/custom/ssh/config"]);
    assert!(build_config_args(None, false, "/home/u/.ssh/config").unwrap().is_empty());
    assert_eq!(
        build_config_args(Some(Ok(String::from("C:/Users/u/.ssh/config"))), false, "/x").unwrap(),
        vec!["C:/Users/u/.ssh/config"]
    );
    let err = build_config_args(Some(Err(Error::msg(String::from("no cygpath")))), false, "/x").unwrap_err();
    assert_eq!(err.full_message(), "failed to convert config path: no cygpath");
}

#[test]
fn include_patterns_of_config_text() {
    let pats = include_patterns("# Include ignored\n  INCLUDE sub\nInclude a.conf b.conf\nIncludeX nope\nHost x\n");
    assert_eq!(pats, vec!["sub", "a.conf", "b.conf"]);
}

#[test]
fn include_globs_resolve_against_home_and_ssh_dir() {
    assert_eq!(include_glob_of("~/.ssh/x", "/home/u/.ssh", "/home/u"), "/home/u/.ssh/x");
    assert_eq!(include_glob_of("/etc/ssh/y", "/home/u/.ssh", "/home/u"), "/etc/ssh/y");
    assert_eq!(include_glob_of("conf.d/*.conf", "/home/u/.ssh", "/home/u"), "/home/u/.ssh/conf.d/*.conf");
}

/// Drive a walk over an in-memory file system.
fn walk(root: &str, files: &[(&str, &str)], globs: &[(&str, &[&str])]) -> Result<Vec<String>, Error> {
    let mut w = IncludeWalk::new(root, "/s", "/h");
    loop {
        match w.next() {
            IncludeRequest::Canonicalize(p) => {
                if let Some(f) = w.canonicalized(&p) {
                    let content = match files.iter().find(|(n, _)| *n == f) {
                        Some((_, c)) => Ok(String::from(*c)),
                        None => Err(Error::msg(String::from("No such file"))),
                    };
                    if let Some(e) = w.read(content) {
                        return Err(e);
                    }
                }
            }
            IncludeRequest::Glob(g) => {
                let found: Vec<String> = match globs.iter().find(|(n, _)| *n == g) {
                    Some((_, ms)) => ms.iter().map(|m| String::from(*m)).collect(),
                    None => Vec::new(),
                };
                if let Some(e) = w.globbed(Ok(found)) {
                    return Err(e);
                }
            }
            IncludeRequest::Done(r) => return r,
        }
    }
}

#[test]
fn include_walk_visits_depth_first_and_skips_cycles() {
    let files = [("/s/config", "Include a b\n"), ("/s/a", "Include config\nHost a\n"), ("/s/b", "Host b\n")];
    let globs: [(&str, &[&str]); 3] = [("/s/a", &["/s/a"]), ("/s/b", &["/s/b"]), ("/s/config", &["/s/config"])];
    let result = walk("/s/config", &files, &globs).unwrap();
    assert_eq!(result, vec!["/s/config", "/s/a", "/s/b"]);
}

#[test]
fn include_walk_reports_unreadable_included_file() {
    let files = [("/s/config", "Include missing\n")];
    let globs: [(&str, &[&str]); 1] = [("/s/missing", &["/s/missing"])];
    let err = walk("/s/config", &files, &globs).unwrap_err();
    assert_eq!(
        err.full_message(),
        "failed to resolve includes from /s/config: failed to resolve includes from /s/missing: Failed to read SSH config: /s/missing: No such file"
    );
}

#[test]
fn include_walk_glob_error_is_reported() {
    let mut w = IncludeWalk::new("/s/config", "/s", "/h");
    let IncludeRequest::Canonicalize(p) = w.next() else { panic!("expected a canonicalize request") };
    let f = w.canonicalized(&p).unwrap();
    assert_eq!(f, "/s/config");
    assert!(w.read(Ok(String::from("Include [bad\n"))).is_none());
    let IncludeRequest::Glob(g) = w.next() else { panic!("expected a glob request") };
    assert_eq!(g, "/s/[bad");
    let err = w.globbed(Err(Error::msg(String::from("invalid range")))).unwrap();
    assert_eq!(
        err.full_message(),
        "failed to resolve includes from /s/config: Invalid glob pattern: /s/[bad: invalid range"
    );
}
