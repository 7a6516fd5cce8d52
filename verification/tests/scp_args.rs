use fterm::util::scp_args::{extract_hosts, extract_user_host_pairs};

fn scp_strs(args: &[&str]) -> Vec<String> {
    args.iter().map(|a| String::from(*a)).collect()
}

#[test]
fn single_remote_host() {
        let result = extract_hosts(&scp_strs(&["local.txt", "server1:/remote/path"]));
        assert_eq!(result, vec!["server1"]);
    }

#[test]
fn user_at_host() {
        let result = extract_hosts(&scp_strs(&["user@server2:/path", "local.txt"]));
        assert_eq!(result, vec!["server2"]);
    }

#[test]
fn multiple_hosts_deduped() {
        let result = extract_hosts(&scp_strs(&["server1:/a", "server2:/b", "server1:/c"]));
        assert_eq!(result, vec!["server1", "server2"]);
    }

#[test]
fn local_file_only() {
        let result = extract_hosts(&scp_strs(&["local1.txt", "local2.txt"]));
        assert!(result.is_empty());
    }

#[test]
fn skip_option_flags() {
        let result = extract_hosts(&scp_strs(&["-P", "22", "-r", "server:/path"]));
        assert_eq!(result, vec!["server"]);
    }

#[test]
fn scp_args_empty_args() {
        let result = extract_hosts(&[]);
        assert!(result.is_empty());
    }

#[test]
fn skip_identity_option() {
        let result = extract_hosts(&scp_strs(&["-i", "/key", "host:/path"]));
        assert_eq!(result, vec!["host"]);
    }

#[test]
fn pairs_no_user() {
        let result = extract_user_host_pairs(&scp_strs(&["host1:/path", "local.txt"]));
        assert_eq!(result, vec![(None, String::from("host1"))]);
    }

#[test]
fn pairs_with_explicit_user() {
        let result = extract_user_host_pairs(&scp_strs(&["alice@host1:/path"]));
        assert_eq!(
            result,
            vec![(Some(String::from("alice")), String::from("host1"))]
        );
    }

#[test]
fn pairs_mixed_user_and_no_user() {
        let result = extract_user_host_pairs(&scp_strs(&["alice@host1:/a", "host2:/b"]));
        assert_eq!(
            result,
            vec![
                (Some(String::from("alice")), String::from("host1")),
                (None, String::from("host2")),
            ]
        );
    }

#[test]
fn pairs_dedup_by_host() {
        let result = extract_user_host_pairs(&scp_strs(&["host1:/a", "alice@host1:/b"]));
        // First occurrence wins
        assert_eq!(result, vec![(None, String::from("host1"))]);
    }

#[test]
fn pairs_empty_args() {
        let result = extract_user_host_pairs(&[]);
        assert!(result.is_empty());
    }
