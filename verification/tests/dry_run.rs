use fterm::util::dry_run::{is_scp, is_ssh};

fn args_of(args: &[&str]) -> Vec<String> {
    args.iter().map(|a| String::from(*a)).collect()
}

#[test]
fn ssh_no_dry_run() {
        assert!(!is_ssh(&args_of(&["hostname"])));
        assert!(!is_ssh(&args_of(&["-p", "22", "hostname"])));
    }

#[test]
fn ssh_dry_run_g_flag() {
        assert!(is_ssh(&args_of(&["-G", "hostname"])));
    }

#[test]
fn ssh_dry_run_v_flag() {
        assert!(is_ssh(&args_of(&["-V"])));
    }

#[test]
fn ssh_dry_run_q_flag() {
        assert!(is_ssh(&args_of(&["-Q", "cipher"])));
    }

#[test]
fn ssh_dry_run_help() {
        assert!(is_ssh(&args_of(&["--help"])));
    }

#[test]
fn ssh_empty_args() {
        assert!(!is_ssh(&[]));
    }

#[test]
fn scp_no_dry_run() {
        assert!(!is_scp(&args_of(&["file", "host:path"])));
    }

#[test]
fn scp_dry_run_help() {
        assert!(is_scp(&args_of(&["--help"])));
    }

#[test]
fn scp_dry_run_h_flag() {
        assert!(is_scp(&args_of(&["-h"])));
    }

#[test]
fn scp_empty_args() {
        assert!(!is_scp(&[]));
    }
