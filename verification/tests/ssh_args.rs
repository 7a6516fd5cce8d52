use fterm::util::ssh_args::{extract_hostname_from_destination, extract_ssh_host};

fn ssh_strs(args: &[&str]) -> Vec<String> {
    args.iter().map(|a| String::from(*a)).collect()
}

#[test]
fn simple_hostname() {
        let result = extract_ssh_host(&ssh_strs(&["myhost"]));
        assert_eq!(result, Some(String::from("myhost")));
    }

#[test]
fn hostname_with_user() {
        let result = extract_ssh_host(&ssh_strs(&["user@myhost"]));
        assert_eq!(result, Some(String::from("user@myhost")));
    }

#[test]
fn hostname_after_port_option() {
        let result = extract_ssh_host(&ssh_strs(&["-p", "22", "myhost"]));
        assert_eq!(result, Some(String::from("myhost")));
    }

#[test]
fn hostname_after_combined_option() {
        let result = extract_ssh_host(&ssh_strs(&["-p22", "myhost"]));
        assert_eq!(result, Some(String::from("myhost")));
    }

#[test]
fn hostname_with_remote_command() {
        // Bug fix Q2: ssh -p 22 hostname command
        let result = extract_ssh_host(&ssh_strs(&["-p", "22", "hostname", "ls", "-la"]));
        assert_eq!(result, Some(String::from("hostname")));
    }

#[test]
fn hostname_after_flag_options() {
        let result = extract_ssh_host(&ssh_strs(&["-v", "-N", "-T", "myhost"]));
        assert_eq!(result, Some(String::from("myhost")));
    }

#[test]
fn hostname_with_identity_and_jump() {
        let result = extract_ssh_host(&ssh_strs(&["-i", "/key", "-J", "bastion", "target"]));
        assert_eq!(result, Some(String::from("target")));
    }

#[test]
fn hostname_with_o_option() {
        let result = extract_ssh_host(&ssh_strs(&["-oStrictHostKeyChecking=no", "myhost"]));
        assert_eq!(result, Some(String::from("myhost")));
    }

#[test]
fn no_hostname() {
        let result = extract_ssh_host(&ssh_strs(&["-V"]));
        assert_eq!(result, None);
    }

#[test]
fn ssh_args_empty_args() {
        let result = extract_ssh_host(&[]);
        assert_eq!(result, None);
    }

#[test]
fn extract_host_from_user_at_host() {
        assert_eq!(extract_hostname_from_destination("user@myhost"), "myhost");
    }

#[test]
fn extract_host_plain() {
        assert_eq!(extract_hostname_from_destination("myhost"), "myhost");
    }
