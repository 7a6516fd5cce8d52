use fterm::util::splash::{scp_connect_banner, scp_result_banner, ssh_connect_banner, ssh_disconnect_banner, BannerParams};

fn lines_of(args: &[&str]) -> Vec<String> {
    args.iter().map(|a| String::from(*a)).collect()
}

fn empty_params(log_path: &str) -> BannerParams<'_> {
    BannerParams { log_path, ssh_details: &[], agent_keys: &[] }
}

#[test]
fn connect_banner_contains_header() {
        // Arrange
        let banner = ssh_connect_banner(
            BANNER_TIME,
            "server1",
            "alice",
            "server1",
            "22",
            &empty_params("/tmp/log"),
        );

        // Act & Assert
        assert!(banner.contains("fterm SSH Connected"));
    }

#[test]
fn connect_banner_contains_config_name() {
        // Arrange & Act
        let banner = ssh_connect_banner(
            BANNER_TIME,
            "my-alias",
            "alice",
            "10.0.0.1",
            "22",
            &empty_params("/tmp/log"),
        );

        // Assert
        assert!(banner.contains("Config:"));
        assert!(banner.contains("my-alias"));
    }

#[test]
fn connect_banner_contains_target() {
        // Arrange & Act
        let banner = ssh_connect_banner(
            BANNER_TIME,
            "server1",
            "alice",
            "server1",
            "2222",
            &empty_params("/tmp/log"),
        );

        // Assert
        assert!(banner.contains("alice@server1:2222"));
    }

#[test]
fn connect_banner_contains_log_path() {
        // Arrange & Act
        let banner = ssh_connect_banner(
            BANNER_TIME,
            "host",
            "bob",
            "host",
            "22",
            &empty_params("/var/log/fterm/session.log"),
        );

        // Assert
        assert!(banner.contains("/var/log/fterm/session.log"));
    }

#[test]
fn connect_banner_shows_ssh_details() {
        // Arrange
        let details = lines_of(&["ProxyJump bastion", "ForwardAgent yes"]);

        // Act
        let banner = ssh_connect_banner(
            BANNER_TIME,
            "server1",
            "alice",
            "server1",
            "22",
            &BannerParams {
                log_path: "/tmp/log",
                ssh_details: &details,
                agent_keys: &[],
            },
        );

        // Assert
        assert!(banner.contains("SSH Config:"));
        assert!(banner.contains("ProxyJump bastion"));
        assert!(banner.contains("ForwardAgent yes"));
    }

#[test]
fn connect_banner_hides_ssh_details_when_empty() {
        // Arrange & Act
        let banner = ssh_connect_banner(
            BANNER_TIME,
            "server1",
            "alice",
            "server1",
            "22",
            &empty_params("/tmp/log"),
        );

        // Assert
        assert!(!banner.contains("SSH Config:"));
    }

#[test]
fn connect_banner_shows_agent_keys() {
        // Arrange
        let keys = lines_of(&["SHA256:abc123 user@laptop", "SHA256:def456 deploy-key"]);

        // Act
        let banner = ssh_connect_banner(
            BANNER_TIME,
            "server1",
            "alice",
            "server1",
            "22",
            &BannerParams {
                log_path: "/tmp/log",
                ssh_details: &[],
                agent_keys: &keys,
            },
        );

        // Assert
        assert!(banner.contains("Agent Keys:"));
        assert!(banner.contains("SHA256:abc123 user@laptop"));
        assert!(banner.contains("SHA256:def456 deploy-key"));
    }

#[test]
fn connect_banner_hides_agent_keys_when_empty() {
        // Arrange & Act
        let banner = ssh_connect_banner(
            BANNER_TIME,
            "server1",
            "alice",
            "server1",
            "22",
            &empty_params("/tmp/log"),
        );

        // Assert
        assert!(!banner.contains("Agent Keys:"));
    }

#[test]
fn connect_banner_contains_timestamp_label() {
        // Arrange & Act
        let banner = ssh_connect_banner(
            BANNER_TIME,
            "server1",
            "alice",
            "server1",
            "22",
            &empty_params("/tmp/log"),
        );

        // Assert
        assert!(banner.contains("Timestamp:"));
    }

#[test]
fn connect_banner_uses_ansi_colors() {
        // Arrange & Act
        let banner = ssh_connect_banner(
            BANNER_TIME,
            "server1",
            "alice",
            "server1",
            "22",
            &empty_params("/tmp/log"),
        );

        // Assert — verify ANSI escape sequences are present
        assert!(banner.contains("\x1b[32m")); // green
        assert!(banner.contains("\x1b[36m")); // cyan
        assert!(banner.contains("\x1b[0m")); // reset
    }

#[test]
fn disconnect_banner_contains_header() {
        // Arrange & Act
        let banner = ssh_disconnect_banner(BANNER_TIME, "alice", "server1", "5m30s", "/tmp/log");

        // Assert
        assert!(banner.contains("fterm SSH Disconnected"));
    }

#[test]
fn disconnect_banner_contains_target() {
        // Arrange & Act
        let banner = ssh_disconnect_banner(BANNER_TIME, "alice", "server1", "1h2m3s", "/tmp/log");

        // Assert
        assert!(banner.contains("alice@server1"));
    }

#[test]
fn disconnect_banner_contains_duration() {
        // Arrange & Act
        let banner = ssh_disconnect_banner(BANNER_TIME, "bob", "host", "3d 2h15m0s", "/tmp/log");

        // Assert
        assert!(banner.contains("Duration:"));
        assert!(banner.contains("3d 2h15m0s"));
    }

#[test]
fn disconnect_banner_contains_timestamp_label() {
        // Arrange & Act
        let banner = ssh_disconnect_banner(BANNER_TIME, "alice", "server1", "0s", "/tmp/log");

        // Assert
        assert!(banner.contains("Timestamp:"));
    }

#[test]
fn disconnect_banner_uses_ansi_colors() {
        // Arrange & Act
        let banner = ssh_disconnect_banner(BANNER_TIME, "alice", "server1", "10s", "/tmp/log");

        // Assert
        assert!(banner.contains("\x1b[32m")); // green
        assert!(banner.contains("\x1b[36m")); // cyan
    }

#[test]
fn scp_banner_success() {
        // Arrange
        let hosts = lines_of(&["host1", "host2"]);

        // Act
        let banner = scp_result_banner(BANNER_TIME, &hosts, true, "5s", "/tmp/log");

        // Assert
        assert!(banner.contains("SUCCESS"));
        assert!(banner.contains("\x1b[32m")); // green
    }

#[test]
fn scp_banner_failure() {
        // Arrange
        let hosts = lines_of(&["host1"]);

        // Act
        let banner = scp_result_banner(BANNER_TIME, &hosts, false, "3s", "/tmp/log");

        // Assert
        assert!(banner.contains("FAILED"));
        assert!(banner.contains("\x1b[31m")); // red
    }

#[test]
fn scp_banner_contains_header() {
        // Arrange & Act
        let banner = scp_result_banner(BANNER_TIME, &lines_of(&["host1"]), true, "0s", "/tmp/log");

        // Assert
        assert!(banner.contains("fterm SCP Result"));
    }

#[test]
fn scp_banner_lists_hosts() {
        // Arrange
        let hosts = lines_of(&["alpha", "bravo", "charlie"]);

        // Act
        let banner = scp_result_banner(BANNER_TIME, &hosts, true, "5s", "/tmp/log");

        // Assert
        assert!(banner.contains("Hosts:"));
        assert!(banner.contains("alpha"));
        assert!(banner.contains("bravo"));
        assert!(banner.contains("charlie"));
    }

#[test]
fn scp_banner_hides_hosts_when_empty() {
        // Arrange & Act
        let banner = scp_result_banner(BANNER_TIME, &[], true, "0s", "");

        // Assert
        assert!(!banner.contains("Hosts:"));
    }

#[test]
fn scp_banner_success_no_red() {
        // Arrange & Act
        let banner = scp_result_banner(BANNER_TIME, &[], true, "0s", "");

        // Assert — success banner should not contain red
        assert!(!banner.contains("\x1b[31m"));
    }

#[test]
fn scp_banner_failure_no_green_in_header() {
        // Arrange & Act
        let banner = scp_result_banner(BANNER_TIME, &[], false, "0s", "");

        // Assert — failure banner header uses red, not green
        assert!(!banner.contains("\x1b[32m"));
    }

#[test]
fn scp_connect_banner_contains_header() {
        // Arrange & Act
        let banner = scp_connect_banner(BANNER_TIME, "host1_host2", &empty_params("/tmp/log"));

        // Assert
        assert!(banner.contains("fterm SCP Transfer"));
    }

#[test]
fn scp_connect_banner_contains_target() {
        // Arrange & Act
        let banner = scp_connect_banner(BANNER_TIME, "host1_host2", &empty_params("/tmp/log"));

        // Assert
        assert!(banner.contains("host1_host2"));
    }

#[test]
fn scp_connect_banner_contains_log_path() {
        // Arrange & Act
        let banner = scp_connect_banner(BANNER_TIME, "host", &empty_params("/var/log/scp.log"));

        // Assert
        assert!(banner.contains("/var/log/scp.log"));
    }

#[test]
fn scp_connect_banner_shows_ssh_details() {
        // Arrange
        let details = lines_of(&["ProxyJump bastion", "ForwardAgent yes"]);

        // Act
        let banner = scp_connect_banner(
            BANNER_TIME,
            "host",
            &BannerParams {
                log_path: "/tmp/log",
                ssh_details: &details,
                agent_keys: &[],
            },
        );

        // Assert
        assert!(banner.contains("SSH Config:"));
        assert!(banner.contains("ProxyJump bastion"));
    }

#[test]
fn scp_connect_banner_shows_agent_keys() {
        // Arrange
        let keys = lines_of(&["SHA256:abc123 user@laptop"]);

        // Act
        let banner = scp_connect_banner(
            BANNER_TIME,
            "host",
            &BannerParams {
                log_path: "/tmp/log",
                ssh_details: &[],
                agent_keys: &keys,
            },
        );

        // Assert
        assert!(banner.contains("Agent Keys:"));
        assert!(banner.contains("SHA256:abc123 user@laptop"));
    }

/// The time stamped on the banners of these tests.
const BANNER_TIME: &str = "2024-01-02 03:04:05";
