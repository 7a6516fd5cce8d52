use fterm::runner::RequestLog;
use fterm::runner::{AgentListResult, CommandOutput, CommandRunner, MockCommandRunner};
use fterm::check_types::CheckLevel;
use fterm::validate::identity::FileFacts;
use fterm::validate::proxyjump::{check, is_likely_direct_address};

const HOME: &str = "/home/user";

/// The files of the test machine: everything but `/nonexistent/...` exists,
/// with mode 0600.
fn proxy_probe(path: &str) -> FileFacts {
    FileFacts { exists: !path.starts_with("/nonexistent"), mode: Ok(0o100600) }
}

#[test]
fn no_proxyjump_returns_empty() {
        // Arrange
        let runner = MockCommandRunner::new();
        let output = "hostname example.com\nproxyjump none\n";
        let hosts = vec![String::from("myhost")];
        let mut visited = vec![String::from("myhost")];

        // Act
        let msgs = check(&runner, &mut RequestLog::new(), output, "myhost", &[], &hosts, &mut visited, HOME, &proxy_probe).unwrap();

        // Assert
        assert!(msgs.is_empty());
    }

#[test]
fn circular_reference_returns_error() {
        // Arrange
        let host_a_output =
            "hostname a.example.com\nproxyjump host-b\nuser admin\nport 22\nidentitiesonly yes\n";
        let runner = MockCommandRunner::new().with_ssh_resolve(
            "host-b",
            "hostname b.example.com\nproxyjump host-a\nuser admin\nport 22\nidentitiesonly yes\n",
        );
        let hosts = vec![String::from("host-a"), String::from("host-b")];
        let mut visited = vec![String::from("host-a")];

        // Act
        let msgs = check(&runner, &mut RequestLog::new(), host_a_output, "host-a", &[], &hosts, &mut visited, HOME, &proxy_probe).unwrap();

        // Assert
        assert!(
            msgs.iter()
                .any(|m| m.level == CheckLevel::Error && m.text.contains("Circular"))
        );
    }

#[test]
fn unknown_proxy_not_direct_address_returns_error() {
        // Arrange
        let runner = MockCommandRunner::new();
        let output = "hostname example.com\nproxyjump org.env.bastion.weird\n";
        let hosts = vec![String::from("myhost")];
        let mut visited = vec![String::from("myhost")];

        // Act
        let msgs = check(&runner, &mut RequestLog::new(), output, "myhost", &[], &hosts, &mut visited, HOME, &proxy_probe).unwrap();

        // Assert
        assert!(
            msgs.iter()
                .any(|m| m.level == CheckLevel::Error && m.text.contains("not defined"))
        );
    }

#[test]
fn ipv4_proxy_allowed() {
        // Arrange
        let runner = MockCommandRunner::new();
        let output = "hostname example.com\nproxyjump 192.168.1.1\n";
        let hosts = vec![String::from("myhost")];
        let mut visited = vec![String::from("myhost")];

        // Act
        let msgs = check(&runner, &mut RequestLog::new(), output, "myhost", &[], &hosts, &mut visited, HOME, &proxy_probe).unwrap();

        // Assert
        assert!(
            !msgs
                .iter()
                .any(|m| m.level == CheckLevel::Error && m.text.contains("not defined")),
            "IPv4 address should be allowed: {msgs:?}"
        );
    }

#[test]
fn simple_hostname_proxy_allowed() {
        // Arrange
        let runner = MockCommandRunner::new();
        let output = "hostname example.com\nproxyjump bastion\n";
        let hosts = vec![String::from("myhost")];
        let mut visited = vec![String::from("myhost")];

        // Act
        let msgs = check(&runner, &mut RequestLog::new(), output, "myhost", &[], &hosts, &mut visited, HOME, &proxy_probe).unwrap();

        // Assert
        assert!(
            !msgs
                .iter()
                .any(|m| m.level == CheckLevel::Error && m.text.contains("not defined")),
            "Simple hostname should be allowed: {msgs:?}"
        );
    }

#[test]
fn duplicate_proxy_across_chains_checked_once() {
        // Arrange — host-a and host-b both use shared-proxy
        let output_a = "hostname a.example.com\nproxyjump shared-proxy\nuser admin\nport 22\nidentitiesonly yes\n";
        let output_b = "hostname b.example.com\nproxyjump shared-proxy\nuser admin\nport 22\nidentitiesonly yes\n";
        let runner = MockCommandRunner::new().with_ssh_resolve(
            "shared-proxy",
            "hostname proxy.example.com\nuser admin\nport 22\nidentitiesonly yes\n",
        );
        let hosts = vec![
            String::from("host-a"),
            String::from("host-b"),
            String::from("shared-proxy"),
        ];

        // Act — check host-a first, then host-b
        let mut visited_a = vec![String::from("host-a")];
        let msgs_a = check(&runner, &mut RequestLog::new(), output_a, "host-a", &[], &hosts, &mut visited_a, HOME, &proxy_probe).unwrap();

        let mut visited_b = vec![String::from("host-b")];
        let msgs_b = check(&runner, &mut RequestLog::new(), output_b, "host-b", &[], &hosts, &mut visited_b, HOME, &proxy_probe).unwrap();

        // Assert — both should succeed without errors
        assert!(
            !msgs_a.iter().any(|m| m.level == CheckLevel::Error),
            "host-a should have no errors: {msgs_a:?}"
        );
        assert!(
            !msgs_b.iter().any(|m| m.level == CheckLevel::Error),
            "host-b should have no errors: {msgs_b:?}"
        );
    }

#[test]
fn is_likely_direct_address_ipv4() {
        assert!(is_likely_direct_address("192.168.1.1"));
        assert!(is_likely_direct_address("10.0.0.1"));
    }

#[test]
fn is_likely_direct_address_simple_hostname() {
        assert!(is_likely_direct_address("bastion"));
        assert!(is_likely_direct_address("jumphost"));
    }

#[test]
fn is_likely_direct_address_rejects_fqdn() {
        assert!(!is_likely_direct_address("org.env.host"));
    }

#[test]
fn diamond_of_proxies_is_not_circular() {
    // h -> a -> c and h -> b -> c: c is reached twice, but through no cycle.
    let runner = MockCommandRunner::new()
        .with_ssh_resolve("a", "proxyjump c\n")
        .with_ssh_resolve("b", "proxyjump c\n")
        .with_ssh_resolve("c", "proxyjump none\n");
    let hosts = vec![String::from("h"), String::from("a"), String::from("b"), String::from("c")];
    let mut visited = vec![String::from("h")];
    let msgs = check(&runner, &mut RequestLog::new(), "proxyjump a,b\n", "h", &[], &hosts, &mut visited, HOME, &proxy_probe).unwrap();
    assert!(!msgs.iter().any(|m| m.text.contains("Circular")), "{msgs:?}");
    assert_eq!(visited, vec![String::from("h")]);
}

#[test]
fn cycle_through_second_branch_is_reported_with_its_chain() {
    // h -> a -> h: the chain printed is the path that closes the cycle.
    let runner = MockCommandRunner::new().with_ssh_resolve("a", "proxyjump h\n");
    let hosts = vec![String::from("h"), String::from("a")];
    let mut visited = vec![String::from("h")];
    let msgs = check(&runner, &mut RequestLog::new(), "proxyjump a\n", "h", &[], &hosts, &mut visited, HOME, &proxy_probe).unwrap();
    assert!(msgs.iter().any(|m| m.text == "[a] Circular ProxyJump detected: h -> a -> h"), "{msgs:?}");
}
