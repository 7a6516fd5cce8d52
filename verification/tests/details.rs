use fterm::runner::RequestLog;
use fterm::runner::{AgentListResult, CommandOutput, CommandRunner, MockCommandRunner};
use fterm::config::details::get;

#[test]
fn extracts_proxy_jump() {
        // Arrange
        let runner = MockCommandRunner::new().with_ssh_resolve("host", "proxyjump bastion\n");

        // Act
        let result = get(&runner, &mut RequestLog::new(), "host", &[]).unwrap();

        // Assert
        assert_eq!(result, vec!["ProxyJump bastion"]);
    }

#[test]
fn skips_proxy_jump_none() {
        // Arrange
        let runner = MockCommandRunner::new().with_ssh_resolve("host", "proxyjump none\n");

        // Act
        let result = get(&runner, &mut RequestLog::new(), "host", &[]).unwrap();

        // Assert
        assert!(result.is_empty());
    }

#[test]
fn extracts_identity_file() {
        // Arrange
        let runner = MockCommandRunner::new().with_ssh_resolve(
            "host",
            "identityfile ~/.ssh/id_ed25519\nidentityfile ~/.ssh/id_rsa\n",
        );

        // Act
        let result = get(&runner, &mut RequestLog::new(), "host", &[]).unwrap();

        // Assert
        assert_eq!(
            result,
            vec![
                "IdentityFile ~/.ssh/id_ed25519",
                "IdentityFile ~/.ssh/id_rsa",
            ]
        );
    }

#[test]
fn extracts_forward_agent_only_if_yes() {
        // Arrange
        let runner = MockCommandRunner::new().with_ssh_resolve("host", "forwardagent yes\n");

        // Act
        let result = get(&runner, &mut RequestLog::new(), "host", &[]).unwrap();

        // Assert
        assert_eq!(result, vec!["ForwardAgent yes"]);
    }

#[test]
fn skips_forward_agent_no() {
        // Arrange
        let runner = MockCommandRunner::new().with_ssh_resolve("host", "forwardagent no\n");

        // Act
        let result = get(&runner, &mut RequestLog::new(), "host", &[]).unwrap();

        // Assert
        assert!(result.is_empty());
    }

#[test]
fn extracts_proxy_command() {
        // Arrange
        let runner = MockCommandRunner::new()
            .with_ssh_resolve("host", "proxycommand ssh -W %h:%p bastion\n");

        // Act
        let result = get(&runner, &mut RequestLog::new(), "host", &[]).unwrap();

        // Assert
        assert_eq!(result, vec!["ProxyCommand ssh -W %h:%p bastion"]);
    }

#[test]
fn skips_proxy_command_none() {
        // Arrange
        let runner = MockCommandRunner::new().with_ssh_resolve("host", "proxycommand none\n");

        // Act
        let result = get(&runner, &mut RequestLog::new(), "host", &[]).unwrap();

        // Assert
        assert!(result.is_empty());
    }

#[test]
fn extracts_forwarding_settings() {
        // Arrange
        let runner = MockCommandRunner::new().with_ssh_resolve(
            "host",
            "localforward 8080 localhost:80\nremoteforward 9090 localhost:90\ndynamicforward 1080\n",
        );

        // Act
        let result = get(&runner, &mut RequestLog::new(), "host", &[]).unwrap();

        // Assert
        assert_eq!(
            result,
            vec![
                "LocalForward 8080 localhost:80",
                "RemoteForward 9090 localhost:90",
                "DynamicForward 1080",
            ]
        );
    }

#[test]
fn skips_dynamic_forward_none() {
        // Arrange
        let runner = MockCommandRunner::new().with_ssh_resolve("host", "dynamicforward none\n");

        // Act
        let result = get(&runner, &mut RequestLog::new(), "host", &[]).unwrap();

        // Assert
        assert!(result.is_empty());
    }

#[test]
fn extracts_identities_only() {
        // Arrange
        let runner = MockCommandRunner::new().with_ssh_resolve("host", "identitiesonly yes\n");

        // Act
        let result = get(&runner, &mut RequestLog::new(), "host", &[]).unwrap();

        // Assert
        assert_eq!(result, vec!["IdentitiesOnly yes"]);
    }

#[test]
fn handles_mixed_output() {
        // Arrange
        let runner = MockCommandRunner::new().with_ssh_resolve(
            "host",
            "user deploy\nhostname 10.0.0.1\nport 22\nproxyjump bastion\nidentityfile ~/.ssh/id_ed25519\nforwardagent yes\nidentitiesonly yes\n",
        );

        // Act
        let result = get(&runner, &mut RequestLog::new(), "host", &[]).unwrap();

        // Assert
        assert_eq!(
            result,
            vec![
                "ProxyJump bastion",
                "IdentityFile ~/.ssh/id_ed25519",
                "ForwardAgent yes",
                "IdentitiesOnly yes",
            ]
        );
    }
