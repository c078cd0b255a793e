use houdini::exec::{command_line, split_command, exec_verdict, host_verdict, Command, ContainerId, ExecError, ExitCode, HostCommandError, Output, Stdio};
use houdini::image::{image_digest, image_tag, DigestError, ImagePullPolicy, PullOpts};

#[test]
fn test_image_pull_policy_default() {
    match ImagePullPolicy::default() {
        ImagePullPolicy::Pull(o) => {
            assert!(!o.always);
            assert!(o.sha256sum.is_none());
            assert!(o.repo.is_none());
        }
        _ => panic!("default should pull"),
    }
}

#[test]
fn pull_decisions() {
    let lazy = PullOpts { always: false, sha256sum: None, repo: None };
    assert!(!lazy.needs_pull(true));
    assert!(lazy.needs_pull(false));
    let eager = PullOpts { always: true, sha256sum: None, repo: None };
    assert!(eager.needs_pull(true));
}

#[test]
fn image_tags() {
    assert_eq!(image_tag("bash:5.1"), "5.1");
    assert_eq!(image_tag("bash"), "latest");
    assert_eq!(image_tag("quay.io:443/foo:bar"), "443/foo:bar");
}

#[test]
fn image_digests() {
    let digests = vec!["bash@sha256:10203040deadbeef".to_string(), "other@sha256:ff".to_string()];
    assert_eq!(image_digest(&digests), Some("10203040deadbeef".to_string()));
    assert_eq!(image_digest(&vec![]), None);
    assert_eq!(image_digest(&vec!["bash@md5:00".to_string()]), None);
}

#[test]
fn digest_checks() {
    let want = PullOpts { always: true, sha256sum: Some("10203040deadbeef".to_string()), repo: None };
    assert_eq!(want.check_digest(&Some("10203040deadbeef".to_string())), Ok(()));
    assert_eq!(want.check_digest(&Some("ff".to_string())), Err(DigestError::Mismatch));
    assert_eq!(want.check_digest(&None), Err(DigestError::Missing));
    let any = PullOpts { always: true, sha256sum: None, repo: None };
    assert_eq!(any.check_digest(&None), Ok(()));
}

#[test]
fn command_builder() {
    let mut cmd = Command::new("bash".to_string(), "echo");
    cmd.arg("hello").args(&vec!["big".to_string(), "world".to_string()]).tty(true).privileged(true);
    cmd.stdout(Stdio::Piped).stderr(Stdio::Null);
    assert_eq!(cmd.container_id(), "bash");
    assert_eq!(cmd.command_line(), vec!["echo", "hello", "big", "world"]);
    assert!(cmd.is_tty());
    assert!(cmd.is_privileged());
    let plain = Command::new("c".to_string(), "ls");
    assert!(!plain.is_tty());
    assert!(!plain.is_privileged());
    assert_eq!(plain.command_line(), vec!["ls"]);
}

#[test]
fn exec_results() {
    assert!(ExitCode(0).success());
    assert!(!ExitCode(2).success());
    assert_eq!(exec_verdict(Some(0)), Ok(()));
    assert_eq!(exec_verdict(Some(127)), Err(ExecError::Failed(127)));
    assert_eq!(exec_verdict(None), Err(ExecError::UnknownStatus));
    let out = Output::default();
    assert!(out.code.is_none() && out.stdout.is_empty() && out.stderr.is_empty());
    assert_eq!(command_line(&"cat".to_string(), &vec!["/passwd".to_string()]), vec!["cat", "/passwd"]);
}

#[test]
fn host_results() {
    assert_eq!(host_verdict(Some(0), None), Ok(()));
    assert_eq!(host_verdict(Some(1), None), Err(HostCommandError::ExitCode(1)));
    assert_eq!(host_verdict(None, Some(9)), Err(HostCommandError::Signal(9)));
    assert_eq!(host_verdict(None, None), Err(HostCommandError::NoStatus));
}

#[test]
fn container_ids() {
    let id = ContainerId::from("bash".to_string());
    assert_eq!(id.as_str(), "bash");
    let back: String = id.into();
    assert_eq!(back, "bash");
}

#[test]
fn container_command_words() {
    assert_eq!(split_command("sleep infinity"), vec!["sleep", "infinity"]);
    assert_eq!(split_command("  sh\t-c \n 'x'  "), vec!["sh", "-c", "'x'"]);
    assert_eq!(split_command("a\u{3000}b\u{a0}c"), vec!["a", "b", "c"]);
    assert!(split_command("   ").is_empty());
    assert!(split_command("").is_empty());
}
