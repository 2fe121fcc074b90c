use crate_git_revision::resolver::{describe_step, git_dir_step, snapshot_step, GitOutcome, Next};
use crate_git_revision::text::{render, trim_ws};

#[test]
fn test_published() {
    let vcs_info = String::from(
        "{\n  \"git\": {\n    \"sha1\": \"0c5255b6f47649305fcb68edccb285510aec71a7\"\n  },\n  \"path_in_vcs\": \"\"\n}",
    );
    let (out, next) = snapshot_step(Some(&vcs_info));
    assert!(matches!(next, Next::Done));
    let out = render(&out);
    let expected = "cargo:rustc-env=GIT_REVISION=0c5255b6f47649305fcb68edccb285510aec71a7\n";
    println!("{out}");
    println!("{expected}");
    assert_eq!(out, expected);
}

#[test]
fn test_snapshot_minimal() {
    let vcs_info = String::from("{\"git\":{\"sha1\":\"abc123\"}}");
    let (out, next) = snapshot_step(Some(&vcs_info));
    assert!(matches!(next, Next::Done));
    assert_eq!(render(&out), "cargo:rustc-env=GIT_REVISION=abc123\n");
}

#[test]
fn test_snapshot_absent() {
    let (out, next) = snapshot_step(None);
    assert!(out.is_empty());
    assert!(matches!(next, Next::RunGitDir));
}

#[test]
fn test_snapshot_malformed() {
    let vcs_info = String::from("{\"git\": {\"sha1\": ");
    let (out, next) = snapshot_step(Some(&vcs_info));
    assert!(out.is_empty());
    assert!(matches!(next, Next::RunGitDir));
}

#[test]
fn test_snapshot_missing_sha1() {
    let vcs_info = String::from("{\"git\":{},\"path_in_vcs\":\"\"}");
    let (out, next) = snapshot_step(Some(&vcs_info));
    assert!(out.is_empty());
    assert!(matches!(next, Next::RunGitDir));
}

#[test]
fn test_snapshot_sha1_not_a_string() {
    let vcs_info = String::from("{\"git\":{\"sha1\":7}}");
    let (out, next) = snapshot_step(Some(&vcs_info));
    assert!(out.is_empty());
    assert!(matches!(next, Next::RunGitDir));
}

#[test]
fn test_git_dir_at_root() {
    let (out, next) = git_dir_step(GitOutcome::Ran {
        success: true,
        stdout: b".git\n".to_vec(),
    });
    assert!(matches!(next, Next::RunDescribe));
    assert_eq!(
        out,
        vec![
            "cargo:rerun-if-changed=.git/index".to_string(),
            "cargo:rerun-if-changed=.git/HEAD".to_string(),
            "cargo:rerun-if-changed=.git/refs".to_string(),
        ]
    );
}

#[test]
fn test_git_dir_subdir() {
    let (out, next) = git_dir_step(GitOutcome::Ran {
        success: true,
        stdout: b"/home/user/repo/.git\n".to_vec(),
    });
    assert!(matches!(next, Next::RunDescribe));
    assert_eq!(
        render(&out),
        "cargo:rerun-if-changed=/home/user/repo/.git/index\n\
         cargo:rerun-if-changed=/home/user/repo/.git/HEAD\n\
         cargo:rerun-if-changed=/home/user/repo/.git/refs\n"
    );
}

#[test]
fn test_git_dir_spawn_failure() {
    let (out, next) = git_dir_step(GitOutcome::SpawnFailed(String::from(
        "Os { code: 2, kind: NotFound }",
    )));
    assert!(matches!(next, Next::Done));
    assert_eq!(
        out,
        vec![
            "cargo:warning=Error getting git directory to get git revision: Os { code: 2, kind: NotFound }"
                .to_string()
        ]
    );
}

#[test]
fn test_git_dir_not_a_repository() {
    let (out, next) = git_dir_step(GitOutcome::Ran {
        success: false,
        stdout: Vec::new(),
    });
    assert!(matches!(next, Next::Done));
    assert_eq!(
        render(&out),
        "cargo:warning=Error getting git directory to get git revision: \
         the git directory query exited unsuccessfully\n"
    );
}

#[test]
fn test_git_dir_unsuccessful_output_ignored() {
    let (out, next) = git_dir_step(GitOutcome::Ran {
        success: false,
        stdout: b".git\n".to_vec(),
    });
    assert!(matches!(next, Next::Done));
    assert_eq!(out.len(), 1);
    assert!(out[0].starts_with("cargo:warning="));
}

#[test]
fn test_git_dir_output_not_text() {
    let (out, next) = git_dir_step(GitOutcome::Ran {
        success: true,
        stdout: b"\xff.git\n".to_vec(),
    });
    assert!(matches!(next, Next::RunDescribe));
    assert_eq!(
        out[0],
        "cargo:rerun-if-changed=\u{FFFD}.git/index".to_string()
    );
}

#[test]
fn test_describe_clean() {
    let out = describe_step(GitOutcome::Ran {
        success: true,
        stdout: b"deadbeef\n".to_vec(),
    });
    assert_eq!(out, vec!["cargo:rustc-env=GIT_REVISION=deadbeef\n".to_string()]);
}

#[test]
fn test_describe_dirty() {
    let out = describe_step(GitOutcome::Ran {
        success: true,
        stdout: b"deadbeef-dirty\n".to_vec(),
    });
    assert_eq!(
        out,
        vec!["cargo:rustc-env=GIT_REVISION=deadbeef-dirty\n".to_string()]
    );
}

#[test]
fn test_describe_spawn_failure() {
    let out = describe_step(GitOutcome::SpawnFailed(String::from(
        "\"/tmp/build\": Os { code: 2, kind: NotFound }",
    )));
    assert_eq!(
        out,
        vec![
            "cargo:warning=Error getting git revision from \"/tmp/build\": Os { code: 2, kind: NotFound }"
                .to_string()
        ]
    );
}

#[test]
fn test_describe_unsuccessful() {
    let out = describe_step(GitOutcome::Ran {
        success: false,
        stdout: b"fatal: not a git repository\n".to_vec(),
    });
    assert!(out.is_empty());
}

#[test]
fn test_describe_output_not_text() {
    let out = describe_step(GitOutcome::Ran {
        success: true,
        stdout: vec![0xff, 0xfe, 0x00],
    });
    assert!(out.is_empty());
}

#[test]
fn test_resolution_idempotent() {
    let run = || {
        let mut all: Vec<String> = Vec::new();
        let (lines, next) = snapshot_step(None);
        all.extend(lines);
        if matches!(next, Next::RunGitDir) {
            let (lines, next) = git_dir_step(GitOutcome::Ran {
                success: true,
                stdout: b".git\n".to_vec(),
            });
            all.extend(lines);
            if matches!(next, Next::RunDescribe) {
                all.extend(describe_step(GitOutcome::Ran {
                    success: true,
                    stdout: b"deadbeef\n".to_vec(),
                }));
            }
        }
        render(&all)
    };
    let first = run();
    let second = run();
    assert_eq!(first, second);
    assert_eq!(
        first,
        "cargo:rerun-if-changed=.git/index\n\
         cargo:rerun-if-changed=.git/HEAD\n\
         cargo:rerun-if-changed=.git/refs\n\
         cargo:rustc-env=GIT_REVISION=deadbeef\n\n"
    );
}

#[test]
fn test_trim_ws() {
    assert_eq!(trim_ws("  .git \t\n"), ".git");
    assert_eq!(trim_ws(""), "");
    assert_eq!(trim_ws(" \n\t "), "");
    assert_eq!(trim_ws("\u{2003}x\u{2028}"), "x");
    assert_eq!(trim_ws("a b"), "a b");
}

#[test]
fn test_render_empty() {
    assert_eq!(render(&Vec::new()), "");
}
