use simple_text::buffer::{modify_buffer, BufferEvent, BufferRequest};
use simple_text::config::{Config, ConfigError, ConfigField};
use simple_text::errors::{BufferError, Failure, GitError, RepoError};
use simple_text::pipeline::{sync_buffer, Report, Reply, Stage, SyncJob, Task};
use simple_text::publish::{add_buffer, commit_buffer, push_to_repo, Author};
use simple_text::repo::{open_repo, RepoEvent, RepoRequest};

fn write_test_config() -> Config {
    Config {
        url: "git@github.com:boomerlen/text-upload.git".to_string(),
        local_dir: "/tmp/test-simple-text".to_string(),
        branch: "test-branch".to_string(),
        buffer_dir_rel: "test-buffers".to_string(),
        ssh_file: "/home/ann/.ssh/id_rsa".to_string(),
    }
}

fn s(t: &str) -> String {
    t.to_string()
}

fn committed() -> SyncJob {
    sync_buffer(&s("Places"), s("note"))
        .advance(Report::Succeeded)
        .advance(Report::Succeeded)
        .advance(Report::Succeeded)
        .advance(Report::Succeeded)
}

#[test]
fn scenario_empty_mirror_known_category() {
    let conf = write_test_config();
    let mut sync = sync_buffer(&s("Places"), s("Lisbon"));
    assert_eq!(sync.buf_name, "places.md");
    let mut tasks = Vec::new();
    let mut head = s("aaaaaaaaaaaaaaaaaaaaaaaaaaaaaaaaaaaaaaaa");
    let mut commits = Vec::new();
    let mut file = String::new();
    loop {
        let report = match sync.task() {
            Task::EnsureReady => {
                tasks.push("ready");
                let job = open_repo(&conf).advance(RepoEvent::Failed(s("no repository")));
                assert!(matches!(job.request(), RepoRequest::Clone { .. }));
                let job = job
                    .advance(RepoEvent::Succeeded)
                    .advance(RepoEvent::Head(s("refs/heads/test-branch")));
                match job.outcome().unwrap() {
                    Ok(()) => Report::Succeeded,
                    Err(e) => Report::RepoFailed(e),
                }
            }
            Task::ModifyBuffer { buf_name, text } => {
                tasks.push("modify");
                let mut job = modify_buffer(&buf_name, &text, &conf);
                loop {
                    let event = match job.request() {
                        BufferRequest::Probe { .. } => BufferEvent::Found(false),
                        BufferRequest::Append { path, entry } => {
                            assert_eq!(path, "/tmp/test-simple-text/test-buffers/places.md");
                            file.push_str(&entry);
                            BufferEvent::Succeeded
                        }
                        BufferRequest::Finish => break,
                        _ => BufferEvent::Succeeded,
                    };
                    job = job.advance(event);
                }
                match job.outcome().unwrap() {
                    Ok(()) => Report::Succeeded,
                    Err(e) => Report::BufferFailed(e),
                }
            }
            Task::StageBuffer { buf_name } => {
                tasks.push("stage");
                assert_eq!(add_buffer(&buf_name, &conf).path, "test-buffers/places.md");
                Report::Succeeded
            }
            Task::Commit => {
                tasks.push("commit");
                let author = Author { name: s("Ann"), email: s("ann@example.org") };
                let record = commit_buffer(s("tree"), author, head.clone());
                assert_eq!(record.parents(), vec![head.clone()]);
                assert_eq!(record.message.chars().count(), 15);
                head = s("bbbbbbbbbbbbbbbbbbbbbbbbbbbbbbbbbbbbbbbb");
                commits.push(record);
                Report::Succeeded
            }
            Task::Push => {
                tasks.push("push");
                assert_eq!(
                    push_to_repo(&conf).refspec,
                    "refs/heads/test-branch:refs/heads/test-branch"
                );
                Report::Succeeded
            }
            Task::Finish => break,
        };
        sync = sync.advance(report);
    }
    assert_eq!(tasks, vec!["ready", "modify", "stage", "commit", "push"]);
    assert_eq!(file, "\nLisbon\n");
    assert_eq!(commits.len(), 1);
    assert_eq!(commits[0].parent_oid, "aaaaaaaaaaaaaaaaaaaaaaaaaaaaaaaaaaaaaaaa");
    assert_eq!(sync.stage, Stage::Pushed);
    assert!(sync.committed);
    assert_eq!(sync.reply(), Some(Reply { ok: true, body: s("Success!") }));
    assert_eq!(sync.outcome(), Some(Ok(())));
}

#[test]
fn scenario_unknown_category_makes_a_fresh_file() {
    let conf = write_test_config();
    let sync = sync_buffer(&s("Unknown123"), s("stray thought"));
    assert!(sync.buf_name.starts_with("nobuffer/"));
    assert!(sync.buf_name.ends_with(".md"));
    assert_eq!(sync.buf_name.len(), "nobuffer/".len() + 15 + ".md".len());
    let sync = sync.advance(Report::Succeeded);
    let (buf_name, text) = match sync.task() {
        Task::ModifyBuffer { buf_name, text } => (buf_name, text),
        other => panic!("unexpected task {:?}", other),
    };
    assert_eq!(buf_name, sync.buf_name);
    assert_eq!(text, "stray thought");
    let job = modify_buffer(&buf_name, &text, &conf).advance(BufferEvent::Found(false));
    assert_eq!(
        job.request(),
        BufferRequest::CreateParents {
            path: format!("/tmp/test-simple-text/test-buffers/{}", buf_name)
        }
    );
    let job = job.advance(BufferEvent::Succeeded);
    assert!(matches!(job.request(), BufferRequest::Append { .. }));
}

#[test]
fn scenario_encrypt_failure_ends_the_request() {
    let conf = write_test_config();
    let sync = sync_buffer(&s("Misc"), s("secret")).advance(Report::Succeeded);
    let job = modify_buffer(&sync.buf_name, &sync.text, &conf)
        .advance(BufferEvent::Found(true))
        .advance(BufferEvent::Succeeded)
        .advance(BufferEvent::Succeeded)
        .advance(BufferEvent::Failed(s("exit code 2")));
    assert!(job.leaves_plaintext());
    let error = job.outcome().unwrap().unwrap_err();
    assert_eq!(error, BufferError::CryptoFailed(s("exit code 2")));
    let sync = sync.advance(Report::BufferFailed(error));
    assert_eq!(sync.task(), Task::Finish);
    assert!(!sync.committed);
    assert_eq!(
        sync.reply(),
        Some(Reply { ok: false, body: s("crypto failed: exit code 2") })
    );
    assert_eq!(
        sync.outcome(),
        Some(Err(Failure::Buffer(BufferError::CryptoFailed(s("exit code 2")))))
    );
}

#[test]
fn scenario_rejected_push_keeps_the_commit() {
    let sync = committed();
    assert_eq!(sync.stage, Stage::Committed);
    assert!(sync.committed);
    assert_eq!(sync.task(), Task::Push);
    let sync = sync.advance(Report::GitFailed(s("non-fast-forward")));
    assert_eq!(
        sync.stage,
        Stage::Failed(Failure::Git(GitError::PushFailed(s("non-fast-forward"))))
    );
    assert!(sync.committed);
    assert_eq!(sync.task(), Task::Finish);
    assert_eq!(
        sync.reply(),
        Some(Reply { ok: false, body: s("push failed: non-fast-forward") })
    );

    let sync = sync.retry_push();
    assert_eq!(sync.stage, Stage::Committed);
    assert_eq!(sync.task(), Task::Push);
    let sync = sync.advance(Report::Succeeded);
    assert_eq!(sync.stage, Stage::Pushed);
    assert_eq!(sync.task(), Task::Finish);
    assert_eq!(sync.outcome(), Some(Ok(())));
}

#[test]
fn only_a_failed_push_can_be_retried() {
    let staged_failure = sync_buffer(&s("Places"), s("n"))
        .advance(Report::Succeeded)
        .advance(Report::Succeeded)
        .advance(Report::Succeeded)
        .advance(Report::GitFailed(s("no signature")));
    assert_eq!(
        staged_failure.stage,
        Stage::Failed(Failure::Git(GitError::CommitFailed(s("no signature"))))
    );
    let kept = staged_failure.clone();
    assert_eq!(staged_failure.retry_push(), kept);

    let fresh = sync_buffer(&s("Places"), s("n"));
    let kept = fresh.clone();
    assert_eq!(fresh.retry_push(), kept);

    let done = committed().advance(Report::Succeeded);
    let kept = done.clone();
    assert_eq!(done.retry_push(), kept);
}

#[test]
fn tasks_come_in_their_order() {
    let sync = sync_buffer(&s("Food"), s("rice"));
    assert_eq!(sync.stage, Stage::Idle);
    assert_eq!(sync.task(), Task::EnsureReady);
    assert_eq!(sync.clone().outcome(), None);
    assert_eq!(sync.reply(), None);
    let sync = sync.advance(Report::Succeeded);
    assert_eq!(sync.stage, Stage::RepoReady);
    assert_eq!(sync.task(), Task::ModifyBuffer { buf_name: s("food.md"), text: s("rice") });
    let sync = sync.advance(Report::Succeeded);
    assert_eq!(sync.stage, Stage::BufferModified);
    assert_eq!(sync.task(), Task::StageBuffer { buf_name: s("food.md") });
    let sync = sync.advance(Report::Succeeded);
    assert_eq!(sync.stage, Stage::Staged);
    assert!(!sync.committed);
    assert_eq!(sync.task(), Task::Commit);
    let sync = sync.advance(Report::Succeeded);
    assert_eq!(sync.stage, Stage::Committed);
    assert!(sync.committed);
    assert_eq!(sync.task(), Task::Push);
    let sync = sync.advance(Report::Succeeded);
    assert_eq!(sync.stage, Stage::Pushed);
    assert_eq!(sync.task(), Task::Finish);
}

#[test]
fn the_first_failure_ends_the_request() {
    let sync = sync_buffer(&s("Food"), s("rice"))
        .advance(Report::RepoFailed(RepoError::BranchNotFound(s("refs/remotes/origin/x"))));
    assert_eq!(sync.task(), Task::Finish);
    let kept = sync.clone();
    let sync = sync
        .advance(Report::Succeeded)
        .advance(Report::GitFailed(s("later")))
        .advance(Report::BufferFailed(BufferError::IoFailed(s("later"))));
    assert_eq!(sync, kept);
    assert!(!sync.committed);
    assert_eq!(
        sync.reply(),
        Some(Reply { ok: false, body: s("branch not found: refs/remotes/origin/x") })
    );
}

#[test]
fn each_task_fails_under_its_own_kind() {
    let start = || sync_buffer(&s("TTM"), s("t"));
    let ok = || Report::Succeeded;
    let git = || Report::GitFailed(s("why"));

    let sync = start().advance(Report::RepoFailed(RepoError::CloneFailed(s("why"))));
    assert_eq!(sync.outcome(), Some(Err(Failure::Repo(RepoError::CloneFailed(s("why"))))));

    let sync = start().advance(ok()).advance(Report::BufferFailed(BufferError::IoFailed(s("why"))));
    assert_eq!(sync.outcome(), Some(Err(Failure::Buffer(BufferError::IoFailed(s("why"))))));

    let sync = start().advance(ok()).advance(ok()).advance(git());
    assert_eq!(sync.outcome(), Some(Err(Failure::Git(GitError::StageFailed(s("why"))))));

    let sync = start().advance(ok()).advance(ok()).advance(ok()).advance(git());
    assert!(!sync.committed);
    assert_eq!(sync.outcome(), Some(Err(Failure::Git(GitError::CommitFailed(s("why"))))));

    let sync = start().advance(ok()).advance(ok()).advance(ok()).advance(ok()).advance(git());
    assert!(sync.committed);
    assert_eq!(sync.outcome(), Some(Err(Failure::Git(GitError::PushFailed(s("why"))))));
}

#[test]
fn a_pipeline_report_that_answers_nothing_is_ignored() {
    let sync = sync_buffer(&s("TTM"), s("t"));
    let kept = sync.clone();
    let sync = sync
        .advance(Report::GitFailed(s("x")))
        .advance(Report::BufferFailed(BufferError::IoFailed(s("x"))));
    assert_eq!(sync, kept);
    let sync = sync.advance(Report::Succeeded);
    let kept = sync.clone();
    let sync = sync
        .advance(Report::RepoFailed(RepoError::CloneFailed(s("x"))))
        .advance(Report::GitFailed(s("x")));
    assert_eq!(sync, kept);
}

#[test]
fn failures_are_described_with_their_cause() {
    let c = || s("because");
    assert_eq!(RepoError::CloneFailed(c()).describe(), "clone failed: because");
    assert_eq!(RepoError::HeadUnreadable(c()).describe(), "HEAD unreadable: because");
    assert_eq!(RepoError::BranchNotFound(c()).describe(), "branch not found: because");
    assert_eq!(RepoError::CheckoutFailed(c()).describe(), "checkout failed: because");
    assert_eq!(BufferError::CryptoFailed(c()).describe(), "crypto failed: because");
    assert_eq!(BufferError::IoFailed(c()).describe(), "io failed: because");
    assert_eq!(GitError::StageFailed(c()).describe(), "stage failed: because");
    assert_eq!(GitError::CommitFailed(c()).describe(), "commit failed: because");
    assert_eq!(GitError::PushFailed(c()).describe(), "push failed: because");
    assert_eq!(Failure::Repo(RepoError::CloneFailed(c())).describe(), "clone failed: because");
    assert_eq!(Failure::Buffer(BufferError::IoFailed(s(""))).describe(), "io failed: ");
    assert_eq!(Failure::Git(GitError::PushFailed(c())).describe(), "push failed: because");
}

#[test]
fn unreadable_settings_end_the_request_at_any_task() {
    let missing = || Report::ConfigFailed(ConfigError::Missing(ConfigField::Branch));
    let expected = Some(Err(Failure::Config(ConfigError::Missing(ConfigField::Branch))));
    let mut sync = sync_buffer(&s("Misc"), s("m"));
    for done in 0..5 {
        let failed = sync.clone().advance(missing());
        assert_eq!(failed.task(), Task::Finish);
        assert_eq!(failed.committed, done >= 4);
        assert_eq!(
            failed.reply(),
            Some(Reply { ok: false, body: s("setting missing: branch") })
        );
        assert_eq!(failed.outcome(), expected);
        sync = sync.advance(Report::Succeeded);
    }
    let kept = sync.clone();
    assert_eq!(sync.advance(missing()), kept);
}

#[test]
fn a_push_without_settings_can_be_retried() {
    let failed = committed().advance(Report::ConfigFailed(ConfigError::Unreadable(s("gone"))));
    assert!(failed.committed);
    assert_eq!(failed.task(), Task::Finish);
    let again = failed.retry_push();
    assert_eq!(again.task(), Task::Push);
    assert_eq!(again.advance(Report::Succeeded).stage, Stage::Pushed);

    let early = sync_buffer(&s("Misc"), s("m"))
        .advance(Report::ConfigFailed(ConfigError::Unreadable(s("gone"))));
    let kept = early.clone();
    assert_eq!(early.retry_push(), kept);
}
