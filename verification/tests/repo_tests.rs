use simple_text::config::Config;
use simple_text::errors::RepoError;
use simple_text::repo::{open_repo, RepoEvent, RepoJob, RepoRequest, RepoStage};

fn write_test_config() -> Config {
    Config {
        url: "git@github.com:boomerlen/text-upload.git".to_string(),
        local_dir: "/tmp/test-simple-text".to_string(),
        branch: "test-branch".to_string(),
        buffer_dir_rel: "test-buffers".to_string(),
        ssh_file: "/home/ann/.ssh/id_rsa".to_string(),
    }
}

const LOCAL: &str = "refs/heads/test-branch";
const TRACKING: &str = "refs/remotes/origin/test-branch";
const A: &str = "aaaaaaaaaaaaaaaaaaaaaaaaaaaaaaaaaaaaaaaa";
const B: &str = "bbbbbbbbbbbbbbbbbbbbbbbbbbbbbbbbbbbbbbbb";

fn s(t: &str) -> String {
    t.to_string()
}

fn failed(t: &str) -> RepoEvent {
    RepoEvent::Failed(t.to_string())
}

fn at_head_elsewhere() -> RepoJob {
    open_repo(&write_test_config())
        .advance(RepoEvent::Succeeded)
        .advance(RepoEvent::Head(s("refs/heads/main")))
}

#[test]
fn test_clone_repo() {
    let job = open_repo(&write_test_config());
    assert_eq!(job.request(), RepoRequest::Open { dir: s("/tmp/test-simple-text") });
    let job = job.advance(failed("could not find repository"));
    assert_eq!(
        job.request(),
        RepoRequest::Clone {
            url: s("git@github.com:boomerlen/text-upload.git"),
            dir: s("/tmp/test-simple-text"),
            ssh_file: s("/home/ann/.ssh/id_rsa"),
        }
    );
    let job = job.advance(RepoEvent::Succeeded);
    assert_eq!(job.request(), RepoRequest::ReadHead);
    assert_eq!(job.outcome(), None);
}

#[test]
fn find_local_repo() {
    let job = open_repo(&write_test_config());
    let job = job.advance(RepoEvent::Succeeded);
    assert_eq!(job.request(), RepoRequest::ReadHead);
    let job = job.advance(RepoEvent::Head(s(LOCAL)));
    assert_eq!(job.stage, RepoStage::Ready);
    assert_eq!(job.request(), RepoRequest::Finish);
    assert_eq!(job.outcome(), Some(Ok(())));
}

#[test]
fn job_holds_the_settings_and_both_reference_names() {
    let job = open_repo(&write_test_config());
    assert_eq!(job.url, "git@github.com:boomerlen/text-upload.git");
    assert_eq!(job.dir, "/tmp/test-simple-text");
    assert_eq!(job.ssh_file, "/home/ann/.ssh/id_rsa");
    assert_eq!(job.branch, "test-branch");
    assert_eq!(job.local, LOCAL);
    assert_eq!(job.tracking, TRACKING);
    assert_eq!(job.stage, RepoStage::Opening);
}

#[test]
fn clone_failure_is_reported() {
    let job = open_repo(&write_test_config())
        .advance(failed("absent"))
        .advance(failed("authentication required"));
    assert_eq!(job.request(), RepoRequest::Finish);
    assert_eq!(
        job.outcome(),
        Some(Err(RepoError::CloneFailed(s("authentication required"))))
    );
}

#[test]
fn unreadable_head_is_reported() {
    let job = open_repo(&write_test_config())
        .advance(RepoEvent::Succeeded)
        .advance(failed("Could not get name of current HEAD."));
    assert_eq!(
        job.outcome(),
        Some(Err(RepoError::HeadUnreadable(s("Could not get name of current HEAD."))))
    );
}

#[test]
fn head_elsewhere_creates_the_branch_and_checks_it_out() {
    let job = at_head_elsewhere();
    assert_eq!(job.request(), RepoRequest::FindReference { name: s(TRACKING) });
    let job = job.advance(RepoEvent::Commit(s(A)));
    assert_eq!(job.request(), RepoRequest::FindReference { name: s(LOCAL) });
    let job = job.advance(RepoEvent::Absent);
    assert_eq!(
        job.request(),
        RepoRequest::CreateBranch { branch: s("test-branch"), target: s(A) }
    );
    let job = job.advance(RepoEvent::Succeeded);
    assert_eq!(job.request(), RepoRequest::CheckoutTree { name: s(LOCAL) });
    let job = job.advance(RepoEvent::Succeeded);
    assert_eq!(job.request(), RepoRequest::SetHead { name: s(LOCAL) });
    let job = job.advance(RepoEvent::Succeeded);
    assert_eq!(job.stage, RepoStage::Ready);
    assert_eq!(job.outcome(), Some(Ok(())));
}

#[test]
fn branch_behind_the_remote_is_moved_forward() {
    let job = at_head_elsewhere()
        .advance(RepoEvent::Commit(s(B)))
        .advance(RepoEvent::Commit(s(A)));
    assert_eq!(job.request(), RepoRequest::IsDescendant { commit: s(B), ancestor: s(A) });
    let job = job.advance(RepoEvent::Answer(true));
    assert_eq!(job.request(), RepoRequest::MoveBranch { name: s(LOCAL), target: s(B) });
    let job = job.advance(RepoEvent::Succeeded);
    assert_eq!(job.request(), RepoRequest::CheckoutTree { name: s(LOCAL) });
    let job = job.advance(RepoEvent::Succeeded).advance(RepoEvent::Succeeded);
    assert_eq!(job.outcome(), Some(Ok(())));
}

#[test]
fn branch_level_with_the_remote_is_checked_out_as_it_is() {
    let job = at_head_elsewhere()
        .advance(RepoEvent::Commit(s(A)))
        .advance(RepoEvent::Commit(s(A)));
    assert_eq!(job.request(), RepoRequest::CheckoutTree { name: s(LOCAL) });
}

#[test]
fn branch_that_has_left_the_remote_s_line_is_not_moved() {
    let job = at_head_elsewhere()
        .advance(RepoEvent::Commit(s(B)))
        .advance(RepoEvent::Commit(s(A)))
        .advance(RepoEvent::Answer(false));
    assert_eq!(job.request(), RepoRequest::Finish);
    assert_eq!(job.outcome(), Some(Err(RepoError::CheckoutFailed(s(LOCAL)))));
}

#[test]
fn missing_remote_branch_is_reported() {
    let job = at_head_elsewhere().advance(RepoEvent::Absent);
    assert_eq!(job.request(), RepoRequest::Finish);
    assert_eq!(job.outcome(), Some(Err(RepoError::BranchNotFound(s(TRACKING)))));
}

#[test]
fn later_failures_are_checkout_failures() {
    let why = || failed("why");
    let expected = Some(Err(RepoError::CheckoutFailed(s("why"))));
    let found = || at_head_elsewhere().advance(RepoEvent::Commit(s(B)));
    assert_eq!(at_head_elsewhere().advance(why()).outcome(), expected);
    assert_eq!(found().advance(why()).outcome(), expected);
    assert_eq!(found().advance(RepoEvent::Absent).advance(why()).outcome(), expected);
    let comparing = || found().advance(RepoEvent::Commit(s(A)));
    assert_eq!(comparing().advance(why()).outcome(), expected);
    assert_eq!(
        comparing().advance(RepoEvent::Answer(true)).advance(why()).outcome(),
        expected
    );
    let checking_out = || found().advance(RepoEvent::Absent).advance(RepoEvent::Succeeded);
    assert_eq!(checking_out().advance(why()).outcome(), expected);
    assert_eq!(
        checking_out().advance(RepoEvent::Succeeded).advance(why()).outcome(),
        expected
    );
}

#[test]
fn an_ended_job_takes_no_further_step() {
    let ready = open_repo(&write_test_config())
        .advance(RepoEvent::Succeeded)
        .advance(RepoEvent::Head(s(LOCAL)));
    let kept = ready.clone();
    let ready = ready.advance(RepoEvent::Succeeded).advance(failed("x")).advance(RepoEvent::Absent);
    assert_eq!(ready, kept);

    let lost = at_head_elsewhere().advance(RepoEvent::Absent);
    let kept = lost.clone();
    let lost = lost
        .advance(RepoEvent::Succeeded)
        .advance(RepoEvent::Commit(s(A)))
        .advance(RepoEvent::Head(s(LOCAL)));
    assert_eq!(lost, kept);
}

#[test]
fn a_repo_report_that_answers_nothing_is_ignored() {
    let job = open_repo(&write_test_config());
    let kept = job.clone();
    let job = job
        .advance(RepoEvent::Head(s(LOCAL)))
        .advance(RepoEvent::Absent)
        .advance(RepoEvent::Answer(true))
        .advance(RepoEvent::Commit(s(A)));
    assert_eq!(job, kept);
    let job = job.advance(RepoEvent::Succeeded);
    let kept = job.clone();
    let job = job.advance(RepoEvent::Succeeded);
    assert_eq!(job, kept);
}

#[test]
fn head_is_compared_with_the_full_branch_name() {
    let job = open_repo(&write_test_config())
        .advance(RepoEvent::Succeeded)
        .advance(RepoEvent::Head(s("test-branch")));
    assert_eq!(job.stage, RepoStage::FindingRemote);
}
