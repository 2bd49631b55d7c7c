use std::collections::BTreeMap;

use bitbucket_status::bitbucket::{
    Account, Activity, Bitbucket, BitbucketCredentials, Build, BuildLabel, Comment, CommentEdit,
    CommentSubmit,
};
use bitbucket_status::session::{
    operation, Error, Lifecycle, OutcomeKind, ReconciliationOutcome, Reply, Request, Session,
    Stage, CREATED, NO_CONTENT, OK,
};
use bitbucket_status::{BuildDetails, BuildState, BuildStatus, PullRequest, User};

const QUEUED: &str = "⏳ [Build](http://ci/build/314) for commit abc123 queued";
const FAILED: &str = "❌ [Build](http://ci/build/314) for commit abc123 has **failed**: Tests failed: 2";
const SUCCESSFUL: &str =
    "✔️ [Build](http://ci/build/314) for commit abc123 is **successful**: Tests failed: 2";
const ACTIVITIES_URL: &str =
    "https://bb/api/latest/projects/PRJ/repos/repo/pull-requests/42/activities?fromType=COMMENT";
const COMMENTS_URL: &str = "https://bb/api/latest/projects/PRJ/repos/repo/pull-requests/42/comments";

fn bitbucket(post_build: bool) -> Bitbucket {
    Bitbucket::new(&BitbucketCredentials {
        username: "bot".to_string(),
        password: "secret".to_string(),
        base_url: "https://bb".to_string(),
        project_slug: "PRJ".to_string(),
        repo_slug: "repo".to_string(),
        post_build,
    })
}

fn pr() -> PullRequest {
    PullRequest {
        id: 42,
        web_url: "https://bb/projects/PRJ/repos/repo/pull-requests/42".to_string(),
        from_ref: "refs/heads/feature".to_string(),
        from_commit: "abc123".to_string(),
        title: "A feature".to_string(),
        author: User { name: "Alice".to_string(), email: "alice@example.com".to_string() },
    }
}

fn build() -> BuildDetails {
    BuildDetails {
        id: 314,
        build_id: "Project_Build".to_string(),
        web_url: "http://ci/build/314".to_string(),
        state: BuildState::Finished,
        status: BuildStatus::Failure,
        status_text: Some("Tests failed: 2".to_string()),
    }
}

fn account(name: &str) -> Account {
    Account {
        name: name.to_string(),
        email_address: format!("{}@example.com", name),
        id: 9,
        display_name: name.to_uppercase(),
        active: true,
        slug: name.to_string(),
        links: BTreeMap::new(),
    }
}

fn comment(id: i32, version: i32, text: &str) -> Comment {
    Comment {
        id,
        version,
        text: text.to_string(),
        author: account("bot"),
        created_date: 1000,
        updated_date: 2000,
    }
}

fn by_bot(comment: Comment) -> Activity {
    Activity {
        id: comment.id + 100,
        created_date: 500,
        user: account("bot"),
        action: "COMMENTED".to_string(),
        comment_action: Some("ADDED".to_string()),
        comment: Some(comment),
    }
}

fn by_alice(comment: Comment) -> Activity {
    Activity { user: account("alice"), ..by_bot(comment) }
}

fn announce(kind: OutcomeKind, name: &str, comment: Option<Comment>) -> Request {
    Request::Broadcast {
        operation: name.to_string(),
        outcome: ReconciliationOutcome { kind, pr: pr(), build: build(), comment },
    }
}

fn record() -> Build {
    Build {
        state: BuildLabel::Failed,
        key: "Project_Build".to_string(),
        name: "314".to_string(),
        url: "http://ci/build/314".to_string(),
        description: "Tests failed: 2".to_string(),
    }
}

fn listing(post_build: bool, call: Lifecycle) -> Session {
    let session = bitbucket(post_build).notify(call, &pr(), &build());
    let (session, request) = session.step(Reply::Start);
    assert_eq!(request, Request::ListComments { url: ACTIVITIES_URL.to_string() });
    assert_eq!(session.stage, Stage::Listing);
    session
}

#[test]
fn a_session_starts_ready() {
    let session = bitbucket(true).build_failure(&pr(), &build());
    assert_eq!(session.stage, Stage::Ready);
    assert_eq!(session.label, BuildLabel::Failed);
    assert_eq!(session.pr, pr());
    assert_eq!(session.build, build());
    assert_eq!(session.bitbucket, bitbucket(true));
}

#[test]
fn the_four_notifications_choose_the_label() {
    let bitbucket = bitbucket(false);
    assert_eq!(bitbucket.build_queued(&pr(), &build()).label, BuildLabel::InProgress);
    assert_eq!(bitbucket.build_running(&pr(), &build()).label, BuildLabel::InProgress);
    assert_eq!(bitbucket.build_success(&pr(), &build()).label, BuildLabel::Successful);
    assert_eq!(bitbucket.build_failure(&pr(), &build()).label, BuildLabel::Failed);
    assert_eq!(bitbucket.build_running(&pr(), &build()), bitbucket.build_queued(&pr(), &build()));
    assert_eq!(
        bitbucket.notify(Lifecycle::Success, &pr(), &build()),
        bitbucket.update_pr_build_status_comment(&pr(), &build(), BuildLabel::Successful)
    );
}

#[test]
fn redelivery_writes_nothing() {
    let session = listing(false, Lifecycle::Failure);
    let activities = vec![
        by_bot(comment(1, 0, "unrelated")),
        by_bot(comment(2, 4, FAILED)),
        by_bot(comment(3, 0, FAILED)),
    ];
    let (session, request) = session.step(Reply::Comments(Ok(activities)));
    assert_eq!(
        request,
        announce(OutcomeKind::Existing, "Comment::Existing", Some(comment(2, 4, FAILED)))
    );
    assert_eq!(session.stage, Stage::Announcing { failure: None });
    let (session, request) = session.step(Reply::Broadcast);
    assert_eq!(request, Request::Finish { result: Ok(()) });
    assert_eq!(session.stage, Stage::Finished);
}

#[test]
fn a_new_state_edits_the_comment_of_the_commit() {
    let session = listing(false, Lifecycle::Failure);
    let activities = vec![
        by_bot(comment(1, 0, "unrelated")),
        by_bot(comment(2, 4, QUEUED)),
        by_bot(comment(3, 9, "also about abc123")),
    ];
    let (session, request) = session.step(Reply::Comments(Ok(activities)));
    assert_eq!(
        request,
        Request::EditComment {
            url: format!("{}/2", COMMENTS_URL),
            body: CommentEdit { text: FAILED.to_string(), version: 4 },
            expect: 200,
        }
    );
    assert_eq!(session.stage, Stage::Editing);
    let (session, request) = session.step(Reply::Written(Ok(comment(2, 5, FAILED))));
    assert_eq!(
        request,
        announce(OutcomeKind::Update, "Comment::Update", Some(comment(2, 5, FAILED)))
    );
    let (_, request) = session.step(Reply::Broadcast);
    assert_eq!(request, Request::Finish { result: Ok(()) });
}

#[test]
fn a_new_commit_gets_a_new_comment() {
    let session = listing(false, Lifecycle::Queued);
    let activities = vec![by_bot(comment(1, 0, "about fff000")), by_alice(comment(2, 0, QUEUED))];
    let (session, request) = session.step(Reply::Comments(Ok(activities)));
    assert_eq!(
        request,
        Request::PostComment {
            url: COMMENTS_URL.to_string(),
            body: CommentSubmit { text: QUEUED.to_string() },
            expect: 201,
        }
    );
    assert_eq!(session.stage, Stage::Posting);
    let (_, request) = session.step(Reply::Written(Ok(comment(7, 0, QUEUED))));
    assert_eq!(request, announce(OutcomeKind::Post, "Comment::Post", Some(comment(7, 0, QUEUED))));
}

#[test]
fn an_empty_list_gets_a_new_comment() {
    let session = listing(false, Lifecycle::Success);
    let (_, request) = session.step(Reply::Comments(Ok(Vec::new())));
    assert_eq!(
        request,
        Request::PostComment {
            url: COMMENTS_URL.to_string(),
            body: CommentSubmit { text: SUCCESSFUL.to_string() },
            expect: CREATED,
        }
    );
}

#[test]
fn the_exact_match_wins_over_a_mention() {
    let session = listing(false, Lifecycle::Running);
    let activities = vec![by_bot(comment(1, 2, FAILED)), by_bot(comment(2, 4, QUEUED))];
    let (_, request) = session.step(Reply::Comments(Ok(activities)));
    assert_eq!(
        request,
        announce(OutcomeKind::Existing, "Comment::Existing", Some(comment(2, 4, QUEUED)))
    );
}

#[test]
fn running_reads_as_queued() {
    let queued = listing(false, Lifecycle::Queued);
    let running = listing(false, Lifecycle::Running);
    let (_, for_queued) = queued.step(Reply::Comments(Ok(Vec::new())));
    let (_, for_running) = running.step(Reply::Comments(Ok(Vec::new())));
    assert_eq!(for_queued, for_running);
}

#[test]
fn a_list_failure_is_broadcast_and_returned() {
    let session = listing(true, Lifecycle::Failure);
    let (session, request) = session.step(Reply::Comments(Err("timed out".to_string())));
    assert_eq!(request, announce(OutcomeKind::Error, "Comment::Error", None));
    assert_eq!(
        session.stage,
        Stage::Announcing { failure: Some(Error::RemoteList("timed out".to_string())) }
    );
    let (session, request) = session.step(Reply::Broadcast);
    assert_eq!(
        request,
        Request::Finish { result: Err(Error::RemoteList("timed out".to_string())) }
    );
    assert_eq!(session.stage, Stage::Finished);
}

#[test]
fn a_write_failure_is_broadcast_as_an_error() {
    let session = listing(true, Lifecycle::Failure);
    let (session, _) = session.step(Reply::Comments(Ok(vec![by_bot(comment(2, 4, QUEUED))])));
    let (session, request) = session.step(Reply::Written(Err("409 Conflict".to_string())));
    assert_eq!(request, announce(OutcomeKind::Error, "Comment::Error", None));
    let (session, request) = session.step(Reply::Broadcast);
    assert_eq!(
        request,
        Request::Finish { result: Err(Error::RemoteWrite("409 Conflict".to_string())) }
    );
    assert_eq!(session.stage, Stage::Finished);

    let session = listing(true, Lifecycle::Failure);
    let (session, _) = session.step(Reply::Comments(Ok(Vec::new())));
    let (session, request) = session.step(Reply::Written(Err("refused".to_string())));
    assert_eq!(request, announce(OutcomeKind::Error, "Comment::Error", None));
    let (_, request) = session.step(Reply::Broadcast);
    assert_eq!(request, Request::Finish { result: Err(Error::RemoteWrite("refused".to_string())) });
}

#[test]
fn the_status_is_posted_once_after_success_when_enabled() {
    let session = listing(true, Lifecycle::Failure);
    let (session, _) = session.step(Reply::Comments(Ok(vec![by_bot(comment(2, 4, FAILED))])));
    let (session, request) = session.step(Reply::Broadcast);
    assert_eq!(
        request,
        Request::PostBuild {
            url: "https://bb/build-status/1.0/commits/abc123".to_string(),
            build: record(),
        }
    );
    assert_eq!(session.stage, Stage::Reporting);
    let (session, request) = session.step(Reply::Broadcast);
    assert_eq!(request, Request::Idle);
    let (session, request) = session.step(Reply::BuildPosted(Ok(NO_CONTENT)));
    assert_eq!(request, Request::Finish { result: Ok(()) });
    let (_, request) = session.step(Reply::Broadcast);
    assert_eq!(request, Request::Idle);
}

#[test]
fn the_status_is_posted_after_a_write_that_succeeded() {
    let session = listing(true, Lifecycle::Failure);
    let (session, _) = session.step(Reply::Comments(Ok(Vec::new())));
    let (session, _) = session.step(Reply::Written(Ok(comment(7, 0, FAILED))));
    let (_, request) = session.step(Reply::Broadcast);
    assert_eq!(
        request,
        Request::PostBuild {
            url: "https://bb/build-status/1.0/commits/abc123".to_string(),
            build: record(),
        }
    );
}

#[test]
fn the_status_is_not_posted_when_disabled() {
    let session = listing(false, Lifecycle::Failure);
    let (session, _) = session.step(Reply::Comments(Ok(Vec::new())));
    let (session, _) = session.step(Reply::Written(Ok(comment(7, 0, FAILED))));
    let (session, request) = session.step(Reply::Broadcast);
    assert_eq!(request, Request::Finish { result: Ok(()) });
    let (_, request) = session.step(Reply::BuildPosted(Ok(204)));
    assert_eq!(request, Request::Idle);
}

#[test]
fn the_status_is_not_posted_after_a_failure() {
    let session = listing(true, Lifecycle::Failure);
    let (session, _) = session.step(Reply::Comments(Err("down".to_string())));
    let (session, request) = session.step(Reply::Broadcast);
    assert_eq!(request, Request::Finish { result: Err(Error::RemoteList("down".to_string())) });
    let (_, request) = session.step(Reply::Broadcast);
    assert_eq!(request, Request::Idle);
}

#[test]
fn a_refused_status_is_an_error_of_its_own() {
    let session = listing(true, Lifecycle::Failure);
    let (session, _) = session.step(Reply::Comments(Ok(vec![by_bot(comment(2, 4, FAILED))])));
    let (session, _) = session.step(Reply::Broadcast);
    let (session, request) = session.step(Reply::BuildPosted(Ok(200)));
    assert_eq!(request, Request::Finish { result: Err(Error::StatusRefused(200)) });
    assert_eq!(session.stage, Stage::Finished);

    assert_eq!(Session::judge_status(Ok(204)), Ok(()));
    assert_eq!(Session::judge_status(Ok(OK)), Err(Error::StatusRefused(200)));
    assert_eq!(Session::judge_status(Ok(404)), Err(Error::StatusRefused(404)));
    assert_eq!(
        Session::judge_status(Err("broken pipe".to_string())),
        Err(Error::StatusWrite("broken pipe".to_string()))
    );
}

#[test]
fn an_answer_out_of_turn_changes_nothing() {
    let session = bitbucket(true).build_queued(&pr(), &build());
    let (session, request) = session.step(Reply::Broadcast);
    assert_eq!(request, Request::Idle);
    assert_eq!(session, bitbucket(true).build_queued(&pr(), &build()));
    let (session, request) = session.step(Reply::Comments(Ok(Vec::new())));
    assert_eq!(request, Request::Idle);
    let (session, _) = session.step(Reply::Start);
    let (session, request) = session.step(Reply::Start);
    assert_eq!(request, Request::Idle);
    assert_eq!(session.stage, Stage::Listing);
    let (session, request) = session.step(Reply::Written(Ok(comment(1, 0, QUEUED))));
    assert_eq!(request, Request::Idle);
    assert_eq!(session.stage, Stage::Listing);
    let (session, _) = session.step(Reply::Comments(Ok(Vec::new())));
    let (session, request) = session.step(Reply::Comments(Ok(Vec::new())));
    assert_eq!(request, Request::Idle);
    assert_eq!(session.stage, Stage::Posting);
}

#[test]
fn errors_are_worded() {
    assert_eq!(
        Error::RemoteList("timed out".to_string()).message(),
        "Error submitting comment: Error getting list of comments Error getting comments timed out"
    );
    assert_eq!(
        Error::RemoteWrite("409 Conflict".to_string()).message(),
        "Error submitting comment: Error posting comment 409 Conflict"
    );
    assert_eq!(
        Error::StatusWrite("broken pipe".to_string()).message(),
        "Error posting build: Error posting build broken pipe"
    );
    assert_eq!(Error::refusal("418 I'm a teapot"), "Error posting build: 418 I'm a teapot");
}

#[test]
fn a_refused_status_is_worded_with_its_reason() {
    assert_eq!(Error::StatusRefused(404).message(), "Error posting build: 404 Not Found");
    assert_eq!(Error::StatusRefused(200).message(), "Error posting build: 200 OK");
    assert_eq!(
        Error::StatusRefused(799).message(),
        "Error posting build: 799 <unknown status code>"
    );
}

#[test]
fn reconciliation_errors_are_told_apart() {
    assert!(Error::RemoteList(String::new()).is_reconciliation());
    assert!(Error::RemoteWrite(String::new()).is_reconciliation());
    assert!(!Error::StatusWrite(String::new()).is_reconciliation());
    assert!(!Error::StatusRefused(500).is_reconciliation());
}

#[test]
fn the_broadcast_goes_under_the_bare_operation_name() {
    let session = listing(false, Lifecycle::Queued);
    let (_, request) = session.step(Reply::Comments(Ok(vec![by_bot(comment(2, 4, QUEUED))])));
    match request {
        Request::Broadcast { operation, outcome } => {
            assert_eq!(operation, "Comment::Existing");
            assert_eq!(operation, bitbucket_status::session::operation(outcome.kind));
        },
        other => panic!("a broadcast was due, not {:?}", other),
    }
}

#[test]
fn operations_are_named() {
    assert_eq!(operation(OutcomeKind::Existing), "Comment::Existing");
    assert_eq!(operation(OutcomeKind::Update), "Comment::Update");
    assert_eq!(operation(OutcomeKind::Post), "Comment::Post");
    assert_eq!(operation(OutcomeKind::Error), "Comment::Error");
}
