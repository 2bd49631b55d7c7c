//! One build notification, as a sequence of steps.
//!
//! A [`Session`] asks for one remote call at a time.  Its caller makes the
//! call and hands the answer to the next step, until the session asks it to
//! finish.  The session decides which comment to reuse, edit or create, what
//! to tell the broadcaster, and whether to send a build status record.

use vstd::prelude::*;
use vstd::string::*;
use crate::bitbucket::{
    Activity, Bitbucket, Build, BuildLabel, BuildView, Comment, CommentEdit, CommentSubmit,
    Decision, build_record, comment_text, decide, own_comments, text_for,
};
use crate::text::{render_status, status_line};
use crate::{BuildDetails, PullRequest, status_text_or_empty};

verus! {

/// The status that answers a comment that was created.
pub const CREATED: u16 = 201;

/// The status that answers a comment that was edited.
pub const OK: u16 = 200;

/// The status that answers a build status record that was taken.
pub const NO_CONTENT: u16 = 204;

/// The four notifications that a build gives rise to.
#[derive(Debug, Clone, Copy, PartialEq, Eq)]
pub enum Lifecycle {
    Queued,
    Running,
    Success,
    Failure,
}

/// What the comment says on the notification `call`.  A build that is
/// queued and one that is running read the same.
pub open spec fn spec_label_of(call: Lifecycle) -> BuildLabel {
    match call {
        Lifecycle::Queued => BuildLabel::InProgress,
        Lifecycle::Running => BuildLabel::InProgress,
        Lifecycle::Success => BuildLabel::Successful,
        Lifecycle::Failure => BuildLabel::Failed,
    }
}

pub fn label_of(call: Lifecycle) -> (label: BuildLabel)
    ensures
        label == spec_label_of(call),
{
    match call {
        Lifecycle::Queued => BuildLabel::InProgress,
        Lifecycle::Running => BuildLabel::InProgress,
        Lifecycle::Success => BuildLabel::Successful,
        Lifecycle::Failure => BuildLabel::Failed,
    }
}

/// Why a notification failed.  Each variant keeps what the remote side or
/// the transport said.
#[derive(Debug, PartialEq, Eq)]
pub enum Error {
    /// The comments of the pull request could not be listed.
    RemoteList(String),
    /// The comment could not be created or edited.
    RemoteWrite(String),
    /// The build status record could not be sent.
    StatusWrite(String),
    /// The build status record was answered with this status, which is not
    /// the one that acknowledges it.
    StatusRefused(u16),
}

impl Error {
    /// Whether the comment was not brought in step.  The other errors leave
    /// the comment as it should be.
    pub open spec fn spec_is_reconciliation(&self) -> bool {
        self is RemoteList || self is RemoteWrite
    }

    /// The error in words.
    pub open spec fn spec_message(self) -> Seq<char> {
        match self {
            Error::RemoteList(cause) => {
                "Error submitting comment: Error getting list of comments Error getting comments "@
                    + cause@
            },
            Error::RemoteWrite(cause) => {
                "Error submitting comment: Error posting comment "@ + cause@
            },
            Error::StatusWrite(cause) => "Error posting build: Error posting build "@ + cause@,
            Error::StatusRefused(code) => "Error posting build: "@ + status_line(code),
        }
    }

    #[verifier::when_used_as_spec(spec_is_reconciliation)]
    pub fn is_reconciliation(&self) -> (yes: bool)
        ensures
            yes == self.spec_is_reconciliation(),
    {
        match self {
            Error::RemoteList(_) => true,
            Error::RemoteWrite(_) => true,
            _ => false,
        }
    }

    /// The words for a build status record that was answered with the
    /// status that reads `line`.
    pub fn refusal(line: &str) -> (words: String)
        ensures
            words@ == "Error posting build: "@ + line@,
    {
        let mut words = String::from_str("Error posting build: ");
        words.append(line);
        words
    }

    pub fn message(&self) -> (words: String)
        ensures
            words@ == self.spec_message(),
    {
        match self {
            Error::RemoteList(cause) => {
                let mut words = String::from_str(
                    "Error submitting comment: Error getting list of comments Error getting comments ",
                );
                words.append(cause.as_str());
                words
            },
            Error::RemoteWrite(cause) => {
                let mut words = String::from_str(
                    "Error submitting comment: Error posting comment ",
                );
                words.append(cause.as_str());
                words
            },
            Error::StatusWrite(cause) => {
                let mut words = String::from_str("Error posting build: Error posting build ");
                words.append(cause.as_str());
                words
            },
            Error::StatusRefused(code) => {
                let line = render_status(*code);
                Error::refusal(line.as_str())
            },
        }
    }
}

/// How the comment was brought in step, or that it was not.
#[derive(Debug, Clone, Copy, PartialEq, Eq)]
pub enum OutcomeKind {
    Existing,
    Update,
    Post,
    Error,
}

/// The name under which an outcome of kind `kind` is broadcast.
pub open spec fn operation_name(kind: OutcomeKind) -> Seq<char> {
    match kind {
        OutcomeKind::Existing => "Comment::Existing"@,
        OutcomeKind::Update => "Comment::Update"@,
        OutcomeKind::Post => "Comment::Post"@,
        OutcomeKind::Error => "Comment::Error"@,
    }
}

/// What became of the comment, with the pull request and the build that
/// it was about.  `comment` is the comment that now says the desired text;
/// there is none where `kind` is `Error`.
#[derive(Debug, PartialEq, Eq)]
pub struct ReconciliationOutcome {
    pub kind: OutcomeKind,
    pub pr: PullRequest,
    pub build: BuildDetails,
    pub comment: Option<Comment>,
}

impl ReconciliationOutcome {
    /// An outcome carries a comment unless it is an error.
    pub open spec fn well_formed(self) -> bool {
        (self.kind is Error) == (self.comment is None)
    }
}

/// The remote call that a session asks for.
#[allow(inconsistent_fields)]
#[derive(Debug, PartialEq, Eq)]
pub enum Request {
    /// Fetch the comment activity of the pull request from `url`.
    ListComments { url: String },
    /// Create a comment by posting `body` to `url`; `expect` answers success.
    PostComment { url: String, body: CommentSubmit, expect: u16 },
    /// Edit a comment by putting `body` to `url`; `expect` answers success.
    EditComment { url: String, body: CommentEdit, expect: u16 },
    /// Hand `outcome` to the broadcaster under the name `operation`.
    Broadcast { operation: String, outcome: ReconciliationOutcome },
    /// Post the record `build` to `url`.
    PostBuild { url: String, build: Build },
    /// The notification is over, with this result.
    Finish { result: Result<(), Error> },
    /// The answer was not one that the session was waiting for: do nothing.
    Idle,
}

/// What a request says.
pub enum RequestView {
    ListComments { url: Seq<char> },
    PostComment { url: Seq<char>, text: Seq<char>, expect: u16 },
    EditComment { url: Seq<char>, text: Seq<char>, version: i32, expect: u16 },
    Broadcast { operation: Seq<char>, outcome: ReconciliationOutcome },
    PostBuild { url: Seq<char>, build: BuildView },
    Finish { result: Result<(), Error> },
    Idle,
}

impl View for Request {
    type V = RequestView;

    open spec fn view(&self) -> RequestView {
        match *self {
            Request::ListComments { url } => RequestView::ListComments { url: url@ },
            Request::PostComment { url, body, expect } => RequestView::PostComment {
                url: url@,
                text: body.text@,
                expect,
            },
            Request::EditComment { url, body, expect } => RequestView::EditComment {
                url: url@,
                text: body.text@,
                version: body.version,
                expect,
            },
            Request::Broadcast { operation, outcome } => RequestView::Broadcast {
                operation: operation@,
                outcome,
            },
            Request::PostBuild { url, build } => RequestView::PostBuild { url: url@, build: build@ },
            Request::Finish { result } => RequestView::Finish { result },
            Request::Idle => RequestView::Idle,
        }
    }
}

impl RequestView {
    /// Whether the request creates or edits a comment.
    pub open spec fn is_write(self) -> bool {
        self is PostComment || self is EditComment
    }
}

/// The answer to a request.
#[derive(Debug, PartialEq, Eq)]
pub enum Reply {
    /// Nothing was asked yet.
    Start,
    /// The listed activity, or why it could not be listed.
    Comments(Result<Vec<Activity>, String>),
    /// The comment as it stands after the write, or why it was not written.
    Written(Result<Comment, String>),
    /// The outcome was handed to the broadcaster.
    Broadcast,
    /// The status that answered the build status record, or why it could
    /// not be sent.
    BuildPosted(Result<u16, String>),
}

/// How far a session has come.
#[derive(Debug, PartialEq, Eq)]
pub enum Stage {
    /// Nothing was asked yet.
    Ready,
    /// The comments were asked for.
    Listing,
    /// An edit was asked for.
    Editing,
    /// A new comment was asked for.
    Posting,
    /// The broadcast was asked for; `failure` is why the comment is not in
    /// step, if it is not.
    Announcing { failure: Option<Error> },
    /// The build status record was sent.
    Reporting,
    /// The result was handed out.
    Finished,
}

/// One notification under way.
#[derive(Debug, PartialEq, Eq)]
pub struct Session {
    pub bitbucket: Bitbucket,
    pub pr: PullRequest,
    pub build: BuildDetails,
    pub label: BuildLabel,
    pub stage: Stage,
}

impl Session {
    /// A session that has asked for nothing yet.
    pub open spec fn start(
        bitbucket: Bitbucket,
        pr: PullRequest,
        build: BuildDetails,
        label: BuildLabel,
    ) -> Session {
        Session { bitbucket, pr, build, label, stage: Stage::Ready }
    }

    /// The session at another stage.
    pub open spec fn at(self, stage: Stage) -> Session {
        Session { stage, ..self }
    }

    /// The text that the comment is to have.
    pub open spec fn desired_text(self) -> Seq<char> {
        comment_text(
            self.label,
            self.build.web_url@,
            self.pr.from_commit@,
            status_text_or_empty(self.build.status_text),
        )
    }

    /// The outcome of kind `kind` for this session's pull request and build.
    pub open spec fn outcome(self, kind: OutcomeKind, comment: Option<Comment>) -> ReconciliationOutcome {
        ReconciliationOutcome { kind, pr: self.pr, build: self.build, comment }
    }

    /// The request to broadcast that outcome.
    pub open spec fn announce(self, kind: OutcomeKind, comment: Option<Comment>) -> RequestView {
        RequestView::Broadcast {
            operation: operation_name(kind),
            outcome: self.outcome(kind, comment),
        }
    }

    /// What the session does with the listed activity.
    pub open spec fn on_comments(self, activities: Seq<Activity>) -> (Session, RequestView) {
        let credentials = self.bitbucket.credentials;
        let candidates = own_comments(activities, credentials.username@);
        match decide(candidates, self.desired_text(), self.pr.from_commit@) {
            Decision::Existing(comment) => (
                self.at(Stage::Announcing { failure: None }),
                self.announce(OutcomeKind::Existing, Some(comment)),
            ),
            Decision::Update(comment) => (
                self.at(Stage::Editing),
                RequestView::EditComment {
                    url: credentials.comment_url(self.pr.id, comment.id),
                    text: self.desired_text(),
                    version: comment.version,
                    expect: OK,
                },
            ),
            Decision::Post => (
                self.at(Stage::Posting),
                RequestView::PostComment {
                    url: credentials.comments_url(self.pr.id),
                    text: self.desired_text(),
                    expect: CREATED,
                },
            ),
        }
    }

    /// What the session does once a write was answered.  `kind` is the kind
    /// of a write that succeeded.
    pub open spec fn on_written(self, kind: OutcomeKind, written: Result<Comment, String>) -> (
        Session,
        RequestView,
    ) {
        match written {
            Ok(comment) => (
                self.at(Stage::Announcing { failure: None }),
                self.announce(kind, Some(comment)),
            ),
            Err(cause) => (
                self.at(Stage::Announcing { failure: Some(Error::RemoteWrite(cause)) }),
                self.announce(OutcomeKind::Error, None),
            ),
        }
    }

    /// What the session does once the outcome was broadcast.
    pub open spec fn on_broadcast(self, failure: Option<Error>) -> (Session, RequestView) {
        match failure {
            Some(error) => (self.at(Stage::Finished), RequestView::Finish { result: Err(error) }),
            None => if self.bitbucket.credentials.post_build {
                (
                    self.at(Stage::Reporting),
                    RequestView::PostBuild {
                        url: self.bitbucket.credentials.build_status_url(self.pr.from_commit@),
                        build: build_record(self.build),
                    },
                )
            } else {
                (self.at(Stage::Finished), RequestView::Finish { result: Ok(()) })
            },
        }
    }

    /// The result of a notification whose build status record was answered
    /// as `posted` says.
    pub open spec fn status_result(posted: Result<u16, String>) -> Result<(), Error> {
        match posted {
            Ok(code) => if code == NO_CONTENT {
                Ok(())
            } else {
                Err(Error::StatusRefused(code))
            },
            Err(cause) => Err(Error::StatusWrite(cause)),
        }
    }

    /// The session after `reply`, and what it asks for next.  A reply that
    /// the session is not waiting for changes nothing and asks for nothing.
    pub open spec fn spec_step(self, reply: Reply) -> (Session, RequestView) {
        match self.stage {
            Stage::Ready => match reply {
                Reply::Start => (
                    self.at(Stage::Listing),
                    RequestView::ListComments {
                        url: self.bitbucket.credentials.activities_url(self.pr.id),
                    },
                ),
                _ => (self, RequestView::Idle),
            },
            Stage::Listing => match reply {
                Reply::Comments(Ok(activities)) => self.on_comments(activities@),
                Reply::Comments(Err(cause)) => (
                    self.at(Stage::Announcing { failure: Some(Error::RemoteList(cause)) }),
                    self.announce(OutcomeKind::Error, None),
                ),
                _ => (self, RequestView::Idle),
            },
            Stage::Editing => match reply {
                Reply::Written(written) => self.on_written(OutcomeKind::Update, written),
                _ => (self, RequestView::Idle),
            },
            Stage::Posting => match reply {
                Reply::Written(written) => self.on_written(OutcomeKind::Post, written),
                _ => (self, RequestView::Idle),
            },
            Stage::Announcing { failure } => match reply {
                Reply::Broadcast => self.on_broadcast(failure),
                _ => (self, RequestView::Idle),
            },
            Stage::Reporting => match reply {
                Reply::BuildPosted(posted) => (
                    self.at(Stage::Finished),
                    RequestView::Finish { result: Session::status_result(posted) },
                ),
                _ => (self, RequestView::Idle),
            },
            Stage::Finished => (self, RequestView::Idle),
        }
    }
}


/// Names the outcome kind `kind` for the broadcaster.
pub fn operation(kind: OutcomeKind) -> (name: String)
    ensures
        name@ == operation_name(kind),
{
    match kind {
        OutcomeKind::Existing => String::from_str("Comment::Existing"),
        OutcomeKind::Update => String::from_str("Comment::Update"),
        OutcomeKind::Post => String::from_str("Comment::Post"),
        OutcomeKind::Error => String::from_str("Comment::Error"),
    }
}

impl Bitbucket {
    /// The words for a list of pull requests that could not be had.
    pub fn get_pr_list_error(cause: &str) -> (words: String)
        ensures
            words@ == "Error getting list of Pull Requests "@ + cause@,
    {
        let mut words = String::from_str("Error getting list of Pull Requests ");
        words.append(cause);
        words
    }

    /// The request that creates a comment with `text` on the pull request
    /// `pr_id`.
    pub fn post_comment(&self, pr_id: i32, text: String) -> (request: Request)
        ensures
            request@ == (RequestView::PostComment {
                url: self.credentials.comments_url(pr_id),
                text: text@,
                expect: CREATED,
            }),
    {
        Request::PostComment {
            url: self.comments_url(pr_id),
            body: CommentSubmit { text },
            expect: CREATED,
        }
    }

    /// The request that gives `comment`, on the pull request `pr_id`, the
    /// new `text`.  It presents the version that `comment` has.
    pub fn edit_comment(&self, pr_id: i32, comment: &Comment, text: String) -> (request: Request)
        ensures
            request@ == (RequestView::EditComment {
                url: self.credentials.comment_url(pr_id, comment.id),
                text: text@,
                version: comment.version,
                expect: OK,
            }),
    {
        Request::EditComment {
            url: self.comment_url(pr_id, comment.id),
            body: CommentEdit { text, version: comment.version },
            expect: OK,
        }
    }

    /// The request that posts the build status record of `build` against
    /// the head commit of `pr`.
    pub fn post_build(&self, build: &BuildDetails, pr: &PullRequest) -> (request: Request)
        ensures
            request@ == (RequestView::PostBuild {
                url: self.credentials.build_status_url(pr.from_commit@),
                build: build_record(*build),
            }),
    {
        Request::PostBuild {
            url: self.build_status_url(pr.from_commit.as_str()),
            build: Bitbucket::make_build(build),
        }
    }

    /// Opens the session that brings the comment on `pr` in step with
    /// `build`, saying `state` of it.
    pub fn update_pr_build_status_comment(
        &self,
        pr: &PullRequest,
        build: &BuildDetails,
        state: BuildLabel,
    ) -> (session: Session)
        ensures
            session == Session::start(*self, *pr, *build, state),
    {
        Session {
            bitbucket: self.clone(),
            pr: pr.clone(),
            build: build.clone(),
            label: state,
            stage: Stage::Ready,
        }
    }

    /// Opens the session for the notification `call`.
    pub fn notify(&self, call: Lifecycle, pr: &PullRequest, build: &BuildDetails) -> (session:
        Session)
        ensures
            session == Session::start(*self, *pr, *build, spec_label_of(call)),
    {
        self.update_pr_build_status_comment(pr, build, label_of(call))
    }

    pub fn build_queued(&self, pr: &PullRequest, build: &BuildDetails) -> (session: Session)
        ensures
            session == Session::start(*self, *pr, *build, BuildLabel::InProgress),
    {
        self.update_pr_build_status_comment(pr, build, BuildLabel::InProgress)
    }

    /// A running build is told as a queued one is.
    pub fn build_running(&self, pr: &PullRequest, build: &BuildDetails) -> (session: Session)
        ensures
            session == Session::start(*self, *pr, *build, BuildLabel::InProgress),
    {
        self.build_queued(pr, build)
    }

    pub fn build_success(&self, pr: &PullRequest, build: &BuildDetails) -> (session: Session)
        ensures
            session == Session::start(*self, *pr, *build, BuildLabel::Successful),
    {
        self.update_pr_build_status_comment(pr, build, BuildLabel::Successful)
    }

    pub fn build_failure(&self, pr: &PullRequest, build: &BuildDetails) -> (session: Session)
        ensures
            session == Session::start(*self, *pr, *build, BuildLabel::Failed),
    {
        self.update_pr_build_status_comment(pr, build, BuildLabel::Failed)
    }
}

impl Session {
    fn broadcast(&self, kind: OutcomeKind, comment: Option<Comment>) -> (request: Request)
        ensures
            request@ == self.announce(kind, comment),
    {
        Request::Broadcast {
            operation: operation(kind),
            outcome: ReconciliationOutcome {
                kind,
                pr: self.pr.clone(),
                build: self.build.clone(),
                comment,
            },
        }
    }

    fn go(self, stage: Stage) -> (session: Session)
        ensures
            session == self.at(stage),
    {
        Session {
            bitbucket: self.bitbucket,
            pr: self.pr,
            build: self.build,
            label: self.label,
            stage,
        }
    }

    /// Judges the answer to a build status record.
    pub fn judge_status(posted: Result<u16, String>) -> (result: Result<(), Error>)
        ensures
            result == Session::status_result(posted),
    {
        match posted {
            Ok(code) => if code == NO_CONTENT {
                Ok(())
            } else {
                Err(Error::StatusRefused(code))
            },
            Err(cause) => Err(Error::StatusWrite(cause)),
        }
    }

    fn listed(self, activities: Vec<Activity>) -> (next: (Session, Request))
        ensures
            (next.0, next.1@) == self.on_comments(activities@),
    {
        let text = text_for(
            self.label,
            self.build.web_url.as_str(),
            self.pr.from_commit.as_str(),
            &self.build.status_text,
        );
        let candidates = self.bitbucket.get_comments(activities);
        match Bitbucket::classify(candidates, text.as_str(), self.pr.from_commit.as_str()) {
            Decision::Existing(comment) => {
                let request = self.broadcast(OutcomeKind::Existing, Some(comment));
                (self.go(Stage::Announcing { failure: None }), request)
            },
            Decision::Update(comment) => {
                let request = self.bitbucket.edit_comment(self.pr.id, &comment, text);
                (self.go(Stage::Editing), request)
            },
            Decision::Post => {
                let request = self.bitbucket.post_comment(self.pr.id, text);
                (self.go(Stage::Posting), request)
            },
        }
    }

    fn written(self, kind: OutcomeKind, written: Result<Comment, String>) -> (next: (
        Session,
        Request,
    ))
        ensures
            (next.0, next.1@) == self.on_written(kind, written),
    {
        match written {
            Ok(comment) => {
                let request = self.broadcast(kind, Some(comment));
                (self.go(Stage::Announcing { failure: None }), request)
            },
            Err(cause) => {
                let request = self.broadcast(OutcomeKind::Error, None);
                (self.go(Stage::Announcing { failure: Some(Error::RemoteWrite(cause)) }), request)
            },
        }
    }

    fn announced(self, failure: Option<Error>) -> (next: (Session, Request))
        ensures
            (next.0, next.1@) == self.on_broadcast(failure),
    {
        match failure {
            Some(error) => (self.go(Stage::Finished), Request::Finish { result: Err(error) }),
            None => if self.bitbucket.credentials.post_build {
                let request = self.bitbucket.post_build(&self.build, &self.pr);
                (self.go(Stage::Reporting), request)
            } else {
                (self.go(Stage::Finished), Request::Finish { result: Ok(()) })
            },
        }
    }

    /// Takes the answer to the last request and says what to do next.
    pub fn step(self, reply: Reply) -> (next: (Session, Request))
        ensures
            (next.0, next.1@) == self.spec_step(reply),
    {
        let Session { bitbucket, pr, build, label, stage } = self;
        match stage {
            Stage::Ready => {
                let session = Session { bitbucket, pr, build, label, stage: Stage::Ready };
                match reply {
                    Reply::Start => {
                        let url = session.bitbucket.activities_url(session.pr.id);
                        (session.go(Stage::Listing), Request::ListComments { url })
                    },
                    _ => (session, Request::Idle),
                }
            },
            Stage::Listing => {
                let session = Session { bitbucket, pr, build, label, stage: Stage::Listing };
                match reply {
                    Reply::Comments(Ok(activities)) => session.listed(activities),
                    Reply::Comments(Err(cause)) => {
                        let request = session.broadcast(OutcomeKind::Error, None);
                        let failure = Some(Error::RemoteList(cause));
                        (session.go(Stage::Announcing { failure }), request)
                    },
                    _ => (session, Request::Idle),
                }
            },
            Stage::Editing => {
                let session = Session { bitbucket, pr, build, label, stage: Stage::Editing };
                match reply {
                    Reply::Written(written) => session.written(OutcomeKind::Update, written),
                    _ => (session, Request::Idle),
                }
            },
            Stage::Posting => {
                let session = Session { bitbucket, pr, build, label, stage: Stage::Posting };
                match reply {
                    Reply::Written(written) => session.written(OutcomeKind::Post, written),
                    _ => (session, Request::Idle),
                }
            },
            Stage::Announcing { failure } => {
                match reply {
                    Reply::Broadcast => {
                        let session = Session {
                            bitbucket,
                            pr,
                            build,
                            label,
                            stage: Stage::Finished,
                        };
                        session.announced(failure)
                    },
                    _ => (
                        Session { bitbucket, pr, build, label, stage: Stage::Announcing { failure } },
                        Request::Idle,
                    ),
                }
            },
            Stage::Reporting => {
                let session = Session { bitbucket, pr, build, label, stage: Stage::Reporting };
                match reply {
                    Reply::BuildPosted(posted) => {
                        let result = Session::judge_status(posted);
                        (session.go(Stage::Finished), Request::Finish { result })
                    },
                    _ => (session, Request::Idle),
                }
            },
            Stage::Finished => (
                Session { bitbucket, pr, build, label, stage: Stage::Finished },
                Request::Idle,
            ),
        }
    }
}

} // verus!
