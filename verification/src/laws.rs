//! What holds of every notification, whatever the remote side answers.
//!
//! A run is a session together with the answers it is handed, in order.
//! The laws below speak of the requests that a run gives rise to.

use vstd::prelude::*;
use crate::bitbucket::{
    Activity, BuildLabel, Comment, Decision, build_record, comment_text, decide, first_exact,
    first_mention, label_for, own_comments, text_for,
};
use crate::session::{
    Error, OutcomeKind, Reply, RequestView, Session, Stage, operation_name, CREATED, OK,
};
use crate::{BuildState, BuildStatus};

verus! {

/// The session after it was handed `replies`, one by one.
pub open spec fn after(session: Session, replies: Seq<Reply>) -> Session
    decreases replies.len(),
{
    if replies.len() == 0 {
        session
    } else {
        after(session, replies.drop_last()).spec_step(replies.last()).0
    }
}

/// The requests that the session makes when it is handed `replies`, one by
/// one: the request at `k` answers the reply at `k`.
pub open spec fn run(session: Session, replies: Seq<Reply>) -> Seq<RequestView> {
    Seq::new(
        replies.len(),
        |k: int| after(session, replies.take(k)).spec_step(replies[k]).1,
    )
}

/// How far a stage is from the start.
pub open spec fn rank(stage: Stage) -> int {
    match stage {
        Stage::Ready => 0,
        Stage::Listing => 1,
        Stage::Editing => 2,
        Stage::Posting => 2,
        Stage::Announcing { .. } => 3,
        Stage::Reporting => 4,
        Stage::Finished => 5,
    }
}

/// The rank of the stage that a session is at once it has made `request`;
/// nothing for a request to do nothing.
pub open spec fn level(request: RequestView) -> int {
    match request {
        RequestView::Idle => 0,
        RequestView::ListComments { .. } => 1,
        RequestView::PostComment { .. } => 2,
        RequestView::EditComment { .. } => 2,
        RequestView::Broadcast { .. } => 3,
        RequestView::PostBuild { .. } => 4,
        RequestView::Finish { .. } => 5,
    }
}

/// Whether `request` broadcasts an outcome other than an error.
pub open spec fn announces_success(request: RequestView) -> bool {
    request matches RequestView::Broadcast { outcome, .. } && !(outcome.kind is Error)
}

/// Whether `request` broadcasts an error.
pub open spec fn announces_error(request: RequestView) -> bool {
    request matches RequestView::Broadcast { outcome, .. } && outcome.kind is Error
}

/// One step keeps what the session is about.  It either asks for nothing
/// and changes nothing, or moves the session forward to the stage of the
/// request it makes.
pub proof fn lemma_step(session: Session, reply: Reply)
    ensures
        ({
            let next = session.spec_step(reply).0;
            let request = session.spec_step(reply).1;
            &&& next == session.at(next.stage)
            &&& request is Idle ==> next == session
            &&& !(request is Idle) ==> level(request) == rank(next.stage) && rank(session.stage)
                < rank(next.stage)
            &&& announces_success(request) ==> next.stage == (Stage::Announcing { failure: None })
            &&& announces_error(request) ==> (next.stage matches Stage::Announcing {
                failure: Some(error),
            } && error.is_reconciliation())
            &&& request is PostBuild ==> session.bitbucket.credentials.post_build && session.stage
                == (Stage::Announcing { failure: None })
            &&& request matches RequestView::Broadcast { operation, outcome } ==> {
                &&& outcome.well_formed()
                &&& operation == operation_name(outcome.kind)
                &&& outcome.pr == session.pr
                &&& outcome.build == session.build
            }
            &&& request matches RequestView::Finish { result } ==> {
                ||| session.stage == (Stage::Announcing { failure: result.err() })
                ||| session.stage is Reporting && (result matches Err(error)
                    ==> !error.is_reconciliation())
            }
        }),
{
}

/// The session after one more reply.
pub proof fn lemma_after_next(session: Session, replies: Seq<Reply>, k: int)
    requires
        0 <= k < replies.len(),
    ensures
        after(session, replies.take(k + 1)) == after(session, replies.take(k)).spec_step(
            replies[k],
        ).0,
        after(session, replies.take(0)) == session,
{
    assert(replies.take(k + 1).drop_last() =~= replies.take(k));
    assert(replies.take(k + 1).last() == replies[k]);
}

/// A run keeps what the session is about and never moves it backwards.
pub proof fn lemma_after(session: Session, replies: Seq<Reply>, j: int, k: int)
    requires
        0 <= j <= k <= replies.len(),
    ensures
        after(session, replies.take(k)) == session.at(after(session, replies.take(k)).stage),
        rank(after(session, replies.take(j)).stage) <= rank(after(session, replies.take(k)).stage),
    decreases k,
{
    if k == 0 {
        assert(replies.take(0).len() == 0);
    } else {
        lemma_after_next(session, replies, k - 1);
        lemma_step(after(session, replies.take(k - 1)), replies[k - 1]);
        if j < k {
            lemma_after(session, replies, j, k - 1);
        } else {
            lemma_after(session, replies, k - 1, k - 1);
        }
    }
}

/// Requests are made in the order of the protocol: of two requests of a
/// run, the later one belongs to a later stage.  So a run lists the
/// comments at most once, writes at most one comment, broadcasts at most
/// one outcome, posts at most one build status record and finishes at most
/// once, in this order.
pub proof fn law_requests_in_order(session: Session, replies: Seq<Reply>, j: int, k: int)
    requires
        0 <= j < k < replies.len(),
        !(run(session, replies)[j] is Idle),
        !(run(session, replies)[k] is Idle),
    ensures
        level(run(session, replies)[j]) < level(run(session, replies)[k]),
{
    lemma_step(after(session, replies.take(j)), replies[j]);
    lemma_step(after(session, replies.take(k)), replies[k]);
    lemma_after_next(session, replies, j);
    lemma_after(session, replies, j + 1, k);
}


/// A run that has come past the listing of the comments writes none.
pub proof fn lemma_no_write_later(session: Session, replies: Seq<Reply>, from: int, k: int)
    requires
        0 <= from <= k < replies.len(),
        rank(after(session, replies.take(from)).stage) >= 2,
    ensures
        !run(session, replies)[k].is_write(),
        !(run(session, replies)[k] is ListComments),
{
    lemma_after(session, replies, from, k);
    lemma_step(after(session, replies.take(k)), replies[k]);
}

/// A run whose comment is not in step stays so: it can only finish.
pub proof fn lemma_failure_stays(session: Session, replies: Seq<Reply>, from: int, k: int)
    requires
        0 <= from <= k <= replies.len(),
        after(session, replies.take(from)).stage matches Stage::Announcing { failure: Some(_) },
    ensures
        after(session, replies.take(k)).stage == after(session, replies.take(from)).stage || after(
            session,
            replies.take(k),
        ).stage is Finished,
        k < replies.len() ==> {
            let request = run(session, replies)[k];
            &&& !(request is PostBuild)
            &&& !(request is Broadcast)
            &&& !request.is_write()
            &&& request matches RequestView::Finish { result } ==> after(
                session,
                replies.take(from),
            ).stage == (Stage::Announcing { failure: Some(result->Err_0) }) && result is Err
        },
    decreases k - from,
{
    if from < k {
        lemma_failure_stays(session, replies, from, k - 1);
        lemma_after_next(session, replies, k - 1);
    }
}

/// The label is a function of the phase and the outcome: two calls on the
/// same phase and outcome give the same label.
pub proof fn law_label_for_is_determined(
    state: BuildState,
    status: BuildStatus,
    one: BuildLabel,
    other: BuildLabel,
)
    requires
        call_ensures(label_for, (state, status), one),
        call_ensures(label_for, (state, status), other),
    ensures
        one == other,
{
}

/// The text is a function of the label and of the characters of the build
/// address, of the commit id and of the status message: two calls on
/// arguments that read the same give texts that read the same.
pub proof fn law_text_for_is_determined(
    label: BuildLabel,
    build_url: &str,
    commit_id: &str,
    status_text: &Option<String>,
    same_url: &str,
    same_commit: &str,
    same_status: &Option<String>,
    one: String,
    other: String,
)
    requires
        build_url@ == same_url@,
        commit_id@ == same_commit@,
        crate::status_text_or_empty(*status_text) == crate::status_text_or_empty(*same_status),
        call_ensures(text_for, (label, build_url, commit_id, status_text), one),
        call_ensures(text_for, (label, same_url, same_commit, same_status), other),
    ensures
        one@ == other@,
{
}

/// Precedence.  Where one candidate has exactly the desired text, the
/// decision is to reuse the first such candidate, whatever the candidates
/// hold besides: a candidate that merely mentions the commit does not
/// change it.
pub proof fn law_exact_match_wins(
    comments: Seq<Comment>,
    text: Seq<char>,
    commit_id: Seq<char>,
    i: int,
)
    requires
        0 <= i < comments.len(),
        comments[i].text@ == text,
    ensures
        first_exact(comments, text) matches Some(first) && 0 <= first <= i && decide(
            comments,
            text,
            commit_id,
        ) == Decision::Existing(comments[first]) && comments[first].text@ == text,
{
    let hits = crate::bitbucket::exact_hits(comments, text);
    crate::bitbucket::lemma_first_true(hits);
    assert(hits[i]);
}

/// A comment that this crate words names the commit that it is about.
pub proof fn law_comment_mentions_commit(
    label: BuildLabel,
    build_url: Seq<char>,
    commit_id: Seq<char>,
    build_message: Seq<char>,
)
    ensures
        crate::text::contains(comment_text(label, build_url, commit_id, build_message), commit_id),
{
    let text = comment_text(label, build_url, commit_id, build_message);
    let head = match label {
        BuildLabel::InProgress => "⏳ [Build]("@,
        BuildLabel::Successful => "✔️ [Build]("@,
        BuildLabel::Failed => "❌ [Build]("@,
    } + build_url + ") for commit "@;
    let at = head.len() as int;
    assert(text.subrange(at, at + commit_id.len()) =~= commit_id);
    assert(crate::text::occurs_at(text, commit_id, at));
}

/// One comment for one commit.  Where a candidate has the text that this
/// crate gave to a comment on the commit, whatever it said then, no new
/// comment is created for that commit.
pub proof fn law_one_comment_per_commit(
    comments: Seq<Comment>,
    i: int,
    commit_id: Seq<char>,
    then_label: BuildLabel,
    then_url: Seq<char>,
    then_message: Seq<char>,
    text: Seq<char>,
)
    requires
        0 <= i < comments.len(),
        comments[i].text@ == comment_text(then_label, then_url, commit_id, then_message),
    ensures
        !(decide(comments, text, commit_id) is Post),
{
    law_comment_mentions_commit(then_label, then_url, commit_id, then_message);
    let hits = crate::bitbucket::mention_hits(comments, commit_id);
    crate::bitbucket::lemma_first_true(hits);
    assert(hits[i]);
}

/// Redelivery.  Where the listed comments of the account hold one whose
/// text is the desired text, the session broadcasts the first such comment
/// as the existing one, and no request of the run, whatever is answered
/// later, creates or edits a comment.
pub proof fn law_redelivery_writes_nothing(
    session: Session,
    activities: Vec<Activity>,
    replies: Seq<Reply>,
    i: int,
)
    requires
        session.stage is Ready,
        replies.len() >= 2,
        replies[0] == Reply::Start,
        replies[1] == Reply::Comments(Ok(activities)),
        0 <= i < own_comments(activities@, session.bitbucket.credentials.username@).len(),
        own_comments(activities@, session.bitbucket.credentials.username@)[i].text@
            == session.desired_text(),
    ensures
        ({
            let candidates = own_comments(activities@, session.bitbucket.credentials.username@);
            &&& first_exact(candidates, session.desired_text()) matches Some(first)
            &&& run(session, replies)[1] == session.announce(
                OutcomeKind::Existing,
                Some(candidates[first]),
            )
        }),
        forall|k: int| 0 <= k < replies.len() ==> !(#[trigger] run(session, replies)[k]).is_write(),
{
    let candidates = own_comments(activities@, session.bitbucket.credentials.username@);
    law_exact_match_wins(candidates, session.desired_text(), session.pr.from_commit@, i);
    lemma_after_next(session, replies, 0);
    lemma_after_next(session, replies, 1);
    assert forall|k: int| 0 <= k < replies.len() implies !(#[trigger] run(session, replies)[k]).is_write() by {
        if k >= 2 {
            lemma_no_write_later(session, replies, 2, k);
        }
    }
}

/// State transition.  Where no listed comment of the account has the
/// desired text and one mentions the commit, the session asks for exactly
/// one write: an edit of the first comment that mentions the commit, by
/// its id and with its version, giving it the desired text.  Once the edit
/// is answered with the comment, that comment is broadcast as updated.
pub proof fn law_transition_edits_once(
    session: Session,
    activities: Vec<Activity>,
    replies: Seq<Reply>,
    i: int,
)
    requires
        session.stage is Ready,
        replies.len() >= 2,
        replies[0] == Reply::Start,
        replies[1] == Reply::Comments(Ok(activities)),
        first_exact(
            own_comments(activities@, session.bitbucket.credentials.username@),
            session.desired_text(),
        ) is None,
        0 <= i < own_comments(activities@, session.bitbucket.credentials.username@).len(),
        crate::text::contains(
            own_comments(activities@, session.bitbucket.credentials.username@)[i].text@,
            session.pr.from_commit@,
        ),
    ensures
        ({
            let candidates = own_comments(activities@, session.bitbucket.credentials.username@);
            &&& first_mention(candidates, session.pr.from_commit@) matches Some(first)
            &&& run(session, replies)[1] == (RequestView::EditComment {
                url: session.bitbucket.credentials.comment_url(session.pr.id, candidates[first].id),
                text: session.desired_text(),
                version: candidates[first].version,
                expect: OK,
            })
        }),
        forall|k: int|
            0 <= k < replies.len() && k != 1 ==> !(#[trigger] run(session, replies)[k]).is_write(),
        forall|comment: Comment|
            replies.len() > 2 && replies[2] == Reply::Written(Ok(comment)) ==> run(
                session,
                replies,
            )[2] == session.announce(OutcomeKind::Update, Some(comment)),
{
    let candidates = own_comments(activities@, session.bitbucket.credentials.username@);
    let hits = crate::bitbucket::mention_hits(candidates, session.pr.from_commit@);
    crate::bitbucket::lemma_first_true(hits);
    assert(hits[i]);
    lemma_after_next(session, replies, 0);
    lemma_after_next(session, replies, 1);
    assert forall|k: int| 0 <= k < replies.len() && k != 1 implies !(#[trigger] run(
        session,
        replies,
    )[k]).is_write() by {
        if k >= 2 {
            lemma_no_write_later(session, replies, 2, k);
        }
    }
}

/// New commit.  Where no listed comment of the account has the desired
/// text and none mentions the commit, the session asks for exactly one
/// write: a new comment with the desired text.  Once it is answered with
/// the comment, that comment is broadcast as posted.
pub proof fn law_new_commit_posts_once(
    session: Session,
    activities: Vec<Activity>,
    replies: Seq<Reply>,
)
    requires
        session.stage is Ready,
        replies.len() >= 2,
        replies[0] == Reply::Start,
        replies[1] == Reply::Comments(Ok(activities)),
        first_exact(
            own_comments(activities@, session.bitbucket.credentials.username@),
            session.desired_text(),
        ) is None,
        first_mention(
            own_comments(activities@, session.bitbucket.credentials.username@),
            session.pr.from_commit@,
        ) is None,
    ensures
        run(session, replies)[1] == (RequestView::PostComment {
            url: session.bitbucket.credentials.comments_url(session.pr.id),
            text: session.desired_text(),
            expect: CREATED,
        }),
        forall|k: int|
            0 <= k < replies.len() && k != 1 ==> !(#[trigger] run(session, replies)[k]).is_write(),
        forall|comment: Comment|
            replies.len() > 2 && replies[2] == Reply::Written(Ok(comment)) ==> run(
                session,
                replies,
            )[2] == session.announce(OutcomeKind::Post, Some(comment)),
{
    lemma_after_next(session, replies, 0);
    lemma_after_next(session, replies, 1);
    assert forall|k: int| 0 <= k < replies.len() && k != 1 implies !(#[trigger] run(
        session,
        replies,
    )[k]).is_write() by {
        if k >= 2 {
            lemma_no_write_later(session, replies, 2, k);
        }
    }
}

/// What is broadcast.  Every outcome that a run broadcasts is about the
/// session's pull request and build, goes under the name of its kind, and
/// carries a comment unless it is an error.
pub proof fn law_broadcast_outcome(session: Session, replies: Seq<Reply>, k: int)
    requires
        0 <= k < replies.len(),
        run(session, replies)[k] is Broadcast,
    ensures
        run(session, replies)[k] matches RequestView::Broadcast { operation, outcome } && {
            &&& outcome.well_formed()
            &&& operation == operation_name(outcome.kind)
            &&& outcome.pr == session.pr
            &&& outcome.build == session.build
        },
{
    lemma_after(session, replies, 0, k);
    lemma_step(after(session, replies.take(k)), replies[k]);
}

/// A write that fails.  Where the edit or the new comment is answered
/// with a failure, the session broadcasts an error without a comment, and
/// the run can only finish with that failure as a reconciliation error.
pub proof fn law_write_failure(session: Session, replies: Seq<Reply>, k: int, cause: String)
    requires
        0 <= k < replies.len(),
        run(session, replies)[k].is_write(),
        k + 1 < replies.len(),
        replies[k + 1] == Reply::Written(Err(cause)),
    ensures
        run(session, replies)[k + 1] == after(session, replies.take(k)).announce(
            OutcomeKind::Error,
            None,
        ),
        forall|m: int|
            k + 1 < m < replies.len() ==> {
                let request = #[trigger] run(session, replies)[m];
                &&& !(request is PostBuild)
                &&& !(request is Broadcast)
                &&& request matches RequestView::Finish { result } ==> result == Err::<(), Error>(
                    Error::RemoteWrite(cause),
                )
            },
{
    lemma_after_next(session, replies, k);
    lemma_after_next(session, replies, k + 1);
    lemma_step(after(session, replies.take(k)), replies[k]);
    assert forall|m: int| k + 1 < m < replies.len() implies {
        let request = #[trigger] run(session, replies)[m];
        &&& !(request is PostBuild)
        &&& !(request is Broadcast)
        &&& request matches RequestView::Finish { result } ==> result == Err::<(), Error>(
            Error::RemoteWrite(cause),
        )
    } by {
        lemma_failure_stays(session, replies, k + 2, m);
    }
}

/// Failure to list.  Where the comments cannot be listed, the session
/// broadcasts an error without a comment; that is the one broadcast of the
/// run.  No request of the run writes a comment or posts a build status
/// record, and the run can only finish with the failure to list, which is
/// a reconciliation error.
pub proof fn law_list_failure(session: Session, replies: Seq<Reply>, cause: String)
    requires
        session.stage is Ready,
        replies.len() >= 2,
        replies[0] == Reply::Start,
        replies[1] == Reply::Comments(Err(cause)),
    ensures
        run(session, replies)[1] == session.announce(OutcomeKind::Error, None),
        session.outcome(OutcomeKind::Error, None).comment is None,
        Error::RemoteList(cause).is_reconciliation(),
        replies.len() > 2 && replies[2] == Reply::Broadcast ==> run(session, replies)[2] == (
        RequestView::Finish { result: Err(Error::RemoteList(cause)) }),
        forall|k: int|
            0 <= k < replies.len() ==> {
                let request = #[trigger] run(session, replies)[k];
                &&& !request.is_write()
                &&& !(request is PostBuild)
                &&& request is Broadcast ==> k == 1
                &&& request matches RequestView::Finish { result } ==> result == Err::<(), Error>(
                    Error::RemoteList(cause),
                )
            },
{
    lemma_after_next(session, replies, 0);
    lemma_after_next(session, replies, 1);
    if replies.len() > 2 {
        lemma_after_next(session, replies, 2);
    }
    assert forall|k: int| 0 <= k < replies.len() implies {
        let request = #[trigger] run(session, replies)[k];
        &&& !request.is_write()
        &&& !(request is PostBuild)
        &&& request is Broadcast ==> k == 1
        &&& request matches RequestView::Finish { result } ==> result == Err::<(), Error>(
            Error::RemoteList(cause),
        )
    } by {
        if k >= 2 {
            lemma_failure_stays(session, replies, 2, k);
        }
    }
}

/// Where a run has come past its broadcast, it has broadcast an outcome:
/// an error where the comment is not in step, a success where it is.
pub proof fn lemma_was_announced(session: Session, replies: Seq<Reply>, k: int)
    requires
        session.stage is Ready,
        0 <= k <= replies.len(),
        after(session, replies.take(k)).stage is Announcing || after(
            session,
            replies.take(k),
        ).stage is Reporting,
    ensures
        exists|j: int|
            0 <= j < k && (#[trigger] run(session, replies)[j]) is Broadcast && (announces_error(
                run(session, replies)[j],
            ) <==> after(session, replies.take(k)).stage matches Stage::Announcing {
                failure: Some(_),
            }),
        after(session, replies.take(k)).stage matches Stage::Announcing { failure: Some(error) }
            ==> error.is_reconciliation(),
    decreases k,
{
    if k == 0 {
        assert(replies.take(0).len() == 0);
    } else {
        lemma_after_next(session, replies, k - 1);
        let before = after(session, replies.take(k - 1));
        let request = before.spec_step(replies[k - 1]).1;
        lemma_step(before, replies[k - 1]);
        if request is Broadcast {
            assert(run(session, replies)[k - 1] is Broadcast);
        } else {
            lemma_was_announced(session, replies, k - 1);
            let j = choose|j: int|
                0 <= j < k - 1 && (#[trigger] run(session, replies)[j]) is Broadcast && (
                announces_error(run(session, replies)[j]) <==> before.stage matches Stage::Announcing {
                    failure: Some(_),
                });
            assert(run(session, replies)[j] is Broadcast);
        }
    }
}

/// The first request.  A session that is told to start asks for the
/// comment activity of its pull request.
pub proof fn law_starts_by_listing(session: Session, replies: Seq<Reply>)
    requires
        session.stage is Ready,
        replies.len() >= 1,
        replies[0] == Reply::Start,
    ensures
        run(session, replies)[0] == (RequestView::ListComments {
            url: session.bitbucket.credentials.activities_url(session.pr.id),
        }),
{
    lemma_after_next(session, replies, 0);
}

/// One outcome for one notification.  A run that finishes has broadcast
/// an outcome before, and it finishes with a reconciliation error exactly
/// where that outcome was an error.
pub proof fn law_finish_follows_broadcast(session: Session, replies: Seq<Reply>, k: int)
    requires
        session.stage is Ready,
        0 <= k < replies.len(),
        run(session, replies)[k] is Finish,
    ensures
        exists|j: int|
            0 <= j < k && (#[trigger] run(session, replies)[j]) is Broadcast && (announces_error(
                run(session, replies)[j],
            ) <==> (run(session, replies)[k]->result matches Err(error)
                && error.is_reconciliation())),
{
    lemma_after(session, replies, 0, k);
    lemma_step(after(session, replies.take(k)), replies[k]);
    lemma_was_announced(session, replies, k);
}

/// Gating of the build status record.  A run posts a build status record
/// only where the configuration asks for one, only after it has broadcast
/// a success, and at most once.  A run that broadcasts an error posts none.
pub proof fn law_status_post_gating(session: Session, replies: Seq<Reply>, k: int)
    requires
        session.stage is Ready,
        0 <= k < replies.len(),
        run(session, replies)[k] is PostBuild,
    ensures
        session.bitbucket.credentials.post_build,
        run(session, replies)[k] == (RequestView::PostBuild {
            url: session.bitbucket.credentials.build_status_url(session.pr.from_commit@),
            build: build_record(session.build),
        }),
        exists|j: int| 0 <= j < k && announces_success(#[trigger] run(session, replies)[j]),
        forall|j: int|
            0 <= j < replies.len() && j != k ==> !(#[trigger] run(session, replies)[j] is PostBuild),
        forall|j: int|
            0 <= j < replies.len() ==> !announces_error(#[trigger] run(session, replies)[j]),
{
    let state = after(session, replies.take(k));
    lemma_after(session, replies, 0, k);
    lemma_step(state, replies[k]);
    lemma_was_announced(session, replies, k);
    let j = choose|j: int|
        0 <= j < k && (#[trigger] run(session, replies)[j]) is Broadcast && (announces_error(
            run(session, replies)[j],
        ) <==> state.stage matches Stage::Announcing { failure: Some(_) });
    assert(announces_success(run(session, replies)[j]));
    assert forall|j: int| 0 <= j < replies.len() && j != k implies !(#[trigger] run(
        session,
        replies,
    )[j] is PostBuild) by {
        if run(session, replies)[j] is PostBuild {
            if j < k {
                law_requests_in_order(session, replies, j, k);
            } else {
                law_requests_in_order(session, replies, k, j);
            }
        }
    }
    assert forall|j: int| 0 <= j < replies.len() implies !announces_error(
        #[trigger] run(session, replies)[j],
    ) by {
        if announces_error(run(session, replies)[j]) {
            if j < k {
                lemma_after_next(session, replies, j);
                lemma_step(after(session, replies.take(j)), replies[j]);
                lemma_failure_stays(session, replies, j + 1, k);
            } else if j > k {
                law_requests_in_order(session, replies, k, j);
            }
        }
    }
}

/// With the build status record switched off, no run posts one.
pub proof fn law_status_post_disabled(session: Session, replies: Seq<Reply>, k: int)
    requires
        !session.bitbucket.credentials.post_build,
        0 <= k < replies.len(),
    ensures
        !(run(session, replies)[k] is PostBuild),
{
    lemma_after(session, replies, 0, k);
    lemma_step(after(session, replies.take(k)), replies[k]);
}

/// Once a success was broadcast and the broadcaster has it, the session
/// posts the build status record of its build against the head commit of
/// its pull request, if the configuration asks for one, and finishes
/// without an error if it does not.
pub proof fn law_status_post_follows_success(session: Session, replies: Seq<Reply>, j: int)
    requires
        0 <= j,
        j + 1 < replies.len(),
        announces_success(run(session, replies)[j]),
        replies[j + 1] == Reply::Broadcast,
    ensures
        run(session, replies)[j + 1] == if session.bitbucket.credentials.post_build {
            RequestView::PostBuild {
                url: session.bitbucket.credentials.build_status_url(session.pr.from_commit@),
                build: build_record(session.build),
            }
        } else {
            RequestView::Finish { result: Ok(()) }
        },
{
    lemma_after(session, replies, 0, j);
    lemma_after_next(session, replies, j);
    lemma_step(after(session, replies.take(j)), replies[j]);
}

/// The answer to the build status record decides how the run finishes:
/// without an error where the answer is the status for "no content", and
/// with an error that is no reconciliation error where it is anything else.
pub proof fn law_status_answer(session: Session, replies: Seq<Reply>, k: int, posted: Result<
    u16,
    String,
>)
    requires
        0 <= k,
        k + 1 < replies.len(),
        run(session, replies)[k] is PostBuild,
        replies[k + 1] == Reply::BuildPosted(posted),
    ensures
        run(session, replies)[k + 1] == (RequestView::Finish {
            result: Session::status_result(posted),
        }),
        Session::status_result(posted) is Ok <==> posted == Ok::<u16, String>(
            crate::session::NO_CONTENT,
        ),
        Session::status_result(posted) matches Err(error) ==> !error.is_reconciliation(),
{
    lemma_after_next(session, replies, k);
    lemma_step(after(session, replies.take(k)), replies[k]);
}

} // verus!
