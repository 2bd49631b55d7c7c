//! The Bitbucket side: its records, the wording of the build comment, and
//! the search for a comment to reuse.

use std::collections::BTreeMap;
use vstd::prelude::*;
use vstd::string::*;
use crate::text::{append_decimal, contains, decimal, str_contains};
use crate::{BuildDetails, BuildState, BuildStatus, PullRequest, User};

verus! {

/// A hyperlink that Bitbucket attaches to a record.
#[derive(Debug, PartialEq, Eq)]
pub struct Link {
    pub href: String,
    pub name: Option<String>,
}

/// A Bitbucket account.  `name` is the login name.
#[derive(Debug, PartialEq, Eq)]
pub struct Account {
    pub name: String,
    pub email_address: String,
    pub id: i32,
    pub display_name: String,
    pub active: bool,
    pub slug: String,
    pub links: BTreeMap<String, Vec<Link>>,
}

/// A comment on a pull request.  `version` is the token that an edit must
/// present: Bitbucket refuses an edit that presents a stale one.
#[derive(Debug, PartialEq, Eq)]
pub struct Comment {
    pub id: i32,
    pub version: i32,
    pub text: String,
    pub author: Account,
    pub created_date: i64,
    pub updated_date: i64,
}

/// One entry of a pull request's activity stream.
#[derive(Debug, PartialEq, Eq)]
pub struct Activity {
    pub id: i32,
    pub created_date: i64,
    pub user: Account,
    pub action: String,
    pub comment_action: Option<String>,
    pub comment: Option<Comment>,
}

/// The three things a build comment or a build status record can say.
#[derive(Debug, Clone, Copy, PartialEq, Eq)]
pub enum BuildLabel {
    InProgress,
    Failed,
    Successful,
}

/// The label for a build in phase `state` that ended, if it has, as
/// `status` says.
pub open spec fn spec_label_for(state: BuildState, status: BuildStatus) -> BuildLabel {
    match state {
        BuildState::Finished => match status {
            BuildStatus::Success => BuildLabel::Successful,
            _ => BuildLabel::Failed,
        },
        _ => BuildLabel::InProgress,
    }
}

/// Maps a build's phase and outcome to its label.  A build that has not
/// finished is in progress whatever its outcome field holds.
pub fn label_for(state: BuildState, status: BuildStatus) -> (label: BuildLabel)
    ensures
        label == spec_label_for(state, status),
        state is Queued || state is Running ==> label is InProgress,
        state is Finished && status is Success ==> label is Successful,
        state is Finished && !(status is Success) ==> label is Failed,
{
    match state {
        BuildState::Finished => match status {
            BuildStatus::Success => BuildLabel::Successful,
            _ => BuildLabel::Failed,
        },
        _ => BuildLabel::InProgress,
    }
}

/// The comment for a build that is queued or running.
pub open spec fn queued_comment(build_url: Seq<char>, commit_id: Seq<char>) -> Seq<char> {
    "⏳ [Build]("@ + build_url + ") for commit "@ + commit_id + " queued"@
}

/// The comment for a build that succeeded.
pub open spec fn success_comment(
    build_url: Seq<char>,
    commit_id: Seq<char>,
    build_message: Seq<char>,
) -> Seq<char> {
    "✔️ [Build]("@ + build_url + ") for commit "@ + commit_id + " is **successful**: "@
        + build_message
}

/// The comment for a build that failed.
pub open spec fn failure_comment(
    build_url: Seq<char>,
    commit_id: Seq<char>,
    build_message: Seq<char>,
) -> Seq<char> {
    "❌ [Build]("@ + build_url + ") for commit "@ + commit_id + " has **failed**: "@
        + build_message
}

/// The comment that says `label` of the build at `build_url` for the commit
/// `commit_id`.  A comment on a build in progress carries no message.
pub open spec fn comment_text(
    label: BuildLabel,
    build_url: Seq<char>,
    commit_id: Seq<char>,
    build_message: Seq<char>,
) -> Seq<char> {
    match label {
        BuildLabel::InProgress => queued_comment(build_url, commit_id),
        BuildLabel::Successful => success_comment(build_url, commit_id, build_message),
        BuildLabel::Failed => failure_comment(build_url, commit_id, build_message),
    }
}

pub fn make_queued_comment(build_url: &str, commit_id: &str) -> (text: String)
    ensures
        text@ == queued_comment(build_url@, commit_id@),
{
    let mut text = String::from_str("⏳ [Build](");
    text.append(build_url);
    text.append(") for commit ");
    text.append(commit_id);
    text.append(" queued");
    text
}

pub fn make_success_comment(build_url: &str, commit_id: &str, build_message: &str) -> (text: String)
    ensures
        text@ == success_comment(build_url@, commit_id@, build_message@),
{
    let mut text = String::from_str("✔️ [Build](");
    text.append(build_url);
    text.append(") for commit ");
    text.append(commit_id);
    text.append(" is **successful**: ");
    text.append(build_message);
    text
}

pub fn make_failure_comment(build_url: &str, commit_id: &str, build_message: &str) -> (text: String)
    ensures
        text@ == failure_comment(build_url@, commit_id@, build_message@),
{
    let mut text = String::from_str("❌ [Build](");
    text.append(build_url);
    text.append(") for commit ");
    text.append(commit_id);
    text.append(" has **failed**: ");
    text.append(build_message);
    text
}

/// The text of the comment for `label`.  An absent status message counts as
/// the empty one.  The result is a function of the four arguments' contents
/// and of nothing else.
pub fn text_for(
    label: BuildLabel,
    build_url: &str,
    commit_id: &str,
    status_text: &Option<String>,
) -> (text: String)
    ensures
        text@ == comment_text(label, build_url@, commit_id@, crate::status_text_or_empty(*status_text)),
{
    proof {
        reveal_strlit("");
        assert(""@ =~= Seq::<char>::empty());
    }
    match label {
        BuildLabel::InProgress => make_queued_comment(build_url, commit_id),
        BuildLabel::Successful => match status_text {
            Some(message) => make_success_comment(build_url, commit_id, message.as_str()),
            None => make_success_comment(build_url, commit_id, ""),
        },
        BuildLabel::Failed => match status_text {
            Some(message) => make_failure_comment(build_url, commit_id, message.as_str()),
            None => make_failure_comment(build_url, commit_id, ""),
        },
    }
}


/// A pull request as Bitbucket lists it, cut down to what is kept of it.
/// `self_links` are the links that the listing gives under the pull
/// request's own relation, in their order.
#[derive(Debug, PartialEq, Eq)]
pub struct ListedPullRequest {
    pub id: i32,
    pub self_links: Vec<Link>,
    pub from_ref_id: String,
    pub latest_commit: String,
    pub title: String,
    pub author_name: String,
    pub author_email: String,
}

/// The pull request that `listed` stands for: it is found on the web at
/// the first of its own links.
pub open spec fn listed_pull_request(listed: ListedPullRequest) -> PullRequest
    recommends
        listed.self_links@.len() > 0,
{
    PullRequest {
        id: listed.id,
        web_url: listed.self_links@[0].href,
        from_ref: listed.from_ref_id,
        from_commit: listed.latest_commit,
        title: listed.title,
        author: User { name: listed.author_name, email: listed.author_email },
    }
}

/// Turns a listed pull request into the pull request that builds are
/// told about.  A listed pull request without a link to itself has no
/// address and is not taken.
pub fn pull_request_of(listed: ListedPullRequest) -> (pr: PullRequest)
    requires
        listed.self_links@.len() > 0,
    ensures
        pr == listed_pull_request(listed),
        pr.id == listed.id,
        pr.web_url@ == listed.self_links@[0].href@,
        pr.from_ref@ == listed.from_ref_id@,
        pr.from_commit@ == listed.latest_commit@,
        pr.title@ == listed.title@,
        pr.author.name@ == listed.author_name@,
        pr.author.email@ == listed.author_email@,
{
    let mut links = listed.self_links;
    let first = links.swap_remove(0);
    PullRequest {
        id: listed.id,
        web_url: first.href,
        from_ref: listed.from_ref_id,
        from_commit: listed.latest_commit,
        title: listed.title,
        author: User { name: listed.author_name, email: listed.author_email },
    }
}

/// The body of a request that creates a comment.
#[derive(Debug, PartialEq, Eq)]
pub struct CommentSubmit {
    pub text: String,
}

/// The body of a request that edits a comment: the new text, and the
/// version of the comment that the edit starts from.
#[derive(Debug, PartialEq, Eq)]
pub struct CommentEdit {
    pub text: String,
    pub version: i32,
}

/// A build status record, as Bitbucket keeps one against a commit.
#[derive(Debug, PartialEq, Eq)]
pub struct Build {
    pub state: BuildLabel,
    pub key: String,
    pub name: String,
    pub url: String,
    pub description: String,
}

/// What a build status record says.
pub struct BuildView {
    pub state: BuildLabel,
    pub key: Seq<char>,
    pub name: Seq<char>,
    pub url: Seq<char>,
    pub description: Seq<char>,
}

impl View for Build {
    type V = BuildView;

    open spec fn view(&self) -> BuildView {
        BuildView {
            state: self.state,
            key: self.key@,
            name: self.name@,
            url: self.url@,
            description: self.description@,
        }
    }
}

/// The record for `build`: labelled by its phase and outcome, keyed by the
/// build's name, named by the run's number in decimal, described by the
/// status message or by nothing.
pub open spec fn build_record(build: BuildDetails) -> BuildView {
    BuildView {
        state: spec_label_for(build.state, build.status),
        key: build.build_id@,
        name: decimal(build.id as int),
        url: build.web_url@,
        description: crate::status_text_or_empty(build.status_text),
    }
}

/// The index of the first `true` in `hits`.
pub open spec fn first_true(hits: Seq<bool>) -> Option<int>
    decreases hits.len(),
{
    if hits.len() == 0 {
        None
    } else {
        match first_true(hits.drop_last()) {
            Some(i) => Some(i),
            None => if hits.last() {
                Some(hits.len() - 1)
            } else {
                None
            },
        }
    }
}

/// `first_true` finds a `true`, nothing before it is `true`, and it finds
/// none only where there is none.
pub proof fn lemma_first_true(hits: Seq<bool>)
    ensures
        match first_true(hits) {
            Some(i) => 0 <= i < hits.len() && hits[i] && forall|j: int| 0 <= j < i ==> !hits[j],
            None => forall|j: int| 0 <= j < hits.len() ==> !hits[j],
        },
    decreases hits.len(),
{
    if hits.len() > 0 {
        let front = hits.drop_last();
        lemma_first_true(front);
        assert forall|j: int| 0 <= j < front.len() implies front[j] == hits[j] by {}
        match first_true(front) {
            Some(i) => {
                assert(front[i]);
                assert forall|j: int| 0 <= j < i implies !hits[j] by {
                    assert(!front[j]);
                }
            },
            None => {
                assert forall|j: int| 0 <= j < hits.len() - 1 implies !hits[j] by {
                    assert(!front[j]);
                }
            },
        }
    }
}

/// The first `true` is where a `true` stands with none before it.
pub proof fn lemma_first_true_at(hits: Seq<bool>, i: int)
    requires
        0 <= i < hits.len(),
        hits[i],
        forall|j: int| 0 <= j < i ==> !hits[j],
    ensures
        first_true(hits) == Some(i),
{
    lemma_first_true(hits);
}

/// For each comment, whether its text is `text`.
pub open spec fn exact_hits(comments: Seq<Comment>, text: Seq<char>) -> Seq<bool> {
    Seq::new(comments.len(), |i: int| comments[i].text@ == text)
}

/// For each comment, whether its text holds `needle`.
pub open spec fn mention_hits(comments: Seq<Comment>, needle: Seq<char>) -> Seq<bool> {
    Seq::new(comments.len(), |i: int| contains(comments[i].text@, needle))
}

/// The first comment whose text is `text`, by its index.
pub open spec fn first_exact(comments: Seq<Comment>, text: Seq<char>) -> Option<int> {
    first_true(exact_hits(comments, text))
}

/// The first comment whose text holds `needle`, by its index.
pub open spec fn first_mention(comments: Seq<Comment>, needle: Seq<char>) -> Option<int> {
    first_true(mention_hits(comments, needle))
}

/// What is to be done about the build comment.
#[derive(Debug, PartialEq, Eq)]
pub enum Decision {
    /// This comment already says it: write nothing.
    Existing(Comment),
    /// This comment speaks of the commit and says something else: edit it.
    Update(Comment),
    /// No comment speaks of the commit: create one.
    Post,
}

/// The decision for the candidates `comments`, in the order received: the
/// first comment with exactly the desired `text`; failing that, the first
/// whose text holds `commit_id`; failing that, a new comment.
pub open spec fn decide(comments: Seq<Comment>, text: Seq<char>, commit_id: Seq<char>) -> Decision {
    match first_exact(comments, text) {
        Some(i) => Decision::Existing(comments[i]),
        None => match first_mention(comments, commit_id) {
            Some(i) => Decision::Update(comments[i]),
            None => Decision::Post,
        },
    }
}

/// The comments among `activities` that `username` wrote, in their order.
pub open spec fn own_comments(activities: Seq<Activity>, username: Seq<char>) -> Seq<Comment>
    decreases activities.len(),
{
    if activities.len() == 0 {
        Seq::empty()
    } else {
        let before = own_comments(activities.drop_last(), username);
        let last = activities.last();
        match last.comment {
            Some(comment) if last.user.name@ == username => before.push(comment),
            _ => before,
        }
    }
}

/// How to reach a Bitbucket repository, as whom, and whether to keep a
/// build status record beside the comment.
#[derive(Debug, PartialEq, Eq)]
pub struct BitbucketCredentials {
    pub username: String,
    pub password: String,
    pub base_url: String,
    pub project_slug: String,
    pub repo_slug: String,
    pub post_build: bool,
}

impl Clone for BitbucketCredentials {
    fn clone(&self) -> (copy: Self)
        ensures
            copy == *self,
    {
        BitbucketCredentials {
            username: self.username.clone(),
            password: self.password.clone(),
            base_url: self.base_url.clone(),
            project_slug: self.project_slug.clone(),
            repo_slug: self.repo_slug.clone(),
            post_build: self.post_build,
        }
    }
}

impl BitbucketCredentials {
    /// The address of the repository's pull requests.
    pub open spec fn pull_requests_url(self) -> Seq<char> {
        self.base_url@ + "/api/latest/projects/"@ + self.project_slug@ + "/repos/"@
            + self.repo_slug@ + "/pull-requests"@
    }

    /// The address of the pull request `pr_id`.
    pub open spec fn pull_request_url(self, pr_id: i32) -> Seq<char> {
        self.pull_requests_url() + "/"@ + decimal(pr_id as int)
    }

    /// The address at which the comment activity of `pr_id` is listed.
    pub open spec fn activities_url(self, pr_id: i32) -> Seq<char> {
        self.pull_request_url(pr_id) + "/activities?fromType=COMMENT"@
    }

    /// The address at which a comment on `pr_id` is created.
    pub open spec fn comments_url(self, pr_id: i32) -> Seq<char> {
        self.pull_request_url(pr_id) + "/comments"@
    }

    /// The address at which the comment `comment_id` on `pr_id` is edited.
    pub open spec fn comment_url(self, pr_id: i32, comment_id: i32) -> Seq<char> {
        self.comments_url(pr_id) + "/"@ + decimal(comment_id as int)
    }

    /// The address at which the build status of `commit_id` is kept.
    pub open spec fn build_status_url(self, commit_id: Seq<char>) -> Seq<char> {
        self.base_url@ + "/build-status/1.0/commits/"@ + commit_id
    }
}

/// A Bitbucket repository that is kept informed of builds.
#[derive(Debug, PartialEq, Eq)]
pub struct Bitbucket {
    pub credentials: BitbucketCredentials,
}

impl Clone for Bitbucket {
    fn clone(&self) -> (copy: Self)
        ensures
            copy == *self,
    {
        Bitbucket { credentials: self.credentials.clone() }
    }
}

impl Bitbucket {
    pub fn new(credentials: &BitbucketCredentials) -> (bitbucket: Bitbucket)
        ensures
            bitbucket.credentials == *credentials,
    {
        Bitbucket { credentials: credentials.clone() }
    }

    pub fn username(&self) -> (name: &String)
        ensures
            *name == self.credentials.username,
    {
        &self.credentials.username
    }

    pub fn password(&self) -> (word: &String)
        ensures
            *word == self.credentials.password,
    {
        &self.credentials.password
    }

    fn pull_request_url(&self, pr_id: i32) -> (url: String)
        ensures
            url@ == self.credentials.pull_request_url(pr_id),
    {
        let mut url = self.pull_requests_url();
        url.append("/");
        append_decimal(&mut url, pr_id);
        url
    }

    pub fn pull_requests_url(&self) -> (url: String)
        ensures
            url@ == self.credentials.pull_requests_url(),
    {
        let mut url = self.credentials.base_url.clone();
        url.append("/api/latest/projects/");
        url.append(self.credentials.project_slug.as_str());
        url.append("/repos/");
        url.append(self.credentials.repo_slug.as_str());
        url.append("/pull-requests");
        url
    }

    pub fn activities_url(&self, pr_id: i32) -> (url: String)
        ensures
            url@ == self.credentials.activities_url(pr_id),
    {
        let mut url = self.pull_request_url(pr_id);
        url.append("/activities?fromType=COMMENT");
        url
    }

    pub fn comments_url(&self, pr_id: i32) -> (url: String)
        ensures
            url@ == self.credentials.comments_url(pr_id),
    {
        let mut url = self.pull_request_url(pr_id);
        url.append("/comments");
        url
    }

    pub fn comment_url(&self, pr_id: i32, comment_id: i32) -> (url: String)
        ensures
            url@ == self.credentials.comment_url(pr_id, comment_id),
    {
        let mut url = self.comments_url(pr_id);
        url.append("/");
        append_decimal(&mut url, comment_id);
        url
    }

    pub fn build_status_url(&self, commit_id: &str) -> (url: String)
        ensures
            url@ == self.credentials.build_status_url(commit_id@),
    {
        let mut url = self.credentials.base_url.clone();
        url.append("/build-status/1.0/commits/");
        url.append(commit_id);
        url
    }

    /// Finds the first comment whose text is `text`.
    pub fn matching_comments(comments: &Vec<Comment>, text: &str) -> (found: Option<usize>)
        ensures
            match found {
                Some(i) => first_exact(comments@, text@) == Some(i as int),
                None => first_exact(comments@, text@) is None,
            },
            found matches Some(i) ==> i < comments.len() && comments[i as int].text@ == text@,
            found matches Some(i) ==> forall|j: int| 0 <= j < i ==> comments[j].text@ != text@,
            found is None ==> forall|j: int| 0 <= j < comments.len() ==> comments[j].text@ != text@,
    {
        let wanted = text.to_owned();
        let ghost hits = exact_hits(comments@, text@);
        let mut i: usize = 0;
        while i < comments.len()
            invariant
                i <= comments.len(),
                wanted@ == text@,
                hits == exact_hits(comments@, text@),
                forall|j: int| 0 <= j < i ==> !hits[j],
            decreases comments.len() - i,
        {
            if comments[i].text == wanted {
                proof {
                    lemma_first_true_at(hits, i as int);
                    assert forall|j: int| 0 <= j < i implies comments[j].text@ != text@ by {
                        assert(!hits[j]);
                    }
                }
                return Some(i);
            }
            i += 1;
        }
        proof {
            lemma_first_true(hits);
            assert forall|j: int| 0 <= j < comments.len() implies comments[j].text@ != text@ by {
                assert(!hits[j]);
            }
        }
        None
    }

    /// Finds the first comment whose text holds `substr`.
    pub fn matching_comments_substring(comments: &Vec<Comment>, substr: &str) -> (found: Option<
        usize,
    >)
        ensures
            match found {
                Some(i) => first_mention(comments@, substr@) == Some(i as int),
                None => first_mention(comments@, substr@) is None,
            },
            found matches Some(i) ==> i < comments.len() && contains(
                comments[i as int].text@,
                substr@,
            ),
            found matches Some(i) ==> forall|j: int|
                0 <= j < i ==> !contains(comments[j].text@, substr@),
            found is None ==> forall|j: int|
                0 <= j < comments.len() ==> !contains(comments[j].text@, substr@),
    {
        let ghost hits = mention_hits(comments@, substr@);
        let mut i: usize = 0;
        while i < comments.len()
            invariant
                i <= comments.len(),
                hits == mention_hits(comments@, substr@),
                forall|j: int| 0 <= j < i ==> !hits[j],
            decreases comments.len() - i,
        {
            if str_contains(comments[i].text.as_str(), substr) {
                proof {
                    lemma_first_true_at(hits, i as int);
                    assert forall|j: int| 0 <= j < i implies !contains(
                        comments[j].text@,
                        substr@,
                    ) by {
                        assert(!hits[j]);
                    }
                }
                return Some(i);
            }
            i += 1;
        }
        proof {
            lemma_first_true(hits);
            assert forall|j: int| 0 <= j < comments.len() implies !contains(
                comments[j].text@,
                substr@,
            ) by {
                assert(!hits[j]);
            }
        }
        None
    }

    /// Decides what to do about the build comment, and hands out the comment
    /// that the decision is about.
    pub fn classify(comments: Vec<Comment>, text: &str, commit_id: &str) -> (decision: Decision)
        ensures
            decision == decide(comments@, text@, commit_id@),
    {
        let mut comments = comments;
        match Bitbucket::matching_comments(&comments, text) {
            Some(i) => Decision::Existing(comments.swap_remove(i)),
            None => match Bitbucket::matching_comments_substring(&comments, commit_id) {
                Some(i) => Decision::Update(comments.swap_remove(i)),
                None => Decision::Post,
            },
        }
    }

    /// Picks out of a pull request's activity the comments that the
    /// configured account wrote, in the order in which they were listed.
    pub fn get_comments(&self, activities: Vec<Activity>) -> (comments: Vec<Comment>)
        ensures
            comments@ == own_comments(activities@, self.credentials.username@),
    {
        let ghost all = activities@;
        let mut comments: Vec<Comment> = Vec::new();
        for activity in it: activities
            invariant
                it.seq() == all,
                comments@ == own_comments(all.take(it.index() as int), self.credentials.username@),
        {
            assert(all.take(it.index() + 1).drop_last() =~= all.take(it.index() as int));
            let own = activity.user.name == self.credentials.username;
            match activity.comment {
                Some(comment) => {
                    if own {
                        comments.push(comment);
                    }
                },
                None => {},
            }
        }
        assert(all.take(all.len() as int) =~= all);
        comments
    }

    /// Makes the build status record for `build`.
    pub fn make_build(build: &BuildDetails) -> (record: Build)
        ensures
            record@ == build_record(*build),
    {
        let mut name = String::new();
        append_decimal(&mut name, build.id);
        let description = match &build.status_text {
            None => String::new(),
            Some(text) => text.clone(),
        };
        assert(name@ =~= decimal(build.id as int));
        Build {
            state: label_for(build.state, build.status),
            key: build.build_id.clone(),
            name,
            url: build.web_url.clone(),
            description,
        }
    }
}

} // verus!
