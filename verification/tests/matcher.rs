use std::collections::BTreeMap;

use bitbucket_status::bitbucket::{
    Account, Activity, Bitbucket, BitbucketCredentials, Comment, Decision,
};

fn account(name: &str) -> Account {
    Account {
        name: name.to_string(),
        email_address: format!("{}@example.com", name),
        id: 9,
        display_name: name.to_uppercase(),
        active: true,
        slug: name.to_string(),
        links: BTreeMap::new(),
    }
}

fn comment(id: i32, version: i32, text: &str) -> Comment {
    Comment {
        id,
        version,
        text: text.to_string(),
        author: account("bot"),
        created_date: 1000,
        updated_date: 2000,
    }
}

fn activity(id: i32, user: &str, comment: Option<Comment>) -> Activity {
    Activity {
        id,
        created_date: 500,
        user: account(user),
        action: "COMMENTED".to_string(),
        comment_action: Some("ADDED".to_string()),
        comment,
    }
}

fn bitbucket(username: &str) -> Bitbucket {
    Bitbucket::new(&BitbucketCredentials {
        username: username.to_string(),
        password: "secret".to_string(),
        base_url: "https://bb".to_string(),
        project_slug: "PRJ".to_string(),
        repo_slug: "repo".to_string(),
        post_build: false,
    })
}

#[test]
fn matching_comments_finds_the_first_equal_text() {
    let comments = vec![comment(1, 0, "a"), comment(2, 0, "b"), comment(3, 0, "b")];
    assert_eq!(Bitbucket::matching_comments(&comments, "b"), Some(1));
    assert_eq!(Bitbucket::matching_comments(&comments, "a"), Some(0));
    assert_eq!(Bitbucket::matching_comments(&comments, "c"), None);
    assert_eq!(Bitbucket::matching_comments(&comments, ""), None);
    assert_eq!(Bitbucket::matching_comments(&Vec::new(), "a"), None);
}

#[test]
fn matching_comments_wants_the_whole_text() {
    let comments = vec![comment(1, 0, "build abc123 queued")];
    assert_eq!(Bitbucket::matching_comments(&comments, "abc123"), None);
    assert_eq!(Bitbucket::matching_comments(&comments, "build abc123 queued "), None);
    assert_eq!(Bitbucket::matching_comments(&comments, "build abc123 queued"), Some(0));
}

#[test]
fn matching_comments_substring_finds_the_first_mention() {
    let comments = vec![
        comment(1, 0, "for commit fff000 queued"),
        comment(2, 0, "for commit abc123 queued"),
        comment(3, 0, "abc123"),
    ];
    assert_eq!(Bitbucket::matching_comments_substring(&comments, "abc123"), Some(1));
    assert_eq!(Bitbucket::matching_comments_substring(&comments, "fff000"), Some(0));
    assert_eq!(Bitbucket::matching_comments_substring(&comments, "abc1234"), None);
    assert_eq!(Bitbucket::matching_comments_substring(&comments, "ABC123"), None);
    assert_eq!(Bitbucket::matching_comments_substring(&Vec::new(), "abc123"), None);
}

#[test]
fn matching_comments_substring_tells_texts_apart() {
    let comments = vec![comment(1, 0, "abc123")];
    assert_eq!(Bitbucket::matching_comments_substring(&comments, "abc123"), Some(0));
    assert_eq!(Bitbucket::matching_comments_substring(&comments, "c1"), Some(0));
    assert_eq!(Bitbucket::matching_comments_substring(&comments, "c2"), None);
    assert_eq!(Bitbucket::matching_comments_substring(&comments, "abc123 "), None);
}

#[test]
fn the_empty_commit_id_is_mentioned_by_every_comment() {
    let comments = vec![comment(1, 0, "x"), comment(2, 0, "")];
    assert_eq!(Bitbucket::matching_comments_substring(&comments, ""), Some(0));
    assert_eq!(Bitbucket::matching_comments_substring(&Vec::new(), ""), None);
}

#[test]
fn mentions_are_found_in_text_that_is_not_ascii() {
    let comments = vec![comment(1, 0, "⏳ [Build](http://b) for commit abc123 queued")];
    assert_eq!(Bitbucket::matching_comments_substring(&comments, "abc123"), Some(0));
    assert_eq!(Bitbucket::matching_comments_substring(&comments, "⏳"), Some(0));
    assert_eq!(Bitbucket::matching_comments_substring(&comments, "❌"), None);
}

#[test]
fn classify_reuses_the_exact_match() {
    let comments = vec![comment(1, 3, "other"), comment(2, 5, "wanted abc123")];
    assert_eq!(
        Bitbucket::classify(comments, "wanted abc123", "abc123"),
        Decision::Existing(comment(2, 5, "wanted abc123"))
    );
}

#[test]
fn classify_prefers_the_exact_match_to_an_earlier_mention() {
    let comments = vec![
        comment(1, 3, "old text for abc123"),
        comment(2, 5, "wanted abc123"),
        comment(3, 7, "wanted abc123"),
    ];
    assert_eq!(
        Bitbucket::classify(comments, "wanted abc123", "abc123"),
        Decision::Existing(comment(2, 5, "wanted abc123"))
    );
}

#[test]
fn classify_edits_the_first_mention() {
    let comments = vec![
        comment(1, 3, "about fff000"),
        comment(2, 5, "old text for abc123"),
        comment(3, 7, "older text for abc123"),
    ];
    assert_eq!(
        Bitbucket::classify(comments, "wanted abc123", "abc123"),
        Decision::Update(comment(2, 5, "old text for abc123"))
    );
}

#[test]
fn classify_posts_where_nothing_matches() {
    let comments = vec![comment(1, 3, "about fff000")];
    assert_eq!(Bitbucket::classify(comments, "wanted abc123", "abc123"), Decision::Post);
    assert_eq!(Bitbucket::classify(Vec::new(), "wanted abc123", "abc123"), Decision::Post);
}

#[test]
fn get_comments_keeps_the_comments_of_the_account_in_order() {
    let activities = vec![
        activity(1, "bot", Some(comment(10, 0, "first"))),
        activity(2, "alice", Some(comment(11, 0, "hers"))),
        activity(3, "bot", None),
        activity(4, "bot", Some(comment(12, 1, "second"))),
        activity(5, "Bot", Some(comment(13, 0, "another account"))),
    ];
    assert_eq!(
        bitbucket("bot").get_comments(activities),
        vec![comment(10, 0, "first"), comment(12, 1, "second")]
    );
}

#[test]
fn get_comments_of_nothing_is_nothing() {
    assert_eq!(bitbucket("bot").get_comments(Vec::new()), Vec::new());
    let activities = vec![activity(1, "alice", Some(comment(10, 0, "hers")))];
    assert_eq!(bitbucket("bot").get_comments(activities), Vec::new());
}
