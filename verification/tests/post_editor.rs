use bulletin_board::board::{select, Query};
use bulletin_board::editor::{
    add_comment, edit_comment, edit_post, grant, like_post, status_requested, unlike_post,
};
use bulletin_board::visibility::{comment_shown, entry_shown, post_shown};
use bulletin_board::{Comment, Post, Status, SubComment, WithStatus};

fn name(value: &str) -> String {
    value.to_string()
}

fn names(values: &[&str]) -> Vec<String> {
    values.iter().map(|value| value.to_string()).collect()
}

fn sample_post() -> Post {
    Post {
        id: 4,
        title: name("title"),
        content: name("content"),
        tags: names(&["x", "y"]),
        users_who_liked: names(&["carol"]),
        creator_user_id: name("alice"),
        comments: vec![
            WithStatus::Open(Comment {
                comment_creator_user_id: name("bob"),
                content: name("first"),
                users_who_liked: names(&["alice"]),
                sub_comments: vec![
                    WithStatus::Open(SubComment {
                        comment_creator_user_id: name("carol"),
                        content: name("first-first"),
                        users_who_liked: names(&["bob"]),
                    }),
                    WithStatus::Removed(SubComment {
                        comment_creator_user_id: name("dave"),
                        content: name("first-second"),
                        users_who_liked: vec![],
                    }),
                    WithStatus::Locked(SubComment {
                        comment_creator_user_id: name("carol"),
                        content: name("first-third"),
                        users_who_liked: vec![],
                    }),
                ],
            }),
            WithStatus::Removed(Comment {
                comment_creator_user_id: name("bob"),
                content: name("second"),
                users_who_liked: vec![],
                sub_comments: vec![WithStatus::Open(SubComment {
                    comment_creator_user_id: name("carol"),
                    content: name("second-first"),
                    users_who_liked: vec![],
                })],
            }),
            WithStatus::Locked(Comment {
                comment_creator_user_id: name("erin"),
                content: name("third"),
                users_who_liked: vec![],
                sub_comments: vec![WithStatus::Open(SubComment {
                    comment_creator_user_id: name("carol"),
                    content: name("third-first"),
                    users_who_liked: vec![],
                })],
            }),
        ],
    }
}

#[test]
fn new_entities_are_empty() {
    let post = Post::new(3, name("alice"), name("t"), name("c"), names(&["x"]));
    assert_eq!(
        post,
        Post {
            id: 3,
            title: name("t"),
            content: name("c"),
            tags: names(&["x"]),
            users_who_liked: vec![],
            creator_user_id: name("alice"),
            comments: vec![],
        }
    );
    let comment = Comment::new(name("bob"), name("hi"));
    assert_eq!(
        comment,
        Comment {
            comment_creator_user_id: name("bob"),
            content: name("hi"),
            users_who_liked: vec![],
            sub_comments: vec![],
        }
    );
    let reply = SubComment::new(name("carol"), name("re"));
    assert_eq!(
        reply,
        SubComment {
            comment_creator_user_id: name("carol"),
            content: name("re"),
            users_who_liked: vec![],
        }
    );
}

#[test]
fn a_copy_is_equal_in_every_part() {
    let post = sample_post();
    assert_eq!(post.clone(), post);
    let entry = WithStatus::Locked(sample_post());
    assert_eq!(entry.clone(), entry);
}

#[test]
fn a_call_without_a_status_asks_for_open() {
    assert_eq!(status_requested(&None), Some(Status::Open));
    assert_eq!(status_requested(&Some(name("Open"))), Some(Status::Open));
    assert_eq!(status_requested(&Some(name("Locked"))), Some(Status::Locked));
    assert_eq!(status_requested(&Some(name("Removed"))), Some(Status::Removed));
    assert_eq!(status_requested(&Some(name("removed"))), None);
    assert_eq!(status_requested(&Some(String::new())), None);
}

#[test]
fn a_request_is_granted_to_the_creator_along_the_table() {
    let alice = name("alice");
    let bob = name("bob");
    assert_eq!(grant(&alice, &alice, Status::Open, Some(Status::Locked)), Some(Status::Locked));
    assert_eq!(grant(&alice, &alice, Status::Locked, Some(Status::Removed)), Some(Status::Removed));
    assert_eq!(grant(&alice, &alice, Status::Locked, Some(Status::Open)), None);
    assert_eq!(grant(&alice, &alice, Status::Removed, Some(Status::Removed)), None);
    assert_eq!(grant(&bob, &alice, Status::Open, Some(Status::Open)), None);
    assert_eq!(grant(&alice, &alice, Status::Open, None), None);
}

#[test]
fn an_entry_that_holds_no_post_is_not_found() {
    for entry in [WithStatus::<Post>::NotFound, WithStatus::<Post>::NoPermission] {
        assert_eq!(
            edit_post(&entry, &name("alice"), None, None, None, &name("Open")),
            WithStatus::NotFound
        );
        assert_eq!(like_post(&entry, name("alice")), WithStatus::NotFound);
        assert_eq!(unlike_post(&entry, &name("alice")), WithStatus::NotFound);
        assert_eq!(add_comment(&entry, name("alice"), None, name("hi")), WithStatus::NotFound);
        assert_eq!(
            add_comment(&entry, name("alice"), Some(0), name("hi")),
            WithStatus::NotFound
        );
        assert_eq!(
            edit_comment(&entry, &name("alice"), 0, None, name("hi"), None),
            WithStatus::NotFound
        );
        assert_eq!(entry_shown(&entry), None);
    }
}

#[test]
fn an_edit_builds_a_new_post_and_leaves_the_stored_one() {
    let stored = WithStatus::Open(sample_post());
    let outcome = edit_post(
        &stored,
        &name("alice"),
        Some(name("new title")),
        None,
        Some(names(&["z"])),
        &name("Open"),
    );
    let mut expected = sample_post();
    expected.title = name("new title");
    expected.tags = names(&["z"]);
    assert_eq!(outcome, WithStatus::Open(expected));
    assert_eq!(stored, WithStatus::Open(sample_post()));
    let outcome = edit_post(&stored, &name("alice"), Some(name("n")), None, None, &name("Locked"));
    assert_eq!(outcome, WithStatus::Locked(sample_post()));
    let outcome = edit_post(&outcome, &name("alice"), None, None, None, &name("Removed"));
    assert_eq!(outcome, WithStatus::Removed(sample_post()));
    let outcome = edit_post(&outcome, &name("alice"), None, None, None, &name("Removed"));
    assert_eq!(outcome, WithStatus::NoPermission);
}

#[test]
fn likes_are_added_at_the_end_and_taken_from_the_front() {
    let stored = WithStatus::Open(sample_post());
    let liked = like_post(&stored, name("bob"));
    let liked_again = like_post(&liked, name("carol"));
    let mut expected = sample_post();
    expected.users_who_liked = names(&["carol", "bob", "carol"]);
    assert_eq!(liked_again, WithStatus::Open(expected));
    let unliked = unlike_post(&liked_again, &name("carol"));
    let mut expected = sample_post();
    expected.users_who_liked = names(&["bob", "carol"]);
    assert_eq!(unliked, WithStatus::Open(expected));
    assert_eq!(unlike_post(&unliked, &name("erin")), WithStatus::NotFound);
    assert_eq!(
        like_post(&WithStatus::Locked(sample_post()), name("bob")),
        WithStatus::NoPermission
    );
    assert_eq!(
        unlike_post(&WithStatus::Removed(sample_post()), &name("carol")),
        WithStatus::NoPermission
    );
}

#[test]
fn a_reply_needs_an_open_comment() {
    let stored = WithStatus::Open(sample_post());
    assert_eq!(add_comment(&stored, name("x"), Some(1), name("r")), WithStatus::NoPermission);
    assert_eq!(add_comment(&stored, name("x"), Some(2), name("r")), WithStatus::NoPermission);
    assert_eq!(add_comment(&stored, name("x"), Some(3), name("r")), WithStatus::NotFound);
    let outcome = add_comment(&stored, name("x"), Some(0), name("r"));
    let mut expected = sample_post();
    match &mut expected.comments[0] {
        WithStatus::Open(comment) => {
            comment.sub_comments.push(WithStatus::Open(SubComment::new(name("x"), name("r"))))
        }
        _ => unreachable!(),
    }
    assert_eq!(outcome, WithStatus::Open(expected));
    let outcome = add_comment(&stored, name("x"), None, name("c"));
    let mut expected = sample_post();
    expected.comments.push(WithStatus::Open(Comment::new(name("x"), name("c"))));
    assert_eq!(outcome, WithStatus::Open(expected));
}

#[test]
fn an_edit_of_a_sub_comment_touches_nothing_else() {
    let stored = WithStatus::Open(sample_post());
    let outcome =
        edit_comment(&stored, &name("carol"), 0, Some(0), name("changed"), Some(name("Open")));
    let mut expected = sample_post();
    match &mut expected.comments[0] {
        WithStatus::Open(comment) => match &mut comment.sub_comments[0] {
            WithStatus::Open(reply) => reply.content = name("changed"),
            _ => unreachable!(),
        },
        _ => unreachable!(),
    }
    assert_eq!(outcome, WithStatus::Open(expected));
    let outcome =
        edit_comment(&stored, &name("carol"), 0, Some(2), name("ignored"), Some(name("Removed")));
    let mut expected = sample_post();
    match &mut expected.comments[0] {
        WithStatus::Open(comment) => {
            let reply = match &comment.sub_comments[2] {
                WithStatus::Locked(reply) => reply.clone(),
                _ => unreachable!(),
            };
            comment.sub_comments[2] = WithStatus::Removed(reply);
        }
        _ => unreachable!(),
    }
    assert_eq!(outcome, WithStatus::Open(expected));
    assert_eq!(
        edit_comment(&stored, &name("dave"), 0, Some(1), name("x"), Some(name("Removed"))),
        WithStatus::NoPermission
    );
    assert_eq!(
        edit_comment(&stored, &name("carol"), 2, Some(0), name("x"), None),
        WithStatus::NoPermission
    );
    assert_eq!(
        edit_comment(&stored, &name("carol"), 1, Some(0), name("x"), None),
        WithStatus::NoPermission
    );
    assert_eq!(
        edit_comment(&stored, &name("carol"), 0, Some(3), name("x"), None),
        WithStatus::NotFound
    );
}

#[test]
fn a_locked_comment_can_only_be_removed() {
    let stored = WithStatus::Open(sample_post());
    for status in [None, Some("Open"), Some("Locked"), Some("nonsense")] {
        assert_eq!(
            edit_comment(&stored, &name("erin"), 2, None, name("x"), status.map(name)),
            WithStatus::NoPermission
        );
    }
    let outcome = edit_comment(&stored, &name("erin"), 2, None, name("x"), Some(name("Removed")));
    let mut expected = sample_post();
    let comment = match &expected.comments[2] {
        WithStatus::Locked(comment) => comment.clone(),
        _ => unreachable!(),
    };
    expected.comments[2] = WithStatus::Removed(comment);
    assert_eq!(outcome, WithStatus::Open(expected));
    assert_eq!(
        edit_comment(&stored, &name("bob"), 1, None, name("x"), Some(name("Removed"))),
        WithStatus::NoPermission
    );
}

#[test]
fn a_reader_sees_open_and_locked_entities_only() {
    let post = sample_post();
    let seen = post_shown(&post);
    assert_eq!(seen.id, 4);
    assert_eq!(seen.title, "title");
    assert_eq!(seen.content, "content");
    assert_eq!(seen.tags, names(&["x", "y"]));
    assert_eq!(seen.users_who_liked, names(&["carol"]));
    assert_eq!(seen.creator_user_id, "alice");
    assert_eq!(seen.comments.len(), 2);
    match &seen.comments[0] {
        WithStatus::Open(comment) => {
            assert_eq!(comment.content, "first");
            assert_eq!(comment.users_who_liked, names(&["alice"]));
            assert_eq!(comment.sub_comments.len(), 2);
            match &comment.sub_comments[0] {
                WithStatus::Open(reply) => assert_eq!(reply.content, "first-first"),
                other => panic!("expected an open sub-comment, got {:?}", other),
            }
            match &comment.sub_comments[1] {
                WithStatus::Locked(reply) => assert_eq!(reply.content, "first-third"),
                other => panic!("expected a locked sub-comment, got {:?}", other),
            }
        }
        other => panic!("expected an open comment, got {:?}", other),
    }
    match &seen.comments[1] {
        WithStatus::Locked(comment) => {
            assert_eq!(comment.content, "third");
            assert_eq!(comment.sub_comments.len(), 1);
        }
        other => panic!("expected a locked comment, got {:?}", other),
    }
    assert_eq!(post, sample_post());
    assert_eq!(post_shown(&seen), seen);
}

#[test]
fn the_filter_keeps_the_status_of_a_post() {
    let seen = post_shown(&sample_post());
    assert_eq!(entry_shown(&WithStatus::Open(sample_post())), Some(WithStatus::Open(seen.clone())));
    assert_eq!(entry_shown(&WithStatus::Locked(sample_post())), Some(WithStatus::Locked(seen)));
    assert_eq!(entry_shown(&WithStatus::Removed(sample_post())), None);
}

#[test]
fn a_comment_is_shown_without_its_removed_replies() {
    let comment = match &sample_post().comments[0] {
        WithStatus::Open(comment) => comment.clone(),
        _ => unreachable!(),
    };
    let seen = comment_shown(&comment);
    assert_eq!(seen.comment_creator_user_id, "bob");
    assert_eq!(seen.sub_comments.len(), 2);
    assert_eq!(comment_shown(&seen), seen);
}

#[test]
fn a_query_selects_by_text_tags_or_creator() {
    let post = sample_post();
    assert!(Query::All.selects(&post));
    assert!(Query::Text(name("itl")).selects(&post));
    assert!(Query::Text(name("tent")).selects(&post));
    assert!(!Query::Text(name("first")).selects(&post));
    assert!(Query::Tags(names(&["y", "x"])).selects(&post));
    assert!(!Query::Tags(names(&["y", "z"])).selects(&post));
    assert!(Query::Creator(name("alice")).selects(&post));
    assert!(!Query::Creator(name("bob")).selects(&post));
}

#[test]
fn an_answer_names_each_post_by_its_position() {
    let stored = vec![
        WithStatus::Removed(sample_post()),
        WithStatus::Open(sample_post()),
        WithStatus::NotFound,
        WithStatus::Locked(sample_post()),
    ];
    let answer = select(&stored, &Query::All);
    let seen = post_shown(&sample_post());
    assert_eq!(
        answer,
        vec![(1, WithStatus::Open(seen.clone())), (3, WithStatus::Locked(seen))]
    );
    assert!(select(&stored, &Query::Creator(name("bob"))).is_empty());
    assert!(select(&vec![], &Query::All).is_empty());
}
