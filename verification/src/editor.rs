//! The operations on one stored post: editing it, liking it, commenting on
//! it, and editing a comment or sub-comment inside it.
//!
//! Each operation reads the stored entry and builds its outcome as a new
//! value. Where the outcome carries a post, that post is the entry to store
//! in place of the one that was read; every part of it that the call did not
//! address is a copy of what was there. Where the outcome is `NotFound` or
//! `NoPermission`, the stored entry stays.

use crate::model;
use crate::model::{granted, with_comment, with_sub_comment};
use crate::post::{clone_comments, clone_sub_comments, Comment, Post, SubComment};
use crate::status::{
    entry_views, may_mutate, requested_status, status_from_name, Status, WithStatus,
};
use crate::text::{clone_texts, first_position, text_of, texts, texts_of};
use vstd::prelude::*;

verus! {

/// Reads the status that a call asks for: a call that names none asks for
/// the entity to stay open.
pub fn status_requested(name: &Option<String>) -> (request: Option<Status>)
    ensures
        request == requested_status(text_of(*name)),
{
    match name {
        None => Some(Status::Open),
        Some(name) => status_from_name(name),
    }
}

/// Decides which status an entity takes in answer to a request, if any.
pub fn grant(caller: &String, creator: &String, current: Status, request: Option<Status>) -> (next:
    Option<Status>)
    ensures
        next == granted(caller@, creator@, current, request),
{
    match request {
        Some(requested) => if may_mutate(caller, creator, current, requested) {
            Some(requested)
        } else {
            None
        },
        None => None,
    }
}

/// A copy of `post` with the entry of its comment at `at` replaced.
fn replace_comment(post: &Post, at: usize, entry: WithStatus<Comment>) -> (changed: Post)
    requires
        at < post.comments.len(),
    ensures
        changed@ == with_comment(post@, at as u128, entry@),
{
    let mut comments = clone_comments(&post.comments);
    let ghost copied = comments@;
    comments.set(at, entry);
    let changed = Post {
        id: post.id,
        title: post.title.clone(),
        content: post.content.clone(),
        tags: clone_texts(&post.tags),
        users_who_liked: clone_texts(&post.users_who_liked),
        creator_user_id: post.creator_user_id.clone(),
        comments,
    };
    proof {
        assert(entry_views(copied).len() == copied.len());
    }
    changed
}

/// A copy of `comment` with the entry of its sub-comment at `at` replaced.
fn replace_sub_comment(comment: &Comment, at: usize, entry: WithStatus<SubComment>) -> (changed:
    Comment)
    requires
        at < comment.sub_comments.len(),
    ensures
        changed@ == with_sub_comment(comment@, at as u128, entry@),
{
    let mut sub_comments = clone_sub_comments(&comment.sub_comments);
    let ghost copied = sub_comments@;
    sub_comments.set(at, entry);
    let changed = Comment {
        comment_creator_user_id: comment.comment_creator_user_id.clone(),
        content: comment.content.clone(),
        users_who_liked: clone_texts(&comment.users_who_liked),
        sub_comments,
    };
    proof {
        assert(entry_views(copied).len() == copied.len());
    }
    changed
}

/// Edits a stored post on behalf of `caller`.
///
/// `status` names the status that the post is to take. Only the creator of
/// the post may edit it; an open post may take any status, a locked one may
/// only be removed, a removed one takes no edit. `title`, `content` and
/// `tags` replace the post's own where they are given and the post stays
/// open; a call that locks or removes the post leaves them unread.
pub fn edit_post(
    entry: &WithStatus<Post>,
    caller: &String,
    title: Option<String>,
    content: Option<String>,
    tags: Option<Vec<String>>,
    status: &String,
) -> (outcome: WithStatus<Post>)
    ensures
        outcome@ == model::edit_post(
            entry@,
            caller@,
            text_of(title),
            text_of(content),
            texts_of(tags),
            status@,
        ),
{
    let (current, post) = match entry {
        WithStatus::Open(post) => (Status::Open, post),
        WithStatus::Locked(post) => (Status::Locked, post),
        WithStatus::Removed(post) => (Status::Removed, post),
        _ => {
            return WithStatus::NotFound;
        },
    };
    match grant(caller, &post.creator_user_id, current, status_from_name(status)) {
        None => WithStatus::NoPermission,
        Some(Status::Open) => WithStatus::Open(
            Post {
                id: post.id,
                title: match title {
                    Some(title) => title,
                    None => post.title.clone(),
                },
                content: match content {
                    Some(content) => content,
                    None => post.content.clone(),
                },
                tags: match tags {
                    Some(tags) => tags,
                    None => clone_texts(&post.tags),
                },
                users_who_liked: clone_texts(&post.users_who_liked),
                creator_user_id: post.creator_user_id.clone(),
                comments: clone_comments(&post.comments),
            },
        ),
        Some(next) => WithStatus::with_status(next, post.clone()),
    }
}

/// Records that `caller` likes a stored post. Only an open post takes
/// likes. A caller who likes a post twice stands in its list twice.
pub fn like_post(entry: &WithStatus<Post>, caller: String) -> (outcome: WithStatus<Post>)
    ensures
        outcome@ == model::like_post(entry@, caller@),
{
    match entry {
        WithStatus::Open(post) => {
            let mut liked = post.clone();
            liked.users_who_liked.push(caller);
            WithStatus::Open(liked)
        },
        WithStatus::Locked(_) => WithStatus::NoPermission,
        WithStatus::Removed(_) => WithStatus::NoPermission,
        _ => WithStatus::NotFound,
    }
}

/// Withdraws one like of `caller` from a stored post: the first in the
/// list. Only an open post gives likes back.
pub fn unlike_post(entry: &WithStatus<Post>, caller: &String) -> (outcome: WithStatus<Post>)
    ensures
        outcome@ == model::unlike_post(entry@, caller@),
{
    match entry {
        WithStatus::Open(post) => match first_position(&post.users_who_liked, caller) {
            Some(at) => {
                proof {
                    texts(post.users_who_liked@).index_of_first_ensures(caller@);
                }
                let mut unliked = post.clone();
                unliked.users_who_liked.remove(at);
                WithStatus::Open(unliked)
            },
            None => WithStatus::NotFound,
        },
        WithStatus::Locked(_) => WithStatus::NoPermission,
        WithStatus::Removed(_) => WithStatus::NoPermission,
        _ => WithStatus::NotFound,
    }
}

/// Adds a comment by `caller` to a stored post, or, where `comment_id` is
/// given, a sub-comment to that comment. The new entity is open and goes to
/// the end of its list, so that every earlier one keeps its position.
pub fn add_comment(
    entry: &WithStatus<Post>,
    caller: String,
    comment_id: Option<u128>,
    content: String,
) -> (outcome: WithStatus<Post>)
    ensures
        outcome@ == model::add_comment(entry@, caller@, comment_id, content@),
{
    let post = match entry.get() {
        Some(post) => post,
        None => {
            return WithStatus::NotFound;
        },
    };
    match comment_id {
        None => {
            if !matches!(entry, WithStatus::Open(_)) {
                return WithStatus::NoPermission;
            }
            let mut changed = post.clone();
            changed.comments.push(WithStatus::Open(Comment::new(caller, content)));
            WithStatus::Open(changed)
        },
        Some(comment_id) => {
            if comment_id >= post.comments.len() as u128 {
                return WithStatus::NotFound;
            }
            let at: usize = comment_id as usize;
            let target = &post.comments[at];
            match target {
                WithStatus::Open(comment) => {
                    if !matches!(entry, WithStatus::Open(_)) {
                        return WithStatus::NoPermission;
                    }
                    let mut answered = comment.clone();
                    answered.sub_comments.push(WithStatus::Open(SubComment::new(caller, content)));
                    assert(answered@.sub_comments =~= comment@.sub_comments.push(
                        WithStatus::Open(model::new_sub_comment(caller@, content@)),
                    ));
                    WithStatus::Open(replace_comment(post, at, WithStatus::Open(answered)))
                },
                WithStatus::Locked(_) => WithStatus::NoPermission,
                WithStatus::Removed(_) => WithStatus::NoPermission,
                _ => WithStatus::NotFound,
            }
        },
    }
}

/// A comment in the status `next`, with `content` as its text where it
/// stays open.
fn comment_edited(comment: &Comment, content: String, next: Status) -> (edited: WithStatus<Comment>)
    ensures
        edited@ == model::edited_comment(comment@, content@, next),
{
    match next {
        Status::Open => WithStatus::Open(
            Comment {
                comment_creator_user_id: comment.comment_creator_user_id.clone(),
                content,
                users_who_liked: clone_texts(&comment.users_who_liked),
                sub_comments: clone_sub_comments(&comment.sub_comments),
            },
        ),
        _ => WithStatus::with_status(next, comment.clone()),
    }
}

/// A sub-comment in the status `next`, with `content` as its text where it
/// stays open.
fn sub_comment_edited(sub_comment: &SubComment, content: String, next: Status) -> (edited:
    WithStatus<SubComment>)
    ensures
        edited@ == model::edited_sub_comment(sub_comment@, content@, next),
{
    match next {
        Status::Open => WithStatus::Open(
            SubComment {
                comment_creator_user_id: sub_comment.comment_creator_user_id.clone(),
                content,
                users_who_liked: clone_texts(&sub_comment.users_who_liked),
            },
        ),
        _ => WithStatus::with_status(next, sub_comment.clone()),
    }
}

/// Edits a comment of a stored post on behalf of `caller`, or, where
/// `sub_comment_id` is given, that sub-comment of the comment.
///
/// Only the creator of the addressed entity may edit it, and only while
/// everything above it is open. `status` names the status that the entity is
/// to take; without one it stays open. An open entity may take any status, a
/// locked one may only be removed, a removed one takes no edit. `content`
/// replaces the text of the entity where it stays open. The outcome is the
/// whole post, in which every other comment and sub-comment stands where it
/// stood.
pub fn edit_comment(
    entry: &WithStatus<Post>,
    caller: &String,
    comment_id: u128,
    sub_comment_id: Option<u128>,
    content: String,
    status: Option<String>,
) -> (outcome: WithStatus<Post>)
    ensures
        outcome@ == model::edit_comment(
            entry@,
            caller@,
            comment_id,
            sub_comment_id,
            content@,
            text_of(status),
        ),
{
    let post = match entry.get() {
        Some(post) => post,
        None => {
            return WithStatus::NotFound;
        },
    };
    if comment_id >= post.comments.len() as u128 {
        return WithStatus::NotFound;
    }
    let at: usize = comment_id as usize;
    let target = &post.comments[at];
    let (current, comment) = match target {
        WithStatus::Open(comment) => (Status::Open, comment),
        WithStatus::Locked(comment) => (Status::Locked, comment),
        WithStatus::Removed(comment) => (Status::Removed, comment),
        _ => {
            return WithStatus::NotFound;
        },
    };
    let post_open = matches!(entry, WithStatus::Open(_));
    let request = status_requested(&status);
    match sub_comment_id {
        None => match grant(caller, &comment.comment_creator_user_id, current, request) {
            Some(next) => if post_open {
                WithStatus::Open(replace_comment(post, at, comment_edited(comment, content, next)))
            } else {
                WithStatus::NoPermission
            },
            None => WithStatus::NoPermission,
        },
        Some(sub_comment_id) => {
            if sub_comment_id >= comment.sub_comments.len() as u128 {
                return WithStatus::NotFound;
            }
            let sub_at: usize = sub_comment_id as usize;
            let sub_target = &comment.sub_comments[sub_at];
            let (sub_current, sub_comment) = match sub_target {
                WithStatus::Open(sub_comment) => (Status::Open, sub_comment),
                WithStatus::Locked(sub_comment) => (Status::Locked, sub_comment),
                WithStatus::Removed(sub_comment) => (Status::Removed, sub_comment),
                _ => {
                    return WithStatus::NotFound;
                },
            };
            match grant(caller, &sub_comment.comment_creator_user_id, sub_current, request) {
                Some(next) => if post_open && current == Status::Open {
                    let edited = sub_comment_edited(sub_comment, content, next);
                    let changed = replace_sub_comment(comment, sub_at, edited);
                    WithStatus::Open(replace_comment(post, at, WithStatus::Open(changed)))
                } else {
                    WithStatus::NoPermission
                },
                None => WithStatus::NoPermission,
            }
        },
    }
}

} // verus!
