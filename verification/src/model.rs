//! The mathematical model of the board: what a post, a comment and a
//! sub-comment are, and what each operation makes of a stored post.
//!
//! Every operation on a post is a function from the stored value to an
//! outcome. An outcome that carries an entity is the new stored value; the
//! outcomes `NotFound` and `NoPermission` leave the stored value as it was.

use crate::status::{may_mutate_spec, parse_status, requested_status, Status, WithStatus};
use vstd::prelude::*;

verus! {

/// A sub-comment: a reply to a comment.
#[verifier::ext_equal]
pub struct SubCommentView {
    pub comment_creator_user_id: Seq<char>,
    pub content: Seq<char>,
    pub users_who_liked: Seq<Seq<char>>,
}

/// A comment on a post, with the replies to it in the order they were made.
#[verifier::ext_equal]
pub struct CommentView {
    pub comment_creator_user_id: Seq<char>,
    pub content: Seq<char>,
    pub users_who_liked: Seq<Seq<char>>,
    pub sub_comments: Seq<WithStatus<SubCommentView>>,
}

/// A post, with its comments in the order they were made.
#[verifier::ext_equal]
pub struct PostView {
    pub id: u128,
    pub title: Seq<char>,
    pub content: Seq<char>,
    pub tags: Seq<Seq<char>>,
    pub users_who_liked: Seq<Seq<char>>,
    pub creator_user_id: Seq<char>,
    pub comments: Seq<WithStatus<CommentView>>,
}

/// A post as it is when `creator` has just published it.
pub open spec fn new_post(
    id: u128,
    creator: Seq<char>,
    title: Seq<char>,
    content: Seq<char>,
    tags: Seq<Seq<char>>,
) -> PostView {
    PostView {
        id,
        title,
        content,
        tags,
        users_who_liked: Seq::empty(),
        creator_user_id: creator,
        comments: Seq::empty(),
    }
}

/// A comment as it is when `creator` has just made it.
pub open spec fn new_comment(creator: Seq<char>, content: Seq<char>) -> CommentView {
    CommentView {
        comment_creator_user_id: creator,
        content,
        users_who_liked: Seq::empty(),
        sub_comments: Seq::empty(),
    }
}

/// A sub-comment as it is when `creator` has just made it.
pub open spec fn new_sub_comment(creator: Seq<char>, content: Seq<char>) -> SubCommentView {
    SubCommentView { comment_creator_user_id: creator, content, users_who_liked: Seq::empty() }
}

/// Whether a post holds only entities: no comment and no sub-comment slot
/// holds a call outcome in place of an entity.
pub open spec fn post_wf(post: PostView) -> bool {
    forall|i: int|
        0 <= i < post.comments.len() ==> {
            &&& (#[trigger] post.comments[i]).is_entity()
            &&& comment_wf(post.comments[i].item())
        }
}

/// Whether a comment holds only entities.
pub open spec fn comment_wf(comment: CommentView) -> bool {
    forall|j: int|
        0 <= j < comment.sub_comments.len() ==> (#[trigger] comment.sub_comments[j]).is_entity()
}

/// Whether a stored post entry is an entity that holds only entities.
pub open spec fn entry_wf(entry: WithStatus<PostView>) -> bool {
    entry.is_entity() && post_wf(entry.item())
}

/// The status that an entity takes when `caller` asks for `request`: the
/// requested status where the request names one and the access rule admits
/// it, and none otherwise.
pub open spec fn granted(
    caller: Seq<char>,
    creator: Seq<char>,
    current: Status,
    request: Option<Status>,
) -> Option<Status> {
    match request {
        Some(requested) => if may_mutate_spec(caller, creator, current, requested) {
            Some(requested)
        } else {
            None
        },
        None => None,
    }
}

/// A post with the given fields put in place of its own; a field that is
/// not given stays.
pub open spec fn revised_post(
    post: PostView,
    title: Option<Seq<char>>,
    content: Option<Seq<char>>,
    tags: Option<Seq<Seq<char>>>,
) -> PostView {
    PostView {
        title: match title {
            Some(title) => title,
            None => post.title,
        },
        content: match content {
            Some(content) => content,
            None => post.content,
        },
        tags: match tags {
            Some(tags) => tags,
            None => post.tags,
        },
        ..post
    }
}

/// What `edit_post` makes of a stored post.
///
/// The call is refused unless `status` names a status that the access rule
/// admits for `caller`. The post then takes that status. The given fields
/// replace the post's own only where the post stays open: a call that locks
/// or removes the post changes nothing else.
pub open spec fn edit_post(
    entry: WithStatus<PostView>,
    caller: Seq<char>,
    title: Option<Seq<char>>,
    content: Option<Seq<char>>,
    tags: Option<Seq<Seq<char>>>,
    status: Seq<char>,
) -> WithStatus<PostView> {
    match entry.status() {
        None => WithStatus::NotFound,
        Some(current) => {
            let post = entry.item();
            match granted(caller, post.creator_user_id, current, parse_status(status)) {
                None => WithStatus::NoPermission,
                Some(Status::Open) => WithStatus::Open(revised_post(post, title, content, tags)),
                Some(next) => WithStatus::of(next, post),
            }
        },
    }
}

/// What `like_post` makes of a stored post: an open post gains `caller` at
/// the end of its list of likes, whether or not `caller` is in it already.
pub open spec fn like_post(entry: WithStatus<PostView>, caller: Seq<char>) -> WithStatus<PostView> {
    match entry {
        WithStatus::Open(post) => WithStatus::Open(
            PostView { users_who_liked: post.users_who_liked.push(caller), ..post },
        ),
        WithStatus::Locked(_) => WithStatus::NoPermission,
        WithStatus::Removed(_) => WithStatus::NoPermission,
        _ => WithStatus::NotFound,
    }
}

/// What `unlike_post` makes of a stored post: an open post loses the first
/// occurrence of `caller` in its list of likes; where there is none, nothing
/// is found.
pub open spec fn unlike_post(entry: WithStatus<PostView>, caller: Seq<char>) -> WithStatus<
    PostView,
> {
    match entry {
        WithStatus::Open(post) => match post.users_who_liked.index_of_first(caller) {
            Some(at) => WithStatus::Open(
                PostView { users_who_liked: post.users_who_liked.remove(at), ..post },
            ),
            None => WithStatus::NotFound,
        },
        WithStatus::Locked(_) => WithStatus::NoPermission,
        WithStatus::Removed(_) => WithStatus::NoPermission,
        _ => WithStatus::NotFound,
    }
}

/// The comment entry that `comment_id` addresses in a stored post, or
/// `NotFound`.
pub open spec fn comment_at(entry: WithStatus<PostView>, comment_id: u128) -> WithStatus<
    CommentView,
> {
    if entry.is_entity() && comment_id < entry.item().comments.len()
        && entry.item().comments[comment_id as int].is_entity() {
        entry.item().comments[comment_id as int]
    } else {
        WithStatus::NotFound
    }
}

/// The sub-comment entry that `sub_comment_id` addresses in a comment entry,
/// or `NotFound`.
pub open spec fn sub_comment_at(entry: WithStatus<CommentView>, sub_comment_id: u128) -> WithStatus<
    SubCommentView,
> {
    if entry.is_entity() && sub_comment_id < entry.item().sub_comments.len()
        && entry.item().sub_comments[sub_comment_id as int].is_entity() {
        entry.item().sub_comments[sub_comment_id as int]
    } else {
        WithStatus::NotFound
    }
}

/// A post with the entry of its comment `comment_id` replaced.
pub open spec fn with_comment(
    post: PostView,
    comment_id: u128,
    entry: WithStatus<CommentView>,
) -> PostView {
    PostView { comments: post.comments.update(comment_id as int, entry), ..post }
}

/// A comment with the entry of its sub-comment `sub_comment_id` replaced.
pub open spec fn with_sub_comment(
    comment: CommentView,
    sub_comment_id: u128,
    entry: WithStatus<SubCommentView>,
) -> CommentView {
    CommentView {
        sub_comments: comment.sub_comments.update(sub_comment_id as int, entry),
        ..comment
    }
}

/// What `add_comment` makes of a stored post.
///
/// Without a `comment_id` a new open comment by `caller` goes to the end of
/// the post's comments. With one, a new open sub-comment by `caller` goes to
/// the end of that comment's sub-comments. The post, and the comment where
/// one is addressed, must exist and be open. Anyone may comment.
pub open spec fn add_comment(
    entry: WithStatus<PostView>,
    caller: Seq<char>,
    comment_id: Option<u128>,
    content: Seq<char>,
) -> WithStatus<PostView> {
    if !entry.is_entity() {
        WithStatus::NotFound
    } else {
        let post = entry.item();
        match comment_id {
            None => if entry is Open {
                let comment = WithStatus::Open(new_comment(caller, content));
                WithStatus::Open(PostView { comments: post.comments.push(comment), ..post })
            } else {
                WithStatus::NoPermission
            },
            Some(comment_id) => {
                let target = comment_at(entry, comment_id);
                if !target.is_entity() {
                    WithStatus::NotFound
                } else if entry is Open && target is Open {
                    let comment = target.item();
                    let reply = WithStatus::Open(new_sub_comment(caller, content));
                    WithStatus::Open(
                        with_comment(
                            post,
                            comment_id,
                            WithStatus::Open(
                                CommentView {
                                    sub_comments: comment.sub_comments.push(reply),
                                    ..comment
                                },
                            ),
                        ),
                    )
                } else {
                    WithStatus::NoPermission
                }
            },
        }
    }
}

/// A comment in the status `next`; its text is replaced only where it stays
/// open.
pub open spec fn edited_comment(
    comment: CommentView,
    content: Seq<char>,
    next: Status,
) -> WithStatus<CommentView> {
    match next {
        Status::Open => WithStatus::Open(CommentView { content, ..comment }),
        _ => WithStatus::of(next, comment),
    }
}

/// A sub-comment in the status `next`; its text is replaced only where it
/// stays open.
pub open spec fn edited_sub_comment(
    sub_comment: SubCommentView,
    content: Seq<char>,
    next: Status,
) -> WithStatus<SubCommentView> {
    match next {
        Status::Open => WithStatus::Open(SubCommentView { content, ..sub_comment }),
        _ => WithStatus::of(next, sub_comment),
    }
}

/// What `edit_comment` makes of a stored post.
///
/// The call addresses the comment `comment_id`, or, with a `sub_comment_id`,
/// that sub-comment of it. What it addresses must exist: otherwise nothing is
/// found. Everything above the addressed entity must be open, and the access
/// rule must admit the requested status for `caller`: otherwise the call is
/// refused. A call that names no status asks for the entity to stay open.
/// The entity takes the requested status, and `content` replaces its text
/// where it stays open. Every other comment and sub-comment keeps its place
/// and its value. The outcome is the whole post, which stays open.
pub open spec fn edit_comment(
    entry: WithStatus<PostView>,
    caller: Seq<char>,
    comment_id: u128,
    sub_comment_id: Option<u128>,
    content: Seq<char>,
    status: Option<Seq<char>>,
) -> WithStatus<PostView> {
    let target = comment_at(entry, comment_id);
    if !target.is_entity() {
        WithStatus::NotFound
    } else {
        let post = entry.item();
        let comment = target.item();
        let request = requested_status(status);
        match sub_comment_id {
            None => match granted(
                caller,
                comment.comment_creator_user_id,
                target.status()->0,
                request,
            ) {
                Some(next) if entry is Open => WithStatus::Open(
                    with_comment(post, comment_id, edited_comment(comment, content, next)),
                ),
                _ => WithStatus::NoPermission,
            },
            Some(sub_comment_id) => {
                let sub_target = sub_comment_at(target, sub_comment_id);
                if !sub_target.is_entity() {
                    WithStatus::NotFound
                } else {
                    let sub_comment = sub_target.item();
                    match granted(
                        caller,
                        sub_comment.comment_creator_user_id,
                        sub_target.status()->0,
                        request,
                    ) {
                        Some(next) if entry is Open && target is Open => WithStatus::Open(
                            with_comment(
                                post,
                                comment_id,
                                WithStatus::Open(
                                    with_sub_comment(
                                        comment,
                                        sub_comment_id,
                                        edited_sub_comment(sub_comment, content, next),
                                    ),
                                ),
                            ),
                        ),
                        _ => WithStatus::NoPermission,
                    }
                }
            },
        }
    }
}

} // verus!
