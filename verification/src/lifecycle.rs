//! What every operation on a stored post keeps: its identifier, its
//! well-formedness, and the direction of every lifecycle.
//!
//! No operation moves a post, a comment or a sub-comment back towards
//! `Open`, and none takes an entity away or changes its position.

use crate::model::{
    add_comment, edit_comment, edit_post, entry_wf, like_post, unlike_post, CommentView, PostView,
    SubCommentView,
};
use crate::status::{rank, WithStatus};
use vstd::prelude::*;

verus! {

/// Whether `after` can be a later state of the entry `before`: where
/// `before` holds an entity, `after` holds one too, and its status is the
/// same or further along the lifecycle.
pub open spec fn advanced<T>(before: WithStatus<T>, after: WithStatus<T>) -> bool {
    before.is_entity() ==> after.is_entity() && rank(before.status()->0) <= rank(
        after.status()->0,
    )
}

/// Whether `after` can be a later state of the sub-comments `before`: each
/// one is still at its position, and none has moved back.
pub open spec fn sub_comments_advanced(
    before: Seq<WithStatus<SubCommentView>>,
    after: Seq<WithStatus<SubCommentView>>,
) -> bool {
    &&& before.len() <= after.len()
    &&& forall|j: int| 0 <= j < before.len() ==> advanced(#[trigger] before[j], after[j])
}

/// Whether `after` can be a later state of the comments `before`: each one
/// is still at its position, and neither it nor any of its sub-comments has
/// moved back.
pub open spec fn comments_advanced(
    before: Seq<WithStatus<CommentView>>,
    after: Seq<WithStatus<CommentView>>,
) -> bool {
    &&& before.len() <= after.len()
    &&& forall|i: int|
        0 <= i < before.len() ==> {
            &&& advanced(#[trigger] before[i], after[i])
            &&& before[i].is_entity() ==> sub_comments_advanced(
                before[i].item().sub_comments,
                after[i].item().sub_comments,
            )
        }
}

/// Whether `after` can be a later state of the stored post `before`: it is
/// the post with the same identifier, it holds only entities if `before`
/// did, and neither the post nor anything in it has moved back.
pub open spec fn follows(before: WithStatus<PostView>, after: WithStatus<PostView>) -> bool {
    &&& advanced(before, after)
    &&& before.is_entity() ==> {
        &&& after.item().id == before.item().id
        &&& comments_advanced(before.item().comments, after.item().comments)
    }
    &&& entry_wf(before) ==> entry_wf(after)
}

/// A stored post is a later state of itself.
pub proof fn lemma_follows_itself(entry: WithStatus<PostView>)
    ensures
        follows(entry, entry),
{
}

/// A later state of a later state is a later state.
pub proof fn lemma_follows_chain(
    first: WithStatus<PostView>,
    second: WithStatus<PostView>,
    third: WithStatus<PostView>,
)
    requires
        follows(first, second),
        follows(second, third),
    ensures
        follows(first, third),
{
}

/// Where `edit_post` yields a post, that post is a later state of the
/// stored one.
pub proof fn lemma_edit_post_follows(
    entry: WithStatus<PostView>,
    caller: Seq<char>,
    title: Option<Seq<char>>,
    content: Option<Seq<char>>,
    tags: Option<Seq<Seq<char>>>,
    status: Seq<char>,
)
    ensures
        edit_post(entry, caller, title, content, tags, status).is_entity() ==> follows(
            entry,
            edit_post(entry, caller, title, content, tags, status),
        ),
{
}

/// Where `like_post` yields a post, that post is a later state of the
/// stored one.
pub proof fn lemma_like_post_follows(entry: WithStatus<PostView>, caller: Seq<char>)
    ensures
        like_post(entry, caller).is_entity() ==> follows(entry, like_post(entry, caller)),
{
}

/// Where `unlike_post` yields a post, that post is a later state of the
/// stored one.
pub proof fn lemma_unlike_post_follows(entry: WithStatus<PostView>, caller: Seq<char>)
    ensures
        unlike_post(entry, caller).is_entity() ==> follows(entry, unlike_post(entry, caller)),
{
}

/// Where `add_comment` yields a post, that post is a later state of the
/// stored one.
pub proof fn lemma_add_comment_follows(
    entry: WithStatus<PostView>,
    caller: Seq<char>,
    comment_id: Option<u128>,
    content: Seq<char>,
)
    ensures
        add_comment(entry, caller, comment_id, content).is_entity() ==> follows(
            entry,
            add_comment(entry, caller, comment_id, content),
        ),
{
}

/// Where `edit_comment` yields a post, that post is a later state of the
/// stored one.
pub proof fn lemma_edit_comment_follows(
    entry: WithStatus<PostView>,
    caller: Seq<char>,
    comment_id: u128,
    sub_comment_id: Option<u128>,
    content: Seq<char>,
    status: Option<Seq<char>>,
)
    ensures
        edit_comment(entry, caller, comment_id, sub_comment_id, content, status).is_entity()
            ==> follows(
            entry,
            edit_comment(entry, caller, comment_id, sub_comment_id, content, status),
        ),
{
}

} // verus!
