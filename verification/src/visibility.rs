//! The visibility filter: what a reader gets to see of a stored post.
//!
//! A removed comment or sub-comment stays in storage but is left out of
//! every value handed to a reader. Locked entities are shown like open ones.
//! The filter makes a new value; the stored one is not touched.

use crate::model::{CommentView, PostView, SubCommentView};
use crate::post::{Comment, Post, SubComment};
use crate::status::{entry_views, WithStatus};
use crate::text::clone_texts;
use vstd::prelude::*;

verus! {

/// The test that the filter applies to an entry: open or locked.
pub open spec fn shown<T>() -> spec_fn(WithStatus<T>) -> bool {
    |entry: WithStatus<T>| entry.is_visible()
}

/// The sub-comments of a list that a reader sees, in their order.
pub open spec fn visible_sub_comments(list: Seq<WithStatus<SubCommentView>>) -> Seq<
    WithStatus<SubCommentView>,
> {
    list.filter(shown())
}

/// A comment as a reader sees it: without its removed sub-comments.
pub open spec fn visible_comment(comment: CommentView) -> CommentView {
    CommentView { sub_comments: visible_sub_comments(comment.sub_comments), ..comment }
}

/// A comment entry as a reader sees it.
pub open spec fn visible_comment_entry(entry: WithStatus<CommentView>) -> WithStatus<CommentView> {
    match entry {
        WithStatus::Open(comment) => WithStatus::Open(visible_comment(comment)),
        WithStatus::Locked(comment) => WithStatus::Locked(visible_comment(comment)),
        _ => entry,
    }
}

/// The comments of a list that a reader sees, in their order, each as a
/// reader sees it.
pub open spec fn visible_comments(list: Seq<WithStatus<CommentView>>) -> Seq<
    WithStatus<CommentView>,
> {
    list.filter(shown()).map_values(|entry: WithStatus<CommentView>| visible_comment_entry(entry))
}

/// A post as a reader sees it: without its removed comments, and each
/// comment without its removed sub-comments.
pub open spec fn visible_post(post: PostView) -> PostView {
    PostView { comments: visible_comments(post.comments), ..post }
}

/// A post entry as a reader sees it.
pub open spec fn visible_entry(entry: WithStatus<PostView>) -> WithStatus<PostView> {
    match entry {
        WithStatus::Open(post) => WithStatus::Open(visible_post(post)),
        WithStatus::Locked(post) => WithStatus::Locked(visible_post(post)),
        _ => entry,
    }
}

/// Filtering the first `n + 1` items is filtering the first `n` and then
/// deciding on the next one.
pub proof fn lemma_filter_next<A>(list: Seq<A>, keep: spec_fn(A) -> bool, n: int)
    requires
        0 <= n < list.len(),
    ensures
        list.take(n + 1).filter(keep) == if keep(list[n]) {
            list.take(n).filter(keep).push(list[n])
        } else {
            list.take(n).filter(keep)
        },
{
    reveal(Seq::filter);
    assert(list.take(n + 1).drop_last() =~= list.take(n));
}

/// The filter keeps exactly the open and the locked items, in their order:
/// nothing removed comes through, and nothing visible is lost.
pub proof fn lemma_filter_keeps_visible<T>(list: Seq<WithStatus<T>>)
    ensures
        forall|i: int|
            0 <= i < list.filter(shown()).len() ==> (#[trigger] list.filter(
                shown(),
            )[i]).is_visible(),
        forall|i: int|
            0 <= i < list.len() && list[i].is_visible() ==> list.filter(shown()).contains(
                #[trigger] list[i],
            ),
        list.filter(shown()).len() <= list.len(),
{
    list.lemma_filter_len(shown());
    assert forall|i: int| 0 <= i < list.filter(shown()).len() implies (#[trigger] list.filter(
        shown(),
    )[i]).is_visible() by {
        list.lemma_filter_pred(shown(), i);
    }
    assert forall|i: int| 0 <= i < list.len() && list[i].is_visible() implies list.filter(
        shown(),
    ).contains(#[trigger] list[i]) by {
        list.lemma_filter_contains(shown(), i);
    }
}

/// Filtering what is already filtered changes nothing.
pub proof fn lemma_filter_twice<T>(list: Seq<WithStatus<T>>)
    ensures
        list.filter(shown()).filter(shown()) == list.filter(shown()),
    decreases list.len(),
{
    reveal(Seq::filter);
    if list.len() > 0 {
        lemma_filter_twice(list.drop_last());
        let front = list.drop_last().filter(shown::<T>());
        if shown::<T>()(list.last()) {
            assert(front.push(list.last()).drop_last() =~= front);
        }
    }
}

/// The sub-comments of a list that a reader sees.
pub fn sub_comments_shown(list: &Vec<WithStatus<SubComment>>) -> (seen: Vec<WithStatus<SubComment>>)
    ensures
        entry_views(seen@) == visible_sub_comments(entry_views(list@)),
{
    let mut seen: Vec<WithStatus<SubComment>> = Vec::new();
    let mut i: usize = 0;
    proof {
        reveal(Seq::filter);
    }
    while i < list.len()
        invariant
            i <= list.len(),
            entry_views(seen@) == visible_sub_comments(entry_views(list@).take(i as int)),
        decreases list.len() - i,
    {
        proof {
            lemma_filter_next(entry_views(list@), shown(), i as int);
        }
        if list[i].is_visible() {
            seen.push(list[i].clone());
        }
        i += 1;
    }
    assert(entry_views(list@).take(list@.len() as int) =~= entry_views(list@));
    seen
}

/// A comment as a reader sees it.
pub fn comment_shown(comment: &Comment) -> (seen: Comment)
    ensures
        seen@ == visible_comment(comment@),
{
    Comment {
        comment_creator_user_id: comment.comment_creator_user_id.clone(),
        content: comment.content.clone(),
        users_who_liked: clone_texts(&comment.users_who_liked),
        sub_comments: sub_comments_shown(&comment.sub_comments),
    }
}

/// The comments of a list that a reader sees, each as a reader sees it.
pub fn comments_shown(list: &Vec<WithStatus<Comment>>) -> (seen: Vec<WithStatus<Comment>>)
    ensures
        entry_views(seen@) == visible_comments(entry_views(list@)),
{
    let mut seen: Vec<WithStatus<Comment>> = Vec::new();
    let mut i: usize = 0;
    proof {
        reveal(Seq::filter);
    }
    while i < list.len()
        invariant
            i <= list.len(),
            entry_views(seen@) == visible_comments(entry_views(list@).take(i as int)),
        decreases list.len() - i,
    {
        proof {
            lemma_filter_next(entry_views(list@), shown(), i as int);
        }
        let ghost before = seen@;
        match &list[i] {
            WithStatus::Open(comment) => {
                seen.push(WithStatus::Open(comment_shown(comment)));
                assert(entry_views(seen@) =~= entry_views(before).push(
                    visible_comment_entry(list@[i as int]@),
                ));
            },
            WithStatus::Locked(comment) => {
                seen.push(WithStatus::Locked(comment_shown(comment)));
                assert(entry_views(seen@) =~= entry_views(before).push(
                    visible_comment_entry(list@[i as int]@),
                ));
            },
            _ => {},
        }
        i += 1;
    }
    assert(entry_views(list@).take(list@.len() as int) =~= entry_views(list@));
    seen
}

/// A post as a reader sees it.
pub fn post_shown(post: &Post) -> (seen: Post)
    ensures
        seen@ == visible_post(post@),
{
    Post {
        id: post.id,
        title: post.title.clone(),
        content: post.content.clone(),
        tags: clone_texts(&post.tags),
        users_who_liked: clone_texts(&post.users_who_liked),
        creator_user_id: post.creator_user_id.clone(),
        comments: comments_shown(&post.comments),
    }
}

/// A post entry as a reader sees it, or nothing where the post is removed
/// or the entry holds no post.
pub fn entry_shown(entry: &WithStatus<Post>) -> (seen: Option<WithStatus<Post>>)
    ensures
        match seen {
            Some(seen) => entry@.is_visible() && seen@ == visible_entry(entry@),
            None => !entry@.is_visible(),
        },
{
    match entry {
        WithStatus::Open(post) => Some(WithStatus::Open(post_shown(post))),
        WithStatus::Locked(post) => Some(WithStatus::Locked(post_shown(post))),
        _ => None,
    }
}

} // verus!
