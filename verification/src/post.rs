//! Posts, comments and sub-comments as the board stores them.

use crate::model::{new_comment, new_post, new_sub_comment, CommentView, PostView, SubCommentView};
use crate::status::{entry_views, WithStatus};
use crate::text::{clone_texts, texts};
use vstd::prelude::*;

verus! {

/// A reply to a comment.
#[derive(Debug, PartialEq, Eq)]
pub struct SubComment {
    /// Who wrote it.
    pub comment_creator_user_id: String,
    /// Its text.
    pub content: String,
    /// Who liked it, in the order the likes came.
    pub users_who_liked: Vec<String>,
}

/// A comment on a post.
#[derive(Debug, PartialEq, Eq)]
pub struct Comment {
    /// Who wrote it.
    pub comment_creator_user_id: String,
    /// Its text.
    pub content: String,
    /// Who liked it, in the order the likes came.
    pub users_who_liked: Vec<String>,
    /// The replies to it, in the order they were made.
    pub sub_comments: Vec<WithStatus<SubComment>>,
}

/// A post.
#[derive(Debug, PartialEq, Eq)]
pub struct Post {
    /// Its identifier, given when it was published and never changed.
    pub id: u128,
    /// Its title.
    pub title: String,
    /// Its text.
    pub content: String,
    /// Its tags.
    pub tags: Vec<String>,
    /// Who liked it, in the order the likes came.
    pub users_who_liked: Vec<String>,
    /// Who published it.
    pub creator_user_id: String,
    /// The comments on it, in the order they were made.
    pub comments: Vec<WithStatus<Comment>>,
}

impl View for SubComment {
    type V = SubCommentView;

    open spec fn view(&self) -> SubCommentView {
        SubCommentView {
            comment_creator_user_id: self.comment_creator_user_id@,
            content: self.content@,
            users_who_liked: texts(self.users_who_liked@),
        }
    }
}

impl View for Comment {
    type V = CommentView;

    open spec fn view(&self) -> CommentView {
        CommentView {
            comment_creator_user_id: self.comment_creator_user_id@,
            content: self.content@,
            users_who_liked: texts(self.users_who_liked@),
            sub_comments: entry_views(self.sub_comments@),
        }
    }
}

impl View for Post {
    type V = PostView;

    open spec fn view(&self) -> PostView {
        PostView {
            id: self.id,
            title: self.title@,
            content: self.content@,
            tags: texts(self.tags@),
            users_who_liked: texts(self.users_who_liked@),
            creator_user_id: self.creator_user_id@,
            comments: entry_views(self.comments@),
        }
    }
}

impl SubComment {
    /// A sub-comment by `creator` that nobody has liked yet.
    pub fn new(creator: String, content: String) -> (sub_comment: SubComment)
        ensures
            sub_comment@ == new_sub_comment(creator@, content@),
    {
        let sub_comment = SubComment {
            comment_creator_user_id: creator,
            content,
            users_who_liked: Vec::new(),
        };
        sub_comment
    }
}

impl Comment {
    /// A comment by `creator` that nobody has liked or answered yet.
    pub fn new(creator: String, content: String) -> (comment: Comment)
        ensures
            comment@ == new_comment(creator@, content@),
    {
        let comment = Comment {
            comment_creator_user_id: creator,
            content,
            users_who_liked: Vec::new(),
            sub_comments: Vec::new(),
        };
        comment
    }
}

impl Post {
    /// A post by `creator` that nobody has liked or commented on yet.
    pub fn new(
        id: u128,
        creator: String,
        title: String,
        content: String,
        tags: Vec<String>,
    ) -> (post: Post)
        ensures
            post@ == new_post(id, creator@, title@, content@, texts(tags@)),
    {
        let post = Post {
            id,
            title,
            content,
            tags,
            users_who_liked: Vec::new(),
            creator_user_id: creator,
            comments: Vec::new(),
        };
        post
    }
}

impl Clone for SubComment {
    fn clone(&self) -> (copy: Self)
        ensures
            copy@ == self@,
    {
        SubComment {
            comment_creator_user_id: self.comment_creator_user_id.clone(),
            content: self.content.clone(),
            users_who_liked: clone_texts(&self.users_who_liked),
        }
    }
}

/// A copy of a list of sub-comment entries.
pub fn clone_sub_comments(list: &Vec<WithStatus<SubComment>>) -> (copy: Vec<WithStatus<SubComment>>)
    ensures
        entry_views(copy@) == entry_views(list@),
{
    let mut copy: Vec<WithStatus<SubComment>> = Vec::new();
    let mut i: usize = 0;
    while i < list.len()
        invariant
            i <= list.len(),
            copy@.len() == i,
            forall|j: int| 0 <= j < i ==> copy@[j]@ == list@[j]@,
        decreases list.len() - i,
    {
        copy.push(list[i].clone());
        i += 1;
    }
    copy
}

impl Clone for Comment {
    fn clone(&self) -> (copy: Self)
        ensures
            copy@ == self@,
    {
        Comment {
            comment_creator_user_id: self.comment_creator_user_id.clone(),
            content: self.content.clone(),
            users_who_liked: clone_texts(&self.users_who_liked),
            sub_comments: clone_sub_comments(&self.sub_comments),
        }
    }
}

/// A copy of a list of comment entries.
pub fn clone_comments(list: &Vec<WithStatus<Comment>>) -> (copy: Vec<WithStatus<Comment>>)
    ensures
        entry_views(copy@) == entry_views(list@),
{
    let mut copy: Vec<WithStatus<Comment>> = Vec::new();
    let mut i: usize = 0;
    while i < list.len()
        invariant
            i <= list.len(),
            copy@.len() == i,
            forall|j: int| 0 <= j < i ==> copy@[j]@ == list@[j]@,
        decreases list.len() - i,
    {
        copy.push(list[i].clone());
        i += 1;
    }
    copy
}

impl Clone for Post {
    fn clone(&self) -> (copy: Self)
        ensures
            copy@ == self@,
    {
        Post {
            id: self.id,
            title: self.title.clone(),
            content: self.content.clone(),
            tags: clone_texts(&self.tags),
            users_who_liked: clone_texts(&self.users_who_liked),
            creator_user_id: self.creator_user_id.clone(),
            comments: clone_comments(&self.comments),
        }
    }
}

} // verus!
