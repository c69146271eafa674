//! What holds of the board whatever is asked of it.

use crate::board::{lemma_store_keeps_wf, listed, listing, BoardView, QueryView};
use crate::lifecycle::{
    follows, lemma_add_comment_follows, lemma_edit_comment_follows, lemma_edit_post_follows,
    lemma_follows_chain, lemma_like_post_follows, lemma_unlike_post_follows,
};
use crate::model;
use crate::model::{comment_at, sub_comment_at, CommentView, PostView, SubCommentView};
use crate::status::{rank, WithStatus};
use crate::visibility::{
    lemma_filter_keeps_visible, lemma_filter_twice, shown, visible_comment_entry,
    visible_comments, visible_entry, visible_post,
};
use vstd::prelude::*;

verus! {

/// A call that may change the board, with the account that makes it.
#[allow(inconsistent_fields)]
pub enum Call {
    AddPost { caller: Seq<char>, title: Seq<char>, content: Seq<char>, tags: Seq<Seq<char>> },
    EditPost {
        caller: Seq<char>,
        post_id: u128,
        title: Option<Seq<char>>,
        content: Option<Seq<char>>,
        tags: Option<Seq<Seq<char>>>,
        status: Seq<char>,
    },
    LikePost { caller: Seq<char>, post_id: u128 },
    UnlikePost { caller: Seq<char>, post_id: u128 },
    AddComment { caller: Seq<char>, post_id: u128, comment_id: Option<u128>, content: Seq<char> },
    EditComment {
        caller: Seq<char>,
        post_id: u128,
        comment_id: u128,
        sub_comment_id: Option<u128>,
        content: Seq<char>,
        status: Option<Seq<char>>,
    },
}

/// What a call on a post yields: the outcome that the caller gets and that,
/// where it carries a post, is stored. A call that publishes a post is not
/// a call on a post and yields `NotFound` here.
pub open spec fn outcome_of(board: BoardView, call: Call) -> WithStatus<PostView> {
    match call {
        Call::AddPost { .. } => WithStatus::NotFound,
        Call::EditPost { caller, post_id, title, content, tags, status } => model::edit_post(
            board.lookup(post_id),
            caller,
            title,
            content,
            tags,
            status,
        ),
        Call::LikePost { caller, post_id } => model::like_post(board.lookup(post_id), caller),
        Call::UnlikePost { caller, post_id } => model::unlike_post(board.lookup(post_id), caller),
        Call::AddComment { caller, post_id, comment_id, content } => model::add_comment(
            board.lookup(post_id),
            caller,
            comment_id,
            content,
        ),
        Call::EditComment {
            caller,
            post_id,
            comment_id,
            sub_comment_id,
            content,
            status,
        } => model::edit_comment(
            board.lookup(post_id),
            caller,
            comment_id,
            sub_comment_id,
            content,
            status,
        ),
    }
}

/// The post that a call addresses; 0 for a call that publishes a post.
pub open spec fn post_addressed(call: Call) -> u128 {
    match call {
        Call::AddPost { .. } => 0,
        Call::EditPost { post_id, .. } => post_id,
        Call::LikePost { post_id, .. } => post_id,
        Call::UnlikePost { post_id, .. } => post_id,
        Call::AddComment { post_id, .. } => post_id,
        Call::EditComment { post_id, .. } => post_id,
    }
}

/// The board after a call.
pub open spec fn step(board: BoardView, call: Call) -> BoardView {
    match call {
        Call::AddPost { caller, title, content, tags } => board.add_post(
            caller,
            title,
            content,
            tags,
        ),
        _ => board.store(post_addressed(call), outcome_of(board, call)),
    }
}

/// The board after a sequence of calls, made one after the other.
pub open spec fn run(board: BoardView, calls: Seq<Call>) -> BoardView
    decreases calls.len(),
{
    if calls.len() == 0 {
        board
    } else {
        step(run(board, calls.drop_last()), calls.last())
    }
}

/// Whether `after` can be a later state of the board `before`: every post
/// of `before` is still stored under its identifier, and neither it nor
/// anything in it has moved back along its lifecycle.
pub open spec fn board_advanced(before: BoardView, after: BoardView) -> bool {
    &&& before.posts.len() <= after.posts.len()
    &&& forall|id: int|
        0 <= id < before.posts.len() ==> follows(#[trigger] before.posts[id], after.posts[id])
}

/// One call leaves a well-formed board well-formed, moves no post, no
/// comment and no sub-comment back along its lifecycle, and never lowers the
/// counter, so that no identifier is given twice. The bound leaves room for
/// the identifier of one more post.
pub proof fn lemma_step_advances(board: BoardView, call: Call)
    requires
        board.wf(),
        board.number_of_posts < u128::MAX,
    ensures
        step(board, call).wf(),
        board_advanced(board, step(board, call)),
        board.number_of_posts <= step(board, call).number_of_posts <= board.number_of_posts + 1,
{
    match call {
        Call::AddPost { caller, title, content, tags } => {},
        Call::EditPost { caller, post_id, title, content, tags, status } => {
            lemma_edit_post_follows(board.lookup(post_id), caller, title, content, tags, status);
            lemma_store_keeps_wf(board, post_id, outcome_of(board, call));
        },
        Call::LikePost { caller, post_id } => {
            lemma_like_post_follows(board.lookup(post_id), caller);
            lemma_store_keeps_wf(board, post_id, outcome_of(board, call));
        },
        Call::UnlikePost { caller, post_id } => {
            lemma_unlike_post_follows(board.lookup(post_id), caller);
            lemma_store_keeps_wf(board, post_id, outcome_of(board, call));
        },
        Call::AddComment { caller, post_id, comment_id, content } => {
            lemma_add_comment_follows(board.lookup(post_id), caller, comment_id, content);
            lemma_store_keeps_wf(board, post_id, outcome_of(board, call));
        },
        Call::EditComment { caller, post_id, comment_id, sub_comment_id, content, status } => {
            lemma_edit_comment_follows(
                board.lookup(post_id),
                caller,
                comment_id,
                sub_comment_id,
                content,
                status,
            );
            lemma_store_keeps_wf(board, post_id, outcome_of(board, call));
        },
    }
}

/// No sequence of calls moves anything back: after it, every post that was
/// on the board is still there under its identifier, and the status of the
/// post, of each of its comments and of each of their sub-comments is the
/// one it had or a later one. The counter never goes down. The bound leaves
/// room for the identifiers of the posts that the calls may publish.
pub proof fn lemma_run_advances(board: BoardView, calls: Seq<Call>)
    requires
        board.wf(),
        board.number_of_posts + calls.len() <= u128::MAX,
    ensures
        run(board, calls).wf(),
        board_advanced(board, run(board, calls)),
        board.number_of_posts <= run(board, calls).number_of_posts <= board.number_of_posts
            + calls.len(),
    decreases calls.len(),
{
    if calls.len() > 0 {
        let earlier = run(board, calls.drop_last());
        lemma_run_advances(board, calls.drop_last());
        lemma_step_advances(earlier, calls.last());
        let last = step(earlier, calls.last());
        assert forall|id: int| 0 <= id < board.posts.len() implies follows(
            #[trigger] board.posts[id],
            last.posts[id],
        ) by {
            lemma_follows_chain(board.posts[id], earlier.posts[id], last.posts[id]);
        }
    }
}

/// The status of a post is monotonic along open, locked, removed: whatever
/// calls are made, the post is never again in an earlier status than it was.
pub proof fn lemma_post_status_is_monotonic(board: BoardView, calls: Seq<Call>, post_id: u128)
    requires
        board.wf(),
        board.number_of_posts + calls.len() <= u128::MAX,
        post_id < board.number_of_posts,
    ensures
        run(board, calls).lookup(post_id).is_entity(),
        rank(board.lookup(post_id).status()->0) <= rank(
            run(board, calls).lookup(post_id).status()->0,
        ),
        board.lookup(post_id) is Removed ==> run(board, calls).lookup(post_id) is Removed,
        run(board, calls).lookup(post_id) is Open ==> board.lookup(post_id) is Open,
{
    lemma_run_advances(board, calls);
}

/// Every entry of an answer is a stored post that is open or locked and
/// that the query selects, under its identifier and as a reader sees it.
/// The entries stand in the order of their identifiers.
pub proof fn lemma_listing_sound(posts: Seq<WithStatus<PostView>>, query: QueryView)
    requires
        posts.len() <= u128::MAX,
    ensures
        listing(posts, query).len() <= posts.len(),
        forall|k: int|
            0 <= k < listing(posts, query).len() ==> {
                let found = #[trigger] listing(posts, query)[k];
                &&& found.0 < posts.len()
                &&& listed(posts[found.0 as int], query)
                &&& found.1 == visible_entry(posts[found.0 as int])
                &&& found.1.is_visible()
            },
        forall|k: int, l: int|
            0 <= k < l < listing(posts, query).len() ==> (#[trigger] listing(posts, query)[k]).0 < (
            #[trigger] listing(posts, query)[l]).0,
    decreases posts.len(),
{
    if posts.len() > 0 {
        lemma_listing_sound(posts.drop_last(), query);
    }
}

/// Every stored post that is open or locked and that the query selects is
/// in the answer.
pub proof fn lemma_listing_complete(posts: Seq<WithStatus<PostView>>, query: QueryView, id: int)
    requires
        posts.len() <= u128::MAX,
        0 <= id < posts.len(),
        listed(posts[id], query),
    ensures
        listing(posts, query).contains((id as u128, visible_entry(posts[id]))),
    decreases posts.len(),
{
    let answer = listing(posts, query);
    if id == posts.len() - 1 {
        assert(answer[answer.len() - 1] == (id as u128, visible_entry(posts[id])));
    } else {
        lemma_listing_complete(posts.drop_last(), query, id);
        let earlier = listing(posts.drop_last(), query);
        let k = choose|k: int|
            0 <= k < earlier.len() && earlier[k] == (
                id as u128,
                visible_entry(posts.drop_last()[id]),
            );
        assert(answer[k] == (id as u128, visible_entry(posts[id])));
    }
}

/// A removed post is in no answer, whatever the query.
pub proof fn lemma_removed_post_is_never_listed(board: BoardView, query: QueryView, post_id: u128)
    requires
        board.wf(),
        board.lookup(post_id) is Removed,
    ensures
        forall|k: int|
            0 <= k < listing(board.posts, query).len() ==> {
                &&& (#[trigger] listing(board.posts, query)[k]).0 != post_id
                &&& !(listing(board.posts, query)[k].1 is Removed)
            },
{
    lemma_listing_sound(board.posts, query);
}

/// No post handed to a reader shows a removed comment or a removed
/// sub-comment.
pub proof fn lemma_visible_post_shows_nothing_removed(post: PostView)
    ensures
        forall|i: int|
            0 <= i < visible_post(post).comments.len() ==> {
                &&& (#[trigger] visible_post(post).comments[i]).is_visible()
                &&& forall|j: int|
                    0 <= j < visible_post(post).comments[i].item().sub_comments.len() ==> (
                    #[trigger] visible_post(post).comments[i].item().sub_comments[j]).is_visible()
            },
{
    let kept = post.comments.filter(shown());
    lemma_filter_keeps_visible(post.comments);
    assert forall|i: int| 0 <= i < visible_post(post).comments.len() implies {
        &&& (#[trigger] visible_post(post).comments[i]).is_visible()
        &&& forall|j: int|
            0 <= j < visible_post(post).comments[i].item().sub_comments.len() ==> (
            #[trigger] visible_post(post).comments[i].item().sub_comments[j]).is_visible()
    } by {
        lemma_filter_keeps_visible(kept[i].item().sub_comments);
    }
}

/// Where every item is visible, the filter keeps the list as it is.
pub proof fn lemma_filter_keeps_all_visible<T>(list: Seq<WithStatus<T>>)
    requires
        forall|i: int| 0 <= i < list.len() ==> (#[trigger] list[i]).is_visible(),
    ensures
        list.filter(shown()) == list,
    decreases list.len(),
{
    reveal(Seq::filter);
    if list.len() > 0 {
        lemma_filter_keeps_all_visible(list.drop_last());
    }
}

/// The visibility filter is idempotent: a post as a reader sees it, seen
/// again, is the same post.
pub proof fn lemma_visible_post_twice(post: PostView)
    ensures
        visible_post(visible_post(post)) == visible_post(post),
{
    let once = visible_comments(post.comments);
    let kept = post.comments.filter(shown());
    lemma_filter_keeps_visible(post.comments);
    assert forall|i: int| 0 <= i < once.len() implies (#[trigger] once[i]).is_visible() by {
    }
    lemma_filter_keeps_all_visible(once);
    assert forall|i: int| 0 <= i < once.len() implies visible_comment_entry(#[trigger] once[i])
        == once[i] by {
        lemma_filter_twice(kept[i].item().sub_comments);
    }
}

/// The visibility filter is idempotent on stored entries too.
pub proof fn lemma_visible_entry_twice(entry: WithStatus<PostView>)
    ensures
        visible_entry(visible_entry(entry)) == visible_entry(entry),
{
    if entry.is_visible() {
        lemma_visible_post_twice(entry.item());
    }
}

/// Asking the same question twice with no call in between gives the same
/// answer twice: an answer depends on the stored posts and the query, and
/// on nothing else.
pub proof fn lemma_same_question_same_answer(
    board: BoardView,
    query: QueryView,
    first: Seq<(u128, WithStatus<PostView>)>,
    second: Seq<(u128, WithStatus<PostView>)>,
)
    requires
        first == listing(board.posts, query),
        second == listing(board.posts, query),
    ensures
        first == second,
{
}

/// Only the creator of a post can edit it: for any other caller the
/// outcome is `NoPermission`, whatever is asked for, and the board stays as
/// it was.
pub proof fn lemma_only_creator_edits_post(
    board: BoardView,
    caller: Seq<char>,
    post_id: u128,
    title: Option<Seq<char>>,
    content: Option<Seq<char>>,
    tags: Option<Seq<Seq<char>>>,
    status: Seq<char>,
)
    requires
        board.lookup(post_id).is_entity(),
        caller != board.lookup(post_id).item().creator_user_id,
    ensures
        outcome_of(board, Call::EditPost { caller, post_id, title, content, tags, status })
            is NoPermission,
        step(board, Call::EditPost { caller, post_id, title, content, tags, status }) == board,
{
}

/// Only the creator of a comment can edit it: for any other caller the
/// outcome is `NoPermission`, whatever is asked for, and the board stays as
/// it was.
pub proof fn lemma_only_creator_edits_comment(
    board: BoardView,
    caller: Seq<char>,
    post_id: u128,
    comment_id: u128,
    content: Seq<char>,
    status: Option<Seq<char>>,
)
    requires
        comment_at(board.lookup(post_id), comment_id).is_entity(),
        caller != comment_at(board.lookup(post_id), comment_id).item().comment_creator_user_id,
    ensures
        outcome_of(
            board,
            Call::EditComment {
                caller,
                post_id,
                comment_id,
                sub_comment_id: None,
                content,
                status,
            },
        ) is NoPermission,
        step(
            board,
            Call::EditComment {
                caller,
                post_id,
                comment_id,
                sub_comment_id: None,
                content,
                status,
            },
        ) == board,
{
}

/// Only the creator of a sub-comment can edit it: for any other caller the
/// outcome is `NoPermission`, whatever is asked for, and the board stays as
/// it was.
pub proof fn lemma_only_creator_edits_sub_comment(
    board: BoardView,
    caller: Seq<char>,
    post_id: u128,
    comment_id: u128,
    sub_comment_id: u128,
    content: Seq<char>,
    status: Option<Seq<char>>,
)
    requires
        sub_comment_at(
            comment_at(board.lookup(post_id), comment_id),
            sub_comment_id,
        ).is_entity(),
        caller != sub_comment_at(
            comment_at(board.lookup(post_id), comment_id),
            sub_comment_id,
        ).item().comment_creator_user_id,
    ensures
        outcome_of(
            board,
            Call::EditComment {
                caller,
                post_id,
                comment_id,
                sub_comment_id: Some(sub_comment_id),
                content,
                status,
            },
        ) is NoPermission,
        step(
            board,
            Call::EditComment {
                caller,
                post_id,
                comment_id,
                sub_comment_id: Some(sub_comment_id),
                content,
                status,
            },
        ) == board,
{
}

/// A like is added without looking at the list: the list grows by one
/// entry, the caller, at its end, also where the caller is in it already.
pub proof fn lemma_like_adds_one(post: PostView, caller: Seq<char>)
    ensures
        ({
            let after = model::like_post(WithStatus::Open(post), caller).item();
            &&& model::like_post(WithStatus::Open(post), caller) is Open
            &&& after == PostView { users_who_liked: after.users_who_liked, ..post }
            &&& after.users_who_liked.len() == post.users_who_liked.len() + 1
            &&& after.users_who_liked.last() == caller
            &&& after.users_who_liked.drop_last() == post.users_who_liked
        }),
{
    let after = model::like_post(WithStatus::Open(post), caller).item();
    assert(after.users_who_liked.drop_last() =~= post.users_who_liked);
}

/// Withdrawing a like takes exactly one entry out of the list: the first
/// that is the caller. The entries before it and after it stay in their
/// order. Where the caller is not in the list, nothing is found.
pub proof fn lemma_unlike_takes_the_first(post: PostView, caller: Seq<char>)
    ensures
        !post.users_who_liked.contains(caller) ==> model::unlike_post(
            WithStatus::Open(post),
            caller,
        ) is NotFound,
        post.users_who_liked.contains(caller) ==> ({
            let before = post.users_who_liked;
            let at = before.index_of_first(caller)->0;
            let after = model::unlike_post(WithStatus::Open(post), caller).item();
            &&& model::unlike_post(WithStatus::Open(post), caller) is Open
            &&& after == PostView { users_who_liked: after.users_who_liked, ..post }
            &&& 0 <= at < before.len()
            &&& before[at] == caller
            &&& forall|j: int| 0 <= j < at ==> before[j] != caller
            &&& after.users_who_liked.len() == before.len() - 1
            &&& after.users_who_liked == before.subrange(0, at) + before.subrange(
                at + 1,
                before.len() as int,
            )
        }),
{
    post.users_who_liked.index_of_first_ensures(caller);
}

/// An edit of a comment replaces the entry of that comment and nothing
/// else: the post stays open, its own fields stay, every other comment
/// keeps its position and its value, and the edited comment keeps its
/// creator, its likes and its sub-comments.
pub proof fn lemma_edit_comment_replaces_one_comment(
    entry: WithStatus<PostView>,
    caller: Seq<char>,
    comment_id: u128,
    content: Seq<char>,
    status: Option<Seq<char>>,
)
    requires
        model::edit_comment(entry, caller, comment_id, None, content, status).is_entity(),
    ensures
        ({
            let before = entry.item();
            let outcome = model::edit_comment(entry, caller, comment_id, None, content, status);
            let after = outcome.item();
            &&& entry is Open && outcome is Open
            &&& after == PostView { comments: after.comments, ..before }
            &&& after.comments.len() == before.comments.len()
            &&& forall|i: int|
                0 <= i < before.comments.len() && i != comment_id ==> after.comments[i]
                    == before.comments[i]
            &&& after.comments[comment_id as int].item() == CommentView {
                content: after.comments[comment_id as int].item().content,
                ..before.comments[comment_id as int].item()
            }
        }),
{
}

/// An edit of a sub-comment replaces the entry of that sub-comment and
/// nothing else: the post and the comment stay open and keep their own
/// fields, every other comment and every other sub-comment keeps its
/// position and its value, and the edited sub-comment keeps its creator and
/// its likes.
pub proof fn lemma_edit_comment_replaces_one_sub_comment(
    entry: WithStatus<PostView>,
    caller: Seq<char>,
    comment_id: u128,
    sub_comment_id: u128,
    content: Seq<char>,
    status: Option<Seq<char>>,
)
    requires
        model::edit_comment(
            entry,
            caller,
            comment_id,
            Some(sub_comment_id),
            content,
            status,
        ).is_entity(),
    ensures
        ({
            let before = entry.item();
            let outcome = model::edit_comment(
                entry,
                caller,
                comment_id,
                Some(sub_comment_id),
                content,
                status,
            );
            let after = outcome.item();
            let comment_before = before.comments[comment_id as int];
            let comment_after = after.comments[comment_id as int];
            let subs_before = comment_before.item().sub_comments;
            let subs_after = comment_after.item().sub_comments;
            &&& entry is Open && outcome is Open
            &&& after == PostView { comments: after.comments, ..before }
            &&& after.comments.len() == before.comments.len()
            &&& forall|i: int|
                0 <= i < before.comments.len() && i != comment_id ==> after.comments[i]
                    == before.comments[i]
            &&& comment_before is Open && comment_after is Open
            &&& comment_after.item() == CommentView {
                sub_comments: subs_after,
                ..comment_before.item()
            }
            &&& subs_after.len() == subs_before.len()
            &&& forall|j: int|
                0 <= j < subs_before.len() && j != sub_comment_id ==> subs_after[j]
                    == subs_before[j]
            &&& subs_after[sub_comment_id as int].item() == SubCommentView {
                content: subs_after[sub_comment_id as int].item().content,
                ..subs_before[sub_comment_id as int].item()
            }
        }),
{
}

/// A new comment or sub-comment goes to the end of its list: everything
/// that was in the post keeps its position and its value.
pub proof fn lemma_add_comment_appends(
    entry: WithStatus<PostView>,
    caller: Seq<char>,
    comment_id: Option<u128>,
    content: Seq<char>,
)
    requires
        model::add_comment(entry, caller, comment_id, content).is_entity(),
    ensures
        ({
            let before = entry.item();
            let after = model::add_comment(entry, caller, comment_id, content).item();
            &&& after == PostView { comments: after.comments, ..before }
            &&& match comment_id {
                None => after.comments == before.comments.push(
                    WithStatus::Open(model::new_comment(caller, content)),
                ),
                Some(comment_id) => {
                    let comment = before.comments[comment_id as int].item();
                    &&& comment_id < before.comments.len()
                    &&& after.comments == before.comments.update(
                        comment_id as int,
                        WithStatus::Open(
                            CommentView {
                                sub_comments: comment.sub_comments.push(
                                    WithStatus::Open(model::new_sub_comment(caller, content)),
                                ),
                                ..comment
                            },
                        ),
                    )
                },
            }
        }),
{
}

/// A call that is refused, or that finds nothing, changes nothing.
pub proof fn lemma_rejected_call_changes_nothing(board: BoardView, call: Call)
    requires
        !(call is AddPost),
        !outcome_of(board, call).is_entity(),
    ensures
        step(board, call) == board,
{
}

} // verus!
