//! The board: every post under its identifier, the tag index, and the
//! counter that hands out identifiers.

use crate::editor;
use crate::model;
use crate::lifecycle::{
    follows, lemma_add_comment_follows, lemma_edit_comment_follows, lemma_edit_post_follows,
    lemma_like_post_follows, lemma_unlike_post_follows,
};
use crate::model::{entry_wf, new_post, PostView};
use crate::post::Post;
use crate::status::{entry_views, WithStatus};
use crate::text::{
    clone_texts, contains_all, contains_text, list_contains_all, text_contains, text_of, texts,
    texts_of,
};
use crate::visibility::{entry_shown, visible_entry};
use vstd::hash_map::StringHashMap;
use vstd::prelude::*;

verus! {

/// The model of a board.
///
/// Posts are never deleted, and identifiers are handed out in order from 0:
/// the post with identifier `i` is the `i`-th of `posts`. `tags` maps a tag
/// to the identifiers of the posts that were published with it, in the order
/// of publication. `number_of_posts` is the identifier that the next post
/// gets.
#[verifier::ext_equal]
pub struct BoardView {
    pub posts: Seq<WithStatus<PostView>>,
    pub tags: Map<Seq<char>, Seq<u128>>,
    pub number_of_posts: u128,
}

/// The identifiers recorded under a tag; none where the tag was never used.
pub open spec fn ids_tagged(index: Map<Seq<char>, Seq<u128>>, tag: Seq<char>) -> Seq<u128> {
    if index.contains_key(tag) {
        index[tag]
    } else {
        Seq::empty()
    }
}

/// The index after the post `id` has been recorded under `tag`: `id` goes to
/// the end of what the tag holds.
pub open spec fn record_tag(
    index: Map<Seq<char>, Seq<u128>>,
    tag: Seq<char>,
    id: u128,
) -> Map<Seq<char>, Seq<u128>> {
    index.insert(tag, ids_tagged(index, tag).push(id))
}

/// The index after the post `id` has been recorded under each of `tags` in
/// turn. A tag that stands twice in `tags` gets the identifier twice.
pub open spec fn record_tags(
    index: Map<Seq<char>, Seq<u128>>,
    tags: Seq<Seq<char>>,
    id: u128,
) -> Map<Seq<char>, Seq<u128>>
    decreases tags.len(),
{
    if tags.len() == 0 {
        index
    } else {
        record_tag(record_tags(index, tags.drop_last(), id), tags.last(), id)
    }
}

/// What a reader asks for.
#[verifier::ext_equal]
pub enum QueryView {
    /// Every post.
    All,
    /// The posts whose title or text contains the given text.
    Text(Seq<char>),
    /// The posts that carry every one of the given tags.
    Tags(Seq<Seq<char>>),
    /// The posts published by the given account.
    Creator(Seq<char>),
}

impl QueryView {
    /// Whether the query selects a post.
    pub open spec fn selects(self, post: PostView) -> bool {
        match self {
            QueryView::All => true,
            QueryView::Text(text) => contains_text(post.title, text) || contains_text(
                post.content,
                text,
            ),
            QueryView::Tags(tags) => contains_all(post.tags, tags),
            QueryView::Creator(creator) => post.creator_user_id == creator,
        }
    }
}

/// Whether a stored entry is part of the answer to a query: it is open or
/// locked, and the query selects it.
pub open spec fn listed(entry: WithStatus<PostView>, query: QueryView) -> bool {
    entry.is_visible() && query.selects(entry.item())
}

/// The answer to a query: the listed posts in the order of their
/// identifiers, each with its identifier and as a reader sees it.
pub open spec fn listing(posts: Seq<WithStatus<PostView>>, query: QueryView) -> Seq<
    (u128, WithStatus<PostView>),
>
    decreases posts.len(),
{
    if posts.len() == 0 {
        Seq::empty()
    } else {
        let earlier = listing(posts.drop_last(), query);
        if listed(posts.last(), query) {
            earlier.push(((posts.len() - 1) as u128, visible_entry(posts.last())))
        } else {
            earlier
        }
    }
}

/// The models of the entries of an answer.
pub open spec fn answer_view(answer: Seq<(u128, WithStatus<Post>)>) -> Seq<
    (u128, WithStatus<PostView>),
> {
    answer.map_values(|found: (u128, WithStatus<Post>)| (found.0, found.1@))
}

impl BoardView {
    /// The board before anything was published.
    pub open spec fn empty() -> BoardView {
        BoardView { posts: Seq::empty(), tags: Map::empty(), number_of_posts: 0 }
    }

    /// Whether the board is one that the operations can have made: the
    /// counter is the number of posts, every slot holds a post that holds
    /// only entities, and every post carries the identifier it is stored
    /// under.
    pub open spec fn wf(self) -> bool {
        &&& self.number_of_posts == self.posts.len()
        &&& forall|id: int|
            0 <= id < self.posts.len() ==> entry_wf(#[trigger] self.posts[id])
                && self.posts[id].item().id == id
    }

    /// The entry stored under `post_id`, or `NotFound`.
    pub open spec fn lookup(self, post_id: u128) -> WithStatus<PostView> {
        if post_id < self.posts.len() {
            self.posts[post_id as int]
        } else {
            WithStatus::NotFound
        }
    }

    /// The board after the outcome of an operation on the post `post_id`
    /// has been written back: an outcome that carries a post replaces the
    /// stored one, any other outcome changes nothing.
    pub open spec fn store(self, post_id: u128, outcome: WithStatus<PostView>) -> BoardView {
        if post_id < self.posts.len() && outcome.is_entity() {
            BoardView { posts: self.posts.update(post_id as int, outcome), ..self }
        } else {
            self
        }
    }

    /// The board after `caller` has published a post: the post is stored
    /// open under the next identifier, the identifier is recorded under each
    /// of its tags, and the counter moves on.
    pub open spec fn add_post(
        self,
        caller: Seq<char>,
        title: Seq<char>,
        content: Seq<char>,
        tags: Seq<Seq<char>>,
    ) -> BoardView {
        BoardView {
            posts: self.posts.push(
                WithStatus::Open(new_post(self.number_of_posts, caller, title, content, tags)),
            ),
            tags: record_tags(self.tags, tags, self.number_of_posts),
            number_of_posts: (self.number_of_posts + 1) as u128,
        }
    }
}

/// Writing an outcome back keeps the board well-formed, where the outcome,
/// if it carries a post, is a later state of the stored one.
pub proof fn lemma_store_keeps_wf(board: BoardView, post_id: u128, outcome: WithStatus<PostView>)
    requires
        board.wf(),
        outcome.is_entity() ==> follows(board.lookup(post_id), outcome),
    ensures
        board.store(post_id, outcome).wf(),
{
}

/// What a reader asks for.
#[derive(Debug, PartialEq, Eq)]
pub enum Query {
    /// Every post.
    All,
    /// The posts whose title or text contains the given text.
    Text(String),
    /// The posts that carry every one of the given tags.
    Tags(Vec<String>),
    /// The posts published by the given account.
    Creator(String),
}

impl View for Query {
    type V = QueryView;

    open spec fn view(&self) -> QueryView {
        match self {
            Query::All => QueryView::All,
            Query::Text(text) => QueryView::Text(text@),
            Query::Tags(tags) => QueryView::Tags(texts(tags@)),
            Query::Creator(creator) => QueryView::Creator(creator@),
        }
    }
}

impl Query {
    /// Whether the query selects a post.
    pub fn selects(&self, post: &Post) -> (selected: bool)
        ensures
            selected == self@.selects(post@),
    {
        match self {
            Query::All => true,
            Query::Text(text) => text_contains(&post.title, text) || text_contains(
                &post.content,
                text,
            ),
            Query::Tags(tags) => list_contains_all(&post.tags, tags),
            Query::Creator(creator) => post.creator_user_id == *creator,
        }
    }
}

/// Answers a query over stored entries, where the entry at position `i` is
/// the post with identifier `i`.
pub fn select(posts: &Vec<WithStatus<Post>>, query: &Query) -> (answer: Vec<
    (u128, WithStatus<Post>),
>)
    ensures
        answer_view(answer@) == listing(entry_views(posts@), query@),
{
    let mut answer: Vec<(u128, WithStatus<Post>)> = Vec::new();
    let mut i: usize = 0;
    while i < posts.len()
        invariant
            i <= posts.len(),
            answer_view(answer@) == listing(entry_views(posts@).take(i as int), query@),
        decreases posts.len() - i,
    {
        proof {
            let all = entry_views(posts@);
            assert(all.take(i as int + 1).drop_last() =~= all.take(i as int));
        }
        let entry = &posts[i];
        let wanted = match entry {
            WithStatus::Open(post) => query.selects(post),
            WithStatus::Locked(post) => query.selects(post),
            _ => false,
        };
        if wanted {
            if let Some(seen) = entry_shown(entry) {
                answer.push((i as u128, seen));
            }
        }
        i += 1;
    }
    assert(entry_views(posts@).take(posts@.len() as int) =~= entry_views(posts@));
    answer
}

/// The board: the posts in the order of their identifiers, the tag index,
/// and the counter that hands out identifiers.
///
/// A board is well-formed at every moment (see [`BoardView::wf`]), so that
/// no operation asks anything of its caller.
pub struct BulletinBoard {
    posts: Vec<WithStatus<Post>>,
    tags: StringHashMap<Vec<u128>>,
    number_of_posts: u128,
}

impl View for BulletinBoard {
    type V = BoardView;

    closed spec fn view(&self) -> BoardView {
        BoardView {
            posts: entry_views(self.posts@),
            tags: index_view(self.tags@),
            number_of_posts: self.number_of_posts,
        }
    }
}

/// The models of the lists of identifiers that a tag index holds.
spec fn index_view(index: Map<Seq<char>, Vec<u128>>) -> Map<Seq<char>, Seq<u128>> {
    index.map_values(|ids: Vec<u128>| ids@)
}

/// Records the post `id` under `tag`.
fn record(index: &mut StringHashMap<Vec<u128>>, tag: &String, id: u128)
    ensures
        index_view(final(index)@) == record_tag(index_view(old(index)@), tag@, id),
{
    let mut ids: Vec<u128> = match index.get(tag.as_str()) {
        Some(found) => found.clone(),
        None => Vec::new(),
    };
    ids.push(id);
    index.insert(tag.clone(), ids);
}

impl BulletinBoard {
    /// Every board is well-formed, at every moment.
    #[verifier::type_invariant]
    closed spec fn well_formed(&self) -> bool {
        self@.wf()
    }

    /// A board on which nothing has been published.
    pub fn new() -> (board: BulletinBoard)
        ensures
            board@ == BoardView::empty(),
    {
        let posts: Vec<WithStatus<Post>> = Vec::new();
        let tags: StringHashMap<Vec<u128>> = StringHashMap::new();
        BulletinBoard { posts, tags, number_of_posts: 0 }
    }

    /// The number of posts published so far, which is the identifier that
    /// the next post gets.
    pub fn number_of_posts(&self) -> (count: u128)
        ensures
            self@.wf(),
            count == self@.number_of_posts,
    {
        proof {
            use_type_invariant(self);
        }
        self.number_of_posts
    }

    /// The identifiers recorded under `tag`, in the order of publication.
    /// The index is not pruned: a post stays recorded under the tags it was
    /// published with when its tags are edited or it is removed.
    pub fn posts_tagged(&self, tag: &String) -> (ids: Vec<u128>)
        ensures
            ids@ == ids_tagged(self@.tags, tag@),
    {
        match self.tags.get(tag.as_str()) {
            Some(found) => found.clone(),
            None => Vec::new(),
        }
    }

    /// Publishes a post by `caller`. The post is open, gets the next
    /// identifier, and is recorded in the tag index under each of `tags`.
    pub fn add_post(
        &mut self,
        caller: String,
        title: String,
        content: String,
        tags: Vec<String>,
    ) -> (published: WithStatus<Post>)
        ensures
            final(self)@.wf(),
            final(self)@ == old(self)@.add_post(caller@, title@, content@, texts(tags@)),
            published@ == WithStatus::Open(
                new_post(old(self)@.number_of_posts, caller@, title@, content@, texts(tags@)),
            ),
    {
        proof {
            use_type_invariant(&*self);
        }
        // The board is taken apart and put together again, so that it is
        // well-formed at every moment in between.
        let mut taken = BulletinBoard::new();
        core::mem::swap(self, &mut taken);
        let BulletinBoard { mut posts, tags: mut index, number_of_posts: id } = taken;
        let ghost before = index_view(index@);
        let recorded = clone_texts(&tags);
        let post = Post::new(id, caller, title, content, tags);
        posts.push(WithStatus::Open(post.clone()));
        assert(entry_views(posts@) =~= old(self)@.posts.push(WithStatus::Open(post@)));
        let mut i: usize = 0;
        while i < recorded.len()
            invariant
                i <= recorded.len(),
                index_view(index@) == record_tags(before, texts(recorded@).take(i as int), id),
            decreases recorded.len() - i,
        {
            proof {
                let all = texts(recorded@);
                assert(all.take(i as int + 1).drop_last() =~= all.take(i as int));
            }
            record(&mut index, &recorded[i], id);
            i += 1;
        }
        assert(texts(recorded@).take(recorded@.len() as int) =~= texts(recorded@));
        assert(id < usize::MAX) by {
            assert(entry_views(posts@).len() == posts.len());
        }
        *self = BulletinBoard { posts, tags: index, number_of_posts: id + 1 };
        WithStatus::Open(post)
    }

    /// Writes the outcome of an operation on the post at `at` back.
    fn commit(&mut self, at: usize, outcome: &WithStatus<Post>)
        requires
            at < old(self).posts.len(),
            outcome@.is_entity() ==> follows(old(self)@.lookup(at as u128), outcome@),
        ensures
            final(self)@ == old(self)@.store(at as u128, outcome@),
    {
        proof {
            use_type_invariant(&*self);
            lemma_store_keeps_wf(self@, at as u128, outcome@);
        }
        if outcome.is_entity() {
            let stored = outcome.clone();
            let mut taken = BulletinBoard::new();
            core::mem::swap(self, &mut taken);
            let BulletinBoard { mut posts, tags, number_of_posts } = taken;
            posts.set(at, stored);
            assert(entry_views(posts@) =~= old(self)@.posts.update(at as int, outcome@));
            *self = BulletinBoard { posts, tags, number_of_posts };
        }
    }

    /// Edits the post `post_id` on behalf of `caller`.
    ///
    /// `status` names the status that the post is to take. Only the creator
    /// of the post may edit it; an open post may take any status, a locked
    /// one may only be removed, a removed one takes no edit. `title`,
    /// `content` and `tags` replace the post's own where they are given and
    /// the post stays open. The outcome is the post as it is stored after
    /// the call, or the reason why nothing was stored.
    pub fn edit_post(
        &mut self,
        caller: String,
        post_id: u128,
        title: Option<String>,
        content: Option<String>,
        tags: Option<Vec<String>>,
        status: String,
    ) -> (outcome: WithStatus<Post>)
        ensures
            final(self)@.wf(),
            outcome@ == model::edit_post(
                old(self)@.lookup(post_id),
                caller@,
                text_of(title),
                text_of(content),
                texts_of(tags),
                status@,
            ),
            final(self)@ == old(self)@.store(post_id, outcome@),
    {
        proof {
            use_type_invariant(&*self);
        }
        if post_id >= self.posts.len() as u128 {
            return WithStatus::NotFound;
        }
        let at: usize = post_id as usize;
        let outcome = editor::edit_post(&self.posts[at], &caller, title, content, tags, &status);
        proof {
            lemma_edit_post_follows(
                self@.lookup(post_id),
                caller@,
                text_of(title),
                text_of(content),
                texts_of(tags),
                status@,
            );
            lemma_store_keeps_wf(self@, post_id, outcome@);
        }
        self.commit(at, &outcome);
        outcome
    }

    /// Records that `caller` likes the post `post_id`. Only an open post
    /// takes likes, and it takes each one: a caller who likes a post twice
    /// stands in its list twice.
    pub fn like_post(&mut self, caller: String, post_id: u128) -> (outcome: WithStatus<Post>)
        ensures
            final(self)@.wf(),
            outcome@ == model::like_post(old(self)@.lookup(post_id), caller@),
            final(self)@ == old(self)@.store(post_id, outcome@),
    {
        proof {
            use_type_invariant(&*self);
        }
        if post_id >= self.posts.len() as u128 {
            return WithStatus::NotFound;
        }
        let at: usize = post_id as usize;
        proof {
            lemma_like_post_follows(self@.lookup(post_id), caller@);
        }
        let outcome = editor::like_post(&self.posts[at], caller);
        proof {
            lemma_store_keeps_wf(self@, post_id, outcome@);
        }
        self.commit(at, &outcome);
        outcome
    }

    /// Withdraws one like of `caller` from the post `post_id`: the first in
    /// the list. Where `caller` is not in the list, nothing is found.
    pub fn unlike_post(&mut self, caller: String, post_id: u128) -> (outcome: WithStatus<Post>)
        ensures
            final(self)@.wf(),
            outcome@ == model::unlike_post(old(self)@.lookup(post_id), caller@),
            final(self)@ == old(self)@.store(post_id, outcome@),
    {
        proof {
            use_type_invariant(&*self);
        }
        if post_id >= self.posts.len() as u128 {
            return WithStatus::NotFound;
        }
        let at: usize = post_id as usize;
        let outcome = editor::unlike_post(&self.posts[at], &caller);
        proof {
            lemma_unlike_post_follows(self@.lookup(post_id), caller@);
            lemma_store_keeps_wf(self@, post_id, outcome@);
        }
        self.commit(at, &outcome);
        outcome
    }

    /// Adds a comment by `caller` to the post `post_id`, or, where
    /// `comment_id` is given, a sub-comment to that comment. What is
    /// commented on must exist and be open. The new entity is open and goes
    /// to the end of its list.
    pub fn add_comment(
        &mut self,
        caller: String,
        post_id: u128,
        comment_id: Option<u128>,
        content: String,
    ) -> (outcome: WithStatus<Post>)
        ensures
            final(self)@.wf(),
            outcome@ == model::add_comment(
                old(self)@.lookup(post_id),
                caller@,
                comment_id,
                content@,
            ),
            final(self)@ == old(self)@.store(post_id, outcome@),
    {
        proof {
            use_type_invariant(&*self);
        }
        if post_id >= self.posts.len() as u128 {
            return WithStatus::NotFound;
        }
        let at: usize = post_id as usize;
        proof {
            lemma_add_comment_follows(self@.lookup(post_id), caller@, comment_id, content@);
        }
        let outcome = editor::add_comment(&self.posts[at], caller, comment_id, content);
        proof {
            lemma_store_keeps_wf(self@, post_id, outcome@);
        }
        self.commit(at, &outcome);
        outcome
    }

    /// Edits the comment `comment_id` of the post `post_id` on behalf of
    /// `caller`, or, where `sub_comment_id` is given, that sub-comment of
    /// the comment.
    ///
    /// Only the creator of the addressed entity may edit it, and only while
    /// everything above it is open. `status` names the status that the
    /// entity is to take; without one it stays open. `content` replaces the
    /// text of the entity where it stays open. The outcome is the whole
    /// post as it is stored after the call, or the reason why nothing was
    /// stored.
    pub fn edit_comment(
        &mut self,
        caller: String,
        post_id: u128,
        comment_id: u128,
        sub_comment_id: Option<u128>,
        content: String,
        status: Option<String>,
    ) -> (outcome: WithStatus<Post>)
        ensures
            final(self)@.wf(),
            outcome@ == model::edit_comment(
                old(self)@.lookup(post_id),
                caller@,
                comment_id,
                sub_comment_id,
                content@,
                text_of(status),
            ),
            final(self)@ == old(self)@.store(post_id, outcome@),
    {
        proof {
            use_type_invariant(&*self);
        }
        if post_id >= self.posts.len() as u128 {
            return WithStatus::NotFound;
        }
        let at: usize = post_id as usize;
        proof {
            lemma_edit_comment_follows(
                self@.lookup(post_id),
                caller@,
                comment_id,
                sub_comment_id,
                content@,
                text_of(status),
            );
        }
        let outcome = editor::edit_comment(
            &self.posts[at],
            &caller,
            comment_id,
            sub_comment_id,
            content,
            status,
        );
        proof {
            lemma_store_keeps_wf(self@, post_id, outcome@);
        }
        self.commit(at, &outcome);
        outcome
    }

    /// Every visible post, in the order of the identifiers.
    pub fn get_all_post(&self) -> (answer: Vec<(u128, WithStatus<Post>)>)
        ensures
            answer_view(answer@) == listing(self@.posts, QueryView::All),
    {
        select(&self.posts, &Query::All)
    }

    /// The visible posts whose title or text contains `q`. Case matters.
    pub fn search_post(&self, q: String) -> (answer: Vec<(u128, WithStatus<Post>)>)
        ensures
            answer_view(answer@) == listing(self@.posts, QueryView::Text(q@)),
    {
        select(&self.posts, &Query::Text(q))
    }

    /// The visible posts that carry every one of `tags`. The tags are read
    /// off the posts themselves, not off the tag index.
    pub fn search_post_by_tags(&self, tags: Vec<String>) -> (answer: Vec<(u128, WithStatus<Post>)>)
        ensures
            answer_view(answer@) == listing(self@.posts, QueryView::Tags(texts(tags@))),
    {
        select(&self.posts, &Query::Tags(tags))
    }

    /// The visible posts that `creator_user_id` published.
    pub fn search_post_by_user_id(&self, creator_user_id: String) -> (answer: Vec<
        (u128, WithStatus<Post>),
    >)
        ensures
            answer_view(answer@) == listing(self@.posts, QueryView::Creator(creator_user_id@)),
    {
        select(&self.posts, &Query::Creator(creator_user_id))
    }
}

impl Default for BulletinBoard {
    /// A board on which nothing has been published.
    fn default() -> (board: BulletinBoard)
        ensures
            board@ == BoardView::empty(),
    {
        BulletinBoard::new()
    }
}

} // verus!
