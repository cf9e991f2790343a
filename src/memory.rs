use vstd::prelude::*;

use crate::error::ApplicationError;
use crate::ids::PostId;
use crate::posts::{Post, ValidatedCreatePostDTO};
use crate::repository::{holds_id, holds_title, PostRepository};

verus! {

/// A store that keeps its posts in memory, in the order they were stored.
/// Like a database table with unique ids and titles, it refuses a post whose
/// id or title another post already has.
pub struct InMemoryPostRepository {
    posts: Vec<Post>,
}

impl InMemoryPostRepository {
    /// An empty store.
    pub fn new() -> (r: Self)
        ensures
            r.stored() == Seq::<Post>::empty(),
    {
        InMemoryPostRepository { posts: Vec::new() }
    }

    /// The number of posts held.
    pub fn len(&self) -> (r: usize)
        ensures
            r == self.stored().len(),
    {
        self.posts.len()
    }

    /// The position of the first post with id `id`.
    fn position_of_id(&self, id: &PostId) -> (r: Option<usize>)
        ensures
            r matches Some(i) ==> i < self.posts.len() && self.posts@[i as int].id == *id,
            r is None ==> !holds_id(self.posts@, *id),
    {
        let mut i: usize = 0;
        while i < self.posts.len()
            invariant
                i <= self.posts.len(),
                forall|k: int| 0 <= k < i ==> (#[trigger] self.posts@[k]).id != *id,
            decreases self.posts.len() - i,
        {
            if self.posts[i].id == *id {
                return Some(i);
            }
            i = i + 1;
        }
        None
    }

    /// Whether a post with an id other than `id` has the title `title`.
    fn title_held_by_other(&self, title: &String, id: &PostId) -> (r: bool)
        ensures
            r == exists|k: int|
                0 <= k < self.posts.len() && (#[trigger] self.posts@[k]).id != *id
                    && self.posts@[k].title@ == title@,
    {
        let mut i: usize = 0;
        while i < self.posts.len()
            invariant
                i <= self.posts.len(),
                forall|k: int|
                    0 <= k < i ==> !((#[trigger] self.posts@[k]).id != *id
                        && self.posts@[k].title@ == title@),
            decreases self.posts.len() - i,
        {
            if self.posts[i].id != *id && self.posts[i].title == *title {
                return true;
            }
            i = i + 1;
        }
        false
    }

    /// Whether some post has the title `title`.
    fn holds_title_exec(&self, title: &String) -> (r: bool)
        ensures
            r == holds_title(self.posts@, title@),
    {
        let mut i: usize = 0;
        while i < self.posts.len()
            invariant
                i <= self.posts.len(),
                forall|k: int| 0 <= k < i ==> (#[trigger] self.posts@[k]).title@ != title@,
            decreases self.posts.len() - i,
        {
            if self.posts[i].title == *title {
                return true;
            }
            i = i + 1;
        }
        false
    }
}

impl PostRepository for InMemoryPostRepository {
    closed spec fn stored(&self) -> Seq<Post> {
        self.posts@
    }

    fn persist(&mut self, dto: ValidatedCreatePostDTO) -> (r: Result<Post, ApplicationError>) {
        let post = Post::new(dto);
        if self.position_of_id(&post.id).is_some() || self.holds_title_exec(&post.title) {
            return Err(
                ApplicationError::PersistenceError(
                    String::from_str("a post with this id or title is already stored"),
                ),
            );
        }
        self.posts.push(post.clone());
        Ok(post)
    }

    fn exists_with_id(&self, id: &PostId) -> (r: Result<bool, ApplicationError>) {
        Ok(self.position_of_id(id).is_some())
    }

    fn exists_with_title(&self, title: &String) -> (r: Result<bool, ApplicationError>) {
        Ok(self.holds_title_exec(title))
    }

    fn list_posts(&self, skip: &i32, take: &i32) -> (r: Result<Vec<Post>, ApplicationError>) {
        if *skip < 0 || *take < 0 {
            return Err(
                ApplicationError::PersistenceError(
                    String::from_str("the offset and the limit must not be negative"),
                ),
            );
        }
        let len = self.posts.len();
        let start: usize = if (*skip as usize) < len {
            *skip as usize
        } else {
            len
        };
        let count: usize = if (*take as usize) < len - start {
            *take as usize
        } else {
            len - start
        };
        let mut page: Vec<Post> = Vec::new();
        let mut i: usize = 0;
        while i < count
            invariant
                start + count <= self.posts.len(),
                count <= *take,
                i <= count,
                page.len() == i,
                forall|k: int| 0 <= k < i ==> #[trigger] page@[k] == self.posts@[start + k],
            decreases count - i,
        {
            page.push(self.posts[start + i].clone());
            i = i + 1;
        }
        assert forall|k: int| 0 <= k < page.len() implies self.posts@.contains(
            #[trigger] page@[k],
        ) by {
            assert(self.posts@[start + k] == page@[k]);
        }
        Ok(page)
    }

    fn find_post(&self, id: &PostId) -> (r: Result<Option<Post>, ApplicationError>) {
        match self.position_of_id(id) {
            Some(i) => Ok(Some(self.posts[i].clone())),
            None => Ok(None),
        }
    }

    fn delete_post(&mut self, id: &PostId) -> (r: Result<bool, ApplicationError>) {
        let found = self.position_of_id(id).is_some();
        let ghost before = self.posts@;
        let ghost keep = |p: Post| p.id != *id;
        let mut kept: Vec<Post> = Vec::new();
        let mut i: usize = 0;
        while i < self.posts.len()
            invariant
                self.posts@ == before,
                i <= before.len(),
                keep == (|p: Post| p.id != *id),
                kept@ == before.subrange(0, i as int).filter(keep),
            decreases before.len() - i,
        {
            let ghost next = before.subrange(0, i + 1);
            assert(next.drop_last() =~= before.subrange(0, i as int));
            reveal(Seq::filter);
            if self.posts[i].id != *id {
                kept.push(self.posts[i].clone());
            }
            i = i + 1;
        }
        assert(before.subrange(0, before.len() as int) =~= before);
        self.posts = kept;
        Ok(found)
    }

    fn update_post(&mut self, post: &Post) -> (r: Result<bool, ApplicationError>) {
        if self.title_held_by_other(&post.title, &post.id) {
            return Err(
                ApplicationError::PersistenceError(
                    String::from_str("another post already has this title"),
                ),
            );
        }
        let found = self.position_of_id(&post.id).is_some();
        let ghost before = self.posts@;
        let ghost revise = |p: Post|
            if p.id == post.id {
                p.revised(*post)
            } else {
                p
            };
        let mut revised: Vec<Post> = Vec::new();
        let mut i: usize = 0;
        while i < self.posts.len()
            invariant
                self.posts@ == before,
                i <= before.len(),
                revise == (|p: Post|
                    if p.id == post.id {
                        p.revised(*post)
                    } else {
                        p
                    }),
                revised@ == before.subrange(0, i as int).map_values(revise),
            decreases before.len() - i,
        {
            let p = &self.posts[i];
            if p.id == post.id {
                revised.push(
                    Post {
                        id: p.id,
                        title: post.title.clone(),
                        content: post.content.clone(),
                        created_at: p.created_at,
                        last_update: post.last_update,
                    },
                );
            } else {
                revised.push(p.clone());
            }
            assert(revised@ =~= before.subrange(0, i + 1).map_values(revise));
            i = i + 1;
        }
        assert(before.subrange(0, before.len() as int) =~= before);
        self.posts = revised;
        Ok(found)
    }
}

} // verus!
