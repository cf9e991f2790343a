use vstd::prelude::*;

use crate::error::ApplicationError;
use crate::ids::PostId;
use crate::posts::{Post, ValidatedCreatePostDTO};

verus! {

/// Whether some post of `posts` has the id `id`.
pub open spec fn holds_id(posts: Seq<Post>, id: PostId) -> bool {
    exists|i: int| 0 <= i < posts.len() && (#[trigger] posts[i]).id == id
}

/// Whether some post of `posts` has the title `title`.
pub open spec fn holds_title(posts: Seq<Post>, title: Seq<char>) -> bool {
    exists|i: int| 0 <= i < posts.len() && (#[trigger] posts[i]).title@ == title
}

/// How many posts a page holds that skips `skip` of `n` posts and takes at
/// most `take`.
pub open spec fn page_len(n: int, skip: int, take: int) -> int {
    if n <= skip {
        0
    } else if n - skip < take {
        n - skip
    } else {
        take
    }
}

/// Storage of posts, as the validation core and the operations use it.
///
/// A store is seen as the sequence of the posts it holds. Any call may fail
/// with a persistence error (a lost connection, a constraint of the store
/// itself); what a call that succeeds did is stated on each method.
pub trait PostRepository {
    /// The posts held, oldest first.
    spec fn stored(&self) -> Seq<Post>;

    /// Stores a new post made from `dto` and returns it.
    fn persist(&mut self, dto: ValidatedCreatePostDTO) -> (r: Result<Post, ApplicationError>)
        ensures
            r matches Ok(p) ==> {
                &&& p.title@ == dto.title@
                &&& p.content@ == dto.content@
                &&& dto.id matches Some(id) ==> p.id == id
                &&& p.wf()
                &&& final(self).stored() == old(self).stored().push(p)
            },
            r matches Err(e) ==> e.is_persistence(),
    ;

    /// Whether a post with id `id` is stored.
    fn exists_with_id(&self, id: &PostId) -> (r: Result<bool, ApplicationError>)
        ensures
            r matches Ok(b) ==> b == holds_id(self.stored(), *id),
            r matches Err(e) ==> e.is_persistence(),
    ;

    /// Whether a post titled `title` is stored.
    fn exists_with_title(&self, title: &String) -> (r: Result<bool, ApplicationError>)
        ensures
            r matches Ok(b) ==> b == holds_title(self.stored(), title@),
            r matches Err(e) ==> e.is_persistence(),
    ;

    /// At most `take` stored posts, after skipping `skip` of them.
    fn list_posts(&self, skip: &i32, take: &i32) -> (r: Result<Vec<Post>, ApplicationError>)
        ensures
            r matches Ok(v) ==> {
                &&& 0 <= *skip
                &&& 0 <= *take
                &&& v.len() == page_len(self.stored().len() as int, *skip as int, *take as int)
                &&& forall|i: int| 0 <= i < v.len() ==> self.stored().contains(#[trigger] v@[i])
            },
            r matches Err(e) ==> e.is_persistence(),
    ;

    /// The stored post with id `id`, if there is one.
    fn find_post(&self, id: &PostId) -> (r: Result<Option<Post>, ApplicationError>)
        ensures
            r matches Ok(Some(p)) ==> p.id == *id && self.stored().contains(p),
            r matches Ok(None) ==> !holds_id(self.stored(), *id),
            r matches Err(e) ==> e.is_persistence(),
    ;

    /// Removes the post with id `id`; tells whether there was one.
    fn delete_post(&mut self, id: &PostId) -> (r: Result<bool, ApplicationError>)
        ensures
            r matches Ok(b) ==> {
                &&& b == holds_id(old(self).stored(), *id)
                &&& final(self).stored() == old(self).stored().filter(|p: Post| p.id != *id)
            },
            r matches Err(e) ==> e.is_persistence(),
    ;

    /// Writes the title, content and update time of `post` over the stored
    /// post with the same id; tells whether there was one.
    fn update_post(&mut self, post: &Post) -> (r: Result<bool, ApplicationError>)
        ensures
            r matches Ok(b) ==> {
                &&& b == holds_id(old(self).stored(), post.id)
                &&& final(self).stored() == old(self).stored().map_values(
                    |p: Post|
                        if p.id == post.id {
                            p.revised(*post)
                        } else {
                            p
                        },
                )
            },
            r matches Err(e) ==> e.is_persistence(),
    ;
}

} // verus!
