use vstd::prelude::*;

use crate::error::ApplicationError;
use crate::ids::{hyphenated, id_text, PostId};
use crate::pagination::{PaginationOptions, DEFAULT_SKIP, DEFAULT_TAKE};
use crate::posts::{
    creation_violations, revision_violations, CreatePostDTO, Post, UpdatePostDTO,
    ValidatedCreatePostDTO, ValidatedUpdatePostDTO,
};
use crate::repository::{holds_id, page_len, PostRepository};
use crate::validation::{ConstraintViolation, ConstraintViolationLocation, ViolationModel};

verus! {

/// The violation for an update of a post that is not stored.
pub open spec fn post_not_found_violation(id: PostId) -> ViolationModel {
    (
        "Could not find post with id "@ + hyphenated(id.value) + "!"@,
        "post_id"@,
        ConstraintViolationLocation::Path,
    )
}

/// Validates `create_post_dto` and stores the post made from it.
pub fn create_post<R: PostRepository>(
    post_repository: &mut R,
    create_post_dto: CreatePostDTO,
) -> (r: Result<Post, ApplicationError>)
    ensures
        r matches Ok(p) ==> {
            &&& creation_violations(create_post_dto, old(post_repository).stored()).len() == 0
            &&& p.title@ == create_post_dto.title@
            &&& p.content@ == create_post_dto.content@
            &&& create_post_dto.id matches Some(id) ==> p.id == id
            &&& p.wf()
            &&& final(post_repository).stored() == old(post_repository).stored().push(p)
        },
        r matches Err(e) ==> e.is_persistence() || {
            let expected = creation_violations(create_post_dto, old(post_repository).stored());
            &&& expected.len() > 0
            &&& e.is_validation_of(expected)
            &&& *final(post_repository) == *old(post_repository)
        },
{
    let dto = ValidatedCreatePostDTO::new(create_post_dto, post_repository)?;
    post_repository.persist(dto)
}

/// A page of stored posts: `skip` defaults to 0 and `take` to 10.
pub fn list_posts<R: PostRepository>(
    post_repository: &R,
    pagination_options: &PaginationOptions,
) -> (r: Result<Vec<Post>, ApplicationError>)
    ensures
        r matches Ok(v) ==> {
            &&& 0 <= pagination_options.skip_or_default()
            &&& 0 <= pagination_options.take_or_default()
            &&& v.len() == page_len(
                post_repository.stored().len() as int,
                pagination_options.skip_or_default() as int,
                pagination_options.take_or_default() as int,
            )
            &&& forall|i: int|
                0 <= i < v.len() ==> post_repository.stored().contains(#[trigger] v@[i])
        },
        r matches Err(e) ==> e.is_persistence(),
{
    let skip = match pagination_options.skip {
        Some(s) => s,
        None => DEFAULT_SKIP,
    };
    let take = match pagination_options.take {
        Some(t) => t,
        None => DEFAULT_TAKE,
    };
    post_repository.list_posts(&skip, &take)
}

/// The stored post with id `post_id`; absence is no error.
pub fn find_post<R: PostRepository>(post_repository: &R, post_id: &PostId) -> (r: Result<
    Option<Post>,
    ApplicationError,
>)
    ensures
        r matches Ok(Some(p)) ==> p.id == *post_id && post_repository.stored().contains(p),
        r matches Ok(None) ==> !holds_id(post_repository.stored(), *post_id),
        r matches Err(e) ==> e.is_persistence(),
{
    post_repository.find_post(post_id)
}

/// Removes the post with id `post_id`, telling whether there was one;
/// absence is no error.
pub fn delete_post<R: PostRepository>(post_repository: &mut R, post_id: &PostId) -> (r: Result<
    bool,
    ApplicationError,
>)
    ensures
        r matches Ok(b) ==> {
            &&& b == holds_id(old(post_repository).stored(), *post_id)
            &&& final(post_repository).stored() == old(post_repository).stored().filter(
                |p: Post| p.id != *post_id,
            )
        },
        r matches Err(e) ==> e.is_persistence(),
{
    post_repository.delete_post(post_id)
}

/// The error for an update of a post that is not stored.
fn post_not_found(post_id: &PostId) -> (r: ApplicationError)
    ensures
        r.is_validation_of(seq![post_not_found_violation(*post_id)]),
{
    let mut message = String::from_str("Could not find post with id ");
    let text = id_text(*post_id);
    message.append(text.as_str());
    message.append("!");
    let mut violations: Vec<ConstraintViolation> = Vec::new();
    let c = ConstraintViolation::new(
        message,
        String::from_str("post_id"),
        ConstraintViolationLocation::Path,
    );
    violations.push(c);
    let r = ApplicationError::ValidationError(violations);
    assert(crate::validation::violations_view(violations@) =~= seq![
        post_not_found_violation(*post_id),
    ]);
    r
}

/// The post a lookup by `post_id` found, or the not-found validation error
/// when it found none.
pub fn found_or_not_found(found: Option<Post>, post_id: &PostId) -> (r: Result<
    Post,
    ApplicationError,
>)
    ensures
        found matches Some(p) ==> r == Ok::<Post, ApplicationError>(p),
        found is None ==> (r matches Err(e) && e.is_validation_of(
            seq![post_not_found_violation(*post_id)],
        )),
{
    match found {
        Some(p) => Ok(p),
        None => Err(post_not_found(post_id)),
    }
}

/// Finds the post with id `post_id`, validates `update_post_dto` against it,
/// applies it and stores the result, which is returned.
pub fn update_post<R: PostRepository>(
    post_repository: &mut R,
    post_id: &PostId,
    update_post_dto: UpdatePostDTO,
) -> (r: Result<Post, ApplicationError>)
    ensures
        !holds_id(old(post_repository).stored(), *post_id) ==> (r matches Err(e) && (
        e.is_persistence() || e.is_validation_of(seq![post_not_found_violation(*post_id)]))),
        r matches Ok(p) ==> {
            &&& p.id == *post_id
            &&& p.title@ == update_post_dto.title@
            &&& p.content@ == update_post_dto.content@
            &&& exists|q: Post|
                {
                    &&& old(post_repository).stored().contains(q)
                    &&& q.id == *post_id
                    &&& revision_violations(q, update_post_dto, old(post_repository).stored()).len()
                        == 0
                    &&& p.created_at == q.created_at
                    &&& p.last_update.micros >= q.last_update.micros
                }
            &&& final(post_repository).stored() == old(post_repository).stored().map_values(
                |s: Post|
                    if s.id == *post_id {
                        s.revised(p)
                    } else {
                        s
                    },
            )
        },
        r matches Err(e) ==> e.is_persistence() || {
            &&& *final(post_repository) == *old(post_repository)
            &&& (!holds_id(old(post_repository).stored(), *post_id) && e.is_validation_of(
                seq![post_not_found_violation(*post_id)],
            )) || exists|q: Post|
                {
                    &&& old(post_repository).stored().contains(q)
                    &&& q.id == *post_id
                    &&& revision_violations(q, update_post_dto, old(post_repository).stored()).len()
                        > 0
                    &&& e.is_validation_of(
                        revision_violations(q, update_post_dto, old(post_repository).stored()),
                    )
                }
        },
{
    let found = post_repository.find_post(post_id)?;
    let mut post = found_or_not_found(found, post_id)?;
    let dto = ValidatedUpdatePostDTO::new(update_post_dto, &post, post_repository)?;
    post.update_from(&dto);
    post_repository.update_post(&post)?;
    Ok(post)
}

} // verus!
