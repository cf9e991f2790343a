use vstd::prelude::*;
use vstd::utf8::encode_utf8;

use crate::error::ApplicationError;
use crate::ids::{generate_id, PostId};
use crate::repository::{holds_id, holds_title, PostRepository};
use crate::timestamp::{current_time, Timestamp};
use crate::validation::{
    mentions_property, violations_view, ConstraintViolation, ConstraintViolationLocation, ViolationModel,
};

verus! {

/// Shortest title accepted, in bytes.
pub const TITLE_MIN_LEN: usize = 6;

/// Longest title accepted, in bytes.
pub const TITLE_MAX_LEN: usize = 255;

/// The length of `s` in bytes, UTF-8 encoded, as `str::len` reports it.
pub open spec fn byte_len(s: Seq<char>) -> int {
    encode_utf8(s).len() as usize as int
}

/// Whether `s` is long enough and short enough to be a title.
pub open spec fn valid_title(s: Seq<char>) -> bool {
    TITLE_MIN_LEN <= byte_len(s) <= TITLE_MAX_LEN
}

/// The message given for a title of the wrong length.
pub open spec fn title_length_message() -> Seq<char> {
    "Your title's length must be between 6 and 255 chars"@
}

/// The violation for a client-supplied id that is already stored.
pub open spec fn id_taken_violation() -> ViolationModel {
    ("A post with the given ID already exists!"@, "id"@, ConstraintViolationLocation::Body)
}

/// The violation for a title that another post already has.
pub open spec fn title_taken_violation() -> ViolationModel {
    ("A post with the given title already exists!"@, "title"@, ConstraintViolationLocation::Body)
}

/// The violation for a title of the wrong length.
pub open spec fn title_length_violation() -> ViolationModel {
    (title_length_message(), "title"@, ConstraintViolationLocation::Body)
}

/// The violations of an update, in the order they are checked: title
/// uniqueness, then title length.
pub open spec fn update_violations(title_taken: bool, title: Seq<char>) -> Seq<ViolationModel> {
    (if title_taken {
        seq![title_taken_violation()]
    } else {
        seq![]
    }) + (if valid_title(title) {
        seq![]
    } else {
        seq![title_length_violation()]
    })
}

/// The violations of a creation, in the order they are checked: id
/// uniqueness, title uniqueness, then title length.
pub open spec fn create_violations(id_taken: bool, title_taken: bool, title: Seq<char>) -> Seq<
    ViolationModel,
> {
    (if id_taken {
        seq![id_taken_violation()]
    } else {
        seq![]
    }) + update_violations(title_taken, title)
}

/// The violations of creating `dto` while the store holds `stored`.
pub open spec fn creation_violations(dto: CreatePostDTO, stored: Seq<Post>) -> Seq<ViolationModel> {
    create_violations(
        dto.id matches Some(id) && holds_id(stored, id),
        holds_title(stored, dto.title@),
        dto.title@,
    )
}

/// The violations of updating `post` with `dto` while the store holds
/// `stored`; the title counts as taken only when it changes.
pub open spec fn revision_violations(post: Post, dto: UpdatePostDTO, stored: Seq<Post>) -> Seq<
    ViolationModel,
> {
    update_violations(post.title@ != dto.title@ && holds_title(stored, dto.title@), dto.title@)
}


/// A supplied id that the store already holds makes creation fail with a
/// violation on "id"; an id the store does not hold brings none.
pub proof fn lemma_known_id_reported<R: PostRepository>(dto: CreatePostDTO, post_repository: &R)
    ensures
        (dto.id matches Some(id) && holds_id(post_repository.stored(), id)) ==> {
            &&& creation_violations(dto, post_repository.stored()).len() > 0
            &&& mentions_property(creation_violations(dto, post_repository.stored()), "id"@)
        },
        !(dto.id matches Some(id) && holds_id(post_repository.stored(), id))
            ==> !mentions_property(creation_violations(dto, post_repository.stored()), "id"@),
{
    reveal_strlit("id");
    reveal_strlit("title");
    let v = creation_violations(dto, post_repository.stored());
    if dto.id matches Some(id) && holds_id(post_repository.stored(), id) {
        assert(v[0] == id_taken_violation());
    } else {
        assert forall|i: int| 0 <= i < v.len() implies (#[trigger] v[i]).1 == "title"@ by {}
        assert("title"@ != "id"@) by {
            assert("title"@.len() != "id"@.len());
        }
    }
}

/// A title that the store already holds makes creation fail with the
/// uniqueness violation on "title" in the body, whether or not the supplied
/// id is taken too; when it is, both violations are reported.
pub proof fn lemma_taken_title_reported<R: PostRepository>(dto: CreatePostDTO, post_repository: &R)
    requires
        holds_title(post_repository.stored(), dto.title@),
    ensures
        creation_violations(dto, post_repository.stored()).contains(title_taken_violation()),
        title_taken_violation().1 == "title"@,
        title_taken_violation().2 == ConstraintViolationLocation::Body,
        (dto.id matches Some(id) && holds_id(post_repository.stored(), id)) ==> creation_violations(
            dto,
            post_repository.stored(),
        ).contains(id_taken_violation()),
{
    let v = creation_violations(dto, post_repository.stored());
    if dto.id matches Some(id) && holds_id(post_repository.stored(), id) {
        assert(v[0] == id_taken_violation());
        assert(v[1] == title_taken_violation());
    } else {
        assert(v[0] == title_taken_violation());
    }
}

/// Once a post with a valid title is stored, creating another post with
/// that title and no id fails with the one violation of a taken title.
pub proof fn lemma_repeated_title_rejected(dto: CreatePostDTO, stored: Seq<Post>, first: Post)
    requires
        dto.id is None,
        first.title@ == dto.title@,
        valid_title(dto.title@),
    ensures
        creation_violations(dto, stored.push(first)) == seq![title_taken_violation()],
{
    assert(stored.push(first)[stored.len() as int] == first);
    assert(creation_violations(dto, stored.push(first)) =~= seq![title_taken_violation()]);
}

/// An update that keeps the post's title is never checked for a taken
/// title: what the store holds makes no difference to its violations.
pub proof fn lemma_unchanged_title_unchecked(
    post: Post,
    dto: UpdatePostDTO,
    stored: Seq<Post>,
    other: Seq<Post>,
)
    requires
        dto.title@ == post.title@,
    ensures
        revision_violations(post, dto, stored) == revision_violations(post, dto, other),
        !revision_violations(post, dto, stored).contains(title_taken_violation()),
{
    reveal_strlit("A post with the given title already exists!");
    reveal_strlit("Your title's length must be between 6 and 255 chars");
    let v = revision_violations(post, dto, stored);
    assert(title_taken_violation().0 != title_length_violation().0) by {
        assert(title_taken_violation().0.len() != title_length_violation().0.len());
    }
    if v.contains(title_taken_violation()) {
        let i = choose|i: int| 0 <= i < v.len() && v[i] == title_taken_violation();
        assert(v[i] == title_length_violation());
    }
}

/// A title: a string whose length lies within the bounds.
#[derive(Debug)]
pub struct PostTitle {
    value: String,
}

impl View for PostTitle {
    type V = Seq<char>;

    closed spec fn view(&self) -> Seq<char> {
        self.value@
    }
}

impl PostTitle {
    #[verifier::type_invariant]
    spec fn inv(&self) -> bool {
        valid_title(self.value@)
    }

    pub fn new(title: String) -> (r: Result<Self, String>)
        ensures
            r is Ok <==> valid_title(title@),
            r matches Ok(t) ==> t@ == title@,
            r matches Err(m) ==> m@ == title_length_message(),
    {
        let len = title.as_str().len();
        if len > TITLE_MAX_LEN || len < TITLE_MIN_LEN {
            return Err(String::from_str("Your title's length must be between 6 and 255 chars"));
        }
        Ok(PostTitle { value: title })
    }

    /// The string the title was made from.
    pub fn to_string(&self) -> (r: String)
        ensures
            r@ == self@,
    {
        self.value.clone()
    }
}


/// A stored post.
#[derive(Debug)]
pub struct Post {
    pub id: PostId,
    pub title: String,
    pub content: String,
    pub created_at: Timestamp,
    pub last_update: Timestamp,
}

impl Clone for Post {
    fn clone(&self) -> (r: Self)
        ensures
            r == *self,
    {
        Post {
            id: self.id,
            title: self.title.clone(),
            content: self.content.clone(),
            created_at: self.created_at,
            last_update: self.last_update,
        }
    }
}

impl Post {
    /// A post is never updated before it was created.
    pub open spec fn wf(&self) -> bool {
        self.created_at.micros <= self.last_update.micros
    }

    /// This post after a store has written the title, content and update
    /// time of `from` over it.
    pub open spec fn revised(self, from: Post) -> Post {
        Post { title: from.title, content: from.content, last_update: from.last_update, ..self }
    }

    /// A new post from validated input: the client's id, or else
    /// `fresh_id`, created and last updated at `now`.
    pub fn new_at(dto: ValidatedCreatePostDTO, fresh_id: PostId, now: Timestamp) -> (r: Self)
        ensures
            r.id == (match dto.id {
                Some(id) => id,
                None => fresh_id,
            }),
            r.title@ == dto.title@,
            r.content@ == dto.content@,
            r.created_at == now,
            r.last_update == now,
            r.wf(),
    {
        let id = match dto.id {
            Some(id) => id,
            None => fresh_id,
        };
        Post {
            id,
            title: dto.title.to_string(),
            content: dto.content,
            created_at: now,
            last_update: now,
        }
    }

    /// A new post from validated input: the client's id, or else a freshly
    /// generated one, created and last updated now.
    pub fn new(dto: ValidatedCreatePostDTO) -> (r: Self)
        ensures
            r.title@ == dto.title@,
            r.content@ == dto.content@,
            dto.id matches Some(id) ==> r.id == id,
            dto.id is None ==> (r.id.value / 0x1000_0000_0000_0000_0000) % 16 == 7,
            r.created_at == r.last_update,
            r.created_at.micros >= 0,
            r.wf(),
    {
        let fresh_id = match dto.id {
            Some(id) => id,
            None => generate_id(),
        };
        let now = current_time();
        Self::new_at(dto, fresh_id, now)
    }

    /// Writes the validated title and content over this post, as updated at
    /// `now`. The update time never moves back: a reading earlier than the
    /// previous update keeps the previous one.
    pub fn update_at(&mut self, dto: &ValidatedUpdatePostDTO, now: Timestamp)
        ensures
            final(self).id == old(self).id,
            final(self).created_at == old(self).created_at,
            final(self).title@ == dto.title@,
            final(self).content@ == dto.content@,
            final(self).last_update == (if now.micros >= old(self).last_update.micros {
                now
            } else {
                old(self).last_update
            }),
            old(self).wf() ==> final(self).wf(),
    {
        self.title = dto.title.to_string();
        self.content = dto.content.clone();
        if now.micros >= self.last_update.micros {
            self.last_update = now;
        }
    }

    /// Writes the validated title and content over this post, updated now.
    pub fn update_from(&mut self, dto: &ValidatedUpdatePostDTO)
        ensures
            final(self).id == old(self).id,
            final(self).created_at == old(self).created_at,
            final(self).title@ == dto.title@,
            final(self).content@ == dto.content@,
            final(self).last_update.micros >= old(self).last_update.micros,
            old(self).wf() ==> final(self).wf(),
    {
        let now = current_time();
        self.update_at(dto, now);
    }
}

/// Input for a new post, as received.
#[derive(Debug)]
pub struct CreatePostDTO {
    pub id: Option<PostId>,
    pub title: String,
    pub content: String,
}

/// Input for a new post that passed validation.
#[derive(Debug)]
pub struct ValidatedCreatePostDTO {
    pub id: Option<PostId>,
    pub title: PostTitle,
    pub content: String,
}

/// Input for changing a post, as received.
#[derive(Debug)]
pub struct UpdatePostDTO {
    pub title: String,
    pub content: String,
}

/// Input for changing a post that passed validation.
#[derive(Debug)]
pub struct ValidatedUpdatePostDTO {
    pub title: PostTitle,
    pub content: String,
}

/// Adds the violation of a title of the wrong length, with `message`.
fn push_title_violation(violations: &mut Vec<ConstraintViolation>, message: String)
    requires
        message@ == title_length_message(),
    ensures
        violations_view(final(violations)@) == violations_view(old(violations)@).push(
            title_length_violation(),
        ),
{
    let c = ConstraintViolation::new(
        message,
        String::from_str("title"),
        ConstraintViolationLocation::Body,
    );
    violations.push(c);
    assert(violations_view(violations@) =~= violations_view(old(violations)@).push(c@));
}

/// Adds the violation of a title that another post already has.
fn push_title_taken(violations: &mut Vec<ConstraintViolation>)
    ensures
        violations_view(final(violations)@) == violations_view(old(violations)@).push(
            title_taken_violation(),
        ),
{
    let c = ConstraintViolation::new(
        String::from_str("A post with the given title already exists!"),
        String::from_str("title"),
        ConstraintViolationLocation::Body,
    );
    violations.push(c);
    assert(violations_view(violations@) =~= violations_view(old(violations)@).push(c@));
}

impl ValidatedCreatePostDTO {
    /// Whether `r` is what validating `dto` gives when the store holds its id
    /// (`id_taken`, heeded only when an id was supplied) and its title
    /// (`title_taken`).
    pub open spec fn outcome(
        dto: CreatePostDTO,
        id_taken: bool,
        title_taken: bool,
        r: Result<Self, ApplicationError>,
    ) -> bool {
        let expected = create_violations(dto.id is Some && id_taken, title_taken, dto.title@);
        match r {
            Ok(v) => expected.len() == 0 && v.id == dto.id && v.title@ == dto.title@
                && v.content@ == dto.content@,
            Err(e) => expected.len() > 0 && e.is_validation_of(expected),
        }
    }

    /// Validates `dto` given the answers of the store: every check runs, and
    /// all violations found are reported together.
    pub fn from_checks(dto: CreatePostDTO, id_taken: bool, title_taken: bool) -> (r: Result<
        Self,
        ApplicationError,
    >)
        ensures
            Self::outcome(dto, id_taken, title_taken, r),
    {
        let mut violations: Vec<ConstraintViolation> = Vec::new();
        if dto.id.is_some() && id_taken {
            let c = ConstraintViolation::new(
                String::from_str("A post with the given ID already exists!"),
                String::from_str("id"),
                ConstraintViolationLocation::Body,
            );
            violations.push(c);
            assert(violations_view(violations@) =~= seq![id_taken_violation()]);
        }
        if title_taken {
            push_title_taken(&mut violations);
        }
        let ghost expected = create_violations(
            dto.id is Some && id_taken,
            title_taken,
            dto.title@,
        );
        match PostTitle::new(dto.title) {
            Ok(title) => {
                assert(expected =~= violations_view(violations@));
                if violations.len() == 0 {
                    Ok(ValidatedCreatePostDTO { id: dto.id, title, content: dto.content })
                } else {
                    Err(ApplicationError::ValidationError(violations))
                }
            },
            Err(message) => {
                push_title_violation(&mut violations, message);
                assert(expected =~= violations_view(violations@));
                Err(ApplicationError::ValidationError(violations))
            },
        }
    }

    /// Validates `dto` against the store: a supplied id must be new, the title
    /// must be new and of valid length. All checks run and every violation is
    /// reported; a failing store call ends validation with its error.
    pub fn new<R: PostRepository>(dto: CreatePostDTO, post_repository: &mut R) -> (r: Result<
        Self,
        ApplicationError,
    >)
        ensures
            *final(post_repository) == *old(post_repository),
            (r matches Err(e) && e.is_persistence()) || Self::outcome(
                dto,
                dto.id matches Some(id) && holds_id(old(post_repository).stored(), id),
                holds_title(old(post_repository).stored(), dto.title@),
                r,
            ),
    {
        let mut id_taken = false;
        if let Some(id) = &dto.id {
            match post_repository.exists_with_id(id) {
                Ok(exists) => {
                    id_taken = exists;
                },
                Err(e) => {
                    return Err(e);
                },
            }
        }
        let title_taken = match post_repository.exists_with_title(&dto.title) {
            Ok(exists) => exists,
            Err(e) => {
                return Err(e);
            },
        };
        Self::from_checks(dto, id_taken, title_taken)
    }
}

impl ValidatedUpdatePostDTO {
    /// Whether `r` is what validating `dto` gives when the uniqueness check
    /// reports `title_taken`.
    pub open spec fn outcome(
        dto: UpdatePostDTO,
        title_taken: bool,
        r: Result<Self, ApplicationError>,
    ) -> bool {
        let expected = update_violations(title_taken, dto.title@);
        match r {
            Ok(v) => expected.len() == 0 && v.title@ == dto.title@ && v.content@ == dto.content@,
            Err(e) => expected.len() > 0 && e.is_validation_of(expected),
        }
    }

    /// Validates `dto` given the answer of the store on its title: both
    /// checks run, and all violations found are reported together.
    pub fn from_checks(dto: UpdatePostDTO, title_taken: bool) -> (r: Result<
        Self,
        ApplicationError,
    >)
        ensures
            Self::outcome(dto, title_taken, r),
    {
        let mut violations: Vec<ConstraintViolation> = Vec::new();
        if title_taken {
            push_title_taken(&mut violations);
        }
        let ghost expected = update_violations(title_taken, dto.title@);
        match PostTitle::new(dto.title) {
            Ok(title) => {
                assert(expected =~= violations_view(violations@));
                if violations.len() == 0 {
                    Ok(ValidatedUpdatePostDTO { title, content: dto.content })
                } else {
                    Err(ApplicationError::ValidationError(violations))
                }
            },
            Err(message) => {
                push_title_violation(&mut violations, message);
                assert(expected =~= violations_view(violations@));
                Err(ApplicationError::ValidationError(violations))
            },
        }
    }

    /// Whether updating `post` with `dto` asks the store about the title:
    /// only when the title changes.
    pub fn title_check_needed(dto: &UpdatePostDTO, post: &Post) -> (r: bool)
        ensures
            r == (dto.title@ != post.title@),
    {
        post.title != dto.title
    }

    /// Validates `dto` as the new state of `post`: a changed title must be
    /// new and any title of valid length. The uniqueness check is skipped
    /// when the title is unchanged. A failing store call ends validation with
    /// its error.
    pub fn new<R: PostRepository>(
        dto: UpdatePostDTO,
        post: &Post,
        post_repository: &mut R,
    ) -> (r: Result<Self, ApplicationError>)
        ensures
            *final(post_repository) == *old(post_repository),
            dto.title@ == post.title@ ==> Self::outcome(dto, false, r),
            dto.title@ != post.title@ ==> (r matches Err(e) && e.is_persistence())
                || Self::outcome(dto, holds_title(old(post_repository).stored(), dto.title@), r),
    {
        let mut title_taken = false;
        if Self::title_check_needed(&dto, post) {
            match post_repository.exists_with_title(&dto.title) {
                Ok(exists) => {
                    title_taken = exists;
                },
                Err(e) => {
                    return Err(e);
                },
            }
        }
        Self::from_checks(dto, title_taken)
    }
}

} // verus!
