use blog_core::application::{
    create_post, delete_post, find_post, found_or_not_found, list_posts, update_post,
};
use blog_core::error::ApplicationError;
use blog_core::ids::PostId;
use blog_core::memory::InMemoryPostRepository;
use blog_core::pagination::PaginationOptions;
use blog_core::posts::{
    CreatePostDTO, Post, UpdatePostDTO, ValidatedCreatePostDTO, ValidatedUpdatePostDTO,
};
use blog_core::timestamp::Timestamp;
use blog_core::repository::PostRepository;
use blog_core::validation::{ConstraintViolation, ConstraintViolationLocation};

fn create_dto(id: Option<u128>, title: &str, content: &str) -> CreatePostDTO {
    CreatePostDTO {
        id: id.map(|value| PostId { value }),
        title: title.to_string(),
        content: content.to_string(),
    }
}

fn update_dto(title: &str, content: &str) -> UpdatePostDTO {
    UpdatePostDTO { title: title.to_string(), content: content.to_string() }
}

fn validation_errors<T: std::fmt::Debug>(r: Result<T, ApplicationError>) -> Vec<ConstraintViolation> {
    match r {
        Err(ApplicationError::ValidationError(v)) => v,
        other => panic!("expected a validation error, got {:?}", other),
    }
}

#[test]
fn create_six_char_title_succeeds_and_two_char_title_fails() {
    let mut repo = InMemoryPostRepository::new();
    let post = create_post(&mut repo, create_dto(None, "Hello!", "x")).unwrap();
    assert_eq!(post.title, "Hello!");
    assert_eq!(post.content, "x");

    let v = validation_errors(create_post(&mut repo, create_dto(None, "Hi", "x")));
    assert_eq!(v.len(), 1);
    assert_eq!(v[0].property, "title");
    assert_eq!(repo.len(), 1);
}

#[test]
fn second_post_with_same_title_fails() {
    let mut repo = InMemoryPostRepository::new();
    create_post(&mut repo, create_dto(None, "Same title", "a")).unwrap();
    let v = validation_errors(create_post(&mut repo, create_dto(None, "Same title", "b")));
    assert_eq!(v.len(), 1);
    assert_eq!(v[0].property, "title");
    assert_eq!(v[0].message, "A post with the given title already exists!");
    assert_eq!(repo.len(), 1);
}

#[test]
fn delete_unknown_id_returns_false() {
    let mut repo = InMemoryPostRepository::new();
    assert_eq!(delete_post(&mut repo, &PostId { value: 77 }).unwrap(), false);
}

#[test]
fn delete_known_id_returns_true_and_removes_it() {
    let mut repo = InMemoryPostRepository::new();
    let a = create_post(&mut repo, create_dto(None, "First post", "a")).unwrap();
    let b = create_post(&mut repo, create_dto(None, "Second post", "b")).unwrap();
    assert!(delete_post(&mut repo, &a.id).unwrap());
    assert!(find_post(&repo, &a.id).unwrap().is_none());
    assert_eq!(find_post(&repo, &b.id).unwrap().unwrap().title, "Second post");
    assert!(!delete_post(&mut repo, &a.id).unwrap());
}

#[test]
fn client_id_is_kept() {
    let mut repo = InMemoryPostRepository::new();
    let post = create_post(&mut repo, create_dto(Some(5), "Hello!", "x")).unwrap();
    assert_eq!(post.id, PostId { value: 5 });
    let found = find_post(&repo, &PostId { value: 5 }).unwrap().unwrap();
    assert_eq!(found.title, "Hello!");
}

#[test]
fn find_unknown_id_is_none() {
    let repo = InMemoryPostRepository::new();
    assert!(find_post(&repo, &PostId { value: 1 }).unwrap().is_none());
}

#[test]
fn list_defaults_to_first_ten() {
    let mut repo = InMemoryPostRepository::new();
    for i in 0..12 {
        create_post(&mut repo, create_dto(None, &format!("Post number {}", i), "x")).unwrap();
    }
    let page = list_posts(&repo, &PaginationOptions { skip: None, take: None }).unwrap();
    assert_eq!(page.len(), 10);
    assert_eq!(page[0].title, "Post number 0");
    let rest = list_posts(&repo, &PaginationOptions { skip: Some(10), take: None }).unwrap();
    assert_eq!(rest.len(), 2);
    assert_eq!(rest[1].title, "Post number 11");
    let two = list_posts(&repo, &PaginationOptions { skip: Some(3), take: Some(2) }).unwrap();
    assert_eq!(two.len(), 2);
    assert_eq!(two[0].title, "Post number 3");
}

#[test]
fn list_with_negative_page_is_a_store_error() {
    let repo = InMemoryPostRepository::new();
    let r = list_posts(&repo, &PaginationOptions { skip: Some(-1), take: None });
    assert!(matches!(r, Err(ApplicationError::PersistenceError(_))));
}

#[test]
fn update_changes_title_and_content() {
    let mut repo = InMemoryPostRepository::new();
    let post = create_post(&mut repo, create_dto(None, "Hello!", "x")).unwrap();
    let updated = update_post(&mut repo, &post.id, update_dto("Hello again", "y")).unwrap();
    assert_eq!(updated.id, post.id);
    assert_eq!(updated.title, "Hello again");
    assert_eq!(updated.content, "y");
    assert_eq!(updated.created_at, post.created_at);
    assert!(updated.last_update.micros >= post.last_update.micros);
    let stored = find_post(&repo, &post.id).unwrap().unwrap();
    assert_eq!(stored.title, "Hello again");
    assert_eq!(stored.content, "y");
}

fn sample_post(title: &str) -> Post {
    Post {
        id: PostId { value: 1 },
        title: title.to_string(),
        content: "x".to_string(),
        created_at: Timestamp { micros: 1 },
        last_update: Timestamp { micros: 1 },
    }
}

#[test]
fn unchanged_title_needs_no_uniqueness_check() {
    let post = sample_post("Hello!");
    assert!(!ValidatedUpdatePostDTO::title_check_needed(&update_dto("Hello!", "y"), &post));
    assert!(ValidatedUpdatePostDTO::title_check_needed(&update_dto("Hello again", "y"), &post));
}

#[test]
fn update_with_unchanged_title_succeeds() {
    let mut repo = InMemoryPostRepository::new();
    let post = create_post(&mut repo, create_dto(None, "Hello!", "x")).unwrap();
    let updated = update_post(&mut repo, &post.id, update_dto("Hello!", "new content")).unwrap();
    assert_eq!(updated.title, "Hello!");
    assert_eq!(updated.content, "new content");
}

#[test]
fn update_with_taken_title_is_rejected() {
    let mut repo = InMemoryPostRepository::new();
    create_post(&mut repo, create_dto(None, "Taken title", "a")).unwrap();
    let post = create_post(&mut repo, create_dto(None, "Hello!", "x")).unwrap();
    let v = validation_errors(update_post(&mut repo, &post.id, update_dto("Taken title", "y")));
    assert_eq!(v.len(), 1);
    assert_eq!(v[0].property, "title");
    assert_eq!(find_post(&repo, &post.id).unwrap().unwrap().title, "Hello!");
}

#[test]
fn update_of_unknown_post_fails_with_post_id_violation() {
    let mut repo = InMemoryPostRepository::new();
    let id = PostId { value: 0x0123456789abcdef0123456789abcdef };
    let v = validation_errors(update_post(&mut repo, &id, update_dto("Hi", "y")));
    assert_eq!(v.len(), 1);
    assert_eq!(v[0].property, "post_id");
    assert_eq!(v[0].location, ConstraintViolationLocation::Path);
    assert_eq!(v[0].message, "Could not find post with id 01234567-89ab-cdef-0123-456789abcdef!");
    assert_eq!(repo.len(), 0);
}

#[test]
fn found_post_is_passed_on() {
    let post = found_or_not_found(Some(sample_post("Hello!")), &PostId { value: 1 }).unwrap();
    assert_eq!(post.title, "Hello!");
}

#[test]
fn missing_post_is_not_found() {
    let v = validation_errors(found_or_not_found(None, &PostId { value: 255 }));
    assert_eq!(v.len(), 1);
    assert_eq!(v[0].property, "post_id");
    assert_eq!(v[0].location, ConstraintViolationLocation::Path);
    assert_eq!(v[0].message, "Could not find post with id 00000000-0000-0000-0000-0000000000ff!");
}

#[test]
fn list_past_the_end_is_empty() {
    let mut repo = InMemoryPostRepository::new();
    create_post(&mut repo, create_dto(None, "Only post", "x")).unwrap();
    let page = list_posts(&repo, &PaginationOptions { skip: Some(5), take: Some(3) }).unwrap();
    assert!(page.is_empty());
    let none = list_posts(&repo, &PaginationOptions { skip: None, take: Some(0) }).unwrap();
    assert!(none.is_empty());
}

#[test]
fn store_refuses_duplicate_title_as_persistence_error() {
    let mut repo = InMemoryPostRepository::new();
    let a = ValidatedCreatePostDTO::from_checks(create_dto(None, "Same title", "a"), false, false).unwrap();
    let b = ValidatedCreatePostDTO::from_checks(create_dto(None, "Same title", "b"), false, false).unwrap();
    repo.persist(a).unwrap();
    assert!(matches!(repo.persist(b), Err(ApplicationError::PersistenceError(_))));
    assert_eq!(repo.len(), 1);
}

#[test]
fn store_refuses_update_to_another_posts_title() {
    let mut repo = InMemoryPostRepository::new();
    let a = create_post(&mut repo, create_dto(None, "First post", "a")).unwrap();
    let mut b = create_post(&mut repo, create_dto(None, "Second post", "b")).unwrap();
    b.title = a.title.clone();
    assert!(matches!(repo.update_post(&b), Err(ApplicationError::PersistenceError(_))));
}
