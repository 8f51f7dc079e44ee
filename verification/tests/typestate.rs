use lessons::typestate::DraftPost;
use lessons::typestate::Post;

#[test]
fn draft_is_published_and_content_is_accessible() {
    let mut post = Post::new();

    post.add_text("I ate a salad for lunch today");
    let post = post.request_review();
    let post = post.approve();

    assert_eq!("I ate a salad for lunch today", post.content());
}

#[test]
fn post_is_chainable() {
    let mut post = Post::new();
    post.add_text("Hello World!");

    assert_eq!("Hello World!", post.request_review().approve().content());
}

#[test]
fn pending_review_is_rejected() {
    let mut post = Post::new();

    post.add_text("Hello world!");
    let post = post.request_review();
    let post: DraftPost = post.reject();

    assert_eq!("Hello world!", post.request_review().approve().content())
}
