use lessons::blog::Post;

#[test]
fn draft_returns_empty_string() {
    let mut draft = Post::new();

    draft.add_text("Hello world!");

    assert_eq!("", draft.content())
}

#[test]
fn draft_is_published() {
    let mut post = Post::new();

    post.add_text("I ate a salad for lunch today");
    assert_eq!("", post.content());

    post.request_review();
    assert_eq!("", post.content());

    post.approve();
    post.approve();
    assert_eq!("I ate a salad for lunch today", post.content());
}

#[test]
fn lib_pending_review_is_rejected() {
    let mut post = Post::new();

    post.add_text("Hello world!");
    post.request_review();
    post.reject();

    assert_eq!(post.content(), "");

    post.approve();

    assert_eq!(post.content(), "");
}

#[test]
fn only_allow_draft_amend() {
    let mut post = Post::new();

    post.add_text("Hello world!");

    assert_eq!("", post.content());

    post.request_review();
    post.approve();
    post.approve();

    assert_eq!("Hello world!", post.content());

    post.add_text(" My name is John Doe.");

    assert_eq!("Hello world!", post.content());
}

#[test]
fn post_is_rejected_then_amended() {
    let mut post = Post::new();

    post.add_text("Hello...");

    post.request_review();
    post.approve();
    post.reject();

    assert_eq!("", post.content());

    post.add_text(" World!");

    post.request_review();
    post.approve();
    post.approve();

    assert_eq!("Hello... World!", post.content());
}

#[test]
fn single_approval_is_not_enough() {
    let mut post = Post::new();

    post.add_text("Almost there");
    post.request_review();
    post.approve();

    assert_eq!("", post.content());
}
