use lessons::ownership::calculate_length;
use lessons::ownership::calculate_lengths;
use lessons::ownership::first_word;
use lessons::ownership::flawed_first_word;
use lessons::ownership::improved_first_word;
use lessons::ownership::mutable_change;
use lessons::ownership::no_dangle;
use lessons::restaurant::back_of_house::Breakfast;
use lessons::summaries::returns_summarizable;
use lessons::summaries::BlogPost;
use lessons::summaries::NewsArticle;
use lessons::summaries::Summary;
use lessons::summaries::Tweet;

#[test]
fn lengths_count_bytes() {
    let s1 = String::from("hello");
    assert_eq!(5, calculate_length(&s1));

    let (s2, len) = calculate_lengths(String::from("hello world"));
    assert_eq!("hello world", s2);
    assert_eq!(11, len);
}

#[test]
fn change_through_mutable_reference() {
    let mut s = String::from("hello");
    mutable_change(&mut s);
    assert_eq!("hello, world", s);
}

#[test]
fn no_dangle_returns_owned() {
    assert_eq!("hello", no_dangle());
}

#[test]
fn first_words() {
    let s = String::from("hello world");
    assert_eq!(5, flawed_first_word(&s));
    assert_eq!("hello", first_word(&s));
    assert_eq!("hello", improved_first_word("hello world"));
    assert_eq!("hello", improved_first_word("hello"));
    assert_eq!("", improved_first_word(" leading"));
}

#[test]
fn flawed_first_word_without_space() {
    assert_eq!(5, flawed_first_word(&String::from("hello")));
}

#[test]
fn breakfast_in_summer() {
    let meal = Breakfast::summer("Rye");
    assert_eq!("Rye", meal.toast);
}

#[test]
fn tweet_summary() {
    let tweet = Tweet {
        username: String::from("horse_e_books"),
        content: String::from("of course, as you probably already know, people"),
        reply: false,
        re_tweet: false,
    };

    assert_eq!("@horse_e_books", tweet.summarize_author());
    assert_eq!("(Read more from @horse_e_books...)", tweet.summarize());
}

#[test]
fn article_summary() {
    let article = NewsArticle {
        headline: String::from("Penguins win the Stanley Cup Championship!"),
        location: String::from("Pittsburgh, PA, USA"),
        author: String::from("Iceburgh"),
        content: String::from("The Pittsburgh Penguins once again are the best hockey team in the NHL."),
    };

    assert_eq!(
        "Penguins win the Stanley Cup Championship!, by Iceburgh (Pittsburgh, PA, USA)",
        article.summarize()
    );
}

#[test]
fn blog_post_summary() {
    let post = BlogPost {
        title: String::from("I'm So Sick of Load-shedding"),
        author: String::from("John Doe"),
        content: String::from("Enough is enough! It's time to take action..."),
    };

    assert_eq!("The Great John Doe", post.summarize_author());
    assert_eq!("(Read more from The Great John Doe...)", post.summarize());
}

#[test]
fn summarizable_tweet_is_ready() {
    let tweet = returns_summarizable();
    assert_eq!("horse_ebooks", tweet.username);
    assert_eq!("(Read more from @horse_ebooks...)", tweet.summarize());
}
