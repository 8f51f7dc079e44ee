use lessons::generics::largest;
use lessons::generics::largest_char;
use lessons::generics::largest_i32;
use lessons::generics::longest;
use lessons::generics::ImportantExcerpt;
use lessons::generics::MultipleTypePoint;
use lessons::generics::Pair;
use lessons::generics::Point;

#[test]
fn largest_of_numbers() {
    let number_list = vec![34, 50, 25, 100, 65];
    assert_eq!(100, largest_i32(&number_list));

    let number_list = vec![102, 34, 6000, 89, 54, 2, 43, 8];
    assert_eq!(6000, largest_i32(&number_list));
}

#[test]
fn largest_of_chars() {
    let char_list = vec!['y', 'm', 'a', 'q'];
    assert_eq!('y', largest_char(&char_list));
}

#[test]
fn largest_generic_matches_concrete() {
    let number_list = vec![34, 50, 25, 100, 65];
    assert_eq!(100, largest(&number_list));

    let char_list = vec!['y', 'm', 'a', 'q'];
    assert_eq!('y', largest(&char_list));
}

#[test]
fn longest_picks_more_bytes() {
    assert_eq!("abcd", longest("abcd", "xyz"));
    assert_eq!("xyzw", longest("ab", "xyzw"));
    assert_eq!("b", longest("a", "b"));
}

#[test]
fn points_mix_up() {
    let p3 = MultipleTypePoint { x: 5, y: 10.4 };
    let p4 = MultipleTypePoint { x: "Hello", y: 'c' };

    let p5 = p3.mix_up(p4);

    assert_eq!(5, p5.x);
    assert_eq!('c', p5.y);
}

#[test]
fn point_accessor_and_pair() {
    let p = Point { x: 5, y: 10 };
    assert_eq!(&5, p.x());

    let pair = Pair::new(1, 2);
    assert_eq!(1, pair.x);
    assert_eq!(2, pair.y);
}

#[test]
fn excerpt_level_is_three() {
    let novel = String::from("Call me Ishmael. Some years ago...");
    let first_sentence = novel.split('.').next().expect("Could not find a '.'");
    let i = ImportantExcerpt { part: first_sentence };
    assert_eq!(3, i.level());
}
