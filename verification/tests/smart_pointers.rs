use lessons::mybox::MyBox;

#[test]
fn deference_int() {
    let x = 5;
    let y = MyBox::new(x);

    assert_eq!(5, x);
    assert_eq!(5, *y);
}

#[test]
fn deref_coercion_reaches_str() {
    let m = MyBox::new(String::from("Rust"));
    let s: &str = &m;
    assert_eq!("Rust", s);
}
