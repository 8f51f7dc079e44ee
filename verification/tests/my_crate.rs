use lessons::basics::add_one;

#[test]
fn lib_it_works() {
    assert_eq!(2 + 2, 4);
}

#[test]
fn adds_one() {
    let arg = 5;
    let answer = add_one(arg);

    assert_eq!(6, answer);
}

#[test]
fn five_is_five() {
    assert_eq!(5, lessons::basics::five());
}

#[test]
fn plus_one_adds() {
    assert_eq!(6, lessons::basics::plus_one(5));
}
