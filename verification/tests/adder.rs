use lessons::adder::add_two;
use lessons::adder::greeting;
use lessons::adder::internal_adder;
use lessons::structs::Rectangle;

#[test]
fn exploration() {
    assert_eq!(2 + 2, 4);
}

#[test]
fn another() {
    let message = "Make this test fail";
    assert_eq!("Make this test fail", message);
}

#[test]
fn larger_can_hold_smaller() {
    let larger = Rectangle { width: 8, height: 7 };
    let smaller = Rectangle { width: 5, height: 1 };

    assert!(larger.can_hold(&smaller));
}

#[test]
fn smaller_cannot_hold_larger() {
    let larger = Rectangle { width: 8, height: 7 };
    let smaller = Rectangle { width: 5, height: 1 };

    assert!(!smaller.can_hold(&larger))
}

#[test]
fn tests_it_adds_two() {
    assert_eq!(4, add_two(2));
}

#[test]
fn greeting_contains_name() {
    let result = greeting("Carol");
    assert!(
        result.contains("Carol"),
        "Greeting did not contain name, value was `{}`",
        result
    );
}

#[test]
fn greeting_is_exact() {
    assert_eq!("Hello Carol!", greeting("Carol"));
}

#[test]
fn internal() {
    assert_eq!(4, internal_adder(2, 2))
}

#[test]
fn integration_test_it_adds_two() {
    assert_eq!(4, add_two(2));
}

#[test]
fn tests_it_works() -> Result<(), String> {
    if 2 + 2 == 4 {
        Ok(())
    } else {
        Err(String::from("two plus two does not equal four"))
    }
}
