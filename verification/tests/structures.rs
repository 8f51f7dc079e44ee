use lessons::screen::Button;
use lessons::screen::Draw;
use lessons::screen::Screen;
use lessons::structs::area;
use lessons::structs::build_user;
use lessons::structs::struct_area;
use lessons::structs::tuple_area;
use lessons::structs::Rectangle;

#[test]
fn rectangle_areas_agree() {
    assert_eq!(1500, area(30, 50));
    assert_eq!(1500, tuple_area((30, 50)));
    assert_eq!(1500, struct_area(&Rectangle { width: 30, height: 50 }));
    assert_eq!(1500, Rectangle { width: 30, height: 50 }.area());
}

#[test]
fn square_has_equal_sides() {
    let square = Rectangle::square(5);
    assert_eq!(25, square.area());
    assert_eq!(5, square.width);
    assert_eq!(5, square.height);
}

#[test]
fn built_user_is_active() {
    let user = build_user(String::from("john@doe.com"), String::from("john.doe"));
    assert_eq!("john@doe.com", user.email);
    assert_eq!("john.doe", user.username);
    assert!(user.active);
    assert_eq!(1, user.sign_in_count);
}

#[test]
fn screen_runs_all_components() {
    let screen = Screen {
        components: vec![
            Box::new(Button {
                width: 50,
                height: 10,
                label: String::from("OK"),
            }),
        ],
    };
    screen.run();

    let button = Button { width: 1, height: 1, label: String::from("A") };
    button.draw();
}
