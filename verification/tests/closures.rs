use lessons::closures::do_twice;
use lessons::closures::generate_workout;
use lessons::closures::returns_closure;
use lessons::closures::Cacher;
use lessons::closures::WorkoutMessage;

#[test]
fn cacher_computes_once_and_replays() {
    let mut cacher = Cacher::new(|num| num * 2);
    assert_eq!(10, cacher.value(5));
    assert_eq!(10, cacher.value(5));
    assert_eq!(14, cacher.value(7));
}

#[test]
fn light_workout_uses_one_measurement() {
    let plan = generate_workout(10, 7, |num| num);
    assert_eq!(
        vec![WorkoutMessage::Pushups(10), WorkoutMessage::Situps(10)],
        plan
    );
}

#[test]
fn lucky_number_grants_a_break() {
    let plan = generate_workout(30, 3, |num| num);
    assert_eq!(vec![WorkoutMessage::TakeABreak], plan);
}

#[test]
fn heavy_workout_is_a_run() {
    let plan = generate_workout(30, 7, |num| num);
    assert_eq!(vec![WorkoutMessage::Run(30)], plan);
}

fn add_one(x: i32) -> i32 {
    x + 1
}

#[test]
fn do_twice_doubles() {
    assert_eq!(12, do_twice(add_one, 5));
}

#[test]
fn returned_closure_adds_its_capture() {
    let add_ten = returns_closure(10);
    assert_eq!(15, add_ten(5));
}
