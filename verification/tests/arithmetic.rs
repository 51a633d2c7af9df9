use my_fancy_project::{add_integers, first};

#[test]
fn add_integers_adds() {
    assert_eq!(2, add_integers(1, 1));
    assert_eq!(add_integers(40, 2), 42);
    assert_eq!(add_integers(-7, 3), -4);
    assert_eq!(add_integers(0, 0), 0);
}

#[test]
fn add_integers_reaches_both_ends() {
    assert_eq!(add_integers(i32::MAX - 1, 1), i32::MAX);
    assert_eq!(add_integers(i32::MIN + 1, -1), i32::MIN);
    assert_eq!(add_integers(i32::MAX, i32::MIN), -1);
}

#[test]
fn add_integers_takes_its_arguments_in_either_order() {
    assert_eq!(add_integers(3, 9), add_integers(9, 3));
    assert_eq!(add_integers(-5, 12), add_integers(12, -5));
}

#[test]
fn first_gives_the_first_part() {
    assert_eq!(first((1, "one")), 1);
    assert_eq!(first(("one", 1)), "one");
    assert_eq!(first((String::from("left"), vec![1, 2, 3])), "left");
}
