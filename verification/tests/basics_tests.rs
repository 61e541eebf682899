use book_examples::basics::{add_two, greeting, Guess, Rectangle};

#[test]
fn it_works() {
    assert_eq!(2 + 2, 4);
}

#[test]
fn larger_can_hold_smaller() {
    let larger = Rectangle {
        width: 8,
        height: 7,
    };
    let smaller = Rectangle {
        width: 5,
        height: 1,
    };

    assert!(larger.can_hold(&smaller));
}

#[test]
fn smaller_cannot_hold_larger() {
    let larger = Rectangle {
        width: 8,
        height: 7,
    };
    let smaller = Rectangle {
        width: 5,
        height: 1,
    };

    assert!(!smaller.can_hold(&larger));
}

#[test]
fn it_adds_two() {
    assert_eq!(4, add_two(2));
}

#[test]
fn it_works2() -> Result<(), String> {
    if 2 + 2 == 4 {
        Ok(())
    } else {
        Err(String::from("two plus two does not equal four"))
    }
}

#[test]
fn integration_test_it_adds_two() {
    assert_eq!(4, add_two(2));
}

#[test]
fn greeting_has_name() {
    let result = greeting("Carol");
    assert_eq!("Hello Carol!", result);
    assert!(result.contains("Carol"));
}

#[test]
fn guesses_in_range_are_kept() {
    let _one = Guess::new(1);
    let _hundred = Guess::new(100);
    let _fifty = Guess::new2(50);
}

#[test]
fn equal_rectangles_cannot_hold_each_other() {
    let a = Rectangle {
        width: 5,
        height: 5,
    };
    let b = Rectangle {
        width: 5,
        height: 5,
    };
    assert!(!a.can_hold(&b));
    assert!(!b.can_hold(&a));
}
