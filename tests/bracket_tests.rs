use bracket::bracket;
use std::cell::{Cell, RefCell};

#[test]
fn consume_error_still_releases_the_resource() {
    let released: RefCell<Vec<u32>> = RefCell::new(Vec::new());
    let r: Result<u32, String> = bracket(
        || Ok(41u32),
        |res| released.borrow_mut().push(res),
        |_| Err(String::from("X")),
    );
    assert_eq!(r, Err(String::from("X")));
    assert_eq!(*released.borrow(), vec![41u32]);
}

#[test]
fn acquire_error_skips_release_and_consume() {
    let released = Cell::new(0u32);
    let consumed = Cell::new(0u32);
    let r: Result<u32, String> = bracket(
        || Err::<u32, String>(String::from("Y")),
        |_| released.set(released.get() + 1),
        |_| {
            consumed.set(consumed.get() + 1);
            Ok(5u32)
        },
    );
    assert_eq!(r, Err(String::from("Y")));
    assert_eq!(released.get(), 0);
    assert_eq!(consumed.get(), 0);
}

#[test]
fn consume_success_returns_its_value_and_releases_once() {
    let released: RefCell<Vec<String>> = RefCell::new(Vec::new());
    let order: RefCell<Vec<&str>> = RefCell::new(Vec::new());
    let r: Result<usize, ()> = bracket(
        || Ok(String::from("handle")),
        |res| {
            order.borrow_mut().push("release");
            released.borrow_mut().push(res);
        },
        |res| {
            order.borrow_mut().push("consume");
            Ok(res.len())
        },
    );
    assert_eq!(r, Ok(6));
    assert_eq!(*released.borrow(), vec![String::from("handle")]);
    assert_eq!(*order.borrow(), vec!["consume", "release"]);
}

#[test]
fn consume_error_is_returned_unchanged() {
    let released = Cell::new(0u32);
    let r: Result<(), i32> = bracket(
        || Ok::<u8, i32>(3),
        |_| released.set(released.get() + 1),
        |res| Err(-(*res as i32)),
    );
    assert_eq!(r, Err(-3));
    assert_eq!(released.get(), 1);
}

#[test]
fn consume_sees_the_acquired_resource() {
    let r: Result<Option<u8>, ()> = bracket(|| Ok(None::<u8>), |_| {}, |res| Ok(*res));
    assert_eq!(r, Ok(None));
    let r: Result<Option<u8>, ()> = bracket(|| Ok(Some(9u8)), |_| {}, |res| Ok(*res));
    assert_eq!(r, Ok(Some(9)));
}
