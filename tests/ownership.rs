use blinky::ownership::{AlreadyTaken, TakeOnce};

#[test]
fn first_take_succeeds() {
    let mut g = TakeOnce::new();
    assert!(!g.is_taken());
    assert!(g.take().is_ok());
    assert!(g.is_taken());
}

#[test]
fn second_take_fails() {
    let mut g = TakeOnce::new();
    assert!(g.take().is_ok());
    assert_eq!(g.take().unwrap_err(), AlreadyTaken);
    assert_eq!(g.take().unwrap_err(), AlreadyTaken);
    assert!(g.is_taken());
}
