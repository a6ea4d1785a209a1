use result_like::result::Res;

#[test]
fn test_x() {
    let a: Res<u32, ()> = Res::Primary(1);
    let b = a.clone();
    assert!(matches!(b, Res::Primary(1)));
}

#[test]
fn test_simple() {
    let xo: Res<u32, ()> = Res::Primary(1);

    assert_eq!(xo.unwrap(), 1);

    let op = xo.into_result();

    assert_eq!(op, Ok(1));

    let xo = xo.map_or(0, |v| v * 2);
    assert_eq!(xo, 2);

    assert_eq!(Res::<u32, ()>::Secondary(()).as_result(), Err(&()));
}

#[test]
fn test_gen() {
    assert_eq!(Res::<i32, ()>::Primary(10).map(|i| i * 2).unwrap(), 20);

    assert_eq!(Res::<i32, i32>::Secondary(10).or::<()>(Res::Primary(10)).unwrap(), 10);

    let no_copy: Res<String, ()> = Res::Primary(String::from("elem"));
    assert!(no_copy.is_primary());
}

#[test]
fn test_result() {
    let mut xo: Res<&str, ()> = Res::Primary("s");

    assert_eq!(xo.unwrap(), "s");

    let op = xo.into_result();

    assert_eq!(op, Ok("s"));

    xo = xo.and_then(|_| Res::Secondary(()));
    assert_eq!(xo.into_result(), Err(()));
}

#[test]
fn test_result_round_trip() {
    let x: Res<i32, &str> = Res::Primary(3);
    assert_eq!(Res::from_result(x.into_result()), x);
    let y: Res<i32, &str> = Res::Secondary("e");
    assert_eq!(Res::from_result(y.into_result()), y);
    let ok: Result<i32, &str> = Ok(3);
    assert_eq!(Res::from_result(ok).into_result(), ok);
    let err: Result<i32, &str> = Err("e");
    assert_eq!(Res::from_result(err).into_result(), err);
}

#[test]
fn test_result_map_err() {
    let ok: Res<i32, i32> = Res::Primary(1);
    assert_eq!(ok.map_err(|e| e + 1), Res::Primary(1));
    let err: Res<i32, i32> = Res::Secondary(1);
    assert_eq!(err.map_err(|e| e + 1), Res::Secondary(2));
}

#[test]
fn test_result_unwrap_variants() {
    assert_eq!(Res::<i32, ()>::Primary(4).expect("broken"), 4);
    assert_eq!(Res::<i32, &str>::Secondary("boom").unwrap_err(), "boom");
    assert_eq!(Res::<i32, ()>::Primary(4).unwrap_or(7), 4);
    assert_eq!(Res::<i32, ()>::Secondary(()).unwrap_or(7), 7);
    assert_eq!(Res::<i32, i32>::Secondary(5).unwrap_or_else(|e| e * 2), 10);
    assert_eq!(Res::<i32, ()>::Primary(4).unwrap_or_default(), 4);
    assert_eq!(Res::<i32, ()>::Secondary(()).unwrap_or_default(), 0);
}

#[test]
fn test_result_combinators() {
    let ok: Res<i32, &str> = Res::Primary(2);
    let err: Res<i32, &str> = Res::Secondary("e");
    assert_eq!(ok.and(Res::<&str, &str>::Primary("y")), Res::Primary("y"));
    assert_eq!(err.and(Res::<&str, &str>::Primary("y")), Res::Secondary("e"));
    assert_eq!(ok.and_then(|v| Res::<i32, &str>::Primary(v + 1)), Res::Primary(3));
    assert_eq!(ok.or(Res::<i32, ()>::Primary(9)), Res::Primary(2));
    assert_eq!(err.or(Res::<i32, ()>::Primary(9)), Res::Primary(9));
    assert_eq!(ok.or_else(|_| Res::<i32, ()>::Primary(9)), Res::Primary(2));
    assert_eq!(err.or_else(|_| Res::<i32, ()>::Primary(9)), Res::Primary(9));
    assert_eq!(ok.map_or_else(|_| 0, |v| v * 3), 6);
    assert_eq!(err.map_or_else(|_| 0, |v| v * 3), 0);
}

#[test]
fn test_result_projections() {
    let ok: Res<i32, &str> = Res::Primary(8);
    assert_eq!(ok.as_ref().copied(), Res::Primary(8));
    assert_eq!(ok.as_ref().cloned(), Res::Primary(8));
    assert_eq!(ok.as_result(), Ok(&8));
    let some: Res<Option<i32>, &str> = Res::Primary(Some(1));
    assert_eq!(some.transpose(), Some(Res::Primary(1)));
    let none: Res<Option<i32>, &str> = Res::Primary(None);
    assert_eq!(none.transpose(), None);
    let err: Res<Option<i32>, &str> = Res::Secondary("e");
    assert_eq!(err.transpose(), Some(Res::Secondary("e")));
}
