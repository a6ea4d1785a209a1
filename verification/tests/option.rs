use result_like::option::Opt;

#[test]
fn test_generation() {
    assert_eq!(Opt::Primary(10).into_option(), Some(10));
    assert_eq!(Opt::Primary("x").into_option(), Some("x"));
}

#[test]
fn test_xo() {
    let xo = Opt::Primary(1);
    assert!(xo.unwrap() == 1);
    let op = xo.into_option();
    assert!(op == Some(1));
}

#[test]
fn test_yo() {
    let xo = Opt::Primary("s");
    assert!(xo.is_primary());
    assert!(xo.unwrap() == "s");
    let op = xo.into_option();
    assert!(op == Some("s"));
}

#[test]
fn test_option_round_trip() {
    let x: Opt<i32> = Opt::Primary(7);
    assert_eq!(Opt::from_option(x.into_option()), x);
    let y: Opt<i32> = Opt::Secondary;
    assert_eq!(Opt::from_option(y.into_option()), y);
    let o: Option<i32> = Some(7);
    assert_eq!(Opt::from_option(o).into_option(), o);
    let n: Option<i32> = None;
    assert_eq!(Opt::from_option(n).into_option(), n);
}

#[test]
fn test_option_default() {
    let d: Opt<i32> = Default::default();
    assert!(d.is_secondary());
    let s: Opt<String> = Default::default();
    assert!(s.is_secondary());
}

#[test]
fn test_option_map() {
    assert_eq!(Opt::Primary(3).map(|x: i32| x + 1), Opt::Primary(4));
    let none: Opt<i32> = Opt::Secondary;
    assert_eq!(none.map(|x: i32| x + 1), Opt::Secondary);
}

#[test]
fn test_option_unwrap_variants() {
    assert_eq!(Opt::Primary(5).expect("missing"), 5);
    assert_eq!(Opt::Primary(5).unwrap_or(9), 5);
    assert_eq!(Opt::<i32>::Secondary.unwrap_or(9), 9);
    assert_eq!(Opt::Primary(5).unwrap_or_else(|| 9), 5);
    assert_eq!(Opt::<i32>::Secondary.unwrap_or_else(|| 9), 9);
    assert_eq!(Opt::Primary(5).unwrap_or_default(), 5);
    assert_eq!(Opt::<i32>::Secondary.unwrap_or_default(), 0);
}

#[test]
fn test_option_conversions() {
    assert_eq!(Opt::Primary(5).ok_or("e"), Ok(5));
    assert_eq!(Opt::<i32>::Secondary.ok_or("e"), Err("e"));
    assert_eq!(Opt::Primary(5).ok_or_else(|| "e"), Ok(5));
    assert_eq!(Opt::<i32>::Secondary.ok_or_else(|| "e"), Err("e"));
    assert_eq!(Opt::Primary(2).as_option(), Some(&2));
    assert_eq!(Opt::<i32>::Secondary.as_option(), None);
}

#[test]
fn test_option_combinators() {
    assert_eq!(Opt::Primary(1).filter(|v: &i32| *v > 0), Opt::Primary(1));
    assert_eq!(Opt::Primary(-1).filter(|v: &i32| *v > 0), Opt::Secondary);
    assert_eq!(Opt::Primary(1).or(Opt::Primary(2)), Opt::Primary(1));
    assert_eq!(Opt::Secondary.or(Opt::Primary(2)), Opt::Primary(2));
    assert_eq!(Opt::Primary(1).or_else(|| Opt::Primary(2)), Opt::Primary(1));
    assert_eq!(Opt::Secondary.or_else(|| Opt::Primary(2)), Opt::Primary(2));
    assert_eq!(Opt::Primary(1).xor(Opt::Secondary), Opt::Primary(1));
    assert_eq!(Opt::Secondary.xor(Opt::Primary(2)), Opt::Primary(2));
    assert_eq!(Opt::Primary(1).xor(Opt::Primary(2)), Opt::Secondary);
    assert_eq!(Opt::<i32>::Secondary.xor(Opt::Secondary), Opt::Secondary);
    assert_eq!(Opt::Primary(1).and(Opt::Primary("a")), Opt::Primary("a"));
    assert_eq!(Opt::<i32>::Secondary.and(Opt::Primary("a")), Opt::Secondary);
    assert_eq!(Opt::Primary(2).and_then(|v: i32| Opt::Primary(v * 3)), Opt::Primary(6));
    assert_eq!(Opt::Primary(1).zip(Opt::Primary("z")), Opt::Primary((1, "z")));
    assert_eq!(Opt::Primary(1).zip(Opt::<&str>::Secondary), Opt::Secondary);
    assert_eq!(Opt::Primary(3).map_or(0, |v: i32| v * 2), 6);
    assert_eq!(Opt::<i32>::Secondary.map_or(0, |v: i32| v * 2), 0);
    assert_eq!(Opt::Primary(3).map_or_else(|| 0, |v: i32| v * 2), 6);
    assert_eq!(Opt::<i32>::Secondary.map_or_else(|| 0, |v: i32| v * 2), 0);
}

#[test]
fn test_option_mutation() {
    let mut x: Opt<i32> = Opt::Secondary;
    x.get_or_insert(4);
    assert_eq!(x, Opt::Primary(4));
    x.get_or_insert(8);
    assert_eq!(x, Opt::Primary(4));
    let mut y: Opt<i32> = Opt::Secondary;
    y.get_or_insert_with(|| 5);
    assert_eq!(y, Opt::Primary(5));
    let old = y.replace(6);
    assert_eq!(old, Opt::Primary(5));
    assert_eq!(y, Opt::Primary(6));
    let taken = y.take();
    assert_eq!(taken, Opt::Primary(6));
    assert!(y.is_secondary());
}

#[test]
fn test_option_projections() {
    let x = Opt::Primary(9);
    assert_eq!(x.as_ref().copied(), Opt::Primary(9));
    assert_eq!(x.as_ref().cloned(), Opt::Primary(9));
    let s = Opt::Primary(String::from("ab"));
    assert_eq!(s.as_ref().cloned(), Opt::Primary(String::from("ab")));
    let ok: Opt<Result<i32, &str>> = Opt::Primary(Ok(1));
    assert_eq!(ok.transpose(), Ok(Opt::Primary(1)));
    let err: Opt<Result<i32, &str>> = Opt::Primary(Err("e"));
    assert_eq!(err.transpose(), Err("e"));
    let empty: Opt<Result<i32, &str>> = Opt::Secondary;
    assert_eq!(empty.transpose(), Ok(Opt::Secondary));
}
