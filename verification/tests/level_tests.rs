use log_filter::Level;

#[test]
fn names_resolve() {
    assert_eq!(Level::from_name("V"), Level::Verbose);
    assert_eq!(Level::from_name("verbose"), Level::Verbose);
    assert_eq!(Level::from_name("D"), Level::Debug);
    assert_eq!(Level::from_name("debug"), Level::Debug);
    assert_eq!(Level::from_name("I"), Level::Info);
    assert_eq!(Level::from_name("info"), Level::Info);
    assert_eq!(Level::from_name("W"), Level::Warn);
    assert_eq!(Level::from_name("warn"), Level::Warn);
    assert_eq!(Level::from_name("E"), Level::Error);
    assert_eq!(Level::from_name("error"), Level::Error);
    assert_eq!(Level::from_name("F"), Level::Fatal);
    assert_eq!(Level::from_name("fatal"), Level::Fatal);
}

#[test]
fn unknown_names_give_the_lowest_level() {
    assert_eq!(Level::from_name(""), Level::Unset);
    assert_eq!(Level::from_name("Warn"), Level::Unset);
    assert_eq!(Level::from_name("WARN"), Level::Unset);
    assert_eq!(Level::from_name("w"), Level::Unset);
    assert_eq!(Level::from_name("warning"), Level::Unset);
    assert_eq!(Level::from_name(" debug"), Level::Unset);
    assert_eq!(Level::from_name("trace"), Level::Unset);
}

#[test]
fn ranks_are_exact() {
    assert_eq!(Level::Unset.rank(), 0);
    assert_eq!(Level::Verbose.rank(), 1);
    assert_eq!(Level::Debug.rank(), 2);
    assert_eq!(Level::Info.rank(), 3);
    assert_eq!(Level::Warn.rank(), 4);
    assert_eq!(Level::Error.rank(), 5);
    assert_eq!(Level::Fatal.rank(), 6);
}

#[test]
fn order_is_total_and_strict() {
    let levels = [
        Level::Unset,
        Level::Verbose,
        Level::Debug,
        Level::Info,
        Level::Warn,
        Level::Error,
        Level::Fatal,
    ];
    for (i, a) in levels.iter().enumerate() {
        for (j, b) in levels.iter().enumerate() {
            assert_eq!(a.below(*b), i < j);
            assert_eq!(*a < *b, i < j);
            assert_eq!(*a == *b, i == j);
        }
    }
}
