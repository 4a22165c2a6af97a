use the_anarchist_workshop::verbosity::Verbosity;

#[test]
fn verbosity_follows_the_count_of_flags() {
    assert_eq!(Verbosity::from(0u8), Verbosity::Off);
    assert_eq!(Verbosity::from(1u8), Verbosity::Error);
    assert_eq!(Verbosity::from(2u8), Verbosity::Warning);
    assert_eq!(Verbosity::from(3u8), Verbosity::Info);
    assert_eq!(Verbosity::from(4u8), Verbosity::Debug);
    assert_eq!(Verbosity::from(5u8), Verbosity::Trace);
    assert_eq!(Verbosity::from(255u8), Verbosity::Trace);
}
