use muuuxy::config::State;

#[test]
fn state_holds_what_it_was_made_with() {
    let state = State::new(
        String::from("https"),
        String::from("0.0.0.0"),
        String::from("3000"),
        String::from("proxy.example"),
        Some(String::from("socks5://127.0.0.1:9050")),
        String::from("SECRET"),
    );
    assert_eq!(state.scheme(), "https");
    assert_eq!(state.host(), "0.0.0.0");
    assert_eq!(state.port(), "3000");
    assert_eq!(state.domain(), "proxy.example");
    assert_eq!(state.proxy(), Some("socks5://127.0.0.1:9050"));
    assert_eq!(state.key(), "SECRET");
}

#[test]
fn state_without_a_forwarding_proxy() {
    let state = State::new(
        String::from("http"),
        String::from("0.0.0.0"),
        String::from("3000"),
        String::from("localhost:3000"),
        None,
        String::from("k"),
    );
    assert_eq!(state.proxy(), None);
}

#[test]
fn state_accepts_only_its_own_key() {
    let state = State::new(
        String::from("http"),
        String::from("0.0.0.0"),
        String::from("3000"),
        String::from("localhost:3000"),
        None,
        String::from("SECRET"),
    );
    assert!(state.accepts_key(&String::from("SECRET")));
    assert!(!state.accepts_key(&String::from("secret")));
    assert!(!state.accepts_key(&String::from("SECRET ")));
    assert!(!state.accepts_key(&String::new()));
}
