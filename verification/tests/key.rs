use muuuxy::key::generate_key;

#[test]
fn generated_key_has_the_length_asked_for() {
    assert_eq!(generate_key(32).len(), 32);
    assert_eq!(generate_key(1).len(), 1);
    assert_eq!(generate_key(0), "");
    assert_eq!(generate_key(257).chars().count(), 257);
}

#[test]
fn generated_key_holds_letters_and_digits_only() {
    let key = generate_key(512);
    assert!(key.chars().all(|c| c.is_ascii_alphanumeric()));
}

#[test]
fn generated_keys_are_drawn_anew() {
    assert_ne!(generate_key(32), generate_key(32));
}
