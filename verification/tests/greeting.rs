use topbar::greeting::greet;

#[test]
fn greet_ada() {
    assert_eq!(greet("Ada"), "Hello, Ada! You've been greeted from Rust!");
}

#[test]
fn greet_keeps_the_name_verbatim() {
    assert_eq!(greet(""), "Hello, ! You've been greeted from Rust!");
    assert_eq!(greet(" Ada  Lovelace "), "Hello,  Ada  Lovelace ! You've been greeted from Rust!");
    assert_eq!(greet("{}"), "Hello, {}! You've been greeted from Rust!");
    assert_eq!(greet("Zo\u{eb} \u{1f980}"), "Hello, Zo\u{eb} \u{1f980}! You've been greeted from Rust!");
}
