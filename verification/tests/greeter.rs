use sample::Greeter;

#[test]
fn test_greeter() {
    let g = Greeter::new("World");
    assert_eq!(g.greet(), "Hello, World!");
}

#[test]
fn greet_accepts_an_empty_name() {
    let g = Greeter::new("");
    assert_eq!(g.greet(), "Hello, !");
}

#[test]
fn greet_keeps_the_name_verbatim() {
    assert_eq!(Greeter::new("  a b ").greet(), "Hello,   a b !");
    assert_eq!(Greeter::new("{}").greet(), "Hello, {}!");
    assert_eq!(Greeter::new("Zoë 🙂").greet(), "Hello, Zoë 🙂!");
    assert_eq!(Greeter::new("world").greet(), "Hello, world!");
}

#[test]
fn greet_is_repeatable() {
    let g = Greeter::new("Ada");
    let first = g.greet();
    let second = g.greet();
    assert_eq!(first, "Hello, Ada!");
    assert_eq!(second, first);
}

#[test]
fn greeter_does_not_borrow_its_argument() {
    let g = {
        let name = String::from("Grace");
        Greeter::new(&name)
    };
    assert_eq!(g.greet(), "Hello, Grace!");
}

#[test]
fn clone_greets_by_the_same_name() {
    let g = Greeter::new("World");
    let copy = g.clone();
    assert_eq!(copy.greet(), "Hello, World!");
    assert_eq!(copy.greet(), g.greet());
}

#[test]
fn debug_shows_the_name() {
    let g = Greeter::new("World");
    assert_eq!(format!("{:?}", g), "Greeter { name: \"World\" }");
}
