//! A greeter: a name, fixed at construction, and the greeting made from it.

use vstd::prelude::*;
use vstd::string::*;

verus! {

/// A greeter that holds a name and produces greeting messages for it.
///
/// The name is set by [`Greeter::new`] and never changes afterwards: the
/// field is private and no method takes the greeter mutably.
#[derive(Debug)]
pub struct Greeter {
    name: String,
}

/// The greeting for `name`: the name between `"Hello, "` and `"!"`,
/// character for character.
pub open spec fn greeting(name: Seq<char>) -> Seq<char> {
    "Hello, "@ + name + "!"@
}

impl View for Greeter {
    type V = Seq<char>;

    /// A greeter is its name.
    closed spec fn view(&self) -> Seq<char> {
        self.name@
    }
}

impl Clone for Greeter {
    /// The copy greets by the same name.
    fn clone(&self) -> (copy: Self)
        ensures
            copy == *self,
    {
        Greeter { name: self.name.clone() }
    }
}

impl Greeter {
    /// Creates a greeter for `name`. Any text is accepted, the empty one too.
    pub fn new(name: &str) -> (greeter: Self)
        ensures
            greeter@ == name@,
    {
        broadcast use to_string_from_display_ensures_for_str;

        Greeter { name: name.to_string() }
    }

    /// Returns the greeting message, `"Hello, {name}!"`.
    pub fn greet(&self) -> (message: String)
        ensures
            message@ == greeting(self@),
    {
        let mut message = String::from_str("Hello, ");
        message.append(self.name.as_str());
        message.append("!");
        message
    }

    /// The stored name.
    #[allow(dead_code)]
    fn private_method(&self) -> (name: &str)
        ensures
            name@ == self@,
    {
        self.name.as_str()
    }
}

} // verus!
