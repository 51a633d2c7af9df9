//! A named record behind a greeting interface.

use vstd::prelude::*;
use vstd::string::*;

verus! {

/// What something with a name can do: tell its name, take a new one, greet, and be made
/// from a name.
pub trait Hello: Sized {
    /// The name, as the characters it is made of. Each implementor says here what its
    /// name is; for one that says nothing, nothing is known of it.
    open spec fn name(&self) -> Seq<char> {
        arbitrary()
    }

    /// Whether this type greets with the words that the interface supplies, `Hello!`.
    /// A type that brings its own greeting answers `false` and states its words on its
    /// own `say_hello`.
    open spec fn keeps_plain_greeting() -> bool {
        true
    }

    /// Returns a copy of the name.
    fn get_name(&self) -> (name: String)
        ensures
            name@ == self.name(),
    ;

    /// Replaces the name by `new_name`.
    fn change_name(&mut self, new_name: String)
        ensures
            final(self).name() == new_name@,
    ;

    /// Returns the words of the greeting: `Hello!`, unless the type brings its own.
    fn say_hello(&self) -> (words: String)
        ensures
            Self::keeps_plain_greeting() ==> words@ == "Hello!"@,
    {
        String::from_str("Hello!")
    }

    /// Makes a value whose name is `name`.
    fn construct_from_name(name: String) -> (made: Self)
        ensures
            made.name() == name@,
    ;
}

/// A second greeting on top of [`Hello`].
pub trait HelloTwice: Hello {
    /// Whether this type leaves the second greeting as the interface supplies it, `s`.
    /// A type that brings its own answers `false` and states its words on its own
    /// `hello_twice`.
    open spec fn keeps_plain_second_greeting() -> bool {
        true
    }

    /// Returns the words of the second greeting: `s`, unless the type brings its own.
    fn hello_twice() -> (words: String)
        ensures
            Self::keeps_plain_second_greeting() ==> words@ == "s"@,
    {
        String::from_str("s")
    }
}

/// Something that can present itself in a sentence.
pub trait IntroduceSelf {
    /// Returns the sentence.
    fn introduce_self(&self) -> (words: String);
}

/// Whatever has a name presents itself by it.
impl<T: Hello> IntroduceSelf for T {
    fn introduce_self(&self) -> (words: String)
        ensures
            words@ == "Hello, I'm "@ + self.name(),
    {
        let name = self.get_name();
        String::from_str("Hello, I'm ").concat(name.as_str())
    }
}

/// A person, known by name only. The field is private: a person is made by
/// `construct_from_name`.
pub struct People {
    name: String,
}

impl Hello for People {
    closed spec fn name(&self) -> Seq<char> {
        self.name@
    }

    open spec fn keeps_plain_greeting() -> bool {
        false
    }

    fn get_name(&self) -> (name: String) {
        self.name.clone()
    }

    fn change_name(&mut self, new_name: String) {
        self.name = new_name;
    }

    /// A person greets with `Hi`.
    fn say_hello(&self) -> (words: String)
        ensures
            words@ == "Hi"@,
    {
        String::from_str("Hi")
    }

    fn construct_from_name(name: String) -> (made: Self) {
        People { name }
    }
}

} // verus!
