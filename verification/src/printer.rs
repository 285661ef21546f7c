//! The greeting prefix and the text built from it.

use vstd::prelude::*;

verus! {

/// The name that is greeted when a request gives none: `World`.
pub open spec fn default_name() -> Seq<char> {
    seq!['W', 'o', 'r', 'l', 'd']
}

/// The name a greeting addresses: the given one, or the default.
pub open spec fn addressee(name: Option<Seq<char>>) -> Seq<char> {
    match name {
        Some(name) => name,
        None => default_name(),
    }
}

/// The text of a greeting: the prefix, a space, the addressee, an
/// exclamation mark.
pub open spec fn greeting(prefix: Seq<char>, name: Option<Seq<char>>) -> Seq<char> {
    prefix + seq![' '] + addressee(name) + seq!['!']
}

/// The characters of an optional string.
pub open spec fn name_view(name: Option<String>) -> Option<Seq<char>> {
    match name {
        Some(name) => Some(name@),
        None => None,
    }
}

/// Holds the greeting prefix and formats greetings with it.
pub struct Printer {
    say: String,
}

impl View for Printer {
    type V = Seq<char>;

    /// The current prefix.
    closed spec fn view(&self) -> Seq<char> {
        self.say@
    }
}

impl Printer {
    /// A printer whose prefix is `say`.
    pub fn new(say: String) -> (printer: Printer)
        ensures
            printer@ == say@,
    {
        Printer { say }
    }

    /// The greeting for `name` under the current prefix.
    pub fn format(&self, name: Option<String>) -> (text: String)
        ensures
            text@ == greeting(self@, name_view(name)),
    {
        let name: String = match name {
            None => {
                proof {
                    reveal_strlit("World");
                }
                assert("World"@ =~= default_name());
                "World".to_owned()
            },
            Some(name) => name,
        };
        proof {
            reveal_strlit(" ");
            reveal_strlit("!");
        }
        assert(" "@ =~= seq![' ']);
        assert("!"@ =~= seq!['!']);
        let mut text = self.say.clone();
        text.append(" ");
        text.append(name.as_str());
        text.append("!");
        text
    }

    /// Replaces the prefix with `say`.
    pub fn change_say(&mut self, say: String)
        ensures
            final(self)@ == say@,
    {
        self.say = say;
    }

    /// The current prefix.
    pub fn say(&self) -> (say: &str)
        ensures
            say@ == self@,
    {
        self.say.as_str()
    }
}

} // verus!
