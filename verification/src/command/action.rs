//! The closed set of actions a command line can ask for.

use vstd::prelude::*;
use vstd::string::*;
use crate::command::application::{
    CLEAR, CREATE, DELETE, EXIT, HISTORY, LIST, LS, Q, QUEUE, TEST,
};
use crate::error::ParseError;
use crate::text::same_text;

verus! {

/// What a command line asks for.
#[derive(Clone, Copy, Debug, PartialEq, Eq, Structural)]
pub enum ActionType {
    Create,
    Queue,
    Delete,
    List,
    Test,
    Exit,
    Clear,
    History,
}

/// The lower-case form of a text as `str::to_lowercase` gives it.
pub uninterp spec fn lowercase(s: Seq<char>) -> Seq<char>;

/// Calls `str::to_lowercase`. The result is the lower-case form of the
/// argument by the rules of Unicode, which depends on the argument alone.
#[verifier::external_body]
fn to_lowercase(s: &str) -> (r: String)
    ensures
        r@ == lowercase(s@),
{
    s.to_lowercase()
}

/// The action that a keyword in lower case names, if any.
pub open spec fn action_named(keyword: Seq<char>) -> Option<ActionType> {
    if keyword == CREATE@ {
        Some(ActionType::Create)
    } else if keyword == Q@ || keyword == QUEUE@ {
        Some(ActionType::Queue)
    } else if keyword == DELETE@ {
        Some(ActionType::Delete)
    } else if keyword == LS@ || keyword == LIST@ {
        Some(ActionType::List)
    } else if keyword == TEST@ {
        Some(ActionType::Test)
    } else if keyword == EXIT@ {
        Some(ActionType::Exit)
    } else if keyword == CLEAR@ {
        Some(ActionType::Clear)
    } else if keyword == HISTORY@ {
        Some(ActionType::History)
    } else {
        None
    }
}

/// The text of the error for a word that names no action.
pub open spec fn unknown_action_text(given: Seq<char>) -> Seq<char> {
    "failed to parse str ("@ + given + ") to ActionType"@
}

impl ActionType {
    /// The keyword under which the action is entered.
    pub open spec fn name(self) -> Seq<char> {
        match self {
            ActionType::Create => CREATE@,
            ActionType::Queue => QUEUE@,
            ActionType::Delete => DELETE@,
            ActionType::List => LIST@,
            ActionType::Test => TEST@,
            ActionType::Exit => EXIT@,
            ActionType::Clear => CLEAR@,
            ActionType::History => HISTORY@,
        }
    }

    /// The action that `keyword`, already in lower case, names. A keyword
    /// that names none is refused with an error that quotes `given`, the word
    /// as it was entered.
    pub fn from_keyword(keyword: &str, given: &str) -> (r: Result<Self, ParseError>)
        ensures
            match action_named(keyword@) {
                Some(action) => r == Ok::<Self, ParseError>(action),
                None => r is Err && r->Err_0.message() == Some(unknown_action_text(given@)),
            },
    {
        if same_text(keyword, CREATE) {
            Ok(ActionType::Create)
        } else if same_text(keyword, Q) || same_text(keyword, QUEUE) {
            Ok(ActionType::Queue)
        } else if same_text(keyword, DELETE) {
            Ok(ActionType::Delete)
        } else if same_text(keyword, LS) || same_text(keyword, LIST) {
            Ok(ActionType::List)
        } else if same_text(keyword, TEST) {
            Ok(ActionType::Test)
        } else if same_text(keyword, EXIT) {
            Ok(ActionType::Exit)
        } else if same_text(keyword, CLEAR) {
            Ok(ActionType::Clear)
        } else if same_text(keyword, HISTORY) {
            Ok(ActionType::History)
        } else {
            let message = String::from_str("failed to parse str (").concat(given).concat(
                ") to ActionType",
            );
            Err(ParseError::new(message))
        }
    }

    /// The action that `s` names, whatever the case of its letters.
    pub fn parse(s: &str) -> (r: Result<Self, ParseError>)
        ensures
            match action_named(lowercase(s@)) {
                Some(action) => r == Ok::<Self, ParseError>(action),
                None => r is Err && r->Err_0.message() == Some(unknown_action_text(s@)),
            },
    {
        let lowered = to_lowercase(s);
        Self::from_keyword(lowered.as_str(), s)
    }

    /// The keyword under which the action is entered.
    pub fn keyword(self) -> (r: &'static str)
        ensures
            r@ == self.name(),
    {
        match self {
            ActionType::Create => CREATE,
            ActionType::Queue => QUEUE,
            ActionType::Delete => DELETE,
            ActionType::List => LIST,
            ActionType::Test => TEST,
            ActionType::Exit => EXIT,
            ActionType::Clear => CLEAR,
            ActionType::History => HISTORY,
        }
    }
}

impl From<ActionType> for String {
    /// The keyword under which the action is entered.
    fn from(action: ActionType) -> (r: String)
        ensures
            r@ == action.name(),
    {
        String::from_str(action.keyword())
    }
}

/// The conversion is stated by the characters of the keyword, on `from`
/// itself; as a value it is not named.
impl vstd::std_specs::convert::FromSpecImpl<ActionType> for String {
    open spec fn obeys_from_spec() -> bool {
        false
    }

    open spec fn from_spec(action: ActionType) -> String {
        arbitrary()
    }
}

} // verus!
