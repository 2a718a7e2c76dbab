//! Calls into applications on the user's machine, checked before they run.

use crate::text::{decimal, push_decimal, str_eq};
use vstd::prelude::*;

verus! {

/// A call that has the right number of arguments.
#[derive(Debug, PartialEq, Eq)]
pub enum AppCall {
    /// Append a text to the most recent note.
    AppendNote { text: String },
    /// Create a note with a title and a body.
    CreateNote { title: String, body: String },
}

/// Why a call is refused.
#[derive(Debug, PartialEq, Eq)]
pub enum CallError {
    /// The function takes `expected` arguments and got `got`.
    WrongArguments { function: String, expected: usize, got: usize },
    /// There is no such function.
    UnknownFunction { function: String },
}

/// The mathematical content of an [`AppCall`].
pub enum AppCallView {
    AppendNote { text: Seq<char> },
    CreateNote { title: Seq<char>, body: Seq<char> },
}

/// The mathematical content of a [`CallError`].
pub enum CallErrorView {
    WrongArguments { function: Seq<char>, expected: usize, got: usize },
    UnknownFunction { function: Seq<char> },
}

impl View for AppCall {
    type V = AppCallView;

    open spec fn view(&self) -> AppCallView {
        match *self {
            AppCall::AppendNote { text } => AppCallView::AppendNote { text: text@ },
            AppCall::CreateNote { title, body } => AppCallView::CreateNote {
                title: title@,
                body: body@,
            },
        }
    }
}

impl View for CallError {
    type V = CallErrorView;

    open spec fn view(&self) -> CallErrorView {
        match *self {
            CallError::WrongArguments { function, expected, got } => CallErrorView::WrongArguments {
                function: function@,
                expected,
                got,
            },
            CallError::UnknownFunction { function } => CallErrorView::UnknownFunction {
                function: function@,
            },
        }
    }
}

/// What a call by name means: `append_note` takes one argument and
/// `create_note` two; nothing else is known.
pub open spec fn dispatched(func: Seq<char>, args: Seq<Seq<char>>) -> Result<
    AppCallView,
    CallErrorView,
> {
    if func == "append_note"@ {
        if args.len() == 1 {
            Ok(AppCallView::AppendNote { text: args[0] })
        } else {
            Err(
                CallErrorView::WrongArguments {
                    function: func,
                    expected: 1,
                    got: args.len() as usize,
                },
            )
        }
    } else if func == "create_note"@ {
        if args.len() == 2 {
            Ok(AppCallView::CreateNote { title: args[0], body: args[1] })
        } else {
            Err(
                CallErrorView::WrongArguments {
                    function: func,
                    expected: 2,
                    got: args.len() as usize,
                },
            )
        }
    } else {
        Err(CallErrorView::UnknownFunction { function: func })
    }
}

/// The views of a slice of texts.
pub open spec fn arguments(args: Seq<&str>) -> Seq<Seq<char>> {
    Seq::new(args.len(), |i: int| args[i]@)
}

/// Checks a call by name and hands back what is to be run.
pub fn call(func: &str, args: &[&str]) -> (r: Result<AppCall, CallError>)
    ensures
        match r {
            Ok(c) => dispatched(func@, arguments(args@)) == Ok::<_, CallErrorView>(c@),
            Err(e) => dispatched(func@, arguments(args@)) == Err::<AppCallView, _>(e@),
        },
{
    if str_eq(func, "append_note") {
        if args.len() != 1 {
            return Err(
                CallError::WrongArguments {
                    function: String::from_str(func),
                    expected: 1,
                    got: args.len(),
                },
            );
        }
        Ok(AppCall::AppendNote { text: String::from_str(args[0]) })
    } else if str_eq(func, "create_note") {
        if args.len() != 2 {
            return Err(
                CallError::WrongArguments {
                    function: String::from_str(func),
                    expected: 2,
                    got: args.len(),
                },
            );
        }
        Ok(
            AppCall::CreateNote {
                title: String::from_str(args[0]),
                body: String::from_str(args[1]),
            },
        )
    } else {
        Err(CallError::UnknownFunction { function: String::from_str(func) })
    }
}

impl CallErrorView {
    /// The words that report the refusal.
    pub open spec fn message(self) -> Seq<char> {
        match self {
            CallErrorView::WrongArguments { function, expected, got } => function + " expects "@
                + decimal(expected as nat) + if expected == 1 {
                " argument, but got "@
            } else {
                " arguments, but got "@
            } + decimal(got as nat),
            CallErrorView::UnknownFunction { function } => "Unknown function: "@ + function,
        }
    }
}

impl CallError {
    /// The words that report the refusal.
    pub fn message(&self) -> (words: String)
        ensures
            words@ == self@.message(),
    {
        match self {
            CallError::WrongArguments { function, expected, got } => {
                let mut words = function.clone();
                words.append(" expects ");
                push_decimal(&mut words, *expected as u64);
                if *expected == 1 {
                    words.append(" argument, but got ");
                } else {
                    words.append(" arguments, but got ");
                }
                push_decimal(&mut words, *got as u64);
                words
            },
            CallError::UnknownFunction { function } => {
                let mut words = String::from_str("Unknown function: ");
                words.append(function.as_str());
                words
            },
        }
    }
}

} // verus!
