//! The failures that an execution can end in.

use vstd::prelude::*;

verus! {

/// Failures of a program that was well formed.
#[derive(Debug, PartialEq, Eq)]
pub enum RuntimeErrorType {
    /// A sum does not fit the type that holds it.
    ArithmeticOverflow,
    /// A program's text is not what was asked for.
    ParseError(String),
    /// Local contexts were nested too deeply.
    MaxContextDepthReached,
}

/// Failures that a check of the program before its execution would have found.
#[derive(Debug, PartialEq, Eq)]
pub enum UncheckedError {
    /// No function of this name is defined.
    UndefinedFunction(String),
    /// The function of this name may not be called from outside its contract.
    NonPublicFunction(String),
    /// A public function returned something other than a response.
    ContractMustReturnBoolean,
}

/// Failures of the machine itself.
#[derive(Debug, PartialEq, Eq)]
pub enum InterpreterError {
    /// The outermost context had no asset map of its own to hand out.
    FailedToConstructAssetTable,
    /// Any other inconsistency, in words.
    InterpreterError(String),
}

/// Everything that can go wrong in an execution.
#[derive(Debug, PartialEq, Eq)]
pub enum Error {
    Unchecked(UncheckedError),
    Interpreter(InterpreterError),
    Runtime(RuntimeErrorType),
    /// A failure that the database, the parser or the evaluator reported, in its
    /// own words.
    External(String),
}

/// The result of an execution step.
pub type InterpreterResult<T> = Result<T, Error>;

impl Error {
    /// An interpreter error with the given words.
    pub open spec fn says(self, words: Seq<char>) -> bool {
        self matches Error::Interpreter(InterpreterError::InterpreterError(s)) && s@ == words
    }

    /// A parse error with the given words.
    pub open spec fn parse_error(self, words: Seq<char>) -> bool {
        self matches Error::Runtime(RuntimeErrorType::ParseError(s)) && s@ == words
    }

    /// The error of a function that is not defined.
    pub open spec fn undefined_function(self, name: Seq<char>) -> bool {
        self matches Error::Unchecked(UncheckedError::UndefinedFunction(s)) && s@ == name
    }

    /// The error of a function that may not be called from outside.
    pub open spec fn non_public_function(self, name: Seq<char>) -> bool {
        self matches Error::Unchecked(UncheckedError::NonPublicFunction(s)) && s@ == name
    }
}

/// An error says some words where it is an interpreter error with just these words,
/// and only there.
pub proof fn law_words_of_an_error(e: Error, words: Seq<char>)
    ensures
        e.says(words) <==> exists|s: String|
            #[trigger] s@ == words && e == Error::Interpreter(InterpreterError::InterpreterError(s)),
        e.parse_error(words) <==> exists|s: String|
            #[trigger] s@ == words && e == Error::Runtime(RuntimeErrorType::ParseError(s)),
{
    if e.says(words) {
        let s = e->Interpreter_0->InterpreterError_0;
        assert(s@ == words && e == Error::Interpreter(InterpreterError::InterpreterError(s)));
    }
    if e.parse_error(words) {
        let s = e->Runtime_0->ParseError_0;
        assert(s@ == words && e == Error::Runtime(RuntimeErrorType::ParseError(s)));
    }
}

/// The errors on a function name that function, and tell which of the two is wrong.
pub proof fn law_function_of_an_error(e: Error, name: Seq<char>)
    ensures
        e.undefined_function(name) <==> exists|s: String|
            #[trigger] s@ == name && e == Error::Unchecked(UncheckedError::UndefinedFunction(s)),
        e.non_public_function(name) <==> exists|s: String|
            #[trigger] s@ == name && e == Error::Unchecked(UncheckedError::NonPublicFunction(s)),
{
    if e.undefined_function(name) {
        let s = e->Unchecked_0->UndefinedFunction_0;
        assert(s@ == name && e == Error::Unchecked(UncheckedError::UndefinedFunction(s)));
    }
    if e.non_public_function(name) {
        let s = e->Unchecked_0->NonPublicFunction_0;
        assert(s@ == name && e == Error::Unchecked(UncheckedError::NonPublicFunction(s)));
    }
}

} // verus!
