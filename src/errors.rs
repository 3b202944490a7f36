//! The errors of a compilation, each with the message shown to the user.
use vstd::prelude::*;

verus! {

/// Why a line, a file or a run was refused.
#[derive(Debug, Clone, Copy, PartialEq, Eq, Structural)]
pub enum MommyLangError {
    // Syntax and logic
    MissingArguments,
    InvalidVariableName,
    UndeclaredVariable,
    TypeMismatch,
    SyntaxError,
    UnclosedBlock,
    UnexpectedDone,
    VariableAlreadyExists,
    UnexpectedSatisfied,
    OrphanElse,
    UnknownPackage,
    // Arrays and memory
    NotAnArray,
    IndexOutOfBounds,
    InvalidArraySize,
    AccessViolation,
    // Files and the system
    StatusNoFile,
    WrongFileType,
    ConfigCreationError,
    ConvertLangFailed,
    TranspilingError,
    RuntimeError,
    GCCError,
    CannotReadFile,
    GCCNotFound,
    RunFile,
    ExecutableFile,
    CannotCreateCFile,
    // Arithmetic
    MathOnString,
    DivideByZero,
    // Frames around a report
    ErrorBegins,
    ErrorEnds,
}

impl MommyLangError {
    /// The message shown for this error.
    pub open spec fn text(self) -> Seq<char> {
        match self {
            MommyLangError::MissingArguments => "You stopped talking mid-sentence. Do not tease me. Finish what you started."@,
            MommyLangError::UndeclaredVariable => "Who is that? You are making up names again. Define them first or stay silent."@,
            MommyLangError::InvalidVariableName => "That name is forbidden. Do not test my authority."@,
            MommyLangError::TypeMismatch => "Square peg, round hole. Stop forcing things where they don't belong."@,
            MommyLangError::SyntaxError => "I can't read this mess. Fix your grammar before I lose my patience."@,
            MommyLangError::UnclosedBlock => "You opened a door and forgot to close it. Were you raised in a barn? Close your blocks."@,
            MommyLangError::UnexpectedDone => "You said 'done' but you haven't even started. Focus."@,
            MommyLangError::VariableAlreadyExists => "We already have that. Be creative, or be quiet."@,
            MommyLangError::UnexpectedSatisfied => "You skipped the work but want the reward? Pathetic."@,
            MommyLangError::OrphanElse => "This 'else' has no 'if'. It is alone, just like you will be if you keep this up."@,
            MommyLangError::UnknownPackage => "We do not have that kind of tool in our house."@,
            MommyLangError::NotAnArray => "That is just one thing, not a group. You cannot reach inside it."@,
            MommyLangError::IndexOutOfBounds => "You are reaching too far! That shelf doesn't exist. Keep your hands where I can see them."@,
            MommyLangError::InvalidArraySize => "A group cannot be that size. Use a real number, don't be stupid."@,
            MommyLangError::AccessViolation => "Do not touch that memory. That is MINE."@,
            MommyLangError::MathOnString => "You cannot do math on words. Stop acting childish."@,
            MommyLangError::DivideByZero => "Divide by zero? Do you WANT to break the universe? Don't be stupid."@,
            MommyLangError::StatusNoFile => "There is nothing here. Stop wasting my time."@,
            MommyLangError::WrongFileType => "I don't read trash. Give me a .mommy file."@,
            MommyLangError::ConfigCreationError => "I couldn't even prepare the file. You broke something deep, didn't you?"@,
            MommyLangError::ConvertLangFailed => "I refuse to convert this garbage into C code."@,
            MommyLangError::TranspilingError => "The translation failed. Your logic makes no sense."@,
            MommyLangError::RuntimeError => "It crashed. I told you it would crash."@,
            MommyLangError::GCCError => "Even the C compiler is refusing to work with you. Embarrassing."@,
            MommyLangError::CannotReadFile => "I cannot read this file. Did you write this with your eyes closed?"@,
            MommyLangError::GCCNotFound => "GCC is not here sweetie, are you hallucinating?"@,
            MommyLangError::RunFile => "Mommy is disappointed. Program exited with code."@,
            MommyLangError::ExecutableFile => "Could not start the executable."@,
            MommyLangError::CannotCreateCFile => "We cannot convert this file"@,
            MommyLangError::ErrorBegins => "--- MOMMY IS DISAPPOINTED ---"@,
            MommyLangError::ErrorEnds => "--- END OF FAILURE ---"@,
        }
    }

    /// The message shown for this error.
    pub fn message(&self) -> (r: &'static str)
        ensures
            r@ == self.text(),
    {
        match self {
            MommyLangError::MissingArguments => "You stopped talking mid-sentence. Do not tease me. Finish what you started.",
            MommyLangError::UndeclaredVariable => "Who is that? You are making up names again. Define them first or stay silent.",
            MommyLangError::InvalidVariableName => "That name is forbidden. Do not test my authority.",
            MommyLangError::TypeMismatch => "Square peg, round hole. Stop forcing things where they don't belong.",
            MommyLangError::SyntaxError => "I can't read this mess. Fix your grammar before I lose my patience.",
            MommyLangError::UnclosedBlock => "You opened a door and forgot to close it. Were you raised in a barn? Close your blocks.",
            MommyLangError::UnexpectedDone => "You said 'done' but you haven't even started. Focus.",
            MommyLangError::VariableAlreadyExists => "We already have that. Be creative, or be quiet.",
            MommyLangError::UnexpectedSatisfied => "You skipped the work but want the reward? Pathetic.",
            MommyLangError::OrphanElse => "This 'else' has no 'if'. It is alone, just like you will be if you keep this up.",
            MommyLangError::UnknownPackage => "We do not have that kind of tool in our house.",
            MommyLangError::NotAnArray => "That is just one thing, not a group. You cannot reach inside it.",
            MommyLangError::IndexOutOfBounds => "You are reaching too far! That shelf doesn't exist. Keep your hands where I can see them.",
            MommyLangError::InvalidArraySize => "A group cannot be that size. Use a real number, don't be stupid.",
            MommyLangError::AccessViolation => "Do not touch that memory. That is MINE.",
            MommyLangError::MathOnString => "You cannot do math on words. Stop acting childish.",
            MommyLangError::DivideByZero => "Divide by zero? Do you WANT to break the universe? Don't be stupid.",
            MommyLangError::StatusNoFile => "There is nothing here. Stop wasting my time.",
            MommyLangError::WrongFileType => "I don't read trash. Give me a .mommy file.",
            MommyLangError::ConfigCreationError => "I couldn't even prepare the file. You broke something deep, didn't you?",
            MommyLangError::ConvertLangFailed => "I refuse to convert this garbage into C code.",
            MommyLangError::TranspilingError => "The translation failed. Your logic makes no sense.",
            MommyLangError::RuntimeError => "It crashed. I told you it would crash.",
            MommyLangError::GCCError => "Even the C compiler is refusing to work with you. Embarrassing.",
            MommyLangError::CannotReadFile => "I cannot read this file. Did you write this with your eyes closed?",
            MommyLangError::GCCNotFound => "GCC is not here sweetie, are you hallucinating?",
            MommyLangError::RunFile => "Mommy is disappointed. Program exited with code.",
            MommyLangError::ExecutableFile => "Could not start the executable.",
            MommyLangError::CannotCreateCFile => "We cannot convert this file",
            MommyLangError::ErrorBegins => "--- MOMMY IS DISAPPOINTED ---",
            MommyLangError::ErrorEnds => "--- END OF FAILURE ---",
        }
    }
}

} // verus!

verus! {

/// The view of a compiler's result: the emitted text, or the error.
pub open spec fn res_view(r: Result<String, MommyLangError>) -> Result<Seq<char>, MommyLangError> {
    match r {
        Ok(s) => Ok(s@),
        Err(e) => Err(e),
    }
}

} // verus!

verus! {

/// The errors of the first version of the language, with their messages.
#[derive(Debug, Clone, Copy, PartialEq, Eq, Structural)]
pub enum MommyErrorResponse {
    MissingArguments,
    InvalidVariableName,
    UndeclaredVariable,
    TypeMismatch,
    SyntaxError,
    UnclosedBlock,
    MathOnString,
    DivideByZero,
}

impl MommyErrorResponse {
    /// The text shown for this value.
    pub open spec fn text(self) -> Seq<char> {
        match self {
            MommyErrorResponse::MissingArguments => "I told you to properly finish what you want to say."@,
            MommyErrorResponse::InvalidVariableName => "Really? Trying to name things that I prohibit you to use?"@,
            MommyErrorResponse::UndeclaredVariable => "I told you to name your things properly."@,
            MommyErrorResponse::TypeMismatch => "Matching types should be easy for you, yet you act as if it is a calculus"@,
            MommyErrorResponse::SyntaxError => "You deal with this problem, I taught you enough like an adult"@,
            MommyErrorResponse::UnclosedBlock => "Do you know how to use punctuations?"@,
            MommyErrorResponse::MathOnString => "You cannot do math on words. This isn't Algebra class."@,
            MommyErrorResponse::DivideByZero => "Zero? You want to divide by ZERO? Get out."@,
        }
    }

    /// The text shown for this value.
    pub fn message(&self) -> (r: &'static str)
        ensures
            r@ == self.text(),
    {
        match self {
            MommyErrorResponse::MissingArguments => "I told you to properly finish what you want to say.",
            MommyErrorResponse::InvalidVariableName => "Really? Trying to name things that I prohibit you to use?",
            MommyErrorResponse::UndeclaredVariable => "I told you to name your things properly.",
            MommyErrorResponse::TypeMismatch => "Matching types should be easy for you, yet you act as if it is a calculus",
            MommyErrorResponse::SyntaxError => "You deal with this problem, I taught you enough like an adult",
            MommyErrorResponse::UnclosedBlock => "Do you know how to use punctuations?",
            MommyErrorResponse::MathOnString => "You cannot do math on words. This isn't Algebra class.",
            MommyErrorResponse::DivideByZero => "Zero? You want to divide by ZERO? Get out.",
        }
    }
}


} // verus!
