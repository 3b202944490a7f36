//! The command kinds of the language and the classifier that maps the first
//! token of a line to one of them; the frames of the scope stack.
use vstd::prelude::*;
use crate::text::{same_text, trim, trim_of};

verus! {

/// The command that a line holds, named by its first token.
#[derive(Debug, Clone, Copy, PartialEq, Eq, Structural)]
pub enum MommyLangSyntax {
    /// `mayihave`
    Declaration,
    /// `replace`
    Assignment,
    /// `add`, `subtract`, `multiply`, `divide`, `mod`
    Math,
    /// `say`
    IO,
    /// `punishme`
    LoopStartBasic,
    /// `done`
    LoopEnd,
    /// `satisfied`
    LoopBreak,
    /// `ask`
    Condition,
    /// `or`
    ConditionElse,
    /// `leave`
    ProgramEnd,
    /// `group`
    Array,
    Unknown,
    /// `punishmeif`
    LoopStartCondition,
    /// `ascii`
    String,
    /// `ibegyou`
    Malloc,
    /// `takeitback`
    FreeMalloc,
    /// `listen`
    ReadInput,
    /// `makeme`
    IncludeLib,
}

/// The kind of command that a keyword names.
pub open spec fn syntax_of(k: Seq<char>) -> MommyLangSyntax {
    if k == "mayihave"@ {
        MommyLangSyntax::Declaration
    } else if k == "replace"@ {
        MommyLangSyntax::Assignment
    } else if k == "add"@ || k == "divide"@ || k == "subtract"@ || k == "multiply"@ || k == "mod"@ {
        MommyLangSyntax::Math
    } else if k == "say"@ {
        MommyLangSyntax::IO
    } else if k == "punishme"@ {
        MommyLangSyntax::LoopStartBasic
    } else if k == "done"@ {
        MommyLangSyntax::LoopEnd
    } else if k == "satisfied"@ {
        MommyLangSyntax::LoopBreak
    } else if k == "ask"@ {
        MommyLangSyntax::Condition
    } else if k == "or"@ {
        MommyLangSyntax::ConditionElse
    } else if k == "leave"@ {
        MommyLangSyntax::ProgramEnd
    } else if k == "group"@ {
        MommyLangSyntax::Array
    } else if k == "punishmeif"@ {
        MommyLangSyntax::LoopStartCondition
    } else if k == "ascii"@ {
        MommyLangSyntax::String
    } else if k == "ibegyou"@ {
        MommyLangSyntax::Malloc
    } else if k == "takeitback"@ {
        MommyLangSyntax::FreeMalloc
    } else if k == "listen"@ {
        MommyLangSyntax::ReadInput
    } else if k == "makeme"@ {
        MommyLangSyntax::IncludeLib
    } else {
        MommyLangSyntax::Unknown
    }
}

impl MommyLangSyntax {
    /// Classifies a token, ignoring whitespace around it.
    pub fn from_str(token: &str) -> (r: MommyLangSyntax)
        ensures
            r == syntax_of(trim_of(token@)),
    {
        let k = trim(token);
        if same_text(k, "mayihave") {
            MommyLangSyntax::Declaration
        } else if same_text(k, "replace") {
            MommyLangSyntax::Assignment
        } else if same_text(k, "add") || same_text(k, "divide") || same_text(k, "subtract")
            || same_text(k, "multiply") || same_text(k, "mod") {
            MommyLangSyntax::Math
        } else if same_text(k, "say") {
            MommyLangSyntax::IO
        } else if same_text(k, "punishme") {
            MommyLangSyntax::LoopStartBasic
        } else if same_text(k, "done") {
            MommyLangSyntax::LoopEnd
        } else if same_text(k, "satisfied") {
            MommyLangSyntax::LoopBreak
        } else if same_text(k, "ask") {
            MommyLangSyntax::Condition
        } else if same_text(k, "or") {
            MommyLangSyntax::ConditionElse
        } else if same_text(k, "leave") {
            MommyLangSyntax::ProgramEnd
        } else if same_text(k, "group") {
            MommyLangSyntax::Array
        } else if same_text(k, "punishmeif") {
            MommyLangSyntax::LoopStartCondition
        } else if same_text(k, "ascii") {
            MommyLangSyntax::String
        } else if same_text(k, "ibegyou") {
            MommyLangSyntax::Malloc
        } else if same_text(k, "takeitback") {
            MommyLangSyntax::FreeMalloc
        } else if same_text(k, "listen") {
            MommyLangSyntax::ReadInput
        } else if same_text(k, "makeme") {
            MommyLangSyntax::IncludeLib
        } else {
            MommyLangSyntax::Unknown
        }
    }
}

/// The smaller command set of the first version of the language.
#[derive(Debug, Clone, Copy, PartialEq, Eq, Structural)]
pub enum CommandType {
    Declaration,
    Assignment,
    Math,
    IO,
    LoopStart,
    LoopEnd,
    LoopBreak,
    Condition,
    ConditionElse,
    ProgramEnd,
    Unknown,
}

/// The command of the first version that a keyword names.
pub open spec fn command_of(k: Seq<char>) -> CommandType {
    if k == "mayihave"@ {
        CommandType::Declaration
    } else if k == "replace"@ {
        CommandType::Assignment
    } else if k == "add"@ || k == "divide"@ || k == "subtract"@ || k == "multiply"@ {
        CommandType::Math
    } else if k == "say"@ {
        CommandType::IO
    } else if k == "punishme"@ {
        CommandType::LoopStart
    } else if k == "done"@ {
        CommandType::LoopEnd
    } else if k == "satisfied"@ {
        CommandType::LoopBreak
    } else if k == "ask"@ {
        CommandType::Condition
    } else if k == "or"@ {
        CommandType::ConditionElse
    } else if k == "leave"@ {
        CommandType::ProgramEnd
    } else {
        CommandType::Unknown
    }
}

impl CommandType {
    /// Classifies a keyword exactly as written.
    pub fn from_str(s: &str) -> (r: CommandType)
        ensures
            r == command_of(s@),
    {
        if same_text(s, "mayihave") {
            CommandType::Declaration
        } else if same_text(s, "replace") {
            CommandType::Assignment
        } else if same_text(s, "add") || same_text(s, "divide") || same_text(s, "subtract")
            || same_text(s, "multiply") {
            CommandType::Math
        } else if same_text(s, "say") {
            CommandType::IO
        } else if same_text(s, "punishme") {
            CommandType::LoopStart
        } else if same_text(s, "done") {
            CommandType::LoopEnd
        } else if same_text(s, "satisfied") {
            CommandType::LoopBreak
        } else if same_text(s, "ask") {
            CommandType::Condition
        } else if same_text(s, "or") {
            CommandType::ConditionElse
        } else if same_text(s, "leave") {
            CommandType::ProgramEnd
        } else {
            CommandType::Unknown
        }
    }
}

/// A frame of the scope stack: the kind of block that is open.
#[derive(Debug, Clone, Copy, PartialEq, Eq, Structural)]
pub enum ScopeType {
    /// Opened by `punishme` or `punishmeif`.
    Loop,
    /// Opened by `ask`.
    Condition,
    /// An `or` branch.
    Alternative,
}

} // verus!
