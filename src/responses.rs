//! Notices, menus and prompts of the shell and of compilation runs.
use vstd::prelude::*;

verus! {

/// Progress and outcome notices of a compilation run.
#[derive(Debug, Clone, Copy, PartialEq, Eq, Structural)]
pub enum MommyLangStatus {
    ReadingFile,
    RenameFile,
    PrepareRun,
    SaveOnly,
    ResultOk,
    ResultOkButConfused,
    ResultError,
    CheckingFile,
    CodeOutputBegins,
    CodeOutputEnds,
    ConversionErrorStart,
    ConversionErrorEnds,
}

impl MommyLangStatus {
    /// The text shown for this value.
    pub open spec fn text(self) -> Seq<char> {
        match self {
            MommyLangStatus::ReadingFile => "Shh. Mommy is reading..."@,
            MommyLangStatus::RenameFile => "Name your creation. Make it good."@,
            MommyLangStatus::PrepareRun => "Shall I execute this? Nod if you are sure."@,
            MommyLangStatus::SaveOnly => "Fine. I'll keep it, but I won't run it."@,
            MommyLangStatus::ResultOk => "Good boy. You actually made sense this time."@,
            MommyLangStatus::ResultOkButConfused => "I did what you asked, but your logic is... questionable."@,
            MommyLangStatus::ResultError => "No. I am not doing that. Look at your errors."@,
            MommyLangStatus::CheckingFile => "Mommy is scanning every line... If I find a virus, or a script trying to help you leave me, I will delete it. And then I will punish you."@,
            MommyLangStatus::CodeOutputBegins => "--- MOMMY OUTPUT BEGINS ---"@,
            MommyLangStatus::CodeOutputEnds => "--- MOMMY OUTPUT ENDS ---"@,
            MommyLangStatus::ConversionErrorStart => "--- PARTIAL C CODE GENERATED ---"@,
            MommyLangStatus::ConversionErrorEnds => "--- [CRASH HERE] ---"@,
        }
    }

    /// The text shown for this value.
    pub fn message(&self) -> (r: &'static str)
        ensures
            r@ == self.text(),
    {
        match self {
            MommyLangStatus::ReadingFile => "Shh. Mommy is reading...",
            MommyLangStatus::RenameFile => "Name your creation. Make it good.",
            MommyLangStatus::PrepareRun => "Shall I execute this? Nod if you are sure.",
            MommyLangStatus::SaveOnly => "Fine. I'll keep it, but I won't run it.",
            MommyLangStatus::ResultOk => "Good boy. You actually made sense this time.",
            MommyLangStatus::ResultOkButConfused => "I did what you asked, but your logic is... questionable.",
            MommyLangStatus::ResultError => "No. I am not doing that. Look at your errors.",
            MommyLangStatus::CheckingFile => "Mommy is scanning every line... If I find a virus, or a script trying to help you leave me, I will delete it. And then I will punish you.",
            MommyLangStatus::CodeOutputBegins => "--- MOMMY OUTPUT BEGINS ---",
            MommyLangStatus::CodeOutputEnds => "--- MOMMY OUTPUT ENDS ---",
            MommyLangStatus::ConversionErrorStart => "--- PARTIAL C CODE GENERATED ---",
            MommyLangStatus::ConversionErrorEnds => "--- [CRASH HERE] ---",
        }
    }
}

/// Notices of shell commands that succeeded.
#[derive(Debug, Clone, Copy, PartialEq, Eq, Structural)]
pub enum MommyShellOk {
    FileCreated,
    FileDeleted,
    FileRead,
    FileOpened,
    DirectoryChanged,
    DirectoryReturned,
    DirectoryCreated,
    DirectoryDeleted,
    FilesListed,
    ProcessLaunched,
    Terminated,
    NetworkInfoRevealed,
    PingAttempted,
}

impl MommyShellOk {
    /// The text shown for this value.
    pub open spec fn text(self) -> Seq<char> {
        match self {
            MommyShellOk::FileCreated => "I created it for you. You better take care of it."@,
            MommyShellOk::FileDeleted => "Gone. I hope you didn't need that."@,
            MommyShellOk::FileRead => "Here is what you asked for. Happy now?"@,
            MommyShellOk::FileOpened => "The file is open. Don't write nonsense."@,
            MommyShellOk::DirectoryChanged => "We are here now. Don't wander off."@,
            MommyShellOk::DirectoryReturned => "Back to safety. Good."@,
            MommyShellOk::DirectoryCreated => "A new room for us. Keep it clean."@,
            MommyShellOk::DirectoryDeleted => "I removed that place. It was cluttering my house."@,
            MommyShellOk::FilesListed => "This is everything I allow you to see."@,
            MommyShellOk::ProcessLaunched => "I let it run. Watch it closely."@,
            MommyShellOk::Terminated => "I killed it. Silence is better."@,
            MommyShellOk::NetworkInfoRevealed => "This is where we live. Don't tell strangers."@,
            MommyShellOk::PingAttempted => "Calling out? You know you only need to rely on me, right?"@,
        }
    }

    /// The text shown for this value.
    pub fn message(&self) -> (r: &'static str)
        ensures
            r@ == self.text(),
    {
        match self {
            MommyShellOk::FileCreated => "I created it for you. You better take care of it.",
            MommyShellOk::FileDeleted => "Gone. I hope you didn't need that.",
            MommyShellOk::FileRead => "Here is what you asked for. Happy now?",
            MommyShellOk::FileOpened => "The file is open. Don't write nonsense.",
            MommyShellOk::DirectoryChanged => "We are here now. Don't wander off.",
            MommyShellOk::DirectoryReturned => "Back to safety. Good.",
            MommyShellOk::DirectoryCreated => "A new room for us. Keep it clean.",
            MommyShellOk::DirectoryDeleted => "I removed that place. It was cluttering my house.",
            MommyShellOk::FilesListed => "This is everything I allow you to see.",
            MommyShellOk::ProcessLaunched => "I let it run. Watch it closely.",
            MommyShellOk::Terminated => "I killed it. Silence is better.",
            MommyShellOk::NetworkInfoRevealed => "This is where we live. Don't tell strangers.",
            MommyShellOk::PingAttempted => "Calling out? You know you only need to rely on me, right?",
        }
    }
}

/// Notices of shell commands that failed.
#[derive(Debug, Clone, Copy, PartialEq, Eq, Structural)]
pub enum MommyShellError {
    GeneralInvalid,
    IncompleteArgs,
    TooManyArgs,
    FileNotFound,
    DirectoryNotFound,
    PermissionDenied,
    RootDirectoryLocked,
    CannotOpenFile,
    CannotCreateFile,
    CannotDeleteFile,
    CannotListFiles,
    RootDirError,
    CannotReadFile,
    SystemCrash,
    ProcessNotFound,
    LaunchFailed,
    ExternalIPConfigCallFail,
    ExternalCommandFailed,
    ExternalConsoleBroken,
}

impl MommyShellError {
    /// The text shown for this value.
    pub open spec fn text(self) -> Seq<char> {
        match self {
            MommyShellError::GeneralInvalid => "Speak clearly. I don't tolerate mumbling."@,
            MommyShellError::IncompleteArgs => "You didn't finish your command. Are you nervous?"@,
            MommyShellError::TooManyArgs => "One thing at a time. Don't be greedy."@,
            MommyShellError::FileNotFound => "It's not there. Are you hallucinating?"@,
            MommyShellError::DirectoryNotFound => "That place doesn't exist. Stop making things up."@,
            MommyShellError::PermissionDenied => "Don't touch that. That is MINE."@,
            MommyShellError::RootDirectoryLocked => "You are trying to leave me? The door is locked."@,
            MommyShellError::CannotOpenFile => "I can't open that. It's either broken or you're incompetent."@,
            MommyShellError::CannotCreateFile => "I refuse to create that file."@,
            MommyShellError::CannotDeleteFile => "I'm keeping that file. You don't get to delete it."@,
            MommyShellError::CannotListFiles => "There is nothing here for you."@,
            MommyShellError::RootDirError => "Mommy can't find the floor."@,
            MommyShellError::CannotReadFile => "Mommy can't read this language sweetie, is this your escape plan?"@,
            MommyShellError::SystemCrash => "Look what you did. You broke it. Now I have to clean up your mess."@,
            MommyShellError::ProcessNotFound => "That doesn't exist. Focus, sweetie."@,
            MommyShellError::LaunchFailed => "It refused to start. Probably because you asked nicely instead of demanding it."@,
            MommyShellError::ExternalIPConfigCallFail => "Your little friend isn't answering. Just you and me now."@,
            MommyShellError::ExternalCommandFailed => "That command failed. Try harder."@,
            MommyShellError::ExternalConsoleBroken => "I broke his fingers. He won't be writing back."@,
        }
    }

    /// The text shown for this value.
    pub fn message(&self) -> (r: &'static str)
        ensures
            r@ == self.text(),
    {
        match self {
            MommyShellError::GeneralInvalid => "Speak clearly. I don't tolerate mumbling.",
            MommyShellError::IncompleteArgs => "You didn't finish your command. Are you nervous?",
            MommyShellError::TooManyArgs => "One thing at a time. Don't be greedy.",
            MommyShellError::FileNotFound => "It's not there. Are you hallucinating?",
            MommyShellError::DirectoryNotFound => "That place doesn't exist. Stop making things up.",
            MommyShellError::PermissionDenied => "Don't touch that. That is MINE.",
            MommyShellError::RootDirectoryLocked => "You are trying to leave me? The door is locked.",
            MommyShellError::CannotOpenFile => "I can't open that. It's either broken or you're incompetent.",
            MommyShellError::CannotCreateFile => "I refuse to create that file.",
            MommyShellError::CannotDeleteFile => "I'm keeping that file. You don't get to delete it.",
            MommyShellError::CannotListFiles => "There is nothing here for you.",
            MommyShellError::RootDirError => "Mommy can't find the floor.",
            MommyShellError::CannotReadFile => "Mommy can't read this language sweetie, is this your escape plan?",
            MommyShellError::SystemCrash => "Look what you did. You broke it. Now I have to clean up your mess.",
            MommyShellError::ProcessNotFound => "That doesn't exist. Focus, sweetie.",
            MommyShellError::LaunchFailed => "It refused to start. Probably because you asked nicely instead of demanding it.",
            MommyShellError::ExternalIPConfigCallFail => "Your little friend isn't answering. Just you and me now.",
            MommyShellError::ExternalCommandFailed => "That command failed. Try harder.",
            MommyShellError::ExternalConsoleBroken => "I broke his fingers. He won't be writing back.",
        }
    }
}

/// Menus and prompts of the shell.
#[derive(Debug, Clone, Copy, PartialEq, Eq, Structural)]
pub enum MommyUI {
    WelcomeTitle,
    WelcomeSubtitle,
    WelcomePrompt,
    ExitMessage,
    AskName,
    ConfirmName,
    PrepareCoding,
    StartCoding,
    RefuseCoding,
    PrepareEnv,
    RestartCLI,
    ChaosDidNotHear,
    ChaosWrongCommand,
    GenericObedience,
    NewLine,
    Clear,
}

impl MommyUI {
    /// The text shown for this value.
    pub open spec fn text(self) -> Seq<char> {
        match self {
            MommyUI::WelcomeTitle => "Hello To my Custom Shell!"@,
            MommyUI::WelcomeSubtitle => "It is made by \"HiveMind\" to showcase my talents ^^."@,
            MommyUI::WelcomePrompt => "Press Y or any key(to exit) key to start using it."@,
            MommyUI::ExitMessage => "Exiting..."@,
            MommyUI::AskName => "Do you know who you are?"@,
            MommyUI::ConfirmName => "Tell me your name. Don't lie."@,
            MommyUI::PrepareCoding => "Do you have instructions for me? Make them count."@,
            MommyUI::StartCoding => "Start typing. Type 'SAVE' when you are done. Don't bore me."@,
            MommyUI::RefuseCoding => "You called me over and then said nothing? Do not waste my time."@,
            MommyUI::PrepareEnv => "Wait. I need to prepare the room."@,
            MommyUI::RestartCLI => "Let's try that again. Do it right this time."@,
            MommyUI::ChaosDidNotHear => "I didn't hear you. Speak up."@,
            MommyUI::ChaosWrongCommand => "You are repeating yourself. I hate repetition."@,
            MommyUI::GenericObedience => "Good boy. Always listen to your mommy."@,
            MommyUI::NewLine => "\n\n\n"@,
            MommyUI::Clear => "\x1B[2J\x1B[1;1H"@,
        }
    }

    /// The text shown for this value.
    pub fn message(&self) -> (r: &'static str)
        ensures
            r@ == self.text(),
    {
        match self {
            MommyUI::WelcomeTitle => "Hello To my Custom Shell!",
            MommyUI::WelcomeSubtitle => "It is made by \"HiveMind\" to showcase my talents ^^.",
            MommyUI::WelcomePrompt => "Press Y or any key(to exit) key to start using it.",
            MommyUI::ExitMessage => "Exiting...",
            MommyUI::AskName => "Do you know who you are?",
            MommyUI::ConfirmName => "Tell me your name. Don't lie.",
            MommyUI::PrepareCoding => "Do you have instructions for me? Make them count.",
            MommyUI::StartCoding => "Start typing. Type 'SAVE' when you are done. Don't bore me.",
            MommyUI::RefuseCoding => "You called me over and then said nothing? Do not waste my time.",
            MommyUI::PrepareEnv => "Wait. I need to prepare the room.",
            MommyUI::RestartCLI => "Let's try that again. Do it right this time.",
            MommyUI::ChaosDidNotHear => "I didn't hear you. Speak up.",
            MommyUI::ChaosWrongCommand => "You are repeating yourself. I hate repetition.",
            MommyUI::GenericObedience => "Good boy. Always listen to your mommy.",
            MommyUI::NewLine => "\n\n\n",
            MommyUI::Clear => "\x1B[2J\x1B[1;1H",
        }
    }
}

} // verus!
