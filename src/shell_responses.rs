//! Notices and menus of the first shell and of the suite start-up.
use vstd::prelude::*;

verus! {

/// Notices of the first shell for commands that succeeded.
#[derive(Debug, Clone, Copy, PartialEq, Eq, Structural)]
pub enum ShellOkResponse {
    OkGeneral,
    OkDeleteFile,
    OkCreateFile,
    OkReturnDirectory,
    OkListedFiles,
    OkMoveDirectory,
    OkTerminate,
    OkCreateDirectory,
    OkDeleteDirectory,
    OkReadFile,
    OkOpenedFile,
    OkLaunchProcess,
}

impl ShellOkResponse {
    /// The text shown for this value.
    pub open spec fn text(self) -> Seq<char> {
        match self {
            ShellOkResponse::OkGeneral => "It was successful sweetie."@,
            ShellOkResponse::OkDeleteFile => "You don't like this? Fine, I will have it."@,
            ShellOkResponse::OkCreateFile => "Here sweetie, please take care of it."@,
            ShellOkResponse::OkReturnDirectory => "Be careful sweetie."@,
            ShellOkResponse::OkListedFiles => "You don't trust your mommy?..."@,
            ShellOkResponse::OkMoveDirectory => "We are here now, do you like it?"@,
            ShellOkResponse::OkTerminate => "Talk to you later sweetie."@,
            ShellOkResponse::OkCreateDirectory => "Oh, you want to play house with me sweetie?"@,
            ShellOkResponse::OkDeleteDirectory => "You don't have to do that, we can just create more house."@,
            ShellOkResponse::OkReadFile => "Do you like the contents of the file sweetie?"@,
            ShellOkResponse::OkOpenedFile => "Write what is important for you, sweet boy."@,
            ShellOkResponse::OkLaunchProcess => "Are you satisfied sweetie?."@,
        }
    }

    /// The text shown for this value.
    pub fn message(&self) -> (r: &'static str)
        ensures
            r@ == self.text(),
    {
        match self {
            ShellOkResponse::OkGeneral => "It was successful sweetie.",
            ShellOkResponse::OkDeleteFile => "You don't like this? Fine, I will have it.",
            ShellOkResponse::OkCreateFile => "Here sweetie, please take care of it.",
            ShellOkResponse::OkReturnDirectory => "Be careful sweetie.",
            ShellOkResponse::OkListedFiles => "You don't trust your mommy?...",
            ShellOkResponse::OkMoveDirectory => "We are here now, do you like it?",
            ShellOkResponse::OkTerminate => "Talk to you later sweetie.",
            ShellOkResponse::OkCreateDirectory => "Oh, you want to play house with me sweetie?",
            ShellOkResponse::OkDeleteDirectory => "You don't have to do that, we can just create more house.",
            ShellOkResponse::OkReadFile => "Do you like the contents of the file sweetie?",
            ShellOkResponse::OkOpenedFile => "Write what is important for you, sweet boy.",
            ShellOkResponse::OkLaunchProcess => "Are you satisfied sweetie?.",
        }
    }
}

/// Notices of the first shell for commands that failed.
#[derive(Debug, Clone, Copy, PartialEq, Eq, Structural)]
pub enum ShellErrorResponse {
    ErrorGeneral,
    ErrorBadArgs,
    ErrorTooManyArgs,
    ErrorSystem,
    ErrorFileDoesNotExist,
    ErrorPermissionDenied,
    ErrorRootDirectory,
    ErrorListedFilesDoesNotExist,
    ErrorProcessDoesNotExist,
    ErrorIncompleteLaunchProcess,
    ErrorDirectoryDoesNotExist,
}

impl ShellErrorResponse {
    /// The text shown for this value.
    pub open spec fn text(self) -> Seq<char> {
        match self {
            ShellErrorResponse::ErrorGeneral => "Tell me the instructions correctly sweetie."@,
            ShellErrorResponse::ErrorBadArgs => "You didn't complete your sentence sweetie, are you flustered?."@,
            ShellErrorResponse::ErrorTooManyArgs => "Greedy Aren't you?."@,
            ShellErrorResponse::ErrorSystem => "Oh my, the system crashed."@,
            ShellErrorResponse::ErrorFileDoesNotExist => "You are not allowed to do that sweetie?"@,
            ShellErrorResponse::ErrorPermissionDenied => "This is as far as we can go sweetie."@,
            ShellErrorResponse::ErrorRootDirectory => "Hmmm, no one is here, only your mommy right?."@,
            ShellErrorResponse::ErrorListedFilesDoesNotExist => "Hmmm, no one is here, only your mommy right?."@,
            ShellErrorResponse::ErrorProcessDoesNotExist => "What kind of action you want me to do sweetie? Say it properly."@,
            ShellErrorResponse::ErrorIncompleteLaunchProcess => "I can't do it properly if you won't say clearly what you desire sweetie."@,
            ShellErrorResponse::ErrorDirectoryDoesNotExist => "I cannot find the house sweetie."@,
        }
    }

    /// The text shown for this value.
    pub fn message(&self) -> (r: &'static str)
        ensures
            r@ == self.text(),
    {
        match self {
            ShellErrorResponse::ErrorGeneral => "Tell me the instructions correctly sweetie.",
            ShellErrorResponse::ErrorBadArgs => "You didn't complete your sentence sweetie, are you flustered?.",
            ShellErrorResponse::ErrorTooManyArgs => "Greedy Aren't you?.",
            ShellErrorResponse::ErrorSystem => "Oh my, the system crashed.",
            ShellErrorResponse::ErrorFileDoesNotExist => "You are not allowed to do that sweetie?",
            ShellErrorResponse::ErrorPermissionDenied => "This is as far as we can go sweetie.",
            ShellErrorResponse::ErrorRootDirectory => "Hmmm, no one is here, only your mommy right?.",
            ShellErrorResponse::ErrorListedFilesDoesNotExist => "Hmmm, no one is here, only your mommy right?.",
            ShellErrorResponse::ErrorProcessDoesNotExist => "What kind of action you want me to do sweetie? Say it properly.",
            ShellErrorResponse::ErrorIncompleteLaunchProcess => "I can't do it properly if you won't say clearly what you desire sweetie.",
            ShellErrorResponse::ErrorDirectoryDoesNotExist => "I cannot find the house sweetie.",
        }
    }
}

/// Remarks on network commands that were attempted.
#[derive(Debug, Clone, Copy, PartialEq, Eq, Structural)]
pub enum OkFlavorResponse {
    FlavorIpConfigAttempt,
    FlavorPingAttempt,
}

impl OkFlavorResponse {
    /// The text shown for this value.
    pub open spec fn text(self) -> Seq<char> {
        match self {
            OkFlavorResponse::FlavorIpConfigAttempt => "Do not tell others about our location sweetie, you only need to rely on me."@,
            OkFlavorResponse::FlavorPingAttempt => "Are you calling someone sweetie? You do know that we only rely on each other."@,
        }
    }

    /// The text shown for this value.
    pub fn message(&self) -> (r: &'static str)
        ensures
            r@ == self.text(),
    {
        match self {
            OkFlavorResponse::FlavorIpConfigAttempt => "Do not tell others about our location sweetie, you only need to rely on me.",
            OkFlavorResponse::FlavorPingAttempt => "Are you calling someone sweetie? You do know that we only rely on each other.",
        }
    }
}

/// Remarks on external commands that failed.
#[derive(Debug, Clone, Copy, PartialEq, Eq, Structural)]
pub enum BadFlavorResponse {
    FlavorWindowsCallFail,
    FlavorWindowsCommandFail,
    FlavorWindowsConsoleFail,
}

impl BadFlavorResponse {
    /// The text shown for this value.
    pub open spec fn text(self) -> Seq<char> {
        match self {
            BadFlavorResponse::FlavorWindowsCallFail => "Your friend did not respond to your calls?"@,
            BadFlavorResponse::FlavorWindowsCommandFail => "Your friend did not like how you commanded him. You want to make him obey?"@,
            BadFlavorResponse::FlavorWindowsConsoleFail => "Your friend cannot write because i broke his fingers, sorry sweetie."@,
        }
    }

    /// The text shown for this value.
    pub fn message(&self) -> (r: &'static str)
        ensures
            r@ == self.text(),
    {
        match self {
            BadFlavorResponse::FlavorWindowsCallFail => "Your friend did not respond to your calls?",
            BadFlavorResponse::FlavorWindowsCommandFail => "Your friend did not like how you commanded him. You want to make him obey?",
            BadFlavorResponse::FlavorWindowsConsoleFail => "Your friend cannot write because i broke his fingers, sorry sweetie.",
        }
    }
}

/// Menus and prompts of the first shell.
#[derive(Debug, Clone, Copy, PartialEq, Eq, Structural)]
pub enum GeneralFlavorResponse {
    FlavorMenu1,
    FlavorMenu2,
    FlavorMenu3,
    FlavorExit,
    FlavorRegister1,
    FlavorRegister2,
    FlavorStart1,
    FlavorChaosNotHear,
    FlavorChaosWrongCommand,
    FlavorStartCoding,
    FlavorRefuseCoding,
}

impl GeneralFlavorResponse {
    /// The text shown for this value.
    pub open spec fn text(self) -> Seq<char> {
        match self {
            GeneralFlavorResponse::FlavorMenu1 => "Hello To my Custom Shell!"@,
            GeneralFlavorResponse::FlavorMenu2 => "It is made by \"HiveMind\" to showcase my talents ^^."@,
            GeneralFlavorResponse::FlavorMenu3 => "Press Y(Manipulation) or Z(Default) key to start using it. "@,
            GeneralFlavorResponse::FlavorExit => "Exiting....."@,
            GeneralFlavorResponse::FlavorRegister1 => "Do you know your name?"@,
            GeneralFlavorResponse::FlavorRegister2 => "Tell me your name sweetie.. "@,
            GeneralFlavorResponse::FlavorStart1 => "Good boy, always listen to your mommy."@,
            GeneralFlavorResponse::FlavorChaosNotHear => "Are you talking sweetie? I did not hear you. Can you repeat that again?"@,
            GeneralFlavorResponse::FlavorChaosWrongCommand => "You already told me that, you are so impatient sweetie."@,
            GeneralFlavorResponse::FlavorStartCoding => "Do you want to instruct me sweetie?"@,
            GeneralFlavorResponse::FlavorRefuseCoding => "Why did you told me to prepare it sweetie? You are wasting my time."@,
        }
    }

    /// The text shown for this value.
    pub fn message(&self) -> (r: &'static str)
        ensures
            r@ == self.text(),
    {
        match self {
            GeneralFlavorResponse::FlavorMenu1 => "Hello To my Custom Shell!",
            GeneralFlavorResponse::FlavorMenu2 => "It is made by \"HiveMind\" to showcase my talents ^^.",
            GeneralFlavorResponse::FlavorMenu3 => "Press Y(Manipulation) or Z(Default) key to start using it. ",
            GeneralFlavorResponse::FlavorExit => "Exiting.....",
            GeneralFlavorResponse::FlavorRegister1 => "Do you know your name?",
            GeneralFlavorResponse::FlavorRegister2 => "Tell me your name sweetie.. ",
            GeneralFlavorResponse::FlavorStart1 => "Good boy, always listen to your mommy.",
            GeneralFlavorResponse::FlavorChaosNotHear => "Are you talking sweetie? I did not hear you. Can you repeat that again?",
            GeneralFlavorResponse::FlavorChaosWrongCommand => "You already told me that, you are so impatient sweetie.",
            GeneralFlavorResponse::FlavorStartCoding => "Do you want to instruct me sweetie?",
            GeneralFlavorResponse::FlavorRefuseCoding => "Why did you told me to prepare it sweetie? You are wasting my time.",
        }
    }
}

/// Spacing and reply markers of the first shell.
#[derive(Debug, Clone, Copy, PartialEq, Eq, Structural)]
pub enum MiscFlavor {
    FlavorWhitespace1,
    FlavorWhiteSpace2,
    FlavorUserReply1,
}

/// Notices of the suite's start-up.
#[derive(Debug, Clone, Copy, PartialEq, Eq, Structural)]
pub enum MommySuiteResponse {
    AppNotInit,
    AppAlreadyInit,
    RootNotFound,
}

impl MommySuiteResponse {
    /// The text shown for this value.
    pub open spec fn text(self) -> Seq<char> {
        match self {
            MommySuiteResponse::AppNotInit => "AppContext not initialized!"@,
            MommySuiteResponse::AppAlreadyInit => "AppContext already initialized!"@,
            MommySuiteResponse::RootNotFound => "Root not found!"@,
        }
    }

    /// The text shown for this value.
    pub fn message(&self) -> (r: &'static str)
        ensures
            r@ == self.text(),
    {
        match self {
            MommySuiteResponse::AppNotInit => "AppContext not initialized!",
            MommySuiteResponse::AppAlreadyInit => "AppContext already initialized!",
            MommySuiteResponse::RootNotFound => "Root not found!",
        }
    }
}

/// Failures of the suite's core files.
#[derive(Debug, Clone, Copy, PartialEq, Eq, Structural)]
pub enum MommySuiteCoreResponse {
    ShellMissing,
}

impl MommySuiteCoreResponse {
    /// The text shown for this value.
    pub open spec fn text(self) -> Seq<char> {
        match self {
            MommySuiteCoreResponse::ShellMissing => "CRITICAL SYSTEM FAILURE: mommy_shell missing or corrupted."@,
        }
    }

    /// The text shown for this value.
    pub fn message(&self) -> (r: &'static str)
        ensures
            r@ == self.text(),
    {
        match self {
            MommySuiteCoreResponse::ShellMissing => "CRITICAL SYSTEM FAILURE: mommy_shell missing or corrupted.",
        }
    }
}

} // verus!
