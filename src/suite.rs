//! The suite's start-up data: the directories and executables it needs, and
//! the messages of its start-up animations.
use vstd::prelude::*;
use vstd::string::*;

verus! {

/// An executable of the suite: what it is, where the build leaves it and
/// where the suite runs it from.
pub struct RequiredEXE {
    pub description: &'static str,
    pub build_path: &'static str,
    pub run_path: &'static str,
}

/// The executables that the suite needs, in order.
pub fn core_exe() -> (r: Vec<RequiredEXE>)
    ensures
        r@.len() == 3,
        r@[0].run_path@ == "mommy_bin/mommy_shell.exe"@,
        r@[1].run_path@ == "mommy_bin/mommy_lang.exe"@,
        r@[2].run_path@ == "mommy_bin/mommy_editor.exe"@,
{
    let mut r: Vec<RequiredEXE> = Vec::new();
    r.push(
        RequiredEXE {
            description: "mommy_shell.exe (communication terminal)",
            build_path: "target/debug/mommy_shell.exe",
            run_path: "mommy_bin/mommy_shell.exe",
        },
    );
    r.push(
        RequiredEXE {
            description: "mommy_lang.exe (cognitive core)",
            build_path: "target/debug/mommy_lang.exe",
            run_path: "mommy_bin/mommy_lang.exe",
        },
    );
    r.push(
        RequiredEXE {
            description: "mommy_editor.exe (instruction interface)",
            build_path: "mommy_editor/mommy_editor.exe",
            run_path: "mommy_bin/mommy_editor.exe",
        },
    );
    r
}

/// A directory that the suite creates under its root.
#[derive(Debug, Clone, Copy, PartialEq, Eq, Structural)]
pub enum RequiredDirectory {
    MommyBrain,
    MommyTrash,
    MommyProperties,
    Sandbox,
    Bin,
}

impl RequiredDirectory {
    pub open spec fn spec_hex_code(self) -> Seq<char> {
        match self {
            RequiredDirectory::MommyBrain => "[0x09B0]"@,
            RequiredDirectory::MommyTrash => "[0x09B4]"@,
            RequiredDirectory::MommyProperties => "[0x09C2]"@,
            RequiredDirectory::Sandbox => "[0x09CC]"@,
            RequiredDirectory::Bin => "[0x09D0]"@,
        }
    }

    pub open spec fn spec_dir_name(self) -> Seq<char> {
        match self {
            RequiredDirectory::MommyBrain => "mommy_brain"@,
            RequiredDirectory::MommyTrash => "mommy_trash"@,
            RequiredDirectory::MommyProperties => "mommy_properties"@,
            RequiredDirectory::Sandbox => "sandbox"@,
            RequiredDirectory::Bin => "mommy_bin"@,
        }
    }

    /// Every required directory, in the order they are created.
    pub fn all() -> (r: Vec<RequiredDirectory>)
        ensures
            r@ == seq![
                RequiredDirectory::MommyBrain,
                RequiredDirectory::MommyTrash,
                RequiredDirectory::MommyProperties,
                RequiredDirectory::Sandbox,
                RequiredDirectory::Bin,
            ],
    {
        let r = vec![
            RequiredDirectory::MommyBrain,
            RequiredDirectory::MommyTrash,
            RequiredDirectory::MommyProperties,
            RequiredDirectory::Sandbox,
            RequiredDirectory::Bin,
        ];
        assert(r@ =~= seq![
            RequiredDirectory::MommyBrain,
            RequiredDirectory::MommyTrash,
            RequiredDirectory::MommyProperties,
            RequiredDirectory::Sandbox,
            RequiredDirectory::Bin,
        ]);
        r
    }

    /// The code shown beside the directory while it is created.
    pub fn hex_code(&self) -> (r: &'static str)
        ensures
            r@ == self.spec_hex_code(),
    {
        match self {
            RequiredDirectory::MommyBrain => "[0x09B0]",
            RequiredDirectory::MommyTrash => "[0x09B4]",
            RequiredDirectory::MommyProperties => "[0x09C2]",
            RequiredDirectory::Sandbox => "[0x09CC]",
            RequiredDirectory::Bin => "[0x09D0]",
        }
    }

    /// The directory's name under the root.
    pub fn dir_name(&self) -> (r: &'static str)
        ensures
            r@ == self.spec_dir_name(),
    {
        match self {
            RequiredDirectory::MommyBrain => "mommy_brain",
            RequiredDirectory::MommyTrash => "mommy_trash",
            RequiredDirectory::MommyProperties => "mommy_properties",
            RequiredDirectory::Sandbox => "sandbox",
            RequiredDirectory::Bin => "mommy_bin",
        }
    }
}

/// The delay between animation frames unless another is chosen, in
/// milliseconds.
pub const BASE_DELAY_MS: u64 = 50;

/// A message to animate at start-up, and the pace of the animation.
pub struct MommyBootloader {
    message: String,
    base_delay_ms: u64,
}

impl MommyBootloader {
    pub closed spec fn spec_message(&self) -> Seq<char> {
        self.message@
    }

    pub closed spec fn spec_delay(&self) -> u64 {
        self.base_delay_ms
    }

    /// A message at the default pace.
    pub fn new(message: &str) -> (r: MommyBootloader)
        ensures
            r.spec_message() == message@,
            r.spec_delay() == BASE_DELAY_MS,
    {
        MommyBootloader { message: String::from_str(message), base_delay_ms: BASE_DELAY_MS }
    }

    /// Two messages joined by a space, at the default pace.
    pub fn double_new(message: &str, message2: &str) -> (r: MommyBootloader)
        ensures
            r.spec_message() == message@ + " "@ + message2@,
            r.spec_delay() == BASE_DELAY_MS,
    {
        let mut m = String::from_str(message);
        m.append(" ");
        m.append(message2);
        MommyBootloader { message: m, base_delay_ms: BASE_DELAY_MS }
    }

    /// The same message at another pace.
    pub fn with_delay(self, delay_ms: u64) -> (r: MommyBootloader)
        ensures
            r.spec_message() == self.spec_message(),
            r.spec_delay() == delay_ms,
    {
        MommyBootloader { message: self.message, base_delay_ms: delay_ms }
    }

    pub fn message(&self) -> (r: &str)
        ensures
            r@ == self.spec_message(),
    {
        self.message.as_str()
    }

    pub fn base_delay_ms(&self) -> (r: u64)
        ensures
            r == self.spec_delay(),
    {
        self.base_delay_ms
    }
}

/// A random-looking extra delay below `max`, taken from the sub-second
/// nanoseconds of the clock.
pub fn get_jitter(subsec_nanos: u32, max: u64) -> (r: u64)
    requires
        max > 0,
    ensures
        r == subsec_nanos as u64 % max,
        r < max,
{
    subsec_nanos as u64 % max
}

} // verus!
