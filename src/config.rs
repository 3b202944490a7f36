//! The compiler's command line: one source path ending in `.mommy`, from
//! which the paths of the generated file and of the executable follow.
use vstd::prelude::*;
use vstd::string::*;
use crate::errors::MommyLangError;
use crate::text::{ends_with, ends_with_text, replace_all, replace_text};

verus! {

/// The paths of one compilation.
pub struct Config {
    pub input_path: String,
    pub c_path: String,
    pub exe_path: String,
}

/// The outcome of reading the arguments: the three paths, or the message of
/// the refusal.
pub open spec fn config_result(args: Seq<Seq<char>>) -> Result<
    (Seq<char>, Seq<char>, Seq<char>),
    Seq<char>,
> {
    if args.len() < 2 {
        Err(MommyLangError::StatusNoFile.text())
    } else if !ends_with(args[1], ".mommy"@) {
        Err(MommyLangError::WrongFileType.text())
    } else {
        Ok(
            (
                args[1],
                replace_all(args[1], ".mommy"@, ".c"@),
                replace_all(args[1], ".mommy"@, ".exe"@),
            ),
        )
    }
}

impl Config {
    /// Reads the source path from the arguments (the program name first);
    /// the other paths replace `.mommy` by `.c` and by `.exe`.
    pub fn new(args: &[String]) -> (r: Result<Config, String>)
        ensures
            match r {
                Ok(c) => config_result(args@.map_values(|a: String| a@)) == Ok::<
                    (Seq<char>, Seq<char>, Seq<char>),
                    Seq<char>,
                >((c.input_path@, c.c_path@, c.exe_path@)),
                Err(e) => config_result(args@.map_values(|a: String| a@)) == Err::<
                    (Seq<char>, Seq<char>, Seq<char>),
                    Seq<char>,
                >(e@),
            },
    {
        let ghost v = args@.map_values(|a: String| a@);
        if args.len() < 2 {
            return Err(String::from_str(MommyLangError::StatusNoFile.message()));
        }
        let input_path = args[1].clone();
        assert(v[1] == input_path@);
        proof {
            reveal_strlit(".mommy");
        }
        if !ends_with_text(input_path.as_str(), ".mommy") {
            return Err(String::from_str(MommyLangError::WrongFileType.message()));
        }
        let c_path = replace_text(input_path.as_str(), ".mommy", ".c");
        let exe_path = replace_text(input_path.as_str(), ".mommy", ".exe");
        Ok(Config { input_path, c_path, exe_path })
    }
}

} // verus!
