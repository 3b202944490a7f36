//! The packages that `makeme` can bring in, and their header lines.
use vstd::prelude::*;
use vstd::string::*;
use crate::errors::{res_view, MommyLangError};
use crate::text::{same_text, trim, trim_of};

verus! {

/// Standard C headers that a program can ask for.
#[derive(Debug, Clone, Copy, PartialEq, Eq, Structural)]
pub enum CStandardPackages {
    /// The standard input and output header.
    InputOutput,
    /// The standard utilities header.
    Utilities,
    UnknownPackage,
}

impl CStandardPackages {
    /// The header line of the package.
    pub open spec fn line(self) -> Seq<char> {
        match self {
            CStandardPackages::InputOutput => "#include <stdio.h>"@,
            CStandardPackages::Utilities => "#include <stdlib.h>"@,
            CStandardPackages::UnknownPackage => ""@,
        }
    }

    /// The header line of the package; empty for an unknown one.
    pub fn include_line(&self) -> (r: String)
        ensures
            r@ == self.line(),
    {
        match self {
            CStandardPackages::InputOutput => String::from_str("#include <stdio.h>"),
            CStandardPackages::Utilities => String::from_str("#include <stdlib.h>"),
            CStandardPackages::UnknownPackage => String::from_str(""),
        }
    }
}

/// The header line for a package name, or the error.
pub open spec fn package_result(name: Seq<char>) -> Result<Seq<char>, MommyLangError> {
    if trim_of(name) == "listen_and_read"@ {
        Ok(CStandardPackages::InputOutput.line())
    } else if trim_of(name) == "ask_more"@ {
        Ok(CStandardPackages::Utilities.line())
    } else {
        Err(MommyLangError::UnknownPackage)
    }
}

/// Looks up the header line of a package; surrounding whitespace is ignored.
pub fn add_package(package: &str) -> (r: Result<String, MommyLangError>)
    ensures
        res_view(r) == package_result(package@),
{
    let name = trim(package);
    if same_text(name, "listen_and_read") {
        Ok(CStandardPackages::InputOutput.include_line())
    } else if same_text(name, "ask_more") {
        Ok(CStandardPackages::Utilities.include_line())
    } else {
        Err(MommyLangError::UnknownPackage)
    }
}

} // verus!
