//! Block headers and closers: counted and conditional loops, `satisfied`,
//! `done`, `ask if` and `or`.
use vstd::prelude::*;
use vstd::string::*;
use crate::errors::{res_view, MommyLangError};
use crate::text::{join, join_from, same_text, texts};

verus! {

/// `punishme <count>`: a loop that runs `count` times.
pub fn for_loop(tokens: &Vec<String>) -> (r: String)
    requires
        tokens.len() >= 2,
    ensures
        r@ == "for (int i = 0; i < "@ + tokens@[1]@ + "; i++) {"@,
{
    let mut out = String::from_str("for (int i = 0; i < ");
    out.append(tokens[1].as_str());
    out.append("; i++) {");
    out
}

/// `done`: closes the innermost block.
pub fn done() -> (r: String)
    ensures
        r@ == "}"@,
{
    String::from_str("}")
}

/// `satisfied`: leaves the innermost loop.
pub fn satisfied() -> (r: String)
    ensures
        r@ == "break;"@,
{
    String::from_str("break;")
}

/// `punishmeif <condition...>`: a loop that runs while the condition, taken as
/// written, holds.
pub fn while_loop(tokens: &Vec<String>) -> (r: String)
    requires
        tokens.len() >= 1,
    ensures
        r@ == "while ("@ + join(texts(tokens@).skip(1), " "@) + ") {"@,
{
    let condition = join_from(tokens, 1);
    let mut out = String::from_str("while (");
    out.append(condition.as_str());
    out.append(") {");
    out
}

/// `ask if <condition...>`: the header of a conditional block, or the error.
pub open spec fn ask_result(t: Seq<Seq<char>>) -> Result<Seq<char>, MommyLangError> {
    if t.len() < 3 {
        Err(MommyLangError::MissingArguments)
    } else if t[1] != "if"@ || t[0] != "ask"@ {
        Err(MommyLangError::SyntaxError)
    } else {
        Ok("if ("@ + join(t.skip(2), " "@) + ") {"@)
    }
}

/// Compiles `ask if <condition...>`; the condition is taken as written.
pub fn ask(tokens: &Vec<String>) -> (r: Result<String, MommyLangError>)
    ensures
        res_view(r) == ask_result(texts(tokens@)),
{
    if tokens.len() < 3 {
        return Err(MommyLangError::MissingArguments);
    }
    if !same_text(tokens[1].as_str(), "if") || !same_text(tokens[0].as_str(), "ask") {
        return Err(MommyLangError::SyntaxError);
    }
    let condition = join_from(tokens, 2);
    let mut out = String::from_str("if (");
    out.append(condition.as_str());
    out.append(") {");
    Ok(out)
}

/// `or`: closes the conditional block and opens its alternative.
pub fn or() -> (r: Result<String, MommyLangError>)
    ensures
        res_view(r) == Ok::<Seq<char>, MommyLangError>("}else {"@),
{
    Ok(String::from_str("}else {"))
}

} // verus!
