//! Arithmetic: one binary operation per statement, `target = target op value;`.
use vstd::prelude::*;
use vstd::string::*;
use crate::errors::{res_view, MommyLangError};
use crate::numbers::{is_float_text, parses_as_float};
use crate::symbols::{DescView, SymbolTable, TypeDesc};
use crate::text::same_text;

verus! {

/// A variable that holds text, on which no arithmetic is allowed.
pub open spec fn is_text_type(d: DescView) -> bool {
    d == DescView::Scalar("String"@) || d == DescView::Scalar("char*"@)
}

/// Why an operation is refused, if it is.
pub open spec fn operation_error(
    target: Seq<char>,
    operator: Seq<char>,
    value: Seq<char>,
    syms: Map<Seq<char>, DescView>,
) -> Option<MommyLangError> {
    if !syms.contains_key(target) {
        Some(MommyLangError::UndeclaredVariable)
    } else if !syms.contains_key(value) && !is_float_text(value) {
        Some(MommyLangError::UndeclaredVariable)
    } else if operator == "/"@ && value == "0"@ {
        Some(MommyLangError::DivideByZero)
    } else if is_text_type(syms[target]) {
        Some(MommyLangError::MathOnString)
    } else {
        None
    }
}

/// The statement of one operation, or the error.
pub open spec fn calculate_result(
    target: Seq<char>,
    operator: Seq<char>,
    value: Seq<char>,
    syms: Map<Seq<char>, DescView>,
) -> Result<Seq<char>, MommyLangError> {
    match operation_error(target, operator, value, syms) {
        Some(e) => Err(e),
        None => Ok(target + " = "@ + target + " "@ + operator + " "@ + value + ";"@),
    }
}

fn validate_operation(target: &str, operator: &str, value: &str, symbols: &SymbolTable) -> (r:
    Result<(), MommyLangError>)
    ensures
        r == (match operation_error(target@, operator@, value@, symbols@) {
            Some(e) => Err(e),
            None => Ok(()),
        }),
{
    let var_type = match symbols.get(target) {
        Some(t) => t,
        None => {
            return Err(MommyLangError::UndeclaredVariable);
        },
    };
    if !symbols.contains(value) {
        if !parses_as_float(value) {
            return Err(MommyLangError::UndeclaredVariable);
        }
    }
    if same_text(operator, "/") && same_text(value, "0") {
        return Err(MommyLangError::DivideByZero);
    }
    let text = match var_type {
        TypeDesc::Scalar(b) => same_text(b.as_str(), "String") || same_text(b.as_str(), "char*"),
        _ => false,
    };
    if text {
        return Err(MommyLangError::MathOnString);
    }
    Ok(())
}

/// Compiles `target = target operator value;` after checking that the target
/// is declared and not text, that the value is declared or a number, and that
/// it is not a division by the literal zero.
pub fn calculate_two(target: &str, operator: &str, value: &str, symbols: &SymbolTable) -> (r:
    Result<String, MommyLangError>)
    ensures
        res_view(r) == calculate_result(target@, operator@, value@, symbols@),
{
    match validate_operation(target, operator, value, symbols) {
        Err(e) => {
            return Err(e);
        },
        Ok(()) => {},
    }
    let mut out = String::from_str(target);
    out.append(" = ");
    out.append(target);
    out.append(" ");
    out.append(operator);
    out.append(" ");
    out.append(value);
    out.append(";");
    Ok(out)
}

} // verus!
