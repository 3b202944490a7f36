//! Checks shared by the statement compilers: names, token shapes, types,
//! sizes and indices.
use vstd::prelude::*;
use crate::errors::MommyLangError;
use crate::numbers::{parse_usize, usize_of};
use crate::symbols::{DescView, SymbolTable, TypeDesc};
use crate::text::{same_text, texts};

verus! {

/// The largest size that an array declaration accepts.
pub const MAX_ARRAY_SIZE: usize = 1000000;

/// Names that the target language keeps for itself.
pub open spec fn is_reserved(name: Seq<char>) -> bool {
    name == "int"@ || name == "return"@ || name == "void"@ || name == "char"@ || name == "if"@
        || name == "while"@
}

/// Refuses a reserved name.
pub fn ensure_valid_name(name: &str) -> (r: Result<(), MommyLangError>)
    ensures
        r == (if is_reserved(name@) {
            Err(MommyLangError::InvalidVariableName)
        } else {
            Ok(())
        }),
{
    if same_text(name, "int") || same_text(name, "return") || same_text(name, "void") || same_text(
        name,
        "char",
    ) || same_text(name, "if") || same_text(name, "while") {
        Err(MommyLangError::InvalidVariableName)
    } else {
        Ok(())
    }
}

/// Refuses a name that is already declared.
pub fn ensure_var_new(name: &str, symbols: &SymbolTable) -> (r: Result<(), MommyLangError>)
    ensures
        r == (if symbols@.contains_key(name@) {
            Err(MommyLangError::VariableAlreadyExists)
        } else {
            Ok(())
        }),
{
    if symbols.contains(name) {
        Err(MommyLangError::VariableAlreadyExists)
    } else {
        Ok(())
    }
}

/// Refuses a name that is not declared.
pub fn ensure_var_exists(name: &str, symbols: &SymbolTable) -> (r: Result<(), MommyLangError>)
    ensures
        r == (if symbols@.contains_key(name@) {
            Ok(())
        } else {
            Err(MommyLangError::UndeclaredVariable)
        }),
{
    if symbols.contains(name) {
        Ok(())
    } else {
        Err(MommyLangError::UndeclaredVariable)
    }
}

/// A variable that cannot be indexed or pointed through: a scalar other than
/// `String`.
pub open spec fn type_mismatch(d: DescView) -> bool {
    match d {
        DescView::Scalar(b) => b != "String"@,
        _ => false,
    }
}

pub fn is_type_mismatch(is_type: &TypeDesc) -> (r: bool)
    ensures
        r == type_mismatch(is_type@),
{
    match is_type {
        TypeDesc::Scalar(b) => !same_text(b.as_str(), "String"),
        _ => false,
    }
}

pub fn is_type_pointer(var_type: &TypeDesc) -> (r: bool)
    ensures
        r == (var_type@ is Pointer),
{
    match var_type {
        TypeDesc::Pointer => true,
        _ => false,
    }
}

pub fn is_name_and_index_greater_than_len(name_idx: usize, type_idx: usize, len: usize) -> (r:
    bool)
    ensures
        r == (name_idx >= len || type_idx >= len),
{
    name_idx >= len || type_idx >= len
}

/// A declaration needs six tokens: keyword, value, `in`, name, `as`, type.
pub fn is_missing_decl_args(args_len: usize) -> (r: bool)
    ensures
        r == (args_len < 6),
{
    args_len < 6
}

pub fn is_missing_say_args(tokens_len: usize) -> (r: bool)
    ensures
        r == (tokens_len < 2),
{
    tokens_len < 2
}

/// Whether the connectors of `<kw> <size> in <name> as <type>` are out of place.
pub fn is_invalid_array_tokens(tokens: &Vec<String>) -> (r: bool)
    requires
        tokens.len() >= 5,
    ensures
        r == (texts(tokens@)[2] != "in"@ || texts(tokens@)[4] != "as"@),
{
    !same_text(tokens[2].as_str(), "in") || !same_text(tokens[4].as_str(), "as")
}

/// A size that is not a number, or exceeds the largest array.
pub open spec fn invalid_size(s: Seq<char>) -> bool {
    match usize_of(s) {
        Some(n) => n > MAX_ARRAY_SIZE,
        None => true,
    }
}

pub fn is_invalid_array_size(size_str: &str) -> (r: bool)
    ensures
        r == invalid_size(size_str@),
{
    match parse_usize(size_str) {
        Some(size) => size > MAX_ARRAY_SIZE,
        None => true,
    }
}

/// An index that is known, at compile time, to fall outside an array or heap
/// block of known size.
pub open spec fn index_out_of_bounds(d: DescView, index: Seq<char>) -> bool {
    d.is_sized() && match (usize_of(d.size_text()), usize_of(index)) {
        (Some(m), Some(i)) => i >= m,
        _ => false,
    }
}

pub fn is_accessed_index_invalid(var_type: &TypeDesc, index: &str) -> (r: bool)
    ensures
        r == index_out_of_bounds(var_type@, index@),
{
    let size = match var_type {
        TypeDesc::Array(_, n) => n,
        TypeDesc::Heap(_, n) => n,
        _ => {
            return false;
        },
    };
    match (parse_usize(size.as_str()), parse_usize(index)) {
        (Some(m), Some(i)) => i >= m,
        _ => false,
    }
}

pub fn is_output_be_wildcard(array_type: &TypeDesc, idx_num: usize, max_size: usize) -> (r: bool)
    ensures
        r == (array_type@.is_sized() && idx_num >= max_size && max_size != 0),
{
    let sized = match array_type {
        TypeDesc::Array(_, _) => true,
        TypeDesc::Heap(_, _) => true,
        _ => false,
    };
    sized && idx_num >= max_size && max_size != 0
}

/// The index `?`, which stands for every element.
pub fn is_kw_all(idx: &str) -> (r: bool)
    ensures
        r == (idx@ == "?"@),
{
    same_text(idx, "?")
}

pub fn is_keyword_with_missing(tokens: &Vec<String>) -> (r: bool)
    requires
        tokens.len() > 2,
    ensures
        r == (texts(tokens@)[2] != "with"@),
{
    !same_text(tokens[2].as_str(), "with")
}

/// `address`, the last token of `replace p with x address`.
pub fn is_replace_pointer(last_token: &str) -> (r: bool)
    ensures
        r == (last_token@ == "address"@),
{
    same_text(last_token, "address")
}

/// `inside`, the last token of `replace p with v inside`.
pub fn is_deref_assignment(last_token: &str) -> (r: bool)
    ensures
        r == (last_token@ == "inside"@),
{
    same_text(last_token, "inside")
}

pub fn is_invalid_dealloc_tokens(tokens: &Vec<String>) -> (r: bool)
    ensures
        r == (tokens.len() < 2),
{
    tokens.len() < 2
}

/// The element type of an array or heap block; `String` for other variables.
pub fn select_inner_type(desc: &TypeDesc) -> (r: &str)
    ensures
        r@ == desc@.inner(),
{
    match desc {
        TypeDesc::Array(b, _) => b.as_str(),
        TypeDesc::Heap(b, _) => b.as_str(),
        _ => "String",
    }
}

/// The size of an array or heap block where it is a number, else zero.
pub fn select_max_size(desc: &TypeDesc) -> (r: usize)
    ensures
        r == desc@.max_size(),
{
    let size = match desc {
        TypeDesc::Array(_, n) => n,
        TypeDesc::Heap(_, n) => n,
        _ => {
            return 0;
        },
    };
    match parse_usize(size.as_str()) {
        Some(n) => n,
        None => 0,
    }
}

} // verus!
