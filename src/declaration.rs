//! Declarations (`mayihave`, `group`, `ibegyou`), heap release (`takeitback`)
//! and the four shapes of `replace`.
use vstd::prelude::*;
use vstd::string::*;
use crate::errors::{res_view, MommyLangError};
use crate::symbols::{DescView, SymbolTable, TypeDesc};
use crate::text::{join, join_range, same_text, texts};
use crate::validate::{
    ensure_valid_name, ensure_var_exists, ensure_var_new, index_out_of_bounds, invalid_size,
    is_accessed_index_invalid, is_deref_assignment, is_invalid_array_size, is_invalid_array_tokens,
    is_invalid_dealloc_tokens, is_keyword_with_missing, is_missing_decl_args,
    is_name_and_index_greater_than_len, is_replace_pointer, is_reserved, is_type_mismatch,
    is_type_pointer, type_mismatch,
};

verus! {

/// The first position of `k` in `t`.
pub open spec fn position_of(t: Seq<Seq<char>>, k: Seq<char>) -> Option<int>
    decreases t.len(),
{
    if t.len() == 0 {
        None
    } else {
        match position_of(t.drop_last(), k) {
            Some(i) => Some(i),
            None => if t.last() == k {
                Some(t.len() - 1)
            } else {
                None
            },
        }
    }
}

/// The target type of a scalar: `String` becomes `char*`, a pointer `int*`.
pub open spec fn c_type_of(raw: Seq<char>) -> Seq<char> {
    if raw == "String"@ {
        "char*"@
    } else if raw == "box"@ || raw == "pointer"@ {
        "int*"@
    } else {
        raw
    }
}

/// The target element type of an array or heap block: `ascii` becomes `int`.
pub open spec fn elem_c_type_of(raw: Seq<char>) -> Seq<char> {
    if raw == "ascii"@ {
        "int"@
    } else {
        c_type_of(raw)
    }
}

/// The descriptor recorded for a scalar declaration.
pub open spec fn scalar_desc(raw: Seq<char>) -> DescView {
    if raw == "box"@ || raw == "pointer"@ {
        DescView::Pointer
    } else {
        DescView::Scalar(raw)
    }
}

/// `null` becomes the target's null literal.
pub open spec fn c_value(v: Seq<char>) -> Seq<char> {
    if v == "null"@ {
        "NULL"@
    } else {
        v
    }
}

/// `mayihave <value...> in <name> as <type>`: the statement, or the error. The
/// value runs up to the first `in`; `as` must follow the name.
pub open spec fn create_variable_result(t: Seq<Seq<char>>, syms: Map<Seq<char>, DescView>) -> Result<
    Seq<char>,
    MommyLangError,
> {
    if t.len() < 6 {
        Err(MommyLangError::MissingArguments)
    } else {
        match position_of(t, "in"@) {
            None => Err(MommyLangError::SyntaxError),
            Some(k) => if k == 0 || k + 3 >= t.len() {
                Err(MommyLangError::SyntaxError)
            } else if t[k + 2] != "as"@ {
                Err(MommyLangError::SyntaxError)
            } else if is_reserved(t[k + 1]) {
                Err(MommyLangError::InvalidVariableName)
            } else if syms.contains_key(t[k + 1]) {
                Err(MommyLangError::VariableAlreadyExists)
            } else {
                Ok(c_type_of(t[k + 3]) + " "@ + t[k + 1] + " = "@ + c_value(
                    join(t.subrange(1, k), " "@),
                ) + ";"@)
            },
        }
    }
}

/// The table after a scalar declaration: the name is added when it succeeds.
pub open spec fn create_variable_table(t: Seq<Seq<char>>, syms: Map<Seq<char>, DescView>) -> Map<
    Seq<char>,
    DescView,
> {
    match (create_variable_result(t, syms), position_of(t, "in"@)) {
        (Ok(_), Some(k)) => syms.insert(t[k + 1], scalar_desc(t[k + 3])),
        _ => syms,
    }
}

fn position_of_in(tokens: &Vec<String>) -> (r: Option<usize>)
    ensures
        match r {
            Some(i) => i < tokens.len() && position_of(texts(tokens@), "in"@) == Some(i as int),
            None => position_of(texts(tokens@), "in"@) is None,
        },
{
    let ghost t = texts(tokens@);
    let mut i: usize = 0;
    assert(t.take(0) =~= Seq::<Seq<char>>::empty());
    while i < tokens.len()
        invariant
            i <= tokens.len(),
            t == texts(tokens@),
            position_of(t.take(i as int), "in"@) is None,
        decreases tokens.len() - i,
    {
        assert(t.take(i + 1).drop_last() =~= t.take(i as int));
        if same_text(tokens[i].as_str(), "in") {
            proof {
                lemma_position_prefix(t, i + 1);
            }
            return Some(i);
        }
        i += 1;
    }
    assert(t.take(tokens.len() as int) =~= t);
    None
}

proof fn lemma_position_prefix(t: Seq<Seq<char>>, n: int)
    requires
        0 < n <= t.len(),
        position_of(t.take(n), "in"@) is Some,
    ensures
        position_of(t, "in"@) == position_of(t.take(n), "in"@),
    decreases t.len(),
{
    if n < t.len() {
        assert(t.drop_last().take(n) =~= t.take(n));
        lemma_position_prefix(t.drop_last(), n);
    } else {
        assert(t.take(n) =~= t);
    }
}

fn c_type(raw: &str) -> (r: &str)
    ensures
        r@ == c_type_of(raw@),
{
    if same_text(raw, "String") {
        "char*"
    } else if same_text(raw, "box") || same_text(raw, "pointer") {
        "int*"
    } else {
        raw
    }
}

fn elem_c_type(raw: &str) -> (r: &str)
    ensures
        r@ == elem_c_type_of(raw@),
{
    if same_text(raw, "ascii") {
        "int"
    } else {
        c_type(raw)
    }
}

/// Compiles `mayihave <value...> in <name> as <type>` and records the name.
pub fn create_variable(tokens: &Vec<String>, symbols: &mut SymbolTable) -> (r: Result<
    String,
    MommyLangError,
>)
    ensures
        res_view(r) == create_variable_result(texts(tokens@), old(symbols)@),
        final(symbols)@ == create_variable_table(texts(tokens@), old(symbols)@),
{
    let ghost t = texts(tokens@);
    if is_missing_decl_args(tokens.len()) {
        return Err(MommyLangError::MissingArguments);
    }
    let in_index = match position_of_in(tokens) {
        Some(i) => i,
        None => {
            return Err(MommyLangError::SyntaxError);
        },
    };
    if in_index == 0 || tokens.len() - in_index <= 3 {
        return Err(MommyLangError::SyntaxError);
    }
    let name_index = in_index + 1;
    let type_index = in_index + 3;
    if is_name_and_index_greater_than_len(name_index, type_index, tokens.len()) {
        return Err(MommyLangError::SyntaxError);
    }
    if !same_text(tokens[in_index + 2].as_str(), "as") {
        return Err(MommyLangError::SyntaxError);
    }
    let name = &tokens[name_index];
    let raw_type = &tokens[type_index];
    assert(t[in_index + 1] == name@ && t[in_index + 3] == raw_type@);
    match ensure_valid_name(name.as_str()) {
        Err(e) => {
            return Err(e);
        },
        Ok(()) => {},
    }
    match ensure_var_new(name.as_str(), symbols) {
        Err(e) => {
            return Err(e);
        },
        Ok(()) => {},
    }
    let mut out = String::from_str(c_type(raw_type.as_str()));
    out.append(" ");
    out.append(name.as_str());
    out.append(" = ");
    let value = join_range(tokens, 1, in_index);
    if same_text(value.as_str(), "null") {
        out.append("NULL");
    } else {
        out.append(value.as_str());
    }
    out.append(";");
    let desc = if same_text(raw_type.as_str(), "box") || same_text(raw_type.as_str(), "pointer") {
        TypeDesc::Pointer
    } else {
        TypeDesc::Scalar(raw_type.clone())
    };
    symbols.insert(name.clone(), desc);
    Ok(out)
}


/// `group <size> in <name> as <type>` (also `ascii ...`): the statement, or the error.
pub open spec fn create_array_result(t: Seq<Seq<char>>, syms: Map<Seq<char>, DescView>) -> Result<
    Seq<char>,
    MommyLangError,
> {
    if t.len() < 6 {
        Err(MommyLangError::MissingArguments)
    } else if t[2] != "in"@ || t[4] != "as"@ {
        Err(MommyLangError::SyntaxError)
    } else if is_reserved(t[3]) {
        Err(MommyLangError::InvalidVariableName)
    } else if syms.contains_key(t[3]) {
        Err(MommyLangError::VariableAlreadyExists)
    } else if invalid_size(t[1]) {
        Err(MommyLangError::SyntaxError)
    } else {
        Ok(elem_c_type_of(t[5]) + " "@ + t[3] + "["@ + t[1] + "] = {0};"@)
    }
}

/// The table after an array declaration.
pub open spec fn create_array_table(t: Seq<Seq<char>>, syms: Map<Seq<char>, DescView>) -> Map<
    Seq<char>,
    DescView,
> {
    if create_array_result(t, syms) is Ok {
        syms.insert(t[3], DescView::Array(t[5], t[1]))
    } else {
        syms
    }
}

/// Compiles `group <size> in <name> as <type>` and records the array.
pub fn create_array(tokens: &Vec<String>, symbols: &mut SymbolTable) -> (r: Result<
    String,
    MommyLangError,
>)
    ensures
        res_view(r) == create_array_result(texts(tokens@), old(symbols)@),
        final(symbols)@ == create_array_table(texts(tokens@), old(symbols)@),
{
    if is_missing_decl_args(tokens.len()) {
        return Err(MommyLangError::MissingArguments);
    }
    let size_str = &tokens[1];
    let name = &tokens[3];
    let raw_type = &tokens[5];
    if is_invalid_array_tokens(tokens) {
        return Err(MommyLangError::SyntaxError);
    }
    match ensure_valid_name(name.as_str()) {
        Err(e) => {
            return Err(e);
        },
        Ok(()) => {},
    }
    match ensure_var_new(name.as_str(), symbols) {
        Err(e) => {
            return Err(e);
        },
        Ok(()) => {},
    }
    if is_invalid_array_size(size_str.as_str()) {
        return Err(MommyLangError::SyntaxError);
    }
    symbols.insert(name.clone(), TypeDesc::Array(raw_type.clone(), size_str.clone()));
    let mut out = String::from_str(elem_c_type(raw_type.as_str()));
    out.append(" ");
    out.append(name.as_str());
    out.append("[");
    out.append(size_str.as_str());
    out.append("] = {0};");
    Ok(out)
}

/// The statement that allocates a heap block and stops the program when no
/// memory is left.
pub open spec fn heap_text(c: Seq<char>, name: Seq<char>, size: Seq<char>) -> Seq<char> {
    c + "* "@ + name + " = ("@ + c + "*)malloc("@ + size + " * sizeof("@ + c + ")); if ("@ + name
        + " == NULL) { printf(\"Mommy Error: No memory for "@ + name
        + "\\n\"); return 1; }"@
}

/// `ibegyou <size> in <name> as <type>`: the statement, or the error.
pub open spec fn allocate_heap_result(t: Seq<Seq<char>>, syms: Map<Seq<char>, DescView>) -> Result<
    Seq<char>,
    MommyLangError,
> {
    if t.len() < 6 {
        Err(MommyLangError::MissingArguments)
    } else if t[2] != "in"@ || t[4] != "as"@ {
        Err(MommyLangError::SyntaxError)
    } else if is_reserved(t[3]) {
        Err(MommyLangError::InvalidVariableName)
    } else if syms.contains_key(t[3]) {
        Err(MommyLangError::VariableAlreadyExists)
    } else {
        Ok(heap_text(elem_c_type_of(t[5]), t[3], t[1]))
    }
}

/// The table after a heap allocation.
pub open spec fn allocate_heap_table(t: Seq<Seq<char>>, syms: Map<Seq<char>, DescView>) -> Map<
    Seq<char>,
    DescView,
> {
    if allocate_heap_result(t, syms) is Ok {
        syms.insert(t[3], DescView::Heap(t[5], t[1]))
    } else {
        syms
    }
}

/// Compiles `ibegyou <size> in <name> as <type>` and records the block.
pub fn allocate_heap(tokens: &Vec<String>, symbols: &mut SymbolTable) -> (r: Result<
    String,
    MommyLangError,
>)
    ensures
        res_view(r) == allocate_heap_result(texts(tokens@), old(symbols)@),
        final(symbols)@ == allocate_heap_table(texts(tokens@), old(symbols)@),
{
    if is_missing_decl_args(tokens.len()) {
        return Err(MommyLangError::MissingArguments);
    }
    let size_val = &tokens[1];
    let name = &tokens[3];
    let raw_type = &tokens[5];
    if is_invalid_array_tokens(tokens) {
        return Err(MommyLangError::SyntaxError);
    }
    match ensure_valid_name(name.as_str()) {
        Err(e) => {
            return Err(e);
        },
        Ok(()) => {},
    }
    match ensure_var_new(name.as_str(), symbols) {
        Err(e) => {
            return Err(e);
        },
        Ok(()) => {},
    }
    let c = elem_c_type(raw_type.as_str());
    let mut out = String::from_str(c);
    out.append("* ");
    out.append(name.as_str());
    out.append(" = (");
    out.append(c);
    out.append("*)malloc(");
    out.append(size_val.as_str());
    out.append(" * sizeof(");
    out.append(c);
    out.append(")); if (");
    out.append(name.as_str());
    out.append(" == NULL) { printf(\"Mommy Error: No memory for ");
    out.append(name.as_str());
    out.append("\\n\"); return 1; }");
    symbols.insert(name.clone(), TypeDesc::Heap(raw_type.clone(), size_val.clone()));
    Ok(out)
}

/// `takeitback <name>`: the statement that frees the block and nulls the
/// pointer, or the error.
pub open spec fn deallocate_heap_result(t: Seq<Seq<char>>, syms: Map<Seq<char>, DescView>) -> Result<
    Seq<char>,
    MommyLangError,
> {
    if t.len() < 2 {
        Err(MommyLangError::MissingArguments)
    } else if !syms.contains_key(t[1]) {
        Err(MommyLangError::UndeclaredVariable)
    } else {
        Ok("free("@ + t[1] + "); "@ + t[1] + " = NULL;"@)
    }
}

/// Compiles `takeitback <name>`. The name stays in the table.
pub fn deallocate_heap(tokens: &Vec<String>, symbols: &mut SymbolTable) -> (r: Result<
    String,
    MommyLangError,
>)
    ensures
        res_view(r) == deallocate_heap_result(texts(tokens@), old(symbols)@),
        final(symbols)@ == old(symbols)@,
{
    if is_invalid_dealloc_tokens(tokens) {
        return Err(MommyLangError::MissingArguments);
    }
    let name = &tokens[1];
    match ensure_var_exists(name.as_str(), symbols) {
        Err(e) => {
            return Err(e);
        },
        Ok(()) => {},
    }
    let mut out = String::from_str("free(");
    out.append(name.as_str());
    out.append("); ");
    out.append(name.as_str());
    out.append(" = NULL;");
    Ok(out)
}


/// `replace <name> in <index> with <value>`.
pub open spec fn array_write_result(t: Seq<Seq<char>>, syms: Map<Seq<char>, DescView>) -> Result<
    Seq<char>,
    MommyLangError,
> {
    if t.len() < 6 || t[4] != "with"@ {
        Err(MommyLangError::SyntaxError)
    } else if !syms.contains_key(t[1]) {
        Err(MommyLangError::UndeclaredVariable)
    } else if type_mismatch(syms[t[1]]) {
        Err(MommyLangError::TypeMismatch)
    } else if index_out_of_bounds(syms[t[1]], t[3]) {
        Err(MommyLangError::AccessViolation)
    } else {
        Ok(t[1] + "["@ + t[3] + "] = "@ + t[5] + ";"@)
    }
}

/// `replace <dest> with <source> in <index>`: both names must be declared.
pub open spec fn array_read_result(t: Seq<Seq<char>>, syms: Map<Seq<char>, DescView>) -> Result<
    Seq<char>,
    MommyLangError,
> {
    if !syms.contains_key(t[1]) || !syms.contains_key(t[3]) {
        Err(MommyLangError::UndeclaredVariable)
    } else if type_mismatch(syms[t[3]]) {
        Err(MommyLangError::TypeMismatch)
    } else if index_out_of_bounds(syms[t[3]], t[5]) {
        Err(MommyLangError::AccessViolation)
    } else {
        Ok(t[1] + " = "@ + t[3] + "["@ + t[5] + "];"@)
    }
}

/// The write through a pointer, guarded against a null pointer.
pub open spec fn deref_write_text(name: Seq<char>, value: Seq<char>) -> Seq<char> {
    "if ("@ + name + " == NULL) { printf(\"Mommy Error: NULL Pointer access on '"@ + name
        + "'\\n\"); return 1; } *"@ + name + " = "@ + value + ";"@
}

/// `replace <name> with <value>`, with `address` or `inside` as an optional
/// last token.
pub open spec fn scalar_assign_result(t: Seq<Seq<char>>, syms: Map<Seq<char>, DescView>) -> Result<
    Seq<char>,
    MommyLangError,
> {
    if t[2] != "with"@ {
        Err(MommyLangError::SyntaxError)
    } else if !syms.contains_key(t[1]) {
        Err(MommyLangError::UndeclaredVariable)
    } else if t.last() == "address"@ {
        if !syms.contains_key(t[3]) {
            Err(MommyLangError::UndeclaredVariable)
        } else {
            Ok(t[1] + " = &"@ + t[3] + ";"@)
        }
    } else if t.last() == "inside"@ {
        if syms[t[1]] is Pointer {
            Ok(deref_write_text(t[1], t[3]))
        } else {
            Ok(t[1] + " = *"@ + t[3] + ";"@)
        }
    } else {
        Ok(t[1] + " = "@ + t[3] + ";"@)
    }
}

/// `replace ...` in any of its shapes, told apart by the third and fifth tokens.
pub open spec fn replace_result(t: Seq<Seq<char>>, syms: Map<Seq<char>, DescView>) -> Result<
    Seq<char>,
    MommyLangError,
> {
    if t.len() < 4 {
        Err(MommyLangError::MissingArguments)
    } else if t[2] == "in"@ {
        array_write_result(t, syms)
    } else if t.len() >= 6 && t[2] == "with"@ && t[4] == "in"@ {
        array_read_result(t, syms)
    } else if t[2] == "with"@ {
        scalar_assign_result(t, syms)
    } else {
        Err(MommyLangError::SyntaxError)
    }
}

fn replace_array_write(tokens: &Vec<String>, symbols: &SymbolTable) -> (r: Result<
    String,
    MommyLangError,
>)
    ensures
        res_view(r) == array_write_result(texts(tokens@), symbols@),
{
    if tokens.len() < 6 || !same_text(tokens[4].as_str(), "with") {
        return Err(MommyLangError::SyntaxError);
    }
    let name = &tokens[1];
    let index = &tokens[3];
    let value = &tokens[5];
    let var_type = match symbols.get(name.as_str()) {
        Some(d) => d,
        None => {
            return Err(MommyLangError::UndeclaredVariable);
        },
    };
    if is_type_mismatch(var_type) {
        return Err(MommyLangError::TypeMismatch);
    }
    if is_accessed_index_invalid(var_type, index.as_str()) {
        return Err(MommyLangError::AccessViolation);
    }
    let mut out = name.clone();
    out.append("[");
    out.append(index.as_str());
    out.append("] = ");
    out.append(value.as_str());
    out.append(";");
    Ok(out)
}

fn replace_array_read(tokens: &Vec<String>, symbols: &SymbolTable) -> (r: Result<
    String,
    MommyLangError,
>)
    requires
        tokens.len() >= 6,
    ensures
        res_view(r) == array_read_result(texts(tokens@), symbols@),
{
    let dest_var = &tokens[1];
    let src_array = &tokens[3];
    let index = &tokens[5];
    match ensure_var_exists(dest_var.as_str(), symbols) {
        Err(e) => {
            return Err(e);
        },
        Ok(()) => {},
    }
    let array_type = match symbols.get(src_array.as_str()) {
        Some(d) => d,
        None => {
            return Err(MommyLangError::UndeclaredVariable);
        },
    };
    if is_type_mismatch(array_type) {
        return Err(MommyLangError::TypeMismatch);
    }
    if is_accessed_index_invalid(array_type, index.as_str()) {
        return Err(MommyLangError::AccessViolation);
    }
    let mut out = dest_var.clone();
    out.append(" = ");
    out.append(src_array.as_str());
    out.append("[");
    out.append(index.as_str());
    out.append("];");
    Ok(out)
}

fn replace_scalar_value(tokens: &Vec<String>, symbols: &SymbolTable) -> (r: Result<
    String,
    MommyLangError,
>)
    requires
        tokens.len() >= 4,
    ensures
        res_view(r) == scalar_assign_result(texts(tokens@), symbols@),
{
    let ghost t = texts(tokens@);
    let name = &tokens[1];
    let value = &tokens[3];
    if is_keyword_with_missing(tokens) {
        return Err(MommyLangError::SyntaxError);
    }
    let var_type = match symbols.get(name.as_str()) {
        Some(d) => d,
        None => {
            return Err(MommyLangError::UndeclaredVariable);
        },
    };
    let last_token = &tokens[tokens.len() - 1];
    assert(last_token@ == t.last());
    if is_replace_pointer(last_token.as_str()) {
        match ensure_var_exists(value.as_str(), symbols) {
            Err(e) => {
                return Err(e);
            },
            Ok(()) => {},
        }
        let mut out = name.clone();
        out.append(" = &");
        out.append(value.as_str());
        out.append(";");
        return Ok(out);
    }
    if is_deref_assignment(last_token.as_str()) {
        if is_type_pointer(var_type) {
            let mut out = String::from_str("if (");
            out.append(name.as_str());
            out.append(" == NULL) { printf(\"Mommy Error: NULL Pointer access on '");
            out.append(name.as_str());
            out.append("'\\n\"); return 1; } *");
            out.append(name.as_str());
            out.append(" = ");
            out.append(value.as_str());
            out.append(";");
            return Ok(out);
        }
        let mut out = name.clone();
        out.append(" = *");
        out.append(value.as_str());
        out.append(";");
        return Ok(out);
    }
    let mut out = name.clone();
    out.append(" = ");
    out.append(value.as_str());
    out.append(";");
    Ok(out)
}

/// Compiles `replace` in its four shapes: scalar, array write, array read and
/// pointer. The table does not change.
pub fn replace(tokens: &Vec<String>, symbols: &mut SymbolTable) -> (r: Result<
    String,
    MommyLangError,
>)
    ensures
        res_view(r) == replace_result(texts(tokens@), old(symbols)@),
        final(symbols)@ == old(symbols)@,
{
    if tokens.len() < 4 {
        return Err(MommyLangError::MissingArguments);
    }
    if same_text(tokens[2].as_str(), "in") {
        return replace_array_write(tokens, symbols);
    }
    if tokens.len() >= 6 && same_text(tokens[2].as_str(), "with") && same_text(
        tokens[4].as_str(),
        "in",
    ) {
        return replace_array_read(tokens, symbols);
    }
    if same_text(tokens[2].as_str(), "with") {
        return replace_scalar_value(tokens, symbols);
    }
    Err(MommyLangError::SyntaxError)
}

} // verus!
