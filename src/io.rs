//! Output (`say`) and input (`listen`).
use vstd::prelude::*;
use vstd::string::*;
use crate::errors::{res_view, MommyLangError};
use crate::numbers::{decimal_of, decimal_text, is_float_text, is_i32_text, parse_usize, parses_as_float, parses_as_i32, usize_of};
use crate::symbols::{DescView, SymbolTable, TypeDesc};
use crate::text::{join, join_from, same_text, texts, unquote, unquote_of};
use crate::validate::{
    index_out_of_bounds, is_accessed_index_invalid, is_kw_all, is_missing_say_args,
    is_type_mismatch, select_inner_type, type_mismatch,
};

verus! {

/// `printf("<format>\n", <arg>);`
pub open spec fn print_with(format: Seq<char>, arg: Seq<char>) -> Seq<char> {
    "printf(\""@ + format + "\\n\", "@ + arg + ");"@
}

/// The format of one element, chosen by the element type.
pub open spec fn element_format(inner: Seq<char>) -> Seq<char> {
    if inner == "float"@ {
        "%f"@
    } else if inner == "char*"@ || inner == "String"@ {
        "%s"@
    } else if inner == "ascii"@ {
        "%c"@
    } else {
        "%d"@
    }
}

/// The format used inside a loop over every element.
pub open spec fn all_format(inner: Seq<char>) -> Seq<char> {
    if inner == "ascii"@ {
        "%c"@
    } else if inner == "float"@ {
        "%f "@
    } else if inner == "char*"@ || inner == "String"@ {
        "%s "@
    } else {
        "%d "@
    }
}

/// The bound of a loop over every element: the size, in decimal where it is
/// a number, else as written (a variable that holds it at run time).
pub open spec fn loop_bound(d: DescView) -> Seq<char> {
    match usize_of(d.size_text()) {
        Some(n) => decimal_of(n as nat),
        None => d.size_text(),
    }
}

/// A loop that prints all `size` elements, then a line break.
pub open spec fn print_all_text(inner: Seq<char>, size: Seq<char>, name: Seq<char>) -> Seq<char> {
    "for (int i = 0; i < "@ + size + "; i++) { printf(\""@ + all_format(inner) + "\", "@ + name
        + "[i]); } printf(\"\\n\");"@
}

/// Prints a pointer's target, or `NULL`.
pub open spec fn print_pointer_text(name: Seq<char>) -> Seq<char> {
    "if ("@ + name + " == NULL) { printf(\"NULL\\n\"); } else { printf(\"%d\\n\", *"@ + name
        + "); }"@
}

/// `say <name> in <index>`. The index `?` prints every element of an array or
/// heap block; a literal index is refused only when the size is a literal too
/// and the index is not below it.
pub open spec fn say_array_result(name: Seq<char>, index: Seq<char>, syms: Map<Seq<char>, DescView>) -> Result<
    Seq<char>,
    MommyLangError,
> {
    if !syms.contains_key(name) {
        Err(MommyLangError::UndeclaredVariable)
    } else if type_mismatch(syms[name]) {
        Err(MommyLangError::TypeMismatch)
    } else if index == "?"@ {
        if syms[name].is_sized() {
            Ok(print_all_text(syms[name].inner(), loop_bound(syms[name]), name))
        } else {
            Err(MommyLangError::TypeMismatch)
        }
    } else if usize_of(index) is None && !syms.contains_key(index) {
        Err(MommyLangError::SyntaxError)
    } else if index_out_of_bounds(syms[name], index) {
        Err(MommyLangError::AccessViolation)
    } else {
        Ok(print_with(element_format(syms[name].inner()), name + "["@ + index + "]"@))
    }
}

/// `say <value>`: a number literal, or a variable printed by its type.
pub open spec fn say_scalar_result(name: Seq<char>, syms: Map<Seq<char>, DescView>) -> Result<
    Seq<char>,
    MommyLangError,
> {
    if is_i32_text(name) {
        Ok(print_with("%d"@, name))
    } else if is_float_text(name) {
        Ok(print_with("%f"@, name))
    } else if !syms.contains_key(name) {
        Err(MommyLangError::UndeclaredVariable)
    } else if syms[name] == DescView::Scalar("float"@) {
        Ok(print_with("%f"@, name))
    } else if syms[name] == DescView::Scalar("String"@) || syms[name] == DescView::Scalar(
        "char*"@,
    ) {
        Ok(print_with("%s"@, name))
    } else if syms[name] == DescView::Scalar("ascii"@) {
        Ok(print_with("%c"@, name))
    } else if syms[name] is Pointer {
        Ok(print_pointer_text(name))
    } else {
        Ok(print_with("%d"@, name))
    }
}

/// `say ...` in its three shapes: a quoted literal, an indexed element, a
/// scalar.
pub open spec fn say_result(t: Seq<Seq<char>>, syms: Map<Seq<char>, DescView>) -> Result<
    Seq<char>,
    MommyLangError,
> {
    if t.len() < 2 {
        Err(MommyLangError::MissingArguments)
    } else if t[1].len() > 0 && t[1][0] == '"' {
        Ok("printf(\""@ + unquote_of(join(t.skip(1), " "@)) + "\\n\");"@)
    } else if t.len() >= 4 && t[2] == "in"@ {
        say_array_result(t[1], t[3], syms)
    } else {
        say_scalar_result(t[1], syms)
    }
}

fn say_literal(tokens: &Vec<String>) -> (r: String)
    requires
        tokens.len() >= 2,
    ensures
        r@ == "printf(\""@ + unquote_of(join(texts(tokens@).skip(1), " "@)) + "\\n\");"@,
{
    let full_msg = join_from(tokens, 1);
    let clean_msg = unquote(full_msg.as_str());
    let mut out = String::from_str("printf(\"");
    out.append(clean_msg);
    out.append("\\n\");");
    out
}

fn printf_with(format: &str, arg: &str) -> (r: String)
    ensures
        r@ == print_with(format@, arg@),
{
    let mut out = String::from_str("printf(\"");
    out.append(format);
    out.append("\\n\", ");
    out.append(arg);
    out.append(");");
    out
}

fn say_array(tokens: &Vec<String>, symbols: &SymbolTable) -> (r: Result<String, MommyLangError>)
    requires
        tokens.len() >= 4,
    ensures
        res_view(r) == say_array_result(tokens@[1]@, tokens@[3]@, symbols@),
{
    let name = &tokens[1];
    let index = &tokens[3];
    let array_type = match symbols.get(name.as_str()) {
        Some(d) => d,
        None => {
            return Err(MommyLangError::UndeclaredVariable);
        },
    };
    if is_type_mismatch(array_type) {
        return Err(MommyLangError::TypeMismatch);
    }
    let inner_type = select_inner_type(array_type);
    if is_kw_all(index.as_str()) {
        let size = match array_type {
            TypeDesc::Array(_, n) => n,
            TypeDesc::Heap(_, n) => n,
            _ => {
                return Err(MommyLangError::TypeMismatch);
            },
        };
        let bound = match parse_usize(size.as_str()) {
            Some(n) => decimal_text(n),
            None => size.clone(),
        };
        let format = if same_text(inner_type, "ascii") {
            "%c"
        } else if same_text(inner_type, "float") {
            "%f "
        } else if same_text(inner_type, "char*") || same_text(inner_type, "String") {
            "%s "
        } else {
            "%d "
        };
        let mut out = String::from_str("for (int i = 0; i < ");
        out.append(bound.as_str());
        out.append("; i++) { printf(\"");
        out.append(format);
        out.append("\", ");
        out.append(name.as_str());
        out.append("[i]); } printf(\"\\n\");");
        return Ok(out);
    }
    if parse_usize(index.as_str()).is_none() && !symbols.contains(index.as_str()) {
        return Err(MommyLangError::SyntaxError);
    }
    if is_accessed_index_invalid(array_type, index.as_str()) {
        return Err(MommyLangError::AccessViolation);
    }
    let format = if same_text(inner_type, "float") {
        "%f"
    } else if same_text(inner_type, "char*") || same_text(inner_type, "String") {
        "%s"
    } else if same_text(inner_type, "ascii") {
        "%c"
    } else {
        "%d"
    };
    let mut element = name.clone();
    element.append("[");
    element.append(index.as_str());
    element.append("]");
    Ok(printf_with(format, element.as_str()))
}

fn say_scalar(tokens: &Vec<String>, symbols: &SymbolTable) -> (r: Result<String, MommyLangError>)
    requires
        tokens.len() >= 2,
    ensures
        res_view(r) == say_scalar_result(tokens@[1]@, symbols@),
{
    let name = tokens[1].as_str();
    if parses_as_i32(name) {
        return Ok(printf_with("%d", name));
    }
    if parses_as_float(name) {
        return Ok(printf_with("%f", name));
    }
    let var_type = match symbols.get(name) {
        Some(d) => d,
        None => {
            return Err(MommyLangError::UndeclaredVariable);
        },
    };
    match var_type {
        TypeDesc::Scalar(b) => {
            if same_text(b.as_str(), "float") {
                Ok(printf_with("%f", name))
            } else if same_text(b.as_str(), "String") || same_text(b.as_str(), "char*") {
                Ok(printf_with("%s", name))
            } else if same_text(b.as_str(), "ascii") {
                Ok(printf_with("%c", name))
            } else {
                Ok(printf_with("%d", name))
            }
        },
        TypeDesc::Pointer => {
            let mut out = String::from_str("if (");
            out.append(name);
            out.append(" == NULL) { printf(\"NULL\\n\"); } else { printf(\"%d\\n\", *");
            out.append(name);
            out.append("); }");
            Ok(out)
        },
        _ => Ok(printf_with("%d", name)),
    }
}

/// Compiles `say`: a quoted literal is printed as text (quotes removed), an
/// indexed element or a scalar with the format of its type.
pub fn say(tokens: &Vec<String>, symbols: &SymbolTable) -> (r: Result<String, MommyLangError>)
    ensures
        res_view(r) == say_result(texts(tokens@), symbols@),
{
    if is_missing_say_args(tokens.len()) {
        return Err(MommyLangError::MissingArguments);
    }
    let message = tokens[1].as_str();
    assert(texts(tokens@)[1] == message@);
    let starts_quoted = if message.unicode_len() > 0 {
        message.get_char(0) == '"'
    } else {
        false
    };
    if starts_quoted {
        return Ok(say_literal(tokens));
    }
    if tokens.len() >= 4 && same_text(tokens[2].as_str(), "in") {
        return say_array(tokens, symbols);
    }
    say_scalar(tokens, symbols)
}


/// Reads a number into `name` through a small line buffer; `convert` is
/// `atoi` or `atof`.
pub open spec fn read_number_text(name: Seq<char>, convert: Seq<char>) -> Seq<char> {
    "{ char _mommy_buf[64]; if(fgets(_mommy_buf, 64, stdin)) { "@ + name + " = "@ + convert
        + "(_mommy_buf); } }"@
}

/// Reads a line of at most `size` bytes into a text buffer and cuts the line
/// break.
pub open spec fn read_text_text(name: Seq<char>, size: Seq<char>) -> Seq<char> {
    "fgets("@ + name + ", "@ + size + ", stdin); "@ + name + "[strcspn("@ + name
        + ", \"\\n\")] = 0;"@
}

/// Reads a line into an array of character codes, zero-filling after its end.
pub open spec fn read_ascii_text(name: Seq<char>, size: Seq<char>) -> Seq<char> {
    "{ char _temp_ascii["@ + size + "]; if(fgets(_temp_ascii, "@ + size
        + ", stdin)) { for(int i=0; i<"@ + size
        + "; i++) { if(_temp_ascii[i] == '\\0' || _temp_ascii[i] == '\\n') { "@ + name
        + "[i] = 0; for(int j=i+1; j<"@ + size + "; j++) { "@ + name + "[j] = 0; } break; } "@
        + name + "[i] = (int)_temp_ascii[i]; } } }"@
}

/// The buffer size of `listen`: the `upto` operand, else the declared size,
/// else 128.
pub open spec fn listen_size(t: Seq<Seq<char>>, d: DescView) -> Seq<char> {
    if t.len() >= 4 && t[2] == "upto"@ {
        t[3]
    } else if d.is_sized() {
        d.size_text()
    } else {
        "128"@
    }
}

/// A variable that `listen` reads as text: a `String` or `char*` scalar, or an
/// array or heap block of them.
pub open spec fn reads_text(d: DescView) -> bool {
    d == DescView::Scalar("String"@) || d == DescView::Scalar("char*"@) || (d.is_sized() && (
    d.inner() == "String"@ || d.inner() == "char*"@))
}

/// `listen <name> [upto <size>]`: the statement chosen by the kind of the
/// variable and its element type, or the error.
pub open spec fn listen_result(t: Seq<Seq<char>>, syms: Map<Seq<char>, DescView>) -> Result<
    Seq<char>,
    MommyLangError,
> {
    if t.len() < 2 {
        Err(MommyLangError::MissingArguments)
    } else if !syms.contains_key(t[1]) {
        Err(MommyLangError::UndeclaredVariable)
    } else {
        let d = syms[t[1]];
        if d == DescView::Scalar("int"@) {
            Ok(read_number_text(t[1], "atoi"@))
        } else if d == DescView::Scalar("float"@) {
            Ok(read_number_text(t[1], "atof"@))
        } else if reads_text(d) {
            Ok(read_text_text(t[1], listen_size(t, d)))
        } else if d.is_sized() && d.inner() == "ascii"@ {
            Ok(read_ascii_text(t[1], listen_size(t, d)))
        } else {
            Err(MommyLangError::TypeMismatch)
        }
    }
}

fn get_size_from_type(tokens: &Vec<String>, var_type: &TypeDesc) -> (r: String)
    ensures
        r@ == listen_size(texts(tokens@), var_type@),
{
    if tokens.len() >= 4 && same_text(tokens[2].as_str(), "upto") {
        return tokens[3].clone();
    }
    match var_type {
        TypeDesc::Array(_, n) => n.clone(),
        TypeDesc::Heap(_, n) => n.clone(),
        _ => String::from_str("128"),
    }
}

/// Compiles `listen <name> [upto <size>]`, which reads one line of input into
/// a declared variable.
pub fn listen(tokens: &Vec<String>, symbols: &SymbolTable) -> (r: Result<String, MommyLangError>)
    ensures
        res_view(r) == listen_result(texts(tokens@), symbols@),
{
    if is_missing_say_args(tokens.len()) {
        return Err(MommyLangError::MissingArguments);
    }
    let name = tokens[1].as_str();
    let var_type = match symbols.get(name) {
        Some(d) => d,
        None => {
            return Err(MommyLangError::UndeclaredVariable);
        },
    };
    let buffer_size = get_size_from_type(tokens, var_type);
    let size = buffer_size.as_str();
    let (scalar, base) = match var_type {
        TypeDesc::Scalar(b) => (true, b.as_str()),
        TypeDesc::Array(b, _) => (false, b.as_str()),
        TypeDesc::Heap(b, _) => (false, b.as_str()),
        TypeDesc::Pointer => {
            return Err(MommyLangError::TypeMismatch);
        },
    };
    if scalar && (same_text(base, "int") || same_text(base, "float")) {
        let mut out = String::from_str("{ char _mommy_buf[64]; if(fgets(_mommy_buf, 64, stdin)) { ");
        out.append(name);
        out.append(" = ");
        out.append(if same_text(base, "int") { "atoi" } else { "atof" });
        out.append("(_mommy_buf); } }");
        return Ok(out);
    }
    if same_text(base, "String") || same_text(base, "char*") {
        let mut out = String::from_str("fgets(");
        out.append(name);
        out.append(", ");
        out.append(size);
        out.append(", stdin); ");
        out.append(name);
        out.append("[strcspn(");
        out.append(name);
        out.append(", \"\\n\")] = 0;");
        return Ok(out);
    }
    if !scalar && same_text(base, "ascii") {
        let mut out = String::from_str("{ char _temp_ascii[");
        out.append(size);
        out.append("]; if(fgets(_temp_ascii, ");
        out.append(size);
        out.append(", stdin)) { for(int i=0; i<");
        out.append(size);
        out.append("; i++) { if(_temp_ascii[i] == '\\0' || _temp_ascii[i] == '\\n') { ");
        out.append(name);
        out.append("[i] = 0; for(int j=i+1; j<");
        out.append(size);
        out.append("; j++) { ");
        out.append(name);
        out.append("[j] = 0; } break; } ");
        out.append(name);
        out.append("[i] = (int)_temp_ascii[i]; } } }");
        return Ok(out);
    }
    Err(MommyLangError::TypeMismatch)
}

} // verus!
