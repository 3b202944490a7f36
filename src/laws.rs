//! Laws of the compiler, proved from the contracts of its functions.
use vstd::prelude::*;
use crate::alu::{calculate_result, is_text_type};
use crate::compiler::{
    op_of, parse_line_result, run_all, transpile_result, transpile_returns, Ctx, TranspileError,
};
use crate::text::source_lines;
use crate::declaration::{
    create_array_result, create_array_table, create_variable_result,
    create_variable_table, position_of, replace_result,
};
use crate::errors::MommyLangError;
use crate::io::{print_with, say_result};
use crate::numbers::{digits_value, is_digit, is_float_text, is_i32_text, is_mantissa, is_number, usize_of};
use crate::symbols::DescView;
use crate::syntax::{syntax_of, MommyLangSyntax, ScopeType};
use crate::text::{is_space, join, trim_of, unquote_end, unquote_of, unquote_start};
use crate::validate::{index_out_of_bounds, invalid_size, is_reserved};

verus! {

proof fn lemma_position_first(t: Seq<Seq<char>>, k: Seq<char>, i: int)
    requires
        0 <= i < t.len(),
        t[i] == k,
        forall|j: int| 0 <= j < i ==> t[j] != k,
    ensures
        position_of(t, k) == Some(i),
    decreases t.len(),
{
    if i < t.len() - 1 {
        lemma_position_first(t.drop_last(), k, i);
    } else {
        lemma_position_absent(t.drop_last(), k);
    }
}

proof fn lemma_position_absent(t: Seq<Seq<char>>, k: Seq<char>)
    requires
        forall|j: int| 0 <= j < t.len() ==> t[j] != k,
    ensures
        position_of(t, k) is None,
    decreases t.len(),
{
    if t.len() > 0 {
        lemma_position_absent(t.drop_last(), k);
    }
}

/// Text with no whitespace at either end is its own trim.
proof fn lemma_trim_plain(s: Seq<char>)
    requires
        s.len() > 0,
        !is_space(s[0]),
        !is_space(s.last()),
    ensures
        trim_of(s) == s,
{
}

/// The value of a one-digit text.
proof fn lemma_one_digit(s: Seq<char>)
    requires
        s.len() == 1,
        is_digit(s[0]),
    ensures
        digits_value(s) == (s[0] as u32 - '0' as u32) as nat,
        usize_of(s) == Some((s[0] as u32 - '0' as u32) as usize),
{
    assert(s.drop_last() =~= Seq::<char>::empty());
    assert(digits_value(s.drop_last()) == 0);
    assert(s.last() == s[0]);
    assert(s[0] != '+');
    assert(crate::numbers::all_digits(s));
}

/// A scalar `int` declaration `mayihave <v> in <n> as int`, with a name that is
/// neither reserved nor declared, emits `int <n> = <v>;`. Declaring the same
/// name again is refused with `VariableAlreadyExists`, and leaves the table as
/// it was.
pub proof fn scalar_declaration_law(v: Seq<char>, n: Seq<char>, syms: Map<Seq<char>, DescView>)
    requires
        v != "in"@,
        v != "null"@,
        !is_reserved(n),
        !syms.contains_key(n),
    ensures
        create_variable_result(seq!["mayihave"@, v, "in"@, n, "as"@, "int"@], syms) == Ok::<
            Seq<char>,
            MommyLangError,
        >("int"@ + " "@ + n + " = "@ + v + ";"@),
        create_variable_result(
            seq!["mayihave"@, v, "in"@, n, "as"@, "int"@],
            create_variable_table(seq!["mayihave"@, v, "in"@, n, "as"@, "int"@], syms),
        ) == Err::<Seq<char>, MommyLangError>(MommyLangError::VariableAlreadyExists),
        create_variable_table(
            seq!["mayihave"@, v, "in"@, n, "as"@, "int"@],
            create_variable_table(seq!["mayihave"@, v, "in"@, n, "as"@, "int"@], syms),
        ) == create_variable_table(seq!["mayihave"@, v, "in"@, n, "as"@, "int"@], syms),
{
    let t = seq!["mayihave"@, v, "in"@, n, "as"@, "int"@];
    reveal_strlit("mayihave");
    reveal_strlit("in");
    reveal_strlit("int");
    reveal_strlit("String");
    reveal_strlit("box");
    reveal_strlit("pointer");
    assert("mayihave"@ != "in"@) by {
        assert("mayihave"@.len() != "in"@.len());
    }
    assert("int"@ != "String"@) by {
        assert("int"@.len() != "String"@.len());
    }
    assert("int"@ != "box"@) by {
        assert("int"@[0] != "box"@[0]);
    }
    assert("int"@ != "pointer"@) by {
        assert("int"@.len() != "pointer"@.len());
    }
    lemma_position_first(t, "in"@, 2);
    assert(t.subrange(1, 2) =~= seq![v]);
    let syms2 = create_variable_table(t, syms);
    assert(syms2.contains_key(n));
    assert(create_variable_result(t, syms2) is Err);
}

/// `divide <x> with 0`, on any declared variable `x` that does not hold text,
/// is refused with `DivideByZero`; `divide <x> with <y>`, where `y` is neither
/// declared nor a number, is refused with `UndeclaredVariable`.
pub proof fn divide_law(x: Seq<char>, y: Seq<char>, c: Ctx)
    requires
        c.symbols.contains_key(x),
        !is_text_type(c.symbols[x]),
    ensures
        parse_line_result(seq!["divide"@, x, "with"@, "0"@], c).0 == Err::<Seq<char>, MommyLangError>(
            MommyLangError::DivideByZero,
        ),
        !c.symbols.contains_key(y) && !is_float_text(y) ==> parse_line_result(
            seq!["divide"@, x, "with"@, y],
            c,
        ).0 == Err::<Seq<char>, MommyLangError>(MommyLangError::UndeclaredVariable),
{
    reveal_strlit("divide");
    reveal_strlit("mayihave");
    reveal_strlit("replace");
    reveal_strlit("add");
    reveal_strlit("0");
    lemma_trim_plain("divide"@);
    assert("divide"@ != "mayihave"@) by {
        assert("divide"@.len() != "mayihave"@.len());
    }
    assert("divide"@ != "replace"@) by {
        assert("divide"@.len() != "replace"@.len());
    }
    assert("divide"@ != "add"@) by {
        assert("divide"@.len() != "add"@.len());
    }
    assert(syntax_of(trim_of("divide"@)) == MommyLangSyntax::Math);
    assert(op_of("divide"@) == Some("/"@));
    let zero = "0"@;
    assert(is_mantissa(zero)) by {
        assert(zero != seq!['.']) by {
            assert(seq!['.'][0] == '.');
        }
    }
    assert(is_float_text(zero)) by {
        assert(is_number(zero));
    }
    assert(calculate_result(x, "/"@, "0"@, c.symbols) == Err::<Seq<char>, MommyLangError>(
        MommyLangError::DivideByZero,
    ));
}

/// After `group 5 in <arr> as int`, with a name that is neither reserved nor
/// declared, `replace <arr> in 5 with 1` is refused with `AccessViolation` (the
/// index equals the size) and `replace <arr> in 4 with 1` emits `<arr>[4] = 1;`.
pub proof fn array_bounds_law(arr: Seq<char>, syms: Map<Seq<char>, DescView>)
    requires
        !is_reserved(arr),
        !syms.contains_key(arr),
    ensures
        create_array_result(seq!["group"@, "5"@, "in"@, arr, "as"@, "int"@], syms) is Ok,
        replace_result(
            seq!["replace"@, arr, "in"@, "5"@, "with"@, "1"@],
            create_array_table(seq!["group"@, "5"@, "in"@, arr, "as"@, "int"@], syms),
        ) == Err::<Seq<char>, MommyLangError>(MommyLangError::AccessViolation),
        replace_result(
            seq!["replace"@, arr, "in"@, "4"@, "with"@, "1"@],
            create_array_table(seq!["group"@, "5"@, "in"@, arr, "as"@, "int"@], syms),
        ) == Ok::<Seq<char>, MommyLangError>(arr + "["@ + "4"@ + "] = "@ + "1"@ + ";"@),
{
    reveal_strlit("5");
    reveal_strlit("4");
    lemma_one_digit("5"@);
    lemma_one_digit("4"@);
    assert(!invalid_size("5"@));
    let t = seq!["group"@, "5"@, "in"@, arr, "as"@, "int"@];
    let syms2 = create_array_table(t, syms);
    assert(syms2[arr] == DescView::Array("int"@, "5"@));
    assert(index_out_of_bounds(syms2[arr], "5"@));
    assert(!index_out_of_bounds(syms2[arr], "4"@));
}

/// `punishme <n>` opens a loop block in any state, so a file that never closes
/// it ends with the stack not empty; `done` on an empty stack is refused with
/// `UnexpectedDone`; and a run that ends without error but with an open block
/// fails with `UnclosedBlock`.
pub proof fn loop_block_law(n: Seq<char>, c: Ctx, s: Seq<char>)
    ensures
        parse_line_result(seq!["punishme"@, n], c).0 is Ok,
        parse_line_result(seq!["punishme"@, n], c).1.scopes == c.scopes.push(ScopeType::Loop),
        c.scopes.len() == 0 ==> parse_line_result(seq!["done"@], c).0 == Err::<
            Seq<char>,
            MommyLangError,
        >(MommyLangError::UnexpectedDone),
        run_all(source_lines(s)).failure is None && run_all(source_lines(s)).ctx.scopes.len() > 0
            ==> transpile_result(s) == Err::<Seq<char>, TranspileError>(
            TranspileError::UnclosedBlock,
        ),
{
    reveal_strlit("punishme");
    reveal_strlit("done");
    lemma_trim_plain("punishme"@);
    lemma_trim_plain("done"@);
    assert(syntax_of("punishme"@) == MommyLangSyntax::LoopStartBasic) by {
        reveal_strlit("mayihave");
        reveal_strlit("replace");
        reveal_strlit("add");
        reveal_strlit("divide");
        reveal_strlit("subtract");
        reveal_strlit("multiply");
        reveal_strlit("mod");
        reveal_strlit("say");
        assert("punishme"@ != "mayihave"@ && "punishme"@ != "replace"@ && "punishme"@ != "add"@
            && "punishme"@ != "divide"@ && "punishme"@ != "subtract"@ && "punishme"@
            != "multiply"@ && "punishme"@ != "mod"@ && "punishme"@ != "say"@) by {
            assert("punishme"@[0] != "mayihave"@[0]);
            assert("punishme"@[0] != "replace"@[0]);
            assert("punishme"@[0] != "add"@[0]);
            assert("punishme"@[0] != "divide"@[0]);
            assert("punishme"@[0] != "subtract"@[0]);
            assert("punishme"@[0] != "multiply"@[0]);
            assert("punishme"@[0] != "mod"@[0]);
            assert("punishme"@[0] != "say"@[0]);
        }
    }
    assert(syntax_of("done"@) == MommyLangSyntax::LoopEnd) by {
        reveal_strlit("mayihave");
        reveal_strlit("replace");
        reveal_strlit("add");
        reveal_strlit("divide");
        reveal_strlit("subtract");
        reveal_strlit("multiply");
        reveal_strlit("mod");
        reveal_strlit("say");
        reveal_strlit("punishme");
        assert("done"@ != "mayihave"@ && "done"@ != "replace"@ && "done"@ != "add"@ && "done"@
            != "divide"@ && "done"@ != "subtract"@ && "done"@ != "multiply"@ && "done"@
            != "mod"@ && "done"@ != "say"@ && "done"@ != "punishme"@) by {
            assert("done"@[0] != "mayihave"@[0]);
            assert("done"@[0] != "replace"@[0]);
            assert("done"@[0] != "add"@[0]);
            assert("done"@.len() != "divide"@.len());
            assert("done"@[0] != "subtract"@[0]);
            assert("done"@[0] != "multiply"@[0]);
            assert("done"@[0] != "mod"@[0]);
            assert("done"@[0] != "say"@[0]);
            assert("done"@[0] != "punishme"@[0]);
        }
    }
}


/// `satisfied` in a state with no loop open anywhere on the stack is refused
/// with `UnexpectedSatisfied`; `or` with an empty stack or a loop on top is
/// refused with `OrphanElse`; `or` with a condition on top emits `}else {`.
pub proof fn block_structure_law(c: Ctx)
    ensures
        !c.scopes.contains(ScopeType::Loop) ==> parse_line_result(seq!["satisfied"@], c).0
            == Err::<Seq<char>, MommyLangError>(MommyLangError::UnexpectedSatisfied),
        c.scopes.len() == 0 || c.scopes.last() == ScopeType::Loop ==> parse_line_result(
            seq!["or"@],
            c,
        ).0 == Err::<Seq<char>, MommyLangError>(MommyLangError::OrphanElse),
        c.scopes.len() > 0 && c.scopes.last() == ScopeType::Condition ==> parse_line_result(
            seq!["or"@],
            c,
        ).0 == Ok::<Seq<char>, MommyLangError>("}else {"@),
{
    reveal_strlit("satisfied");
    reveal_strlit("or");
    reveal_strlit("mayihave");
    reveal_strlit("replace");
    reveal_strlit("add");
    reveal_strlit("divide");
    reveal_strlit("subtract");
    reveal_strlit("multiply");
    reveal_strlit("mod");
    reveal_strlit("say");
    reveal_strlit("punishme");
    reveal_strlit("done");
    reveal_strlit("ask");
    lemma_trim_plain("satisfied"@);
    lemma_trim_plain("or"@);
    assert(syntax_of("satisfied"@) == MommyLangSyntax::LoopBreak) by {
        assert("satisfied"@.len() != "mayihave"@.len());
        assert("satisfied"@.len() != "replace"@.len());
        assert("satisfied"@.len() != "add"@.len());
        assert("satisfied"@.len() != "divide"@.len());
        assert("satisfied"@.len() != "subtract"@.len());
        assert("satisfied"@.len() != "multiply"@.len());
        assert("satisfied"@.len() != "mod"@.len());
        assert("satisfied"@.len() != "say"@.len());
        assert("satisfied"@.len() != "punishme"@.len());
        assert("satisfied"@.len() != "done"@.len());
    }
    assert(syntax_of("or"@) == MommyLangSyntax::ConditionElse) by {
        assert("or"@.len() != "mayihave"@.len());
        assert("or"@.len() != "replace"@.len());
        assert("or"@.len() != "add"@.len());
        assert("or"@.len() != "divide"@.len());
        assert("or"@.len() != "subtract"@.len());
        assert("or"@.len() != "multiply"@.len());
        assert("or"@.len() != "mod"@.len());
        assert("or"@.len() != "say"@.len());
        assert("or"@.len() != "punishme"@.len());
        assert("or"@.len() != "done"@.len());
        assert("or"@.len() != "satisfied"@.len());
        assert("or"@.len() != "ask"@.len());
    }
}

/// Compiling the same source twice, each time from a fresh symbol table and
/// scope stack, gives the same outcome: both succeed with the same text, or
/// both fail with the same error.
pub proof fn transpile_deterministic_law(
    s: Seq<char>,
    first: Result<String, TranspileError>,
    second: Result<String, TranspileError>,
)
    requires
        s.len() < usize::MAX,
        transpile_returns(s, first),
        transpile_returns(s, second),
    ensures
        first is Ok <==> second is Ok,
        first is Ok ==> first->Ok_0@ == second->Ok_0@,
        first is Err ==> first == second,
{
}

/// `say "Hello"` prints the text `Hello` without its quotes; `say <x>` on a
/// variable declared `float` prints it with the floating-point format.
pub proof fn say_law(x: Seq<char>, syms: Map<Seq<char>, DescView>)
    ensures
        say_result(seq!["say"@, "\"Hello\""@], syms) == Ok::<Seq<char>, MommyLangError>(
            "printf(\""@ + "Hello"@ + "\\n\");"@,
        ),
        syms.contains_key(x) && syms[x] == DescView::Scalar("float"@) && x.len() > 0 && x[0] != '"'
            && !is_i32_text(x) && !is_float_text(x) ==> say_result(seq!["say"@, x], syms) == Ok::<
            Seq<char>,
            MommyLangError,
        >(print_with("%f"@, x)),
{
    reveal_strlit("\"Hello\"");
    reveal_strlit("Hello");
    let q = "\"Hello\""@;
    let t = seq!["say"@, q];
    assert(t.skip(1) =~= seq![q]);
    assert(join(t.skip(1), " "@) == q);
    assert(q.drop_first()[0] == 'H');
    assert(unquote_start(q.drop_first()) == q.drop_first());
    assert(unquote_start(q) == q.drop_first());
    let inner = q.drop_first();
    assert(inner.last() == '"');
    assert(inner.drop_last() =~= "Hello"@);
    assert(unquote_end("Hello"@) == "Hello"@);
    assert(unquote_end(inner) == "Hello"@);
    assert(unquote_of(q) == "Hello"@);
}


/// Compiling a line never removes or retypes a declared name: the table
/// before the line is contained in the table after it.
pub proof fn symbols_only_grow_law(t: Seq<Seq<char>>, c: Ctx)
    ensures
        c.symbols.submap_of(parse_line_result(t, c).1.symbols),
{
    let after = parse_line_result(t, c).1.symbols;
    assert forall|k: Seq<char>| #[trigger] c.symbols.contains_key(k) implies after.contains_key(k)
        && after[k] == c.symbols[k] by {
        if t.len() > 0 {
            match position_of(t, "in"@) {
                Some(p) => {
                    if create_variable_result(t, c.symbols) is Ok {
                        assert(!c.symbols.contains_key(t[p + 1]));
                    }
                },
                None => {},
            }
            if create_array_result(t, c.symbols) is Ok {
                assert(!c.symbols.contains_key(t[3]));
            }
            if crate::declaration::allocate_heap_result(t, c.symbols) is Ok {
                assert(!c.symbols.contains_key(t[3]));
            }
        }
    }
}


/// No header line appears twice.
pub open spec fn no_repeats(s: Seq<Seq<char>>) -> bool {
    forall|i: int, j: int| 0 <= i < j < s.len() ==> s[i] != s[j]
}

/// The header lines stay free of repeats whatever line is compiled, and only
/// grow: a header asked for again is not added a second time.
pub proof fn headers_stay_distinct_law(t: Seq<Seq<char>>, c: Ctx)
    requires
        no_repeats(c.includes),
    ensures
        no_repeats(parse_line_result(t, c).1.includes),
        c.includes.is_prefix_of(parse_line_result(t, c).1.includes),
{
    let after = parse_line_result(t, c).1.includes;
    if after != c.includes {
        let line = after.last();
        assert(after == c.includes.push(line));
        assert(!c.includes.contains(line));
        assert forall|i: int, j: int| 0 <= i < j < after.len() implies after[i] != after[j] by {
            if j == after.len() - 1 {
                assert(after[i] == c.includes[i]);
            }
        }
        assert(c.includes.is_prefix_of(after)) by {
            assert(after.subrange(0, c.includes.len() as int) =~= c.includes);
        }
    } else {
        assert(c.includes.is_prefix_of(after)) by {
            assert(after.subrange(0, c.includes.len() as int) =~= c.includes);
        }
    }
}

} // verus!
