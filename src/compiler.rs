//! The pipeline: each line is trimmed, tokenized, classified and compiled
//! against one symbol table and one scope stack; the first error stops the
//! run; at the end every block must be closed and the output is assembled.
use vstd::prelude::*;
use vstd::string::*;
use crate::alu::{calculate_result, calculate_two};
use crate::declaration::{
    allocate_heap, allocate_heap_result, allocate_heap_table, create_array, create_array_result,
    create_array_table, create_variable, create_variable_result, create_variable_table,
    deallocate_heap, deallocate_heap_result, replace, replace_result,
};
use crate::errors::{res_view, MommyLangError};
use crate::flow::{ask, ask_result, done, for_loop, or, satisfied, while_loop};
use crate::io::{listen, listen_result, say, say_result};
use crate::package::{add_package, package_result};
use crate::symbols::{DescView, SymbolTable};
use crate::syntax::{syntax_of, MommyLangSyntax, ScopeType};
use crate::numbers::{decimal_of, decimal_text};
use crate::lexer::{insert_token, tokens_of};
use crate::text::{chars_of, join, line_scan, same_text, source_lines, texts, trim, trim_of};

verus! {

/// What one compilation has gathered so far.
pub struct Ctx {
    pub symbols: Map<Seq<char>, DescView>,
    pub scopes: Seq<ScopeType>,
    pub includes: Seq<Seq<char>>,
}

/// The state of one compilation: symbol table, scope stack and the header
/// lines asked for, without repeats, in the order first asked.
pub struct Compilation {
    pub symbols: SymbolTable,
    pub scopes: Vec<ScopeType>,
    pub includes: Vec<String>,
}

impl View for Compilation {
    type V = Ctx;

    open spec fn view(&self) -> Ctx {
        Ctx { symbols: self.symbols@, scopes: self.scopes@, includes: texts(self.includes@) }
    }
}

impl Compilation {
    /// An empty table, an empty stack, no includes.
    pub fn new() -> (r: Compilation)
        ensures
            r@ == initial_ctx(),
    {
        let r = Compilation { symbols: SymbolTable::new(), scopes: Vec::new(), includes: Vec::new() };
        assert(texts(r.includes@) =~= Seq::<Seq<char>>::empty());
        r
    }
}

pub open spec fn initial_ctx() -> Ctx {
    Ctx { symbols: Map::empty(), scopes: Seq::empty(), includes: Seq::empty() }
}

/// The operator that an arithmetic keyword names.
pub open spec fn op_of(k: Seq<char>) -> Option<Seq<char>> {
    if k == "add"@ {
        Some("+"@)
    } else if k == "divide"@ {
        Some("/"@)
    } else if k == "subtract"@ {
        Some("-"@)
    } else if k == "multiply"@ {
        Some("*"@)
    } else if k == "mod"@ {
        Some("%"@)
    } else {
        None
    }
}

pub open spec fn with_symbols(c: Ctx, symbols: Map<Seq<char>, DescView>) -> Ctx {
    Ctx { symbols, scopes: c.scopes, includes: c.includes }
}

pub open spec fn with_scopes(c: Ctx, scopes: Seq<ScopeType>) -> Ctx {
    Ctx { symbols: c.symbols, scopes, includes: c.includes }
}

/// The header list after asking for `line`: added unless empty or present.
pub open spec fn add_include(includes: Seq<Seq<char>>, line: Seq<char>) -> Seq<Seq<char>> {
    if line.len() > 0 && !includes.contains(line) {
        includes.push(line)
    } else {
        includes
    }
}

/// One line's tokens compiled against the state: the emitted text or the
/// error, and the state after it.
pub open spec fn parse_line_result(t: Seq<Seq<char>>, c: Ctx) -> (Result<Seq<char>, MommyLangError>, Ctx) {
    if t.len() == 0 {
        (Ok(Seq::empty()), c)
    } else {
        match syntax_of(trim_of(t[0])) {
            MommyLangSyntax::Declaration => (
                create_variable_result(t, c.symbols),
                with_symbols(c, create_variable_table(t, c.symbols)),
            ),
            MommyLangSyntax::Assignment => (replace_result(t, c.symbols), c),
            MommyLangSyntax::Array | MommyLangSyntax::String => (
                create_array_result(t, c.symbols),
                with_symbols(c, create_array_table(t, c.symbols)),
            ),
            MommyLangSyntax::Malloc => (
                allocate_heap_result(t, c.symbols),
                with_symbols(c, allocate_heap_table(t, c.symbols)),
            ),
            MommyLangSyntax::FreeMalloc => (deallocate_heap_result(t, c.symbols), c),
            MommyLangSyntax::Math => if t.len() < 4 {
                (Err(MommyLangError::MissingArguments), c)
            } else {
                match op_of(t[0]) {
                    None => (Err(MommyLangError::SyntaxError), c),
                    Some(op) => (calculate_result(t[1], op, t[3], c.symbols), c),
                }
            },
            MommyLangSyntax::IO => (say_result(t, c.symbols), c),
            MommyLangSyntax::ReadInput => (listen_result(t, c.symbols), c),
            MommyLangSyntax::LoopStartBasic => if t.len() < 2 {
                (Err(MommyLangError::MissingArguments), c)
            } else {
                (
                    Ok("for (int i = 0; i < "@ + t[1] + "; i++) {"@),
                    with_scopes(c, c.scopes.push(ScopeType::Loop)),
                )
            },
            MommyLangSyntax::LoopEnd => if c.scopes.len() == 0 {
                (Err(MommyLangError::UnexpectedDone), c)
            } else {
                (Ok("}"@), with_scopes(c, c.scopes.drop_last()))
            },
            MommyLangSyntax::LoopBreak => if c.scopes.contains(ScopeType::Loop) {
                (Ok("break;"@), c)
            } else {
                (Err(MommyLangError::UnexpectedSatisfied), c)
            },
            MommyLangSyntax::LoopStartCondition => if t.len() < 2 {
                (Err(MommyLangError::MissingArguments), c)
            } else {
                (
                    Ok("while ("@ + join(t.skip(1), " "@) + ") {"@),
                    with_scopes(c, c.scopes.push(ScopeType::Loop)),
                )
            },
            MommyLangSyntax::Condition => (
                ask_result(t),
                with_scopes(c, c.scopes.push(ScopeType::Condition)),
            ),
            MommyLangSyntax::ConditionElse => if c.scopes.len() == 0 || c.scopes.last()
                == ScopeType::Loop {
                (Err(MommyLangError::OrphanElse), c)
            } else if c.scopes.last() == ScopeType::Condition {
                (Ok("}else {"@), c)
            } else {
                (Err(MommyLangError::SyntaxError), c)
            },
            MommyLangSyntax::ProgramEnd => (Ok("return 0;"@), c),
            MommyLangSyntax::IncludeLib => if t.len() < 2 {
                (Err(MommyLangError::MissingArguments), c)
            } else {
                match package_result(t[1]) {
                    Err(e) => (Err(e), c),
                    Ok(line) => (
                        Ok(Seq::empty()),
                        Ctx {
                            symbols: c.symbols,
                            scopes: c.scopes,
                            includes: add_include(c.includes, line),
                        },
                    ),
                }
            },
            MommyLangSyntax::Unknown => (Err(MommyLangError::SyntaxError), c),
        }
    }
}

fn has_loop(scopes: &Vec<ScopeType>) -> (r: bool)
    ensures
        r == scopes@.contains(ScopeType::Loop),
{
    let mut i: usize = 0;
    while i < scopes.len()
        invariant
            i <= scopes.len(),
            forall|j: int| 0 <= j < i ==> scopes@[j] != ScopeType::Loop,
        decreases scopes.len() - i,
    {
        if scopes[i] == ScopeType::Loop {
            return true;
        }
        i += 1;
    }
    false
}

fn has_text(items: &Vec<String>, line: &String) -> (r: bool)
    ensures
        r == texts(items@).contains(line@),
{
    let mut i: usize = 0;
    while i < items.len()
        invariant
            i <= items.len(),
            forall|j: int| 0 <= j < i ==> texts(items@)[j] != line@,
        decreases items.len() - i,
    {
        if items[i] == *line {
            assert(texts(items@)[i as int] == line@);
            return true;
        }
        i += 1;
    }
    false
}

fn math_operator(keyword: &str) -> (r: Option<&'static str>)
    ensures
        match r {
            Some(op) => op_of(keyword@) == Some(op@),
            None => op_of(keyword@) is None,
        },
{
    if same_text(keyword, "add") {
        Some("+")
    } else if same_text(keyword, "divide") {
        Some("/")
    } else if same_text(keyword, "subtract") {
        Some("-")
    } else if same_text(keyword, "multiply") {
        Some("*")
    } else if same_text(keyword, "mod") {
        Some("%")
    } else {
        None
    }
}

/// Compiles the tokens of one line against the state of the compilation.
pub fn parse_line(tokens: &Vec<String>, state: &mut Compilation) -> (r: Result<
    String,
    MommyLangError,
>)
    ensures
        (res_view(r), final(state)@) == parse_line_result(texts(tokens@), old(state)@),
{
    if tokens.len() == 0 {
        return Ok(String::new());
    }
    let command = MommyLangSyntax::from_str(tokens[0].as_str());
    match command {
        MommyLangSyntax::Declaration => create_variable(tokens, &mut state.symbols),
        MommyLangSyntax::Assignment => replace(tokens, &mut state.symbols),
        MommyLangSyntax::Array => create_array(tokens, &mut state.symbols),
        MommyLangSyntax::String => create_array(tokens, &mut state.symbols),
        MommyLangSyntax::Malloc => allocate_heap(tokens, &mut state.symbols),
        MommyLangSyntax::FreeMalloc => deallocate_heap(tokens, &mut state.symbols),
        MommyLangSyntax::Math => {
            if tokens.len() < 4 {
                return Err(MommyLangError::MissingArguments);
            }
            match math_operator(tokens[0].as_str()) {
                None => Err(MommyLangError::SyntaxError),
                Some(op) => calculate_two(tokens[1].as_str(), op, tokens[3].as_str(), &state.symbols),
            }
        },
        MommyLangSyntax::IO => say(tokens, &state.symbols),
        MommyLangSyntax::ReadInput => listen(tokens, &state.symbols),
        MommyLangSyntax::LoopStartBasic => {
            if tokens.len() < 2 {
                return Err(MommyLangError::MissingArguments);
            }
            state.scopes.push(ScopeType::Loop);
            Ok(for_loop(tokens))
        },
        MommyLangSyntax::LoopEnd => {
            match state.scopes.pop() {
                Some(_) => Ok(done()),
                None => Err(MommyLangError::UnexpectedDone),
            }
        },
        MommyLangSyntax::LoopBreak => {
            if !has_loop(&state.scopes) {
                return Err(MommyLangError::UnexpectedSatisfied);
            }
            Ok(satisfied())
        },
        MommyLangSyntax::LoopStartCondition => {
            if tokens.len() < 2 {
                return Err(MommyLangError::MissingArguments);
            }
            state.scopes.push(ScopeType::Loop);
            Ok(while_loop(tokens))
        },
        MommyLangSyntax::Condition => {
            state.scopes.push(ScopeType::Condition);
            ask(tokens)
        },
        MommyLangSyntax::ConditionElse => {
            let n = state.scopes.len();
            if n == 0 {
                return Err(MommyLangError::OrphanElse);
            }
            match state.scopes[n - 1] {
                ScopeType::Condition => or(),
                ScopeType::Loop => Err(MommyLangError::OrphanElse),
                ScopeType::Alternative => Err(MommyLangError::SyntaxError),
            }
        },
        MommyLangSyntax::ProgramEnd => Ok(String::from_str("return 0;")),
        MommyLangSyntax::IncludeLib => {
            if tokens.len() < 2 {
                return Err(MommyLangError::MissingArguments);
            }
            let header = match add_package(tokens[1].as_str()) {
                Ok(line) => line,
                Err(e) => {
                    return Err(e);
                },
            };
            if header.unicode_len() > 0 && !has_text(&state.includes, &header) {
                let ghost before = state.includes@;
                state.includes.push(header);
                assert(texts(state.includes@) =~= texts(before).push(header@));
            }
            Ok(String::new())
        },
        MommyLangSyntax::Unknown => Err(MommyLangError::SyntaxError),
    }
}


/// Why a whole compilation failed.
#[derive(Debug, Clone, Copy, PartialEq, Eq, Structural)]
pub enum TranspileError {
    /// The first error, with the 1-based number of its line.
    Line(usize, MommyLangError),
    /// A block was still open at the end of the file.
    UnclosedBlock,
}

impl TranspileError {
    /// The report shown to the user.
    pub open spec fn text(self) -> Seq<char> {
        match self {
            TranspileError::Line(n, e) => "Line, "@ + decimal_of(n as nat) + ": "@ + e.text(),
            TranspileError::UnclosedBlock => MommyLangError::UnclosedBlock.text(),
        }
    }

    /// The report shown to the user: `Line, <n>: <message>`, or the message
    /// of an unclosed block.
    pub fn message(&self) -> (r: String)
        ensures
            r@ == self.text(),
    {
        match self {
            TranspileError::Line(n, e) => {
                let mut out = String::from_str("Line, ");
                let number = decimal_text(*n);
                out.append(number.as_str());
                out.append(": ");
                out.append(e.message());
                out
            },
            TranspileError::UnclosedBlock => String::from_str(MommyLangError::UnclosedBlock.message()),
        }
    }
}

/// A run over some lines: the state, the statements emitted, and the first
/// failure with its line number.
pub struct Run {
    pub ctx: Ctx,
    pub body: Seq<Seq<char>>,
    pub failure: Option<(usize, MommyLangError)>,
}

/// One more line, numbered `number`: skipped when blank or after a failure.
pub open spec fn run_step(r: Run, line: Seq<char>, number: usize) -> Run {
    if r.failure is Some || trim_of(line).len() == 0 {
        r
    } else {
        let (res, ctx) = parse_line_result(tokens_of(trim_of(line)), r.ctx);
        match res {
            Ok(code) => Run {
                ctx,
                body: if code.len() > 0 {
                    r.body.push(code)
                } else {
                    r.body
                },
                failure: None,
            },
            Err(e) => Run { ctx, body: r.body, failure: Some((number, e)) },
        }
    }
}

/// The run over all the given lines, from a fresh state.
pub open spec fn run_all(lines: Seq<Seq<char>>) -> Run
    decreases lines.len(),
{
    if lines.len() == 0 {
        Run { ctx: initial_ctx(), body: Seq::empty(), failure: None }
    } else {
        run_step(run_all(lines.drop_last()), lines.last(), lines.len() as usize)
    }
}

/// Each line with `prefix` before it and a line break after it.
pub open spec fn each_line(lines: Seq<Seq<char>>, prefix: Seq<char>) -> Seq<char>
    decreases lines.len(),
{
    if lines.len() == 0 {
        Seq::empty()
    } else {
        each_line(lines.drop_last(), prefix) + prefix + lines.last() + "\n"@
    }
}

/// The output file: the header lines, a blank line if there are any, then the
/// body indented inside the program entry point.
pub open spec fn render(headers: Seq<Seq<char>>, body: Seq<Seq<char>>) -> Seq<char> {
    each_line(headers, Seq::empty()) + (if headers.len() > 0 {
        "\n"@
    } else {
        Seq::empty()
    }) + "int main(){\n"@ + each_line(body, "    "@) + "}\n"@
}

/// The outcome of compiling a whole source text.
pub open spec fn transpile_result(s: Seq<char>) -> Result<Seq<char>, TranspileError> {
    let r = run_all(source_lines(s));
    match r.failure {
        Some((n, e)) => Err(TranspileError::Line(n, e)),
        None => if r.ctx.scopes.len() > 0 {
            Err(TranspileError::UnclosedBlock)
        } else {
            Ok(render(r.ctx.includes, r.body))
        },
    }
}

/// Whether `r` is what compiling `s` gives: its text, or its error.
pub open spec fn transpile_returns(s: Seq<char>, r: Result<String, TranspileError>) -> bool {
    match r {
        Ok(out) => transpile_result(s) == Ok::<Seq<char>, TranspileError>(out@),
        Err(e) => transpile_result(s) == Err::<Seq<char>, TranspileError>(e),
    }
}

/// A run in progress.
struct Runner {
    state: Compilation,
    body: Vec<String>,
    failure: Option<(usize, MommyLangError)>,
}

impl View for Runner {
    type V = Run;

    closed spec fn view(&self) -> Run {
        Run { ctx: self.state@, body: texts(self.body@), failure: self.failure }
    }
}

impl Runner {
    fn step(&mut self, line: &str, number: usize)
        ensures
            final(self)@ == run_step(old(self)@, line@, number),
    {
        if self.failure.is_some() {
            return;
        }
        let trimmed = trim(line);
        if trimmed.unicode_len() == 0 {
            return;
        }
        let tokens = insert_token(trimmed);
        match parse_line(&tokens, &mut self.state) {
            Ok(code) => {
                if code.unicode_len() > 0 {
                    let ghost before = self.body@;
                    self.body.push(code);
                    assert(texts(self.body@) =~= texts(before).push(code@));
                }
            },
            Err(e) => {
                self.failure = Some((number, e));
            },
        }
    }
}

fn append_lines(out: &mut String, lines: &Vec<String>, prefix: &str)
    ensures
        final(out)@ == old(out)@ + each_line(texts(lines@), prefix@),
{
    let ghost start = out@;
    let mut i: usize = 0;
    assert(texts(lines@).take(0) =~= Seq::<Seq<char>>::empty());
    while i < lines.len()
        invariant
            i <= lines.len(),
            out@ == start + each_line(texts(lines@).take(i as int), prefix@),
        decreases lines.len() - i,
    {
        let ghost before = out@;
        assert(texts(lines@).take(i + 1).drop_last() =~= texts(lines@).take(i as int));
        out.append(prefix);
        out.append(lines[i].as_str());
        out.append("\n");
        assert(out@ =~= start + each_line(texts(lines@).take(i + 1), prefix@));
        i += 1;
    }
    assert(texts(lines@).take(lines.len() as int) =~= texts(lines@));
}

/// Compiles a whole source text into the target program, or reports the
/// first error with its line, or a block left open at the end.
pub fn transpile(source: &str) -> (r: Result<String, TranspileError>)
    requires
        source@.len() < usize::MAX,
    ensures
        transpile_returns(source@, r),
{
    let cs = chars_of(source);
    let mut runner = Runner { state: Compilation::new(), body: Vec::new(), failure: None };
    let mut start: usize = 0;
    let mut count: usize = 0;
    let mut i: usize = 0;
    let ghost mut done: Seq<Seq<char>> = Seq::empty();
    assert(texts(runner.body@) =~= Seq::<Seq<char>>::empty());
    assert(source@.take(0) =~= Seq::<char>::empty());
    assert(source@.subrange(0, 0) =~= Seq::<char>::empty());
    while i < cs.len()
        invariant
            start <= i <= cs.len(),
            cs@ == source@,
            cs.len() < usize::MAX,
            count <= i,
            line_scan(source@.take(i as int)) == (done, source@.subrange(start as int, i as int)),
            done.len() == count,
            runner@ == run_all(done),
        decreases cs.len() - i,
    {
        let c = cs[i];
        assert(source@.take(i + 1).drop_last() =~= source@.take(i as int));
        assert(source@.take(i + 1).last() == c);
        if c == '\n' {
            let line = source.substring_char(start, i);
            count += 1;
            runner.step(line, count);
            proof {
                let next = done.push(source@.subrange(start as int, i as int));
                assert(next.drop_last() =~= done);
                done = next;
            }
            assert(source@.subrange(i + 1, i + 1) =~= Seq::<char>::empty());
            start = i + 1;
        } else {
            assert(source@.subrange(start as int, i + 1) =~= source@.subrange(
                start as int,
                i as int,
            ).push(c));
        }
        i += 1;
    }
    assert(source@.take(cs.len() as int) =~= source@);
    let line = source.substring_char(start, cs.len());
    count += 1;
    runner.step(line, count);
    proof {
        let all = done.push(source@.subrange(start as int, cs.len() as int));
        assert(all.drop_last() =~= done);
        assert(all == source_lines(source@));
    }
    match runner.failure {
        Some((n, e)) => {
            return Err(TranspileError::Line(n, e));
        },
        None => {},
    }
    if runner.state.scopes.len() > 0 {
        return Err(TranspileError::UnclosedBlock);
    }
    let mut out = String::new();
    append_lines(&mut out, &runner.state.includes, "");
    if runner.state.includes.len() > 0 {
        out.append("\n");
    }
    out.append("int main(){\n");
    append_lines(&mut out, &runner.body, "    ");
    out.append("}\n");
    proof {
        reveal_strlit("");
        assert(""@ =~= Seq::<char>::empty());
    }
    assert(out@ =~= render(runner@.ctx.includes, runner@.body));
    Ok(out)
}

} // verus!
