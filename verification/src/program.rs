//! The function and program renderers: a forward declaration and a
//! definition per function, and the fixed-order program text — includes,
//! the shared boolean constants, the generic print macro, all forward
//! declarations, all bodies, and the synthesized process entry point
//! that parses external arguments for the designated `main` function.

use crate::decimal::{dec_nat, u64_dec};
use crate::decls::{find_static_vars, static_vars_spec, vars_view, StaticVar};
use crate::instr::code_rep;
use crate::ir::{
    function_wf, no_pointer_args, program_wf, type_rep, Argument, Function, Program, Type,
};
use crate::mangle::{func_rep, func_rep_spec, mangle, mangle_spec};
use crate::text::{join_sep, join_strings, names_of};
use vstd::prelude::*;

verus! {

/// The declaration text of one parameter: its type token and its mangled
/// name.
pub open spec fn arg_rep(a: Argument) -> Seq<char> {
    type_rep(a.arg_type) + " "@ + mangle_spec(a.name@)
}

/// The token of a return type: `void` when there is none.
pub open spec fn ret_rep(t: Option<Type>) -> Seq<char> {
    match t {
        Option::None => "void"@,
        Option::Some(t) => type_rep(t),
    }
}

/// The declaration statement of one hoisted local variable.
pub open spec fn static_var_rep(v: (Type, Seq<char>)) -> Seq<char> {
    type_rep(v.0) + " "@ + mangle_spec(v.1) + ";"@
}

/// The rendered parameter list of a function.
pub open spec fn args_reps(args: Seq<Argument>) -> Seq<Seq<char>> {
    args.map_values(|a: Argument| arg_rep(a))
}

/// The raw names of a parameter list.
pub open spec fn arg_names(args: Seq<Argument>) -> Seq<Seq<char>> {
    args.map_values(|a: Argument| a.name@)
}

/// The forward declaration of a function, emitted ahead of all bodies so
/// that forward and mutual references need no ordering.
pub open spec fn func_decl_rep(f: Function) -> Seq<char> {
    ret_rep(f.return_type) + " "@ + func_rep_spec(f.name@) + "("@ + join_sep(
        args_reps(f.args@),
        ", "@,
    ) + ");\n"@
}

/// The rendered declaration statements of the hoisted locals.
pub open spec fn static_vars_reps(vs: Seq<(Type, Seq<char>)>) -> Seq<Seq<char>> {
    vs.map_values(|v: (Type, Seq<char>)| static_var_rep(v))
}

/// The rendered statements of a body.
pub open spec fn codes_reps(cs: Seq<crate::ir::Code>) -> Seq<Seq<char>> {
    cs.map_values(|c: crate::ir::Code| code_rep(c))
}

/// The definition of a function: header, hoisted declarations, then the
/// statements, each block in original order.
pub open spec fn func_body_rep(f: Function) -> Seq<char> {
    ret_rep(f.return_type) + " "@ + func_rep_spec(f.name@) + "("@ + join_sep(
        args_reps(f.args@),
        ", "@,
    ) + "){\n"@ + join_sep(static_vars_reps(static_vars_spec(f)), "\n"@) + "\n"@ + join_sep(
        codes_reps(f.instrs@),
        "\n"@,
    ) + "\n}"@
}

/// The fixed include preamble: sized integers, allocation, formatted
/// output, and the sized-integer format macros.
pub open spec fn includes_text() -> Seq<char> {
    "#include <stdint.h>\n#include <stdlib.h>\n#include <stdio.h>\n#include <inttypes.h>\n"@
}

/// The process-wide boolean constants, defined exactly once: the target
/// has no native boolean literal, so `true` and `false` are shared
/// 8-bit values.
pub open spec fn bool_defs_text() -> Seq<char> {
    "uint8_t true = 1; uint8_t false = 0;"@
}

/// The generic print macro: it dispatches on the static type of its one
/// argument to a 64-bit signed integer format, a boolean rendered as the
/// strings of the shared constants, or a 17-significant-digit float,
/// which round-trips every IEEE double exactly.
pub open spec fn print_macro_text() -> Seq<char> {
    "#define print(x) _Generic((x), int64_t: printf(\"%\" PRId64 \" \", x), uint8_t: printf(\"%s \", (x) ? \"true\" : \"false\"), double: printf(\"%.17g \", x))"@
}

/// The parse call of the entry point for one parameter type: a decimal
/// integer parse for `Int` and `Bool`, a floating-point parse for
/// `Float`. A pointer parameter has no textual encoding and is rejected
/// by well-formedness before rendering.
pub open spec fn conv_fn(t: Type) -> Seq<char> {
    match t {
        Type::Int => "atoi"@,
        Type::Bool => "atoi"@,
        Type::Float => "atof"@,
        Type::Pointer(_) => Seq::empty(),
    }
}

/// One line of the entry point: parse external argument `idx` into a
/// local variable carrying the parameter's raw name.
pub open spec fn main_arg_line(a: Argument, idx: int) -> Seq<char> {
    type_rep(a.arg_type) + " "@ + a.name@ + " = "@ + conv_fn(a.arg_type) + "(argv["@ + dec_nat(
        idx as nat,
    ) + "]);\n"@
}

/// The first `n` parse lines of one designated function, in declared
/// order; external argument positions start at one.
pub open spec fn main_arg_lines_upto(args: Seq<Argument>, n: int) -> Seq<char>
    decreases n,
{
    if n <= 0 {
        Seq::empty()
    } else {
        main_arg_lines_upto(args, n - 1) + main_arg_line(args[n - 1], n)
    }
}

/// The parse lines contributed by the first `n` functions: every
/// function named `main` contributes one line per parameter.
pub open spec fn entry_decls_upto(funcs: Seq<Function>, n: int) -> Seq<char>
    decreases n,
{
    if n <= 0 {
        Seq::empty()
    } else {
        entry_decls_upto(funcs, n - 1) + (if funcs[n - 1].name@ == "main"@ {
            main_arg_lines_upto(funcs[n - 1].args@, funcs[n - 1].args@.len() as int)
        } else {
            Seq::empty()
        })
    }
}

/// The call arguments of the entry point contributed by the first `n`
/// functions: the raw parameter names of every function named `main`.
pub open spec fn entry_call_args_upto(funcs: Seq<Function>, n: int) -> Seq<Seq<char>>
    decreases n,
{
    if n <= 0 {
        Seq::empty()
    } else {
        entry_call_args_upto(funcs, n - 1) + (if funcs[n - 1].name@ == "main"@ {
            arg_names(funcs[n - 1].args@)
        } else {
            Seq::empty()
        })
    }
}

/// The synthesized process entry point: it parses one external argument
/// per parameter of the designated `main` function, in declared order,
/// invokes the renamed `main` with those locals, and terminates
/// successfully.
pub open spec fn entry_rep(p: Program) -> Seq<char> {
    "int main(int argc, char *argv[]){\n"@ + entry_decls_upto(
        p.functions@,
        p.functions@.len() as int,
    ) + func_rep_spec("main"@) + "("@ + join_sep(
        entry_call_args_upto(p.functions@, p.functions@.len() as int),
        ","@,
    ) + ");\n"@ + "return 0;\n}"@
}

/// The forward declarations of all functions.
pub open spec fn decls_reps(funcs: Seq<Function>) -> Seq<Seq<char>> {
    funcs.map_values(|f: Function| func_decl_rep(f))
}

/// The definitions of all functions.
pub open spec fn bodies_reps(funcs: Seq<Function>) -> Seq<Seq<char>> {
    funcs.map_values(|f: Function| func_body_rep(f))
}

/// The whole program text, six blocks in fixed order: includes, the
/// boolean constants, the print macro, all forward declarations, all
/// function bodies, and the entry point.
pub open spec fn program_rep(p: Program) -> Seq<char> {
    includes_text() + "\n"@ + bool_defs_text() + "\n\n"@ + print_macro_text() + "\n\n"@ + join_sep(
        decls_reps(p.functions@),
        "\n"@,
    ) + "\n\n"@ + join_sep(bodies_reps(p.functions@), "\n"@) + "\n\n"@ + entry_rep(p)
}

impl Argument {
    /// Renders one parameter declaration.
    pub fn crep(&self) -> (r: String)
        ensures
            r@ == arg_rep(*self),
    {
        let mut r = self.arg_type.crep();
        r.append(" ");
        let name = mangle(self.name.as_str());
        r.append(name.as_str());
        r
    }
}

impl StaticVar {
    /// Renders one hoisted local declaration.
    pub fn crep(&self) -> (r: String)
        ensures
            r@ == static_var_rep((self.var_type, self.name@)),
    {
        let mut r = self.var_type.crep();
        r.append(" ");
        let name = mangle(self.name.as_str());
        r.append(name.as_str());
        r.append(";");
        r
    }
}

/// Renders a return type's token.
fn return_rep(t: &Option<Type>) -> (r: String)
    ensures
        r@ == ret_rep(*t),
{
    match t {
        Option::None => String::from_str("void"),
        Option::Some(t) => t.crep(),
    }
}

/// Renders the parameter list of a function, joined for a header.
fn args_crep(args: &Vec<Argument>) -> (r: String)
    ensures
        r@ == join_sep(args_reps(args@), ", "@),
{
    let mut rendered: Vec<String> = Vec::new();
    let mut i: usize = 0;
    while i < args.len()
        invariant
            i <= args.len(),
            rendered@.len() == i,
            forall|j: int| 0 <= j < i ==> names_of(rendered@)[j] == args_reps(args@)[j],
        decreases args.len() - i,
    {
        let ghost prev = rendered@;
        rendered.push(args[i].crep());
        proof {
            assert forall|j: int| 0 <= j <= i implies names_of(rendered@)[j] == args_reps(args@)[j]
                by {
                assert(names_of(rendered@)[j] == rendered@[j]@);
                if j < i {
                    assert(rendered@[j] == prev[j]);
                    assert(names_of(prev)[j] == prev[j]@);
                }
                assert(args_reps(args@)[j] == arg_rep(args@[j]));
            }
        }
        i += 1;
    }
    proof {
        assert(names_of(rendered@).len() == rendered@.len());
        assert(args_reps(args@).len() == args@.len());
        assert(names_of(rendered@) =~= args_reps(args@));
    }
    join_strings(&rendered, ", ")
}

/// Emits the forward declaration of one function, to be collected ahead
/// of all bodies.
pub fn func_decl(func: &Function) -> (r: String)
    ensures
        r@ == func_decl_rep(*func),
{
    let mut r = return_rep(&func.return_type);
    r.append(" ");
    let name = func_rep(func.name.clone());
    r.append(name.as_str());
    r.append("(");
    let args = args_crep(&func.args);
    r.append(args.as_str());
    r.append(");\n");
    r
}

impl Function {
    /// Renders the definition of this function: header, the hoisted
    /// declarations, then the statements, in original order.
    pub fn crep(&self) -> (r: String)
        requires
            function_wf(*self),
        ensures
            r@ == func_body_rep(*self),
    {
        let mut r = return_rep(&self.return_type);
        r.append(" ");
        let name = func_rep(self.name.clone());
        r.append(name.as_str());
        r.append("(");
        let args = args_crep(&self.args);
        r.append(args.as_str());
        r.append("){\n");

        let static_vars = find_static_vars(self);
        let mut var_lines: Vec<String> = Vec::new();
        let mut i: usize = 0;
        while i < static_vars.len()
            invariant
                i <= static_vars.len(),
                var_lines@.len() == i,
                vars_view(static_vars@) == static_vars_spec(*self),
                forall|j: int|
                    0 <= j < i ==> names_of(var_lines@)[j] == static_vars_reps(
                        static_vars_spec(*self),
                    )[j],
            decreases static_vars.len() - i,
        {
            let ghost prev = var_lines@;
            var_lines.push(static_vars[i].crep());
            proof {
                assert(vars_view(static_vars@)[i as int] == (
                    static_vars@[i as int].var_type,
                    static_vars@[i as int].name@,
                ));
                assert forall|j: int|
                    0 <= j <= i implies names_of(var_lines@)[j] == static_vars_reps(
                    static_vars_spec(*self),
                )[j] by {
                    assert(names_of(var_lines@)[j] == var_lines@[j]@);
                    if j < i {
                        assert(var_lines@[j] == prev[j]);
                        assert(names_of(prev)[j] == prev[j]@);
                    }
                    assert(static_vars_reps(static_vars_spec(*self))[j] == static_var_rep(
                        static_vars_spec(*self)[j],
                    ));
                }
            }
            i += 1;
        }
        proof {
            assert(vars_view(static_vars@).len() == static_vars@.len());
            assert(names_of(var_lines@).len() == var_lines@.len());
            assert(static_vars_reps(static_vars_spec(*self)).len() == static_vars_spec(
                *self,
            ).len());
            assert(names_of(var_lines@) =~= static_vars_reps(static_vars_spec(*self)));
        }
        let vars_text = join_strings(&var_lines, "\n");
        r.append(vars_text.as_str());
        r.append("\n");

        let mut stmt_lines: Vec<String> = Vec::new();
        let mut k: usize = 0;
        while k < self.instrs.len()
            invariant
                k <= self.instrs.len(),
                stmt_lines@.len() == k,
                function_wf(*self),
                forall|j: int|
                    0 <= j < k ==> names_of(stmt_lines@)[j] == codes_reps(self.instrs@)[j],
            decreases self.instrs.len() - k,
        {
            let ghost prev = stmt_lines@;
            stmt_lines.push(self.instrs[k].crep());
            proof {
                assert forall|j: int|
                    0 <= j <= k implies names_of(stmt_lines@)[j] == codes_reps(self.instrs@)[j] by {
                    assert(names_of(stmt_lines@)[j] == stmt_lines@[j]@);
                    if j < k {
                        assert(stmt_lines@[j] == prev[j]);
                        assert(names_of(prev)[j] == prev[j]@);
                    }
                    assert(codes_reps(self.instrs@)[j] == code_rep(self.instrs@[j]));
                }
            }
            k += 1;
        }
        proof {
            assert(names_of(stmt_lines@).len() == stmt_lines@.len());
            assert(codes_reps(self.instrs@).len() == self.instrs@.len());
            assert(names_of(stmt_lines@) =~= codes_reps(self.instrs@));
        }
        let stmts_text = join_strings(&stmt_lines, "\n");
        r.append(stmts_text.as_str());
        r.append("\n}");
        r
    }
}

/// Renders the entry point of a program.
fn entry_crep(p: &Program) -> (r: String)
    requires
        program_wf(*p),
    ensures
        r@ == entry_rep(*p),
{
    let ghost funcs = p.functions@;
    let ghost header = "int main(int argc, char *argv[]){\n"@;
    let main_name = String::from_str("main");
    let mut entry = String::from_str("int main(int argc, char *argv[]){\n");
    let mut main_args: Vec<String> = Vec::new();
    let mut k: usize = 0;
    while k < p.functions.len()
        invariant
            k <= p.functions.len(),
            funcs == p.functions@,
            program_wf(*p),
            main_name@ == "main"@,
            entry@ == header + entry_decls_upto(funcs, k as int),
            names_of(main_args@) == entry_call_args_upto(funcs, k as int),
        decreases p.functions.len() - k,
    {
        let func = &p.functions[k];
        if func.name == main_name {
            proof {
                assert(no_pointer_args(funcs[k as int]));
            }
            let mut j: usize = 0;
            while j < func.args.len()
                invariant
                    j <= func.args.len(),
                    funcs == p.functions@,
                    *func == funcs[k as int],
                    k < funcs.len(),
                    no_pointer_args(*func),
                    main_name@ == "main"@,
                    entry@ == header + entry_decls_upto(funcs, k as int) + main_arg_lines_upto(
                        func.args@,
                        j as int,
                    ),
                    names_of(main_args@) == entry_call_args_upto(funcs, k as int) + arg_names(
                        func.args@.take(j as int),
                    ),
                decreases func.args.len() - j,
            {
                let arg = &func.args[j];
                let mut line = arg.arg_type.crep();
                line.append(" ");
                line.append(arg.name.as_str());
                line.append(" = ");
                proof {
                    assert(!(funcs[k as int].args@[j as int].arg_type is Pointer));
                }
                match &arg.arg_type {
                    Type::Int => line.append("atoi"),
                    Type::Bool => line.append("atoi"),
                    Type::Float => line.append("atof"),
                    Type::Pointer(_) => {
                        assert(false);
                    },
                }
                line.append("(argv[");
                let idx = u64_dec(j as u64 + 1);
                line.append(idx.as_str());
                line.append("]);\n");
                proof {
                    assert(line@ == main_arg_line(func.args@[j as int], j + 1 as int));
                }
                entry.append(line.as_str());
                let ghost prev = main_args@;
                main_args.push(arg.name.clone());
                proof {
                    assert(main_arg_lines_upto(func.args@, j + 1 as int) == main_arg_lines_upto(
                        func.args@,
                        j as int,
                    ) + main_arg_line(func.args@[j as int], j + 1 as int));
                    assert(entry@ =~= header + entry_decls_upto(funcs, k as int)
                        + main_arg_lines_upto(func.args@, j + 1 as int));
                    let ghost lhs = names_of(main_args@);
                    let ghost rhs = entry_call_args_upto(funcs, k as int) + arg_names(
                        func.args@.take(j + 1 as int),
                    );
                    assert(names_of(prev).len() == prev.len());
                    assert(arg_names(func.args@.take(j as int)).len() == j);
                    assert(arg_names(func.args@.take(j + 1 as int)).len() == j + 1);
                    assert forall|m: int| 0 <= m < lhs.len() implies lhs[m] == rhs[m] by {
                        assert(lhs[m] == main_args@[m]@);
                        if m < prev.len() {
                            assert(main_args@[m] == prev[m]);
                            assert(names_of(prev)[m] == prev[m]@);
                            let ghost old_rhs = entry_call_args_upto(funcs, k as int) + arg_names(
                                func.args@.take(j as int),
                            );
                            assert(names_of(prev)[m] == old_rhs[m]);
                            if m >= entry_call_args_upto(funcs, k as int).len() {
                                let n = m - entry_call_args_upto(funcs, k as int).len();
                                assert(old_rhs[m] == arg_names(func.args@.take(j as int))[n]);
                                assert(arg_names(func.args@.take(j as int))[n] == func.args@.take(
                                    j as int,
                                )[n].name@);
                                assert(rhs[m] == arg_names(func.args@.take(j + 1 as int))[n]);
                                assert(arg_names(func.args@.take(j + 1 as int))[n]
                                    == func.args@.take(j + 1 as int)[n].name@);
                            }
                        } else {
                            assert(main_args@[m] == prev.push(main_args@[m]).last());
                            let n = m - entry_call_args_upto(funcs, k as int).len();
                            assert(n == j);
                            assert(rhs[m] == arg_names(func.args@.take(j + 1 as int))[n]);
                            assert(arg_names(func.args@.take(j + 1 as int))[n] == func.args@.take(
                                j + 1 as int,
                            )[n].name@);
                        }
                    }
                    assert(lhs =~= rhs);
                }
                j += 1;
            }
            proof {
                assert(func.args@.take(func.args@.len() as int) =~= func.args@);
                assert(entry_decls_upto(funcs, k + 1 as int) == entry_decls_upto(funcs, k as int)
                    + main_arg_lines_upto(funcs[k as int].args@, funcs[k as int].args@.len() as int));
                assert(entry@ =~= header + entry_decls_upto(funcs, k + 1 as int));
                assert(entry_call_args_upto(funcs, k + 1 as int) =~= entry_call_args_upto(
                    funcs,
                    k as int,
                ) + arg_names(funcs[k as int].args@));
                assert(names_of(main_args@) =~= entry_call_args_upto(funcs, k + 1 as int));
            }
        } else {
            proof {
                assert(funcs[k as int].name@ != "main"@);
                assert(entry@ =~= header + entry_decls_upto(funcs, k + 1 as int));
                assert(names_of(main_args@) =~= entry_call_args_upto(funcs, k + 1 as int));
            }
        }
        k += 1;
    }
    let renamed = func_rep(String::from_str("main"));
    entry.append(renamed.as_str());
    entry.append("(");
    let joined = join_strings(&main_args, ",");
    entry.append(joined.as_str());
    entry.append(");\n");
    entry.append("return 0;\n}");
    entry
}

impl Program {
    /// Renders the whole program: the fixed preamble, the shared boolean
    /// constants, the print macro, every forward declaration, every
    /// function body, and the synthesized entry point, blank-line
    /// separated, in that order.
    pub fn crep(&self) -> (r: String)
        requires
            program_wf(*self),
        ensures
            r@ == program_rep(*self),
    {
        let mut decl_lines: Vec<String> = Vec::new();
        let mut i: usize = 0;
        while i < self.functions.len()
            invariant
                i <= self.functions.len(),
                decl_lines@.len() == i,
                program_wf(*self),
                forall|j: int|
                    0 <= j < i ==> names_of(decl_lines@)[j] == decls_reps(self.functions@)[j],
            decreases self.functions.len() - i,
        {
            let ghost prev = decl_lines@;
            decl_lines.push(func_decl(&self.functions[i]));
            proof {
                assert forall|j: int|
                    0 <= j <= i implies names_of(decl_lines@)[j] == decls_reps(
                    self.functions@,
                )[j] by {
                    assert(names_of(decl_lines@)[j] == decl_lines@[j]@);
                    if j < i {
                        assert(decl_lines@[j] == prev[j]);
                        assert(names_of(prev)[j] == prev[j]@);
                    }
                    assert(decls_reps(self.functions@)[j] == func_decl_rep(self.functions@[j]));
                }
            }
            i += 1;
        }
        proof {
            assert(names_of(decl_lines@).len() == decl_lines@.len());
            assert(decls_reps(self.functions@).len() == self.functions@.len());
            assert(names_of(decl_lines@) =~= decls_reps(self.functions@));
        }
        let decls_text = join_strings(&decl_lines, "\n");

        let mut body_lines: Vec<String> = Vec::new();
        let mut k: usize = 0;
        while k < self.functions.len()
            invariant
                k <= self.functions.len(),
                body_lines@.len() == k,
                program_wf(*self),
                forall|j: int|
                    0 <= j < k ==> names_of(body_lines@)[j] == bodies_reps(self.functions@)[j],
            decreases self.functions.len() - k,
        {
            let ghost prev = body_lines@;
            proof {
                assert(function_wf(self.functions@[k as int]));
            }
            body_lines.push(self.functions[k].crep());
            proof {
                assert forall|j: int|
                    0 <= j <= k implies names_of(body_lines@)[j] == bodies_reps(
                    self.functions@,
                )[j] by {
                    assert(names_of(body_lines@)[j] == body_lines@[j]@);
                    if j < k {
                        assert(body_lines@[j] == prev[j]);
                        assert(names_of(prev)[j] == prev[j]@);
                    }
                    assert(bodies_reps(self.functions@)[j] == func_body_rep(self.functions@[j]));
                }
            }
            k += 1;
        }
        proof {
            assert(names_of(body_lines@).len() == body_lines@.len());
            assert(bodies_reps(self.functions@).len() == self.functions@.len());
            assert(names_of(body_lines@) =~= bodies_reps(self.functions@));
        }
        let bodies_text = join_strings(&body_lines, "\n");

        let entry = entry_crep(self);

        let mut out = String::from_str(
            "#include <stdint.h>\n#include <stdlib.h>\n#include <stdio.h>\n#include <inttypes.h>\n",
        );
        out.append("\n");
        out.append("uint8_t true = 1; uint8_t false = 0;");
        out.append("\n\n");
        out.append(
            "#define print(x) _Generic((x), int64_t: printf(\"%\" PRId64 \" \", x), uint8_t: printf(\"%s \", (x) ? \"true\" : \"false\"), double: printf(\"%.17g \", x))",
        );
        out.append("\n\n");
        out.append(decls_text.as_str());
        out.append("\n\n");
        out.append(bodies_text.as_str());
        out.append("\n\n");
        out.append(entry.as_str());
        out
    }
}

} // verus!
