//! The instruction and code renderer: stateless, one-to-one and
//! order-preserving, each instruction or label becoming exactly one
//! target statement. Control flow is emitted literally as jumps,
//! branches and labels; nothing is restructured.

use crate::decimal::{dec_int, i64_dec};
use crate::ir::{instr_wf, type_rep, Code, EffectOps, Instruction, Literal, Type, ValueOps};
use crate::mangle::{func_rep, func_rep_spec, mangle, mangle_spec};
use crate::text::{join_sep, join_strings, names_of};
use vstd::prelude::*;

verus! {

/// Whether an operator is rendered through the generic token table.
/// `id`, `call`, `alloc` and `load` are not: routing them through the
/// table is a programming error, and each is special-cased by the
/// instruction renderer.
pub open spec fn op_has_token(op: ValueOps) -> bool {
    match op {
        ValueOps::Id => false,
        ValueOps::Call => false,
        ValueOps::Alloc => false,
        ValueOps::Load => false,
        _ => true,
    }
}

/// The token table of the operator renderer. `and` and `or` are
/// deliberately the bitwise operators, not the short-circuit logical
/// ones; the translation preserves this.
pub open spec fn op_token(op: ValueOps) -> Seq<char> {
    match op {
        ValueOps::Add | ValueOps::Fadd | ValueOps::PtrAdd => "+"@,
        ValueOps::Sub | ValueOps::Fsub => "-"@,
        ValueOps::Mul | ValueOps::Fmul => "*"@,
        ValueOps::Div | ValueOps::Fdiv => "/"@,
        ValueOps::Eq | ValueOps::Feq => "=="@,
        ValueOps::Lt | ValueOps::Flt => "<"@,
        ValueOps::Gt | ValueOps::Fgt => ">"@,
        ValueOps::Le | ValueOps::Fle => "<="@,
        ValueOps::Ge | ValueOps::Fge => ">="@,
        ValueOps::Not => "!"@,
        ValueOps::And => "&"@,
        ValueOps::Or => "|"@,
        ValueOps::Id | ValueOps::Call | ValueOps::Alloc | ValueOps::Load => Seq::empty(),
    }
}

impl ValueOps {
    /// Renders an operator as its target token.
    pub fn crep(&self) -> (r: String)
        requires
            op_has_token(*self),
        ensures
            r@ == op_token(*self),
    {
        match self {
            ValueOps::Add | ValueOps::Fadd | ValueOps::PtrAdd => String::from_str("+"),
            ValueOps::Sub | ValueOps::Fsub => String::from_str("-"),
            ValueOps::Mul | ValueOps::Fmul => String::from_str("*"),
            ValueOps::Div | ValueOps::Fdiv => String::from_str("/"),
            ValueOps::Eq | ValueOps::Feq => String::from_str("=="),
            ValueOps::Lt | ValueOps::Flt => String::from_str("<"),
            ValueOps::Gt | ValueOps::Fgt => String::from_str(">"),
            ValueOps::Le | ValueOps::Fle => String::from_str("<="),
            ValueOps::Ge | ValueOps::Fge => String::from_str(">="),
            ValueOps::Not => String::from_str("!"),
            ValueOps::And => String::from_str("&"),
            ValueOps::Or => String::from_str("|"),
            ValueOps::Id | ValueOps::Call | ValueOps::Alloc | ValueOps::Load => {
                assert(false);
                String::new()
            },
        }
    }
}

/// The target text of a literal: decimal notation for an integer, the
/// names of the shared boolean constants for a boolean — the target has
/// no native boolean literal — and the loader-rendered text for a float.
pub open spec fn lit_rep(l: Literal) -> Seq<char> {
    match l {
        Literal::Int(n) => dec_int(n as int),
        Literal::Bool(b) => if b {
            "true"@
        } else {
            "false"@
        },
        Literal::Float(text) => text@,
    }
}

impl Literal {
    /// Renders a literal in the target's syntax for its type.
    pub fn crep(&self) -> (r: String)
        ensures
            r@ == lit_rep(*self),
    {
        match self {
            Literal::Int(n) => i64_dec(*n),
            Literal::Bool(b) => if *b {
                String::from_str("true")
            } else {
                String::from_str("false")
            },
            Literal::Float(text) => text.clone(),
        }
    }
}

/// The mangled forms of a list of raw identifiers.
pub open spec fn mangled_names(names: Seq<String>) -> Seq<Seq<char>> {
    names.map_values(|s: String| mangle_spec(s@))
}

/// Mangles every identifier of a list.
fn mangle_all(names: &Vec<String>) -> (r: Vec<String>)
    ensures
        names_of(r@) == mangled_names(names@),
{
    let mut r: Vec<String> = Vec::new();
    let mut i: usize = 0;
    while i < names.len()
        invariant
            i <= names.len(),
            r@.len() == i,
            forall|j: int| 0 <= j < i ==> names_of(r@)[j] == mangled_names(names@)[j],
        decreases names.len() - i,
    {
        let ghost prev = r@;
        r.push(mangle(names[i].as_str()));
        proof {
            assert forall|j: int| 0 <= j <= i implies names_of(r@)[j] == mangled_names(names@)[j]
                by {
                assert(names_of(r@)[j] == r@[j]@);
                if j < i {
                    assert(r@[j] == prev[j]);
                    assert(names_of(prev)[j] == prev[j]@);
                }
                assert(mangled_names(names@)[j] == mangle_spec(names@[j]@));
            }
        }
        i += 1;
    }
    proof {
        assert(names_of(r@).len() == r@.len());
        assert(mangled_names(names@).len() == names@.len());
        assert(names_of(r@) =~= mangled_names(names@));
    }
    r
}

/// The print statements of a print instruction: one print-macro call per
/// argument, in order, and nothing else.
pub open spec fn print_args_rep(args: Seq<String>) -> Seq<char>
    decreases args.len(),
{
    if args.len() == 0 {
        Seq::empty()
    } else {
        print_args_rep(args.drop_last()) + "print("@ + mangle_spec(args.last()@) + ");"@
    }
}

/// The element type that an allocation's `sizeof` speaks of: an
/// `alloc`'s type is a pointer to what it allocates, so the token is the
/// pointee's; a non-pointer type falls back to its own token.
pub open spec fn alloc_elem_rep(t: Type) -> Seq<char> {
    match t {
        Type::Pointer(elem) => type_rep(*elem),
        _ => type_rep(t),
    }
}

/// The target statement of a value-producing instruction.
pub open spec fn value_rep(
    args: Seq<String>,
    dest: Seq<char>,
    funcs: Seq<String>,
    op: ValueOps,
    op_type: Type,
) -> Seq<char> {
    match op {
        ValueOps::Not => mangle_spec(dest) + " = !"@ + mangle_spec(args[0]@) + ";"@,
        ValueOps::Id => mangle_spec(dest) + " = "@ + mangle_spec(args[0]@) + ";"@,
        ValueOps::Call => mangle_spec(dest) + " = "@ + func_rep_spec(funcs[0]@) + "("@ + join_sep(
            mangled_names(args),
            ", "@,
        ) + ");"@,
        ValueOps::Alloc => mangle_spec(dest) + " = malloc("@ + mangle_spec(args[0]@)
            + "*sizeof("@ + alloc_elem_rep(op_type) + "));"@,
        ValueOps::Load => mangle_spec(dest) + " = *("@ + mangle_spec(args[0]@) + ");"@,
        _ => mangle_spec(dest) + " = "@ + mangle_spec(args[0]@) + " "@ + op_token(op) + " "@
            + mangle_spec(args[1]@) + ";"@,
    }
}

/// The target statement of an effect instruction.
pub open spec fn effect_rep(
    args: Seq<String>,
    funcs: Seq<String>,
    labels: Seq<String>,
    op: EffectOps,
) -> Seq<char> {
    match op {
        EffectOps::Jump => "goto "@ + mangle_spec(labels[0]@) + ";"@,
        EffectOps::Branch => "if ("@ + mangle_spec(args[0]@) + ") {goto "@ + mangle_spec(
            labels[0]@,
        ) + ";} else {goto "@ + mangle_spec(labels[1]@) + ";}"@,
        EffectOps::Call => func_rep_spec(funcs[0]@) + "("@ + join_sep(mangled_names(args), ", "@)
            + ");"@,
        EffectOps::Return => "return "@ + (if args.len() == 0 {
            Seq::<char>::empty()
        } else {
            mangle_spec(args[0]@)
        }) + ";"@,
        EffectOps::Print => print_args_rep(args) + "printf(\"\\n\");"@,
        EffectOps::Nop => ";"@,
        EffectOps::Store => "*"@ + mangle_spec(args[0]@) + " = "@ + mangle_spec(args[1]@) + ";"@,
        EffectOps::Free => "free("@ + mangle_spec(args[0]@) + ");"@,
    }
}

/// The target statement of one instruction.
pub open spec fn instr_rep(i: Instruction) -> Seq<char> {
    match i {
        Instruction::Constant { dest, const_type: _, value } => mangle_spec(dest@) + " = "@
            + lit_rep(value) + ";"@,
        Instruction::Value { args, dest, funcs, labels: _, op, op_type } => value_rep(
            args@,
            dest@,
            funcs@,
            op,
            op_type,
        ),
        Instruction::Effect { args, funcs, labels, op } => effect_rep(args@, funcs@, labels@, op),
    }
}

/// The target text of one body element: a label becomes `name:`, an
/// instruction its statement.
pub open spec fn code_rep(c: Code) -> Seq<char> {
    match c {
        Code::Label { label } => mangle_spec(label@) + ":"@,
        Code::Instruction(i) => instr_rep(i),
    }
}

impl Instruction {
    /// Renders one instruction as one target statement.
    pub fn crep(&self) -> (r: String)
        requires
            instr_wf(*self),
        ensures
            r@ == instr_rep(*self),
    {
        match self {
            Instruction::Constant { dest, const_type: _, value } => {
                let mut r = mangle(dest.as_str());
                r.append(" = ");
                let v = value.crep();
                r.append(v.as_str());
                r.append(";");
                r
            },
            Instruction::Value { args, dest, funcs, labels: _, op, op_type } => {
                match op {
                    ValueOps::Not => {
                        let mut r = mangle(dest.as_str());
                        r.append(" = !");
                        let a0 = mangle(args[0].as_str());
                        r.append(a0.as_str());
                        r.append(";");
                        r
                    },
                    ValueOps::Id => {
                        let mut r = mangle(dest.as_str());
                        r.append(" = ");
                        let a0 = mangle(args[0].as_str());
                        r.append(a0.as_str());
                        r.append(";");
                        r
                    },
                    ValueOps::Call => {
                        let mut r = mangle(dest.as_str());
                        r.append(" = ");
                        let f = func_rep(funcs[0].clone());
                        r.append(f.as_str());
                        r.append("(");
                        let mangled_args = mangle_all(args);
                        let joined = join_strings(&mangled_args, ", ");
                        r.append(joined.as_str());
                        r.append(");");
                        r
                    },
                    ValueOps::Alloc => {
                        let mut r = mangle(dest.as_str());
                        r.append(" = malloc(");
                        let a0 = mangle(args[0].as_str());
                        r.append(a0.as_str());
                        r.append("*sizeof(");
                        let t = match op_type {
                            Type::Pointer(elem) => (&**elem).crep(),
                            _ => op_type.crep(),
                        };
                        r.append(t.as_str());
                        r.append("));");
                        r
                    },
                    ValueOps::Load => {
                        let mut r = mangle(dest.as_str());
                        r.append(" = *(");
                        let a0 = mangle(args[0].as_str());
                        r.append(a0.as_str());
                        r.append(");");
                        r
                    },
                    _ => {
                        assert(op_has_token(*op));
                        let mut r = mangle(dest.as_str());
                        r.append(" = ");
                        let a0 = mangle(args[0].as_str());
                        r.append(a0.as_str());
                        r.append(" ");
                        let t = op.crep();
                        r.append(t.as_str());
                        r.append(" ");
                        let a1 = mangle(args[1].as_str());
                        r.append(a1.as_str());
                        r.append(";");
                        r
                    },
                }
            },
            Instruction::Effect { args, funcs, labels, op } => {
                match op {
                    EffectOps::Jump => {
                        let mut r = String::from_str("goto ");
                        let l0 = mangle(labels[0].as_str());
                        r.append(l0.as_str());
                        r.append(";");
                        r
                    },
                    EffectOps::Branch => {
                        let mut r = String::from_str("if (");
                        let a0 = mangle(args[0].as_str());
                        r.append(a0.as_str());
                        r.append(") {goto ");
                        let l0 = mangle(labels[0].as_str());
                        r.append(l0.as_str());
                        r.append(";} else {goto ");
                        let l1 = mangle(labels[1].as_str());
                        r.append(l1.as_str());
                        r.append(";}");
                        r
                    },
                    EffectOps::Call => {
                        let mut r = func_rep(funcs[0].clone());
                        r.append("(");
                        let mangled_args = mangle_all(args);
                        let joined = join_strings(&mangled_args, ", ");
                        r.append(joined.as_str());
                        r.append(");");
                        r
                    },
                    EffectOps::Return => {
                        let mut r = String::from_str("return ");
                        if args.len() > 0 {
                            let a0 = mangle(args[0].as_str());
                            r.append(a0.as_str());
                        }
                        r.append(";");
                        r
                    },
                    EffectOps::Print => {
                        let mut r = String::new();
                        let mut i: usize = 0;
                        while i < args.len()
                            invariant
                                i <= args.len(),
                                r@ == print_args_rep(args@.take(i as int)),
                            decreases args.len() - i,
                        {
                            r.append("print(");
                            let a = mangle(args[i].as_str());
                            r.append(a.as_str());
                            r.append(");");
                            proof {
                                assert(args@.take(i + 1 as int).drop_last() =~= args@.take(
                                    i as int,
                                ));
                                assert(args@.take(i + 1 as int).last() == args@[i as int]);
                            }
                            i += 1;
                        }
                        proof {
                            assert(args@.take(args@.len() as int) =~= args@);
                        }
                        r.append("printf(\"\\n\");");
                        r
                    },
                    EffectOps::Nop => String::from_str(";"),
                    EffectOps::Store => {
                        let mut r = String::from_str("*");
                        let a0 = mangle(args[0].as_str());
                        r.append(a0.as_str());
                        r.append(" = ");
                        let a1 = mangle(args[1].as_str());
                        r.append(a1.as_str());
                        r.append(";");
                        r
                    },
                    EffectOps::Free => {
                        let mut r = String::from_str("free(");
                        let a0 = mangle(args[0].as_str());
                        r.append(a0.as_str());
                        r.append(");");
                        r
                    },
                }
            },
        }
    }
}

impl Code {
    /// Renders one body element.
    pub fn crep(&self) -> (r: String)
        requires
            crate::ir::code_wf(*self),
        ensures
            r@ == code_rep(*self),
    {
        match self {
            Code::Label { label } => {
                let mut r = mangle(label.as_str());
                r.append(":");
                r
            },
            Code::Instruction(instr) => instr.crep(),
        }
    }
}

} // verus!
