//! The data model of the intermediate representation: types, literals,
//! instructions, functions and programs, together with their
//! well-formedness conditions.

use vstd::prelude::*;

verus! {

/// A scalar or pointer type of the intermediate representation.
#[derive(Debug)]
pub enum Type {
    Int,
    Bool,
    Float,
    Pointer(Box<Type>),
}

/// The target token that a type is rendered as: a 64-bit signed integer
/// for `Int`, an 8-bit unsigned integer for `Bool`, an IEEE double for
/// `Float`, and a pointer to the pointee's token for `Pointer`.
pub open spec fn type_rep(t: Type) -> Seq<char>
    decreases t,
{
    match t {
        Type::Int => "int64_t"@,
        Type::Bool => "uint8_t"@,
        Type::Float => "double"@,
        Type::Pointer(pointed) => type_rep(*pointed) + "*"@,
    }
}

impl Type {
    /// Renders this type as its target token.
    pub fn crep(&self) -> (r: String)
        ensures
            r@ == type_rep(*self),
        decreases *self,
    {
        match self {
            Type::Int => String::from_str("int64_t"),
            Type::Bool => String::from_str("uint8_t"),
            Type::Float => String::from_str("double"),
            Type::Pointer(pointed) => {
                let pointed_crep = (&**pointed).crep();
                pointed_crep.concat("*")
            },
        }
    }
}

impl PartialEq for Type {
    fn eq(&self, other: &Type) -> (r: bool)
        decreases self,
    {
        match (self, other) {
            (Type::Int, Type::Int) => true,
            (Type::Bool, Type::Bool) => true,
            (Type::Float, Type::Float) => true,
            (Type::Pointer(a), Type::Pointer(b)) => (&**a).eq(&**b),
            _ => false,
        }
    }
}

impl vstd::std_specs::cmp::PartialEqSpecImpl for Type {
    open spec fn obeys_eq_spec() -> bool {
        true
    }

    open spec fn eq_spec(&self, other: &Type) -> bool {
        *self == *other
    }
}

impl Type {
    /// Builds a fresh copy of this type.
    pub fn duplicate(&self) -> (r: Type)
        ensures
            r == *self,
        decreases *self,
    {
        match self {
            Type::Int => Type::Int,
            Type::Bool => Type::Bool,
            Type::Float => Type::Float,
            Type::Pointer(pointed) => Type::Pointer(Box::new((&**pointed).duplicate())),
        }
    }
}

/// A literal value of a `Constant` instruction. The core never computes
/// with floating-point values: a `Float` literal carries the target-syntax
/// text that the external loader rendered for it.
pub enum Literal {
    Int(i64),
    Bool(bool),
    Float(String),
}

/// An operator of an instruction that produces a value.
pub enum ValueOps {
    Add,
    Sub,
    Mul,
    Div,
    Eq,
    Lt,
    Gt,
    Le,
    Ge,
    Not,
    And,
    Or,
    Id,
    Fadd,
    Fsub,
    Fmul,
    Fdiv,
    Feq,
    Flt,
    Fgt,
    Fle,
    Fge,
    Call,
    Alloc,
    Load,
    PtrAdd,
}

/// An operator of an instruction that only has an effect.
pub enum EffectOps {
    Jump,
    Branch,
    Call,
    Return,
    Print,
    Nop,
    Store,
    Free,
}

/// One instruction: a constant assignment, a value-producing operation,
/// or a pure effect.
#[allow(inconsistent_fields)]
pub enum Instruction {
    Constant { dest: String, const_type: Type, value: Literal },
    Value {
        args: Vec<String>,
        dest: String,
        funcs: Vec<String>,
        labels: Vec<String>,
        op: ValueOps,
        op_type: Type,
    },
    Effect { args: Vec<String>, funcs: Vec<String>, labels: Vec<String>, op: EffectOps },
}

/// One element of a function body: a label or an instruction.
pub enum Code {
    Label { label: String },
    Instruction(Instruction),
}

/// One named, typed parameter of a function.
pub struct Argument {
    pub name: String,
    pub arg_type: Type,
}

/// One function of the program.
pub struct Function {
    pub name: String,
    pub args: Vec<Argument>,
    pub return_type: Option<Type>,
    pub instrs: Vec<Code>,
}

/// A whole program: an ordered list of functions.
pub struct Program {
    pub functions: Vec<Function>,
}

/// The fixed arity of a value operator: binary operators take exactly two
/// arguments; `not`, `id`, `alloc` and `load` exactly one; a call names
/// exactly one callee.
pub open spec fn value_op_wf(op: ValueOps, args: Seq<String>, funcs: Seq<String>) -> bool {
    match op {
        ValueOps::Not => args.len() == 1,
        ValueOps::Id => args.len() == 1,
        ValueOps::Alloc => args.len() == 1,
        ValueOps::Load => args.len() == 1,
        ValueOps::Call => funcs.len() == 1,
        _ => args.len() == 2,
    }
}

/// The fixed arity of an effect operator: a jump names one label; a
/// branch one condition and two labels; a call one callee; a return at
/// most one argument; a store two arguments; a free one; print and nop
/// take anything.
pub open spec fn effect_op_wf(
    op: EffectOps,
    args: Seq<String>,
    funcs: Seq<String>,
    labels: Seq<String>,
) -> bool {
    match op {
        EffectOps::Jump => labels.len() == 1,
        EffectOps::Branch => args.len() == 1 && labels.len() == 2,
        EffectOps::Call => funcs.len() == 1,
        EffectOps::Return => args.len() <= 1,
        EffectOps::Print => true,
        EffectOps::Nop => true,
        EffectOps::Store => args.len() == 2,
        EffectOps::Free => args.len() == 1,
    }
}

/// Structural well-formedness of one instruction: its operator's arity
/// matches what it carries.
pub open spec fn instr_wf(i: Instruction) -> bool {
    match i {
        Instruction::Constant { .. } => true,
        Instruction::Value { args, funcs, op, .. } => value_op_wf(op, args@, funcs@),
        Instruction::Effect { args, funcs, labels, op } => effect_op_wf(
            op,
            args@,
            funcs@,
            labels@,
        ),
    }
}

/// Structural well-formedness of one body element.
pub open spec fn code_wf(c: Code) -> bool {
    match c {
        Code::Label { .. } => true,
        Code::Instruction(i) => instr_wf(i),
    }
}

/// Structural well-formedness of a function: every body element is
/// well-formed.
pub open spec fn function_wf(f: Function) -> bool {
    forall|k: int| 0 <= k < f.instrs@.len() ==> code_wf(#[trigger] f.instrs@[k])
}

/// No parameter of the function has a pointer type.
pub open spec fn no_pointer_args(f: Function) -> bool {
    forall|k: int|
        0 <= k < f.args@.len() ==> !((#[trigger] f.args@[k]).arg_type is Pointer)
}

/// Structural well-formedness of a program: every function is
/// well-formed, and no function named `main` takes a pointer parameter —
/// there is no textual encoding that the entry point could parse one
/// from.
pub open spec fn program_wf(p: Program) -> bool {
    forall|k: int|
        0 <= k < p.functions@.len() ==> function_wf(#[trigger] p.functions@[k]) && (
        p.functions@[k].name@ == "main"@ ==> no_pointer_args(p.functions@[k]))
}

impl Instruction {
    /// Decides structural well-formedness of this instruction.
    pub fn is_well_formed(&self) -> (b: bool)
        ensures
            b == instr_wf(*self),
    {
        match self {
            Instruction::Constant { .. } => true,
            Instruction::Value { args, funcs, op, .. } => match op {
                ValueOps::Not => args.len() == 1,
                ValueOps::Id => args.len() == 1,
                ValueOps::Alloc => args.len() == 1,
                ValueOps::Load => args.len() == 1,
                ValueOps::Call => funcs.len() == 1,
                _ => args.len() == 2,
            },
            Instruction::Effect { args, funcs, labels, op } => match op {
                EffectOps::Jump => labels.len() == 1,
                EffectOps::Branch => args.len() == 1 && labels.len() == 2,
                EffectOps::Call => funcs.len() == 1,
                EffectOps::Return => args.len() <= 1,
                EffectOps::Print => true,
                EffectOps::Nop => true,
                EffectOps::Store => args.len() == 2,
                EffectOps::Free => args.len() == 1,
            },
        }
    }
}

impl Function {
    /// Decides structural well-formedness of this function.
    pub fn is_well_formed(&self) -> (b: bool)
        ensures
            b == function_wf(*self),
    {
        let mut k: usize = 0;
        while k < self.instrs.len()
            invariant
                k <= self.instrs.len(),
                forall|j: int| 0 <= j < k ==> code_wf(#[trigger] self.instrs@[j]),
            decreases self.instrs.len() - k,
        {
            let ok = match &self.instrs[k] {
                Code::Label { .. } => true,
                Code::Instruction(i) => i.is_well_formed(),
            };
            if !ok {
                return false;
            }
            k += 1;
        }
        true
    }

    /// Decides whether any parameter of this function has a pointer type.
    pub fn has_pointer_arg(&self) -> (b: bool)
        ensures
            b == !no_pointer_args(*self),
    {
        let mut k: usize = 0;
        while k < self.args.len()
            invariant
                k <= self.args.len(),
                forall|j: int|
                    0 <= j < k ==> !((#[trigger] self.args@[j]).arg_type is Pointer),
            decreases self.args.len() - k,
        {
            if let Type::Pointer(_) = &self.args[k].arg_type {
                return true;
            }
            k += 1;
        }
        false
    }
}

impl Program {
    /// Decides structural well-formedness of this program, including the
    /// absence of pointer parameters on any function named `main`.
    pub fn is_well_formed(&self) -> (b: bool)
        ensures
            b == program_wf(*self),
    {
        let main_name = String::from_str("main");
        let mut k: usize = 0;
        while k < self.functions.len()
            invariant
                main_name@ == "main"@,
                k <= self.functions.len(),
                forall|j: int|
                    0 <= j < k ==> function_wf(#[trigger] self.functions@[j]) && (
                    self.functions@[j].name@ == "main"@ ==> no_pointer_args(self.functions@[j])),
            decreases self.functions.len() - k,
        {
            if !self.functions[k].is_well_formed() {
                return false;
            }
            if self.functions[k].name == main_name && self.functions[k].has_pointer_arg() {
                return false;
            }
            k += 1;
        }
        true
    }
}

/// The type mapping is total: every type, however deeply nested, has a
/// token, and that token is never empty. Determinism is inherent: the
/// token is a function of the type value alone.
pub proof fn lemma_type_rep_total(t: Type)
    ensures
        type_rep(t).len() > 0,
    decreases t,
{
    reveal_strlit("int64_t");
    reveal_strlit("uint8_t");
    reveal_strlit("double");
    reveal_strlit("*");
    match t {
        Type::Pointer(pointed) => {
            lemma_type_rep_total(*pointed);
        },
        _ => {},
    }
}

} // verus!
