//! The declaration collector: a single scan over a function body that
//! gathers, in first-seen order, the (type, name) pair of every
//! destination that is not already a parameter, each pair at most once.

use crate::ir::{Argument, Code, Function, Instruction, Type};
use crate::text::names_of;
use vstd::prelude::*;

verus! {

/// One local variable to declare ahead of a function body.
pub struct StaticVar {
    pub var_type: Type,
    pub name: String,
}

impl PartialEq for StaticVar {
    fn eq(&self, other: &StaticVar) -> (r: bool) {
        self.var_type == other.var_type && self.name == other.name
    }
}

impl vstd::std_specs::cmp::PartialEqSpecImpl for StaticVar {
    open spec fn obeys_eq_spec() -> bool {
        true
    }

    open spec fn eq_spec(&self, other: &StaticVar) -> bool {
        self.var_type == other.var_type && self.name@ == other.name@
    }
}

/// The (type, name) pairs that a sequence of declarations stands for.
pub open spec fn vars_view(v: Seq<StaticVar>) -> Seq<(Type, Seq<char>)> {
    v.map_values(|sv: StaticVar| (sv.var_type, sv.name@))
}

/// The (type, destination) pair that a body element contributes to the
/// declared set: constants and value operations contribute their
/// destination, effects and labels contribute nothing.
pub open spec fn decl_entry(c: Code) -> Option<(Type, Seq<char>)> {
    match c {
        Code::Instruction(i) => match i {
            Instruction::Constant { dest, const_type, .. } => Some((const_type, dest@)),
            Instruction::Value { dest, op_type, .. } => Some((op_type, dest@)),
            Instruction::Effect { .. } => None,
        },
        Code::Label { .. } => None,
    }
}

/// Scans the body in order, extending `acc` with each contributed pair
/// whose name is not a parameter and which was not contributed before.
pub open spec fn collect_decls(
    params: Seq<Seq<char>>,
    instrs: Seq<Code>,
    acc: Seq<(Type, Seq<char>)>,
) -> Seq<(Type, Seq<char>)>
    decreases instrs.len(),
{
    if instrs.len() == 0 {
        acc
    } else {
        let rest = instrs.drop_first();
        match decl_entry(instrs.first()) {
            Some(p) => if params.contains(p.1) || acc.contains(p) {
                collect_decls(params, rest, acc)
            } else {
                collect_decls(params, rest, acc.push(p))
            },
            None => collect_decls(params, rest, acc),
        }
    }
}

/// The parameter names of a function.
pub open spec fn param_names(f: Function) -> Seq<Seq<char>> {
    f.args@.map_values(|a: Argument| a.name@)
}

/// The declared variables of a function, in first-seen order.
pub open spec fn static_vars_spec(f: Function) -> Seq<(Type, Seq<char>)> {
    collect_decls(param_names(f), f.instrs@, Seq::empty())
}

/// The declared list — contents and order both — never changes when an
/// effect instruction is inserted at any position of the body, nor,
/// read in the other direction, when one is removed: effects contribute
/// no declaration.
pub proof fn lemma_decls_effect_invariant(
    params: Seq<Seq<char>>,
    instrs: Seq<Code>,
    acc: Seq<(Type, Seq<char>)>,
    i: int,
    e: Instruction,
)
    requires
        0 <= i <= instrs.len(),
        e is Effect,
    ensures
        collect_decls(params, instrs.insert(i, Code::Instruction(e)), acc) == collect_decls(
            params,
            instrs,
            acc,
        ),
    decreases instrs.len(),
{
    let ce = Code::Instruction(e);
    let s2 = instrs.insert(i, ce);
    if i == 0 {
        assert(s2.first() == ce);
        assert(decl_entry(ce) is None);
        assert(s2.drop_first() =~= instrs);
    } else {
        assert(s2.first() == instrs.first());
        assert(s2.drop_first() =~= instrs.drop_first().insert(i - 1, ce));
        lemma_decls_effect_invariant(params, instrs.drop_first(), acc, i - 1, e);
        match decl_entry(instrs.first()) {
            Some(p) => {
                if !(params.contains(p.1) || acc.contains(p)) {
                    lemma_decls_effect_invariant(
                        params,
                        instrs.drop_first(),
                        acc.push(p),
                        i - 1,
                        e,
                    );
                }
            },
            None => {},
        }
    }
}

/// The same invariance stated of whole functions: a body that differs
/// only by one inserted effect instruction declares the same variables
/// in the same order.
pub proof fn lemma_static_vars_effect_invariant(f: Function, g: Function, i: int, e: Instruction)
    requires
        g.args == f.args,
        0 <= i <= f.instrs@.len(),
        e is Effect,
        g.instrs@ == f.instrs@.insert(i, Code::Instruction(e)),
    ensures
        static_vars_spec(g) == static_vars_spec(f),
{
    lemma_decls_effect_invariant(param_names(f), f.instrs@, Seq::empty(), i, e);
}

fn contains_name(v: &Vec<String>, name: &String) -> (b: bool)
    ensures
        b == names_of(v@).contains(name@),
{
    let mut k: usize = 0;
    while k < v.len()
        invariant
            k <= v.len(),
            forall|j: int| 0 <= j < k ==> names_of(v@)[j] != name@,
        decreases v.len() - k,
    {
        if v[k] == *name {
            proof {
                assert(names_of(v@)[k as int] == name@);
            }
            return true;
        }
        proof {
            assert(names_of(v@)[k as int] == v@[k as int]@);
        }
        k += 1;
    }
    false
}

fn contains_var(v: &Vec<StaticVar>, x: &StaticVar) -> (b: bool)
    ensures
        b == vars_view(v@).contains((x.var_type, x.name@)),
{
    let mut k: usize = 0;
    while k < v.len()
        invariant
            k <= v.len(),
            forall|j: int| 0 <= j < k ==> vars_view(v@)[j] != (x.var_type, x.name@),
        decreases v.len() - k,
    {
        if v[k] == *x {
            proof {
                assert(vars_view(v@)[k as int] == (x.var_type, x.name@));
            }
            return true;
        }
        proof {
            assert(vars_view(v@)[k as int] == (v@[k as int].var_type, v@[k as int].name@));
        }
        k += 1;
    }
    false
}

/// Scans a function body and returns its local declarations: the (type,
/// destination) pair of each constant or value instruction, skipping
/// names already present as parameters and pairs already collected, in
/// first-seen order. Effect instructions and labels never contribute.
pub fn find_static_vars(function: &Function) -> (r: Vec<StaticVar>)
    ensures
        vars_view(r@) == static_vars_spec(*function),
{
    let ghost params = param_names(*function);
    let mut input_vars: Vec<String> = Vec::new();
    let mut a: usize = 0;
    while a < function.args.len()
        invariant
            a <= function.args.len(),
            names_of(input_vars@) == params.take(a as int),
            params == param_names(*function),
        decreases function.args.len() - a,
    {
        let ghost prev = input_vars@;
        input_vars.push(function.args[a].name.clone());
        proof {
            assert(names_of(prev).len() == prev.len());
            assert(prev.len() == a);
            assert(names_of(input_vars@).len() == input_vars@.len());
            assert(params[a as int] == function.args@[a as int].name@);
            assert forall|j: int| 0 <= j <= a implies names_of(input_vars@)[j] == params.take(
                a + 1 as int,
            )[j] by {
                assert(names_of(input_vars@)[j] == input_vars@[j]@);
                if j < a {
                    assert(input_vars@[j] == prev[j]);
                    assert(names_of(prev)[j] == prev[j]@);
                }
            }
            assert(names_of(input_vars@) =~= params.take(a + 1 as int));
        }
        a += 1;
    }
    proof {
        assert(params.take(function.args@.len() as int) =~= params);
    }

    let mut static_vars: Vec<StaticVar> = Vec::new();
    let ghost goal = static_vars_spec(*function);
    proof {
        assert(function.instrs@.skip(0) =~= function.instrs@);
        assert(vars_view(static_vars@) =~= Seq::<(Type, Seq<char>)>::empty());
    }
    let mut i: usize = 0;
    while i < function.instrs.len()
        invariant
            i <= function.instrs.len(),
            names_of(input_vars@) == params,
            params == param_names(*function),
            goal == static_vars_spec(*function),
            collect_decls(params, function.instrs@.skip(i as int), vars_view(static_vars@))
                == goal,
        decreases function.instrs.len() - i,
    {
        let ghost pending = function.instrs@.skip(i as int);
        proof {
            assert(pending.first() == function.instrs@[i as int]);
            assert(pending.drop_first() =~= function.instrs@.skip(i + 1 as int));
        }
        match &function.instrs[i] {
            Code::Instruction(instr) => {
                match instr {
                    Instruction::Constant { dest, const_type, .. } => {
                        let static_var = StaticVar {
                            var_type: const_type.duplicate(),
                            name: dest.clone(),
                        };
                        proof {
                            assert(decl_entry(pending.first()) == Some(
                                (static_var.var_type, static_var.name@),
                            ));
                        }
                        if !contains_var(&static_vars, &static_var) && !contains_name(
                            &input_vars,
                            &static_var.name,
                        ) {
                            let ghost prev = static_vars@;
                            static_vars.push(static_var);
                            proof {
                                assert(vars_view(static_vars@) =~= vars_view(prev).push(
                                    (static_vars@.last().var_type, static_vars@.last().name@),
                                ));
                            }
                        }
                    },
                    Instruction::Value { dest, op_type, .. } => {
                        let static_var = StaticVar {
                            var_type: op_type.duplicate(),
                            name: dest.clone(),
                        };
                        proof {
                            assert(decl_entry(pending.first()) == Some(
                                (static_var.var_type, static_var.name@),
                            ));
                        }
                        if !contains_var(&static_vars, &static_var) && !contains_name(
                            &input_vars,
                            &static_var.name,
                        ) {
                            let ghost prev = static_vars@;
                            static_vars.push(static_var);
                            proof {
                                assert(vars_view(static_vars@) =~= vars_view(prev).push(
                                    (static_vars@.last().var_type, static_vars@.last().name@),
                                ));
                            }
                        }
                    },
                    Instruction::Effect { .. } => {},
                }
            },
            Code::Label { .. } => {},
        }
        i += 1;
    }
    proof {
        assert(function.instrs@.skip(function.instrs@.len() as int) =~= Seq::<Code>::empty());
    }
    static_vars
}

} // verus!
