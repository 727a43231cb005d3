use brilc::decimal::{i64_dec, u64_dec};
use brilc::ir::{EffectOps, Instruction, Literal, Type, ValueOps};
use brilc::mangle::{func_rep, mangle};

fn value(op: ValueOps, dest: &str, op_type: Type, args: &[&str], funcs: &[&str]) -> Instruction {
    Instruction::Value {
        args: args.iter().map(|s| s.to_string()).collect(),
        dest: dest.to_string(),
        funcs: funcs.iter().map(|s| s.to_string()).collect(),
        labels: Vec::new(),
        op,
        op_type,
    }
}

fn effect(op: EffectOps, args: &[&str], funcs: &[&str], labels: &[&str]) -> Instruction {
    Instruction::Effect {
        args: args.iter().map(|s| s.to_string()).collect(),
        funcs: funcs.iter().map(|s| s.to_string()).collect(),
        labels: labels.iter().map(|s| s.to_string()).collect(),
        op,
    }
}

#[test]
fn type_tokens() {
    assert_eq!(Type::Int.crep(), "int64_t");
    assert_eq!(Type::Bool.crep(), "uint8_t");
    assert_eq!(Type::Float.crep(), "double");
    assert_eq!(Type::Pointer(Box::new(Type::Int)).crep(), "int64_t*");
    assert_eq!(
        Type::Pointer(Box::new(Type::Pointer(Box::new(Type::Bool)))).crep(),
        "uint8_t**"
    );
}

#[test]
fn type_mapping_deterministic() {
    let a = Type::Pointer(Box::new(Type::Float));
    let b = Type::Pointer(Box::new(Type::Float));
    assert_eq!(a.crep(), b.crep());
    assert_eq!(a.crep(), a.crep());
}

#[test]
fn mangling_basics() {
    assert_eq!(mangle("x"), "x_");
    assert_eq!(mangle("a.b"), "a_b_");
    assert_eq!(mangle("a..b"), "a__b_");
    assert_eq!(mangle(""), "_");
}

#[test]
fn mangling_distinct_for_dotted_names() {
    let inputs = ["a.b", "ab", "a..b", "a.b.c", "abc", "b.a"];
    let mut seen: Vec<String> = Vec::new();
    for i in inputs {
        let m = mangle(i);
        assert!(!seen.contains(&m), "collision on {i}");
        seen.push(m);
    }
}

#[test]
fn function_names_get_their_own_suffix() {
    assert_eq!(func_rep("main".to_string()), "main__f");
    assert_eq!(func_rep("helper".to_string()), "helper__f");
    assert_eq!(func_rep("do.work".to_string()), "do_work__f");
    // A function name never collides with a mangled variable name.
    assert_ne!(func_rep("x".to_string()), mangle("x"));
}

#[test]
fn decimal_rendering() {
    assert_eq!(u64_dec(0), "0");
    assert_eq!(u64_dec(7), "7");
    assert_eq!(u64_dec(1234567890), "1234567890");
    assert_eq!(i64_dec(0), "0");
    assert_eq!(i64_dec(42), "42");
    assert_eq!(i64_dec(-42), "-42");
    assert_eq!(i64_dec(i64::MAX), "9223372036854775807");
    assert_eq!(i64_dec(i64::MIN), "-9223372036854775808");
}

#[test]
fn constant_int_statement() {
    let i = Instruction::Constant {
        dest: "v".to_string(),
        const_type: Type::Int,
        value: Literal::Int(5),
    };
    assert_eq!(i.crep(), "v_ = 5;");
}

#[test]
fn constant_bool_uses_shared_constant() {
    let i = Instruction::Constant {
        dest: "b".to_string(),
        const_type: Type::Bool,
        value: Literal::Bool(true),
    };
    assert_eq!(i.crep(), "b_ = true;");
    let j = Instruction::Constant {
        dest: "b".to_string(),
        const_type: Type::Bool,
        value: Literal::Bool(false),
    };
    assert_eq!(j.crep(), "b_ = false;");
}

#[test]
fn constant_float_uses_loader_text() {
    let i = Instruction::Constant {
        dest: "f".to_string(),
        const_type: Type::Float,
        value: Literal::Float("2.5".to_string()),
    };
    assert_eq!(i.crep(), "f_ = 2.5;");
}

#[test]
fn binary_operators() {
    assert_eq!(
        value(ValueOps::Add, "s", Type::Int, &["a", "b"], &[]).crep(),
        "s_ = a_ + b_;"
    );
    assert_eq!(
        value(ValueOps::Sub, "s", Type::Int, &["a", "b"], &[]).crep(),
        "s_ = a_ - b_;"
    );
    assert_eq!(
        value(ValueOps::Mul, "s", Type::Int, &["a", "b"], &[]).crep(),
        "s_ = a_ * b_;"
    );
    assert_eq!(
        value(ValueOps::Div, "s", Type::Int, &["a", "b"], &[]).crep(),
        "s_ = a_ / b_;"
    );
    assert_eq!(
        value(ValueOps::Eq, "c", Type::Bool, &["a", "b"], &[]).crep(),
        "c_ = a_ == b_;"
    );
    assert_eq!(
        value(ValueOps::Le, "c", Type::Bool, &["a", "b"], &[]).crep(),
        "c_ = a_ <= b_;"
    );
    assert_eq!(
        value(ValueOps::Fge, "c", Type::Bool, &["a", "b"], &[]).crep(),
        "c_ = a_ >= b_;"
    );
    assert_eq!(
        value(ValueOps::PtrAdd, "p", Type::Pointer(Box::new(Type::Int)), &["a", "b"], &[]).crep(),
        "p_ = a_ + b_;"
    );
}

#[test]
fn and_or_stay_bitwise() {
    assert_eq!(
        value(ValueOps::And, "c", Type::Bool, &["a", "b"], &[]).crep(),
        "c_ = a_ & b_;"
    );
    assert_eq!(
        value(ValueOps::Or, "c", Type::Bool, &["a", "b"], &[]).crep(),
        "c_ = a_ | b_;"
    );
}

#[test]
fn unary_and_special_values() {
    assert_eq!(
        value(ValueOps::Not, "c", Type::Bool, &["a"], &[]).crep(),
        "c_ = !a_;"
    );
    assert_eq!(
        value(ValueOps::Id, "c", Type::Int, &["a"], &[]).crep(),
        "c_ = a_;"
    );
    assert_eq!(
        value(ValueOps::Load, "v", Type::Int, &["p"], &[]).crep(),
        "v_ = *(p_);"
    );
    // sizeof speaks of the element type, not the pointer type.
    assert_eq!(
        value(ValueOps::Alloc, "p", Type::Pointer(Box::new(Type::Int)), &["n"], &[]).crep(),
        "p_ = malloc(n_*sizeof(int64_t));"
    );
    assert_eq!(
        value(
            ValueOps::Alloc,
            "q",
            Type::Pointer(Box::new(Type::Pointer(Box::new(Type::Bool)))),
            &["n"],
            &[]
        )
        .crep(),
        "q_ = malloc(n_*sizeof(uint8_t*));"
    );
}

#[test]
fn value_call_statement() {
    assert_eq!(
        value(ValueOps::Call, "r", Type::Int, &["a", "b"], &["helper"]).crep(),
        "r_ = helper__f(a_, b_);"
    );
    assert_eq!(
        value(ValueOps::Call, "r", Type::Int, &[], &["zero"]).crep(),
        "r_ = zero__f();"
    );
}

#[test]
fn effect_statements() {
    assert_eq!(effect(EffectOps::Jump, &[], &[], &["top"]).crep(), "goto top_;");
    assert_eq!(
        effect(EffectOps::Call, &["a"], &["go"], &[]).crep(),
        "go__f(a_);"
    );
    assert_eq!(effect(EffectOps::Return, &[], &[], &[]).crep(), "return ;");
    assert_eq!(effect(EffectOps::Return, &["v"], &[], &[]).crep(), "return v_;");
    assert_eq!(effect(EffectOps::Nop, &[], &[], &[]).crep(), ";");
    assert_eq!(
        effect(EffectOps::Store, &["p", "v"], &[], &[]).crep(),
        "*p_ = v_;"
    );
    assert_eq!(effect(EffectOps::Free, &["p"], &[], &[]).crep(), "free(p_);");
}

#[test]
fn branch_renders_one_if_else_pair() {
    let b = effect(EffectOps::Branch, &["cond"], &[], &["yes", "no"]);
    let text = b.crep();
    assert_eq!(text, "if (cond_) {goto yes_;} else {goto no_;}");
    // True target first, false target second, always.
    let swapped = effect(EffectOps::Branch, &["cond"], &[], &["no", "yes"]);
    assert_eq!(swapped.crep(), "if (cond_) {goto no_;} else {goto yes_;}");
}

#[test]
fn print_zero_arguments() {
    let p = effect(EffectOps::Print, &[], &[], &[]);
    let text = p.crep();
    assert_eq!(text, "printf(\"\\n\");");
    assert_eq!(text.matches("print(").count(), 0);
}

#[test]
fn print_one_argument() {
    let p = effect(EffectOps::Print, &["x"], &[], &[]);
    let text = p.crep();
    assert_eq!(text, "print(x_);printf(\"\\n\");");
    assert_eq!(text.matches("print(").count(), 1);
    assert_eq!(text.matches("printf(\"\\n\");").count(), 1);
}

#[test]
fn print_three_arguments() {
    let p = effect(EffectOps::Print, &["x", "y", "z"], &[], &[]);
    let text = p.crep();
    assert_eq!(text, "print(x_);print(y_);print(z_);printf(\"\\n\");");
    assert_eq!(text.matches("print(").count(), 3);
    assert_eq!(text.matches("printf(\"\\n\");").count(), 1);
}

#[test]
fn labels_render_with_colon() {
    let c = brilc::ir::Code::Label {
        label: "loop.top".to_string(),
    };
    assert_eq!(c.crep(), "loop_top_:");
}

#[test]
fn operator_token_table() {
    assert_eq!(ValueOps::Add.crep(), "+");
    assert_eq!(ValueOps::Fadd.crep(), "+");
    assert_eq!(ValueOps::Fsub.crep(), "-");
    assert_eq!(ValueOps::Fmul.crep(), "*");
    assert_eq!(ValueOps::Fdiv.crep(), "/");
    assert_eq!(ValueOps::Feq.crep(), "==");
    assert_eq!(ValueOps::Lt.crep(), "<");
    assert_eq!(ValueOps::Flt.crep(), "<");
    assert_eq!(ValueOps::Gt.crep(), ">");
    assert_eq!(ValueOps::Fle.crep(), "<=");
    assert_eq!(ValueOps::Ge.crep(), ">=");
    assert_eq!(ValueOps::Not.crep(), "!");
}

#[test]
fn literal_rendering() {
    assert_eq!(Literal::Int(-7).crep(), "-7");
    assert_eq!(Literal::Bool(true).crep(), "true");
    assert_eq!(Literal::Float("1e-3".to_string()).crep(), "1e-3");
}

#[test]
fn well_formedness_checks() {
    assert!(value(ValueOps::Add, "s", Type::Int, &["a", "b"], &[]).is_well_formed());
    assert!(!value(ValueOps::Add, "s", Type::Int, &["a"], &[]).is_well_formed());
    assert!(value(ValueOps::Not, "s", Type::Bool, &["a"], &[]).is_well_formed());
    assert!(!value(ValueOps::Not, "s", Type::Bool, &["a", "b"], &[]).is_well_formed());
    assert!(value(ValueOps::Call, "s", Type::Int, &[], &["f"]).is_well_formed());
    assert!(!value(ValueOps::Call, "s", Type::Int, &[], &[]).is_well_formed());
    assert!(effect(EffectOps::Branch, &["c"], &[], &["a", "b"]).is_well_formed());
    assert!(!effect(EffectOps::Branch, &["c"], &[], &["a"]).is_well_formed());
    assert!(effect(EffectOps::Return, &[], &[], &[]).is_well_formed());
    assert!(effect(EffectOps::Return, &["v"], &[], &[]).is_well_formed());
    // A return with more than one argument is a structural violation.
    assert!(!effect(EffectOps::Return, &["v", "w"], &[], &[]).is_well_formed());
    assert!(!effect(EffectOps::Store, &["p"], &[], &[]).is_well_formed());
    assert!(!effect(EffectOps::Jump, &[], &[], &[]).is_well_formed());
}
