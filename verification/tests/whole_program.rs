use brilc::decls::find_static_vars;
use brilc::ir::{Argument, Code, EffectOps, Function, Instruction, Literal, Program, Type, ValueOps};
use brilc::program::func_decl;

fn arg(name: &str, t: Type) -> Argument {
    Argument {
        name: name.to_string(),
        arg_type: t,
    }
}

fn constant(dest: &str, t: Type, value: Literal) -> Code {
    Code::Instruction(Instruction::Constant {
        dest: dest.to_string(),
        const_type: t,
        value,
    })
}

fn value(op: ValueOps, dest: &str, op_type: Type, args: &[&str], funcs: &[&str]) -> Code {
    Code::Instruction(Instruction::Value {
        args: args.iter().map(|s| s.to_string()).collect(),
        dest: dest.to_string(),
        funcs: funcs.iter().map(|s| s.to_string()).collect(),
        labels: Vec::new(),
        op,
        op_type,
    })
}

fn effect(op: EffectOps, args: &[&str], funcs: &[&str], labels: &[&str]) -> Code {
    Code::Instruction(Instruction::Effect {
        args: args.iter().map(|s| s.to_string()).collect(),
        funcs: funcs.iter().map(|s| s.to_string()).collect(),
        labels: labels.iter().map(|s| s.to_string()).collect(),
        op,
    })
}

fn scenario_a() -> Program {
    let helper = Function {
        name: "helper".to_string(),
        args: vec![arg("x", Type::Int)],
        return_type: Some(Type::Int),
        instrs: vec![
            constant("one", Type::Int, Literal::Int(1)),
            value(ValueOps::Add, "sum", Type::Int, &["x", "one"], &[]),
            effect(EffectOps::Return, &["sum"], &[], &[]),
        ],
    };
    let main = Function {
        name: "main".to_string(),
        args: vec![arg("n", Type::Int)],
        return_type: None,
        instrs: vec![
            value(ValueOps::Call, "r", Type::Int, &["n"], &["helper"]),
            effect(EffectOps::Print, &["r"], &[], &[]),
        ],
    };
    Program {
        functions: vec![helper, main],
    }
}

#[test]
fn forward_declarations() {
    let p = scenario_a();
    assert_eq!(func_decl(&p.functions[0]), "int64_t helper__f(int64_t x_);\n");
    assert_eq!(func_decl(&p.functions[1]), "void main__f(int64_t n_);\n");
}

#[test]
fn function_definition_text() {
    let p = scenario_a();
    assert_eq!(
        p.functions[0].crep(),
        "int64_t helper__f(int64_t x_){\nint64_t one_;\nint64_t sum_;\none_ = 1;\nsum_ = x_ + one_;\nreturn sum_;\n}"
    );
    assert_eq!(
        p.functions[1].crep(),
        "void main__f(int64_t n_){\nint64_t r_;\nr_ = helper__f(n_);\nprint(r_);printf(\"\\n\");\n}"
    );
}

#[test]
fn declarations_precede_all_bodies() {
    let p = scenario_a();
    assert!(p.is_well_formed());
    let text = p.crep();
    let helper_decl = text.find("int64_t helper__f(int64_t x_);").unwrap();
    let main_decl = text.find("void main__f(int64_t n_);").unwrap();
    let helper_body = text.find("int64_t helper__f(int64_t x_){").unwrap();
    let main_body = text.find("void main__f(int64_t n_){").unwrap();
    assert!(helper_decl < main_decl);
    assert!(main_decl < helper_body);
    assert!(helper_body < main_body);
}

#[test]
fn entry_point_parses_then_calls_renamed_main() {
    let p = scenario_a();
    let text = p.crep();
    let expected_entry =
        "int main(int argc, char *argv[]){\nint64_t n = atoi(argv[1]);\nmain__f(n);\nreturn 0;\n}";
    assert!(text.ends_with(expected_entry));
    let parse = text.find("int64_t n = atoi(argv[1]);").unwrap();
    let call = text.find("main__f(n);").unwrap();
    assert!(parse < call);
}

#[test]
fn entry_point_argument_positions_and_types() {
    let main = Function {
        name: "main".to_string(),
        args: vec![arg("a", Type::Int), arg("b", Type::Float), arg("c", Type::Bool)],
        return_type: None,
        instrs: vec![effect(EffectOps::Print, &["a"], &[], &[])],
    };
    let p = Program {
        functions: vec![main],
    };
    let text = p.crep();
    assert!(text.contains("int64_t a = atoi(argv[1]);\n"));
    assert!(text.contains("double b = atof(argv[2]);\n"));
    assert!(text.contains("uint8_t c = atoi(argv[3]);\n"));
    assert!(text.contains("main__f(a,b,c);\n"));
}

#[test]
fn whole_program_text_for_one_boolean_constant() {
    let main = Function {
        name: "main".to_string(),
        args: Vec::new(),
        return_type: None,
        instrs: vec![constant("b", Type::Bool, Literal::Bool(true))],
    };
    let p = Program {
        functions: vec![main],
    };
    let mut expected = String::new();
    expected.push_str(
        "#include <stdint.h>\n#include <stdlib.h>\n#include <stdio.h>\n#include <inttypes.h>\n",
    );
    expected.push_str("\n");
    expected.push_str("uint8_t true = 1; uint8_t false = 0;");
    expected.push_str("\n\n");
    expected.push_str(
        "#define print(x) _Generic((x), int64_t: printf(\"%\" PRId64 \" \", x), uint8_t: printf(\"%s \", (x) ? \"true\" : \"false\"), double: printf(\"%.17g \", x))",
    );
    expected.push_str("\n\n");
    expected.push_str("void main__f();\n");
    expected.push_str("\n\n");
    expected.push_str("void main__f(){\nuint8_t b_;\nb_ = true;\n}");
    expected.push_str("\n\n");
    expected.push_str("int main(int argc, char *argv[]){\nmain__f();\nreturn 0;\n}");
    assert_eq!(p.crep(), expected);
}

#[test]
fn program_without_main_still_renders() {
    let f = Function {
        name: "lone".to_string(),
        args: Vec::new(),
        return_type: None,
        instrs: vec![effect(EffectOps::Nop, &[], &[], &[])],
    };
    let p = Program {
        functions: vec![f],
    };
    let text = p.crep();
    assert!(text.ends_with("int main(int argc, char *argv[]){\nmain__f();\nreturn 0;\n}"));
}

#[test]
fn empty_program_renders_preamble_and_entry() {
    let p = Program {
        functions: Vec::new(),
    };
    let text = p.crep();
    assert!(text.starts_with("#include <stdint.h>\n"));
    assert!(text.contains("uint8_t true = 1; uint8_t false = 0;"));
    assert!(text.contains("#define print(x) _Generic((x), int64_t:"));
    assert!(text.ends_with("int main(int argc, char *argv[]){\nmain__f();\nreturn 0;\n}"));
}

#[test]
fn hoisting_skips_parameters_and_duplicates() {
    let f = Function {
        name: "f".to_string(),
        args: vec![arg("x", Type::Int)],
        return_type: None,
        instrs: vec![
            constant("x", Type::Int, Literal::Int(1)),
            constant("y", Type::Int, Literal::Int(2)),
            constant("y", Type::Int, Literal::Int(3)),
            value(ValueOps::Add, "z", Type::Int, &["x", "y"], &[]),
        ],
    };
    let vars = find_static_vars(&f);
    assert_eq!(vars.len(), 2);
    assert_eq!(vars[0].name, "y");
    assert_eq!(vars[0].var_type, Type::Int);
    assert_eq!(vars[1].name, "z");
    assert_eq!(vars[1].var_type, Type::Int);
}

#[test]
fn hoisting_order_is_first_seen() {
    let f = Function {
        name: "f".to_string(),
        args: Vec::new(),
        return_type: None,
        instrs: vec![
            constant("b", Type::Bool, Literal::Bool(false)),
            constant("a", Type::Int, Literal::Int(0)),
            constant("b", Type::Bool, Literal::Bool(true)),
        ],
    };
    let vars = find_static_vars(&f);
    assert_eq!(vars.len(), 2);
    assert_eq!(vars[0].name, "b");
    assert_eq!(vars[1].name, "a");
}

#[test]
fn hoisting_ignores_effect_insertion() {
    let without = Function {
        name: "f".to_string(),
        args: Vec::new(),
        return_type: None,
        instrs: vec![
            constant("a", Type::Int, Literal::Int(1)),
            value(ValueOps::Id, "b", Type::Int, &["a"], &[]),
        ],
    };
    let with = Function {
        name: "f".to_string(),
        args: Vec::new(),
        return_type: None,
        instrs: vec![
            constant("a", Type::Int, Literal::Int(1)),
            effect(EffectOps::Print, &["a"], &[], &[]),
            value(ValueOps::Id, "b", Type::Int, &["a"], &[]),
        ],
    };
    let v1 = find_static_vars(&without);
    let v2 = find_static_vars(&with);
    assert_eq!(v1.len(), v2.len());
    for (a, b) in v1.iter().zip(v2.iter()) {
        assert!(a == b);
    }
}

#[test]
fn pointer_parameter_on_main_is_rejected() {
    let main = Function {
        name: "main".to_string(),
        args: vec![arg("p", Type::Pointer(Box::new(Type::Int)))],
        return_type: None,
        instrs: Vec::new(),
    };
    let p = Program {
        functions: vec![main],
    };
    assert!(!p.is_well_formed());
    let other = Function {
        name: "other".to_string(),
        args: vec![arg("p", Type::Pointer(Box::new(Type::Int)))],
        return_type: None,
        instrs: Vec::new(),
    };
    let q = Program {
        functions: vec![other],
    };
    assert!(q.is_well_formed());
}
