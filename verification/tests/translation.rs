use symjit_bridge::instructions::translate;
use symjit_bridge::layout::{flatten_complex, unflatten_complex};
use symjit_bridge::runners::CompiledRealRunner;
use symjit_bridge::slots::{builtin_symbol, slot, slot_list};
use symjit_bridge::validity::validate;
use symjit_bridge::values::Number;
use symjit_bridge::{
    BuiltinSymbol, CompileError, ComplexBits, Config, EvalSlot, GenOp, GenSlot, Instruction,
    RealBits,
};

#[test]
fn slot_mapper_keeps_class_and_index() {
    assert_eq!(slot(EvalSlot::Param(3)), GenSlot::Param(3));
    assert_eq!(slot(EvalSlot::Out(0)), GenSlot::Out(0));
    assert_eq!(slot(EvalSlot::Const(17)), GenSlot::Const(17));
    assert_eq!(slot(EvalSlot::Temp(5)), GenSlot::Temp(5));
}

#[test]
fn slot_list_keeps_order_and_length() {
    let v = vec![EvalSlot::Param(0), EvalSlot::Temp(2), EvalSlot::Const(1)];
    let r = slot_list(&v);
    assert_eq!(
        r,
        vec![GenSlot::Param(0), GenSlot::Temp(2), GenSlot::Const(1)]
    );
}

#[test]
fn builtin_symbol_keeps_the_id() {
    assert_eq!(builtin_symbol(BuiltinSymbol(42)).0, 42);
}

#[test]
fn translate_appends_constants_first_in_order() {
    let instrs = vec![Instruction::Assign(EvalSlot::Out(0), EvalSlot::Const(1))];
    let consts = vec![
        ComplexBits { re: 1, im: 2 },
        ComplexBits { re: 3, im: 4 },
    ];
    let ops = translate(&instrs, &consts);
    assert_eq!(ops.len(), 3);
    assert!(matches!(ops[0], GenOp::Constant(ComplexBits { re: 1, im: 2 })));
    assert!(matches!(ops[1], GenOp::Constant(ComplexBits { re: 3, im: 4 })));
    assert!(matches!(
        ops[2],
        GenOp::Assign(GenSlot::Out(0), GenSlot::Const(1))
    ));
}

#[test]
fn translate_maps_every_operand() {
    let instrs = vec![
        Instruction::Mul(
            EvalSlot::Temp(0),
            vec![EvalSlot::Param(0), EvalSlot::Param(1)],
            2,
        ),
        Instruction::Fun(EvalSlot::Temp(1), BuiltinSymbol(4), EvalSlot::Temp(0), true),
        Instruction::Powf(EvalSlot::Out(0), EvalSlot::Temp(1), EvalSlot::Param(0), true),
    ];
    let consts: Vec<ComplexBits> = Vec::new();
    let ops = translate(&instrs, &consts);
    assert_eq!(ops.len(), 3);
    match &ops[0] {
        GenOp::Mul(d, a, n) => {
            assert_eq!(*d, GenSlot::Temp(0));
            assert_eq!(*a, vec![GenSlot::Param(0), GenSlot::Param(1)]);
            assert_eq!(*n, 2);
        },
        _ => panic!("expected a multiplication"),
    }
    assert!(matches!(&ops[1], GenOp::Fun(GenSlot::Temp(1), f, GenSlot::Temp(0), true) if f.0 == 4));
    assert!(matches!(
        &ops[2],
        GenOp::Powf(GenSlot::Out(0), GenSlot::Temp(1), GenSlot::Param(0), true)
    ));
}

fn ops_of(instrs: Vec<Instruction>, n_consts: usize) -> Vec<GenOp> {
    let consts = vec![ComplexBits { re: 0, im: 0 }; n_consts];
    translate(&instrs, &consts)
}

#[test]
fn validate_accepts_single_pass_streams() {
    let good = ops_of(
        vec![
            Instruction::Pow(EvalSlot::Temp(0), EvalSlot::Param(1), 2, true),
            Instruction::Add(
                EvalSlot::Out(0),
                vec![EvalSlot::Param(0), EvalSlot::Temp(0), EvalSlot::Const(0)],
                3,
            ),
        ],
        1,
    );
    assert!(validate(&good));
}

#[test]
fn validate_rejects_a_temporary_read_before_any_write() {
    let bad = ops_of(
        vec![Instruction::Assign(EvalSlot::Out(0), EvalSlot::Temp(0))],
        0,
    );
    assert!(!validate(&bad));
}

#[test]
fn validate_rejects_a_constant_outside_the_pool() {
    let bad = ops_of(
        vec![Instruction::Assign(EvalSlot::Out(0), EvalSlot::Const(1))],
        1,
    );
    assert!(!validate(&bad));
}

#[test]
fn validate_rejects_duplicate_labels() {
    let bad = ops_of(
        vec![
            Instruction::Label(7),
            Instruction::Assign(EvalSlot::Out(0), EvalSlot::Param(0)),
            Instruction::Label(7),
        ],
        0,
    );
    assert!(!validate(&bad));
}

#[test]
fn validate_rejects_a_branch_without_a_later_label() {
    let missing = ops_of(
        vec![
            Instruction::IfElse(EvalSlot::Param(0), 3),
            Instruction::Assign(EvalSlot::Out(0), EvalSlot::Param(0)),
        ],
        0,
    );
    assert!(!validate(&missing));

    let earlier = ops_of(
        vec![
            Instruction::Label(3),
            Instruction::Goto(3),
            Instruction::Assign(EvalSlot::Out(0), EvalSlot::Param(0)),
        ],
        0,
    );
    assert!(!validate(&earlier));
}

#[test]
fn validate_accepts_control_flow_in_order() {
    let good = ops_of(
        vec![
            Instruction::Assign(EvalSlot::Temp(0), EvalSlot::Param(0)),
            Instruction::IfElse(EvalSlot::Param(0), 1),
            Instruction::Assign(EvalSlot::Temp(0), EvalSlot::Param(1)),
            Instruction::Goto(2),
            Instruction::Label(1),
            Instruction::Assign(EvalSlot::Temp(0), EvalSlot::Param(0)),
            Instruction::Label(2),
            Instruction::Assign(EvalSlot::Out(0), EvalSlot::Temp(0)),
        ],
        0,
    );
    assert!(validate(&good));
}

#[test]
fn validate_rejects_an_empty_operand_list() {
    let bad = ops_of(
        vec![Instruction::Add(EvalSlot::Out(0), Vec::new(), 0)],
        0,
    );
    assert!(!validate(&bad));
    let bad2 = ops_of(
        vec![Instruction::Mul(EvalSlot::Out(0), Vec::new(), 0)],
        0,
    );
    assert!(!validate(&bad2));
}

#[test]
fn validate_rejects_an_oversized_external_call() {
    let args = vec![EvalSlot::Param(0); 256];
    let bad = ops_of(
        vec![Instruction::ExternalFun(EvalSlot::Out(0), String::from("f"), args)],
        0,
    );
    assert!(!validate(&bad));
}

#[test]
fn validate_rejects_an_overlong_external_name() {
    let name: String = std::iter::repeat('f').take(64).collect();
    let bad = ops_of(
        vec![Instruction::ExternalFun(
            EvalSlot::Out(0),
            name,
            vec![EvalSlot::Param(0)],
        )],
        0,
    );
    assert!(!validate(&bad));
}

#[test]
fn validate_rejects_an_index_outside_the_arithmetic_range() {
    let bad = ops_of(
        vec![Instruction::Assign(
            EvalSlot::Out(0),
            EvalSlot::Param(usize::MAX - 1),
        )],
        0,
    );
    assert!(!validate(&bad));
}

#[test]
fn compile_rejects_an_invalid_stream() {
    let instrs = vec![Instruction::Assign(EvalSlot::Out(0), EvalSlot::Temp(0))];
    let consts: Vec<RealBits> = Vec::new();
    let r = CompiledRealRunner::compile(&instrs, &consts, 1, Config::default());
    assert!(matches!(r, Err(CompileError::InvalidStream)));
}

#[test]
fn compile_surfaces_a_code_generation_failure() {
    // An external function the code generator does not know.
    let instrs = vec![Instruction::ExternalFun(
        EvalSlot::Out(0),
        String::from("nosuchfunction"),
        vec![EvalSlot::Param(0)],
    )];
    let consts: Vec<RealBits> = Vec::new();
    let r = CompiledRealRunner::compile(&instrs, &consts, 1, Config::default());
    assert!(matches!(r, Err(CompileError::Codegen(_))));
}

#[test]
fn generic_compile_normalizes_the_constant_pool() {
    // out = c * x with the coefficient c = 2.5 taken from the pool; a
    // wrong bit pattern handed to the generator would change the product.
    let instrs = vec![Instruction::Mul(
        EvalSlot::Out(0),
        vec![EvalSlot::Const(0), EvalSlot::Param(0)],
        2,
    )];
    let consts = vec![RealBits(2.5f64.to_bits())];
    let art = symjit_bridge::compile(&instrs, &consts, 1, Config::default()).unwrap();
    let u = art.application().evaluate_single(&[4.0f64]);
    assert_eq!(u, 10.0);
}

#[test]
fn flatten_round_trip_keeps_every_component() {
    let v = vec![
        ComplexBits { re: 1, im: 2 },
        ComplexBits { re: 3, im: 4 },
        ComplexBits { re: 5, im: 6 },
    ];
    let flat = flatten_complex(&v);
    assert_eq!(flat, vec![1, 2, 3, 4, 5, 6]);
    let back = unflatten_complex(&flat);
    assert_eq!(back, v);
}

#[test]
fn real_coefficients_embed_with_zero_imaginary_part() {
    let x = RealBits(3.5f64.to_bits());
    let z = x.as_complex();
    assert_eq!(f64::from_bits(z.re), 3.5);
    assert_eq!(f64::from_bits(z.im), 0.0);
    let c = ComplexBits { re: 9, im: 11 };
    assert_eq!(c.as_complex(), c);
}

#[test]
fn config_defaults_and_setters() {
    let mut c = Config::default();
    assert!(!c.complex && !c.simd && !c.use_threads() && !c.bytecode);
    c.set_complex(true);
    c.set_simd(true);
    c.set_use_threads(true);
    c.set_bytecode(true);
    assert!(c.complex && c.simd && c.use_threads() && c.bytecode);
}

#[test]
fn batch_rows_reports_capacity_violations() {
    let instrs = vec![
        Instruction::Pow(EvalSlot::Temp(0), EvalSlot::Param(1), 2, true),
        Instruction::Add(
            EvalSlot::Out(0),
            vec![EvalSlot::Param(0), EvalSlot::Temp(0)],
            2,
        ),
    ];
    let consts: Vec<RealBits> = Vec::new();
    let runner = CompiledRealRunner::compile(&instrs, &consts, 2, Config::default()).unwrap();
    assert_eq!(runner.batch_rows(6, 3), Some(3));
    assert_eq!(runner.batch_rows(7, 3), Some(3));
    assert_eq!(runner.batch_rows(6, 2), None);
    assert_eq!(runner.batch_rows(0, 0), Some(0));
}
