use symjit_bridge::runners::{
    CompiledComplexRunner, CompiledRealRunner, InterpretedComplexRunner, InterpretedRealRunner,
};
use symjit_bridge::{ComplexBits, Config, EvalSlot, Instruction, RealBits};

fn cbits(r: f64, i: f64) -> ComplexBits {
    ComplexBits { re: r.to_bits(), im: i.to_bits() }
}

/// `x + y^3` over parameters `[x, y]`.
fn cubed_stream(is_real: bool) -> Vec<Instruction> {
    let n_real = if is_real { 2 } else { 0 };
    vec![
        Instruction::Pow(EvalSlot::Temp(0), EvalSlot::Param(1), 3, is_real),
        Instruction::Add(
            EvalSlot::Out(0),
            vec![EvalSlot::Param(0), EvalSlot::Temp(0)],
            n_real,
        ),
    ]
}

fn batch_args(rows: usize) -> Vec<f64> {
    let mut args = Vec::new();
    for i in 0..rows {
        args.push(i as f64 * 0.5);
        args.push(i as f64 - 3.0);
    }
    args
}

#[test]
fn save_load_round_trip_is_deterministic() {
    let instrs = cubed_stream(true);
    let consts: Vec<RealBits> = Vec::new();
    let runner = CompiledRealRunner::compile(&instrs, &consts, 2, Config::default()).unwrap();
    let args = batch_args(10);
    let mut outs = [0.0f64; 10];
    runner.artifact().application().evaluate_matrix(&args, &mut outs, 10);

    let bytes = runner.save().unwrap();
    let restored = CompiledRealRunner::load(&bytes).unwrap();
    assert_eq!(restored.count_params(), runner.count_params());
    assert_eq!(restored.count_obs(), runner.count_obs());
    let mut outs2 = [0.0f64; 10];
    restored.artifact().application().evaluate_matrix(&args, &mut outs2, 10);
    for i in 0..10 {
        assert_eq!(outs[i].to_bits(), outs2[i].to_bits());
    }
}

#[test]
fn save_load_round_trip_interpreted() {
    let instrs = cubed_stream(true);
    let consts: Vec<RealBits> = Vec::new();
    let mut runner =
        InterpretedRealRunner::compile(&instrs, &consts, 2, Config::default()).unwrap();
    let args: Vec<u64> = batch_args(6).iter().map(|x| x.to_bits()).collect();
    let mut outs = vec![0u64; 6];
    runner.evaluate(&args, &mut outs);

    let bytes = runner.save().unwrap();
    let mut restored = InterpretedRealRunner::load(&bytes).unwrap();
    let mut outs2 = vec![0u64; 6];
    restored.evaluate(&args, &mut outs2);
    assert_eq!(outs, outs2);
}

#[test]
fn reload_round_trip_keeps_outputs() {
    let instrs = cubed_stream(true);
    let consts: Vec<RealBits> = Vec::new();
    let mut runner =
        InterpretedRealRunner::compile(&instrs, &consts, 2, Config::default()).unwrap();
    let args: Vec<u64> = batch_args(5).iter().map(|x| x.to_bits()).collect();
    let mut outs = vec![0u64; 5];
    runner.evaluate(&args, &mut outs);

    let mut again = runner.reload().unwrap();
    assert_eq!(again.count_params(), runner.count_params());
    assert_eq!(again.count_obs(), runner.count_obs());
    let mut outs2 = vec![0u64; 5];
    again.evaluate(&args, &mut outs2);
    assert_eq!(outs, outs2);
}

#[test]
fn threads_do_not_change_results() {
    let instrs = cubed_stream(true);
    let consts: Vec<RealBits> = Vec::new();
    let plain = CompiledRealRunner::compile(&instrs, &consts, 2, Config::default()).unwrap();
    let mut threaded_config = Config::default();
    threaded_config.set_use_threads(true);
    let threaded = CompiledRealRunner::compile(&instrs, &consts, 2, threaded_config).unwrap();
    assert!(threaded.config().use_threads());

    let rows = 257;
    let args = batch_args(rows);
    let mut outs1 = vec![0.0f64; rows];
    let mut outs2 = vec![0.0f64; rows];
    plain.artifact().application().evaluate_matrix(&args, &mut outs1, rows);
    threaded.artifact().application().evaluate_matrix(&args, &mut outs2, rows);
    for i in 0..rows {
        assert_eq!(outs1[i].to_bits(), outs2[i].to_bits());
    }
}

#[test]
fn real_runner_matches_real_part_of_complex_runner() {
    let real_instrs = cubed_stream(true);
    let complex_instrs = cubed_stream(false);
    let real_consts: Vec<RealBits> = Vec::new();
    let complex_consts: Vec<ComplexBits> = Vec::new();

    let real = CompiledRealRunner::compile(&real_instrs, &real_consts, 2, Config::default())
        .unwrap();
    let complex =
        CompiledComplexRunner::compile(&complex_instrs, &complex_consts, 2, Config::default())
            .unwrap();

    let args = [3.0f64, 5.0];
    let mut outs = [0.0f64; 1];
    real.artifact().application().evaluate_matrix(&args, &mut outs, 1);

    let cargs = [
        num_complex::Complex::new(3.0f64, 0.0),
        num_complex::Complex::new(5.0, 0.0),
    ];
    let mut couts = [num_complex::Complex::new(0.0f64, 0.0)];
    complex.artifact().application().evaluate_matrix(&cargs, &mut couts, 1);

    assert_eq!(couts[0].re, outs[0]);
    assert_eq!(couts[0].im, 0.0);
}

#[test]
fn compiled_and_interpreted_agree_on_rational_ops() {
    let instrs = cubed_stream(true);
    let consts: Vec<RealBits> = Vec::new();
    let compiled = CompiledRealRunner::compile(&instrs, &consts, 2, Config::default()).unwrap();
    let mut interpreted =
        InterpretedRealRunner::compile(&instrs, &consts, 2, Config::default()).unwrap();

    let rows = 16;
    let args = batch_args(rows);
    let mut outs = vec![0.0f64; rows];
    compiled.artifact().application().evaluate_matrix(&args, &mut outs, rows);

    let bit_args: Vec<u64> = args.iter().map(|x| x.to_bits()).collect();
    let mut bit_outs = vec![0u64; rows];
    interpreted.evaluate(&bit_args, &mut bit_outs);

    for i in 0..rows {
        assert_eq!(outs[i], f64::from_bits(bit_outs[i]));
    }
}

#[test]
fn interpreted_complex_agrees_with_compiled_complex() {
    let instrs = cubed_stream(false);
    let consts: Vec<ComplexBits> = Vec::new();
    let compiled =
        CompiledComplexRunner::compile(&instrs, &consts, 2, Config::default()).unwrap();
    let mut interpreted =
        InterpretedComplexRunner::compile(&instrs, &consts, 2, Config::default()).unwrap();
    // two complex parameters and one complex output, two scalar units each
    assert_eq!(interpreted.count_params(), 4);
    assert_eq!(interpreted.count_obs(), 2);

    let cargs = [
        num_complex::Complex::new(2.0f64, 5.0),
        num_complex::Complex::new(-2.0, 3.0),
    ];
    let mut couts = [num_complex::Complex::new(0.0f64, 0.0)];
    compiled.artifact().application().evaluate_matrix(&cargs, &mut couts, 1);
    assert_eq!(couts[0], num_complex::Complex::new(48.0, 14.0));

    let bargs = vec![cbits(2.0, 5.0), cbits(-2.0, 3.0)];
    let mut bouts = vec![cbits(0.0, 0.0)];
    interpreted.evaluate(&bargs, &mut bouts);
    assert_eq!(f64::from_bits(bouts[0].re), couts[0].re);
    assert_eq!(f64::from_bits(bouts[0].im), couts[0].im);
}

#[test]
fn load_rejects_a_corrupt_byte_stream() {
    let bytes = vec![1u8, 2, 3, 4, 5, 6, 7, 8, 9];
    let r = CompiledRealRunner::load(&bytes);
    assert!(r.is_err());
}

#[test]
fn builtin_function_evaluates() {
    // The built-in with id 4 is the evaluator's sine.
    let instrs = vec![Instruction::Fun(
        EvalSlot::Out(0),
        symjit_bridge::BuiltinSymbol(4),
        EvalSlot::Param(0),
        true,
    )];
    let consts: Vec<RealBits> = Vec::new();
    let runner = CompiledRealRunner::compile(&instrs, &consts, 1, Config::default()).unwrap();
    let args = [0.5f64];
    let mut outs = [0.0f64; 1];
    runner.artifact().application().evaluate_matrix(&args, &mut outs, 1);
    assert!((outs[0] - 0.5f64.sin()).abs() < 1e-10);
}

#[test]
fn external_function_matches_native_evaluation() {
    // sinh(x + y), registered by name, over complex inputs.
    let instrs = vec![
        Instruction::Add(
            EvalSlot::Temp(0),
            vec![EvalSlot::Param(0), EvalSlot::Param(1)],
            0,
        ),
        Instruction::ExternalFun(
            EvalSlot::Out(0),
            String::from("sinh"),
            vec![EvalSlot::Temp(0)],
        ),
    ];
    let consts: Vec<ComplexBits> = Vec::new();
    let runner = CompiledComplexRunner::compile(&instrs, &consts, 2, Config::default()).unwrap();
    let cargs = [
        num_complex::Complex::new(1.0f64, 2.0),
        num_complex::Complex::new(2.0, -1.0),
    ];
    let mut couts = [num_complex::Complex::new(0.0f64, 0.0)];
    runner.artifact().application().evaluate_matrix(&cargs, &mut couts, 1);
    let expected = num_complex::Complex::new(3.0f64, 1.0).sinh();
    assert!((couts[0].re - expected.re).abs() < 1e-10);
    assert!((couts[0].im - expected.im).abs() < 1e-10);
}

#[test]
fn join_selects_between_values() {
    // out = if (x > 0) then y else z, built from a comparison and a
    // branchless select: cond = x, join picks y when cond is nonzero.
    let instrs = vec![Instruction::Join(
        EvalSlot::Out(0),
        EvalSlot::Param(0),
        EvalSlot::Param(1),
        EvalSlot::Param(2),
    )];
    let consts: Vec<RealBits> = Vec::new();
    let runner = CompiledRealRunner::compile(&instrs, &consts, 3, Config::default()).unwrap();
    let mut outs = [0.0f64; 1];
    runner.artifact().application().evaluate_matrix(&[1.0f64, 7.0, 9.0], &mut outs, 1);
    assert_eq!(outs[0], 7.0);
    runner.artifact().application().evaluate_matrix(&[0.0f64, 7.0, 9.0], &mut outs, 1);
    assert_eq!(outs[0], 9.0);
}
