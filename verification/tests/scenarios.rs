use symjit_bridge::runners::{
    CompiledComplexRunner, CompiledRealRunner, CompiledSimdRealRunner, InterpretedComplexRunner,
    InterpretedRealRunner,
};
use symjit_bridge::{ComplexBits, Config, EvalSlot, Instruction, RealBits};

fn re(x: f64) -> RealBits {
    RealBits(x.to_bits())
}

fn cx(r: f64, i: f64) -> ComplexBits {
    ComplexBits { re: r.to_bits(), im: i.to_bits() }
}

/// `x + y^2` over parameters `[x, y]`; `is_real` tags the domain.
fn stream_x_plus_y_sq(is_real: bool) -> Vec<Instruction> {
    let n_real = if is_real { 2 } else { 0 };
    vec![
        Instruction::Pow(EvalSlot::Temp(0), EvalSlot::Param(1), 2, is_real),
        Instruction::Add(
            EvalSlot::Out(0),
            vec![EvalSlot::Param(0), EvalSlot::Temp(0)],
            n_real,
        ),
    ]
}

/// `x + y^3` over parameters `[x, y]`; `is_real` tags the domain.
fn stream_x_plus_y_cubed(is_real: bool) -> Vec<Instruction> {
    let n_real = if is_real { 2 } else { 0 };
    vec![
        Instruction::Pow(EvalSlot::Temp(0), EvalSlot::Param(1), 3, is_real),
        Instruction::Add(
            EvalSlot::Out(0),
            vec![EvalSlot::Param(0), EvalSlot::Temp(0)],
            n_real,
        ),
    ]
}

#[test]
fn compiled_real_x_plus_y_squared() {
    let instrs = stream_x_plus_y_sq(true);
    let consts: Vec<RealBits> = Vec::new();
    let runner = CompiledRealRunner::compile(&instrs, &consts, 2, Config::default()).unwrap();
    assert_eq!(runner.count_params(), 2);
    assert_eq!(runner.count_obs(), 1);
    let args = [3.0f64, 4.0];
    let mut outs = [0.0f64; 1];
    assert_eq!(runner.batch_rows(args.len(), outs.len()), Some(1));
    runner.artifact().application().evaluate_matrix(&args, &mut outs, 1);
    assert_eq!(outs[0], 19.0);
}

#[test]
fn compiled_real_x_plus_y_cubed() {
    let instrs = stream_x_plus_y_cubed(true);
    let consts: Vec<RealBits> = Vec::new();
    let runner = CompiledRealRunner::compile(&instrs, &consts, 2, Config::default()).unwrap();
    let args = [3.0f64, 5.0];
    let mut outs = [0.0f64; 1];
    runner.artifact().application().evaluate_matrix(&args, &mut outs, 1);
    assert_eq!(outs[0], 128.0);
}

#[test]
fn interpreted_real_x_plus_y_squared() {
    let instrs = stream_x_plus_y_sq(true);
    let consts: Vec<RealBits> = Vec::new();
    let mut runner =
        InterpretedRealRunner::compile(&instrs, &consts, 2, Config::default()).unwrap();
    let args = vec![3.0f64.to_bits(), 4.0f64.to_bits()];
    let mut outs = vec![0u64];
    runner.evaluate(&args, &mut outs);
    assert_eq!(f64::from_bits(outs[0]), 19.0);
}

#[test]
fn interpreted_real_x_plus_y_cubed() {
    let instrs = stream_x_plus_y_cubed(true);
    let consts: Vec<RealBits> = Vec::new();
    let mut runner =
        InterpretedRealRunner::compile(&instrs, &consts, 2, Config::default()).unwrap();
    let args = vec![3.0f64.to_bits(), 5.0f64.to_bits()];
    let mut outs = vec![0u64];
    runner.evaluate(&args, &mut outs);
    assert_eq!(f64::from_bits(outs[0]), 128.0);
}

#[test]
fn compiled_complex_x_plus_y_cubed() {
    let instrs = stream_x_plus_y_cubed(false);
    let consts: Vec<ComplexBits> = Vec::new();
    let runner = CompiledComplexRunner::compile(&instrs, &consts, 2, Config::default()).unwrap();
    let args = [
        num_complex::Complex::new(2.0f64, 1.0),
        num_complex::Complex::new(-2.0, 4.0),
    ];
    let mut outs = [num_complex::Complex::new(0.0f64, 0.0)];
    let n = runner.batch_rows(args.len(), outs.len()).unwrap();
    assert_eq!(n, 1);
    runner.artifact().application().evaluate_matrix(&args, &mut outs, n);
    assert_eq!(outs[0], num_complex::Complex::new(90.0, -15.0));
}

#[test]
fn interpreted_complex_x_plus_y_cubed() {
    let instrs = stream_x_plus_y_cubed(false);
    let consts: Vec<ComplexBits> = Vec::new();
    let mut runner =
        InterpretedComplexRunner::compile(&instrs, &consts, 2, Config::default()).unwrap();
    let args = vec![cx(2.0, 1.0), cx(-2.0, 4.0)];
    let mut outs = vec![cx(0.0, 0.0)];
    runner.evaluate(&args, &mut outs);
    assert_eq!(f64::from_bits(outs[0].re), 90.0);
    assert_eq!(f64::from_bits(outs[0].im), -15.0);
}

/// `x^5 - 4*x*y` over parameters `[x, y]`, with the coefficient in the
/// constant pool.
fn stream_x5_minus_4xy() -> (Vec<Instruction>, Vec<RealBits>) {
    let instrs = vec![
        Instruction::Pow(EvalSlot::Temp(0), EvalSlot::Param(0), 5, true),
        Instruction::Mul(
            EvalSlot::Temp(1),
            vec![EvalSlot::Const(0), EvalSlot::Param(0), EvalSlot::Param(1)],
            3,
        ),
        Instruction::Add(
            EvalSlot::Out(0),
            vec![EvalSlot::Temp(0), EvalSlot::Temp(1)],
            2,
        ),
    ];
    (instrs, vec![re(-4.0)])
}

#[test]
fn simd_real_lane_packed_batch() {
    let (instrs, consts) = stream_x5_minus_4xy();
    let runner = CompiledSimdRealRunner::compile(&instrs, &consts, 2, Config::default()).unwrap();
    // 100 rows with x = i, y = 2 * i, packed four rows per lane group.
    let mut args: Vec<wide::f64x4> = Vec::new();
    for chunk in 0..25 {
        let base = 4 * chunk;
        let xs = [
            base as f64,
            (base + 1) as f64,
            (base + 2) as f64,
            (base + 3) as f64,
        ];
        let ys = [
            2.0 * base as f64,
            2.0 * (base + 1) as f64,
            2.0 * (base + 2) as f64,
            2.0 * (base + 3) as f64,
        ];
        args.push(wide::f64x4::new(xs));
        args.push(wide::f64x4::new(ys));
    }
    let mut outs = vec![wide::f64x4::new([0.0; 4]); 25];
    let n = runner.batch_rows(args.len(), outs.len()).unwrap();
    assert_eq!(n, 25);
    runner.artifact().application().evaluate_matrix(&args, &mut outs, n);
    // row 19 sits in lane group 4, lane 3: 19^5 - 4 * 19 * 38.
    let row19 = outs[4].to_array()[3];
    assert_eq!(row19, 2473211.0);
    let x = 19.0f64;
    let y = 38.0f64;
    assert_eq!(row19, x * x * x * x * x - 4.0 * x * y);
}

#[test]
fn simd_complex_lane_packed_batch() {
    // x - y^2 over complex vector lanes: four independent rows per
    // vector element.
    let instrs = vec![
        Instruction::Pow(EvalSlot::Temp(0), EvalSlot::Param(1), 2, false),
        Instruction::Mul(
            EvalSlot::Temp(1),
            vec![EvalSlot::Const(0), EvalSlot::Temp(0)],
            1,
        ),
        Instruction::Add(
            EvalSlot::Out(0),
            vec![EvalSlot::Param(0), EvalSlot::Temp(1)],
            0,
        ),
    ];
    let consts = vec![cx(-1.0, 0.0)];
    let runner =
        symjit_bridge::runners::CompiledSimdComplexRunner::compile(
            &instrs,
            &consts,
            2,
            Config::default(),
        )
        .unwrap();
    let args = [
        num_complex::Complex::new(
            wide::f64x4::new([1.0, 2.0, 3.0, 4.0]),
            wide::f64x4::new([2.0, 3.0, 4.0, 5.0]),
        ),
        num_complex::Complex::new(
            wide::f64x4::new([0.0, 1.0, 2.0, 3.0]),
            wide::f64x4::new([-5.0, -4.0, -3.0, -2.0]),
        ),
    ];
    let mut outs = [num_complex::Complex::new(
        wide::f64x4::new([0.0; 4]),
        wide::f64x4::new([0.0; 4]),
    )];
    let n = runner.batch_rows(args.len(), outs.len()).unwrap();
    assert_eq!(n, 1);
    runner.artifact().application().evaluate_matrix(&args, &mut outs, n);
    assert_eq!(outs[0].re.to_array(), [26.0, 17.0, 8.0, -1.0]);
    assert_eq!(outs[0].im.to_array(), [2.0, 11.0, 16.0, 17.0]);
}

#[test]
fn scattered_complex_row_major_batch() {
    let instrs = stream_x_plus_y_sq(false);
    let consts: Vec<ComplexBits> = Vec::new();
    let runner =
        symjit_bridge::runners::CompiledSimdComplexRunner::compile(
            &instrs,
            &consts,
            2,
            Config::default(),
        )
        .unwrap();
    let rows = 97;
    let args: Vec<num_complex::Complex<f64>> = (0..2 * rows)
        .map(|k| num_complex::Complex::new(k as f64, -1.0))
        .collect();
    let mut outs = vec![num_complex::Complex::new(0.0f64, 0.0); rows];
    let n = runner.batch_rows(args.len(), outs.len()).unwrap();
    assert_eq!(n, rows);
    runner.artifact().application().evaluate_matrix(&args, &mut outs, n);
    for i in 0..rows {
        let x = num_complex::Complex::new((2 * i) as f64, -1.0);
        let y = num_complex::Complex::new((2 * i + 1) as f64, -1.0);
        assert_eq!(outs[i], x + y * y);
    }
}

#[test]
fn control_flow_skips_the_expensive_branch() {
    // when x is zero, jump over the expensive cube; the select then picks
    // the cheap square, so the skipped value is never observed.
    let instrs = vec![
        Instruction::IfElse(EvalSlot::Param(0), 1),
        Instruction::Pow(EvalSlot::Temp(0), EvalSlot::Param(1), 3, true),
        Instruction::Label(1),
        Instruction::Pow(EvalSlot::Temp(1), EvalSlot::Param(1), 2, true),
        Instruction::Join(
            EvalSlot::Out(0),
            EvalSlot::Param(0),
            EvalSlot::Temp(0),
            EvalSlot::Temp(1),
        ),
    ];
    let consts: Vec<RealBits> = Vec::new();
    let runner = CompiledRealRunner::compile(&instrs, &consts, 2, Config::default()).unwrap();
    let mut outs = [0.0f64; 1];
    runner.artifact().application().evaluate_matrix(&[1.0f64, 5.0], &mut outs, 1);
    let taken = outs[0];
    runner.artifact().application().evaluate_matrix(&[0.0f64, 5.0], &mut outs, 1);
    let skipped = outs[0];
    assert_eq!([taken, skipped], [125.0, 25.0]);
}

#[test]
fn powf_takes_the_exponent_from_a_slot() {
    let instrs = vec![Instruction::Powf(
        EvalSlot::Out(0),
        EvalSlot::Param(0),
        EvalSlot::Param(1),
        true,
    )];
    let consts: Vec<RealBits> = Vec::new();
    let runner = CompiledRealRunner::compile(&instrs, &consts, 2, Config::default()).unwrap();
    let mut outs = [0.0f64; 1];
    runner.artifact().application().evaluate_matrix(&[2.0f64, 10.0], &mut outs, 1);
    assert_eq!(outs[0], 1024.0);
}

#[test]
fn interpreted_evaluate_leaves_the_tail_untouched() {
    let instrs = stream_x_plus_y_sq(true);
    let consts: Vec<RealBits> = Vec::new();
    let mut runner =
        InterpretedRealRunner::compile(&instrs, &consts, 2, Config::default()).unwrap();
    // two whole rows plus one stray scalar; room for three outputs
    let args: Vec<u64> = [1.0f64, 2.0, 3.0, 4.0, 99.0]
        .iter()
        .map(|x| x.to_bits())
        .collect();
    let sentinel = 7.25f64.to_bits();
    let mut outs = vec![sentinel; 3];
    runner.evaluate(&args, &mut outs);
    assert_eq!(f64::from_bits(outs[0]), 5.0);
    assert_eq!(f64::from_bits(outs[1]), 19.0);
    assert_eq!(outs[2], sentinel);
}

#[test]
fn scattered_real_row_major_batch() {
    let instrs = stream_x_plus_y_cubed(true);
    let consts: Vec<RealBits> = Vec::new();
    let runner = CompiledSimdRealRunner::compile(&instrs, &consts, 2, Config::default()).unwrap();
    // Row-major scalar input: four rows of two parameters each; the
    // vector kernel gathers the lanes itself.
    let args: Vec<f64> = (0..8).map(f64::from).collect();
    let mut outs = [0.0f64; 4];
    runner.artifact().application().evaluate_matrix(&args, &mut outs, 4);
    assert_eq!(outs, [1.0, 29.0, 129.0, 349.0]);
}
