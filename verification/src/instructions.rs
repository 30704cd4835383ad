use vstd::prelude::*;

use crate::slots::{slot, slot_list, slot_spec, BuiltinSymbol, GenBuiltin, GenSlot, EvalSlot};
use crate::values::ComplexBits;

verus! {

/// One instruction of the evaluator's exported stream. The set is closed;
/// the translator dispatches on it exhaustively.
#[derive(Debug)]
pub enum Instruction {
    /// n-ary addition; the first `usize` many operands are real-typed.
    Add(EvalSlot, Vec<EvalSlot>, usize),
    /// n-ary multiplication; the first `usize` many operands are real-typed.
    Mul(EvalSlot, Vec<EvalSlot>, usize),
    /// Integer power of a base slot; the flag tells whether the result is real.
    Pow(EvalSlot, EvalSlot, i64, bool),
    /// General power with a slot-valued exponent.
    Powf(EvalSlot, EvalSlot, EvalSlot, bool),
    /// Copy one slot into another.
    Assign(EvalSlot, EvalSlot),
    /// Call of a built-in function on one argument slot.
    Fun(EvalSlot, BuiltinSymbol, EvalSlot, bool),
    /// Call of a caller-registered external function, by symbolic name.
    ExternalFun(EvalSlot, String, Vec<EvalSlot>),
    /// Branchless select: both value slots are evaluated, the condition picks one.
    Join(EvalSlot, EvalSlot, EvalSlot, EvalSlot),
    /// A jump target.
    Label(usize),
    /// Jump to the label when the condition slot is zero.
    IfElse(EvalSlot, usize),
    /// Unconditional jump to the label.
    Goto(usize),
}

/// The mathematical shape of an [`Instruction`]: lists become sequences and
/// the external name becomes a character sequence.
pub enum InstrV {
    Add(EvalSlot, Seq<EvalSlot>, usize),
    Mul(EvalSlot, Seq<EvalSlot>, usize),
    Pow(EvalSlot, EvalSlot, i64, bool),
    Powf(EvalSlot, EvalSlot, EvalSlot, bool),
    Assign(EvalSlot, EvalSlot),
    Fun(EvalSlot, BuiltinSymbol, EvalSlot, bool),
    ExternalFun(EvalSlot, Seq<char>, Seq<EvalSlot>),
    Join(EvalSlot, EvalSlot, EvalSlot, EvalSlot),
    Label(usize),
    IfElse(EvalSlot, usize),
    Goto(usize),
}

impl View for Instruction {
    type V = InstrV;

    open spec fn view(&self) -> InstrV {
        match self {
            Instruction::Add(d, a, n) => InstrV::Add(*d, a@, *n),
            Instruction::Mul(d, a, n) => InstrV::Mul(*d, a@, *n),
            Instruction::Pow(d, b, p, ir) => InstrV::Pow(*d, *b, *p, *ir),
            Instruction::Powf(d, b, e, ir) => InstrV::Powf(*d, *b, *e, *ir),
            Instruction::Assign(d, s) => InstrV::Assign(*d, *s),
            Instruction::Fun(d, f, a, ir) => InstrV::Fun(*d, *f, *a, *ir),
            Instruction::ExternalFun(d, nm, a) => InstrV::ExternalFun(*d, nm@, a@),
            Instruction::Join(d, c, t, f) => InstrV::Join(*d, *c, *t, *f),
            Instruction::Label(l) => InstrV::Label(*l),
            Instruction::IfElse(c, l) => InstrV::IfElse(*c, *l),
            Instruction::Goto(l) => InstrV::Goto(*l),
        }
    }
}

/// One call against the code generator's append-only builder. A translated
/// program is the constant pool, in order, followed by one such operation
/// per instruction, in stream order.
#[derive(Debug)]
pub enum GenOp {
    /// Append one constant to the builder's pool.
    Constant(ComplexBits),
    Add(GenSlot, Vec<GenSlot>, usize),
    Mul(GenSlot, Vec<GenSlot>, usize),
    Pow(GenSlot, GenSlot, i64, bool),
    Powf(GenSlot, GenSlot, GenSlot, bool),
    Assign(GenSlot, GenSlot),
    Fun(GenSlot, GenBuiltin, GenSlot, bool),
    ExternalFun(GenSlot, String, Vec<GenSlot>),
    Join(GenSlot, GenSlot, GenSlot, GenSlot),
    Label(usize),
    IfElse(GenSlot, usize),
    Goto(usize),
}

/// The mathematical shape of a [`GenOp`].
pub enum GenOpV {
    Constant(ComplexBits),
    Add(GenSlot, Seq<GenSlot>, usize),
    Mul(GenSlot, Seq<GenSlot>, usize),
    Pow(GenSlot, GenSlot, i64, bool),
    Powf(GenSlot, GenSlot, GenSlot, bool),
    Assign(GenSlot, GenSlot),
    Fun(GenSlot, GenBuiltin, GenSlot, bool),
    ExternalFun(GenSlot, Seq<char>, Seq<GenSlot>),
    Join(GenSlot, GenSlot, GenSlot, GenSlot),
    Label(usize),
    IfElse(GenSlot, usize),
    Goto(usize),
}

impl View for GenOp {
    type V = GenOpV;

    open spec fn view(&self) -> GenOpV {
        match self {
            GenOp::Constant(z) => GenOpV::Constant(*z),
            GenOp::Add(d, a, n) => GenOpV::Add(*d, a@, *n),
            GenOp::Mul(d, a, n) => GenOpV::Mul(*d, a@, *n),
            GenOp::Pow(d, b, p, ir) => GenOpV::Pow(*d, *b, *p, *ir),
            GenOp::Powf(d, b, e, ir) => GenOpV::Powf(*d, *b, *e, *ir),
            GenOp::Assign(d, s) => GenOpV::Assign(*d, *s),
            GenOp::Fun(d, f, a, ir) => GenOpV::Fun(*d, *f, *a, *ir),
            GenOp::ExternalFun(d, nm, a) => GenOpV::ExternalFun(*d, nm@, a@),
            GenOp::Join(d, c, t, f) => GenOpV::Join(*d, *c, *t, *f),
            GenOp::Label(l) => GenOpV::Label(*l),
            GenOp::IfElse(c, l) => GenOpV::IfElse(*c, *l),
            GenOp::Goto(l) => GenOpV::Goto(*l),
        }
    }
}

pub open spec fn slot_seq_spec(s: Seq<EvalSlot>) -> Seq<GenSlot> {
    s.map_values(|x: EvalSlot| slot_spec(x))
}

/// The translation rule for one instruction: exactly one builder operation,
/// with every slot mapped and every scalar field passed unchanged.
pub open spec fn instr_spec(q: InstrV) -> GenOpV {
    match q {
        InstrV::Add(d, a, n) => GenOpV::Add(slot_spec(d), slot_seq_spec(a), n),
        InstrV::Mul(d, a, n) => GenOpV::Mul(slot_spec(d), slot_seq_spec(a), n),
        InstrV::Pow(d, b, p, ir) => GenOpV::Pow(slot_spec(d), slot_spec(b), p, ir),
        InstrV::Powf(d, b, e, ir) => GenOpV::Powf(slot_spec(d), slot_spec(b), slot_spec(e), ir),
        InstrV::Assign(d, s) => GenOpV::Assign(slot_spec(d), slot_spec(s)),
        InstrV::Fun(d, f, a, ir) => GenOpV::Fun(slot_spec(d), GenBuiltin(f.0), slot_spec(a), ir),
        InstrV::ExternalFun(d, nm, a) => GenOpV::ExternalFun(slot_spec(d), nm, slot_seq_spec(a)),
        InstrV::Join(d, c, t, f) => GenOpV::Join(slot_spec(d), slot_spec(c), slot_spec(t), slot_spec(f)),
        InstrV::Label(l) => GenOpV::Label(l),
        InstrV::IfElse(c, l) => GenOpV::IfElse(slot_spec(c), l),
        InstrV::Goto(l) => GenOpV::Goto(l),
    }
}

pub open spec fn views_of_instrs(v: Seq<Instruction>) -> Seq<InstrV> {
    v.map_values(|q: Instruction| q@)
}

pub open spec fn views_of_ops(v: Seq<GenOp>) -> Seq<GenOpV> {
    v.map_values(|g: GenOp| g@)
}

/// What translation produces: the constant pool first, in order, then one
/// operation per instruction, in stream order.
pub open spec fn translate_spec(instrs: Seq<InstrV>, consts: Seq<ComplexBits>) -> Seq<GenOpV> {
    consts.map_values(|z: ComplexBits| GenOpV::Constant(z)) + instrs.map_values(|q: InstrV| instr_spec(q))
}

/// Translates one instruction into its builder operation.
fn translate_instr(q: &Instruction) -> (r: GenOp)
    ensures
        r@ == instr_spec(q@),
{
    let r = match q {
        Instruction::Add(d, a, n) => GenOp::Add(slot(*d), slot_list(a), *n),
        Instruction::Mul(d, a, n) => GenOp::Mul(slot(*d), slot_list(a), *n),
        Instruction::Pow(d, b, p, ir) => GenOp::Pow(slot(*d), slot(*b), *p, *ir),
        Instruction::Powf(d, b, e, ir) => GenOp::Powf(slot(*d), slot(*b), slot(*e), *ir),
        Instruction::Assign(d, s) => GenOp::Assign(slot(*d), slot(*s)),
        Instruction::Fun(d, f, a, ir) => {
            GenOp::Fun(slot(*d), crate::slots::builtin_symbol(*f), slot(*a), *ir)
        }
        Instruction::ExternalFun(d, nm, a) => {
            GenOp::ExternalFun(slot(*d), clone_name(nm), slot_list(a))
        }
        Instruction::Join(d, c, t, f) => GenOp::Join(slot(*d), slot(*c), slot(*t), slot(*f)),
        Instruction::Label(l) => GenOp::Label(*l),
        Instruction::IfElse(c, l) => GenOp::IfElse(slot(*c), *l),
        Instruction::Goto(l) => GenOp::Goto(*l),
    };
    proof {
        match q@ {
            InstrV::Add(d, a, n) => {
                assert(r@->Add_1 =~= slot_seq_spec(a));
            }
            InstrV::Mul(d, a, n) => {
                assert(r@->Mul_1 =~= slot_seq_spec(a));
            }
            InstrV::ExternalFun(d, nm, a) => {
                assert(r@->ExternalFun_2 =~= slot_seq_spec(a));
            }
            _ => {}
        }
    }
    r
}

/// Copies the symbolic name of an external function.
fn clone_name(s: &String) -> (r: String)
    ensures
        r@ == s@,
{
    s.clone()
}

/// Translates the whole stream: every constant is appended first, in pool
/// order, then every instruction is replayed as exactly one builder
/// operation, in stream order. The mapping is total: it cannot fail.
pub fn translate(instructions: &Vec<Instruction>, constants: &Vec<ComplexBits>) -> (r: Vec<GenOp>)
    ensures
        views_of_ops(r@) == translate_spec(views_of_instrs(instructions@), constants@),
        r@.len() == constants@.len() + instructions@.len(),
{
    let mut r: Vec<GenOp> = Vec::new();
    let mut k: usize = 0;
    while k < constants.len()
        invariant
            k <= constants@.len(),
            r@.len() == k,
            forall|i: int| 0 <= i < k ==> (#[trigger] r@[i])@ == GenOpV::Constant(constants@[i]),
        decreases constants@.len() - k,
    {
        r.push(GenOp::Constant(constants[k]));
        k = k + 1;
    }
    let ghost nc = constants@.len() as int;
    let mut k: usize = 0;
    while k < instructions.len()
        invariant
            k <= instructions@.len(),
            r@.len() == nc + k,
            nc == constants@.len(),
            forall|i: int| 0 <= i < nc ==> (#[trigger] r@[i])@ == GenOpV::Constant(constants@[i]),
            forall|i: int| 0 <= i < k ==> (#[trigger] r@[nc + i])@ == instr_spec(instructions@[i]@),
        decreases instructions@.len() - k,
    {
        r.push(translate_instr(&instructions[k]));
        k = k + 1;
    }
    proof {
        let lhs = views_of_ops(r@);
        let rhs = translate_spec(views_of_instrs(instructions@), constants@);
        assert forall|i: int| 0 <= i < lhs.len() implies lhs[i] == rhs[i] by {
            assert(lhs[i] == r@[i]@);
            if i < nc {
                assert(rhs[i] == GenOpV::Constant(constants@[i]));
            } else {
                assert(r@[nc + (i - nc)]@ == instr_spec(instructions@[i - nc]@));
                assert(views_of_instrs(instructions@)[i - nc] == instructions@[i - nc]@);
                assert(rhs[i] == instr_spec(instructions@[i - nc]@));
            }
        }
        assert(views_of_ops(r@) =~= translate_spec(views_of_instrs(instructions@), constants@));
    }
    r
}

/// The larger of two counts.
pub open spec fn nat_max(a: nat, b: nat) -> nat {
    if a > b {
        a
    } else {
        b
    }
}

/// How many parameter slots one slot requires: one more than its index
/// for a parameter, nothing for any other class.
pub open spec fn slot_param_need(s: EvalSlot) -> nat {
    match s {
        EvalSlot::Param(i) => i as nat + 1,
        _ => 0,
    }
}

/// How many parameter slots a list of slots requires.
pub open spec fn slots_param_need(v: Seq<EvalSlot>) -> nat
    decreases v.len(),
{
    if v.len() == 0 {
        0
    } else {
        nat_max(slots_param_need(v.drop_last()), slot_param_need(v.last()))
    }
}

/// How many parameter slots one instruction requires.
pub open spec fn instr_param_need(q: InstrV) -> nat {
    match q {
        InstrV::Add(d, a, _) => nat_max(slot_param_need(d), slots_param_need(a)),
        InstrV::Mul(d, a, _) => nat_max(slot_param_need(d), slots_param_need(a)),
        InstrV::Pow(d, b, _, _) => nat_max(slot_param_need(d), slot_param_need(b)),
        InstrV::Powf(d, b, e, _) => nat_max(
            slot_param_need(d),
            nat_max(slot_param_need(b), slot_param_need(e)),
        ),
        InstrV::Assign(d, v) => nat_max(slot_param_need(d), slot_param_need(v)),
        InstrV::Fun(d, _, a, _) => nat_max(slot_param_need(d), slot_param_need(a)),
        InstrV::ExternalFun(d, _, a) => nat_max(slot_param_need(d), slots_param_need(a)),
        InstrV::Join(d, c, t, f) => nat_max(
            nat_max(slot_param_need(d), slot_param_need(c)),
            nat_max(slot_param_need(t), slot_param_need(f)),
        ),
        InstrV::Label(_) => 0,
        InstrV::IfElse(c, _) => slot_param_need(c),
        InstrV::Goto(_) => 0,
    }
}

/// How many parameter slots a stream addresses: one more than the
/// highest parameter index any instruction touches, and zero when none
/// does.
pub open spec fn stream_param_need(v: Seq<InstrV>) -> nat
    decreases v.len(),
{
    if v.len() == 0 {
        0
    } else {
        nat_max(stream_param_need(v.drop_last()), instr_param_need(v.last()))
    }
}

proof fn lemma_slots_param_need_elem(v: Seq<EvalSlot>, k: int)
    requires
        0 <= k < v.len(),
    ensures
        slot_param_need(v[k]) <= slots_param_need(v),
    decreases v.len(),
{
    if k < v.len() - 1 {
        lemma_slots_param_need_elem(v.drop_last(), k);
    }
}

proof fn lemma_stream_param_need_elem(v: Seq<InstrV>, k: int)
    requires
        0 <= k < v.len(),
    ensures
        instr_param_need(v[k]) <= stream_param_need(v),
    decreases v.len(),
{
    if k < v.len() - 1 {
        lemma_stream_param_need_elem(v.drop_last(), k);
    }
}

fn usize_max(a: usize, b: usize) -> (r: usize)
    ensures
        r as nat == nat_max(a as nat, b as nat),
{
    if a > b {
        a
    } else {
        b
    }
}

fn slot_need(s: EvalSlot) -> (n: usize)
    requires
        slot_param_need(s) <= usize::MAX,
    ensures
        n as nat == slot_param_need(s),
{
    match s {
        EvalSlot::Param(i) => i + 1,
        EvalSlot::Out(_) => 0,
        EvalSlot::Const(_) => 0,
        EvalSlot::Temp(_) => 0,
    }
}

fn slots_need(v: &Vec<EvalSlot>) -> (n: usize)
    requires
        slots_param_need(v@) <= usize::MAX,
    ensures
        n as nat == slots_param_need(v@),
{
    let mut acc: usize = 0;
    let mut k: usize = 0;
    while k < v.len()
        invariant
            k <= v@.len(),
            slots_param_need(v@) <= usize::MAX,
            acc as nat == slots_param_need(v@.take(k as int)),
        decreases v@.len() - k,
    {
        proof {
            lemma_slots_param_need_elem(v@, k as int);
            assert(v@.take(k + 1).drop_last() =~= v@.take(k as int));
            assert(v@.take(k + 1).last() == v@[k as int]);
        }
        acc = usize_max(acc, slot_need(v[k]));
        k = k + 1;
    }
    proof {
        assert(v@.take(v@.len() as int) =~= v@);
    }
    acc
}

fn instr_need(q: &Instruction) -> (n: usize)
    requires
        instr_param_need(q@) <= usize::MAX,
    ensures
        n as nat == instr_param_need(q@),
{
    match q {
        Instruction::Add(d, a, _) => usize_max(slot_need(*d), slots_need(a)),
        Instruction::Mul(d, a, _) => usize_max(slot_need(*d), slots_need(a)),
        Instruction::Pow(d, b, _, _) => usize_max(slot_need(*d), slot_need(*b)),
        Instruction::Powf(d, b, e, _) => usize_max(
            slot_need(*d),
            usize_max(slot_need(*b), slot_need(*e)),
        ),
        Instruction::Assign(d, v) => usize_max(slot_need(*d), slot_need(*v)),
        Instruction::Fun(d, _, a, _) => usize_max(slot_need(*d), slot_need(*a)),
        Instruction::ExternalFun(d, _, a) => usize_max(slot_need(*d), slots_need(a)),
        Instruction::Join(d, c, t, f) => usize_max(
            usize_max(slot_need(*d), slot_need(*c)),
            usize_max(slot_need(*t), slot_need(*f)),
        ),
        Instruction::Label(_) => 0,
        Instruction::IfElse(c, _) => slot_need(*c),
        Instruction::Goto(_) => 0,
    }
}

/// How many parameter slots a stream addresses: one more than the
/// highest parameter index any instruction touches, and zero when none
/// does. This is the count the evaluator-facing layer declares to the
/// translation as the parameter floor.
pub fn param_count(instructions: &Vec<Instruction>) -> (n: usize)
    requires
        stream_param_need(views_of_instrs(instructions@)) <= usize::MAX,
    ensures
        n as nat == stream_param_need(views_of_instrs(instructions@)),
{
    let ghost v = views_of_instrs(instructions@);
    let mut acc: usize = 0;
    let mut i: usize = 0;
    while i < instructions.len()
        invariant
            i <= instructions@.len(),
            v == views_of_instrs(instructions@),
            v.len() == instructions@.len(),
            stream_param_need(v) <= usize::MAX,
            acc as nat == stream_param_need(v.take(i as int)),
        decreases instructions@.len() - i,
    {
        proof {
            assert(v[i as int] == instructions@[i as int]@);
            lemma_stream_param_need_elem(v, i as int);
            assert(v.take(i + 1).drop_last() =~= v.take(i as int));
            assert(v.take(i + 1).last() == v[i as int]);
        }
        acc = usize_max(acc, instr_need(&instructions[i]));
        i = i + 1;
    }
    proof {
        assert(v.take(v.len() as int) =~= v);
    }
    acc
}

} // verus!
