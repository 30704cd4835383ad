use vstd::prelude::*;

use symjit::Composer;
use symjit::Storage;

use crate::config::Config;
use crate::instructions::{nat_max, GenOpV};
use crate::slots::GenSlot;
use crate::validity::{
    branches_resolve, call_free, op_dest, op_reads, shapes_ok, straight_line, valid_ops,
};
use crate::values::ComplexBits;

verus! {

#[verifier::external_type_specification]
#[verifier::external_body]
pub struct ExTranslator(symjit::Translator);

#[verifier::external_type_specification]
#[verifier::external_body]
pub struct ExApplication(symjit::Application);

#[verifier::external_type_specification]
#[verifier::external_body]
pub struct ExSlot(symjit::Slot);

#[verifier::external_type_specification]
#[verifier::external_body]
pub struct ExAnyhowError(anyhow::Error);

/// Why a compilation attempt was abandoned. Translation is all-or-nothing:
/// when any step fails, no artifact exists.
#[derive(Debug)]
pub enum CompileError {
    /// The stream was not in valid single-pass order.
    InvalidStream,
    /// The code generator rejected an operation, or its terminal
    /// code-generation step failed.
    Codegen(anyhow::Error),
}

/// Why an artifact could not be written to or restored from bytes.
#[derive(Debug)]
pub struct PersistError {
    pub inner: anyhow::Error,
}

/// An accumulating code-generator builder: the outside translator,
/// together with the model of everything handed to it so far.
pub struct Builder {
    inner: symjit::Translator,
    ops: Ghost<Seq<GenOpV>>,
    cfg: Ghost<Config>,
    np: Ghost<usize>,
}

impl Builder {
    /// The operations appended so far, in order.
    pub closed spec fn log(&self) -> Seq<GenOpV> {
        self.ops@
    }

    /// The configuration the builder was created for.
    pub closed spec fn config_model(&self) -> Config {
        self.cfg@
    }

    /// The declared floor under the parameter count.
    pub closed spec fn num_params(&self) -> usize {
        self.np@
    }
}

/// Builds the code generator's slot value with the same storage class and
/// the same index.
#[verifier::external_body]
fn gen_slot_raw(s: GenSlot) -> symjit::Slot {
    match s {
        GenSlot::Param(i) => symjit::Slot::Param(i),
        GenSlot::Out(i) => symjit::Slot::Out(i),
        GenSlot::Const(i) => symjit::Slot::Const(i),
        GenSlot::Temp(i) => symjit::Slot::Temp(i),
    }
}

/// Relies on symjit's Config::from_name and Translator::new: creates an
/// empty translator for the configuration the model describes,
/// deterministically: the bytecode or native target, the complex, vector
/// and thread options as given, the symbolic-evaluator addressing mode
/// on, and every remaining option at its fixed baseline.
#[verifier::external_body]
fn translator_new(cfg: &Config) -> symjit::Translator {
    let name = if cfg.bytecode { "bytecode" } else { "native" };
    let mut c = symjit::Config::from_name(name, 0).unwrap();
    c.set_opt_level(2);
    c.set_symbolica(true);
    c.set_complex(cfg.complex);
    c.set_simd(cfg.simd);
    c.set_threads(cfg.use_threads);
    symjit::Translator::new(c)
}

/// Creates an empty builder scoped to the given configuration. Nothing
/// has been appended to it yet.
pub(crate) fn builder_new(cfg: &Config) -> (b: Builder)
    ensures
        b.log() == Seq::<GenOpV>::empty(),
        b.config_model() == *cfg,
        b.num_params() == 0usize,
{
    Builder {
        inner: translator_new(cfg),
        ops: Ghost(Seq::empty()),
        cfg: Ghost(*cfg),
        np: Ghost(0usize),
    }
}

/// Relies on symjit's Translator::append_constant: appends one constant,
/// whose two components carry the given bit patterns, to the builder's
/// pool. The bit-for-bit reinterpretation cannot fail: the carrier and the
/// generator's scalar have the same size.
#[verifier::external_body]
pub(crate) fn append_constant(b: &mut Builder, z: ComplexBits) -> (r: Result<(), CompileError>)
    ensures
        r is Ok ==> final(b).log() == old(b).log().push(GenOpV::Constant(z)),
        final(b).config_model() == old(b).config_model(),
        final(b).num_params() == old(b).num_params(),
        r matches Err(e) ==> e is Codegen,
{
    let c = symjit::Complex::new(bytemuck::cast(z.re), bytemuck::cast(z.im));
    match b.inner.append_constant(c) {
        Ok(_) => Ok(()),
        Err(e) => Err(CompileError::Codegen(e)),
    }
}

/// Relies on symjit's Translator::append_add: appends one n-ary addition
/// over the mapped slots, in operand order.
#[verifier::external_body]
pub(crate) fn append_add(
    b: &mut Builder,
    dest: GenSlot,
    args: &Vec<GenSlot>,
    num_reals: usize,
) -> (r: Result<(), CompileError>)
    ensures
        r is Ok ==> final(b).log() == old(b).log().push(GenOpV::Add(dest, args@, num_reals)),
        final(b).config_model() == old(b).config_model(),
        final(b).num_params() == old(b).num_params(),
        r matches Err(e) ==> e is Codegen,
{
    let a: Vec<symjit::Slot> = args.iter().map(|s| gen_slot_raw(*s)).collect();
    match b.inner.append_add(&gen_slot_raw(dest), &a, num_reals) {
        Ok(()) => Ok(()),
        Err(e) => Err(CompileError::Codegen(e)),
    }
}

/// Relies on symjit's Translator::append_mul: appends one n-ary
/// multiplication over the mapped slots, in operand order.
#[verifier::external_body]
pub(crate) fn append_mul(
    b: &mut Builder,
    dest: GenSlot,
    args: &Vec<GenSlot>,
    num_reals: usize,
) -> (r: Result<(), CompileError>)
    ensures
        r is Ok ==> final(b).log() == old(b).log().push(GenOpV::Mul(dest, args@, num_reals)),
        final(b).config_model() == old(b).config_model(),
        final(b).num_params() == old(b).num_params(),
        r matches Err(e) ==> e is Codegen,
{
    let a: Vec<symjit::Slot> = args.iter().map(|s| gen_slot_raw(*s)).collect();
    match b.inner.append_mul(&gen_slot_raw(dest), &a, num_reals) {
        Ok(()) => Ok(()),
        Err(e) => Err(CompileError::Codegen(e)),
    }
}

/// Relies on symjit's Translator::append_pow: appends one integer power.
#[verifier::external_body]
pub(crate) fn append_pow(
    b: &mut Builder,
    dest: GenSlot,
    base: GenSlot,
    p: i64,
    is_real: bool,
) -> (r: Result<(), CompileError>)
    ensures
        r is Ok ==> final(b).log() == old(b).log().push(GenOpV::Pow(dest, base, p, is_real)),
        final(b).config_model() == old(b).config_model(),
        final(b).num_params() == old(b).num_params(),
        r matches Err(e) ==> e is Codegen,
{
    match b.inner.append_pow(&gen_slot_raw(dest), &gen_slot_raw(base), p, is_real) {
        Ok(()) => Ok(()),
        Err(e) => Err(CompileError::Codegen(e)),
    }
}

/// Relies on symjit's Translator::append_powf: appends one general power
/// with a slot-valued exponent.
#[verifier::external_body]
pub(crate) fn append_powf(
    b: &mut Builder,
    dest: GenSlot,
    base: GenSlot,
    exp: GenSlot,
    is_real: bool,
) -> (r: Result<(), CompileError>)
    ensures
        r is Ok ==> final(b).log() == old(b).log().push(GenOpV::Powf(dest, base, exp, is_real)),
        final(b).config_model() == old(b).config_model(),
        final(b).num_params() == old(b).num_params(),
        r matches Err(e) ==> e is Codegen,
{
    match b.inner.append_powf(&gen_slot_raw(dest), &gen_slot_raw(base), &gen_slot_raw(exp), is_real)
    {
        Ok(()) => Ok(()),
        Err(e) => Err(CompileError::Codegen(e)),
    }
}

/// Relies on symjit's Translator::append_assign: appends one copy.
#[verifier::external_body]
pub(crate) fn append_assign(b: &mut Builder, dest: GenSlot, src: GenSlot) -> (r: Result<
    (),
    CompileError,
>)
    ensures
        r is Ok ==> final(b).log() == old(b).log().push(GenOpV::Assign(dest, src)),
        final(b).config_model() == old(b).config_model(),
        final(b).num_params() == old(b).num_params(),
        r matches Err(e) ==> e is Codegen,
{
    match b.inner.append_assign(&gen_slot_raw(dest), &gen_slot_raw(src)) {
        Ok(()) => Ok(()),
        Err(e) => Err(CompileError::Codegen(e)),
    }
}

/// Relies on symjit's Translator::append_fun_v1: appends one call of the
/// built-in function with the given numeric identifier.
#[verifier::external_body]
pub(crate) fn append_fun(
    b: &mut Builder,
    dest: GenSlot,
    fun: crate::slots::GenBuiltin,
    arg: GenSlot,
    is_real: bool,
) -> (r: Result<(), CompileError>)
    ensures
        r is Ok ==> final(b).log() == old(b).log().push(GenOpV::Fun(dest, fun, arg, is_real)),
        final(b).config_model() == old(b).config_model(),
        final(b).num_params() == old(b).num_params(),
        r matches Err(e) ==> e is Codegen,
{
    let f = symjit::BuiltinSymbol(fun.0);
    match b.inner.append_fun_v1(&gen_slot_raw(dest), &f, &gen_slot_raw(arg), is_real) {
        Ok(()) => Ok(()),
        Err(e) => Err(CompileError::Codegen(e)),
    }
}

/// Relies on symjit's Translator::append_external_fun: appends one call of
/// the caller-registered external function with the given name.
#[verifier::external_body]
pub(crate) fn append_external_fun(
    b: &mut Builder,
    dest: GenSlot,
    name: &String,
    args: &Vec<GenSlot>,
) -> (r: Result<(), CompileError>)
    ensures
        r is Ok ==> final(b).log() == old(b).log().push(
            GenOpV::ExternalFun(dest, name@, args@),
        ),
        final(b).config_model() == old(b).config_model(),
        final(b).num_params() == old(b).num_params(),
        r matches Err(e) ==> e is Codegen,
{
    let a: Vec<symjit::Slot> = args.iter().map(|s| gen_slot_raw(*s)).collect();
    match b.inner.append_external_fun(&gen_slot_raw(dest), name.as_str(), &a) {
        Ok(()) => Ok(()),
        Err(e) => Err(CompileError::Codegen(e)),
    }
}

/// Relies on symjit's Translator::append_join: appends one branchless
/// select.
#[verifier::external_body]
pub(crate) fn append_join(
    b: &mut Builder,
    dest: GenSlot,
    cond: GenSlot,
    true_val: GenSlot,
    false_val: GenSlot,
) -> (r: Result<(), CompileError>)
    ensures
        r is Ok ==> final(b).log() == old(b).log().push(
            GenOpV::Join(dest, cond, true_val, false_val),
        ),
        final(b).config_model() == old(b).config_model(),
        final(b).num_params() == old(b).num_params(),
        r matches Err(e) ==> e is Codegen,
{
    match b.inner.append_join(
        &gen_slot_raw(dest),
        &gen_slot_raw(cond),
        &gen_slot_raw(true_val),
        &gen_slot_raw(false_val),
    ) {
        Ok(()) => Ok(()),
        Err(e) => Err(CompileError::Codegen(e)),
    }
}

/// Relies on symjit's Translator::append_label: declares one jump target.
#[verifier::external_body]
pub(crate) fn append_label(b: &mut Builder, id: usize) -> (r: Result<(), CompileError>)
    ensures
        r is Ok ==> final(b).log() == old(b).log().push(GenOpV::Label(id)),
        final(b).config_model() == old(b).config_model(),
        final(b).num_params() == old(b).num_params(),
        r matches Err(e) ==> e is Codegen,
{
    match b.inner.append_label(id) {
        Ok(()) => Ok(()),
        Err(e) => Err(CompileError::Codegen(e)),
    }
}

/// Relies on symjit's Translator::append_if_else: appends one conditional
/// jump.
#[verifier::external_body]
pub(crate) fn append_if_else(b: &mut Builder, cond: GenSlot, id: usize) -> (r: Result<
    (),
    CompileError,
>)
    ensures
        r is Ok ==> final(b).log() == old(b).log().push(GenOpV::IfElse(cond, id)),
        final(b).config_model() == old(b).config_model(),
        final(b).num_params() == old(b).num_params(),
        r matches Err(e) ==> e is Codegen,
{
    match b.inner.append_if_else(&gen_slot_raw(cond), id) {
        Ok(()) => Ok(()),
        Err(e) => Err(CompileError::Codegen(e)),
    }
}

/// Relies on symjit's Translator::append_goto: appends one unconditional
/// jump.
#[verifier::external_body]
pub(crate) fn append_goto(b: &mut Builder, id: usize) -> (r: Result<(), CompileError>)
    ensures
        r is Ok ==> final(b).log() == old(b).log().push(GenOpV::Goto(id)),
        final(b).config_model() == old(b).config_model(),
        final(b).num_params() == old(b).num_params(),
        r matches Err(e) ==> e is Codegen,
{
    match b.inner.append_goto(id) {
        Ok(()) => Ok(()),
        Err(e) => Err(CompileError::Codegen(e)),
    }
}

/// Relies on symjit's Translator::set_num_params: declares how many
/// parameter slots the stream addresses, a floor under the count the
/// generator derives from the slots themselves.
#[verifier::external_body]
pub(crate) fn declare_num_params(b: &mut Builder, n: usize)
    ensures
        final(b).log() == old(b).log(),
        final(b).config_model() == old(b).config_model(),
        final(b).num_params() == n,
{
    b.inner.set_num_params(n);
}

/// The identity of a compiled artifact at the specification level: the
/// operations its builder received, in order, the declared parameter
/// floor, and the configuration that directed code generation.
pub struct ArtifactModel {
    pub ops: Seq<GenOpV>,
    pub num_params: usize,
    pub cfg: Config,
}

/// The opaque executable unit produced by the code generator, together
/// with the model of how it was built.
pub struct Artifact {
    inner: symjit::Application,
    model: Ghost<ArtifactModel>,
}

impl View for Artifact {
    type V = ArtifactModel;

    closed spec fn view(&self) -> ArtifactModel {
        self.model@
    }
}

impl Artifact {
    /// Hands the outside application out, for callers that run the
    /// compiled kernel themselves.
    pub fn application(&self) -> &symjit::Application {
        &self.inner
    }
}

/// Relies on symjit's Translator::compile: performs the native code
/// generation or bytecode finalization for everything appended so far and
/// yields the executable unit. On failure nothing is returned; partial
/// state is discarded with the translator. The requires keeps out the
/// logs on which the generator's lowering does not return normally: an
/// addition or multiplication with no operands, an external call past
/// the operand or name limits, a constant read past the pool, or a jump
/// whose label is never declared — all of which single-pass validity
/// excludes.
#[verifier::external_body]
fn translator_compile(b: Builder) -> (r: Result<symjit::Application, CompileError>)
    requires
        valid_ops(b.log()),
    ensures
        r matches Err(e) ==> e is Codegen,
{
    let mut inner = b.inner;
    match inner.compile() {
        Ok(app) => Ok(app),
        Err(e) => Err(CompileError::Codegen(e)),
    }
}

/// Performs the terminal code-generation step on a fully populated
/// builder. On failure no artifact exists.
pub(crate) fn builder_compile(b: Builder) -> (r: Result<Artifact, CompileError>)
    requires
        valid_ops(b.log()),
    ensures
        r matches Ok(art) ==> art@ == (ArtifactModel {
            ops: b.log(),
            num_params: b.num_params(),
            cfg: b.config_model(),
        }),
        r matches Err(e) ==> e is Codegen,
{
    let ghost m = ArtifactModel { ops: b.log(), num_params: b.num_params(), cfg: b.config_model() };
    match translator_compile(b) {
        Ok(app) => Ok(Artifact { inner: app, model: Ghost(m) }),
        Err(e) => Err(e),
    }
}

/// How many scalar units one logical slot occupies: two when buffers
/// are read as interleaved complex pairs, one otherwise.
pub open spec fn slot_width(complex: bool) -> nat {
    if complex {
        2
    } else {
        1
    }
}

/// One more than a parameter slot's index; zero for any other class.
pub open spec fn gen_param_need(s: GenSlot) -> nat {
    match s {
        GenSlot::Param(i) => i as nat + 1,
        _ => 0,
    }
}

/// One more than the highest parameter index among the slots.
pub open spec fn reads_param_need(v: Seq<GenSlot>) -> nat
    decreases v.len(),
{
    if v.len() == 0 {
        0
    } else {
        nat_max(reads_param_need(v.drop_last()), gen_param_need(v.last()))
    }
}

/// One more than the highest parameter index a stream reads, and zero
/// when it reads none.
pub open spec fn ops_param_need(ops: Seq<GenOpV>) -> nat
    decreases ops.len(),
{
    if ops.len() == 0 {
        0
    } else {
        nat_max(ops_param_need(ops.drop_last()), reads_param_need(op_reads(ops.last())))
    }
}

/// One more than an operation's output destination index; zero when it
/// writes no output.
pub open spec fn op_out_need(g: GenOpV) -> nat {
    match op_dest(g) {
        Some(GenSlot::Out(o)) => o as nat + 1,
        _ => 0,
    }
}

/// One more than the highest output index a stream writes, and zero
/// when it writes none.
pub open spec fn ops_out_need(ops: Seq<GenOpV>) -> nat
    decreases ops.len(),
{
    if ops.len() == 0 {
        0
    } else {
        nat_max(ops_out_need(ops.drop_last()), op_out_need(ops.last()))
    }
}

/// The parameter width of one evaluation row, in scalar units, as the
/// code generator derives it: the declared floor or the highest
/// parameter index read plus one, whichever is larger, at one scalar
/// per slot — two in the complex domain. No other option enters it.
pub open spec fn param_units(ops: Seq<GenOpV>, num_params: usize, complex: bool) -> nat {
    slot_width(complex) * nat_max(num_params as nat, ops_param_need(ops))
}

/// The output width of one row, in scalar units: the highest output
/// index written plus one, at the same per-slot width.
pub open spec fn out_units(ops: Seq<GenOpV>, complex: bool) -> nat {
    slot_width(complex) * ops_out_need(ops)
}

/// [`param_units`] applied to an artifact's model.
pub open spec fn model_params(m: ArtifactModel) -> nat {
    param_units(m.ops, m.num_params, m.cfg.complex)
}

/// [`out_units`] applied to an artifact's model.
pub open spec fn model_obs(m: ArtifactModel) -> nat {
    out_units(m.ops, m.cfg.complex)
}

/// Relies on symjit's Application::count_params: the parameter width of
/// one row, in scalar units. A complex artifact counts two scalar units
/// per logical value.
#[verifier::external_body]
pub fn count_params(a: &Artifact) -> (r: usize)
    ensures
        r == param_units(a@.ops, a@.num_params, a@.cfg.complex),
{
    a.inner.count_params
}

/// Relies on symjit's Application::count_obs: the output width of one
/// row, in scalar units.
#[verifier::external_body]
pub fn count_obs(a: &Artifact) -> (r: usize)
    ensures
        r == out_units(a@.ops, a@.cfg.complex),
{
    a.inner.count_obs
}

/// Relies on symjit's Config accessors on the application's own
/// configuration, which a load restores from the byte stream. The
/// complex, thread and interpreter options are raw bit or target tests
/// and are reported exactly; the vector option is reported as effective
/// on the host, which can only clear a requested bit, never set one.
#[verifier::external_body]
pub fn artifact_config(a: &Artifact) -> (c: Config)
    ensures
        c.complex == a@.cfg.complex,
        c.use_threads == a@.cfg.use_threads,
        c.bytecode == a@.cfg.bytecode,
        c.simd ==> a@.cfg.simd,
{
    Config {
        complex: a.inner.config.is_complex(),
        simd: a.inner.config.use_simd(),
        use_threads: a.inner.config.use_threads(),
        bytecode: a.inner.config.is_bytecode(),
    }
}

/// What one row of the bytecode interpreter computes: the output scalars,
/// as bit patterns, for one row of parameter scalars. For a stream in
/// valid single-pass order, without control flow, and built from
/// elementary arithmetic alone, the result depends on the operations,
/// the parameter floor, the complex option and the row alone, on every
/// host.
pub uninterp spec fn interp_out(
    ops: Seq<GenOpV>,
    num_params: usize,
    complex: bool,
    row: Seq<u64>,
) -> Seq<u64>;

/// [`interp_out`] applied to an artifact's model.
pub open spec fn model_out(m: ArtifactModel, row: Seq<u64>) -> Seq<u64> {
    interp_out(m.ops, m.num_params, m.cfg.complex, row)
}

/// Row `i` of a flat buffer whose rows are `w` scalars wide.
pub open spec fn row_slice(s: Seq<u64>, w: nat, i: int) -> Seq<u64> {
    s.subrange(i * (w as int), (i + 1) * (w as int))
}

/// Relies on symjit's Application::interpret_matrix: executes the
/// finalized stream with the bytecode interpreter, row by row, in index
/// order. Rows past `n`, and scalars past the written region, are left
/// as they were; the bit-for-bit view of the buffers as the
/// interpreter's scalars cannot fail, since the sizes agree. The
/// requires keeps out streams with unresolved jumps, on which the
/// interpreter's label lookup does not return. The per-row
/// clause is claimed only for streams in valid single-pass order without
/// control flow and built from elementary arithmetic: there execution
/// follows stream order, so every cell a row reads is written by that
/// row first, and every operation is an exact operation on the machine's
/// scalars, the same on every host. A skippable jump or a call into the
/// host's mathematical routines would void either half of that.
#[verifier::external_body]
pub(crate) fn interpret_rows(a: &mut Artifact, args: &Vec<u64>, outs: &mut Vec<u64>, n: usize)
    requires
        branches_resolve(old(a)@.ops),
        n * param_units(old(a)@.ops, old(a)@.num_params, old(a)@.cfg.complex) <= args@.len(),
        n * out_units(old(a)@.ops, old(a)@.cfg.complex) <= old(outs)@.len(),
    ensures
        final(a)@ == old(a)@,
        final(outs)@.len() == old(outs)@.len(),
        valid_ops(old(a)@.ops) && straight_line(old(a)@.ops) && call_free(old(a)@.ops)
            ==> forall|i: int|
            0 <= i < n ==> #[trigger] row_slice(final(outs)@, model_obs(old(a)@), i) == interp_out(
                old(a)@.ops,
                old(a)@.num_params,
                old(a)@.cfg.complex,
                row_slice(args@, model_params(old(a)@), i),
            ),
        forall|j: int|
            n * out_units(old(a)@.ops, old(a)@.cfg.complex) <= j < old(
                outs,
            )@.len() ==> final(outs)@[j] == old(outs)@[j],
{
    a.inner.interpret_matrix(
        bytemuck::cast_slice(args.as_slice()),
        bytemuck::cast_slice_mut(outs.as_mut_slice()),
        n,
    );
}

/// Whether the code generator's loader reads the byte stream's frame
/// without fault: the load returns, successfully or not. Every stream
/// the generator's own save writes is well framed; a crafted stream can
/// end in the middle of an encoded instruction and fault the decoder.
pub uninterp spec fn well_framed(bytes: Seq<u8>) -> bool;

/// The model that the code generator's loader reads out of a byte
/// stream, if every machine-independent step of the load succeeds. The
/// loader restores the configuration, the row widths and the finalized
/// instructions from the stream itself, so the model a stream denotes is
/// a function of the bytes alone.
pub uninterp spec fn deserial_model(bytes: Seq<u8>) -> Option<ArtifactModel>;

/// Relies on symjit's save for Application: writes the artifact as an
/// opaque byte stream whose exact layout the code generator owns. The
/// writer is an in-memory buffer and the serializer stays within its
/// encoding limits for every stream within the shape limits, so for such
/// artifacts saving succeeds. The stream is read back without fault by
/// the matching load, and it denotes a model with this artifact's
/// configuration, the same row widths, resolved branches whenever this
/// artifact's resolve, and bit-identical interpreter outputs on every
/// row.
#[verifier::external_body]
pub fn save_bytes(a: &Artifact) -> (r: Result<Vec<u8>, PersistError>)
    ensures
        shapes_ok(a@.ops) ==> r is Ok,
        r matches Ok(bytes) ==> well_framed(bytes@) && (deserial_model(bytes@) matches Some(m)
            && m.cfg == a@.cfg && param_units(m.ops, m.num_params, m.cfg.complex) == param_units(
            a@.ops,
            a@.num_params,
            a@.cfg.complex,
        ) && out_units(m.ops, m.cfg.complex) == out_units(a@.ops, a@.cfg.complex) && (branches_resolve(a@.ops) ==> branches_resolve(m.ops)) && (forall|row: Seq<u64>|
        #[trigger] interp_out(
            m.ops,
            m.num_params,
            m.cfg.complex,
            row,
        ) == interp_out(a@.ops, a@.num_params, a@.cfg.complex, row))),
{
    let mut buf: Vec<u8> = Vec::new();
    match a.inner.save(&mut buf) {
        Ok(()) => Ok(buf),
        Err(e) => Err(PersistError { inner: e }),
    }
}

/// Relies on symjit's load for Application: restores the executable unit
/// from a byte stream. The configuration and row widths come from the
/// stream itself; the fixed argument passed alongside only carries the
/// external-function table, which this library leaves empty. Success
/// means the stream denotes a model; the requires keeps out the crafted
/// streams on which the decoder does not return. A stream that denotes
/// a model for the interpreter target always loads: no native code is
/// generated on that path, so nothing host-dependent can fail. For a
/// native target the load regenerates machine code, which can fail on an
/// unsupported host, so no success is promised there.
#[verifier::external_body]
fn application_load(bytes: &Vec<u8>) -> (r: Result<symjit::Application, PersistError>)
    requires
        well_framed(bytes@),
    ensures
        r is Ok ==> deserial_model(bytes@) is Some,
        deserial_model(bytes@) matches Some(m) && m.cfg.bytecode ==> r is Ok,
{
    let mut c = symjit::Config::from_name("native", 0).unwrap();
    c.set_opt_level(2);
    c.set_symbolica(true);
    let mut stream: &[u8] = bytes.as_slice();
    match symjit::Application::load(&mut stream, &c) {
        Ok(app) => Ok(app),
        Err(e) => Err(PersistError { inner: e }),
    }
}

/// Restores an artifact from a byte stream. On failure no artifact is
/// returned; on success the artifact's model is the one the bytes
/// denote. A stream denoting an interpreter-target model always loads.
pub(crate) fn load_bytes(bytes: &Vec<u8>) -> (r: Result<Artifact, PersistError>)
    requires
        well_framed(bytes@),
    ensures
        r matches Ok(art) ==> deserial_model(bytes@) == Some(art@),
        deserial_model(bytes@) matches Some(m) && m.cfg.bytecode ==> r is Ok,
{
    match application_load(bytes) {
        Ok(app) => {
            let ghost m = (match deserial_model(bytes@) {
                Some(mm) => mm,
                None => arbitrary(),
            });
            proof {
                assert(deserial_model(bytes@) == Some(m));
            }
            Ok(Artifact { inner: app, model: Ghost(m) })
        },
        Err(e) => Err(e),
    }
}

/// Determinism across the save/load boundary: a byte stream denotes one
/// model, so whatever artifact the loader restores from the stream an
/// artifact was saved to keeps the saved configuration, the same row
/// widths, and bit-identical interpreter outputs on every input row.
pub proof fn lemma_save_load_round_trip(
    saved: ArtifactModel,
    loaded: ArtifactModel,
    bytes: Seq<u8>,
    row: Seq<u64>,
)
    requires
        deserial_model(bytes) matches Some(m) && m.cfg == saved.cfg && model_params(m)
            == model_params(saved) && model_obs(m) == model_obs(saved) && (forall|r2: Seq<u64>|
        #[trigger] model_out(m, r2) == model_out(saved, r2)),
        deserial_model(bytes) == Some(loaded),
    ensures
        loaded.cfg == saved.cfg,
        model_params(loaded) == model_params(saved),
        model_obs(loaded) == model_obs(saved),
        model_out(loaded, row) == model_out(saved, row),
{
}

/// Threading transparency: neither what a row evaluates to under the
/// interpreter nor the row widths depend on the thread option, nor on
/// the vector or interpreter-target options. Two artifacts whose models
/// agree on the operations, the parameter floor and the complex option
/// have the same widths and return identical rows, for every input row.
pub proof fn lemma_threads_transparent(m1: ArtifactModel, m2: ArtifactModel, row: Seq<u64>)
    requires
        m1.ops == m2.ops,
        m1.num_params == m2.num_params,
        m1.cfg.complex == m2.cfg.complex,
    ensures
        model_params(m1) == model_params(m2),
        model_obs(m1) == model_obs(m2),
        model_out(m1, row) == model_out(m2, row),
{
}

} // verus!
