use vstd::prelude::*;

use vstd::arithmetic::div_mod::{
    lemma_fundamental_div_mod, lemma_remainder, lemma_remainder_lower,
};

use crate::codegen::{
    append_add, append_assign, append_constant, append_external_fun, append_fun, append_goto,
    append_if_else, append_join, append_label, append_mul, append_pow, append_powf,
    artifact_config, builder_compile, builder_new, count_obs, count_params, declare_num_params,
    deserial_model, interpret_rows, load_bytes, model_obs, model_out, model_params, row_slice,
    well_framed, Artifact, ArtifactModel, Builder, CompileError, PersistError,
};
use crate::config::Config;
use crate::instructions::{
    translate, translate_spec, views_of_instrs, views_of_ops, GenOp, Instruction,
};
use crate::layout::{flat_complex, flatten_complex, unflatten_complex};
use crate::validity::{branches_resolve, call_free, shapes_ok, straight_line, valid_ops, validate};
use crate::values::{as_complex_pool, ComplexBits, Number, RealBits};

verus! {

/// Replays translated operations against the builder, in order, exactly
/// one call per operation. A rejected operation aborts the replay at
/// once; nothing is retried.
fn replay(b: &mut Builder, ops: &Vec<GenOp>) -> (r: Result<(), CompileError>)
    ensures
        final(b).config_model() == old(b).config_model(),
        final(b).num_params() == old(b).num_params(),
        r is Ok ==> final(b).log() == old(b).log() + views_of_ops(ops@),
        r matches Err(e) ==> e is Codegen,
{
    let mut i: usize = 0;
    while i < ops.len()
        invariant
            i <= ops@.len(),
            b.config_model() == old(b).config_model(),
            b.num_params() == old(b).num_params(),
            b.log() == old(b).log() + views_of_ops(ops@).take(i as int),
        decreases ops@.len() - i,
    {
        let ghost pre = b.log();
        let step = match &ops[i] {
            GenOp::Constant(z) => append_constant(b, *z),
            GenOp::Add(d, a, n) => append_add(b, *d, a, *n),
            GenOp::Mul(d, a, n) => append_mul(b, *d, a, *n),
            GenOp::Pow(d, base, p, ir) => append_pow(b, *d, *base, *p, *ir),
            GenOp::Powf(d, base, e, ir) => append_powf(b, *d, *base, *e, *ir),
            GenOp::Assign(d, s) => append_assign(b, *d, *s),
            GenOp::Fun(d, f, a, ir) => append_fun(b, *d, *f, *a, *ir),
            GenOp::ExternalFun(d, nm, a) => append_external_fun(b, *d, nm, a),
            GenOp::Join(d, c, t, f) => append_join(b, *d, *c, *t, *f),
            GenOp::Label(l) => append_label(b, *l),
            GenOp::IfElse(c, l) => append_if_else(b, *c, *l),
            GenOp::Goto(l) => append_goto(b, *l),
        };
        match step {
            Ok(()) => {},
            Err(e) => {
                return Err(e);
            },
        }
        proof {
            assert(b.log() == pre.push(ops@[i as int]@));
            assert(views_of_ops(ops@).take(i + 1) =~= views_of_ops(ops@).take(i as int).push(
                ops@[i as int]@,
            ));
            assert(b.log() =~= old(b).log() + views_of_ops(ops@).take(i + 1));
        }
        i = i + 1;
    }
    proof {
        assert(views_of_ops(ops@).take(ops@.len() as int) =~= views_of_ops(ops@));
    }
    Ok(())
}

/// The operations that compiling a stream against a pool of coefficients
/// hands to the code generator.
pub open spec fn compiled_ops<T: Number>(instrs: Seq<Instruction>, consts: Seq<T>) -> Seq<
    crate::instructions::GenOpV,
> {
    translate_spec(views_of_instrs(instrs), consts.map_values(|t: T| t.as_complex_spec()))
}

/// Lowers an exported instruction stream and constant pool into one
/// compiled artifact: every constant is appended first, in pool order,
/// then every instruction is replayed as exactly one builder call, in
/// stream order, and the terminal code-generation step runs. Coefficients
/// of either numeric domain are normalized to the common complex
/// representation. Translation is all-or-nothing: a stream that is not in
/// valid single-pass order, or any step the code generator rejects,
/// yields an error and no artifact.
pub fn compile<T: Number>(
    instructions: &Vec<Instruction>,
    constants: &Vec<T>,
    num_params: usize,
    config: Config,
) -> (r: Result<Artifact, CompileError>)
    ensures
        r matches Ok(art) ==> art@.ops == compiled_ops(instructions@, constants@)
            && art@.num_params == num_params && art@.cfg == config && valid_ops(art@.ops),
        !valid_ops(compiled_ops(instructions@, constants@)) ==> r is Err,
        r matches Err(e) && e is InvalidStream ==> !valid_ops(
            compiled_ops(instructions@, constants@),
        ),
{
    let pool = as_complex_pool(constants);
    proof {
        assert(pool@ =~= constants@.map_values(|t: T| t.as_complex_spec()));
    }
    let ops = translate(instructions, &pool);
    if !validate(&ops) {
        return Err(CompileError::InvalidStream);
    }
    let mut b = builder_new(&config);
    match replay(&mut b, &ops) {
        Ok(()) => {},
        Err(e) => {
            return Err(e);
        },
    }
    proof {
        assert(b.log() =~= views_of_ops(ops@));
    }
    declare_num_params(&mut b, num_params);
    builder_compile(b)
}

/// What every runner's compile step promises of the artifact it stores:
/// the model holds the translated stream, the declared parameter floor
/// and the configuration the runner forced, and the stream is in valid
/// single-pass order.
pub open spec fn compiled_to<T: Number>(
    m: ArtifactModel,
    instrs: Seq<Instruction>,
    consts: Seq<T>,
    num_params: usize,
    cfg: Config,
) -> bool {
    &&& m.ops == compiled_ops(instrs, consts)
    &&& m.num_params == num_params
    &&& m.cfg == cfg
    &&& valid_ops(m.ops)
}

/// The configuration a runner forces before compiling: its own complex,
/// vector and interpreter options, with the caller's thread option kept.
pub open spec fn forced_config(c: Config, complex: bool, simd: bool, bytecode: bool) -> Config {
    Config { complex, simd, use_threads: c.use_threads, bytecode }
}

/// What a runner restored from bytes reports as its configuration,
/// against the artifact's model: exact but for the vector option, which
/// the generator reports as effective on the host — a requested vector
/// option may read back as off, never the reverse.
pub open spec fn adopted_config(c: Config, m: Config) -> bool {
    &&& c.complex == m.complex
    &&& c.use_threads == m.use_threads
    &&& c.bytecode == m.bytecode
    &&& c.simd ==> m.simd
}

/// How many whole parameter rows a flat buffer of `args_len` scalars
/// holds, for an artifact with model `m`.
pub open spec fn spec_rows(m: ArtifactModel, args_len: int) -> int {
    args_len / (model_params(m) as int)
}

/// Computes how many evaluation rows a batch holds and checks the output
/// capacity: `args_len` flat input scalars give `args_len` divided by the
/// artifact's parameter width many rows, and the flat output buffer must
/// hold that many output rows. `None` reports the caller contract
/// violations: an artifact without parameters, or too little room.
fn batch_rows_flat(art: &Artifact, args_len: usize, outs_len: usize) -> (r: Option<usize>)
    ensures
        r matches Some(n) ==> model_params(art@) > 0 && n == spec_rows(art@, args_len as int) && n
            * model_obs(art@) <= outs_len,
        r is None ==> model_params(art@) == 0 || spec_rows(art@, args_len as int) * model_obs(art@)
            > outs_len,
{
    let cp = count_params(art);
    let co = count_obs(art);
    proof {
        assert(cp == model_params(art@));
        assert(co == model_obs(art@));
    }
    if cp == 0 {
        return None;
    }
    let n = args_len / cp;
    if co == 0 {
        return Some(n);
    }
    let cap = outs_len / co;
    if n <= cap {
        proof {
            lemma_remainder_lower(outs_len as int, co as int);
            assert(n * co <= cap * co) by (nonlinear_arith)
                requires
                    n <= cap,
                    co >= 0,
            ;
        }
        Some(n)
    } else {
        proof {
            lemma_fundamental_div_mod(outs_len as int, co as int);
            lemma_remainder(outs_len as int, co as int);
            assert(cap * co + co <= n * co) by (nonlinear_arith)
                requires
                    cap + 1 <= n,
                    co >= 0,
            ;
        }
        None
    }
}

/// As [`batch_rows_flat`], for buffers counted in complex values: each
/// value is two adjacent scalars, so `args_len` complex values hold
/// `2 * args_len` flat scalars and the output capacity is `2 * outs_len`.
fn batch_rows_complex(art: &Artifact, args_len: usize, outs_len: usize) -> (r: Option<usize>)
    ensures
        r matches Some(n) ==> model_params(art@) > 0 && n == spec_rows(art@, 2 * args_len as int)
            && n * model_obs(art@) <= 2 * outs_len,
        r is None ==> model_params(art@) == 0 || args_len > usize::MAX / 2 || outs_len > usize::MAX
            / 2 || spec_rows(art@, 2 * args_len as int) * model_obs(art@) > 2 * outs_len,
{
    if args_len > usize::MAX / 2 || outs_len > usize::MAX / 2 {
        return None;
    }
    batch_rows_flat(art, 2 * args_len, 2 * outs_len)
}

/// A runner over real scalars whose artifact is natively compiled.
pub struct CompiledRealRunner {
    config: Config,
    art: Artifact,
}

/// A runner over interleaved complex scalars whose artifact is natively
/// compiled.
pub struct CompiledComplexRunner {
    config: Config,
    art: Artifact,
}

/// A runner over real vector lanes whose artifact is natively compiled
/// with fixed-width vector code.
pub struct CompiledSimdRealRunner {
    config: Config,
    art: Artifact,
}

/// A runner over complex vector lanes whose artifact is natively
/// compiled with fixed-width vector code.
pub struct CompiledSimdComplexRunner {
    config: Config,
    art: Artifact,
}

/// A runner over real scalars whose stream is executed by the bytecode
/// interpreter instead of native code.
pub struct InterpretedRealRunner {
    config: Config,
    art: Artifact,
}

/// A runner over interleaved complex scalars whose stream is executed by
/// the bytecode interpreter.
pub struct InterpretedComplexRunner {
    config: Config,
    art: Artifact,
}

impl CompiledRealRunner {
    /// The model of the artifact this runner owns.
    pub closed spec fn model(&self) -> ArtifactModel {
        self.art@
    }

    /// The configuration this runner stores.
    pub closed spec fn config_spec(&self) -> Config {
        self.config
    }

    /// Compiles a stream for this runner's shape, forcing the real,
    /// scalar, native options and keeping the thread option as given.
    pub fn compile(
        instructions: &Vec<Instruction>,
        constants: &Vec<RealBits>,
        num_params: usize,
        config: Config,
    ) -> (r: Result<Self, CompileError>)
        ensures
            r matches Ok(rn) ==> compiled_to(
                rn.model(),
                instructions@,
                constants@,
                num_params,
                forced_config(config, false, false, false),
            ) && rn.config_spec() == rn.model().cfg,
            !valid_ops(compiled_ops(instructions@, constants@)) ==> r is Err,
            r matches Err(e) && e is InvalidStream ==> !valid_ops(
                compiled_ops(instructions@, constants@),
            ),
    {
        let mut config = config;
        config.set_complex(false);
        config.set_simd(false);
        config.set_bytecode(false);
        match compile(instructions, constants, num_params, config) {
            Ok(art) => Ok(Self { config, art }),
            Err(e) => Err(e),
        }
    }

    /// The stored configuration.
    pub fn config(&self) -> (c: Config)
        ensures
            c == self.config_spec(),
    {
        self.config
    }

    /// The parameter width of one row, in scalar units.
    pub fn count_params(&self) -> (r: usize)
        ensures
            r == model_params(self.model()),
    {
        count_params(&self.art)
    }

    /// The output width of one row, in scalar units.
    pub fn count_obs(&self) -> (r: usize)
        ensures
            r == model_obs(self.model()),
    {
        count_obs(&self.art)
    }

    /// How many rows a batch of `args_len` scalars holds, with the
    /// output-capacity check; `None` reports a caller contract violation.
    pub fn batch_rows(&self, args_len: usize, outs_len: usize) -> (r: Option<usize>)
        ensures
            r matches Some(n) ==> model_params(self.model()) > 0 && n == spec_rows(
                self.model(),
                args_len as int,
            ) && n * model_obs(self.model()) <= outs_len,
            r is None ==> model_params(self.model()) == 0 || spec_rows(
                self.model(),
                args_len as int,
            ) * model_obs(self.model()) > outs_len,
    {
        batch_rows_flat(&self.art, args_len, outs_len)
    }

    /// The compiled artifact, for callers that run its kernel themselves.
    pub fn artifact(&self) -> &Artifact {
        &self.art
    }

    /// Writes the artifact as an opaque byte stream; callers own the
    /// choice of where the bytes go. Saving an artifact whose stream is
    /// within the generator's shape limits always succeeds; the bytes
    /// denote a model with this artifact's configuration, row widths and
    /// interpreter outputs, and a load reads them back without fault.
    pub fn save(&self) -> (r: Result<Vec<u8>, PersistError>)
        ensures
            shapes_ok(self.model().ops) ==> r is Ok,
            r matches Ok(bytes) ==> well_framed(bytes@) && (deserial_model(bytes@) matches Some(m)
                && m.cfg == self.model().cfg && model_params(m) == model_params(self.model())
                && model_obs(m) == model_obs(self.model()) && (branches_resolve(self.model().ops)
                ==> branches_resolve(m.ops)) && (forall|row: Seq<u64>|
            #[trigger] model_out(m, row) == model_out(self.model(), row))),
    {
        crate::codegen::save_bytes(&self.art)
    }

    /// Restores a runner from a saved byte stream. The artifact carries
    /// its own configuration, restored from the stream; the runner
    /// adopts what the generator reports of it.
    pub fn load(bytes: &Vec<u8>) -> (r: Result<Self, PersistError>)
        requires
            well_framed(bytes@),
        ensures
            r matches Ok(rn) ==> deserial_model(bytes@) == Some(rn.model()) && adopted_config(
                rn.config_spec(),
                rn.model().cfg,
            ),
            deserial_model(bytes@) matches Some(m) && m.cfg.bytecode ==> r is Ok,
    {
        match load_bytes(bytes) {
            Ok(art) => {
                let config = artifact_config(&art);
                Ok(Self { config, art })
            },
            Err(e) => Err(e),
        }
    }

    /// Writes the artifact out and restores a fresh runner from those
    /// same bytes: the persisted round trip. The restored runner keeps
    /// this runner's configuration and row widths and returns
    /// bit-identical interpreter outputs on every row.
    pub fn reload(&self) -> (r: Result<Self, PersistError>)
        ensures
            r matches Ok(rn) ==> rn.model().cfg == self.model().cfg && adopted_config(
                rn.config_spec(),
                rn.model().cfg,
            ) && model_params(rn.model()) == model_params(self.model()) && model_obs(rn.model())
                == model_obs(self.model()) && (branches_resolve(self.model().ops)
                ==> branches_resolve(rn.model().ops)) && (forall|row: Seq<u64>|
            #[trigger] model_out(rn.model(), row) == model_out(self.model(), row)),
            shapes_ok(self.model().ops) && self.model().cfg.bytecode ==> r is Ok,
    {
        match self.save() {
            Ok(bytes) => Self::load(&bytes),
            Err(e) => Err(e),
        }
    }
}

impl CompiledComplexRunner {
    /// The model of the artifact this runner owns.
    pub closed spec fn model(&self) -> ArtifactModel {
        self.art@
    }

    /// The configuration this runner stores.
    pub closed spec fn config_spec(&self) -> Config {
        self.config
    }

    /// Compiles a stream for this runner's shape, forcing its own
    /// options and keeping the thread option as given.
    pub fn compile(
        instructions: &Vec<Instruction>,
        constants: &Vec<ComplexBits>,
        num_params: usize,
        config: Config,
    ) -> (r: Result<Self, CompileError>)
        ensures
            r matches Ok(rn) ==> compiled_to(
                rn.model(),
                instructions@,
                constants@,
                num_params,
                forced_config(config, true, false, false),
            ) && rn.config_spec() == rn.model().cfg,
            !valid_ops(compiled_ops(instructions@, constants@)) ==> r is Err,
            r matches Err(e) && e is InvalidStream ==> !valid_ops(
                compiled_ops(instructions@, constants@),
            ),
    {
        let mut config = config;
        config.set_complex(true);
        config.set_simd(false);
        config.set_bytecode(false);
        match compile(instructions, constants, num_params, config) {
            Ok(art) => Ok(Self { config, art }),
            Err(e) => Err(e),
        }
    }

    /// The stored configuration.
    pub fn config(&self) -> (c: Config)
        ensures
            c == self.config_spec(),
    {
        self.config
    }

    /// The parameter width of one row, in scalar units.
    pub fn count_params(&self) -> (r: usize)
        ensures
            r == model_params(self.model()),
    {
        count_params(&self.art)
    }

    /// The output width of one row, in scalar units.
    pub fn count_obs(&self) -> (r: usize)
        ensures
            r == model_obs(self.model()),
    {
        count_obs(&self.art)
    }

    /// How many rows a batch holds, with the output-capacity check;
    /// `None` reports a caller contract violation.
    pub fn batch_rows(&self, args_len: usize, outs_len: usize) -> (r: Option<usize>)
        ensures
            r matches Some(n) ==> model_params(self.model()) > 0 && n == spec_rows(
                self.model(),
                2 * args_len as int,
            ) && n * model_obs(self.model()) <= 2 * outs_len,
            r is None ==> model_params(self.model()) == 0 || args_len > usize::MAX / 2 || outs_len
                > usize::MAX / 2 || spec_rows(self.model(), 2 * args_len as int) * model_obs(self.model()) > 2 * outs_len,
    {
        batch_rows_complex(&self.art, args_len, outs_len)
    }

    /// The compiled artifact, for callers that run its kernel themselves.
    pub fn artifact(&self) -> &Artifact {
        &self.art
    }

    /// Writes the artifact as an opaque byte stream; callers own the
    /// choice of where the bytes go. Saving an artifact whose stream is
    /// within the generator's shape limits always succeeds; the bytes
    /// denote a model with this artifact's configuration, row widths and
    /// interpreter outputs, and a load reads them back without fault.
    pub fn save(&self) -> (r: Result<Vec<u8>, PersistError>)
        ensures
            shapes_ok(self.model().ops) ==> r is Ok,
            r matches Ok(bytes) ==> well_framed(bytes@) && (deserial_model(bytes@) matches Some(m)
                && m.cfg == self.model().cfg && model_params(m) == model_params(self.model())
                && model_obs(m) == model_obs(self.model()) && (branches_resolve(self.model().ops)
                ==> branches_resolve(m.ops)) && (forall|row: Seq<u64>|
            #[trigger] model_out(m, row) == model_out(self.model(), row))),
    {
        crate::codegen::save_bytes(&self.art)
    }

    /// Restores a runner from a saved byte stream. The artifact carries
    /// its own configuration, restored from the stream; the runner
    /// adopts what the generator reports of it.
    pub fn load(bytes: &Vec<u8>) -> (r: Result<Self, PersistError>)
        requires
            well_framed(bytes@),
        ensures
            r matches Ok(rn) ==> deserial_model(bytes@) == Some(rn.model()) && adopted_config(
                rn.config_spec(),
                rn.model().cfg,
            ),
            deserial_model(bytes@) matches Some(m) && m.cfg.bytecode ==> r is Ok,
    {
        match load_bytes(bytes) {
            Ok(art) => {
                let config = artifact_config(&art);
                Ok(Self { config, art })
            },
            Err(e) => Err(e),
        }
    }

    /// Writes the artifact out and restores a fresh runner from those
    /// same bytes: the persisted round trip. The restored runner keeps
    /// this runner's configuration and row widths and returns
    /// bit-identical interpreter outputs on every row.
    pub fn reload(&self) -> (r: Result<Self, PersistError>)
        ensures
            r matches Ok(rn) ==> rn.model().cfg == self.model().cfg && adopted_config(
                rn.config_spec(),
                rn.model().cfg,
            ) && model_params(rn.model()) == model_params(self.model()) && model_obs(rn.model())
                == model_obs(self.model()) && (branches_resolve(self.model().ops)
                ==> branches_resolve(rn.model().ops)) && (forall|row: Seq<u64>|
            #[trigger] model_out(rn.model(), row) == model_out(self.model(), row)),
            shapes_ok(self.model().ops) && self.model().cfg.bytecode ==> r is Ok,
    {
        match self.save() {
            Ok(bytes) => Self::load(&bytes),
            Err(e) => Err(e),
        }
    }
}

impl CompiledSimdRealRunner {
    /// The model of the artifact this runner owns.
    pub closed spec fn model(&self) -> ArtifactModel {
        self.art@
    }

    /// The configuration this runner stores.
    pub closed spec fn config_spec(&self) -> Config {
        self.config
    }

    /// Compiles a stream for this runner's shape, forcing its own
    /// options and keeping the thread option as given.
    pub fn compile(
        instructions: &Vec<Instruction>,
        constants: &Vec<RealBits>,
        num_params: usize,
        config: Config,
    ) -> (r: Result<Self, CompileError>)
        ensures
            r matches Ok(rn) ==> compiled_to(
                rn.model(),
                instructions@,
                constants@,
                num_params,
                forced_config(config, false, true, false),
            ) && rn.config_spec() == rn.model().cfg,
            !valid_ops(compiled_ops(instructions@, constants@)) ==> r is Err,
            r matches Err(e) && e is InvalidStream ==> !valid_ops(
                compiled_ops(instructions@, constants@),
            ),
    {
        let mut config = config;
        config.set_complex(false);
        config.set_simd(true);
        config.set_bytecode(false);
        match compile(instructions, constants, num_params, config) {
            Ok(art) => Ok(Self { config, art }),
            Err(e) => Err(e),
        }
    }

    /// The stored configuration.
    pub fn config(&self) -> (c: Config)
        ensures
            c == self.config_spec(),
    {
        self.config
    }

    /// The parameter width of one row, in scalar units.
    pub fn count_params(&self) -> (r: usize)
        ensures
            r == model_params(self.model()),
    {
        count_params(&self.art)
    }

    /// The output width of one row, in scalar units.
    pub fn count_obs(&self) -> (r: usize)
        ensures
            r == model_obs(self.model()),
    {
        count_obs(&self.art)
    }

    /// How many rows a batch holds, with the output-capacity check;
    /// `None` reports a caller contract violation.
    pub fn batch_rows(&self, args_len: usize, outs_len: usize) -> (r: Option<usize>)
        ensures
            r matches Some(n) ==> model_params(self.model()) > 0 && n == spec_rows(
                self.model(),
                args_len as int,
            ) && n * model_obs(self.model()) <= outs_len,
            r is None ==> model_params(self.model()) == 0 || spec_rows(
                self.model(),
                args_len as int,
            ) * model_obs(self.model()) > outs_len,
    {
        batch_rows_flat(&self.art, args_len, outs_len)
    }

    /// The compiled artifact, for callers that run its kernel themselves.
    pub fn artifact(&self) -> &Artifact {
        &self.art
    }

    /// Writes the artifact as an opaque byte stream; callers own the
    /// choice of where the bytes go. Saving an artifact whose stream is
    /// within the generator's shape limits always succeeds; the bytes
    /// denote a model with this artifact's configuration, row widths and
    /// interpreter outputs, and a load reads them back without fault.
    pub fn save(&self) -> (r: Result<Vec<u8>, PersistError>)
        ensures
            shapes_ok(self.model().ops) ==> r is Ok,
            r matches Ok(bytes) ==> well_framed(bytes@) && (deserial_model(bytes@) matches Some(m)
                && m.cfg == self.model().cfg && model_params(m) == model_params(self.model())
                && model_obs(m) == model_obs(self.model()) && (branches_resolve(self.model().ops)
                ==> branches_resolve(m.ops)) && (forall|row: Seq<u64>|
            #[trigger] model_out(m, row) == model_out(self.model(), row))),
    {
        crate::codegen::save_bytes(&self.art)
    }

    /// Restores a runner from a saved byte stream. The artifact carries
    /// its own configuration, restored from the stream; the runner
    /// adopts what the generator reports of it.
    pub fn load(bytes: &Vec<u8>) -> (r: Result<Self, PersistError>)
        requires
            well_framed(bytes@),
        ensures
            r matches Ok(rn) ==> deserial_model(bytes@) == Some(rn.model()) && adopted_config(
                rn.config_spec(),
                rn.model().cfg,
            ),
            deserial_model(bytes@) matches Some(m) && m.cfg.bytecode ==> r is Ok,
    {
        match load_bytes(bytes) {
            Ok(art) => {
                let config = artifact_config(&art);
                Ok(Self { config, art })
            },
            Err(e) => Err(e),
        }
    }

    /// Writes the artifact out and restores a fresh runner from those
    /// same bytes: the persisted round trip. The restored runner keeps
    /// this runner's configuration and row widths and returns
    /// bit-identical interpreter outputs on every row.
    pub fn reload(&self) -> (r: Result<Self, PersistError>)
        ensures
            r matches Ok(rn) ==> rn.model().cfg == self.model().cfg && adopted_config(
                rn.config_spec(),
                rn.model().cfg,
            ) && model_params(rn.model()) == model_params(self.model()) && model_obs(rn.model())
                == model_obs(self.model()) && (branches_resolve(self.model().ops)
                ==> branches_resolve(rn.model().ops)) && (forall|row: Seq<u64>|
            #[trigger] model_out(rn.model(), row) == model_out(self.model(), row)),
            shapes_ok(self.model().ops) && self.model().cfg.bytecode ==> r is Ok,
    {
        match self.save() {
            Ok(bytes) => Self::load(&bytes),
            Err(e) => Err(e),
        }
    }
}

impl CompiledSimdComplexRunner {
    /// The model of the artifact this runner owns.
    pub closed spec fn model(&self) -> ArtifactModel {
        self.art@
    }

    /// The configuration this runner stores.
    pub closed spec fn config_spec(&self) -> Config {
        self.config
    }

    /// Compiles a stream for this runner's shape, forcing its own
    /// options and keeping the thread option as given.
    pub fn compile(
        instructions: &Vec<Instruction>,
        constants: &Vec<ComplexBits>,
        num_params: usize,
        config: Config,
    ) -> (r: Result<Self, CompileError>)
        ensures
            r matches Ok(rn) ==> compiled_to(
                rn.model(),
                instructions@,
                constants@,
                num_params,
                forced_config(config, true, true, false),
            ) && rn.config_spec() == rn.model().cfg,
            !valid_ops(compiled_ops(instructions@, constants@)) ==> r is Err,
            r matches Err(e) && e is InvalidStream ==> !valid_ops(
                compiled_ops(instructions@, constants@),
            ),
    {
        let mut config = config;
        config.set_complex(true);
        config.set_simd(true);
        config.set_bytecode(false);
        match compile(instructions, constants, num_params, config) {
            Ok(art) => Ok(Self { config, art }),
            Err(e) => Err(e),
        }
    }

    /// The stored configuration.
    pub fn config(&self) -> (c: Config)
        ensures
            c == self.config_spec(),
    {
        self.config
    }

    /// The parameter width of one row, in scalar units.
    pub fn count_params(&self) -> (r: usize)
        ensures
            r == model_params(self.model()),
    {
        count_params(&self.art)
    }

    /// The output width of one row, in scalar units.
    pub fn count_obs(&self) -> (r: usize)
        ensures
            r == model_obs(self.model()),
    {
        count_obs(&self.art)
    }

    /// How many rows a batch holds, with the output-capacity check;
    /// `None` reports a caller contract violation.
    pub fn batch_rows(&self, args_len: usize, outs_len: usize) -> (r: Option<usize>)
        ensures
            r matches Some(n) ==> model_params(self.model()) > 0 && n == spec_rows(
                self.model(),
                2 * args_len as int,
            ) && n * model_obs(self.model()) <= 2 * outs_len,
            r is None ==> model_params(self.model()) == 0 || args_len > usize::MAX / 2 || outs_len
                > usize::MAX / 2 || spec_rows(self.model(), 2 * args_len as int) * model_obs(self.model()) > 2 * outs_len,
    {
        batch_rows_complex(&self.art, args_len, outs_len)
    }

    /// The compiled artifact, for callers that run its kernel themselves.
    pub fn artifact(&self) -> &Artifact {
        &self.art
    }

    /// Writes the artifact as an opaque byte stream; callers own the
    /// choice of where the bytes go. Saving an artifact whose stream is
    /// within the generator's shape limits always succeeds; the bytes
    /// denote a model with this artifact's configuration, row widths and
    /// interpreter outputs, and a load reads them back without fault.
    pub fn save(&self) -> (r: Result<Vec<u8>, PersistError>)
        ensures
            shapes_ok(self.model().ops) ==> r is Ok,
            r matches Ok(bytes) ==> well_framed(bytes@) && (deserial_model(bytes@) matches Some(m)
                && m.cfg == self.model().cfg && model_params(m) == model_params(self.model())
                && model_obs(m) == model_obs(self.model()) && (branches_resolve(self.model().ops)
                ==> branches_resolve(m.ops)) && (forall|row: Seq<u64>|
            #[trigger] model_out(m, row) == model_out(self.model(), row))),
    {
        crate::codegen::save_bytes(&self.art)
    }

    /// Restores a runner from a saved byte stream. The artifact carries
    /// its own configuration, restored from the stream; the runner
    /// adopts what the generator reports of it.
    pub fn load(bytes: &Vec<u8>) -> (r: Result<Self, PersistError>)
        requires
            well_framed(bytes@),
        ensures
            r matches Ok(rn) ==> deserial_model(bytes@) == Some(rn.model()) && adopted_config(
                rn.config_spec(),
                rn.model().cfg,
            ),
            deserial_model(bytes@) matches Some(m) && m.cfg.bytecode ==> r is Ok,
    {
        match load_bytes(bytes) {
            Ok(art) => {
                let config = artifact_config(&art);
                Ok(Self { config, art })
            },
            Err(e) => Err(e),
        }
    }

    /// Writes the artifact out and restores a fresh runner from those
    /// same bytes: the persisted round trip. The restored runner keeps
    /// this runner's configuration and row widths and returns
    /// bit-identical interpreter outputs on every row.
    pub fn reload(&self) -> (r: Result<Self, PersistError>)
        ensures
            r matches Ok(rn) ==> rn.model().cfg == self.model().cfg && adopted_config(
                rn.config_spec(),
                rn.model().cfg,
            ) && model_params(rn.model()) == model_params(self.model()) && model_obs(rn.model())
                == model_obs(self.model()) && (branches_resolve(self.model().ops)
                ==> branches_resolve(rn.model().ops)) && (forall|row: Seq<u64>|
            #[trigger] model_out(rn.model(), row) == model_out(self.model(), row)),
            shapes_ok(self.model().ops) && self.model().cfg.bytecode ==> r is Ok,
    {
        match self.save() {
            Ok(bytes) => Self::load(&bytes),
            Err(e) => Err(e),
        }
    }
}

impl InterpretedRealRunner {
    /// The model of the artifact this runner owns.
    pub closed spec fn model(&self) -> ArtifactModel {
        self.art@
    }

    /// The configuration this runner stores.
    pub closed spec fn config_spec(&self) -> Config {
        self.config
    }

    /// Compiles a stream for this runner's shape: real scalars, executed
    /// by the bytecode interpreter, bypassing native code generation.
    pub fn compile(
        instructions: &Vec<Instruction>,
        constants: &Vec<RealBits>,
        num_params: usize,
        config: Config,
    ) -> (r: Result<Self, CompileError>)
        ensures
            r matches Ok(rn) ==> compiled_to(
                rn.model(),
                instructions@,
                constants@,
                num_params,
                forced_config(config, false, false, true),
            ) && rn.config_spec() == rn.model().cfg,
            !valid_ops(compiled_ops(instructions@, constants@)) ==> r is Err,
            r matches Err(e) && e is InvalidStream ==> !valid_ops(
                compiled_ops(instructions@, constants@),
            ),
    {
        let mut config = config;
        config.set_complex(false);
        config.set_simd(false);
        config.set_bytecode(true);
        match compile(instructions, constants, num_params, config) {
            Ok(art) => Ok(Self { config, art }),
            Err(e) => Err(e),
        }
    }

    /// The stored configuration.
    pub fn config(&self) -> (c: Config)
        ensures
            c == self.config_spec(),
    {
        self.config
    }

    /// The parameter width of one row, in scalar units.
    pub fn count_params(&self) -> (r: usize)
        ensures
            r == model_params(self.model()),
    {
        count_params(&self.art)
    }

    /// The output width of one row, in scalar units.
    pub fn count_obs(&self) -> (r: usize)
        ensures
            r == model_obs(self.model()),
    {
        count_obs(&self.art)
    }

    /// Evaluates every whole parameter row in `args`, row by row, in
    /// index order, writing each row's outputs at the matching offset of
    /// `outs`; whatever lies past the written rows is left unchanged.
    /// The caller owes room in `outs` for every row, and an artifact
    /// without parameters cannot split a batch into rows. The per-row
    /// guarantee is stated for streams without control flow built from
    /// elementary arithmetic, where each output row is a function of the
    /// artifact and that row alone.
    pub fn evaluate(&mut self, args: &Vec<u64>, outs: &mut Vec<u64>)
        requires
            branches_resolve(old(self).model().ops),
            model_params(old(self).model()) > 0,
            spec_rows(old(self).model(), args@.len() as int) * model_obs(old(self).model()) <= old(
                outs,
            )@.len(),
        ensures
            final(self).model() == old(self).model(),
            final(self).config_spec() == old(self).config_spec(),
            final(outs)@.len() == old(outs)@.len(),
            valid_ops(old(self).model().ops) && straight_line(old(self).model().ops) && call_free(
                old(self).model().ops,
            ) ==> forall|i: int|
                0 <= i < spec_rows(old(self).model(), args@.len() as int)
                    ==> #[trigger] row_slice(final(outs)@, model_obs(old(self).model()), i)
                    == model_out(
                    old(self).model(),
                    row_slice(args@, model_params(old(self).model()), i),
                ),
            forall|j: int|
                spec_rows(old(self).model(), args@.len() as int) * model_obs(old(self).model())
                    <= j < old(outs)@.len() ==> final(outs)@[j] == old(outs)@[j],
    {
        let cp = count_params(&self.art);
        let n = args.len() / cp;
        proof {
            lemma_remainder_lower(args@.len() as int, cp as int);
        }
        interpret_rows(&mut self.art, args, outs, n);
    }

    /// Writes the artifact as an opaque byte stream; callers own the
    /// choice of where the bytes go. Saving an artifact whose stream is
    /// within the generator's shape limits always succeeds; the bytes
    /// denote a model with this artifact's configuration, row widths and
    /// interpreter outputs, and a load reads them back without fault.
    pub fn save(&self) -> (r: Result<Vec<u8>, PersistError>)
        ensures
            shapes_ok(self.model().ops) ==> r is Ok,
            r matches Ok(bytes) ==> well_framed(bytes@) && (deserial_model(bytes@) matches Some(m)
                && m.cfg == self.model().cfg && model_params(m) == model_params(self.model())
                && model_obs(m) == model_obs(self.model()) && (branches_resolve(self.model().ops)
                ==> branches_resolve(m.ops)) && (forall|row: Seq<u64>|
            #[trigger] model_out(m, row) == model_out(self.model(), row))),
    {
        crate::codegen::save_bytes(&self.art)
    }

    /// Restores a runner from a saved byte stream. The artifact carries
    /// its own configuration, restored from the stream; the runner
    /// adopts what the generator reports of it.
    pub fn load(bytes: &Vec<u8>) -> (r: Result<Self, PersistError>)
        requires
            well_framed(bytes@),
        ensures
            r matches Ok(rn) ==> deserial_model(bytes@) == Some(rn.model()) && adopted_config(
                rn.config_spec(),
                rn.model().cfg,
            ),
            deserial_model(bytes@) matches Some(m) && m.cfg.bytecode ==> r is Ok,
    {
        match load_bytes(bytes) {
            Ok(art) => {
                let config = artifact_config(&art);
                Ok(Self { config, art })
            },
            Err(e) => Err(e),
        }
    }

    /// Writes the artifact out and restores a fresh runner from those
    /// same bytes: the persisted round trip. The restored runner keeps
    /// this runner's configuration and row widths and returns
    /// bit-identical interpreter outputs on every row.
    pub fn reload(&self) -> (r: Result<Self, PersistError>)
        ensures
            r matches Ok(rn) ==> rn.model().cfg == self.model().cfg && adopted_config(
                rn.config_spec(),
                rn.model().cfg,
            ) && model_params(rn.model()) == model_params(self.model()) && model_obs(rn.model())
                == model_obs(self.model()) && (branches_resolve(self.model().ops)
                ==> branches_resolve(rn.model().ops)) && (forall|row: Seq<u64>|
            #[trigger] model_out(rn.model(), row) == model_out(self.model(), row)),
            shapes_ok(self.model().ops) && self.model().cfg.bytecode ==> r is Ok,
    {
        match self.save() {
            Ok(bytes) => Self::load(&bytes),
            Err(e) => Err(e),
        }
    }
}

impl InterpretedComplexRunner {
    /// The model of the artifact this runner owns.
    pub closed spec fn model(&self) -> ArtifactModel {
        self.art@
    }

    /// The configuration this runner stores.
    pub closed spec fn config_spec(&self) -> Config {
        self.config
    }

    /// Compiles a stream for this runner's shape: interleaved complex
    /// scalars, executed by the bytecode interpreter.
    pub fn compile(
        instructions: &Vec<Instruction>,
        constants: &Vec<ComplexBits>,
        num_params: usize,
        config: Config,
    ) -> (r: Result<Self, CompileError>)
        ensures
            r matches Ok(rn) ==> compiled_to(
                rn.model(),
                instructions@,
                constants@,
                num_params,
                forced_config(config, true, false, true),
            ) && rn.config_spec() == rn.model().cfg,
            !valid_ops(compiled_ops(instructions@, constants@)) ==> r is Err,
            r matches Err(e) && e is InvalidStream ==> !valid_ops(
                compiled_ops(instructions@, constants@),
            ),
    {
        let mut config = config;
        config.set_complex(true);
        config.set_simd(false);
        config.set_bytecode(true);
        match compile(instructions, constants, num_params, config) {
            Ok(art) => Ok(Self { config, art }),
            Err(e) => Err(e),
        }
    }

    /// The stored configuration.
    pub fn config(&self) -> (c: Config)
        ensures
            c == self.config_spec(),
    {
        self.config
    }

    /// The parameter width of one row, in scalar units; each complex
    /// value counts as two.
    pub fn count_params(&self) -> (r: usize)
        ensures
            r == model_params(self.model()),
    {
        count_params(&self.art)
    }

    /// The output width of one row, in scalar units; each complex value
    /// counts as two.
    pub fn count_obs(&self) -> (r: usize)
        ensures
            r == model_obs(self.model()),
    {
        count_obs(&self.art)
    }

    /// Evaluates every whole parameter row in `args`, row by row, in
    /// index order. The complex buffers are copied through their flat
    /// two-scalars-per-value form on the way in and out; each output row
    /// lands at the matching offset and everything past the written rows
    /// keeps its value. The per-row guarantee is stated for streams
    /// without control flow built from elementary arithmetic.
    pub fn evaluate(&mut self, args: &Vec<ComplexBits>, outs: &mut Vec<ComplexBits>)
        requires
            branches_resolve(old(self).model().ops),
            model_params(old(self).model()) > 0,
            spec_rows(old(self).model(), 2 * args@.len() as int) * model_obs(old(self).model())
                <= 2 * old(outs)@.len(),
        ensures
            final(self).model() == old(self).model(),
            final(self).config_spec() == old(self).config_spec(),
            final(outs)@.len() == old(outs)@.len(),
            valid_ops(old(self).model().ops) && straight_line(old(self).model().ops) && call_free(
                old(self).model().ops,
            ) ==> forall|i: int|
                0 <= i < spec_rows(old(self).model(), 2 * args@.len() as int)
                    ==> #[trigger] row_slice(
                    flat_complex(final(outs)@),
                    model_obs(old(self).model()),
                    i,
                ) == model_out(
                    old(self).model(),
                    row_slice(flat_complex(args@), model_params(old(self).model()), i),
                ),
            forall|j: int|
                spec_rows(old(self).model(), 2 * args@.len() as int) * model_obs(old(self).model()) <= j < 2 * old(outs)@.len() ==> flat_complex(final(outs)@)[j] == flat_complex(
                    old(outs)@,
                )[j],
    {
        let fa = flatten_complex(args);
        let mut fo = flatten_complex(outs);
        let cp = count_params(&self.art);
        let n = fa.len() / cp;
        proof {
            lemma_remainder_lower(fa@.len() as int, cp as int);
        }
        interpret_rows(&mut self.art, &fa, &mut fo, n);
        let res = unflatten_complex(&fo);
        *outs = res;
    }

    /// Writes the artifact as an opaque byte stream; callers own the
    /// choice of where the bytes go. Saving an artifact whose stream is
    /// within the generator's shape limits always succeeds; the bytes
    /// denote a model with this artifact's configuration, row widths and
    /// interpreter outputs, and a load reads them back without fault.
    pub fn save(&self) -> (r: Result<Vec<u8>, PersistError>)
        ensures
            shapes_ok(self.model().ops) ==> r is Ok,
            r matches Ok(bytes) ==> well_framed(bytes@) && (deserial_model(bytes@) matches Some(m)
                && m.cfg == self.model().cfg && model_params(m) == model_params(self.model())
                && model_obs(m) == model_obs(self.model()) && (branches_resolve(self.model().ops)
                ==> branches_resolve(m.ops)) && (forall|row: Seq<u64>|
            #[trigger] model_out(m, row) == model_out(self.model(), row))),
    {
        crate::codegen::save_bytes(&self.art)
    }

    /// Restores a runner from a saved byte stream. The artifact carries
    /// its own configuration, restored from the stream; the runner
    /// adopts what the generator reports of it.
    pub fn load(bytes: &Vec<u8>) -> (r: Result<Self, PersistError>)
        requires
            well_framed(bytes@),
        ensures
            r matches Ok(rn) ==> deserial_model(bytes@) == Some(rn.model()) && adopted_config(
                rn.config_spec(),
                rn.model().cfg,
            ),
            deserial_model(bytes@) matches Some(m) && m.cfg.bytecode ==> r is Ok,
    {
        match load_bytes(bytes) {
            Ok(art) => {
                let config = artifact_config(&art);
                Ok(Self { config, art })
            },
            Err(e) => Err(e),
        }
    }

    /// Writes the artifact out and restores a fresh runner from those
    /// same bytes: the persisted round trip. The restored runner keeps
    /// this runner's configuration and row widths and returns
    /// bit-identical interpreter outputs on every row.
    pub fn reload(&self) -> (r: Result<Self, PersistError>)
        ensures
            r matches Ok(rn) ==> rn.model().cfg == self.model().cfg && adopted_config(
                rn.config_spec(),
                rn.model().cfg,
            ) && model_params(rn.model()) == model_params(self.model()) && model_obs(rn.model())
                == model_obs(self.model()) && (branches_resolve(self.model().ops)
                ==> branches_resolve(rn.model().ops)) && (forall|row: Seq<u64>|
            #[trigger] model_out(rn.model(), row) == model_out(self.model(), row)),
            shapes_ok(self.model().ops) && self.model().cfg.bytecode ==> r is Ok,
    {
        match self.save() {
            Ok(bytes) => Self::load(&bytes),
            Err(e) => Err(e),
        }
    }
}

} // verus!
