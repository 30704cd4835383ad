use vstd::prelude::*;
use vstd::string::StrSliceExecFns;

use crate::instructions::{views_of_ops, GenOp, GenOpV};
use crate::slots::{gen_slot_index, GenSlot};

verus! {

/// The destination slot that a builder operation writes, if any.
pub open spec fn op_dest(g: GenOpV) -> Option<GenSlot> {
    match g {
        GenOpV::Constant(_) => None,
        GenOpV::Add(d, _, _) => Some(d),
        GenOpV::Mul(d, _, _) => Some(d),
        GenOpV::Pow(d, _, _, _) => Some(d),
        GenOpV::Powf(d, _, _, _) => Some(d),
        GenOpV::Assign(d, _) => Some(d),
        GenOpV::Fun(d, _, _, _) => Some(d),
        GenOpV::ExternalFun(d, _, _) => Some(d),
        GenOpV::Join(d, _, _, _) => Some(d),
        GenOpV::Label(_) => None,
        GenOpV::IfElse(_, _) => None,
        GenOpV::Goto(_) => None,
    }
}

/// The slots that a builder operation reads, in operand order.
pub open spec fn op_reads(g: GenOpV) -> Seq<GenSlot> {
    match g {
        GenOpV::Constant(_) => Seq::empty(),
        GenOpV::Add(_, a, _) => a,
        GenOpV::Mul(_, a, _) => a,
        GenOpV::Pow(_, b, _, _) => seq![b],
        GenOpV::Powf(_, b, e, _) => seq![b, e],
        GenOpV::Assign(_, s) => seq![s],
        GenOpV::Fun(_, _, a, _) => seq![a],
        GenOpV::ExternalFun(_, _, a) => a,
        GenOpV::Join(_, c, t, f) => seq![c, t, f],
        GenOpV::Label(_) => Seq::empty(),
        GenOpV::IfElse(c, _) => seq![c],
        GenOpV::Goto(_) => Seq::empty(),
    }
}

/// The label an operation declares, if any.
pub open spec fn label_id(g: GenOpV) -> Option<usize> {
    match g {
        GenOpV::Label(l) => Some(l),
        _ => None,
    }
}

/// The label an operation jumps to, if any.
pub open spec fn branch_target(g: GenOpV) -> Option<usize> {
    match g {
        GenOpV::IfElse(_, l) => Some(l),
        GenOpV::Goto(l) => Some(l),
        _ => None,
    }
}

/// How many constants a sequence of operations appends to the pool.
pub open spec fn const_count(ops: Seq<GenOpV>) -> nat
    decreases ops.len(),
{
    if ops.len() == 0 {
        0
    } else {
        const_count(ops.drop_last()) + (if ops.last() is Constant {
            1nat
        } else {
            0nat
        })
    }
}

/// Whether some operation before position `i` writes slot `s`.
pub open spec fn written_before(v: Seq<GenOpV>, i: int, s: GenSlot) -> bool {
    exists|j: int| 0 <= j < i && op_dest(#[trigger] v[j]) == Some(s)
}

/// Whether slot `s`, read at position `i`, refers to storage that holds a
/// value there: parameters are pre-populated, a constant must lie within
/// the pool appended so far, and a temporary or output must have been
/// written by an earlier operation.
pub open spec fn readable_at(v: Seq<GenOpV>, i: int, s: GenSlot) -> bool {
    match s {
        GenSlot::Param(_) => true,
        GenSlot::Const(c) => (c as nat) < const_count(v.take(i)),
        GenSlot::Temp(_) => written_before(v, i, s),
        GenSlot::Out(_) => written_before(v, i, s),
    }
}

/// Every slot that any operation reads holds a value at that point.
pub open spec fn reads_ok(v: Seq<GenOpV>) -> bool {
    forall|i: int, k: int|
        0 <= i < v.len() && 0 <= k < op_reads(#[trigger] v[i]).len() ==> readable_at(
            v,
            i,
            #[trigger] op_reads(v[i])[k],
        )
}

/// No two operations declare the same label.
pub open spec fn labels_unique(v: Seq<GenOpV>) -> bool {
    forall|j1: int, j2: int|
        0 <= j1 < j2 < v.len() && (#[trigger] label_id(v[j1])) is Some ==> label_id(v[j1])
            != #[trigger] label_id(v[j2])
}

/// Every branch names a label that is declared later in the stream.
pub open spec fn branches_resolve(v: Seq<GenOpV>) -> bool {
    forall|i: int|
        0 <= i < v.len() && (#[trigger] branch_target(v[i])) is Some ==> exists|j: int|
            i < j < v.len() && #[trigger] label_id(v[j]) == branch_target(v[i])
}

/// The most operands an external call may carry: within the code
/// generator's call lowering and the one-byte operand count of its
/// serialized form.
pub const MAX_EXTERNAL_ARGS: usize = 255;

/// The most characters an external function's name may have. A UTF-8
/// character takes at most four bytes, so the serialized name stays
/// within the one-byte length field of the generator's serialized form.
pub const MAX_NAME_CHARS: usize = 63;

/// Whether every slot an operation mentions keeps its index below half
/// the machine's index range: the generator's width arithmetic adds one
/// to an index and doubles it in the complex domain.
pub open spec fn op_slots_small(g: GenOpV) -> bool {
    &&& (op_dest(g) matches Some(d) ==> gen_slot_index(d) < usize::MAX / 2)
    &&& forall|k: int|
        0 <= k < op_reads(g).len() ==> gen_slot_index(#[trigger] op_reads(g)[k]) < usize::MAX / 2
}

/// The generator's limits on one operation's shape: an n-ary addition or
/// multiplication has at least one operand, an external call stays
/// within the operand-count and name-length limits above, and every slot
/// index stays within the index-arithmetic range. Outside these bounds
/// the generator's lowering, its width arithmetic, or the serializer its
/// save step runs, does not return normally.
pub open spec fn op_shape_ok(g: GenOpV) -> bool {
    op_slots_small(g) && (match g {
        GenOpV::Add(_, a, _) => a.len() >= 1,
        GenOpV::Mul(_, a, _) => a.len() >= 1,
        GenOpV::ExternalFun(_, nm, a) => a.len() <= MAX_EXTERNAL_ARGS && nm.len()
            <= MAX_NAME_CHARS,
        _ => true,
    })
}

/// Every operation of the stream is within the generator's shape limits.
pub open spec fn shapes_ok(v: Seq<GenOpV>) -> bool {
    forall|i: int| 0 <= i < v.len() ==> op_shape_ok(#[trigger] v[i])
}

/// Whether a stream is free of control-flow operations: no labels and no
/// jumps. In such a stream execution follows stream order exactly.
pub open spec fn straight_line(v: Seq<GenOpV>) -> bool {
    forall|i: int|
        0 <= i < v.len() ==> !((#[trigger] v[i]) is Label || v[i] is IfElse || v[i] is Goto)
}

/// Whether a stream is built from elementary arithmetic alone: no calls
/// of built-in or external functions and no general powers, whose scalar
/// evaluation goes through the host's mathematical routines.
pub open spec fn call_free(v: Seq<GenOpV>) -> bool {
    forall|i: int|
        0 <= i < v.len() ==> !((#[trigger] v[i]) is Fun || v[i] is ExternalFun || v[i] is Powf)
}

/// A translated stream is in valid single-pass order: every temporary or
/// output is written before it is read, every constant is appended before
/// it is read, every branch names exactly one label, which stands later
/// in the stream, and every operation is within the generator's shape
/// limits.
pub open spec fn valid_ops(v: Seq<GenOpV>) -> bool {
    reads_ok(v) && labels_unique(v) && branches_resolve(v) && shapes_ok(v)
}

proof fn lemma_const_count_le(v: Seq<GenOpV>)
    ensures
        const_count(v) <= v.len(),
    decreases v.len(),
{
    if v.len() > 0 {
        lemma_const_count_le(v.drop_last());
    }
}

proof fn lemma_take_step(v: Seq<GenOpV>, i: int)
    requires
        0 <= i < v.len(),
    ensures
        const_count(v.take(i + 1)) == const_count(v.take(i)) + (if v[i] is Constant {
            1nat
        } else {
            0nat
        }),
{
    assert(v.take(i + 1).drop_last() =~= v.take(i));
    assert(v.take(i + 1).last() == v[i]);
}

proof fn lemma_written_step(v: Seq<GenOpV>, i: int, s: GenSlot)
    requires
        0 <= i < v.len(),
    ensures
        written_before(v, i + 1, s) <==> (written_before(v, i, s) || op_dest(v[i]) == Some(s)),
{
    if written_before(v, i + 1, s) {
        let j = choose|j: int| 0 <= j < i + 1 && op_dest(#[trigger] v[j]) == Some(s);
        if j < i {
            assert(written_before(v, i, s));
        }
    }
    if op_dest(v[i]) == Some(s) {
        assert(0 <= i < i + 1 && op_dest(v[i]) == Some(s));
    }
}

/// The bookkeeping that the checker keeps in step with the stream prefix
/// it has walked: the constant count so far, and one flag per temporary
/// and per output that has been written so far.
pub open spec fn state_inv(
    temps: Seq<bool>,
    outs: Seq<bool>,
    nconst: usize,
    v: Seq<GenOpV>,
    i: int,
) -> bool {
    &&& 0 <= i <= v.len()
    &&& nconst as nat == const_count(v.take(i))
    &&& forall|t: usize|
        t < temps.len() ==> (temps[t as int] <==> #[trigger] written_before(
            v,
            i,
            GenSlot::Temp(t),
        ))
    &&& forall|t: usize| temps.len() <= t ==> !#[trigger] written_before(v, i, GenSlot::Temp(t))
    &&& forall|o: usize|
        o < outs.len() ==> (outs[o as int] <==> #[trigger] written_before(v, i, GenSlot::Out(o)))
    &&& forall|o: usize| outs.len() <= o ==> !#[trigger] written_before(v, i, GenSlot::Out(o))
}

fn op_dest_exec(g: &GenOp) -> (r: Option<GenSlot>)
    ensures
        r == op_dest(g@),
{
    match g {
        GenOp::Constant(_) => None,
        GenOp::Add(d, _, _) => Some(*d),
        GenOp::Mul(d, _, _) => Some(*d),
        GenOp::Pow(d, _, _, _) => Some(*d),
        GenOp::Powf(d, _, _, _) => Some(*d),
        GenOp::Assign(d, _) => Some(*d),
        GenOp::Fun(d, _, _, _) => Some(*d),
        GenOp::ExternalFun(d, _, _) => Some(*d),
        GenOp::Join(d, _, _, _) => Some(*d),
        GenOp::Label(_) => None,
        GenOp::IfElse(_, _) => None,
        GenOp::Goto(_) => None,
    }
}

fn op_label_id(g: &GenOp) -> (r: Option<usize>)
    ensures
        r == label_id(g@),
{
    match g {
        GenOp::Label(l) => Some(*l),
        _ => None,
    }
}

fn op_branch_target(g: &GenOp) -> (r: Option<usize>)
    ensures
        r == branch_target(g@),
{
    match g {
        GenOp::IfElse(_, l) => Some(*l),
        GenOp::Goto(l) => Some(*l),
        _ => None,
    }
}

fn copy_slots(v: &Vec<GenSlot>) -> (r: Vec<GenSlot>)
    ensures
        r@ == v@,
{
    let mut r: Vec<GenSlot> = Vec::new();
    let mut k: usize = 0;
    while k < v.len()
        invariant
            k <= v@.len(),
            r@.len() == k,
            forall|i: int| 0 <= i < k ==> r@[i] == v@[i],
        decreases v@.len() - k,
    {
        r.push(v[k]);
        k = k + 1;
    }
    proof {
        assert(r@ =~= v@);
    }
    r
}

fn op_reads_exec(g: &GenOp) -> (r: Vec<GenSlot>)
    ensures
        r@ == op_reads(g@),
{
    let mut r: Vec<GenSlot> = Vec::new();
    match g {
        GenOp::Constant(_) => {},
        GenOp::Add(_, a, _) => {
            r = copy_slots(a);
        },
        GenOp::Mul(_, a, _) => {
            r = copy_slots(a);
        },
        GenOp::Pow(_, b, _, _) => {
            r.push(*b);
        },
        GenOp::Powf(_, b, e, _) => {
            r.push(*b);
            r.push(*e);
        },
        GenOp::Assign(_, s) => {
            r.push(*s);
        },
        GenOp::Fun(_, _, a, _) => {
            r.push(*a);
        },
        GenOp::ExternalFun(_, _, a) => {
            r = copy_slots(a);
        },
        GenOp::Join(_, c, t, f) => {
            r.push(*c);
            r.push(*t);
            r.push(*f);
        },
        GenOp::Label(_) => {},
        GenOp::IfElse(c, _) => {
            r.push(*c);
        },
        GenOp::Goto(_) => {},
    }
    proof {
        assert(r@ =~= op_reads(g@));
    }
    r
}

fn slot_readable(
    temps: &Vec<bool>,
    outs: &Vec<bool>,
    nconst: usize,
    s: GenSlot,
    Ghost(v): Ghost<Seq<GenOpV>>,
    Ghost(i): Ghost<int>,
) -> (b: bool)
    requires
        state_inv(temps@, outs@, nconst, v, i),
    ensures
        b == readable_at(v, i, s),
{
    match s {
        GenSlot::Param(_) => true,
        GenSlot::Const(c) => c < nconst,
        GenSlot::Temp(t) => t < temps.len() && temps[t],
        GenSlot::Out(o) => o < outs.len() && outs[o],
    }
}

fn mark_written(flags: &mut Vec<bool>, idx: usize)
    ensures
        final(flags)@.len() == if idx < old(flags)@.len() {
            old(flags)@.len() as int
        } else {
            idx + 1
        },
        forall|t: int|
            0 <= t < final(flags)@.len() ==> final(flags)@[t] == (t == idx || (t < old(
                flags,
            )@.len() && old(flags)@[t])),
{
    if flags.len() <= idx {
        while flags.len() <= idx
            invariant
                flags@.len() <= idx + 1,
                old(flags)@.len() <= flags@.len(),
                forall|t: int|
                    0 <= t < flags@.len() ==> flags@[t] == (t < old(flags)@.len() && old(
                        flags,
                    )@[t]),
            decreases idx + 1 - flags@.len(),
        {
            flags.push(false);
        }
    }
    flags[idx] = true;
}

fn check_reads(ops: &Vec<GenOp>) -> (b: bool)
    ensures
        b == reads_ok(views_of_ops(ops@)),
{
    let ghost v = views_of_ops(ops@);
    let mut temps: Vec<bool> = Vec::new();
    let mut outs: Vec<bool> = Vec::new();
    let mut nconst: usize = 0;
    let mut i: usize = 0;
    while i < ops.len()
        invariant
            i <= ops@.len(),
            v == views_of_ops(ops@),
            v.len() == ops@.len(),
            state_inv(temps@, outs@, nconst, v, i as int),
            forall|a: int, k: int|
                0 <= a < i && 0 <= k < op_reads(#[trigger] v[a]).len() ==> readable_at(
                    v,
                    a,
                    #[trigger] op_reads(v[a])[k],
                ),
        decreases ops@.len() - i,
    {
        proof {
            assert(v[i as int] == ops@[i as int]@);
        }
        let rd = op_reads_exec(&ops[i]);
        let mut k: usize = 0;
        while k < rd.len()
            invariant
                k <= rd@.len(),
                i < ops@.len(),
                v == views_of_ops(ops@),
                v.len() == ops@.len(),
                rd@ == op_reads(v[i as int]),
                state_inv(temps@, outs@, nconst, v, i as int),
                forall|k2: int|
                    0 <= k2 < k ==> readable_at(v, i as int, #[trigger] op_reads(v[i as int])[k2]),
            decreases rd@.len() - k,
        {
            if !slot_readable(&temps, &outs, nconst, rd[k], Ghost(v), Ghost(i as int)) {
                proof {
                    assert(!readable_at(v, i as int, op_reads(v[i as int])[k as int]));
                    assert(!reads_ok(v));
                }
                return false;
            }
            k = k + 1;
        }
        proof {
            lemma_take_step(v, i as int);
            lemma_const_count_le(v.take(i as int));
        }
        let is_const = matches!(&ops[i], GenOp::Constant(_));
        let d = op_dest_exec(&ops[i]);
        let ghost temps_old = temps@;
        let ghost outs_old = outs@;
        match d {
            Some(GenSlot::Temp(t)) => {
                mark_written(&mut temps, t);
            },
            Some(GenSlot::Out(o)) => {
                mark_written(&mut outs, o);
            },
            _ => {},
        }
        if is_const {
            nconst = nconst + 1;
        }
        proof {
            assert forall|t: usize| t < temps@.len() implies (temps@[t as int]
                <==> #[trigger] written_before(v, i + 1, GenSlot::Temp(t))) by {
                lemma_written_step(v, i as int, GenSlot::Temp(t));
            }
            assert forall|t: usize| temps@.len() <= t implies !#[trigger] written_before(
                v,
                i + 1,
                GenSlot::Temp(t),
            ) by {
                lemma_written_step(v, i as int, GenSlot::Temp(t));
            }
            assert forall|o: usize| o < outs@.len() implies (outs@[o as int]
                <==> #[trigger] written_before(v, i + 1, GenSlot::Out(o))) by {
                lemma_written_step(v, i as int, GenSlot::Out(o));
            }
            assert forall|o: usize| outs@.len() <= o implies !#[trigger] written_before(
                v,
                i + 1,
                GenSlot::Out(o),
            ) by {
                lemma_written_step(v, i as int, GenSlot::Out(o));
            }
            assert(state_inv(temps@, outs@, nconst, v, i + 1));
        }
        i = i + 1;
    }
    true
}

fn check_labels_unique(ops: &Vec<GenOp>) -> (b: bool)
    ensures
        b == labels_unique(views_of_ops(ops@)),
{
    let ghost v = views_of_ops(ops@);
    let mut j2: usize = 0;
    while j2 < ops.len()
        invariant
            j2 <= ops@.len(),
            v == views_of_ops(ops@),
            v.len() == ops@.len(),
            forall|a: int, b2: int|
                0 <= a < b2 < j2 && (#[trigger] label_id(v[a])) is Some ==> label_id(v[a])
                    != #[trigger] label_id(v[b2]),
        decreases ops@.len() - j2,
    {
        proof {
            assert(v[j2 as int] == ops@[j2 as int]@);
        }
        let l2 = op_label_id(&ops[j2]);
        if let Some(l2v) = l2 {
            let mut j1: usize = 0;
            while j1 < j2
                invariant
                    j1 <= j2 < ops@.len(),
                    v == views_of_ops(ops@),
                    v.len() == ops@.len(),
                    label_id(v[j2 as int]) == Some(l2v),
                    forall|a: int|
                        0 <= a < j1 && (#[trigger] label_id(v[a])) is Some ==> label_id(v[a])
                            != label_id(v[j2 as int]),
                decreases j2 - j1,
            {
                proof {
                    assert(v[j1 as int] == ops@[j1 as int]@);
                }
                let l1 = op_label_id(&ops[j1]);
                if let Some(l1v) = l1 {
                    if l1v == l2v {
                        proof {
                            assert(label_id(v[j1 as int]) is Some && label_id(v[j1 as int])
                                == label_id(v[j2 as int]));
                            assert(!labels_unique(v));
                        }
                        return false;
                    }
                }
                j1 = j1 + 1;
            }
        }
        j2 = j2 + 1;
    }
    true
}

fn check_branches(ops: &Vec<GenOp>) -> (b: bool)
    ensures
        b == branches_resolve(views_of_ops(ops@)),
{
    let ghost v = views_of_ops(ops@);
    let mut i: usize = 0;
    while i < ops.len()
        invariant
            i <= ops@.len(),
            v == views_of_ops(ops@),
            v.len() == ops@.len(),
            forall|a: int|
                0 <= a < i && (#[trigger] branch_target(v[a])) is Some ==> exists|j: int|
                    a < j < v.len() && #[trigger] label_id(v[j]) == branch_target(v[a]),
        decreases ops@.len() - i,
    {
        proof {
            assert(v[i as int] == ops@[i as int]@);
        }
        let tgt = op_branch_target(&ops[i]);
        if let Some(l) = tgt {
            let mut j: usize = i + 1;
            let mut found = false;
            while j < ops.len() && !found
                invariant
                    i < j <= ops@.len(),
                    v == views_of_ops(ops@),
                    v.len() == ops@.len(),
                    branch_target(v[i as int]) == Some(l),
                    found ==> exists|j3: int|
                        i < j3 < v.len() && #[trigger] label_id(v[j3]) == Some(l),
                    !found ==> forall|j3: int|
                        i < j3 < j ==> #[trigger] label_id(v[j3]) != Some(l),
                decreases ops@.len() - j,
            {
                proof {
                    assert(v[j as int] == ops@[j as int]@);
                }
                let lj = op_label_id(&ops[j]);
                if let Some(ljv) = lj {
                    if ljv == l {
                        found = true;
                    }
                }
                j = j + 1;
            }
            if !found {
                proof {
                    assert(forall|j3: int| i < j3 < v.len() ==> #[trigger] label_id(v[j3]) != Some(
                        l,
                    ));
                    assert(!branches_resolve(v));
                }
                return false;
            }
        }
        i = i + 1;
    }
    true
}

fn slot_index_small(s: GenSlot) -> (b: bool)
    ensures
        b == (gen_slot_index(s) < usize::MAX / 2),
{
    let i = match s {
        GenSlot::Param(i) => i,
        GenSlot::Out(i) => i,
        GenSlot::Const(i) => i,
        GenSlot::Temp(i) => i,
    };
    i < usize::MAX / 2
}

fn check_shapes(ops: &Vec<GenOp>) -> (b: bool)
    ensures
        b == shapes_ok(views_of_ops(ops@)),
{
    let ghost v = views_of_ops(ops@);
    let mut i: usize = 0;
    while i < ops.len()
        invariant
            i <= ops@.len(),
            v == views_of_ops(ops@),
            v.len() == ops@.len(),
            forall|a: int| 0 <= a < i ==> op_shape_ok(#[trigger] v[a]),
        decreases ops@.len() - i,
    {
        proof {
            assert(v[i as int] == ops@[i as int]@);
        }
        let ok = match &ops[i] {
            GenOp::Add(_, a, _) => a.len() >= 1,
            GenOp::Mul(_, a, _) => a.len() >= 1,
            GenOp::ExternalFun(_, nm, a) => a.len() <= MAX_EXTERNAL_ARGS && nm.as_str().unicode_len()
                <= MAX_NAME_CHARS,
            _ => true,
        };
        if !ok {
            proof {
                assert(!op_shape_ok(v[i as int]));
                assert(!shapes_ok(v));
            }
            return false;
        }
        let d = op_dest_exec(&ops[i]);
        if let Some(ds) = d {
            if !slot_index_small(ds) {
                proof {
                    assert(!op_slots_small(v[i as int]));
                    assert(!shapes_ok(v));
                }
                return false;
            }
        }
        let rd = op_reads_exec(&ops[i]);
        let mut k: usize = 0;
        while k < rd.len()
            invariant
                k <= rd@.len(),
                i < ops@.len(),
                v == views_of_ops(ops@),
                v.len() == ops@.len(),
                rd@ == op_reads(v[i as int]),
                forall|k2: int|
                    0 <= k2 < k ==> gen_slot_index(#[trigger] op_reads(v[i as int])[k2])
                        < usize::MAX / 2,
            decreases rd@.len() - k,
        {
            if !slot_index_small(rd[k]) {
                proof {
                    assert(!op_slots_small(v[i as int]));
                    assert(!shapes_ok(v));
                }
                return false;
            }
            k = k + 1;
        }
        proof {
            assert(op_slots_small(v[i as int]));
        }
        i = i + 1;
    }
    true
}

/// Checks that a translated stream is in valid single-pass order and
/// within the generator's shape limits, exactly as [`valid_ops`] defines
/// it. Streams produced by a well-behaved evaluator satisfy this by
/// construction; the check makes the invariant a property of this
/// library rather than an assumption about its callers.
pub fn validate(ops: &Vec<GenOp>) -> (b: bool)
    ensures
        b == valid_ops(views_of_ops(ops@)),
{
    let a = check_reads(ops);
    if !a {
        return false;
    }
    let b2 = check_labels_unique(ops);
    if !b2 {
        return false;
    }
    let b3 = check_branches(ops);
    if !b3 {
        return false;
    }
    check_shapes(ops)
}

} // verus!
