use vstd::prelude::*;

verus! {

/// A reference into one of the evaluator's four storage classes. Each class
/// is indexed independently and densely by the upstream evaluator; the
/// translation layer never allocates new slots, it only re-tags them.
#[derive(Clone, Copy, PartialEq, Eq, Structural, Debug)]
pub enum EvalSlot {
    Param(usize),
    Out(usize),
    Const(usize),
    Temp(usize),
}

/// A storage reference in the code generator's addressing scheme. It uses
/// the same four storage classes as the evaluator's scheme, indexed the
/// same way.
#[derive(Clone, Copy, PartialEq, Eq, Structural, Debug)]
pub enum GenSlot {
    Param(usize),
    Out(usize),
    Const(usize),
    Temp(usize),
}

/// The storage class of a slot, considered apart from its index.
#[derive(Clone, Copy, PartialEq, Eq, Structural, Debug)]
pub enum SlotClass {
    Param,
    Out,
    Const,
    Temp,
}

pub open spec fn slot_class(s: EvalSlot) -> SlotClass {
    match s {
        EvalSlot::Param(_) => SlotClass::Param,
        EvalSlot::Out(_) => SlotClass::Out,
        EvalSlot::Const(_) => SlotClass::Const,
        EvalSlot::Temp(_) => SlotClass::Temp,
    }
}

pub open spec fn slot_index(s: EvalSlot) -> usize {
    match s {
        EvalSlot::Param(i) => i,
        EvalSlot::Out(i) => i,
        EvalSlot::Const(i) => i,
        EvalSlot::Temp(i) => i,
    }
}

pub open spec fn gen_slot_class(s: GenSlot) -> SlotClass {
    match s {
        GenSlot::Param(_) => SlotClass::Param,
        GenSlot::Out(_) => SlotClass::Out,
        GenSlot::Const(_) => SlotClass::Const,
        GenSlot::Temp(_) => SlotClass::Temp,
    }
}

pub open spec fn gen_slot_index(s: GenSlot) -> usize {
    match s {
        GenSlot::Param(i) => i,
        GenSlot::Out(i) => i,
        GenSlot::Const(i) => i,
        GenSlot::Temp(i) => i,
    }
}

/// The total mapping from the evaluator's addressing scheme to the code
/// generator's scheme.
pub open spec fn slot_spec(s: EvalSlot) -> GenSlot {
    match s {
        EvalSlot::Param(i) => GenSlot::Param(i),
        EvalSlot::Out(i) => GenSlot::Out(i),
        EvalSlot::Const(i) => GenSlot::Const(i),
        EvalSlot::Temp(i) => GenSlot::Temp(i),
    }
}

/// Maps one slot of the evaluator's addressing scheme into the code
/// generator's scheme.
pub fn slot(s: EvalSlot) -> (r: GenSlot)
    ensures
        r == slot_spec(s),
{
    match s {
        EvalSlot::Param(i) => GenSlot::Param(i),
        EvalSlot::Out(i) => GenSlot::Out(i),
        EvalSlot::Const(i) => GenSlot::Const(i),
        EvalSlot::Temp(i) => GenSlot::Temp(i),
    }
}

/// Maps a list of slots; the mapping is one-to-one and keeps the order.
pub fn slot_list(v: &Vec<EvalSlot>) -> (r: Vec<GenSlot>)
    ensures
        r@.len() == v@.len(),
        forall|i: int| 0 <= i < v@.len() ==> r@[i] == slot_spec(v@[i]),
{
    let mut r: Vec<GenSlot> = Vec::new();
    let mut k: usize = 0;
    while k < v.len()
        invariant
            k <= v@.len(),
            r@.len() == k,
            forall|i: int| 0 <= i < k ==> r@[i] == slot_spec(v@[i]),
        decreases v@.len() - k,
    {
        r.push(slot(v[k]));
        k = k + 1;
    }
    r
}

/// The slot mapper is total and alters neither the storage class nor the
/// numeric index of any slot it maps.
pub proof fn lemma_slot_mapper_preserves_class_and_index(s: EvalSlot)
    ensures
        gen_slot_class(slot_spec(s)) == slot_class(s),
        gen_slot_index(slot_spec(s)) == slot_index(s),
{
}

/// An identifier of one of the evaluator's built-in functions, reduced to
/// the numeric id of its symbol.
#[derive(Clone, Copy, PartialEq, Eq, Structural, Debug)]
pub struct BuiltinSymbol(pub u32);

/// The identifier of a built-in function in the code generator's
/// vocabulary.
#[derive(Clone, Copy, PartialEq, Eq, Structural, Debug)]
pub struct GenBuiltin(pub u32);

/// Re-tags a built-in function identifier for the code generator. This is a
/// representation-preserving re-tag: the numeric id is unchanged.
pub fn builtin_symbol(s: BuiltinSymbol) -> (r: GenBuiltin)
    ensures
        r.0 == s.0,
{
    GenBuiltin(s.0)
}

} // verus!
