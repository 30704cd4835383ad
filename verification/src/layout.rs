use vstd::prelude::*;

use crate::values::ComplexBits;

verus! {

/// The flat view of a buffer of complex scalars: each logical value
/// occupies two adjacent slots, the real component first. This is the
/// layout in which the code generator reads complex data.
pub open spec fn flat_complex(s: Seq<ComplexBits>) -> Seq<u64> {
    Seq::new(
        2 * s.len(),
        |j: int|
            if j % 2 == 0 {
                s[j / 2].re
            } else {
                s[j / 2].im
            },
    )
}

/// Two complex buffers with the same flat view are the same buffer.
pub proof fn lemma_flat_complex_injective(a: Seq<ComplexBits>, b: Seq<ComplexBits>)
    requires
        flat_complex(a) == flat_complex(b),
    ensures
        a == b,
{
    assert(flat_complex(a).len() == 2 * a.len());
    assert(flat_complex(b).len() == 2 * b.len());
    assert(a.len() == b.len());
    assert forall|i: int| 0 <= i < a.len() implies a[i] == b[i] by {
        assert((2 * i) % 2 == 0 && (2 * i) / 2 == i && (2 * i + 1) % 2 == 1 && (2 * i + 1) / 2
            == i);
        assert(flat_complex(a)[2 * i] == a[i].re);
        assert(flat_complex(a)[2 * i + 1] == a[i].im);
        assert(flat_complex(b)[2 * i] == b[i].re);
        assert(flat_complex(b)[2 * i + 1] == b[i].im);
        assert(flat_complex(a)[2 * i] == flat_complex(b)[2 * i]);
        assert(flat_complex(a)[2 * i + 1] == flat_complex(b)[2 * i + 1]);
    }
    assert(a =~= b);
}

/// Copies a buffer of complex scalars into its flat form. This is the
/// explicit, bounds-checked counterpart of viewing the same memory under
/// a flat type: two slots per value, no reordering.
pub fn flatten_complex(v: &Vec<ComplexBits>) -> (r: Vec<u64>)
    ensures
        r@ == flat_complex(v@),
        r@.len() == 2 * v@.len(),
{
    let mut r: Vec<u64> = Vec::new();
    let mut k: usize = 0;
    while k < v.len()
        invariant
            k <= v@.len(),
            r@.len() == 2 * k,
            forall|i: int| 0 <= i < k ==> r@[2 * i] == v@[i].re && r@[2 * i + 1] == v@[i].im,
        decreases v@.len() - k,
    {
        r.push(v[k].re);
        r.push(v[k].im);
        k = k + 1;
    }
    proof {
        assert forall|j: int| 0 <= j < r@.len() implies r@[j] == flat_complex(v@)[j] by {
            let i = j / 2;
            assert(r@[2 * i] == v@[i].re && r@[2 * i + 1] == v@[i].im);
        }
        assert(r@ =~= flat_complex(v@));
    }
    r
}

/// Copies a flat buffer back into complex scalars, two slots per value.
pub fn unflatten_complex(v: &Vec<u64>) -> (r: Vec<ComplexBits>)
    requires
        v@.len() % 2 == 0,
    ensures
        flat_complex(r@) == v@,
        2 * r@.len() == v@.len(),
{
    let mut r: Vec<ComplexBits> = Vec::new();
    let mut j: usize = 0;
    while j < v.len()
        invariant
            j % 2 == 0,
            j <= v@.len(),
            v@.len() % 2 == 0,
            r@.len() * 2 == j,
            forall|i: int| 0 <= i < r@.len() ==> r@[i].re == v@[2 * i] && r@[i].im == v@[2 * i + 1],
        decreases v@.len() - j,
    {
        proof {
            assert(j + 1 < v@.len());
        }
        r.push(ComplexBits { re: v[j], im: v[j + 1] });
        j = j + 2;
    }
    proof {
        assert forall|j: int| 0 <= j < v@.len() implies flat_complex(r@)[j] == v@[j] by {
            let i = j / 2;
            assert(r@[i].re == v@[2 * i] && r@[i].im == v@[2 * i + 1]);
        }
        assert(flat_complex(r@) =~= v@);
    }
    r
}

} // verus!
