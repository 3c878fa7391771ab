use vstd::prelude::*;

use crate::precision::Precision;

verus! {

/// Every `stride`-th element of `s`: the elements at indices 0, stride,
/// 2 * stride, ... in their original order, `ceil(len / stride)` of them.
pub open spec fn decimate(s: Seq<i16>, stride: nat) -> Seq<i16>
    recommends
        1 <= stride,
{
    Seq::new(
        ((s.len() + stride - 1) / (stride as int)) as nat,
        |i: int| s[i * (stride as int)],
    )
}

/// Decimation keeps exactly the elements at the multiples of the stride,
/// and its output length is the length of the input divided by the stride,
/// rounded up.
pub proof fn lemma_decimate_shape(s: Seq<i16>, stride: nat)
    requires
        1 <= stride,
    ensures
        decimate(s, stride).len() == (s.len() + stride - 1) / (stride as int),
        forall|i: int|
            0 <= i < decimate(s, stride).len() ==> decimate(s, stride)[i] == s[i * (stride as int)],
{
}

/// With a stride of one — the stride of `Precision::Max` — decimation is
/// the identity on any sequence.
pub proof fn lemma_decimate_identity(s: Seq<i16>)
    ensures
        decimate(s, 1) == s,
        decimate(s, Precision::Max.stride()) == s,
{
    vstd::arithmetic::div_mod::lemma_fundamental_div_mod_converse(
        s.len() as int,
        1,
        s.len() as int,
        0,
    );
    assert(decimate(s, 1) =~= s);
}

/// The quotient that `decimate` computes, pinned down from the bracketing
/// multiples of the stride that the `compress` loop establishes.
proof fn lemma_ceil_quotient(len: int, stride: int, k: int)
    requires
        1 <= stride,
        0 <= k,
        (k - 1) * stride < len <= k * stride,
    ensures
        (len + stride - 1) / stride == k,
{
    let r = len + stride - 1 - k * stride;
    assert((k - 1) * stride == k * stride - stride) by (nonlinear_arith);
    vstd::arithmetic::div_mod::lemma_fundamental_div_mod_converse(
        len + stride - 1,
        stride,
        k,
        r,
    );
}

/// Thins `vec` to every `step.stride()`-th sample, keeping the first one
/// and preserving order: decimation, not averaging.
pub fn compress(vec: Vec<i16>, step: Precision) -> (r: Vec<i16>)
    ensures
        r@ == decimate(vec@, step.stride()),
{
    let stride = step.value();
    let mut out: Vec<i16> = Vec::new();
    if vec.len() == 0 {
        proof {
            lemma_ceil_quotient(vec@.len() as int, stride as int, 0);
            assert(out@ =~= decimate(vec@, step.stride()));
        }
        return out;
    }
    let mut i: usize = 0;
    loop
        invariant_except_break
            i < vec@.len(),
            i == out@.len() * stride,
        invariant
            1 <= stride,
            stride as nat == step.stride(),
            forall|j: int| 0 <= j < out@.len() ==> out@[j] == vec@[j * (stride as int)],
        ensures
            out@.len() >= 1,
            (out@.len() - 1) * stride < vec@.len() <= out@.len() * stride,
        decreases vec@.len() - i,
    {
        out.push(vec[i]);
        proof {
            assert(out@.len() * (stride as int) == (out@.len() - 1) * (stride as int) + stride)
                by (nonlinear_arith);
        }
        if stride < vec.len() - i {
            i = i + stride;
        } else {
            break;
        }
    }
    proof {
        lemma_ceil_quotient(vec@.len() as int, stride as int, out@.len() as int);
        assert(out@ =~= decimate(vec@, step.stride()));
    }
    out
}

} // verus!
