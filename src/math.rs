use vstd::prelude::*;

verus! {

/// `self - factor * vec`, for the parameter types that a solver updates along a direction.
pub trait ScaledSub<G, F>: Sized {
    /// Whether `r` is `self - factor * vec`.
    spec fn is_scaled_sub(self, factor: F, vec: G, r: Self) -> bool;

    fn scaled_sub(&self, factor: &F, vec: &G) -> (r: Self)
        ensures
            self.is_scaled_sub(*factor, *vec, r),
    ;
}

/// Two's-complement wrapping arithmetic, as `i64::wrapping_sub` and `i64::wrapping_mul`.
impl ScaledSub<i64, i64> for i64 {
    open spec fn is_scaled_sub(self, factor: i64, vec: i64, r: i64) -> bool {
        r == scaled_sub_int(self, factor, vec)
    }

    fn scaled_sub(&self, factor: &i64, vec: &i64) -> (r: i64) {
        self.wrapping_sub(factor.wrapping_mul(*vec))
    }
}

pub open spec fn scaled_sub_int(x: i64, factor: i64, vec: i64) -> i64 {
    x.wrapping_sub(factor.wrapping_mul(vec))
}

/// The elementwise update of each entry of `p` that `g` has a partner for.
pub open spec fn scaled_sub_seq(p: Seq<i64>, factor: i64, g: Seq<i64>) -> Seq<i64> {
    Seq::new(
        p.len(),
        |i: int|
            if i < g.len() {
                scaled_sub_int(p[i], factor, g[i])
            } else {
                p[i]
            },
    )
}

/// Elementwise over the entries of `self`; an entry without a partner in `vec` stays.
impl ScaledSub<Vec<i64>, i64> for Vec<i64> {
    open spec fn is_scaled_sub(self, factor: i64, vec: Vec<i64>, r: Vec<i64>) -> bool {
        r@ == scaled_sub_seq(self@, factor, vec@)
    }

    fn scaled_sub(&self, factor: &i64, vec: &Vec<i64>) -> (r: Vec<i64>) {
        let mut out: Vec<i64> = Vec::new();
        let mut i: usize = 0;
        while i < self.len()
            invariant
                i <= self@.len(),
                out@ == scaled_sub_seq(self@, *factor, vec@).subrange(0, i as int),
            decreases self@.len() - i,
        {
            let x = if i < vec.len() {
                self[i].scaled_sub(factor, &vec[i])
            } else {
                self[i]
            };
            out.push(x);
            i = i + 1;
            proof {
                assert(out@ =~= scaled_sub_seq(self@, *factor, vec@).subrange(0, i as int));
            }
        }
        proof {
            assert(out@ =~= scaled_sub_seq(self@, *factor, vec@));
        }
        out
    }
}

} // verus!
