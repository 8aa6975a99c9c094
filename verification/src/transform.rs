//! The per-object transform uniform: a model matrix paired with its
//! normal matrix, which is the inverse-transpose of the model matrix.
//!
//! Matrices are carried as 16 words, the IEEE-754 bit patterns of the
//! entries in column-major order (entry at column `c`, row `r` is word
//! `c * 4 + r`). The matrix inverse is delegated to glam; transposition
//! is a pure word permutation and is done and proved here. The pair is
//! packed model-first for upload, so whatever reaches the uniform buffer
//! carries a normal matrix derived from the model matrix beside it.

use vstd::prelude::*;

verus! {

/// The packed byte size of the transform pair: two 4x4 matrices of
/// 4-byte entries.
pub const TRANSFORM_BYTES: u64 = 128;

/// The bits of the inverse of a 4x4 matrix given as column-major entry
/// bits, as glam computes it.
pub uninterp spec fn mat4_inverse_bits(m: Seq<u32>) -> Seq<u32>;

/// Relies on glam's `Mat4::inverse`: the result is a function of the
/// entries alone. (With glam's optional assertions disabled, as built
/// here, it returns for every input, including singular matrices.)
#[verifier::external_body]
fn mat4_inverse_words(m: &Vec<u32>) -> (r: Vec<u32>)
    requires
        m@.len() == 16,
    ensures
        r@ == mat4_inverse_bits(m@),
        r@.len() == 16,
{
    let mat = glam::Mat4::from_cols_slice(bytemuck::cast_slice(m.as_slice()));
    let out: [u32; 16] = bytemuck::cast(mat.inverse().to_cols_array());
    out.to_vec()
}

/// The transpose of a 4x4 matrix in column-major word order: word
/// `c * 4 + r` of the result is word `r * 4 + c` of the input.
pub open spec fn spec_mat4_transpose(m: Seq<u32>) -> Seq<u32>
    recommends
        m.len() == 16,
{
    Seq::new(16, |k: int| m[(k % 4) * 4 + k / 4])
}

/// Transpose a 4x4 matrix held as 16 column-major words.
pub fn mat4_transpose_words(m: &Vec<u32>) -> (r: Vec<u32>)
    requires
        m@.len() == 16,
    ensures
        r@ == spec_mat4_transpose(m@),
{
    let mut r: Vec<u32> = Vec::new();
    let mut k: usize = 0;
    while k < 16
        invariant
            m@.len() == 16,
            k <= 16,
            r@.len() == k,
            forall|j: int| 0 <= j < k ==> r@[j] == m@[(j % 4) * 4 + j / 4],
        decreases 16 - k,
    {
        let idx: usize = (k % 4) * 4 + k / 4;
        r.push(m[idx]);
        k = k + 1;
    }
    proof {
        assert(r@ =~= spec_mat4_transpose(m@));
    }
    r
}

/// The normal matrix belonging to a model matrix: the transpose of its
/// inverse.
pub open spec fn spec_normal_bits(model: Seq<u32>) -> Seq<u32> {
    spec_mat4_transpose(mat4_inverse_bits(model))
}

/// The transform pair uploaded to the per-object uniform buffer.
pub struct Transform {
    model: Vec<u32>,
    normal: Vec<u32>,
}

impl Transform {
    /// The model matrix's entry bits, column-major.
    pub closed spec fn model_bits(self) -> Seq<u32> {
        self.model@
    }

    /// The normal matrix's entry bits, column-major.
    pub closed spec fn normal_bits(self) -> Seq<u32> {
        self.normal@
    }

    /// The pair's invariant: both matrices have 16 words and the normal
    /// matrix is the inverse-transpose of the model matrix.
    pub open spec fn wf(self) -> bool {
        &&& self.model_bits().len() == 16
        &&& self.normal_bits() == spec_normal_bits(self.model_bits())
    }

    /// Build the pair from a model matrix, deriving the normal matrix as
    /// the inverse-transpose. This is the only constructor, so the
    /// derivation holds however the model matrix later reaches the GPU.
    pub fn new(model: Vec<u32>) -> (t: Transform)
        requires
            model@.len() == 16,
        ensures
            t.wf(),
            t.model_bits() == model@,
    {
        let inverse = mat4_inverse_words(&model);
        let normal = mat4_transpose_words(&inverse);
        Transform { model, normal }
    }

    /// The model matrix as words.
    pub fn model_words(&self) -> (w: &Vec<u32>)
        ensures
            w@ == self.model_bits(),
    {
        &self.model
    }

    /// The normal matrix as words.
    pub fn normal_words(&self) -> (w: &Vec<u32>)
        ensures
            w@ == self.normal_bits(),
    {
        &self.normal
    }

    /// The words uploaded to the uniform buffer: the model matrix
    /// followed by the normal matrix, 32 words in all.
    pub fn packed_words(&self) -> (w: Vec<u32>)
        requires
            self.wf(),
        ensures
            w@ == self.model_bits() + self.normal_bits(),
            w@.len() == 32,
            w@.subrange(16, 32) == spec_normal_bits(w@.subrange(0, 16)),
    {
        let mut w: Vec<u32> = Vec::new();
        let mut i: usize = 0;
        while i < self.model.len()
            invariant
                i <= self.model@.len(),
                w@ == self.model@.take(i as int),
            decreases self.model@.len() - i,
        {
            proof {
                assert(self.model@.take(i as int + 1) =~= self.model@.take(i as int).push(
                    self.model@[i as int],
                ));
            }
            w.push(self.model[i]);
            i = i + 1;
        }
        proof {
            assert(w@ =~= self.model_bits());
        }
        let mut j: usize = 0;
        while j < self.normal.len()
            invariant
                j <= self.normal@.len(),
                w@ == self.model@ + self.normal@.take(j as int),
            decreases self.normal@.len() - j,
        {
            proof {
                let ghost prefix = self.model@ + self.normal@.take(j as int);
                assert(self.model@ + self.normal@.take(j as int + 1) =~= prefix.push(
                    self.normal@[j as int],
                ));
            }
            w.push(self.normal[j]);
            j = j + 1;
        }
        proof {
            assert(w@ =~= self.model_bits() + self.normal_bits());
            assert(w@.subrange(0, 16) =~= self.model_bits());
            assert(w@.subrange(16, 32) =~= self.normal_bits());
        }
        w
    }
}

/// At the moment of upload the packed pair's normal-matrix half is the
/// inverse-transpose of its model-matrix half: the invariant every
/// constructed transform carries into `packed_words`.
pub proof fn lemma_packed_normal_is_inverse_transpose(t: Transform)
    requires
        t.wf(),
    ensures
        t.normal_bits() == spec_mat4_transpose(mat4_inverse_bits(t.model_bits())),
{
}

} // verus!
