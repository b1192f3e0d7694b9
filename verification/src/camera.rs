//! The view-projection matrix.
//!
//! The camera is fixed: an eye position, a look-at target and an up
//! direction give the view matrix, and a vertical field of view,
//! aspect ratio and near/far clip distances give the projection
//! matrix. Both constructions and their product are `glm`'s. This
//! crate does not read floating-point values, so it holds `glm`'s
//! vectors and matrices inside opaque handles, takes scalars in as
//! decimal text, and speaks of matrix contents as the IEEE 754 bit
//! patterns of the sixteen entries, column-major, the order in which
//! the graphics API takes the uniform.
//!
//! What the contracts claim is bounded by what the underlying float
//! operations guarantee. The look-at construction and the matrix
//! product use IEEE-exact operations only (add, subtract, multiply,
//! divide, square root), so their results are genuine functions of
//! the input bit patterns whenever the computation produces no NaN;
//! whether it produces a NaN is itself determined by the inputs, but
//! the bits of a NaN are not, so those wrappers return `None` exactly
//! in the NaN case and their results are named only otherwise. The
//! perspective construction goes through `tan`, whose precision the
//! standard library leaves unspecified, so its two tan-derived
//! entries are a function of nothing statable: the contract pins the
//! eleven constant zero entries, the constant −1, and the two depth
//! entries computed from the clip distances by exact operations, and
//! leaves the tan-derived entries open.

use vstd::prelude::*;

verus! {

/// A camera vector: an eye position, a look-at target or an up
/// direction. Holds a `glm::Vec3`, which Verus does not look into.
#[verifier::external_body]
pub struct CameraVec {
    v: glm::Vec3,
}

/// The projection parameters: the vertical field of view in radians,
/// the aspect ratio, and the near and far clip distances, packed in
/// that order as the components of a `glm::Vec4`, which Verus does
/// not look into.
#[verifier::external_body]
pub struct ProjParams {
    v: glm::Vec4,
}

/// A 4×4 matrix. Holds a `glm::Mat4`, which Verus does not look into.
#[verifier::external_body]
pub struct Mat4Handle {
    m: glm::Mat4,
}

/// The bit patterns of a camera vector's three components.
pub uninterp spec fn vec3_bits(v: CameraVec) -> (u32, u32, u32);

/// The bit patterns of the four projection parameters, in order.
pub uninterp spec fn proj_bits(p: ProjParams) -> (u32, u32, u32, u32);

/// The bit patterns of a matrix's sixteen entries, column-major.
pub uninterp spec fn mat_bits(m: Mat4Handle) -> Seq<u32>;

/// The bit pattern of the 32-bit float that `str::parse` reads from a
/// decimal text, or `None` where it refuses the text.
pub uninterp spec fn decimal_f32_bits(s: Seq<char>) -> Option<u32>;

/// Whether the look-at construction over these component bit patterns
/// stays free of NaN. The construction uses IEEE-exact operations
/// only, so this is determined by the inputs.
pub uninterp spec fn look_at_defined(
    eye: (u32, u32, u32),
    center: (u32, u32, u32),
    up: (u32, u32, u32),
) -> bool;

/// What `glm::ext::look_at` returns for an eye, a target and an up
/// direction, each given as component bit patterns. Meaningful only
/// where `look_at_defined` holds: there every operation is IEEE-exact
/// on non-NaN values and the result is a function of the inputs.
pub uninterp spec fn look_at_bits(
    eye: (u32, u32, u32),
    center: (u32, u32, u32),
    up: (u32, u32, u32),
) -> Seq<u32>;

/// Whether multiplying two matrices with these entry bit patterns
/// stays free of NaN. The product uses multiply and add only, so this
/// is determined by the inputs.
pub uninterp spec fn mat_mul_defined(a: Seq<u32>, b: Seq<u32>) -> bool;

/// What multiplying two matrices with `glm`'s `*` returns, over entry
/// bit patterns. Meaningful only where `mat_mul_defined` holds: there
/// every operation is IEEE-exact on non-NaN values and the product is
/// a function of the inputs.
pub uninterp spec fn mat_mul_bits(a: Seq<u32>, b: Seq<u32>) -> Seq<u32>;

/// The bit pattern of the projection's depth-scale entry,
/// (near + far) / (near − far), or `None` where that computation
/// yields a NaN (whose bits are not a function of the inputs). The
/// operations are IEEE-exact, so both the outcome and the `Some`
/// value are determined by the two bit patterns.
pub uninterp spec fn persp_depth_scale_bits(z_near: u32, z_far: u32) -> Option<u32>;

/// The bit pattern of the projection's depth-offset entry,
/// (2 · near · far) / (near − far), or `None` where that computation
/// yields a NaN; determined by the two bit patterns as above.
pub uninterp spec fn persp_depth_offset_bits(z_near: u32, z_far: u32) -> Option<u32>;

/// The bit pattern of 32-bit float positive zero.
pub const F32_ZERO_BITS: u32 = 0;

/// The bit pattern of 32-bit float minus one.
pub const F32_NEG_ONE_BITS: u32 = 0xBF80_0000;

/// Whether a 32-bit pattern encodes a NaN: exponent all ones and a
/// non-zero mantissa.
pub open spec fn is_nan_bits(b: u32) -> bool {
    (b >> 23) & 0xFF == 0xFF && (b & 0x7F_FFFF) != 0
}

/// The shape of a perspective projection matrix for the given near
/// and far clip bit patterns, column-major: zeros and the −1 exactly
/// where the construction writes constants, the two depth entries as
/// the named exact computations (or NaN exactly where those yield
/// NaN), and the two tan-derived diagonal entries (indices 0 and 5)
/// unconstrained, since the standard library leaves `tan`'s precision
/// unspecified.
pub open spec fn perspective_shape(m: Seq<u32>, z_near: u32, z_far: u32) -> bool {
    &&& m.len() == 16
    &&& m[1] == F32_ZERO_BITS
    &&& m[2] == F32_ZERO_BITS
    &&& m[3] == F32_ZERO_BITS
    &&& m[4] == F32_ZERO_BITS
    &&& m[6] == F32_ZERO_BITS
    &&& m[7] == F32_ZERO_BITS
    &&& m[8] == F32_ZERO_BITS
    &&& m[9] == F32_ZERO_BITS
    &&& m[12] == F32_ZERO_BITS
    &&& m[13] == F32_ZERO_BITS
    &&& m[15] == F32_ZERO_BITS
    &&& m[11] == F32_NEG_ONE_BITS
    &&& match persp_depth_scale_bits(z_near, z_far) {
        Some(b) => m[10] == b,
        None => is_nan_bits(m[10]),
    }
    &&& match persp_depth_offset_bits(z_near, z_far) {
        Some(b) => m[14] == b,
        None => is_nan_bits(m[14]),
    }
}

/// Read a camera vector from the decimal texts of its components.
///
/// Relies on `str::parse` reading a 32-bit float from each text, a
/// function of the text alone, and on `glm::vec3` packing exactly the
/// three values. `None` comes exactly when some text is refused.
#[verifier::external_body]
fn camera_vec_from_decimal(x: &str, y: &str, z: &str) -> (r: Option<CameraVec>)
    ensures
        r is Some <==> (decimal_f32_bits(x@) is Some && decimal_f32_bits(y@) is Some
            && decimal_f32_bits(z@) is Some),
        r matches Some(v) ==> vec3_bits(v) == (
            decimal_f32_bits(x@).unwrap(),
            decimal_f32_bits(y@).unwrap(),
            decimal_f32_bits(z@).unwrap(),
        ),
{
    match (x.parse(), y.parse(), z.parse()) {
        (Ok(a), Ok(b), Ok(c)) => Some(CameraVec { v: glm::vec3(a, b, c) }),
        _ => None,
    }
}

/// Read the projection parameters from the decimal texts of the
/// vertical field of view in radians, the aspect ratio, and the near
/// and far clip distances.
///
/// Relies on `str::parse` reading a 32-bit float from each text, a
/// function of the text alone, and on `glm::vec4` packing exactly the
/// four values. `None` comes exactly when some text is refused.
#[verifier::external_body]
fn proj_params_from_decimal(fov_y: &str, aspect: &str, z_near: &str, z_far: &str) -> (r:
    Option<ProjParams>)
    ensures
        r is Some <==> (decimal_f32_bits(fov_y@) is Some && decimal_f32_bits(aspect@) is Some
            && decimal_f32_bits(z_near@) is Some && decimal_f32_bits(z_far@) is Some),
        r matches Some(p) ==> proj_bits(p) == (
            decimal_f32_bits(fov_y@).unwrap(),
            decimal_f32_bits(aspect@).unwrap(),
            decimal_f32_bits(z_near@).unwrap(),
            decimal_f32_bits(z_far@).unwrap(),
        ),
{
    match (fov_y.parse(), aspect.parse(), z_near.parse(), z_far.parse()) {
        (Ok(a), Ok(b), Ok(c), Ok(d)) => Some(ProjParams { v: glm::vec4(a, b, c, d) }),
        _ => None,
    }
}

/// Build the right-handed view matrix, or `None` where the
/// construction produces a NaN (a degenerate camera, such as an eye
/// equal to its target, or non-finite components).
///
/// Relies on `glm::ext::look_at`, which uses IEEE-exact operations
/// only: whether a NaN appears is a function of the inputs, and on a
/// NaN-free run the result is too. The bits of a NaN are not, so the
/// NaN case returns `None` and nothing is named of it.
#[verifier::external_body]
fn look_at_w(eye: &CameraVec, center: &CameraVec, up: &CameraVec) -> (r: Option<Mat4Handle>)
    ensures
        r is Some <==> look_at_defined(vec3_bits(*eye), vec3_bits(*center), vec3_bits(*up)),
        r matches Some(m) ==> mat_bits(m) == look_at_bits(
            vec3_bits(*eye),
            vec3_bits(*center),
            vec3_bits(*up),
        ) && mat_bits(m).len() == 16,
{
    let m = glm::ext::look_at(eye.v, center.v, up.v);
    let cs = [m.c0, m.c1, m.c2, m.c3];
    if cs.iter().any(|c| c.x.is_nan() || c.y.is_nan() || c.z.is_nan() || c.w.is_nan()) {
        None
    } else {
        Some(Mat4Handle { m })
    }
}

/// Build the perspective projection matrix.
///
/// Relies on `glm::ext::perspective` (the right-handed construction):
/// eleven zero entries and the −1 are written as exact constants, and
/// the two depth entries are computed from the near and far clip
/// values by IEEE-exact operations, so the contract pins exactly
/// those; the two diagonal entries go through `tan`, whose precision
/// the standard library leaves unspecified, so nothing is stated of
/// them.
#[verifier::external_body]
fn perspective_w(p: &ProjParams) -> (m: Mat4Handle)
    ensures
        perspective_shape(mat_bits(m), proj_bits(*p).2, proj_bits(*p).3),
        match persp_depth_scale_bits(proj_bits(*p).2, proj_bits(*p).3) {
            Some(b) => mat_bits(m)[10] == b,
            None => is_nan_bits(mat_bits(m)[10]),
        },
        match persp_depth_offset_bits(proj_bits(*p).2, proj_bits(*p).3) {
            Some(b) => mat_bits(m)[14] == b,
            None => is_nan_bits(mat_bits(m)[14]),
        },
{
    Mat4Handle { m: glm::ext::perspective(p.v.x, p.v.y, p.v.z, p.v.w) }
}

/// Multiply two matrices, or `None` where the product contains a NaN
/// (possible even for NaN-free factors, through infinities).
///
/// Relies on `glm`'s `Mul` for `Matrix4`, which uses multiply and add
/// only: whether a NaN appears is a function of the two matrices'
/// entries, and a NaN-free product is too. The bits of a NaN are not,
/// so the NaN case returns `None` and nothing is named of it.
#[verifier::external_body]
fn mat_mul_w(a: &Mat4Handle, b: &Mat4Handle) -> (r: Option<Mat4Handle>)
    ensures
        r is Some <==> mat_mul_defined(mat_bits(*a), mat_bits(*b)),
        r matches Some(m) ==> mat_bits(m) == mat_mul_bits(mat_bits(*a), mat_bits(*b)) && mat_bits(
            m,
        ).len() == 16,
{
    let m = a.m * b.m;
    let cs = [m.c0, m.c1, m.c2, m.c3];
    if cs.iter().any(|c| c.x.is_nan() || c.y.is_nan() || c.z.is_nan() || c.w.is_nan()) {
        None
    } else {
        Some(Mat4Handle { m })
    }
}

/// Read a matrix out as its sixteen entry bit patterns, column-major.
///
/// Relies on the public column fields `c0..c3` of `glm::Matrix4` and
/// on `f32::to_bits`.
#[verifier::external_body]
fn mat_to_bits(m: &Mat4Handle) -> (r: Vec<u32>)
    ensures
        r@ == mat_bits(*m),
        r@.len() == 16,
{
    let m = &m.m;
    vec![
        m.c0.x.to_bits(), m.c0.y.to_bits(), m.c0.z.to_bits(), m.c0.w.to_bits(),
        m.c1.x.to_bits(), m.c1.y.to_bits(), m.c1.z.to_bits(), m.c1.w.to_bits(),
        m.c2.x.to_bits(), m.c2.y.to_bits(), m.c2.z.to_bits(), m.c2.w.to_bits(),
        m.c3.x.to_bits(), m.c3.y.to_bits(), m.c3.z.to_bits(), m.c3.w.to_bits(),
    ]
}

/// The bit patterns of three decimal texts read as 32-bit floats, or
/// `None` where some text is refused.
pub open spec fn decimal_triple(x: Seq<char>, y: Seq<char>, z: Seq<char>) -> Option<
    (u32, u32, u32),
> {
    if decimal_f32_bits(x) is Some && decimal_f32_bits(y) is Some && decimal_f32_bits(z)
        is Some {
        Some(
            (decimal_f32_bits(x).unwrap(), decimal_f32_bits(y).unwrap(), decimal_f32_bits(
                z,
            ).unwrap()),
        )
    } else {
        None
    }
}

/// The bit patterns of four decimal texts read as 32-bit floats, or
/// `None` where some text is refused.
pub open spec fn decimal_quad(a: Seq<char>, b: Seq<char>, c: Seq<char>, d: Seq<char>) -> Option<
    (u32, u32, u32, u32),
> {
    if decimal_f32_bits(a) is Some && decimal_f32_bits(b) is Some && decimal_f32_bits(c) is Some
        && decimal_f32_bits(d) is Some {
        Some(
            (decimal_f32_bits(a).unwrap(), decimal_f32_bits(b).unwrap(), decimal_f32_bits(
                c,
            ).unwrap(), decimal_f32_bits(d).unwrap()),
        )
    } else {
        None
    }
}

/// Whether the nine camera texts read as 32-bit floats and the
/// look-at construction over their bits stays free of NaN: the
/// conditions under which the view matrix exists at all.
pub open spec fn view_matrix_defined(
    eye: (Seq<char>, Seq<char>, Seq<char>),
    center: (Seq<char>, Seq<char>, Seq<char>),
    up: (Seq<char>, Seq<char>, Seq<char>),
) -> bool {
    &&& decimal_triple(eye.0, eye.1, eye.2) is Some
    &&& decimal_triple(center.0, center.1, center.2) is Some
    &&& decimal_triple(up.0, up.1, up.2) is Some
    &&& look_at_defined(
        decimal_triple(eye.0, eye.1, eye.2).unwrap(),
        decimal_triple(center.0, center.1, center.2).unwrap(),
        decimal_triple(up.0, up.1, up.2).unwrap(),
    )
}

/// Whether some projection matrix of the perspective shape for these
/// clip bits turns the product with the given view matrix into NaN —
/// the one failure that cannot be pinned to the inputs, since the
/// projection's tan-derived entries are machine-dependent.
pub open spec fn projection_product_may_fail(z_near: u32, z_far: u32, view: Seq<u32>) -> bool {
    exists|pm: Seq<u32>|
        #[trigger] perspective_shape(pm, z_near, z_far) && !mat_mul_defined(pm, view)
}

/// The combined view-projection matrix, as it goes to the shader.
///
/// Every scalar comes in as decimal text: the camera's `eye`
/// position, look-at `center` and `up` direction as component
/// triples, and `proj` as the vertical field of view in radians, the
/// aspect ratio, and the near and far clip distances, in that order.
///
/// `None` comes when some text does not read as a 32-bit float, when
/// the look-at construction is degenerate (NaN), or when the product
/// itself produces a NaN — and, the contract says, only then: on
/// readable texts with a NaN-free view matrix, a refusal is possible
/// only if some perspective-shaped projection for these clip
/// distances drives the product to NaN. Otherwise the result is the
/// sixteen entry bit patterns, column-major, of the NaN-free matrix
/// product projection × view: the view matrix is the named look-at
/// construction over `eye`, `center` and `up`, and the projection
/// matrix has the perspective shape for the given clip distances —
/// its tan-derived entries cannot be pinned to the inputs, so the
/// contract says there is such a projection matrix rather than which.
pub fn view_projection_bits(
    eye: (&str, &str, &str),
    center: (&str, &str, &str),
    up: (&str, &str, &str),
    proj: (&str, &str, &str, &str),
) -> (r: Option<Vec<u32>>)
    ensures
        (!view_matrix_defined(
            (eye.0@, eye.1@, eye.2@),
            (center.0@, center.1@, center.2@),
            (up.0@, up.1@, up.2@),
        ) || decimal_quad(proj.0@, proj.1@, proj.2@, proj.3@) is None) ==> r is None,
        r is None ==> (!view_matrix_defined(
            (eye.0@, eye.1@, eye.2@),
            (center.0@, center.1@, center.2@),
            (up.0@, up.1@, up.2@),
        ) || decimal_quad(proj.0@, proj.1@, proj.2@, proj.3@) is None
            || projection_product_may_fail(
            decimal_quad(proj.0@, proj.1@, proj.2@, proj.3@).unwrap().2,
            decimal_quad(proj.0@, proj.1@, proj.2@, proj.3@).unwrap().3,
            look_at_bits(
                decimal_triple(eye.0@, eye.1@, eye.2@).unwrap(),
                decimal_triple(center.0@, center.1@, center.2@).unwrap(),
                decimal_triple(up.0@, up.1@, up.2@).unwrap(),
            ),
        )),
        r matches Some(v) ==> ({
            let e = decimal_triple(eye.0@, eye.1@, eye.2@).unwrap();
            let c = decimal_triple(center.0@, center.1@, center.2@).unwrap();
            let u = decimal_triple(up.0@, up.1@, up.2@).unwrap();
            let q = decimal_quad(proj.0@, proj.1@, proj.2@, proj.3@).unwrap();
            &&& decimal_triple(eye.0@, eye.1@, eye.2@) is Some
            &&& decimal_triple(center.0@, center.1@, center.2@) is Some
            &&& decimal_triple(up.0@, up.1@, up.2@) is Some
            &&& decimal_quad(proj.0@, proj.1@, proj.2@, proj.3@) is Some
            &&& look_at_defined(e, c, u)
            &&& exists|pm: Seq<u32>|
                {
                    &&& perspective_shape(pm, q.2, q.3)
                    &&& mat_mul_defined(pm, look_at_bits(e, c, u))
                    &&& v@ == #[trigger] mat_mul_bits(pm, look_at_bits(e, c, u))
                }
            &&& v@.len() == 16
        }),
{
    let e = match camera_vec_from_decimal(eye.0, eye.1, eye.2) {
        Some(v) => v,
        None => {
            return None;
        },
    };
    let c = match camera_vec_from_decimal(center.0, center.1, center.2) {
        Some(v) => v,
        None => {
            return None;
        },
    };
    let u = match camera_vec_from_decimal(up.0, up.1, up.2) {
        Some(v) => v,
        None => {
            return None;
        },
    };
    let p = match proj_params_from_decimal(proj.0, proj.1, proj.2, proj.3) {
        Some(v) => v,
        None => {
            return None;
        },
    };
    let view = match look_at_w(&e, &c, &u) {
        Some(m) => m,
        None => {
            return None;
        },
    };
    let projection = perspective_w(&p);
    let combined = match mat_mul_w(&projection, &view) {
        Some(m) => m,
        None => {
            proof {
                let eb = decimal_triple(eye.0@, eye.1@, eye.2@).unwrap();
                let cb = decimal_triple(center.0@, center.1@, center.2@).unwrap();
                let ub = decimal_triple(up.0@, up.1@, up.2@).unwrap();
                let q = decimal_quad(proj.0@, proj.1@, proj.2@, proj.3@).unwrap();
                assert(perspective_shape(mat_bits(projection), q.2, q.3) && !mat_mul_defined(
                    mat_bits(projection),
                    look_at_bits(eb, cb, ub),
                ));
            }
            return None;
        },
    };
    let out = mat_to_bits(&combined);
    proof {
        let eb = decimal_triple(eye.0@, eye.1@, eye.2@).unwrap();
        let cb = decimal_triple(center.0@, center.1@, center.2@).unwrap();
        let ub = decimal_triple(up.0@, up.1@, up.2@).unwrap();
        assert(out@ == mat_mul_bits(mat_bits(projection), look_at_bits(eb, cb, ub)));
    }
    Some(out)
}

} // verus!
