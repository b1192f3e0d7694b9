use scene::camera::view_projection_bits;

// The fixed camera of the viewer.
const EYE: (f32, f32, f32) = (9.02922, -8.50027, 7.65063);
const CENTER: (f32, f32, f32) = (3.27, -2.79, 3.62);
const UP: (f32, f32, f32) = (0.0, 0.0, 1.0);
const FOV_Y: f32 = 0.6911;
const Z_NEAR: f32 = 0.1;
const Z_FAR: f32 = 100.0;

fn mat_bits_of(m: &glm::Mat4) -> Vec<u32> {
    let cols = [m.c0, m.c1, m.c2, m.c3];
    let mut out = Vec::new();
    for c in cols.iter() {
        out.push(c.x.to_bits());
        out.push(c.y.to_bits());
        out.push(c.z.to_bits());
        out.push(c.w.to_bits());
    }
    out
}

fn library_vp() -> Vec<u32> {
    let aspect = format!("{}", 16.0f32 / 9.0f32);
    view_projection_bits(
        ("9.02922", "-8.50027", "7.65063"),
        ("3.27", "-2.79", "3.62"),
        ("0.0", "0.0", "1.0"),
        ("0.6911", &aspect, "0.1", "100.0"),
    )
    .unwrap()
}

#[test]
fn view_projection_equals_projection_times_view() {
    // The same matrices computed directly: the library's combined
    // matrix must be exactly the product projection × view.
    let v = glm::ext::look_at(
        glm::vec3(EYE.0, EYE.1, EYE.2),
        glm::vec3(CENTER.0, CENTER.1, CENTER.2),
        glm::vec3(UP.0, UP.1, UP.2),
    );
    let p = glm::ext::perspective(FOV_Y, 16.0f32 / 9.0f32, Z_NEAR, Z_FAR);
    let vp = p * v;
    assert_eq!(library_vp(), mat_bits_of(&vp));
}

fn normalize(v: (f32, f32, f32)) -> (f32, f32, f32) {
    let n = (v.0 * v.0 + v.1 * v.1 + v.2 * v.2).sqrt();
    (v.0 / n, v.1 / n, v.2 / n)
}

fn cross(a: (f32, f32, f32), b: (f32, f32, f32)) -> (f32, f32, f32) {
    (
        a.1 * b.2 - a.2 * b.1,
        a.2 * b.0 - a.0 * b.2,
        a.0 * b.1 - a.1 * b.0,
    )
}

fn dot(a: (f32, f32, f32), b: (f32, f32, f32)) -> f32 {
    a.0 * b.0 + a.1 * b.1 + a.2 * b.2
}

#[test]
fn view_projection_matches_independent_reference() {
    // An independently written right-handed look-at and perspective
    // construction, multiplied by hand; column-major entries.
    let f = normalize((CENTER.0 - EYE.0, CENTER.1 - EYE.1, CENTER.2 - EYE.2));
    let s = normalize(cross(f, UP));
    let u = cross(s, f);
    let view: [[f32; 4]; 4] = [
        [s.0, u.0, -f.0, 0.0],
        [s.1, u.1, -f.1, 0.0],
        [s.2, u.2, -f.2, 0.0],
        [-dot(s, EYE), -dot(u, EYE), dot(f, EYE), 1.0],
    ];
    let aspect = 16.0f32 / 9.0f32;
    let q = 1.0 / (FOV_Y / 2.0).tan();
    let a = q / aspect;
    let b = (Z_NEAR + Z_FAR) / (Z_NEAR - Z_FAR);
    let c = (2.0 * Z_NEAR * Z_FAR) / (Z_NEAR - Z_FAR);
    let proj: [[f32; 4]; 4] = [
        [a, 0.0, 0.0, 0.0],
        [0.0, q, 0.0, 0.0],
        [0.0, 0.0, b, -1.0],
        [0.0, 0.0, c, 0.0],
    ];
    // Column-major product: entry (row r, column j) sums over k.
    let mut vp = [[0.0f32; 4]; 4];
    for j in 0..4 {
        for r in 0..4 {
            let mut acc = 0.0f32;
            for k in 0..4 {
                acc += proj[k][r] * view[j][k];
            }
            vp[j][r] = acc;
        }
    }
    let got = library_vp();
    for j in 0..4 {
        for r in 0..4 {
            let want = vp[j][r];
            let have = f32::from_bits(got[4 * j + r]);
            let tol = 1e-5f32 * want.abs().max(1.0);
            assert!(
                (have - want).abs() <= tol,
                "entry ({}, {}): have {}, want {}",
                r, j, have, want
            );
        }
    }
}

#[test]
fn unreadable_decimal_is_refused() {
    let good = ("0.0", "0.0", "1.0");
    assert!(view_projection_bits(("banana", "0.0", "1.0"), good, good, ("0.6911", "1.0", "0.1", "100.0")).is_none());
    assert!(view_projection_bits(good, good, good, ("0.6911", "", "0.1", "100.0")).is_none());
}

#[test]
fn decimal_components_round_trip() {
    // If the constructors or the matrix wrappers dropped or reordered
    // their inputs, the first projection column would not carry the
    // field of view: check one entry's closed form against the output.
    let got = library_vp();
    assert_eq!(got.len(), 16);
    let q = 1.0f32 / (FOV_Y / 2.0).tan();
    let a = q / (16.0f32 / 9.0f32);
    // Entry (0,0) of the product is a * view[0][0].
    let f = normalize((CENTER.0 - EYE.0, CENTER.1 - EYE.1, CENTER.2 - EYE.2));
    let s = normalize(cross(f, UP));
    let want = a * s.0;
    let have = f32::from_bits(got[0]);
    assert!((have - want).abs() <= 1e-5 * want.abs().max(1.0));
}

#[test]
fn degenerate_camera_is_refused() {
    // An eye equal to its target makes the look-at normalization
    // produce NaN; the library reports that as a refusal instead of
    // claiming anything of NaN bits.
    let p = ("0.6911", "1.0", "0.1", "100.0");
    let up = ("0.0", "0.0", "1.0");
    let same = ("1.0", "2.0", "3.0");
    assert!(view_projection_bits(same, same, up, p).is_none());
}

#[test]
fn non_finite_camera_is_refused() {
    // "nan" reads as a 32-bit float, so the refusal comes from the
    // NaN check on the view matrix, not from the decimal reader.
    let p = ("0.6911", "1.0", "0.1", "100.0");
    let up = ("0.0", "0.0", "1.0");
    let eye = ("nan", "0.0", "0.0");
    assert!(view_projection_bits(eye, ("1.0", "0.0", "0.0"), up, p).is_none());
}
