//! Loading a Wavefront OBJ document into a flat vertex sequence.
//!
//! The OBJ text is parsed by the `wavefront_obj` crate; this module
//! trusts that parser through a small set of declared items and does
//! the rest itself: it walks every object of the parsed document, in
//! order, and emits the three corner positions of every triangle, in
//! order, into one flat sequence — the frame that the GPU upload and
//! the draw call then share.
//!
//! Vertex coordinates are carried as the IEEE 754 bit patterns of the
//! parsed 64-bit values. The loader never reads a coordinate's value,
//! only moves it, so the bit pattern is the faithful representation;
//! callers that hand coordinates to the GPU narrow them there.

use vstd::prelude::*;
use vstd::string::StrSliceExecFns;
use vstd::string::StringSliceAdditionalSpecFns;

use wavefront_obj::obj;

verus! {

/// One vertex position: the bit patterns of its three coordinates.
#[derive(Clone, Copy, Debug, PartialEq, Eq, Structural)]
pub struct Vertex {
    /// Bit pattern of the x coordinate.
    pub x_bits: u64,
    /// Bit pattern of the y coordinate.
    pub y_bits: u64,
    /// Bit pattern of the z coordinate.
    pub z_bits: u64,
}

impl View for Vertex {
    type V = (u64, u64, u64);

    open spec fn view(&self) -> (u64, u64, u64) {
        (self.x_bits, self.y_bits, self.z_bits)
    }
}

/// A loaded frame: the flat, ordered sequence of triangle corner
/// positions of one mesh. Immutable after load.
#[derive(Debug)]
pub struct Frame {
    /// Triangle corners, three per triangle, in document order.
    pub vertices: Vec<Vertex>,
}

impl View for Frame {
    type V = Seq<(u64, u64, u64)>;

    open spec fn view(&self) -> Seq<(u64, u64, u64)> {
        self.vertices@.map_values(|v: Vertex| v@)
    }
}

/// Why a frame could not be loaded.
#[derive(Debug)]
pub enum LoadError {
    /// The document was not there to read at all.
    Missing,
    /// The document holds a negative number of nineteen or more
    /// digits, which the loader refuses before parsing: as a face
    /// index it could overflow the parser's index arithmetic.
    OversizedIndexToken,
    /// The document did not parse: the reported line and message.
    Parse { line: usize, message: String },
    /// A triangle corner referred to a vertex its object does not
    /// have.
    IndexOutOfRange,
}

/// Whether a byte is an ASCII decimal digit.
pub open spec fn digit_byte(b: u8) -> bool {
    0x30 <= b && b <= 0x39
}

/// Whether position `k` of the text starts a minus sign followed by
/// nineteen or more decimal digits. Such a number, read as a face
/// index, can reach the magnitude of the machine's minimum signed
/// word; smaller numbers cannot.
pub open spec fn oversized_token_at(bs: Seq<u8>, k: int) -> bool {
    &&& 0 <= k
    &&& k + 19 < bs.len()
    &&& bs[k] == 0x2Du8
    &&& forall|j: int| k < j <= k + 19 ==> digit_byte(#[trigger] bs[j])
}

/// Whether the text holds, anywhere, a minus sign followed by
/// nineteen or more decimal digits.
pub open spec fn has_oversized_index_token(bs: Seq<u8>) -> bool {
    exists|k: int| oversized_token_at(bs, k)
}

/// Scan a document for a minus sign followed by nineteen or more
/// decimal digits.
fn scan_oversized_index_token(s: &str) -> (r: bool)
    ensures
        r == has_oversized_index_token(s.spec_bytes()),
{
    let bs: Vec<u8> = s.as_bytes_vec();
    let n = bs.len();
    let mut i: usize = 0;
    while i < n
        invariant
            bs@ == s.spec_bytes(),
            n == bs@.len(),
            i <= n,
            forall|k: int| 0 <= k < i ==> !oversized_token_at(bs@, k),
        decreases n - i,
    {
        if bs[i] == 0x2D && n - i >= 20 {
            let mut all_digits = true;
            let mut j: usize = 1;
            while j <= 19
                invariant
                    bs@ == s.spec_bytes(),
                    n == bs@.len(),
                    i + 20 <= n,
                    1 <= j <= 20,
                    all_digits <==> (forall|t: int|
                        0 < t < j ==> digit_byte(#[trigger] bs@[i + t])),
                decreases 20 - j,
            {
                let b = bs[i + j];
                if !(0x30 <= b && b <= 0x39) {
                    all_digits = false;
                }
                j += 1;
            }
            if all_digits {
                proof {
                    assert forall|t: int| i < t <= i + 19 implies digit_byte(bs@[t]) by {
                        assert(digit_byte(bs@[i + (t - i)]));
                    }
                    assert(oversized_token_at(bs@, i as int));
                }
                return true;
            }
        }
        i += 1;
    }
    proof {
        assert forall|k: int| !oversized_token_at(bs@, k) by {
            if 0 <= k && k + 19 < bs@.len() {
                assert(!oversized_token_at(bs@, k));
            }
        }
    }
    false
}

/// A triangle's three corners, as indices into its object's vertex
/// list.
pub type Tri = (usize, usize, usize);

/// The model of one parsed object: its vertex positions (coordinate
/// bit patterns), and its geometry groups, each a sequence of shapes.
/// A shape is `Some` triangle or `None` for a point or line, which
/// the viewer does not draw.
pub type ObjectModel = (Seq<(u64, u64, u64)>, Seq<Seq<Option<Tri>>>);

/// What `wavefront_obj::obj::Object` holds; the parser's output runs
/// through this crate as that opaque type.
#[verifier::external_type_specification]
#[verifier::external_body]
pub struct ExObject(obj::Object);

/// The vertex positions a parsed object holds, as coordinate bit
/// patterns, in document order.
pub uninterp spec fn obj_positions(o: obj::Object) -> Seq<(u64, u64, u64)>;

/// The shapes a parsed object holds, per geometry group, in document
/// order; triangles as `Some` of their corner indices.
pub uninterp spec fn obj_shape_groups(o: obj::Object) -> Seq<Seq<Option<Tri>>>;

/// The model of one parsed object.
pub open spec fn object_model(o: obj::Object) -> ObjectModel {
    (obj_positions(o), obj_shape_groups(o))
}

/// The models of a sequence of parsed objects.
pub open spec fn doc_of(objs: Seq<obj::Object>) -> Seq<ObjectModel> {
    objs.map_values(|o: obj::Object| object_model(o))
}

/// Whether `wavefront_obj::obj::parse` accepts a document.
pub uninterp spec fn obj_parse_ok(s: Seq<char>) -> bool;

/// The models of the objects that `wavefront_obj::obj::parse` yields
/// for a document it accepts.
pub uninterp spec fn obj_doc(s: Seq<char>) -> Seq<ObjectModel>;

/// The line number and message of the error that
/// `wavefront_obj::obj::parse` reports for a document it refuses;
/// both are computed from the text alone.
pub uninterp spec fn obj_parse_err(s: Seq<char>) -> (int, Seq<char>);

/// Whether a shape's corner indices fall inside a vertex list of the
/// given length. Points and lines have no corners to check.
pub open spec fn tri_in_range(nverts: nat, t: Option<Tri>) -> bool {
    match t {
        Some(t) => t.0 < nverts && t.1 < nverts && t.2 < nverts,
        None => true,
    }
}

/// Whether every shape of an object stays inside its vertex list.
pub open spec fn object_indices_ok(m: ObjectModel) -> bool {
    forall|g: int, s: int|
        0 <= g < m.1.len() && 0 <= s < m.1[g].len() ==> tri_in_range(
            m.0.len(),
            #[trigger] m.1[g][s],
        )
}

/// Whether every object of a document stays inside its vertex list.
pub open spec fn doc_indices_ok(doc: Seq<ObjectModel>) -> bool {
    forall|i: int| 0 <= i < doc.len() ==> object_indices_ok(#[trigger] doc[i])
}

/// Parse an OBJ document into the crate's view of its objects.
///
/// Relies on `wavefront_obj::obj::parse` for the whole OBJ grammar:
/// the result is a function of the text alone, so it is only named
/// here, on success and on failure alike. Relies on the crate's
/// documented guarantee that after parsing every index "is guaranteed
/// to be a valid index into the array", stated here as
/// `doc_indices_ok`.
///
/// The `requires` keeps the parser's index arithmetic away from
/// overflow: its negative-index rebase subtracts the token's value
/// from a running upper bound, and a token near the minimum signed
/// word would overflow that subtraction when overflow checks are on.
/// With no nineteen-digit negative number in the text, every negative
/// token's magnitude is below 10^18, and the running bound — one more
/// than a cumulative vertex count, so at most one more than half the
/// text's byte length, which an allocation keeps below the signed
/// word maximum — leaves the subtraction short of overflow.
#[verifier::external_body]
fn parse_objects(s: &str) -> (r: Result<Vec<obj::Object>, (usize, String)>)
    requires
        !has_oversized_index_token(s.spec_bytes()),
    ensures
        match r {
            Ok(objs) => obj_parse_ok(s@) && doc_of(objs@) == obj_doc(s@) && doc_indices_ok(
                obj_doc(s@),
            ),
            Err(e) => !obj_parse_ok(s@) && (e.0 as int, e.1@) == obj_parse_err(s@),
        },
{
    match obj::parse(s) {
        Ok(set) => Ok(set.objects),
        Err(e) => Err((e.line_number, e.message)),
    }
}

/// How many vertex positions an object holds.
///
/// Relies on `Vec::len` of the public `vertices` field of
/// `wavefront_obj::obj::Object`.
#[verifier::external_body]
fn vertex_count(o: &obj::Object) -> (n: usize)
    ensures
        n == obj_positions(*o).len(),
{
    o.vertices.len()
}

/// One vertex position of an object, as coordinate bit patterns.
///
/// Relies on the public `vertices` field of
/// `wavefront_obj::obj::Object` and on `f64::to_bits`.
#[verifier::external_body]
fn position_at(o: &obj::Object, i: usize) -> (p: (u64, u64, u64))
    requires
        i < obj_positions(*o).len(),
    ensures
        p == obj_positions(*o)[i as int],
{
    let v = &o.vertices[i];
    (v.x.to_bits(), v.y.to_bits(), v.z.to_bits())
}

/// How many geometry groups an object holds.
///
/// Relies on `Vec::len` of the public `geometry` field of
/// `wavefront_obj::obj::Object`.
#[verifier::external_body]
fn group_count(o: &obj::Object) -> (n: usize)
    ensures
        n == obj_shape_groups(*o).len(),
{
    o.geometry.len()
}

/// How many shapes one geometry group of an object holds.
///
/// Relies on `Vec::len` of the public `shapes` field of
/// `wavefront_obj::obj::Geometry`.
#[verifier::external_body]
fn shape_count(o: &obj::Object, g: usize) -> (n: usize)
    requires
        g < obj_shape_groups(*o).len(),
    ensures
        n == obj_shape_groups(*o)[g as int].len(),
{
    o.geometry[g].shapes.len()
}

/// One shape of an object: `Some` corner indices for a triangle,
/// `None` for a point or line.
///
/// Relies on the public `geometry`, `shapes` and `primitive` fields
/// of `wavefront_obj::obj`'s types, telling the three variants of
/// `Primitive` apart and moving each triangle corner's vertex index.
#[verifier::external_body]
fn shape_at(o: &obj::Object, g: usize, s: usize) -> (t: Option<Tri>)
    requires
        g < obj_shape_groups(*o).len(),
        s < obj_shape_groups(*o)[g as int].len(),
    ensures
        t == obj_shape_groups(*o)[g as int][s as int],
{
    match o.geometry[g].shapes[s].primitive {
        obj::Primitive::Triangle(a, b, c) => Some((a.0, b.0, c.0)),
        obj::Primitive::Point(_) => None,
        obj::Primitive::Line(_, _) => None,
    }
}

/// The three corner positions of one shape; empty for a point or
/// line.
pub open spec fn tri_positions(pos: Seq<(u64, u64, u64)>, t: Option<Tri>) -> Seq<
    (u64, u64, u64),
> {
    match t {
        Some(t) => seq![pos[t.0 as int], pos[t.1 as int], pos[t.2 as int]],
        None => Seq::empty(),
    }
}

/// The flat corner positions of a sequence of shapes, in order.
pub open spec fn shapes_flatten(pos: Seq<(u64, u64, u64)>, shapes: Seq<Option<Tri>>) -> Seq<
    (u64, u64, u64),
>
    decreases shapes.len(),
{
    if shapes.len() == 0 {
        Seq::empty()
    } else {
        shapes_flatten(pos, shapes.drop_last()) + tri_positions(pos, shapes.last())
    }
}

/// The flat corner positions of a sequence of geometry groups, in
/// order.
pub open spec fn groups_flatten(pos: Seq<(u64, u64, u64)>, groups: Seq<Seq<Option<Tri>>>) -> Seq<
    (u64, u64, u64),
>
    decreases groups.len(),
{
    if groups.len() == 0 {
        Seq::empty()
    } else {
        groups_flatten(pos, groups.drop_last()) + shapes_flatten(pos, groups.last())
    }
}

/// The flat corner positions of a whole document, object by object.
pub open spec fn doc_flatten(doc: Seq<ObjectModel>) -> Seq<(u64, u64, u64)>
    decreases doc.len(),
{
    if doc.len() == 0 {
        Seq::empty()
    } else {
        doc_flatten(doc.drop_last()) + groups_flatten(doc.last().0, doc.last().1)
    }
}

/// How many triangles a sequence of shapes holds.
pub open spec fn shapes_tri_count(shapes: Seq<Option<Tri>>) -> nat
    decreases shapes.len(),
{
    if shapes.len() == 0 {
        0
    } else {
        shapes_tri_count(shapes.drop_last()) + (if shapes.last() is Some {
            1nat
        } else {
            0nat
        })
    }
}

/// How many triangles a sequence of geometry groups holds.
pub open spec fn groups_tri_count(groups: Seq<Seq<Option<Tri>>>) -> nat
    decreases groups.len(),
{
    if groups.len() == 0 {
        0
    } else {
        groups_tri_count(groups.drop_last()) + shapes_tri_count(groups.last())
    }
}

/// How many triangles a whole document holds.
pub open spec fn doc_tri_count(doc: Seq<ObjectModel>) -> nat
    decreases doc.len(),
{
    if doc.len() == 0 {
        0
    } else {
        doc_tri_count(doc.drop_last()) + groups_tri_count(doc.last().1)
    }
}

proof fn lemma_shapes_flatten_len(pos: Seq<(u64, u64, u64)>, shapes: Seq<Option<Tri>>)
    ensures
        shapes_flatten(pos, shapes).len() == 3 * shapes_tri_count(shapes),
    decreases shapes.len(),
{
    if shapes.len() > 0 {
        lemma_shapes_flatten_len(pos, shapes.drop_last());
    }
}

proof fn lemma_groups_flatten_len(pos: Seq<(u64, u64, u64)>, groups: Seq<Seq<Option<Tri>>>)
    ensures
        groups_flatten(pos, groups).len() == 3 * groups_tri_count(groups),
    decreases groups.len(),
{
    if groups.len() > 0 {
        lemma_groups_flatten_len(pos, groups.drop_last());
        lemma_shapes_flatten_len(pos, groups.last());
    }
}

/// A flattened document holds exactly three corner positions per
/// triangle it contains: a frame of a document with N triangle-vertex
/// entries has length exactly N.
pub proof fn lemma_doc_flatten_len(doc: Seq<ObjectModel>)
    ensures
        doc_flatten(doc).len() == 3 * doc_tri_count(doc),
    decreases doc.len(),
{
    if doc.len() > 0 {
        lemma_doc_flatten_len(doc.drop_last());
        lemma_groups_flatten_len(doc.last().0, doc.last().1);
    }
}

/// Flatten parsed objects into a frame: every triangle's three corner
/// positions, objects and shapes in document order; points and lines
/// contribute nothing. Exactly when some corner index is out of its
/// object's range, the frame is refused instead.
pub fn flatten_objects(objs: &Vec<obj::Object>) -> (r: Result<Frame, LoadError>)
    ensures
        doc_indices_ok(doc_of(objs@)) ==> (r matches Ok(f) && f@ == doc_flatten(doc_of(objs@))),
        !doc_indices_ok(doc_of(objs@)) ==> (r matches Err(e) && e is IndexOutOfRange),
{
    let mut out: Vec<Vertex> = Vec::new();
    let n = objs.len();
    proof {
        assert(doc_of(objs@).take(0) =~= Seq::<ObjectModel>::empty());
    }
    for i in 0..n
        invariant
            n == objs@.len(),
            out@.map_values(|v: Vertex| v@) == doc_flatten(doc_of(objs@).take(i as int)),
            forall|k: int|
                0 <= k < i ==> object_indices_ok(#[trigger] doc_of(objs@)[k]),
    {
        let o = &objs[i];
        let ghost m = object_model(objs@[i as int]);
        let nv = vertex_count(o);
        let ng = group_count(o);
        let ghost base = out@.map_values(|v: Vertex| v@);
        proof {
            assert(m.1.take(0) =~= Seq::<Seq<Option<Tri>>>::empty());
        }
        for g in 0..ng
            invariant
                n == objs@.len(),
                i < n,
                ng == m.1.len(),
                nv == m.0.len(),
                o == &objs@[i as int],
                m == object_model(objs@[i as int]),
                base == doc_flatten(doc_of(objs@).take(i as int)),
                out@.map_values(|v: Vertex| v@) == base + groups_flatten(m.0, m.1.take(g as int)),
                forall|k: int|
                    0 <= k < i ==> object_indices_ok(#[trigger] doc_of(objs@)[k]),
                forall|gg: int, ss: int|
                    0 <= gg < g && 0 <= ss < m.1[gg].len() ==> tri_in_range(
                        m.0.len(),
                        #[trigger] m.1[gg][ss],
                    ),
        {
            let ns = shape_count(o, g);
            let ghost gbase = out@.map_values(|v: Vertex| v@);
            proof {
                assert(m.1[g as int].take(0) =~= Seq::<Option<Tri>>::empty());
            }
            for s in 0..ns
                invariant
                    n == objs@.len(),
                    i < n,
                    g < ng,
                    ng == m.1.len(),
                    nv == m.0.len(),
                    ns == m.1[g as int].len(),
                    o == &objs@[i as int],
                    m == object_model(objs@[i as int]),
                    gbase == base + groups_flatten(m.0, m.1.take(g as int)),
                    base == doc_flatten(doc_of(objs@).take(i as int)),
                    out@.map_values(|v: Vertex| v@) == gbase + shapes_flatten(
                        m.0,
                        m.1[g as int].take(s as int),
                    ),
                    forall|k: int|
                        0 <= k < i ==> object_indices_ok(#[trigger] doc_of(objs@)[k]),
                    forall|gg: int, ss: int|
                        0 <= gg < g && 0 <= ss < m.1[gg].len() ==> tri_in_range(
                            m.0.len(),
                            #[trigger] m.1[gg][ss],
                        ),
                    forall|ss: int|
                        0 <= ss < s ==> tri_in_range(m.0.len(), #[trigger] m.1[g as int][ss]),
            {
                let ghost prev = out@;
                let t = shape_at(o, g, s);
                match t {
                    Some((a, b, c)) => {
                        if a >= nv || b >= nv || c >= nv {
                            proof {
                                assert(!tri_in_range(m.0.len(), m.1[g as int][s as int]));
                                assert(!object_indices_ok(doc_of(objs@)[i as int]));
                                assert(!doc_indices_ok(doc_of(objs@)));
                            }
                            return Err(LoadError::IndexOutOfRange);
                        }
                        let pa = position_at(o, a);
                        let pb = position_at(o, b);
                        let pc = position_at(o, c);
                        let va = Vertex { x_bits: pa.0, y_bits: pa.1, z_bits: pa.2 };
                        let vb = Vertex { x_bits: pb.0, y_bits: pb.1, z_bits: pb.2 };
                        let vc = Vertex { x_bits: pc.0, y_bits: pc.1, z_bits: pc.2 };
                        out.push(va);
                        out.push(vb);
                        out.push(vc);
                        proof {
                            assert(out@ == prev.push(va).push(vb).push(vc));
                            assert(tri_positions(m.0, m.1[g as int][s as int]) =~= seq![
                                va@,
                                vb@,
                                vc@,
                            ]);
                            assert(out@.map_values(|v: Vertex| v@) =~= prev.map_values(
                                |v: Vertex| v@,
                            ) + tri_positions(m.0, m.1[g as int][s as int]));
                        }
                    },
                    None => {
                        proof {
                            assert(out@.map_values(|v: Vertex| v@) =~= prev.map_values(
                                |v: Vertex| v@,
                            ) + tri_positions(m.0, m.1[g as int][s as int]));
                        }
                    },
                }
                proof {
                    let shapes = m.1[g as int];
                    assert(shapes.take(s + 1).drop_last() =~= shapes.take(s as int));
                    assert(shapes.take(s + 1).last() == shapes[s as int]);
                    assert(out@.map_values(|v: Vertex| v@) =~= gbase + shapes_flatten(
                        m.0,
                        shapes.take(s + 1),
                    ));
                }
            }
            proof {
                assert(m.1[g as int].take(ns as int) =~= m.1[g as int]);
                assert(m.1.take(g + 1).drop_last() =~= m.1.take(g as int));
                assert(m.1.take(g + 1).last() == m.1[g as int]);
            }
        }
        proof {
            assert(m.1.take(ng as int) =~= m.1);
            assert(doc_of(objs@).take(i + 1).drop_last() =~= doc_of(objs@).take(i as int));
            assert(doc_of(objs@).take(i + 1).last() == doc_of(objs@)[i as int]);
            assert(object_indices_ok(doc_of(objs@)[i as int]));
        }
    }
    proof {
        assert(doc_of(objs@).take(n as int) =~= doc_of(objs@));
    }
    Ok(Frame { vertices: out })
}

/// Load a frame from an OBJ document, or from nothing.
///
/// `source` is the document's text, or `None` where the file could
/// not be read at all. A missing document yields exactly the missing
/// error; a document holding a nineteen-digit negative number is
/// refused before parsing (see `parse_objects`); a document the
/// parser refuses yields exactly the parse error it reports, line and
/// message as they are; an accepted document yields the flat corner
/// positions of all its triangles, in document order, and nothing
/// else — never a partial frame.
pub fn load_frame(source: Option<&str>) -> (r: Result<Frame, LoadError>)
    ensures
        source is None ==> (r matches Err(e) && e is Missing),
        source matches Some(s) ==> match r {
            Ok(f) => !has_oversized_index_token(s.spec_bytes()) && obj_parse_ok(s@) && f@
                == doc_flatten(obj_doc(s@)),
            Err(e) => match e {
                LoadError::Missing => false,
                LoadError::OversizedIndexToken => has_oversized_index_token(s.spec_bytes()),
                LoadError::Parse { line, message } => !has_oversized_index_token(s.spec_bytes())
                    && !obj_parse_ok(s@) && (line as int, message@) == obj_parse_err(s@),
                LoadError::IndexOutOfRange => false,
            },
        },
{
    match source {
        None => Err(LoadError::Missing),
        Some(s) => {
            if scan_oversized_index_token(s) {
                return Err(LoadError::OversizedIndexToken);
            }
            match parse_objects(s) {
                Err((line, message)) => Err(LoadError::Parse { line, message }),
                Ok(objs) => flatten_objects(&objs),
            }
        },
    }
}

} // verus!
