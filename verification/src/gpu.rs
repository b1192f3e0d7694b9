//! Planning and checking of the GPU-side work.
//!
//! The viewer uploads one vertex buffer, builds one shader program,
//! and issues one draw call per frame. The graphics calls themselves
//! need a window and a driver and live outside this crate; what is
//! here is the arithmetic and the decisions around them: how large
//! the buffer is and how many vertices the draw call covers (the two
//! must agree), whether a shader build succeeded and which stage
//! failed if not, and whether a polled error code demands an abort.

use vstd::prelude::*;
use vstd::string::StringExecFns;

use crate::mesh::Frame;

verus! {

/// Bytes of one vertex component as uploaded: positions are sent to
/// the GPU as 32-bit floats, three per vertex.
pub const COMPONENT_BYTES: usize = 4;

/// Components per vertex: x, y and z.
pub const COMPONENTS_PER_VERTEX: usize = 3;

/// Everything the graphics calls need to upload a frame's vertices
/// and draw them: the attribute layout, the buffer size, and the draw
/// call's range.
pub struct UploadPlan {
    /// Components per vertex handed to the attribute pointer.
    pub components_per_vertex: usize,
    /// Bytes from one vertex to the next in the buffer.
    pub stride_bytes: usize,
    /// Total bytes of the vertex buffer.
    pub buffer_bytes: usize,
    /// Index of the first vertex the draw call covers.
    pub draw_first: i32,
    /// Number of vertices the draw call covers, as the draw call
    /// takes it.
    pub draw_count: i32,
}

/// Whether a plan is internally consistent: the buffer holds exactly
/// the vertices that the draw call covers, from the start.
pub open spec fn plan_consistent(p: UploadPlan) -> bool {
    &&& p.components_per_vertex == COMPONENTS_PER_VERTEX
    &&& p.stride_bytes == COMPONENTS_PER_VERTEX * COMPONENT_BYTES
    &&& p.buffer_bytes == p.stride_bytes * p.draw_count
    &&& p.draw_first == 0
    &&& p.draw_count >= 0
}

/// Plan the upload and draw call for a frame.
///
/// The plan's draw count equals the frame's vertex count and its
/// buffer size is exactly one stride per drawn vertex, so the buffer
/// and the draw call can never disagree. `None` comes exactly when
/// the count does not fit the draw call's signed 32-bit argument or
/// the buffer size does not fit `usize`.
pub fn upload_plan(frame: &Frame) -> (r: Option<UploadPlan>)
    ensures
        match r {
            Some(p) => {
                &&& plan_consistent(p)
                &&& p.draw_count == frame.vertices@.len()
                &&& p.buffer_bytes == COMPONENTS_PER_VERTEX * COMPONENT_BYTES
                    * frame.vertices@.len()
            },
            None => frame.vertices@.len() > i32::MAX
                || COMPONENTS_PER_VERTEX * COMPONENT_BYTES * frame.vertices@.len()
                    > usize::MAX,
        },
{
    let n = frame.vertices.len();
    if n > i32::MAX as usize {
        return None;
    }
    let stride: usize = COMPONENTS_PER_VERTEX * COMPONENT_BYTES;
    if n > usize::MAX / stride {
        return None;
    }
    Some(UploadPlan {
        components_per_vertex: COMPONENTS_PER_VERTEX,
        stride_bytes: stride,
        buffer_bytes: stride * n,
        draw_first: 0,
        draw_count: n as i32,
    })
}

/// A stage of the shader program build.
#[derive(Clone, Copy, Debug, PartialEq, Eq, Structural)]
pub enum BuildStage {
    /// Compilation of the vertex shader.
    VertexCompile,
    /// Compilation of the fragment shader.
    FragmentCompile,
    /// Linking of the program.
    Link,
}

/// A failed shader program build: which stage failed and the log the
/// driver reported for it.
pub struct BuildError {
    /// The first stage that reported failure.
    pub stage: BuildStage,
    /// The driver's information log for that stage.
    pub log: String,
}

/// The wording that names a failed build stage.
pub open spec fn stage_prefix(stage: BuildStage) -> Seq<char> {
    match stage {
        BuildStage::VertexCompile => "vertex shader failed to compile: "@,
        BuildStage::FragmentCompile => "fragment shader failed to compile: "@,
        BuildStage::Link => "shader program failed to link: "@,
    }
}

impl BuildError {
    /// A description of the failure: the failed stage's name followed
    /// by the driver's log.
    pub fn describe(&self) -> (r: String)
        ensures
            r@ == stage_prefix(self.stage) + self.log@,
    {
        let mut s = match self.stage {
            BuildStage::VertexCompile => "vertex shader failed to compile: ".to_owned(),
            BuildStage::FragmentCompile => "fragment shader failed to compile: ".to_owned(),
            BuildStage::Link => "shader program failed to link: ".to_owned(),
        };
        s.append(self.log.as_str());
        s
    }
}

/// Judge a shader program build from the status values the driver
/// reported: the compile status of each shader and the link status of
/// the program, each with its information log.
///
/// The build is accepted exactly when all three statuses are good;
/// otherwise the first failed stage, in build order, is reported with
/// its log.
pub fn program_build_outcome(
    vertex_ok: bool,
    vertex_log: String,
    fragment_ok: bool,
    fragment_log: String,
    link_ok: bool,
    link_log: String,
) -> (r: Result<(), BuildError>)
    ensures
        r is Ok <==> (vertex_ok && fragment_ok && link_ok),
        !vertex_ok ==> (r matches Err(e) && e.stage == BuildStage::VertexCompile
            && e.log == vertex_log),
        vertex_ok && !fragment_ok ==> (r matches Err(e)
            && e.stage == BuildStage::FragmentCompile && e.log == fragment_log),
        vertex_ok && fragment_ok && !link_ok ==> (r matches Err(e)
            && e.stage == BuildStage::Link && e.log == link_log),
{
    if !vertex_ok {
        Err(BuildError { stage: BuildStage::VertexCompile, log: vertex_log })
    } else if !fragment_ok {
        Err(BuildError { stage: BuildStage::FragmentCompile, log: fragment_log })
    } else if !link_ok {
        Err(BuildError { stage: BuildStage::Link, log: link_log })
    } else {
        Ok(())
    }
}

/// Judge a polled graphics error code: zero means no error and the
/// frame goes on; any other code is fatal and is handed back so the
/// caller can abort with it.
pub fn check_gl_errors(code: u32) -> (r: Result<(), u32>)
    ensures
        r is Ok <==> code == 0,
        code != 0 ==> r == Result::<(), u32>::Err(code),
{
    if code == 0 {
        Ok(())
    } else {
        Err(code)
    }
}

} // verus!
