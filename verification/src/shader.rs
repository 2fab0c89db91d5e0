//! Shader program construction and its uniform setters.
//!
//! Compiling and linking happen in the graphics driver; what this module owns
//! is every decision around those calls. [`BuildState`] is the pipeline:
//! compile the vertex stage, compile the fragment stage, link, and stop at
//! the first stage whose status flag reports failure, carrying that stage's
//! diagnostic log out as the error. The shell performs whatever
//! [`BuildState::next_action`] asks and feeds the outcome back through
//! [`BuildState::step`].

use crate::fx::{Mat4, Vec3};
use crate::gl_state::GlCommand;
use vstd::prelude::*;

verus! {

/// The two compile stages.
#[derive(Clone, Copy, Debug, PartialEq, Eq, Structural)]
pub enum ShaderType {
    Vertex,
    Fragment,
}

/// Why a program could not be built: a stage's source was rejected, the
/// stages would not link, or a source file could not be read at all. The
/// `String` is the diagnostic log (or I/O message) surfaced to the operator.
#[derive(Clone, Debug, PartialEq)]
pub enum ShaderErr {
    CompileErr(ShaderType, String),
    LinkErr(String),
    IoError(String),
}

/// A fully linked, usable shader program.
#[derive(Clone, Copy, Debug, PartialEq, Eq, Structural)]
pub struct Shader {
    pub program: u32,
}

/// What the driver reported for one stage: the status flag, the diagnostic
/// log read back for it, and the handle the stage produced.
#[derive(Clone, Debug, PartialEq)]
pub struct StageReport {
    pub success: bool,
    pub log: String,
    pub handle: u32,
}

/// Where the build pipeline stands: which stage outcome it awaits, or how it
/// ended.
#[derive(Clone, Debug, PartialEq)]
pub enum BuildState {
    AwaitVertex,
    AwaitFragment { vertex: u32 },
    AwaitLink { vertex: u32, fragment: u32 },
    Done { shader: Shader },
    Failed { err: ShaderErr },
}

/// The outside work the pipeline asks for next.
#[derive(Clone, Copy, Debug, PartialEq, Eq, Structural)]
pub enum BuildAction {
    CompileVertex,
    CompileFragment,
    Link { vertex: u32, fragment: u32 },
    Stop,
}

/// The pipeline's transition: a successful report advances one stage, a
/// failed one ends the build with the error of exactly the stage that
/// failed; a finished build absorbs further reports.
pub open spec fn build_step(s: BuildState, r: StageReport) -> BuildState {
    match s {
        BuildState::AwaitVertex => {
            if r.success {
                BuildState::AwaitFragment { vertex: r.handle }
            } else {
                BuildState::Failed { err: ShaderErr::CompileErr(ShaderType::Vertex, r.log) }
            }
        },
        BuildState::AwaitFragment { vertex } => {
            if r.success {
                BuildState::AwaitLink { vertex, fragment: r.handle }
            } else {
                BuildState::Failed { err: ShaderErr::CompileErr(ShaderType::Fragment, r.log) }
            }
        },
        BuildState::AwaitLink { .. } => {
            if r.success {
                BuildState::Done { shader: Shader { program: r.handle } }
            } else {
                BuildState::Failed { err: ShaderErr::LinkErr(r.log) }
            }
        },
        BuildState::Done { .. } => s,
        BuildState::Failed { .. } => s,
    }
}

/// The pipeline run over a whole sequence of stage reports, first to last.
pub open spec fn run_steps(s: BuildState, reports: Seq<StageReport>) -> BuildState
    decreases reports.len(),
{
    if reports.len() == 0 {
        s
    } else {
        run_steps(build_step(s, reports[0]), reports.subrange(1, reports.len() as int))
    }
}

impl BuildState {
    /// A fresh pipeline, waiting for the vertex stage.
    pub fn start() -> (r: BuildState)
        ensures
            r == BuildState::AwaitVertex,
    {
        BuildState::AwaitVertex
    }

    /// The outside work to perform next in this state.
    pub fn next_action(&self) -> (r: BuildAction)
        ensures
            *self == BuildState::AwaitVertex ==> r == BuildAction::CompileVertex,
            *self matches BuildState::AwaitFragment { .. } ==> r == BuildAction::CompileFragment,
            *self matches BuildState::AwaitLink { vertex, fragment } ==> r == (BuildAction::Link {
                vertex,
                fragment,
            }),
            *self matches BuildState::Done { .. } ==> r == BuildAction::Stop,
            *self matches BuildState::Failed { .. } ==> r == BuildAction::Stop,
    {
        match self {
            BuildState::AwaitVertex => BuildAction::CompileVertex,
            BuildState::AwaitFragment { .. } => BuildAction::CompileFragment,
            BuildState::AwaitLink { vertex, fragment } => BuildAction::Link {
                vertex: *vertex,
                fragment: *fragment,
            },
            BuildState::Done { .. } => BuildAction::Stop,
            BuildState::Failed { .. } => BuildAction::Stop,
        }
    }

    /// Advance the pipeline by one stage report.
    pub fn step(self, report: StageReport) -> (r: BuildState)
        ensures
            r == build_step(self, report),
    {
        match self {
            BuildState::AwaitVertex => {
                if report.success {
                    BuildState::AwaitFragment { vertex: report.handle }
                } else {
                    BuildState::Failed {
                        err: ShaderErr::CompileErr(ShaderType::Vertex, report.log),
                    }
                }
            },
            BuildState::AwaitFragment { vertex } => {
                if report.success {
                    BuildState::AwaitLink { vertex, fragment: report.handle }
                } else {
                    BuildState::Failed {
                        err: ShaderErr::CompileErr(ShaderType::Fragment, report.log),
                    }
                }
            },
            BuildState::AwaitLink { .. } => {
                if report.success {
                    BuildState::Done { shader: Shader { program: report.handle } }
                } else {
                    BuildState::Failed { err: ShaderErr::LinkErr(report.log) }
                }
            },
            BuildState::Done { .. } => self,
            BuildState::Failed { .. } => self,
        }
    }
}

/// A build whose every stage the driver accepts ends linked and usable: the
/// pipeline run on three successful reports is `Done`, holding the program
/// handle the link stage produced.
pub proof fn lemma_build_success(v: StageReport, f: StageReport, l: StageReport)
    requires
        v.success,
        f.success,
        l.success,
    ensures
        run_steps(BuildState::AwaitVertex, seq![v, f, l]) == (BuildState::Done {
            shader: Shader { program: l.handle },
        }),
{
    reveal_with_fuel(run_steps, 4);
    let reports = seq![v, f, l];
    assert(reports.subrange(1, 3) =~= seq![f, l]);
    assert(seq![f, l].subrange(1, 2) =~= seq![l]);
    assert(seq![l].subrange(1, 1) =~= Seq::<StageReport>::empty());
}

/// A failed build stays failed: no later report changes the outcome.
pub proof fn lemma_failed_is_final(err: ShaderErr, reports: Seq<StageReport>)
    ensures
        run_steps(BuildState::Failed { err }, reports) == (BuildState::Failed { err }),
    decreases reports.len(),
{
    if reports.len() > 0 {
        lemma_failed_is_final(err, reports.subrange(1, reports.len() as int));
    }
}

/// A vertex stage the driver rejects decides the build: whatever reports
/// follow, the pipeline ends with a compile error tagged `Vertex` — never
/// `Fragment` — carrying the vertex stage's log, and never reaches `Done`.
pub proof fn lemma_vertex_failure_decides(reports: Seq<StageReport>)
    requires
        reports.len() >= 1,
        !reports[0].success,
    ensures
        run_steps(BuildState::AwaitVertex, reports) == (BuildState::Failed {
            err: ShaderErr::CompileErr(ShaderType::Vertex, reports[0].log),
        }),
{
    lemma_failed_is_final(
        ShaderErr::CompileErr(ShaderType::Vertex, reports[0].log),
        reports.subrange(1, reports.len() as int),
    );
}

/// Whether a uniform name is free of interior NUL characters. The graphics
/// API takes names as C strings, so a name holding NUL cannot be passed on;
/// the setters require this of their callers.
pub open spec fn nul_free(name: Seq<char>) -> bool {
    forall|i: int| 0 <= i < name.len() ==> name[i] != '\0'
}

/// The decision of building a program from two file reads: the vertex
/// source's read failure surfaces first, then the fragment's, each as a
/// distinct I/O error; with both sources in hand the pair goes on to the
/// build pipeline.
pub fn from_reads(vertex: Result<String, String>, fragment: Result<String, String>) -> (r: Result<
    (String, String),
    ShaderErr,
>)
    ensures
        vertex matches Err(e) ==> r == Err::<(String, String), ShaderErr>(ShaderErr::IoError(e)),
        vertex is Ok ==> (fragment matches Err(e) ==> r == Err::<(String, String), ShaderErr>(
            ShaderErr::IoError(e),
        )),
        vertex matches Ok(v) ==> (fragment matches Ok(f) ==> r == Ok::<
            (String, String),
            ShaderErr,
        >((v, f))),
{
    match vertex {
        Err(e) => Err(ShaderErr::IoError(e)),
        Ok(v) => match fragment {
            Err(e) => Err(ShaderErr::IoError(e)),
            Ok(f) => Ok((v, f)),
        },
    }
}

impl Shader {
    /// Wrap a linked program handle.
    pub fn new(program: u32) -> (r: Shader)
        ensures
            r.program == program,
    {
        Shader { program }
    }

    /// The command that releases this program's handle.
    pub fn delete(&self) -> (r: GlCommand)
        ensures
            r == (GlCommand::DeleteProgram { program: self.program }),
    {
        GlCommand::DeleteProgram { program: self.program }
    }

    /// The command that makes this program current.
    pub fn use_program(&self) -> (r: GlCommand)
        ensures
            r == (GlCommand::UseProgram { program: self.program }),
    {
        GlCommand::UseProgram { program: self.program }
    }

    /// The command that uploads an integer to the named uniform of this
    /// program. A name no active uniform carries is silently ignored when
    /// the command is performed, as the graphics API specifies.
    pub fn set_int(&self, name: &str, value: i32) -> (r: GlCommand)
        requires
            nul_free(name@),
        ensures
            r matches GlCommand::Uniform1i { program, name: n, value: v } && program
                == self.program && n@ == name@ && v == value,
    {
        GlCommand::Uniform1i { program: self.program, name: name.to_owned(), value }
    }

    /// The command that uploads a matrix to the named uniform of this
    /// program.
    pub fn set_mat4(&self, name: &str, mat: &Mat4) -> (r: GlCommand)
        requires
            nul_free(name@),
        ensures
            r matches GlCommand::UniformMatrix4 { program, name: n, matrix } && program
                == self.program && n@ == name@ && matrix == *mat,
    {
        GlCommand::UniformMatrix4 { program: self.program, name: name.to_owned(), matrix: *mat }
    }

    /// The command that uploads a three-component vector to the named
    /// uniform of this program.
    pub fn set_vec3(&self, name: &str, v: &Vec3) -> (r: GlCommand)
        requires
            nul_free(name@),
        ensures
            r matches GlCommand::Uniform3f { program, name: n, vector } && program == self.program
                && n@ == name@ && vector == *v,
    {
        GlCommand::Uniform3f { program: self.program, name: name.to_owned(), vector: *v }
    }
}

} // verus!
