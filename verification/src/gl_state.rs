//! The GL command stream and a model of the binding state it drives.
//!
//! The renderer does not issue graphics calls itself: every verified function
//! returns the exact sequence of [`GlCommand`] values it wants performed, and
//! the unverified shell plays them against the real API. [`GlState`] models
//! the small piece of global GL state the demo relies on (the current
//! program, texture unit, texture, buffer and vertex-array bindings), and
//! [`UniformStore`] models the per-program uniform slots, so that what a
//! command stream does to that state is itself a proved fact.

use crate::fx::{Mat4, Vec3};
use crate::text::str_eq;
use vstd::prelude::*;

verus! {

pub const GL_TEXTURE_2D: u32 = 0x0DE1;

pub const GL_TEXTURE0: u32 = 0x84C0;

pub const GL_ARRAY_BUFFER: u32 = 0x8892;

pub const GL_STATIC_DRAW: u32 = 0x88E4;

pub const GL_FLOAT: u32 = 0x1406;

pub const GL_TRIANGLES: u32 = 0x0004;

pub const GL_UNSIGNED_BYTE: u32 = 0x1401;

pub const GL_REPEAT: u32 = 0x2901;

pub const GL_LINEAR: u32 = 0x2601;

pub const GL_RGB: u32 = 0x1907;

pub const GL_RGBA: u32 = 0x1908;

pub const GL_TEXTURE_WRAP_S: u32 = 0x2802;

pub const GL_TEXTURE_WRAP_T: u32 = 0x2803;

pub const GL_TEXTURE_MAG_FILTER: u32 = 0x2800;

pub const GL_TEXTURE_MIN_FILTER: u32 = 0x2801;

pub const GL_NO_ERROR: u32 = 0;

pub const GL_INVALID_ENUM: u32 = 0x0500;

pub const GL_INVALID_VALUE: u32 = 0x0501;

pub const GL_INVALID_OPERATION: u32 = 0x0502;

pub const GL_STACK_OVERFLOW: u32 = 0x0503;

pub const GL_OUT_OF_MEMORY: u32 = 0x0505;

pub const GL_INVALID_FRAMEBUFFER_OPERATION: u32 = 0x0506;

/// A value uploaded to a uniform slot.
#[derive(Clone, Copy, Debug, PartialEq, Eq, Structural)]
pub enum UniformValue {
    Int(i32),
    Matrix4(Mat4),
    Vector3(Vec3),
}

/// One deferred graphics call. The numeric fields carry the GL enum values
/// the call would receive; fixed-point payloads are converted to floats by
/// the shell that performs the command.
#[derive(Clone, Debug, PartialEq)]
pub enum GlCommand {
    UseProgram { program: u32 },
    Uniform1i { program: u32, name: String, value: i32 },
    UniformMatrix4 { program: u32, name: String, matrix: Mat4 },
    Uniform3f { program: u32, name: String, vector: Vec3 },
    ActiveTexture { unit: u32 },
    BindTexture { target: u32, texture: u32 },
    BindVertexArray { array: u32 },
    BindBuffer { target: u32, buffer: u32 },
    BufferData { target: u32, data: Vec<i64>, usage: u32 },
    EnableVertexAttribArray { index: u32 },
    VertexAttribPointer { index: u32, size: u32, ty: u32, normalized: bool, stride: u32 },
    TexImage2D {
        target: u32,
        level: i32,
        internal_format: i32,
        width: u32,
        height: u32,
        format: u32,
        ty: u32,
        data: Vec<u8>,
    },
    TexParameteri { target: u32, pname: u32, param: i32 },
    DrawArrays { mode: u32, first: i32, count: i32 },
    DeleteProgram { program: u32 },
    DeleteTexture { texture: u32 },
    DeleteVertexArray { array: u32 },
}

/// The bindings the demo reads or writes: the current program, the active
/// texture unit, the texture bound to `GL_TEXTURE_2D` on that unit (the demo
/// only ever activates unit 0), the `GL_ARRAY_BUFFER` binding and the bound
/// vertex array.
#[derive(Clone, Copy, Debug, PartialEq, Eq, Structural)]
pub struct GlState {
    pub program: u32,
    pub active_unit: u32,
    pub texture_2d: u32,
    pub array_buffer: u32,
    pub vertex_array: u32,
}

/// What one command does to the binding state. Uploads and parameter calls
/// act on whatever is bound and change no binding. Deleting a texture or
/// vertex array resets a binding that held it to zero, as the graphics API
/// specifies; deleting a program leaves the current-program binding alone,
/// since the API only flags a program in use for later deletion.
pub open spec fn apply_command(s: GlState, c: GlCommand) -> GlState {
    match c {
        GlCommand::UseProgram { program } => GlState { program, ..s },
        GlCommand::ActiveTexture { unit } => GlState { active_unit: unit, ..s },
        GlCommand::BindTexture { target, texture } => {
            if target == GL_TEXTURE_2D {
                GlState { texture_2d: texture, ..s }
            } else {
                s
            }
        },
        GlCommand::BindBuffer { target, buffer } => {
            if target == GL_ARRAY_BUFFER {
                GlState { array_buffer: buffer, ..s }
            } else {
                s
            }
        },
        GlCommand::BindVertexArray { array } => GlState { vertex_array: array, ..s },
        GlCommand::DeleteTexture { texture } => {
            if s.texture_2d == texture {
                GlState { texture_2d: 0, ..s }
            } else {
                s
            }
        },
        GlCommand::DeleteVertexArray { array } => {
            if s.vertex_array == array {
                GlState { vertex_array: 0, ..s }
            } else {
                s
            }
        },
        _ => s,
    }
}

/// What a whole command sequence does to the binding state, first to last.
pub open spec fn apply_all(s: GlState, cs: Seq<GlCommand>) -> GlState
    decreases cs.len(),
{
    if cs.len() == 0 {
        s
    } else {
        apply_all(apply_command(s, cs[0]), cs.subrange(1, cs.len() as int))
    }
}

impl GlState {
    /// The state of a fresh context: nothing bound anywhere.
    pub fn initial() -> (r: GlState)
        ensures
            r == (GlState { program: 0, active_unit: 0, texture_2d: 0, array_buffer: 0, vertex_array: 0 }),
    {
        GlState { program: 0, active_unit: 0, texture_2d: 0, array_buffer: 0, vertex_array: 0 }
    }

    /// Track one command against the modeled bindings.
    pub fn apply(&mut self, c: &GlCommand)
        ensures
            *final(self) == apply_command(*old(self), *c),
    {
        match c {
            GlCommand::UseProgram { program } => {
                self.program = *program;
            },
            GlCommand::ActiveTexture { unit } => {
                self.active_unit = *unit;
            },
            GlCommand::BindTexture { target, texture } => {
                if *target == GL_TEXTURE_2D {
                    self.texture_2d = *texture;
                }
            },
            GlCommand::BindBuffer { target, buffer } => {
                if *target == GL_ARRAY_BUFFER {
                    self.array_buffer = *buffer;
                }
            },
            GlCommand::BindVertexArray { array } => {
                self.vertex_array = *array;
            },
            GlCommand::DeleteTexture { texture } => {
                if self.texture_2d == *texture {
                    self.texture_2d = 0;
                }
            },
            GlCommand::DeleteVertexArray { array } => {
                if self.vertex_array == *array {
                    self.vertex_array = 0;
                }
            },
            _ => {},
        }
    }
}

/// Binding a texture is idempotent: a second identical bind with no
/// intervening command leaves the context exactly where the first bind left
/// it, with the bound texture unit still pointing at the same handle.
pub proof fn lemma_bind_texture_idempotent(s: GlState, target: u32, texture: u32)
    ensures
        apply_command(
            apply_command(s, GlCommand::BindTexture { target, texture }),
            GlCommand::BindTexture { target, texture },
        ) == apply_command(s, GlCommand::BindTexture { target, texture }),
{
}

/// Performing a draw's whole command stream leaves the context exactly as
/// the draw needs it: the program current, texture unit 0 active with the
/// drawn texture bound to it, the vertex array unbound again, and the
/// buffer binding untouched.
pub proof fn lemma_draw_stream_leaves_bindings(
    s: GlState,
    cs: Seq<GlCommand>,
    program: u32,
    texture: u32,
    vao: u32,
)
    requires
        cs.len() == 8,
        cs[0] == (GlCommand::UseProgram { program }),
        cs[1] matches GlCommand::UniformMatrix4 { .. },
        cs[2] matches GlCommand::Uniform3f { .. },
        cs[3] == (GlCommand::ActiveTexture { unit: GL_TEXTURE0 }),
        cs[4] == (GlCommand::BindTexture { target: GL_TEXTURE_2D, texture }),
        cs[5] == (GlCommand::BindVertexArray { array: vao }),
        cs[6] matches GlCommand::DrawArrays { .. },
        cs[7] == (GlCommand::BindVertexArray { array: 0 }),
    ensures
        apply_all(s, cs) == (GlState {
            program,
            active_unit: GL_TEXTURE0,
            texture_2d: texture,
            array_buffer: s.array_buffer,
            vertex_array: 0,
        }),
{
    reveal_with_fuel(apply_all, 9);
    let t1 = cs.subrange(1, 8);
    let t2 = cs.subrange(2, 8);
    let t3 = cs.subrange(3, 8);
    let t4 = cs.subrange(4, 8);
    let t5 = cs.subrange(5, 8);
    let t6 = cs.subrange(6, 8);
    let t7 = cs.subrange(7, 8);
    assert(t1.subrange(1, 7) =~= t2);
    assert(t2.subrange(1, 6) =~= t3);
    assert(t3.subrange(1, 5) =~= t4);
    assert(t4.subrange(1, 4) =~= t5);
    assert(t5.subrange(1, 3) =~= t6);
    assert(t6.subrange(1, 2) =~= t7);
    assert(t7.subrange(1, 1) =~= Seq::<GlCommand>::empty());
}

/// One uniform slot as the model sees it: which program it belongs to, the
/// uniform's name, and the value most recently uploaded.
pub struct UniformRecord {
    pub program: u32,
    pub name: Seq<char>,
    pub value: UniformValue,
}

/// One performed upload.
#[derive(Clone, Debug, PartialEq)]
pub struct UniformWrite {
    pub program: u32,
    pub name: String,
    pub value: UniformValue,
}

/// A model of the uniform slots of all programs: the journal of uploads, in
/// order. A slot's current value is its latest upload.
#[derive(Debug)]
pub struct UniformStore {
    pub writes: Vec<UniformWrite>,
}

impl View for UniformStore {
    type V = Seq<UniformRecord>;

    open spec fn view(&self) -> Seq<UniformRecord> {
        self.writes@.map_values(
            |w: UniformWrite| UniformRecord { program: w.program, name: w.name@, value: w.value },
        )
    }
}

/// What one command appends to the uniform journal: the three uniform
/// uploads record their value, every other command records nothing.
pub open spec fn uniform_effect(j: Seq<UniformRecord>, c: GlCommand) -> Seq<UniformRecord> {
    match c {
        GlCommand::Uniform1i { program, name, value } => j.push(
            UniformRecord { program, name: name@, value: UniformValue::Int(value) },
        ),
        GlCommand::UniformMatrix4 { program, name, matrix } => j.push(
            UniformRecord { program, name: name@, value: UniformValue::Matrix4(matrix) },
        ),
        GlCommand::Uniform3f { program, name, vector } => j.push(
            UniformRecord { program, name: name@, value: UniformValue::Vector3(vector) },
        ),
        _ => j,
    }
}

/// The value a query of `name` on `program` reads back: the latest matching
/// upload, or nothing if the slot was never written.
pub open spec fn lookup(j: Seq<UniformRecord>, program: u32, name: Seq<char>) -> Option<
    UniformValue,
>
    decreases j.len(),
{
    if j.len() == 0 {
        None
    } else if j.last().program == program && j.last().name == name {
        Some(j.last().value)
    } else {
        lookup(j.drop_last(), program, name)
    }
}

/// An upload is read back without corruption: after recording a write, the
/// written slot holds exactly the written value, and every other slot reads
/// as before.
pub proof fn lemma_upload_read_back(
    j: Seq<UniformRecord>,
    w: UniformRecord,
    program: u32,
    name: Seq<char>,
)
    ensures
        w.program == program && w.name == name ==> lookup(j.push(w), program, name) == Some(
            w.value,
        ),
        !(w.program == program && w.name == name) ==> lookup(j.push(w), program, name) == lookup(
            j,
            program,
            name,
        ),
{
    assert(j.push(w).drop_last() =~= j);
}

impl UniformStore {
    /// An empty journal: no slot has a value.
    pub fn new() -> (r: UniformStore)
        ensures
            r@ =~= Seq::<UniformRecord>::empty(),
    {
        UniformStore { writes: Vec::new() }
    }

    /// Track one command against the journal.
    pub fn apply(&mut self, c: &GlCommand)
        ensures
            final(self)@ == uniform_effect(old(self)@, *c),
    {
        match c {
            GlCommand::Uniform1i { program, name, value } => {
                self.writes.push(
                    UniformWrite {
                        program: *program,
                        name: name.clone(),
                        value: UniformValue::Int(*value),
                    },
                );
            },
            GlCommand::UniformMatrix4 { program, name, matrix } => {
                self.writes.push(
                    UniformWrite {
                        program: *program,
                        name: name.clone(),
                        value: UniformValue::Matrix4(*matrix),
                    },
                );
            },
            GlCommand::Uniform3f { program, name, vector } => {
                self.writes.push(
                    UniformWrite {
                        program: *program,
                        name: name.clone(),
                        value: UniformValue::Vector3(*vector),
                    },
                );
            },
            _ => {},
        }
        proof {
            assert(self@ =~= uniform_effect(old(self)@, *c));
        }
    }

    /// Read a uniform slot back.
    pub fn get(&self, program: u32, name: &str) -> (r: Option<UniformValue>)
        ensures
            r == lookup(self@, program, name@),
    {
        let mut i: usize = self.writes.len();
        proof {
            assert(self@.subrange(0, i as int) =~= self@);
        }
        while i > 0
            invariant
                i <= self.writes.len(),
                lookup(self@, program, name@) == lookup(
                    self@.subrange(0, i as int),
                    program,
                    name@,
                ),
            decreases i,
        {
            let w = &self.writes[i - 1];
            let name_hit = str_eq(w.name.as_str(), name);
            if w.program == program && name_hit {
                proof {
                    assert(self@.subrange(0, i as int).last() == self@[i - 1]);
                }
                return Some(w.value);
            }
            proof {
                assert(self@.subrange(0, i as int).drop_last() =~= self@.subrange(0, i - 1));
                assert(self@.subrange(0, i as int).last() == self@[i - 1]);
            }
            i = i - 1;
        }
        proof {
            assert(self@.subrange(0, 0) =~= Seq::<UniformRecord>::empty());
        }
        None
    }
}

/// The diagnostic name of a GL error flag, for the codes the original debug
/// helper distinguishes; any other code has no name here.
pub fn gl_error_name(code: u32) -> (r: Option<&'static str>)
    ensures
        code == GL_INVALID_ENUM ==> (r matches Some(s) && s@ == "INVALID_ENUM"@),
        code == GL_INVALID_VALUE ==> (r matches Some(s) && s@ == "INVALID_VALUE"@),
        code == GL_INVALID_OPERATION ==> (r matches Some(s) && s@ == "INVALID_OPERATION"@),
        code == GL_STACK_OVERFLOW ==> (r matches Some(s) && s@ == "STACK_OVERFLOW"@),
        code == GL_OUT_OF_MEMORY ==> (r matches Some(s) && s@ == "OUT_OF_MEMORY"@),
        code == GL_INVALID_FRAMEBUFFER_OPERATION ==> (r matches Some(s) && s@
            == "INVALID_FRAMEBUFFER_OPERATION"@),
        code != GL_INVALID_ENUM && code != GL_INVALID_VALUE && code != GL_INVALID_OPERATION && code
            != GL_STACK_OVERFLOW && code != GL_OUT_OF_MEMORY && code
            != GL_INVALID_FRAMEBUFFER_OPERATION ==> r is None,
{
    if code == GL_INVALID_ENUM {
        Some("INVALID_ENUM")
    } else if code == GL_INVALID_VALUE {
        Some("INVALID_VALUE")
    } else if code == GL_INVALID_OPERATION {
        Some("INVALID_OPERATION")
    } else if code == GL_STACK_OVERFLOW {
        Some("STACK_OVERFLOW")
    } else if code == GL_OUT_OF_MEMORY {
        Some("OUT_OF_MEMORY")
    } else if code == GL_INVALID_FRAMEBUFFER_OPERATION {
        Some("INVALID_FRAMEBUFFER_OPERATION")
    } else {
        None
    }
}

} // verus!
