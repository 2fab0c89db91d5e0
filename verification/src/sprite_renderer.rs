//! The quad renderer and its per-draw model transform.
//!
//! The renderer owns a unit quad (two triangles, four fixed-point values per
//! vertex: position x, y and texture coordinate u, v) and, per draw, builds
//! the model matrix
//! `M = Translate(position) * Translate(size/2) * RotateZ(angle) * Translate(-size/2) * Scale(size.x, size.y, 1)`,
//! which rotates the sprite about its own center and anchors its top-left
//! corner at `position`. Writing the product out, the linear block is
//! `[[cos*w, -sin*h], [sin*w, cos*h]]` and the translation is
//! `position + size/2 - R*(size/2)`; with [`Mat4`]'s denominator of
//! `2 * FX_SCALE * FX_SCALE` every entry below is an exact integer, so the
//! contract states each of the sixteen entries to the bit.

use crate::fx::{Angle, Mat4, Vec2, Vec3, FX_SCALE, MAT_SCALE};
use crate::gl_state::{
    GlCommand, GL_ARRAY_BUFFER, GL_FLOAT, GL_STATIC_DRAW, GL_TEXTURE0, GL_TEXTURE_2D, GL_TRIANGLES,
};
use crate::shader::{nul_free, Shader};
use crate::texture::Texture;
use vstd::prelude::*;

verus! {

/// The largest coordinate magnitude (as a raw fixed-point numerator) the
/// transform accepts; it keeps every matrix entry inside `i64`.
pub const COORD_LIMIT: i64 = 2147483648;

/// What one draw call needs: where the sprite sits, how large it is, how far
/// it is rotated about its center, and its RGB tint.
#[derive(Clone, Copy, Debug, PartialEq, Eq, Structural)]
pub struct RenderOptions {
    pub position: Vec2,
    pub size: Vec2,
    pub rotate: Angle,
    pub color: Vec3,
}

/// The inputs under which the model transform is computed: coordinates
/// within [`COORD_LIMIT`] and a cosine and sine within one.
pub open spec fn in_draw_bounds(opts: RenderOptions) -> bool {
    &&& -COORD_LIMIT <= opts.position.x.raw <= COORD_LIMIT
    &&& -COORD_LIMIT <= opts.position.y.raw <= COORD_LIMIT
    &&& -COORD_LIMIT <= opts.size.x.raw <= COORD_LIMIT
    &&& -COORD_LIMIT <= opts.size.y.raw <= COORD_LIMIT
    &&& -FX_SCALE <= opts.rotate.cos.raw <= FX_SCALE
    &&& -FX_SCALE <= opts.rotate.sin.raw <= FX_SCALE
}

/// Whether `m` is exactly the model matrix of `opts`, entry by entry, over
/// the raw numerators (`c`, `s` the rotation's cosine and sine, `w`, `h` the
/// size, `px`, `py` the position).
pub open spec fn is_model_matrix(m: Mat4, opts: RenderOptions) -> bool {
    let c = opts.rotate.cos.raw as int;
    let s = opts.rotate.sin.raw as int;
    let w = opts.size.x.raw as int;
    let h = opts.size.y.raw as int;
    let px = opts.position.x.raw as int;
    let py = opts.position.y.raw as int;
    &&& m.m00 == 2 * (c * w)
    &&& m.m01 == -2 * (s * h)
    &&& m.m02 == 0
    &&& m.m03 == 2 * FX_SCALE * px + FX_SCALE * w - c * w + s * h
    &&& m.m10 == 2 * (s * w)
    &&& m.m11 == 2 * (c * h)
    &&& m.m12 == 0
    &&& m.m13 == 2 * FX_SCALE * py + FX_SCALE * h - s * w - c * h
    &&& m.m20 == 0
    &&& m.m21 == 0
    &&& m.m22 == MAT_SCALE
    &&& m.m23 == 0
    &&& m.m30 == 0
    &&& m.m31 == 0
    &&& m.m32 == 0
    &&& m.m33 == MAT_SCALE
}

proof fn lemma_trig_coord_mul_bound(a: int, b: int)
    requires
        -65536 <= a <= 65536,
        -2147483648 <= b <= 2147483648,
    ensures
        -140737488355328 <= a * b <= 140737488355328,
{
    assert(-140737488355328 <= a * b <= 140737488355328) by (nonlinear_arith)
        requires
            -65536 <= a <= 65536,
            -2147483648 <= b <= 2147483648,
    ;
}

/// The model matrix of `opts`, computed exactly.
pub fn model_matrix(opts: &RenderOptions) -> (m: Mat4)
    requires
        in_draw_bounds(*opts),
    ensures
        is_model_matrix(m, *opts),
{
    let c: i64 = opts.rotate.cos.raw;
    let s: i64 = opts.rotate.sin.raw;
    let w: i64 = opts.size.x.raw;
    let h: i64 = opts.size.y.raw;
    let px: i64 = opts.position.x.raw;
    let py: i64 = opts.position.y.raw;
    proof {
        lemma_trig_coord_mul_bound(c as int, w as int);
        lemma_trig_coord_mul_bound(c as int, h as int);
        lemma_trig_coord_mul_bound(s as int, w as int);
        lemma_trig_coord_mul_bound(s as int, h as int);
    }
    let cw: i64 = c * w;
    let ch: i64 = c * h;
    let sw: i64 = s * w;
    let sh: i64 = s * h;
    Mat4 {
        m00: 2 * cw,
        m01: -(2 * sh),
        m02: 0,
        m03: 2 * FX_SCALE * px + FX_SCALE * w - cw + sh,
        m10: 2 * sw,
        m11: 2 * ch,
        m12: 0,
        m13: 2 * FX_SCALE * py + FX_SCALE * h - sw - ch,
        m20: 0,
        m21: 0,
        m22: MAT_SCALE,
        m23: 0,
        m30: 0,
        m31: 0,
        m32: 0,
        m33: MAT_SCALE,
    }
}

/// The pure scale matrix `Scale(w, h, 1)` over raw numerators `w`, `h`.
pub open spec fn scale_matrix(w: int, h: int) -> Mat4 {
    Mat4 {
        m00: (2 * FX_SCALE * w) as i64,
        m01: 0,
        m02: 0,
        m03: 0,
        m10: 0,
        m11: (2 * FX_SCALE * h) as i64,
        m12: 0,
        m13: 0,
        m20: 0,
        m21: 0,
        m22: MAT_SCALE,
        m23: 0,
        m30: 0,
        m31: 0,
        m32: 0,
        m33: MAT_SCALE,
    }
}

/// With no rotation and the anchor at the origin, the model transform is
/// exactly `Scale(w, h, 1)`: identity rotation terms and zero translation.
pub proof fn lemma_unrotated_at_origin_is_scale(m: Mat4, opts: RenderOptions)
    requires
        is_model_matrix(m, opts),
        opts.rotate.cos.raw == FX_SCALE,
        opts.rotate.sin.raw == 0,
        opts.position.x.raw == 0,
        opts.position.y.raw == 0,
    ensures
        m == scale_matrix(opts.size.x.raw as int, opts.size.y.raw as int),
{
}

/// Numerator, over `2 * MAT_SCALE`, of the world x coordinate the model
/// transform gives the unit-quad center `(1/2, 1/2)`.
pub open spec fn center_map_x(m: Mat4) -> int {
    m.m00 + m.m01 + 2 * m.m03
}

/// Numerator, over `2 * MAT_SCALE`, of the world y coordinate the model
/// transform gives the unit-quad center `(1/2, 1/2)`.
pub open spec fn center_map_y(m: Mat4) -> int {
    m.m10 + m.m11 + 2 * m.m13
}

/// A half turn maps the sprite's center to `(px + w/2, py + h/2)` — in
/// numerators over `2 * MAT_SCALE`, to `(4*FX_SCALE*px + 2*FX_SCALE*w,
/// 4*FX_SCALE*py + 2*FX_SCALE*h)`.
pub proof fn lemma_half_turn_fixes_center(m: Mat4, opts: RenderOptions)
    requires
        is_model_matrix(m, opts),
        opts.rotate.cos.raw == -FX_SCALE,
        opts.rotate.sin.raw == 0,
    ensures
        center_map_x(m) == 4 * FX_SCALE * opts.position.x.raw + 2 * FX_SCALE * opts.size.x.raw,
        center_map_y(m) == 4 * FX_SCALE * opts.position.y.raw + 2 * FX_SCALE * opts.size.y.raw,
{
    let c = opts.rotate.cos.raw as int;
    let s = opts.rotate.sin.raw as int;
    let w = opts.size.x.raw as int;
    let h = opts.size.y.raw as int;
    let px = opts.position.x.raw as int;
    let py = opts.position.y.raw as int;
    assert(c * w == -65536 * w && c * h == -65536 * h && s * w == 0 && s * h == 0)
        by (nonlinear_arith)
        requires
            c == -65536,
            s == 0,
    ;
    assert(m.m00 == -131072 * w);
    assert(m.m01 == 0);
    assert(m.m03 == 131072 * px + 131072 * w);
    assert(center_map_x(m) == 262144 * px + 131072 * w);
    assert(4 * FX_SCALE * opts.position.x.raw + 2 * FX_SCALE * opts.size.x.raw == 262144 * px
        + 131072 * w);
}

/// With no rotation the sprite's center sits at the same point `(px + w/2,
/// py + h/2)`: together with [`lemma_half_turn_fixes_center`], the center is
/// invariant under the rotation step — the transform pivots about the
/// sprite's center, not its corner.
pub proof fn lemma_unrotated_center(m: Mat4, opts: RenderOptions)
    requires
        is_model_matrix(m, opts),
        opts.rotate.cos.raw == FX_SCALE,
        opts.rotate.sin.raw == 0,
    ensures
        center_map_x(m) == 4 * FX_SCALE * opts.position.x.raw + 2 * FX_SCALE * opts.size.x.raw,
        center_map_y(m) == 4 * FX_SCALE * opts.position.y.raw + 2 * FX_SCALE * opts.size.y.raw,
{
    let c = opts.rotate.cos.raw as int;
    let s = opts.rotate.sin.raw as int;
    let w = opts.size.x.raw as int;
    let h = opts.size.y.raw as int;
    let px = opts.position.x.raw as int;
    let py = opts.position.y.raw as int;
    assert(c * w == 65536 * w && c * h == 65536 * h && s * w == 0 && s * h == 0)
        by (nonlinear_arith)
        requires
            c == 65536,
            s == 0,
    ;
    assert(m.m00 == 131072 * w);
    assert(m.m01 == 0);
    assert(m.m03 == 131072 * px);
    assert(center_map_x(m) == 262144 * px + 131072 * w);
    assert(m.m10 == 0);
    assert(m.m11 == 131072 * h);
    assert(m.m13 == 131072 * py);
    assert(center_map_y(m) == 262144 * py + 131072 * h);
}

/// The unit quad: six vertices of two triangles covering the unit square,
/// each vertex four raw fixed-point values — position x, y then texture
/// coordinate u, v.
pub open spec fn unit_quad_raw() -> Seq<i64> {
    seq![
        0, FX_SCALE, 0, FX_SCALE,
        FX_SCALE, 0, FX_SCALE, 0,
        0, 0, 0, 0,
        0, FX_SCALE, 0, FX_SCALE,
        FX_SCALE, FX_SCALE, FX_SCALE, FX_SCALE,
        FX_SCALE, 0, FX_SCALE, 0,
    ]
}

/// The unit-quad vertex data, as uploaded once at renderer creation.
pub fn unit_quad_vertices() -> (v: Vec<i64>)
    ensures
        v@ == unit_quad_raw(),
{
    let v: Vec<i64> = vec![
        0, FX_SCALE, 0, FX_SCALE,
        FX_SCALE, 0, FX_SCALE, 0,
        0, 0, 0, 0,
        0, FX_SCALE, 0, FX_SCALE,
        FX_SCALE, FX_SCALE, FX_SCALE, FX_SCALE,
        FX_SCALE, 0, FX_SCALE, 0,
    ];
    proof {
        assert(v@ =~= unit_quad_raw());
    }
    v
}

/// The quad renderer: its vertex-array handle and the shader program it
/// draws with. It borrows the program; the program must outlive the
/// renderer.
pub struct SpriteRenderer<'a> {
    pub vao: u32,
    pub shader: &'a Shader,
}

impl<'a> SpriteRenderer<'a> {
    /// Build the renderer around fresh vertex-array and buffer handles and
    /// emit its one-time setup: upload the unit quad into the buffer and
    /// record the four-value vertex layout in the vertex array, leaving both
    /// unbound again.
    pub fn new(shader: &'a Shader, vao: u32, vbo: u32) -> (r: (SpriteRenderer<'a>, Vec<GlCommand>))
        ensures
            r.0.vao == vao,
            r.0.shader == shader,
            r.1@.len() == 7,
            r.1@[0] == (GlCommand::BindBuffer { target: GL_ARRAY_BUFFER, buffer: vbo }),
            r.1@[1] matches GlCommand::BufferData { target, data, usage } && target
                == GL_ARRAY_BUFFER && data@ == unit_quad_raw() && usage == GL_STATIC_DRAW,
            r.1@[2] == (GlCommand::BindVertexArray { array: vao }),
            r.1@[3] == (GlCommand::EnableVertexAttribArray { index: 0 }),
            r.1@[4] == (GlCommand::VertexAttribPointer {
                index: 0,
                size: 4,
                ty: GL_FLOAT,
                normalized: false,
                stride: 16,
            }),
            r.1@[5] == (GlCommand::BindBuffer { target: GL_ARRAY_BUFFER, buffer: 0 }),
            r.1@[6] == (GlCommand::BindVertexArray { array: 0 }),
    {
        let mut cmds: Vec<GlCommand> = Vec::new();
        cmds.push(GlCommand::BindBuffer { target: GL_ARRAY_BUFFER, buffer: vbo });
        cmds.push(
            GlCommand::BufferData {
                target: GL_ARRAY_BUFFER,
                data: unit_quad_vertices(),
                usage: GL_STATIC_DRAW,
            },
        );
        cmds.push(GlCommand::BindVertexArray { array: vao });
        cmds.push(GlCommand::EnableVertexAttribArray { index: 0 });
        cmds.push(
            GlCommand::VertexAttribPointer {
                index: 0,
                size: 4,
                ty: GL_FLOAT,
                normalized: false,
                stride: 16,
            },
        );
        cmds.push(GlCommand::BindBuffer { target: GL_ARRAY_BUFFER, buffer: 0 });
        cmds.push(GlCommand::BindVertexArray { array: 0 });
        (SpriteRenderer { vao, shader }, cmds)
    }

    /// The command that releases the renderer's vertex array. The buffer
    /// handle was never retained, so it stays with the context.
    pub fn delete(&self) -> (r: GlCommand)
        ensures
            r == (GlCommand::DeleteVertexArray { array: self.vao }),
    {
        GlCommand::DeleteVertexArray { array: self.vao }
    }

    /// One draw: make the program current, upload the model matrix and tint,
    /// bind the texture on unit 0, and draw the six quad vertices from the
    /// renderer's vertex array, unbinding it afterwards.
    pub fn draw(&self, texture: &Texture, opts: &RenderOptions) -> (cmds: Vec<GlCommand>)
        requires
            in_draw_bounds(*opts),
        ensures
            cmds@.len() == 8,
            cmds@[0] == (GlCommand::UseProgram { program: self.shader.program }),
            cmds@[1] matches GlCommand::UniformMatrix4 { program, name, matrix } && program
                == self.shader.program && name@ == "model"@ && is_model_matrix(matrix, *opts),
            cmds@[2] matches GlCommand::Uniform3f { program, name, vector } && program
                == self.shader.program && name@ == "spriteColor"@ && vector == opts.color,
            cmds@[3] == (GlCommand::ActiveTexture { unit: GL_TEXTURE0 }),
            cmds@[4] == (GlCommand::BindTexture {
                target: GL_TEXTURE_2D,
                texture: texture.texture,
            }),
            cmds@[5] == (GlCommand::BindVertexArray { array: self.vao }),
            cmds@[6] == (GlCommand::DrawArrays { mode: GL_TRIANGLES, first: 0, count: 6 }),
            cmds@[7] == (GlCommand::BindVertexArray { array: 0 }),
    {
        let m = model_matrix(opts);
        proof {
            reveal_strlit("model");
            reveal_strlit("spriteColor");
            assert(nul_free("model"@));
            assert(nul_free("spriteColor"@));
        }
        let mut cmds: Vec<GlCommand> = Vec::new();
        cmds.push(self.shader.use_program());
        cmds.push(self.shader.set_mat4("model", &m));
        cmds.push(self.shader.set_vec3("spriteColor", &opts.color));
        cmds.push(GlCommand::ActiveTexture { unit: GL_TEXTURE0 });
        cmds.push(texture.bind());
        cmds.push(GlCommand::BindVertexArray { array: self.vao });
        cmds.push(GlCommand::DrawArrays { mode: GL_TRIANGLES, first: 0, count: 6 });
        cmds.push(GlCommand::BindVertexArray { array: 0 });
        cmds
    }
}

} // verus!
