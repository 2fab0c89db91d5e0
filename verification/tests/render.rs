use fidget_spinner::fx::{Angle, Fx, Vec2, Vec3, FX_SCALE, MAT_SCALE};
use fidget_spinner::gl_state::{GlCommand, GlState, UniformValue};
use fidget_spinner::shader::Shader;
use fidget_spinner::sprite_renderer::{model_matrix, RenderOptions, SpriteRenderer};
use fidget_spinner::texture::Texture;

fn opts(px: i32, py: i32, w: i32, h: i32, rotate: Angle) -> RenderOptions {
    RenderOptions {
        position: Vec2 { x: Fx::from_int(px), y: Fx::from_int(py) },
        size: Vec2 { x: Fx::from_int(w), y: Fx::from_int(h) },
        rotate,
        color: Vec3 { x: Fx::zero(), y: Fx::one(), z: Fx::zero() },
    }
}

#[test]
fn model_matrix_without_rotation_is_scale() {
    let m = model_matrix(&opts(0, 0, 500, 300, Angle::zero()));
    let w: i64 = 500 * FX_SCALE;
    let h: i64 = 300 * FX_SCALE;
    // Pure Scale(500, 300, 1): diagonal entries, zero translation.
    assert_eq!(m.m00, 2 * FX_SCALE * w);
    assert_eq!(m.m11, 2 * FX_SCALE * h);
    assert_eq!(m.m22, MAT_SCALE);
    assert_eq!(m.m33, MAT_SCALE);
    assert_eq!((m.m01, m.m02, m.m03), (0, 0, 0));
    assert_eq!((m.m10, m.m12, m.m13), (0, 0, 0));
    assert_eq!((m.m20, m.m21, m.m23), (0, 0, 0));
    assert_eq!((m.m30, m.m31, m.m32), (0, 0, 0));
    // In plain units: the matrix maps (1, 1) to (500, 300).
    assert_eq!(m.m00 as f64 / MAT_SCALE as f64, 500.0);
    assert_eq!(m.m11 as f64 / MAT_SCALE as f64, 300.0);
}

#[test]
fn half_turn_pivots_about_the_center() {
    let px: i64 = 100 * FX_SCALE;
    let py: i64 = 200 * FX_SCALE;
    let w: i64 = 500 * FX_SCALE;
    let h: i64 = 400 * FX_SCALE;
    let m180 = model_matrix(&opts(100, 200, 500, 400, Angle::half_turn()));
    let m0 = model_matrix(&opts(100, 200, 500, 400, Angle::zero()));
    // The unit-quad center (1/2, 1/2) lands on (px + w/2, py + h/2) under
    // both matrices: the rotation pivots about the sprite's center.
    let center = |m: fidget_spinner::fx::Mat4| (m.m00 + m.m01 + 2 * m.m03, m.m10 + m.m11 + 2 * m.m13);
    assert_eq!(center(m180), (4 * FX_SCALE * px + 2 * FX_SCALE * w, 4 * FX_SCALE * py + 2 * FX_SCALE * h));
    assert_eq!(center(m180), center(m0));
    // In plain units: the center sits at (350, 400).
    let (cx, cy) = center(m180);
    assert_eq!(cx as f64 / (2.0 * MAT_SCALE as f64), 350.0);
    assert_eq!(cy as f64 / (2.0 * MAT_SCALE as f64), 400.0);
    // And a half turn negates the linear part of the unrotated matrix.
    assert_eq!(m180.m00, -m0.m00);
    assert_eq!(m180.m11, -m0.m11);
}

#[test]
fn renderer_setup_uploads_the_unit_quad() {
    let shader = Shader::new(3);
    let (renderer, cmds) = SpriteRenderer::new(&shader, 5, 6);
    assert_eq!(renderer.vao, 5);
    assert_eq!(renderer.shader.program, 3);
    assert_eq!(cmds.len(), 7);
    assert_eq!(cmds[0], GlCommand::BindBuffer { target: 0x8892, buffer: 6 });
    match &cmds[1] {
        GlCommand::BufferData { target, data, usage } => {
            assert_eq!(*target, 0x8892);
            assert_eq!(*usage, 0x88E4);
            let s = FX_SCALE;
            assert_eq!(
                data.as_slice(),
                &[
                    0, s, 0, s, s, 0, s, 0, 0, 0, 0, 0, 0, s, 0, s, s, s, s, s, s, 0, s, 0,
                ]
            );
        }
        other => panic!("expected BufferData, got {:?}", other),
    }
    assert_eq!(cmds[2], GlCommand::BindVertexArray { array: 5 });
    assert_eq!(cmds[3], GlCommand::EnableVertexAttribArray { index: 0 });
    assert_eq!(
        cmds[4],
        GlCommand::VertexAttribPointer { index: 0, size: 4, ty: 0x1406, normalized: false, stride: 16 }
    );
    assert_eq!(cmds[5], GlCommand::BindBuffer { target: 0x8892, buffer: 0 });
    assert_eq!(cmds[6], GlCommand::BindVertexArray { array: 0 });
}

#[test]
fn draw_emits_the_exact_command_sequence() {
    let shader = Shader::new(3);
    let (renderer, _) = SpriteRenderer::new(&shader, 5, 6);
    let texture = Texture { texture: 9, width: 64, height: 64 };
    let options = opts(0, 0, 500, 500, Angle::zero());
    let cmds = renderer.draw(&texture, &options);
    assert_eq!(cmds.len(), 8);
    assert_eq!(cmds[0], GlCommand::UseProgram { program: 3 });
    match &cmds[1] {
        GlCommand::UniformMatrix4 { program, name, matrix } => {
            assert_eq!(*program, 3);
            assert_eq!(name, "model");
            assert_eq!(*matrix, model_matrix(&options));
        }
        other => panic!("expected UniformMatrix4, got {:?}", other),
    }
    match &cmds[2] {
        GlCommand::Uniform3f { program, name, vector } => {
            assert_eq!(*program, 3);
            assert_eq!(name, "spriteColor");
            assert_eq!(*vector, options.color);
        }
        other => panic!("expected Uniform3f, got {:?}", other),
    }
    assert_eq!(cmds[3], GlCommand::ActiveTexture { unit: 0x84C0 });
    assert_eq!(cmds[4], GlCommand::BindTexture { target: 0x0DE1, texture: 9 });
    assert_eq!(cmds[5], GlCommand::BindVertexArray { array: 5 });
    assert_eq!(cmds[6], GlCommand::DrawArrays { mode: 0x0004, first: 0, count: 6 });
    assert_eq!(cmds[7], GlCommand::BindVertexArray { array: 0 });
}

#[test]
fn draw_leaves_the_expected_bindings() {
    let shader = Shader::new(3);
    let (renderer, _) = SpriteRenderer::new(&shader, 5, 6);
    let texture = Texture { texture: 9, width: 64, height: 64 };
    let options = opts(0, 0, 500, 500, Angle::zero());
    let mut state = GlState::initial();
    for cmd in renderer.draw(&texture, &options).iter() {
        state.apply(cmd);
    }
    assert_eq!(state.program, 3);
    assert_eq!(state.active_unit, 0x84C0);
    assert_eq!(state.texture_2d, 9);
    assert_eq!(state.vertex_array, 0);
}

#[test]
fn uniform_values_survive_a_draw() {
    let shader = Shader::new(3);
    let (renderer, _) = SpriteRenderer::new(&shader, 5, 6);
    let texture = Texture { texture: 9, width: 64, height: 64 };
    let options = opts(0, 0, 500, 500, Angle::zero());
    let mut store = fidget_spinner::gl_state::UniformStore::new();
    for cmd in renderer.draw(&texture, &options).iter() {
        store.apply(cmd);
    }
    assert_eq!(
        store.get(3, "model"),
        Some(UniformValue::Matrix4(model_matrix(&options)))
    );
    assert_eq!(store.get(3, "spriteColor"), Some(UniformValue::Vector3(options.color)));
}

#[test]
fn deleting_the_renderer_releases_its_vertex_array() {
    let shader = Shader::new(3);
    let (renderer, _) = SpriteRenderer::new(&shader, 5, 6);
    assert_eq!(renderer.delete(), GlCommand::DeleteVertexArray { array: 5 });
    let mut state = GlState::initial();
    state.apply(&GlCommand::BindVertexArray { array: 5 });
    state.apply(&renderer.delete());
    assert_eq!(state.vertex_array, 0);
}
