use fidget_spinner::gl_state::{GlCommand, GlState};
use fidget_spinner::texture::{Dimensions, Texture, TextureErr, TextureOptions};

fn encode_png(width: u32, height: u32, pixels: &[u8]) -> Vec<u8> {
    let mut bytes: Vec<u8> = Vec::new();
    {
        let mut encoder = png::Encoder::new(&mut bytes, width, height);
        encoder.set_color(png::ColorType::Rgba);
        encoder.set_depth(png::BitDepth::Eight);
        let mut writer = encoder.write_header().unwrap();
        writer.write_image_data(pixels).unwrap();
    }
    bytes
}

fn rgba_options() -> TextureOptions {
    let mut options = TextureOptions::default();
    options.internal_format = 0x1908;
    options.image_format = 0x1908;
    options
}

#[test]
fn image_policy_stores_decoded_dimensions() {
    let pixels: Vec<u8> = (0..3 * 2 * 4).map(|i| i as u8).collect();
    let bytes = encode_png(3, 2, &pixels);
    let (texture, _) = Texture::new(&bytes, Dimensions::Image, &rgba_options(), 7).unwrap();
    assert_eq!(texture.texture, 7);
    assert_eq!(texture.width, 3);
    assert_eq!(texture.height, 2);
}

#[test]
fn custom_policy_stores_the_override() {
    let pixels: Vec<u8> = vec![0; 4];
    let bytes = encode_png(1, 1, &pixels);
    let (texture, _) = Texture::new(&bytes, Dimensions::Custom(10, 20), &rgba_options(), 7)
        .unwrap();
    assert_eq!(texture.width, 10);
    assert_eq!(texture.height, 20);
}

#[test]
fn garbage_bytes_are_a_decode_error() {
    let result = Texture::new(b"not a png at all", Dimensions::Image, &rgba_options(), 7);
    match result {
        Err(TextureErr::Decode(_)) => {}
        other => panic!("expected a decode error, got {:?}", other),
    }
}

#[test]
fn upload_commands_carry_the_decoded_pixels() {
    let pixels: Vec<u8> = (0..2 * 2 * 4).map(|i| (255 - i) as u8).collect();
    let bytes = encode_png(2, 2, &pixels);
    let options = rgba_options();
    let (_, cmds) = Texture::new(&bytes, Dimensions::Image, &options, 7).unwrap();
    assert_eq!(cmds.len(), 7);
    assert_eq!(cmds[0], GlCommand::BindTexture { target: 0x0DE1, texture: 7 });
    match &cmds[1] {
        GlCommand::TexImage2D { target, level, internal_format, width, height, format, ty, data } => {
            assert_eq!(*target, 0x0DE1);
            assert_eq!(*level, 0);
            assert_eq!(*internal_format, 0x1908);
            assert_eq!((*width, *height), (2, 2));
            assert_eq!(*format, 0x1908);
            assert_eq!(*ty, 0x1401);
            // The decoder really decoded: the upload holds the raw pixels,
            // not the PNG stream.
            assert_eq!(data.as_slice(), pixels.as_slice());
        }
        other => panic!("expected TexImage2D, got {:?}", other),
    }
    assert_eq!(
        cmds[2],
        GlCommand::TexParameteri { target: 0x0DE1, pname: 0x2802, param: options.wrap_s }
    );
    assert_eq!(
        cmds[3],
        GlCommand::TexParameteri { target: 0x0DE1, pname: 0x2803, param: options.wrap_t }
    );
    assert_eq!(
        cmds[4],
        GlCommand::TexParameteri { target: 0x0DE1, pname: 0x2801, param: options.filter_min }
    );
    assert_eq!(
        cmds[5],
        GlCommand::TexParameteri { target: 0x0DE1, pname: 0x2800, param: options.filter_mag }
    );
    assert_eq!(cmds[6], GlCommand::BindTexture { target: 0x0DE1, texture: 0 });
}

#[test]
fn default_options_are_repeat_rgb_linear() {
    let options = TextureOptions::default();
    assert_eq!(options.wrap_s, 0x2901);
    assert_eq!(options.wrap_t, 0x2901);
    assert_eq!(options.internal_format, 0x1907);
    assert_eq!(options.image_format, 0x1907);
    assert_eq!(options.filter_min, 0x2601);
    assert_eq!(options.filter_mag, 0x2601);
}

#[test]
fn binding_twice_is_idempotent() {
    let texture = Texture { texture: 9, width: 8, height: 8 };
    let mut once = GlState::initial();
    once.apply(&texture.bind());
    let mut twice = once;
    twice.apply(&texture.bind());
    assert_eq!(once, twice);
    assert_eq!(twice.texture_2d, 9);
}

#[test]
fn deleting_a_bound_texture_unbinds_it() {
    let texture = Texture { texture: 9, width: 8, height: 8 };
    let mut state = GlState::initial();
    state.apply(&texture.bind());
    assert_eq!(state.texture_2d, 9);
    state.apply(&texture.delete());
    assert_eq!(state.texture_2d, 0);
    // Deleting an unbound handle touches nothing.
    let other = Texture { texture: 4, width: 8, height: 8 };
    state.apply(&texture.bind());
    state.apply(&other.delete());
    assert_eq!(state.texture_2d, 9);
}
