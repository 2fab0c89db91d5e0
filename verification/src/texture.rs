//! Texture creation and binding.
//!
//! A texture is decoded from PNG bytes by the `png` crate behind one trusted
//! wrapper; everything after the decode — the dimension policy, the upload
//! command stream built from the caller's sampling options, and the stored
//! size — is verified. The dimension policy says the stored width and height
//! are either exactly the decoded image's own, or exactly the caller's
//! override, fixed at creation.

use crate::gl_state::{
    GlCommand, GL_LINEAR, GL_REPEAT, GL_RGB, GL_TEXTURE_2D, GL_TEXTURE_MAG_FILTER,
    GL_TEXTURE_MIN_FILTER, GL_TEXTURE_WRAP_S, GL_TEXTURE_WRAP_T, GL_UNSIGNED_BYTE,
};
use vstd::prelude::*;

verus! {

/// Sampling and format options for a new texture, as raw GL enum values.
/// The caller must keep `internal_format` and `image_format` consistent with
/// the decoded data's channel layout; the upload itself cannot check them.
#[derive(Clone, Copy, Debug, PartialEq, Eq, Structural)]
pub struct TextureOptions {
    pub wrap_s: i32,
    pub wrap_t: i32,
    pub internal_format: i32,
    pub image_format: u32,
    pub filter_min: i32,
    pub filter_mag: i32,
}

impl TextureOptions {
    /// Repeat wrapping on both axes, RGB formats, linear filtering.
    pub fn default() -> (r: TextureOptions)
        ensures
            r.wrap_s == GL_REPEAT as i32,
            r.wrap_t == GL_REPEAT as i32,
            r.internal_format == GL_RGB as i32,
            r.image_format == GL_RGB,
            r.filter_min == GL_LINEAR as i32,
            r.filter_mag == GL_LINEAR as i32,
    {
        TextureOptions {
            wrap_s: GL_REPEAT as i32,
            wrap_t: GL_REPEAT as i32,
            internal_format: GL_RGB as i32,
            image_format: GL_RGB,
            filter_min: GL_LINEAR as i32,
            filter_mag: GL_LINEAR as i32,
        }
    }
}

/// Where a new texture's stored dimensions come from: the decoded image
/// itself, or a caller-supplied width and height.
#[derive(Clone, Copy, Debug, PartialEq, Eq, Structural)]
pub enum Dimensions {
    Image,
    Custom(u32, u32),
}

/// The stored width under the dimension policy.
pub open spec fn chosen_width(dim: Dimensions, image_width: u32) -> u32 {
    match dim {
        Dimensions::Image => image_width,
        Dimensions::Custom(w, _) => w,
    }
}

/// The stored height under the dimension policy.
pub open spec fn chosen_height(dim: Dimensions, image_height: u32) -> u32 {
    match dim {
        Dimensions::Image => image_height,
        Dimensions::Custom(_, h) => h,
    }
}

/// A PNG image decoded into memory: its pixel dimensions and the packed
/// row-major sample bytes.
#[derive(Clone, Debug, PartialEq)]
pub struct DecodedImage {
    pub width: u32,
    pub height: u32,
    pub data: Vec<u8>,
}

/// Texture creation failure: the bytes were not a decodable PNG.
#[derive(Clone, Debug, PartialEq)]
pub enum TextureErr {
    Decode(String),
}

/// What the PNG decoder makes of a byte stream: nothing if it rejects the
/// stream, else the reported `(width, height)` and the packed row-major
/// sample bytes of the first frame. A function of the bytes alone.
pub uninterp spec fn png_result_of(bytes: Seq<u8>) -> Option<(u32, u32, Seq<u8>)>;

/// Relies on `png::Decoder` / `png::Reader::next_frame`: decodes the first
/// frame of a PNG byte stream into a packed sample buffer. Whether the
/// stream is accepted, and the dimensions and samples it yields, depend on
/// the bytes alone.
#[verifier::external_body]
fn decode_png(bytes: &[u8]) -> (r: Result<DecodedImage, String>)
    ensures
        r is Ok <==> png_result_of(bytes@) is Some,
        r matches Ok(img) ==> png_result_of(bytes@) matches Some(d) && d.0 == img.width && d.1
            == img.height && d.2 == img.data@,
{
    let decoder = png::Decoder::new(std::io::Cursor::new(bytes));
    let mut reader = match decoder.read_info() {
        Ok(reader) => reader,
        Err(e) => return Err(format!("{}", e)),
    };
    let size = match reader.output_buffer_size() {
        Some(size) => size,
        None => return Err(format!("image exceeds the address space")),
    };
    let mut data = vec![0u8; size];
    match reader.next_frame(&mut data) {
        Ok(info) => Ok(DecodedImage { width: info.width, height: info.height, data }),
        Err(e) => Err(format!("{}", e)),
    }
}

/// A 2D texture: its GL handle and its stored dimensions.
#[derive(Clone, Copy, Debug, PartialEq, Eq, Structural)]
pub struct Texture {
    pub texture: u32,
    pub width: u32,
    pub height: u32,
}

impl Texture {
    /// Build a texture from an already decoded image: pick the stored
    /// dimensions by `dim`, and emit the upload commands — bind the handle,
    /// upload the buffer as mip level 0 with the caller's formats, set the
    /// four sampling parameters, unbind.
    pub fn from_image(img: DecodedImage, dim: Dimensions, opts: &TextureOptions, handle: u32) -> (r:
        (Texture, Vec<GlCommand>))
        ensures
            r.0 == (Texture {
                texture: handle,
                width: chosen_width(dim, img.width),
                height: chosen_height(dim, img.height),
            }),
            dim == Dimensions::Image ==> r.0.width == img.width && r.0.height == img.height,
            r.1@.len() == 7,
            r.1@[0] == (GlCommand::BindTexture { target: GL_TEXTURE_2D, texture: handle }),
            r.1@[1] matches GlCommand::TexImage2D {
                target,
                level,
                internal_format,
                width,
                height,
                format,
                ty,
                data,
            } && target == GL_TEXTURE_2D && level == 0 && internal_format == opts.internal_format
                && width == chosen_width(dim, img.width) && height == chosen_height(dim, img.height)
                && format == opts.image_format && ty == GL_UNSIGNED_BYTE && data@ == img.data@,
            r.1@[2] == (GlCommand::TexParameteri {
                target: GL_TEXTURE_2D,
                pname: GL_TEXTURE_WRAP_S,
                param: opts.wrap_s,
            }),
            r.1@[3] == (GlCommand::TexParameteri {
                target: GL_TEXTURE_2D,
                pname: GL_TEXTURE_WRAP_T,
                param: opts.wrap_t,
            }),
            r.1@[4] == (GlCommand::TexParameteri {
                target: GL_TEXTURE_2D,
                pname: GL_TEXTURE_MIN_FILTER,
                param: opts.filter_min,
            }),
            r.1@[5] == (GlCommand::TexParameteri {
                target: GL_TEXTURE_2D,
                pname: GL_TEXTURE_MAG_FILTER,
                param: opts.filter_mag,
            }),
            r.1@[6] == (GlCommand::BindTexture { target: GL_TEXTURE_2D, texture: 0 }),
    {
        let (width, height) = match dim {
            Dimensions::Custom(w, h) => (w, h),
            Dimensions::Image => (img.width, img.height),
        };
        let mut cmds: Vec<GlCommand> = Vec::new();
        cmds.push(GlCommand::BindTexture { target: GL_TEXTURE_2D, texture: handle });
        cmds.push(
            GlCommand::TexImage2D {
                target: GL_TEXTURE_2D,
                level: 0,
                internal_format: opts.internal_format,
                width,
                height,
                format: opts.image_format,
                ty: GL_UNSIGNED_BYTE,
                data: img.data,
            },
        );
        cmds.push(
            GlCommand::TexParameteri {
                target: GL_TEXTURE_2D,
                pname: GL_TEXTURE_WRAP_S,
                param: opts.wrap_s,
            },
        );
        cmds.push(
            GlCommand::TexParameteri {
                target: GL_TEXTURE_2D,
                pname: GL_TEXTURE_WRAP_T,
                param: opts.wrap_t,
            },
        );
        cmds.push(
            GlCommand::TexParameteri {
                target: GL_TEXTURE_2D,
                pname: GL_TEXTURE_MIN_FILTER,
                param: opts.filter_min,
            },
        );
        cmds.push(
            GlCommand::TexParameteri {
                target: GL_TEXTURE_2D,
                pname: GL_TEXTURE_MAG_FILTER,
                param: opts.filter_mag,
            },
        );
        cmds.push(GlCommand::BindTexture { target: GL_TEXTURE_2D, texture: 0 });
        (Texture { texture: handle, width, height }, cmds)
    }

    /// Decode PNG bytes and build the texture from the decoded image. It
    /// succeeds exactly when the decoder accepts the bytes; the stored
    /// dimensions then follow the policy over the decoder-reported size, and
    /// the commands are the full upload stream of [`Texture::from_image`].
    pub fn new(bytes: &[u8], dim: Dimensions, opts: &TextureOptions, handle: u32) -> (r: Result<
        (Texture, Vec<GlCommand>),
        TextureErr,
    >)
        ensures
            r is Ok <==> png_result_of(bytes@) is Some,
            r matches Ok(p) ==> png_result_of(bytes@) matches Some(d) && ({
                &&& p.0 == (Texture {
                    texture: handle,
                    width: chosen_width(dim, d.0),
                    height: chosen_height(dim, d.1),
                })
                &&& dim == Dimensions::Image ==> p.0.width == d.0 && p.0.height == d.1
                &&& p.1@.len() == 7
                &&& p.1@[0] == (GlCommand::BindTexture { target: GL_TEXTURE_2D, texture: handle })
                &&& p.1@[1] matches GlCommand::TexImage2D {
                    target,
                    level,
                    internal_format,
                    width,
                    height,
                    format,
                    ty,
                    data,
                } && target == GL_TEXTURE_2D && level == 0 && internal_format
                    == opts.internal_format && width == chosen_width(dim, d.0) && height
                    == chosen_height(dim, d.1) && format == opts.image_format && ty
                    == GL_UNSIGNED_BYTE && data@ == d.2
                &&& p.1@[2] == (GlCommand::TexParameteri {
                    target: GL_TEXTURE_2D,
                    pname: GL_TEXTURE_WRAP_S,
                    param: opts.wrap_s,
                })
                &&& p.1@[3] == (GlCommand::TexParameteri {
                    target: GL_TEXTURE_2D,
                    pname: GL_TEXTURE_WRAP_T,
                    param: opts.wrap_t,
                })
                &&& p.1@[4] == (GlCommand::TexParameteri {
                    target: GL_TEXTURE_2D,
                    pname: GL_TEXTURE_MIN_FILTER,
                    param: opts.filter_min,
                })
                &&& p.1@[5] == (GlCommand::TexParameteri {
                    target: GL_TEXTURE_2D,
                    pname: GL_TEXTURE_MAG_FILTER,
                    param: opts.filter_mag,
                })
                &&& p.1@[6] == (GlCommand::BindTexture { target: GL_TEXTURE_2D, texture: 0 })
            }),
    {
        match decode_png(bytes) {
            Ok(img) => {
                let r = Texture::from_image(img, dim, opts, handle);
                Ok(r)
            },
            Err(e) => Err(TextureErr::Decode(e)),
        }
    }

    /// The command that releases this texture's handle.
    pub fn delete(&self) -> (r: GlCommand)
        ensures
            r == (GlCommand::DeleteTexture { texture: self.texture }),
    {
        GlCommand::DeleteTexture { texture: self.texture }
    }

    /// The command that binds this texture to the `GL_TEXTURE_2D` target of
    /// the active texture unit; the caller activates the unit it wants
    /// first.
    pub fn bind(&self) -> (r: GlCommand)
        ensures
            r == (GlCommand::BindTexture { target: GL_TEXTURE_2D, texture: self.texture }),
    {
        GlCommand::BindTexture { target: GL_TEXTURE_2D, texture: self.texture }
    }
}

} // verus!
