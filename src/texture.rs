use vstd::prelude::*;
use crate::device::{run, DeviceState, TexImage};
use crate::driver::{
    release_handle, release_step, GlCall, ObjectKind, GL_LINEAR, GL_NEAREST, GL_RED, GL_RGB,
    GL_RGBA, GL_TEXTURE0, GL_TEXTURE_2D, GL_TEXTURE_MAG_FILTER, GL_TEXTURE_MIN_FILTER,
    GL_UNSIGNED_BYTE,
};

verus! {

/// Channel layout of a texture's pixels, 8 bits per channel. The same layout
/// serves as storage format and as source layout: nothing is converted.
#[derive(Clone, Copy, Debug, PartialEq, Eq, Structural)]
pub enum TextureFormat {
    R,
    Rgb,
    Rgba,
}

#[derive(Clone, Copy, Debug, PartialEq, Eq, Structural)]
pub enum TextureFilter {
    Linear,
    Nearest,
}

impl TextureFormat {
    pub open spec fn gl_format(self) -> u32 {
        match self {
            TextureFormat::R => GL_RED,
            TextureFormat::Rgb => GL_RGB,
            TextureFormat::Rgba => GL_RGBA,
        }
    }

    pub open spec fn spec_bytes_per_pixel(self) -> nat {
        match self {
            TextureFormat::R => 1,
            TextureFormat::Rgb => 3,
            TextureFormat::Rgba => 4,
        }
    }

    pub fn to_gl_format(&self) -> (r: u32)
        ensures
            r == self.gl_format(),
    {
        match *self {
            TextureFormat::R => GL_RED,
            TextureFormat::Rgb => GL_RGB,
            TextureFormat::Rgba => GL_RGBA,
        }
    }

    pub fn bytes_per_pixel(&self) -> (r: usize)
        ensures
            r == self.spec_bytes_per_pixel(),
    {
        match *self {
            TextureFormat::R => 1,
            TextureFormat::Rgb => 3,
            TextureFormat::Rgba => 4,
        }
    }
}

impl TextureFilter {
    pub open spec fn gl_filter(self) -> u32 {
        match self {
            TextureFilter::Linear => GL_LINEAR,
            TextureFilter::Nearest => GL_NEAREST,
        }
    }

    pub fn to_gl_filter(&self) -> (r: u32)
        ensures
            r == self.gl_filter(),
    {
        match *self {
            TextureFilter::Linear => GL_LINEAR,
            TextureFilter::Nearest => GL_NEAREST,
        }
    }
}

#[derive(Debug)]
pub struct TextureError {
    pub message: String,
}

/// A driver texture object, owned by its one handle. Zero means released.
pub struct Texture {
    pub gl_id: u32,
}

/// A texture made current as the 2D image of texture unit `unit_index`.
pub struct BoundTexture<'a> {
    pub unit_index: u32,
    pub texture: &'a mut Texture,
}

/// Largest unit index whose enumerant fits the driver's 32-bit enum.
pub const MAX_UNIT_INDEX: u32 = 0xFFFF_FFFF - GL_TEXTURE0;

pub open spec fn unit_enum(unit_index: u32) -> u32 {
    (GL_TEXTURE0 + unit_index) as u32
}

/// The calls that bind texture `id` to unit `unit_index`.
pub open spec fn texture_bind_calls(unit_index: u32, id: u32) -> Seq<GlCall> {
    seq![
        GlCall::ActiveTexture { texture: unit_enum(unit_index) },
        GlCall::BindTexture { target: GL_TEXTURE_2D, texture: id },
    ]
}

/// The calls that set the filters of the texture bound to unit `unit_index`,
/// each through its own parameter.
pub open spec fn filter_calls(unit_index: u32, min: TextureFilter, mag: TextureFilter) -> Seq<
    GlCall,
> {
    seq![
        GlCall::ActiveTexture { texture: unit_enum(unit_index) },
        GlCall::TexParameteri {
            target: GL_TEXTURE_2D,
            pname: GL_TEXTURE_MIN_FILTER,
            param: min.gl_filter(),
        },
        GlCall::TexParameteri {
            target: GL_TEXTURE_2D,
            pname: GL_TEXTURE_MAG_FILTER,
            param: mag.gl_filter(),
        },
    ]
}

/// `calls` upload `pixels` as the base image of the texture bound to unit
/// `unit_index`, in `format`, `width` by `height`.
pub open spec fn image_upload_calls(
    calls: Seq<GlCall>,
    unit_index: u32,
    format: TextureFormat,
    width: usize,
    height: usize,
    pixels: Seq<u8>,
) -> bool {
    &&& calls.len() == 2
    &&& calls[0] == GlCall::ActiveTexture { texture: unit_enum(unit_index) }
    &&& calls[1] matches GlCall::TexImage2D {
        target,
        internal_format,
        width: w,
        height: h,
        format: f,
        data_type,
        pixels: p,
    }
    &&& target == GL_TEXTURE_2D
    &&& internal_format == format.gl_format()
    &&& w == width
    &&& h == height
    &&& f == format.gl_format()
    &&& data_type == GL_UNSIGNED_BYTE
    &&& p@ == pixels
}

impl Texture {
    /// Wraps the handle that the driver returned when asked for a new texture;
    /// a zero handle means the driver refused. A new texture samples with
    /// nearest filtering both ways: the calls returned bind it to unit 0 and
    /// set those filters.
    pub fn new(gl_id: u32) -> (r: Result<(Texture, Vec<GlCall>), TextureError>)
        ensures
            gl_id == 0 <==> r is Err,
            r matches Ok((t, calls)) ==> t.gl_id == gl_id && calls@ == texture_bind_calls(
                0,
                gl_id,
            ) + filter_calls(0, TextureFilter::Nearest, TextureFilter::Nearest),
            r matches Err(e) ==> e.message@ == "Failed to create GPU texture"@,
    {
        if gl_id == 0 {
            return Err(TextureError { message: "Failed to create GPU texture".to_owned() });
        }
        let mut texture = Texture { gl_id };
        let mut calls = Vec::new();
        {
            let (mut bound, mut bind_calls) = texture.bind(0);
            let mut filters = bound.set_filters(TextureFilter::Nearest, TextureFilter::Nearest);
            calls.append(&mut bind_calls);
            calls.append(&mut filters);
        }
        Ok((texture, calls))
    }

    pub fn bind<'a>(&'a mut self, unit_index: u32) -> (r: (BoundTexture<'a>, Vec<GlCall>))
        requires
            unit_index <= MAX_UNIT_INDEX,
        ensures
            r.0.unit_index == unit_index,
            *r.0.texture == *old(self),
            *final(self) == *final(r.0.texture),
            r.1@ == texture_bind_calls(unit_index, old(self).gl_id),
    {
        BoundTexture::new(unit_index, self)
    }

    /// Gives up the handle: the first release deletes the texture, any later
    /// one does nothing.
    pub fn release(&mut self) -> (r: Option<GlCall>)
        ensures
            final(self).gl_id == 0,
            r == release_step(ObjectKind::Texture, old(self).gl_id).1,
    {
        release_handle(ObjectKind::Texture, &mut self.gl_id)
    }
}

impl<'a> BoundTexture<'a> {
    pub fn new(unit_index: u32, texture: &'a mut Texture) -> (r: (Self, Vec<GlCall>))
        requires
            unit_index <= MAX_UNIT_INDEX,
        ensures
            r.0.unit_index == unit_index,
            *r.0.texture == *old(texture),
            *final(texture) == *final(r.0.texture),
            r.1@ == texture_bind_calls(unit_index, old(texture).gl_id),
    {
        let calls = vec![
            GlCall::ActiveTexture { texture: GL_TEXTURE0 + unit_index },
            GlCall::BindTexture { target: GL_TEXTURE_2D, texture: texture.gl_id },
        ];
        (BoundTexture { unit_index, texture }, calls)
    }

    /// Sets the minification and the magnification filter.
    pub fn set_filters(&mut self, min: TextureFilter, mag: TextureFilter) -> (r: Vec<GlCall>)
        requires
            old(self).unit_index <= MAX_UNIT_INDEX,
        ensures
            r@ == filter_calls(old(self).unit_index, min, mag),
            final(self).unit_index == old(self).unit_index,
            *final(self).texture == *old(self).texture,
            *final(final(self).texture) == *final(old(self).texture),
    {
        vec![
            GlCall::ActiveTexture { texture: GL_TEXTURE0 + self.unit_index },
            GlCall::TexParameteri {
                target: GL_TEXTURE_2D,
                pname: GL_TEXTURE_MIN_FILTER,
                param: min.to_gl_filter(),
            },
            GlCall::TexParameteri {
                target: GL_TEXTURE_2D,
                pname: GL_TEXTURE_MAG_FILTER,
                param: mag.to_gl_filter(),
            },
        ]
    }

    /// Uploads the full base image: `pixels` holds the rows without padding,
    /// `width * height * bytes_per_pixel(format)` bytes.
    pub fn upload_image_2d(
        &mut self,
        format: TextureFormat,
        width: usize,
        height: usize,
        pixels: &[u8],
    ) -> (r: Vec<GlCall>)
        requires
            old(self).unit_index <= MAX_UNIT_INDEX,
            pixels@.len() == width * height * format.spec_bytes_per_pixel(),
        ensures
            image_upload_calls(r@, old(self).unit_index, format, width, height, pixels@),
            final(self).unit_index == old(self).unit_index,
            *final(self).texture == *old(self).texture,
            *final(final(self).texture) == *final(old(self).texture),
    {
        let gl_format = format.to_gl_format();
        vec![
            GlCall::ActiveTexture { texture: GL_TEXTURE0 + self.unit_index },
            GlCall::TexImage2D {
                target: GL_TEXTURE_2D,
                internal_format: gl_format,
                width,
                height,
                format: gl_format,
                data_type: GL_UNSIGNED_BYTE,
                pixels: vstd::slice::slice_to_vec(pixels),
            },
        ]
    }
}

/// The base image of the texture bound as the 2D image of unit `unit_index`.
pub open spec fn read_back(s: DeviceState, unit_index: u32) -> TexImage {
    s.images[unit_texture(s, unit_index)]
}

/// The texture bound as the 2D image of unit `unit_index`, zero where none is.
pub open spec fn unit_texture(s: DeviceState, unit_index: u32) -> u32 {
    let key = (unit_enum(unit_index), GL_TEXTURE_2D);
    if s.textures.contains_key(key) {
        s.textures[key]
    } else {
        0
    }
}

/// Uploading `pixels` into the texture bound to a unit and reading that
/// unit's image back gives the same bytes, with the format and size given.
pub proof fn lemma_upload_read_back(
    s: DeviceState,
    calls: Seq<GlCall>,
    unit_index: u32,
    format: TextureFormat,
    width: usize,
    height: usize,
    pixels: Seq<u8>,
)
    requires
        image_upload_calls(calls, unit_index, format, width, height, pixels),
    ensures
        read_back(run(s, calls), unit_index) == (TexImage {
            internal_format: format.gl_format(),
            width: width as nat,
            height: height as nat,
            format: format.gl_format(),
            pixels,
        }),
{
    reveal_with_fuel(run, 3);
    let s1 = run(s, calls);
    assert(s1.active_texture == unit_enum(unit_index));
}

/// Setting filters on a unit gives the texture bound there the minification
/// filter `min` and the magnification filter `mag`, each in its own
/// parameter; a new texture thus samples nearest both ways.
pub proof fn lemma_filters_set(s: DeviceState, unit_index: u32, min: TextureFilter, mag: TextureFilter)
    ensures
        ({
            let t = run(s, filter_calls(unit_index, min, mag));
            let id = unit_texture(s, unit_index);
            &&& t.tex_params[(id, GL_TEXTURE_MIN_FILTER)] == min.gl_filter()
            &&& t.tex_params[(id, GL_TEXTURE_MAG_FILTER)] == mag.gl_filter()
        }),
{
    reveal_with_fuel(run, 4);
}

/// Binding a texture to a unit twice in a row leaves the driver as binding
/// it once does.
pub proof fn lemma_bind_twice(s: DeviceState, unit_index: u32, id: u32)
    ensures
        run(run(s, texture_bind_calls(unit_index, id)), texture_bind_calls(unit_index, id))
            == run(s, texture_bind_calls(unit_index, id)),
{
    reveal_with_fuel(run, 3);
    let c = texture_bind_calls(unit_index, id);
    let s1 = run(s, c);
    let s2 = run(s1, c);
    assert(s2.textures =~= s1.textures);
}

} // verus!
