//! The texture that holds the image.

use vstd::prelude::*;
use crate::bitmap::{Bitmap, Raster};
use crate::command::{ops, Command, Next, Op, Reply, Step, TextureParameter, TextureSetting};
use crate::error::{Error, Failure};
use crate::geometry::Size;

verus! {

/// A texture. It owns the driver's texture object; its contents and its
/// dimensions are those of the image that it was made from and never
/// change.
#[derive(Debug, PartialEq, Eq)]
pub struct Texture {
    id: u32,
    width: u32,
    height: u32,
}

/// What a `Texture` holds: the name of the texture object and its
/// dimensions in pixels.
pub struct TextureState {
    pub id: u32,
    pub width: u32,
    pub height: u32,
}

impl TextureState {
    pub open spec fn size(self) -> Size {
        Size { width: self.width, height: self.height }
    }
}

impl View for Texture {
    type V = TextureState;

    closed spec fn view(&self) -> TextureState {
        TextureState { id: self.id, width: self.width, height: self.height }
    }
}

/// The commands that make the texture object `texture` hold `image`, whose
/// first row is the bottom one: it wraps by clamping to the edge on both
/// axes, is minified by linear interpolation between and within mipmap
/// levels and magnified by linear interpolation, and has its whole chain
/// of mipmaps.
pub open spec fn upload_ops(texture: u32, image: Raster) -> Seq<Op> {
    seq![
        Op::BindTexture { texture },
        Op::TexParameter {
            parameter: TextureParameter::WrapS,
            setting: TextureSetting::ClampToEdge,
        },
        Op::TexParameter {
            parameter: TextureParameter::WrapT,
            setting: TextureSetting::ClampToEdge,
        },
        Op::TexParameter {
            parameter: TextureParameter::MinFilter,
            setting: TextureSetting::LinearMipmapLinear,
        },
        Op::TexParameter {
            parameter: TextureParameter::MagFilter,
            setting: TextureSetting::Linear,
        },
        Op::TexImage2D { width: image.width, height: image.height, pixels: image.pixels },
        Op::GenerateMipmap,
    ]
}

impl Texture {
    /// Starts making a texture of the image file named `path`, as
    /// `from_img` does, where `image` is what opening and decoding that file
    /// gave. Fails where it gave nothing; no command is issued then.
    pub fn from_path(path: &str, image: Option<Bitmap>) -> (out: Result<
        (Upload, Vec<Command>),
        Error,
    >)
        ensures
            match image {
                Some(image) => out matches Ok(start) && start.0@ == image@.flipped() && ops(
                    start.1@,
                ) == seq![Op::GenTexture],
                None => out matches Err(e) && e@ == (Failure::ImageLoad { path: path@ }),
            },
    {
        match image {
            Some(image) => Ok(Texture::from_img(image)),
            None => Err(Error::ImageLoad { path: path.to_owned() }),
        }
    }

    /// Starts making a texture from a decoded image, whose first row is the
    /// top one: hands back the upload, which waits for the name of the
    /// texture object, and the command that asks for it. The rows are put
    /// in the opposite order, since the texture's origin is its bottom left
    /// corner.
    pub fn from_img(img: Bitmap) -> (start: (Upload, Vec<Command>))
        ensures
            start.0@ == img@.flipped(),
            ops(start.1@) == seq![Op::GenTexture],
    {
        let run = vec![Command::GenTexture];
        assert(ops(run@) =~= seq![Op::GenTexture]);
        (Upload { image: img.flip() }, run)
    }

    /// Binds the texture to the texture unit of number `n`, counted from
    /// zero.
    pub fn bind(&self, n: u32) -> (run: Vec<Command>)
        ensures
            ops(run@) == seq![Op::ActiveTexture { unit: n }, Op::BindTexture { texture: self@.id }],
    {
        let run = vec![Command::ActiveTexture { unit: n }, Command::BindTexture { texture: self.id }];
        assert(ops(run@) =~= seq![
            Op::ActiveTexture { unit: n },
            Op::BindTexture { texture: self@.id },
        ]);
        run
    }

    /// The name of the texture object.
    pub fn id(&self) -> (id: u32)
        ensures
            id == self@.id,
    {
        self.id
    }

    /// The width of the image in pixels.
    pub fn width(&self) -> (width: u32)
        ensures
            width == self@.width,
    {
        self.width
    }

    /// The height of the image in pixels.
    pub fn height(&self) -> (height: u32)
        ensures
            height == self@.height,
    {
        self.height
    }

    /// Gives the texture object back to the driver.
    pub fn release(self) -> (run: Vec<Command>)
        ensures
            ops(run@) == seq![Op::DeleteTexture { texture: self@.id }],
    {
        let run = vec![Command::DeleteTexture { texture: self.id }];
        assert(ops(run@) =~= seq![Op::DeleteTexture { texture: self@.id }]);
        run
    }
}

/// An image that waits for the name of its texture object.
#[derive(Debug)]
pub struct Upload {
    image: Bitmap,
}

impl View for Upload {
    type V = Raster;

    /// The image as it will be uploaded, its first row the bottom one.
    closed spec fn view(&self) -> Raster {
        self.image@
    }
}

impl Upload {
    /// Goes on after the driver's answer: sets the texture object up and
    /// fills it with the image. An answer that is not a name is passed
    /// over.
    pub fn advance(self, reply: Reply) -> (step: Step<Upload, Texture>)
        ensures
            match reply {
                Reply::Name(texture) => {
                    &&& ops(step.run@) == upload_ops(texture, self@)
                    &&& step.next matches Next::Done(t) && t@ == (TextureState {
                        id: texture,
                        width: self@.width,
                        height: self@.height,
                    })
                },
                _ => {
                    &&& ops(step.run@) == Seq::<Op>::empty()
                    &&& step.next matches Next::Await(upload) && upload@ == self@
                },
            },
    {
        match reply {
            Reply::Name(id) => {
                let width = self.image.width();
                let height = self.image.height();
                let run = vec![
                    Command::BindTexture { texture: id },
                    Command::TexParameter {
                        parameter: TextureParameter::WrapS,
                        setting: TextureSetting::ClampToEdge,
                    },
                    Command::TexParameter {
                        parameter: TextureParameter::WrapT,
                        setting: TextureSetting::ClampToEdge,
                    },
                    Command::TexParameter {
                        parameter: TextureParameter::MinFilter,
                        setting: TextureSetting::LinearMipmapLinear,
                    },
                    Command::TexParameter {
                        parameter: TextureParameter::MagFilter,
                        setting: TextureSetting::Linear,
                    },
                    Command::TexImage2D { width, height, pixels: self.image.into_pixels() },
                    Command::GenerateMipmap,
                ];
                assert(ops(run@) =~= upload_ops(id, self@));
                Step { run, next: Next::Done(Texture { id, width, height }) }
            },
            _ => {
                let run = Vec::new();
                assert(ops(run@) =~= Seq::<Op>::empty());
                Step { run, next: Next::Await(self) }
            },
        }
    }
}

} // verus!
