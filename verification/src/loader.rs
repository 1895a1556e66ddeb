//! The decisions of the image loader: which image type to decode bytes as, which
//! formats and file extensions it serves, and what it does to the decoded texture.
//!
//! Reading the bytes and decoding them are done by the asset pipeline around this
//! module; the loader's choices between them are made here.
use vstd::prelude::*;
use vstd::string::StringExecFns;

use image::ImageFormat as CrateFormat;

verus! {

#[verifier::external_type_specification]
#[verifier::external_body]
pub struct ExImageError(image::ImageError);

#[verifier::external_type_specification]
#[verifier::external_body]
pub struct ExIoError(std::io::Error);

/// The image formats the engine decodes.
#[derive(Clone, Copy, Debug, PartialEq, Eq, Structural)]
pub enum ImageFormat {
    Basis,
    Bmp,
    Dds,
    Farbfeld,
    Gif,
    Ico,
    Jpeg,
    Ktx2,
    Png,
    Pnm,
    Qoi,
    Tga,
    Tiff,
    WebP,
}

/// The file extensions of a format.
pub open spec fn format_extensions(format: ImageFormat) -> Seq<Seq<char>> {
    match format {
        ImageFormat::Basis => seq!["basis"@],
        ImageFormat::Bmp => seq!["bmp"@],
        ImageFormat::Dds => seq!["dds"@],
        ImageFormat::Farbfeld => seq!["ff"@, "farbfeld"@],
        ImageFormat::Gif => seq!["gif"@],
        ImageFormat::Ico => seq!["ico"@],
        ImageFormat::Jpeg => seq!["jpg"@, "jpeg"@],
        ImageFormat::Ktx2 => seq!["ktx2"@],
        ImageFormat::Png => seq!["png"@],
        ImageFormat::Pnm => seq!["pam"@, "pbm"@, "pgm"@, "ppm"@],
        ImageFormat::Qoi => seq!["qoi"@],
        ImageFormat::Tga => seq!["tga"@],
        ImageFormat::Tiff => seq!["tif"@, "tiff"@],
        ImageFormat::WebP => seq!["webp"@],
    }
}

/// No two formats share a file extension, so an extension tells the format.
pub proof fn lemma_extensions_disjoint(f: ImageFormat, g: ImageFormat, i: int, j: int)
    requires
        f != g,
        0 <= i < format_extensions(f).len(),
        0 <= j < format_extensions(g).len(),
    ensures
        format_extensions(f)[i] != format_extensions(g)[j],
{
    reveal_strlit("basis");
    reveal_strlit("bmp");
    reveal_strlit("dds");
    reveal_strlit("ff");
    reveal_strlit("farbfeld");
    reveal_strlit("gif");
    reveal_strlit("ico");
    reveal_strlit("jpg");
    reveal_strlit("jpeg");
    reveal_strlit("ktx2");
    reveal_strlit("png");
    reveal_strlit("pam");
    reveal_strlit("pbm");
    reveal_strlit("pgm");
    reveal_strlit("ppm");
    reveal_strlit("qoi");
    reveal_strlit("tga");
    reveal_strlit("tif");
    reveal_strlit("tiff");
    reveal_strlit("webp");
    let a = format_extensions(f)[i];
    let b = format_extensions(g)[j];
    if a == b {
        assert(a.len() == b.len());
        assert(a[0] == b[0]);
        assert(a[a.len() - 1] == b[b.len() - 1]);
    }
}

/// Every format has at least one file extension.
pub proof fn lemma_extensions_nonempty(f: ImageFormat)
    ensures
        format_extensions(f).len() >= 1,
{
}

/// The views of a sequence of string slices.
pub open spec fn str_views(strs: Seq<&str>) -> Seq<Seq<char>> {
    strs.map_values(|s: &str| s@)
}

impl ImageFormat {
    /// The file extensions of this format.
    pub fn to_file_extensions(&self) -> (r: Vec<&'static str>)
        ensures
            str_views(r@) == format_extensions(*self),
    {
        let r = match self {
            ImageFormat::Basis => vec!["basis"],
            ImageFormat::Bmp => vec!["bmp"],
            ImageFormat::Dds => vec!["dds"],
            ImageFormat::Farbfeld => vec!["ff", "farbfeld"],
            ImageFormat::Gif => vec!["gif"],
            ImageFormat::Ico => vec!["ico"],
            ImageFormat::Jpeg => vec!["jpg", "jpeg"],
            ImageFormat::Ktx2 => vec!["ktx2"],
            ImageFormat::Png => vec!["png"],
            ImageFormat::Pnm => vec!["pam", "pbm", "pgm", "ppm"],
            ImageFormat::Qoi => vec!["qoi"],
            ImageFormat::Tga => vec!["tga"],
            ImageFormat::Tiff => vec!["tif", "tiff"],
            ImageFormat::WebP => vec!["webp"],
        };
        assert(str_views(r@) =~= format_extensions(*self));
        r
    }
}

/// The extensions of the formats, format after format, each format's in its own order.
pub open spec fn all_extensions(formats: Seq<ImageFormat>) -> Seq<Seq<char>>
    decreases formats.len(),
{
    if formats.len() == 0 {
        Seq::empty()
    } else {
        all_extensions(formats.drop_last()) + format_extensions(formats.last())
    }
}

/// The loader claims an extension exactly when one of its formats has it.
pub proof fn lemma_all_extensions_members(formats: Seq<ImageFormat>, e: Seq<char>)
    ensures
        all_extensions(formats).contains(e) <==> exists|k: int|
            0 <= k < formats.len() && #[trigger] format_extensions(formats[k]).contains(e),
    decreases formats.len(),
{
    if formats.len() > 0 {
        let init = formats.drop_last();
        let last = format_extensions(formats.last());
        lemma_all_extensions_members(init, e);
        let whole = all_extensions(formats);
        let front = all_extensions(init);
        assert(whole == front + last);
        if whole.contains(e) {
            let i = choose|i: int| 0 <= i < whole.len() && whole[i] == e;
            if i < front.len() {
                assert(front[i] == e);
                let k = choose|k: int| 0 <= k < init.len() && #[trigger] format_extensions(init[k]).contains(e);
                assert(init[k] == formats[k]);
            } else {
                assert(last[i - front.len()] == e);
                assert(format_extensions(formats[formats.len() - 1]).contains(e));
            }
        }
        if exists|k: int| 0 <= k < formats.len() && #[trigger] format_extensions(formats[k]).contains(e) {
            let k = choose|k: int| 0 <= k < formats.len() && #[trigger] format_extensions(formats[k]).contains(e);
            if k < formats.len() - 1 {
                assert(init[k] == formats[k]);
                assert(format_extensions(init[k]).contains(e));
                let i = choose|i: int| 0 <= i < front.len() && front[i] == e;
                assert(whole[i] == e);
            } else {
                let i = choose|i: int| 0 <= i < last.len() && last[i] == e;
                assert(whole[front.len() + i] == e);
            }
        }
    }
}

/// The formats of the `image` crate, as far as the loader tells them apart.
#[derive(Clone, Copy, Debug, PartialEq, Eq, Structural)]
pub enum ImageCrateFormat {
    Png,
    Jpeg,
    Gif,
    WebP,
    Pnm,
    Tiff,
    Tga,
    Dds,
    Bmp,
    Ico,
    Hdr,
    OpenExr,
    Farbfeld,
    Avif,
    Qoi,
    /// A format this crate's version of `image` does not list.
    Other,
}

/// The format of the `image` crate that `image::guess_format` guesses from the leading
/// bytes of an image.
pub uninterp spec fn guessed_format(bytes: Seq<u8>) -> ImageCrateFormat;

/// Whether `image::guess_format` recognizes the leading bytes of an image.
pub uninterp spec fn format_recognized(bytes: Seq<u8>) -> bool;

/// `image::guess_format`: claims it succeeds exactly when `format_recognized` holds of the
/// bytes, and then gives `guessed_format` of them. The guess depends on the bytes alone.
#[verifier::external_body]
fn guess_format(bytes: &[u8]) -> (r: Result<ImageCrateFormat, image::ImageError>)
    ensures
        r is Ok <==> format_recognized(bytes@),
        r matches Ok(f) ==> f == guessed_format(bytes@),
{
    Ok(match image::guess_format(bytes)? {
        CrateFormat::Png => ImageCrateFormat::Png, CrateFormat::Jpeg => ImageCrateFormat::Jpeg,
        CrateFormat::Gif => ImageCrateFormat::Gif, CrateFormat::WebP => ImageCrateFormat::WebP,
        CrateFormat::Pnm => ImageCrateFormat::Pnm, CrateFormat::Tiff => ImageCrateFormat::Tiff,
        CrateFormat::Tga => ImageCrateFormat::Tga, CrateFormat::Dds => ImageCrateFormat::Dds,
        CrateFormat::Bmp => ImageCrateFormat::Bmp, CrateFormat::Ico => ImageCrateFormat::Ico,
        CrateFormat::Hdr => ImageCrateFormat::Hdr, CrateFormat::OpenExr => ImageCrateFormat::OpenExr,
        CrateFormat::Farbfeld => ImageCrateFormat::Farbfeld, CrateFormat::Avif => ImageCrateFormat::Avif,
        CrateFormat::Qoi => ImageCrateFormat::Qoi,
        _ => ImageCrateFormat::Other,
    })
}

/// The engine's format for a format of the `image` crate, where it has one.
pub open spec fn engine_format(format: ImageCrateFormat) -> Option<ImageFormat> {
    match format {
        ImageCrateFormat::Png => Some(ImageFormat::Png),
        ImageCrateFormat::Jpeg => Some(ImageFormat::Jpeg),
        ImageCrateFormat::Gif => Some(ImageFormat::Gif),
        ImageCrateFormat::WebP => Some(ImageFormat::WebP),
        ImageCrateFormat::Pnm => Some(ImageFormat::Pnm),
        ImageCrateFormat::Tiff => Some(ImageFormat::Tiff),
        ImageCrateFormat::Tga => Some(ImageFormat::Tga),
        ImageCrateFormat::Dds => Some(ImageFormat::Dds),
        ImageCrateFormat::Bmp => Some(ImageFormat::Bmp),
        ImageCrateFormat::Ico => Some(ImageFormat::Ico),
        ImageCrateFormat::Farbfeld => Some(ImageFormat::Farbfeld),
        ImageCrateFormat::Qoi => Some(ImageFormat::Qoi),
        _ => None,
    }
}

/// The name of a format of the `image` crate, as its `Debug` output spells it.
pub open spec fn crate_format_name(format: ImageCrateFormat) -> Seq<char> {
    match format {
        ImageCrateFormat::Png => "Png"@,
        ImageCrateFormat::Jpeg => "Jpeg"@,
        ImageCrateFormat::Gif => "Gif"@,
        ImageCrateFormat::WebP => "WebP"@,
        ImageCrateFormat::Pnm => "Pnm"@,
        ImageCrateFormat::Tiff => "Tiff"@,
        ImageCrateFormat::Tga => "Tga"@,
        ImageCrateFormat::Dds => "Dds"@,
        ImageCrateFormat::Bmp => "Bmp"@,
        ImageCrateFormat::Ico => "Ico"@,
        ImageCrateFormat::Hdr => "Hdr"@,
        ImageCrateFormat::OpenExr => "OpenExr"@,
        ImageCrateFormat::Farbfeld => "Farbfeld"@,
        ImageCrateFormat::Avif => "Avif"@,
        ImageCrateFormat::Qoi => "Qoi"@,
        ImageCrateFormat::Other => "Other"@,
    }
}

/// The name of one of the engine's formats, as its `Debug` output spells it.
pub open spec fn format_name(format: ImageFormat) -> Seq<char> {
    match format {
        ImageFormat::Basis => "Basis"@,
        ImageFormat::Bmp => "Bmp"@,
        ImageFormat::Dds => "Dds"@,
        ImageFormat::Farbfeld => "Farbfeld"@,
        ImageFormat::Gif => "Gif"@,
        ImageFormat::Ico => "Ico"@,
        ImageFormat::Jpeg => "Jpeg"@,
        ImageFormat::Ktx2 => "Ktx2"@,
        ImageFormat::Png => "Png"@,
        ImageFormat::Pnm => "Pnm"@,
        ImageFormat::Qoi => "Qoi"@,
        ImageFormat::Tga => "Tga"@,
        ImageFormat::Tiff => "Tiff"@,
        ImageFormat::WebP => "WebP"@,
    }
}

/// A format of the `image` crate is decoded as the engine's format of the same name, and
/// as no other; one whose name no engine format has is not decoded.
pub proof fn lemma_engine_format_by_name(c: ImageCrateFormat, f: ImageFormat)
    ensures
        engine_format(c) == Some(f) <==> crate_format_name(c) == format_name(f),
{
    reveal_strlit("Basis");
    reveal_strlit("Bmp");
    reveal_strlit("Dds");
    reveal_strlit("Farbfeld");
    reveal_strlit("Gif");
    reveal_strlit("Ico");
    reveal_strlit("Jpeg");
    reveal_strlit("Ktx2");
    reveal_strlit("Png");
    reveal_strlit("Pnm");
    reveal_strlit("Qoi");
    reveal_strlit("Tga");
    reveal_strlit("Tiff");
    reveal_strlit("WebP");
    reveal_strlit("Hdr");
    reveal_strlit("OpenExr");
    reveal_strlit("Avif");
    reveal_strlit("Other");
    let a = crate_format_name(c);
    let b = format_name(f);
    if a == b {
        assert(a.len() == b.len());
        assert(a[0] == b[0]);
        assert(a[1] == b[1]);
        assert(a[a.len() - 1] == b[b.len() - 1]);
    }
}

impl ImageFormat {
    /// The engine's format for a format of the `image` crate, where it has one.
    pub fn from_image_crate_format(format: ImageCrateFormat) -> (r: Option<ImageFormat>)
        ensures
            r == engine_format(format),
    {
        match format {
            ImageCrateFormat::Png => Some(ImageFormat::Png),
            ImageCrateFormat::Jpeg => Some(ImageFormat::Jpeg),
            ImageCrateFormat::Gif => Some(ImageFormat::Gif),
            ImageCrateFormat::WebP => Some(ImageFormat::WebP),
            ImageCrateFormat::Pnm => Some(ImageFormat::Pnm),
            ImageCrateFormat::Tiff => Some(ImageFormat::Tiff),
            ImageCrateFormat::Tga => Some(ImageFormat::Tga),
            ImageCrateFormat::Dds => Some(ImageFormat::Dds),
            ImageCrateFormat::Bmp => Some(ImageFormat::Bmp),
            ImageCrateFormat::Ico => Some(ImageFormat::Ico),
            ImageCrateFormat::Farbfeld => Some(ImageFormat::Farbfeld),
            ImageCrateFormat::Qoi => Some(ImageFormat::Qoi),
            _ => None,
        }
    }
}

impl ImageCrateFormat {
    /// The name of the format, as its `Debug` output spells it.
    pub fn name(&self) -> (r: String)
        ensures
            r@ == crate_format_name(*self),
    {
        let s = match self {
            ImageCrateFormat::Png => "Png",
            ImageCrateFormat::Jpeg => "Jpeg",
            ImageCrateFormat::Gif => "Gif",
            ImageCrateFormat::WebP => "WebP",
            ImageCrateFormat::Pnm => "Pnm",
            ImageCrateFormat::Tiff => "Tiff",
            ImageCrateFormat::Tga => "Tga",
            ImageCrateFormat::Dds => "Dds",
            ImageCrateFormat::Bmp => "Bmp",
            ImageCrateFormat::Ico => "Ico",
            ImageCrateFormat::Hdr => "Hdr",
            ImageCrateFormat::OpenExr => "OpenExr",
            ImageCrateFormat::Farbfeld => "Farbfeld",
            ImageCrateFormat::Avif => "Avif",
            ImageCrateFormat::Qoi => "Qoi",
            ImageCrateFormat::Other => "Other",
        };
        String::from_str(s)
    }
}

/// The texture formats the engine can compress on the GPU, as flags.
#[derive(Clone, Copy, Debug, PartialEq, Eq, Structural)]
pub struct CompressedImageFormats {
    /// One bit per family of compressed formats.
    pub bits: u32,
}

/// Loader for images that can be read by the `image` crate.
#[derive(Clone, Debug)]
pub struct ImageLoader {
    supported_compressed_formats: CompressedImageFormats,
}

impl ImageLoader {
    /// The compressed formats this loader was made with.
    pub closed spec fn spec_compressed_formats(self) -> CompressedImageFormats {
        self.supported_compressed_formats
    }

    /// Creates a new image loader that supports the provided formats.
    pub fn new(supported_compressed_formats: CompressedImageFormats) -> (r: Self)
        ensures
            r.spec_compressed_formats() == supported_compressed_formats,
    {
        ImageLoader { supported_compressed_formats }
    }

    /// The compressed formats this loader was made with.
    pub fn supported_compressed_formats(&self) -> (r: CompressedImageFormats)
        ensures
            r == self.spec_compressed_formats(),
    {
        self.supported_compressed_formats
    }

    /// The file extensions of the given formats, format after format, as the loader
    /// announces them.
    pub fn supported_file_extensions(formats: &Vec<ImageFormat>) -> (r: Vec<&'static str>)
        ensures
            str_views(r@) == all_extensions(formats@),
    {
        let n = formats.len();
        let mut out: Vec<&'static str> = Vec::new();
        let mut i: usize = 0;
        while i < n
            invariant
                n == formats@.len(),
                i <= n,
                str_views(out@) =~= all_extensions(formats@.take(i as int)),
            decreases n - i,
        {
            let exts = formats[i].to_file_extensions();
            let m = exts.len();
            let ghost before = out@;
            let mut j: usize = 0;
            while j < m
                invariant
                    m == exts@.len(),
                    j <= m,
                    out@ =~= before + exts@.take(j as int),
                decreases m - j,
            {
                out.push(exts[j]);
                proof {
                    assert(exts@.take(j + 1) =~= exts@.take(j as int).push(exts@[j as int]));
                }
                j = j + 1;
            }
            proof {
                assert(exts@.take(m as int) =~= exts@);
                assert(formats@.take(i + 1).drop_last() =~= formats@.take(i as int));
                assert(str_views(before + exts@) =~= str_views(before) + str_views(exts@));
            }
            i = i + 1;
        }
        proof {
            assert(formats@.take(n as int) =~= formats@);
        }
        out
    }
}

/// How the loader is told the format of an image.
#[derive(Clone, Copy, Debug, PartialEq, Eq, Structural)]
pub enum ImageFormatSetting {
    /// Take the format from the file extension.
    FromExtension,
    /// Use this format.
    Format(ImageFormat),
    /// Guess the format from the image's leading bytes.
    Guess,
}

impl Default for ImageFormatSetting {
    /// Guessing is the default.
    fn default() -> (r: Self)
        ensures
            r == ImageFormatSetting::Guess,
    {
        ImageFormatSetting::Guess
    }
}

/// How the bytes of an image are to be decoded.
#[derive(Clone, Debug, PartialEq)]
pub enum ImageType {
    /// By the format a file extension names.
    Extension(String),
    /// As this format.
    Format(ImageFormat),
}

/// Why a texture could not be made from a file's bytes.
#[derive(Debug)]
pub enum TextureError {
    /// The `image` crate could not read the bytes.
    ImageReadError(image::ImageError),
    /// The bytes are in a format the engine does not support; the format's name.
    UnsupportedTextureFormat(String),
}

/// An error that occurs when loading a texture from a file.
#[derive(Debug)]
pub struct FileTextureError {
    /// What went wrong.
    pub error: TextureError,
    /// The path of the file.
    pub path: String,
}

/// Why the image loader failed.
#[derive(Debug)]
pub enum ImageLoaderError {
    /// Reading the file failed.
    Io(std::io::Error),
    /// Making a texture of the file's bytes failed.
    FileTexture(FileTextureError),
}

/// The image is to be decoded by the format the extension `ext` names.
pub open spec fn decodes_by_extension(r: Result<ImageType, FileTextureError>, ext: Seq<char>) -> bool {
    match r {
        Ok(ImageType::Extension(e)) => e@ == ext,
        _ => false,
    }
}

/// Loading the file at `path` failed because the `image` crate could not read it.
pub open spec fn fails_to_read(r: Result<ImageType, FileTextureError>, path: Seq<char>) -> bool {
    match r {
        Err(e) => e.error is ImageReadError && e.path@ == path,
        Ok(_) => false,
    }
}

/// Loading the file at `path` failed because its format, named `name`, is not supported.
pub open spec fn fails_as_unsupported(
    r: Result<ImageType, FileTextureError>,
    name: Seq<char>,
    path: Seq<char>,
) -> bool {
    match r {
        Err(e) => e.path@ == path && match e.error {
            TextureError::UnsupportedTextureFormat(n) => n@ == name,
            _ => false,
        },
        Ok(_) => false,
    }
}

/// Decides how to decode the bytes of the image at `path`. With
/// [`ImageFormatSetting::FromExtension`] the file's extension is used and must exist; with
/// [`ImageFormatSetting::Guess`] the format is guessed from the bytes, and the guess must
/// succeed and name a format the engine supports.
pub fn choose_image_type(
    setting: ImageFormatSetting,
    extension: Option<&str>,
    bytes: &[u8],
    path: &String,
) -> (r: Result<ImageType, FileTextureError>)
    requires
        setting is FromExtension ==> extension is Some,
    ensures
        match setting {
            ImageFormatSetting::FromExtension => decodes_by_extension(r, extension->0@),
            ImageFormatSetting::Format(f) => r == Ok::<ImageType, FileTextureError>(
                ImageType::Format(f),
            ),
            ImageFormatSetting::Guess => if !format_recognized(bytes@) {
                fails_to_read(r, path@)
            } else {
                match engine_format(guessed_format(bytes@)) {
                    Some(f) => r == Ok::<ImageType, FileTextureError>(ImageType::Format(f)),
                    None => fails_as_unsupported(r, crate_format_name(guessed_format(bytes@)), path@),
                }
            },
        },
{
    match setting {
        ImageFormatSetting::FromExtension => {
            let ext = extension.unwrap();
            Ok(ImageType::Extension(String::from_str(ext)))
        },
        ImageFormatSetting::Format(format) => Ok(ImageType::Format(format)),
        ImageFormatSetting::Guess => {
            match guess_format(bytes) {
                Err(err) => Err(
                    FileTextureError {
                        error: TextureError::ImageReadError(err),
                        path: path.clone(),
                    },
                ),
                Ok(format) => match ImageFormat::from_image_crate_format(format) {
                    Some(f) => Ok(ImageType::Format(f)),
                    None => Err(
                        FileTextureError {
                            error: TextureError::UnsupportedTextureFormat(format.name()),
                            path: path.clone(),
                        },
                    ),
                },
            }
        },
    }
}

/// Whether a decoded 16-bit RGBA texture is rebuilt with 8-bit channels: always on the web,
/// where such textures cannot be sampled, and elsewhere for sRGB textures, which have no
/// 16-bit sRGB format.
pub fn converts_16bit(is_rgba16_unorm: bool, on_web: bool, is_srgb: bool) -> (r: bool)
    ensures
        r == (is_rgba16_unorm && (on_web || is_srgb)),
{
    is_rgba16_unorm && (on_web || is_srgb)
}

/// The 8-bit RGBA format a converted texture gets.
#[derive(Clone, Copy, Debug, PartialEq, Eq, Structural)]
pub enum EightBitRgba {
    /// Linear channels.
    Rgba8Unorm,
    /// sRGB-encoded channels, decoded by the GPU on sampling.
    Rgba8UnormSrgb,
}

/// The format of a converted texture: sRGB textures keep their encoding in an sRGB format.
pub fn converted_format(is_srgb: bool) -> (r: EightBitRgba)
    ensures
        r == if is_srgb {
            EightBitRgba::Rgba8UnormSrgb
        } else {
            EightBitRgba::Rgba8Unorm
        },
{
    if is_srgb {
        EightBitRgba::Rgba8UnormSrgb
    } else {
        EightBitRgba::Rgba8Unorm
    }
}

/// The largest width or height a loaded texture keeps: 1024 on the web, to save memory,
/// and 8192 elsewhere, below the GPU's texture size limit.
pub fn max_base_size(on_web: bool) -> (r: u32)
    ensures
        r == if on_web {
            1024u32
        } else {
            8192u32
        },
{
    if on_web {
        1024
    } else {
        8192
    }
}

/// The side length a too large texture is resized to, or `None` when both of its sides
/// are within `max_size`. The new side is `max_size * 4 / pixel_size`: the bytes of a
/// `max_size`-wide row of 4-byte pixels, counted in pixels of the texture's size.
pub fn reduced_size(width: u32, height: u32, max_size: u32, pixel_size: u32) -> (r: Option<u32>)
    requires
        pixel_size > 0,
        max_size * 4 <= u32::MAX,
    ensures
        r == if width > max_size || height > max_size {
            Some(((max_size * 4) as int / pixel_size as int) as u32)
        } else {
            None::<u32>
        },
{
    if width > max_size || height > max_size {
        Some(max_size * 4 / pixel_size)
    } else {
        None
    }
}

} // verus!
