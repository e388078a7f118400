use vstd::prelude::*;

verus! {

/// The image formats cover art is kept in.
#[derive(Debug, Clone, Copy, PartialEq, Eq, Structural)]
pub enum ImageType {
    PNG,
    JPG,
}

/// Cover art: the image data and its format.
pub struct Image {
    pub data: Vec<u8>,
    pub image_type: ImageType,
}

/// The codec of a media file's picture stream.
#[derive(Debug, Clone, Copy, PartialEq, Eq, Structural)]
pub enum PictureCodec {
    Png,
    Mjpeg,
    Other,
}

/// Cover art is taken from PNG and (motion) JPEG picture streams only.
pub fn cover_image_type(codec: PictureCodec) -> (r: Option<ImageType>)
    ensures
        r == match codec {
            PictureCodec::Png => Some(ImageType::PNG),
            PictureCodec::Mjpeg => Some(ImageType::JPG),
            PictureCodec::Other => None::<ImageType>,
        },
{
    match codec {
        PictureCodec::Png => Some(ImageType::PNG),
        PictureCodec::Mjpeg => Some(ImageType::JPG),
        PictureCodec::Other => None,
    }
}

/// A negative result of the media library, by its code.
#[derive(Debug, Clone, Copy, PartialEq, Eq, Structural)]
pub struct AvError {
    pub code: i32,
}

/// The media library's end-of-file code, `-MKTAG('E','O','F',' ')`.
pub const AVERROR_EOF: i32 = -0x2046_4f45;

/// A result of the media library: negative numbers are errors.
pub fn check_av_result(num: i32) -> (r: Result<i32, AvError>)
    ensures
        num < 0 ==> r == Err::<i32, AvError>(AvError { code: num }),
        num >= 0 ==> r == Ok::<i32, AvError>(num),
{
    if num < 0 {
        Err(AvError { code: num })
    } else {
        Ok(num)
    }
}

/// What reading one packet came to.
#[derive(Debug, Clone, Copy, PartialEq, Eq, Structural)]
pub enum PacketStatus {
    Packet,
    EndOfFile,
    Failed(AvError),
}

/// Reading packets ends quietly at the end of the file; other errors are
/// reported.
pub fn packet_status(num: i32) -> (r: PacketStatus)
    ensures
        r == (if num >= 0 {
            PacketStatus::Packet
        } else if num == AVERROR_EOF {
            PacketStatus::EndOfFile
        } else {
            PacketStatus::Failed(AvError { code: num })
        }),
{
    match check_av_result(num) {
        Ok(_) => PacketStatus::Packet,
        Err(e) => if e.code == AVERROR_EOF {
            PacketStatus::EndOfFile
        } else {
            PacketStatus::Failed(e)
        },
    }
}

/// The title of a media file: its `title` tag, or else its file name.
pub fn media_title(title_tag: Option<&str>, file_name: &str) -> (t: String)
    ensures
        t@ == match title_tag {
            Some(x) => x@,
            None => file_name@,
        },
{
    match title_tag {
        Some(x) => x.to_owned(),
        None => file_name.to_owned(),
    }
}

} // verus!
