//! What can go wrong, which exception it becomes and what it says.
use vstd::prelude::*;

verus! {

/// The family of exception that an error is raised as.
#[derive(Clone, Copy, Debug, PartialEq, Eq, Structural)]
pub enum ErrorClass {
    Io,
    Value,
    Runtime,
}

/// Why pixels could not be given the shape of a picture.
#[derive(Clone, Copy, Debug, PartialEq, Eq, Structural)]
pub enum ShapeFault {
    /// The non-empty axes multiply to more than an `isize` holds.
    Overflow,
    /// There are fewer bytes than the shape needs.
    OutOfBounds,
    /// There are more bytes than the shape needs.
    IncompatibleShape,
}

impl ShapeFault {
    /// The fault in words.
    pub open spec fn text(self) -> Seq<char> {
        match self {
            ShapeFault::Overflow => "ShapeError/Overflow: arithmetic overflow"@,
            ShapeFault::OutOfBounds => "ShapeError/OutOfBounds: out of bounds indexing"@,
            ShapeFault::IncompatibleShape => "ShapeError/IncompatibleShape: incompatible shapes"@,
        }
    }

    /// The fault in words.
    pub fn describe(&self) -> (text: String)
        ensures
            text@ == self.text(),
    {
        match self {
            ShapeFault::Overflow => "ShapeError/Overflow: arithmetic overflow".to_owned(),
            ShapeFault::OutOfBounds => "ShapeError/OutOfBounds: out of bounds indexing".to_owned(),
            ShapeFault::IncompatibleShape => {
                "ShapeError/IncompatibleShape: incompatible shapes".to_owned()
            },
        }
    }
}

/// A failure reported to the caller. The string of a variant is the detail
/// that the failing library gave.
#[derive(Debug)]
pub enum MediaError {
    Init(String),
    OpenFile(String),
    NoVideoStream,
    DecoderContext(String),
    OpenDecoder(String),
    VideoDecoderContext(String),
    OpenVideoDecoder(String),
    Seek(String),
    FrameNotFound,
    SendSeekPacket(String),
    SendPacket(String),
    UnreadableFrame,
    EndOfVideo,
    ScalingContext(String),
    ColorConversion(String),
    Array(ShapeFault),
    SpawnDecodeThread(String),
}

impl MediaError {
    /// A missing file is an I/O error, a file without pictures is a bad value,
    /// everything else is a runtime error.
    pub open spec fn spec_class(self) -> ErrorClass {
        match self {
            MediaError::OpenFile(_) => ErrorClass::Io,
            MediaError::NoVideoStream => ErrorClass::Value,
            _ => ErrorClass::Runtime,
        }
    }

    /// The message: a fixed text, with the detail behind it where there is one.
    pub open spec fn text(self) -> Seq<char> {
        match self {
            MediaError::Init(detail) => "Inisialisasi FFmpeg gagal: "@ + detail@,
            MediaError::OpenFile(detail) => "Buka file: "@ + detail@,
            MediaError::NoVideoStream => "Tidak ada aliran video"@,
            MediaError::DecoderContext(detail) => "Konteks dekoder: "@ + detail@,
            MediaError::OpenDecoder(detail) => "Buat dekoder: "@ + detail@,
            MediaError::VideoDecoderContext(detail) => "Konteks dekoder video: "@ + detail@,
            MediaError::OpenVideoDecoder(detail) => "Buat dekoder video: "@ + detail@,
            MediaError::Seek(detail) => "Lompat gagal: "@ + detail@,
            MediaError::FrameNotFound => "Bingkai tidak ditemukan"@,
            MediaError::SendSeekPacket(detail) => "Kirim paket gagal: "@ + detail@,
            MediaError::SendPacket(detail) => "Kirim paket: "@ + detail@,
            MediaError::UnreadableFrame => "Tidak dapat membaca bingkai"@,
            MediaError::EndOfVideo => "Akhir video"@,
            MediaError::ScalingContext(detail) => "Buat konteks scaling: "@ + detail@,
            MediaError::ColorConversion(detail) => "Konversi warna gagal: "@ + detail@,
            MediaError::Array(fault) => "Array gagal: "@ + fault.text(),
            MediaError::SpawnDecodeThread(detail) => "Spawn thread decode gagal: "@ + detail@,
        }
    }

    /// The family of exception that this error is raised as.
    pub fn class(&self) -> (class: ErrorClass)
        ensures
            class == self.spec_class(),
    {
        match self {
            MediaError::OpenFile(_) => ErrorClass::Io,
            MediaError::NoVideoStream => ErrorClass::Value,
            _ => ErrorClass::Runtime,
        }
    }

    /// The message that the exception carries.
    pub fn message(&self) -> (message: String)
        ensures
            message@ == self.text(),
    {
        match self {
            MediaError::Init(detail) => with_detail("Inisialisasi FFmpeg gagal: ", detail),
            MediaError::OpenFile(detail) => with_detail("Buka file: ", detail),
            MediaError::NoVideoStream => "Tidak ada aliran video".to_owned(),
            MediaError::DecoderContext(detail) => with_detail("Konteks dekoder: ", detail),
            MediaError::OpenDecoder(detail) => with_detail("Buat dekoder: ", detail),
            MediaError::VideoDecoderContext(detail) => {
                with_detail("Konteks dekoder video: ", detail)
            },
            MediaError::OpenVideoDecoder(detail) => with_detail("Buat dekoder video: ", detail),
            MediaError::Seek(detail) => with_detail("Lompat gagal: ", detail),
            MediaError::FrameNotFound => "Bingkai tidak ditemukan".to_owned(),
            MediaError::SendSeekPacket(detail) => with_detail("Kirim paket gagal: ", detail),
            MediaError::SendPacket(detail) => with_detail("Kirim paket: ", detail),
            MediaError::UnreadableFrame => "Tidak dapat membaca bingkai".to_owned(),
            MediaError::EndOfVideo => "Akhir video".to_owned(),
            MediaError::ScalingContext(detail) => with_detail("Buat konteks scaling: ", detail),
            MediaError::ColorConversion(detail) => with_detail("Konversi warna gagal: ", detail),
            MediaError::Array(fault) => with_detail("Array gagal: ", &fault.describe()),
            MediaError::SpawnDecodeThread(detail) => {
                with_detail("Spawn thread decode gagal: ", detail)
            },
        }
    }
}

/// `prefix` with `detail` behind it.
fn with_detail(prefix: &str, detail: &String) -> (text: String)
    ensures
        text@ == prefix@ + detail@,
{
    let mut text = prefix.to_owned();
    text.append(detail.as_str());
    text
}

/// Only a file that cannot be opened is an I/O error, and only a file without
/// pictures is a bad value.
pub proof fn law_class_follows_the_failure(error: MediaError)
    ensures
        error.spec_class() is Io <==> error is OpenFile,
        error.spec_class() is Value <==> error is NoVideoStream,
        error.spec_class() is Runtime <==> error !is OpenFile && error !is NoVideoStream,
{
}

/// Every message with a detail ends with the whole detail, behind a text that
/// only the kind of failure decides.
pub proof fn law_message_ends_with_the_detail(detail: String)
    ensures
        MediaError::Init(detail).text() == "Inisialisasi FFmpeg gagal: "@ + detail@,
        MediaError::OpenFile(detail).text() == "Buka file: "@ + detail@,
        MediaError::DecoderContext(detail).text() == "Konteks dekoder: "@ + detail@,
        MediaError::OpenDecoder(detail).text() == "Buat dekoder: "@ + detail@,
        MediaError::VideoDecoderContext(detail).text() == "Konteks dekoder video: "@ + detail@,
        MediaError::OpenVideoDecoder(detail).text() == "Buat dekoder video: "@ + detail@,
        MediaError::Seek(detail).text() == "Lompat gagal: "@ + detail@,
        MediaError::SendSeekPacket(detail).text() == "Kirim paket gagal: "@ + detail@,
        MediaError::SendPacket(detail).text() == "Kirim paket: "@ + detail@,
        MediaError::ScalingContext(detail).text() == "Buat konteks scaling: "@ + detail@,
        MediaError::ColorConversion(detail).text() == "Konversi warna gagal: "@ + detail@,
        MediaError::SpawnDecodeThread(detail).text() == "Spawn thread decode gagal: "@ + detail@,
{
}

/// Failures without a detail always have the same message; one of the shape
/// names what is wrong with it.
pub proof fn law_other_messages_are_fixed(fault: ShapeFault)
    ensures
        MediaError::NoVideoStream.text() == "Tidak ada aliran video"@,
        MediaError::FrameNotFound.text() == "Bingkai tidak ditemukan"@,
        MediaError::UnreadableFrame.text() == "Tidak dapat membaca bingkai"@,
        MediaError::EndOfVideo.text() == "Akhir video"@,
        MediaError::Array(fault).text() == "Array gagal: "@ + match fault {
            ShapeFault::Overflow => "ShapeError/Overflow: arithmetic overflow"@,
            ShapeFault::OutOfBounds => "ShapeError/OutOfBounds: out of bounds indexing"@,
            ShapeFault::IncompatibleShape => "ShapeError/IncompatibleShape: incompatible shapes"@,
        },
{
}

/// The class and the message that are raised are those of the failure.
pub proof fn law_raised_error_is_the_failure(
    error: &MediaError,
    class: ErrorClass,
    message: String,
)
    requires
        call_ensures(MediaError::class, (error,), class),
        call_ensures(MediaError::message, (error,), message),
    ensures
        class is Io <==> error is OpenFile,
        class is Value <==> error is NoVideoStream,
        message@ == error.text(),
{
}

} // verus!
