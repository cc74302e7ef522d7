//! Clipboard text for pasting, screenshots to the clipboard, and JPEG
//! encoding of screenshots.

use vstd::prelude::*;
use crate::frame::RgbaFrame;

verus! {

/// Reads clipboard text: the system clipboard in production, fakes in tests.
/// An implementation says in `answers` which results its reads may give.
pub trait ClipboardReader {
    /// Whether `r` is a result a read may give.
    spec fn answers(&self, r: Result<String, String>) -> bool;

    fn read_text(&self) -> (r: Result<String, String>)
        ensures
            self.answers(r),
    ;
}

/// The operating system's clipboard.
pub struct SystemClipboard;

#[verifier::external_type_specification]
#[verifier::external_body]
pub struct ExClipboard(arboard::Clipboard);

/// Opens the system clipboard through `arboard::Clipboard::new`; the error is
/// the library's error text. Whether it opens depends on the desktop session.
#[verifier::external_body]
fn open_clipboard() -> Result<arboard::Clipboard, String> {
    match arboard::Clipboard::new() {
        Ok(c) => Ok(c),
        Err(e) => Err(e.to_string()),
    }
}

/// Reads text through `arboard::Clipboard::get_text`; what comes back depends
/// on the clipboard's current contents.
#[verifier::external_body]
fn clipboard_text(clipboard: &mut arboard::Clipboard) -> Result<String, String> {
    match clipboard.get_text() {
        Ok(t) => Ok(t),
        Err(e) => Err(e.to_string()),
    }
}

/// Places a frame's RGBA pixels on the clipboard through
/// `arboard::Clipboard::set_image`, with the frame's width and height;
/// whether that succeeds depends on the desktop session. The PNG encoding
/// behind it panics unless the buffer holds exactly width × height × 4
/// bytes, hence the requirement.
#[verifier::external_body]
fn clipboard_set_image(clipboard: &mut arboard::Clipboard, frame: &RgbaFrame) -> Result<(), String>
    requires
        frame.pixels@.len() == frame.width * frame.height * 4,
{
    let image = arboard::ImageData {
        width: frame.width as usize,
        height: frame.height as usize,
        bytes: std::borrow::Cow::Borrowed(frame.pixels.as_slice()),
    };
    match clipboard.set_image(image) {
        Ok(()) => Ok(()),
        Err(e) => Err(e.to_string()),
    }
}

impl ClipboardReader for SystemClipboard {
    /// The system clipboard may hold any text, or fail to be read.
    closed spec fn answers(&self, r: Result<String, String>) -> bool {
        true
    }

    fn read_text(&self) -> (r: Result<String, String>) {
        match open_clipboard() {
            Ok(mut clipboard) => clipboard_text(&mut clipboard),
            Err(e) => Err(e),
        }
    }
}

/// Reads clipboard text through the given reader and returns its answer
/// unchanged, text or error; an empty clipboard gives `Ok("")` and the caller
/// chooses what to tell the user.
pub fn read_clipboard_text<R: ClipboardReader>(reader: &R) -> (r: Result<String, String>)
    ensures
        reader.answers(r),
{
    reader.read_text()
}

/// Why a clipboard or screenshot operation failed.
#[derive(Debug, PartialEq, Eq)]
pub enum ClipboardError {
    Read(String),
    Write(String),
    Jpeg(String),
    Io(String),
    EmptyFrame,
    DimensionsTooLarge,
}

/// Clipboard access of the desktop console.
pub struct ClipboardService;

impl ClipboardService {
    /// Text currently on the system clipboard; failures are `Read` errors.
    pub fn read_text() -> (r: Result<String, ClipboardError>)
        ensures
            r matches Err(e) ==> e is Read,
    {
        match open_clipboard() {
            Ok(mut clipboard) => match clipboard_text(&mut clipboard) {
                Ok(t) => Ok(t),
                Err(e) => Err(ClipboardError::Read(e)),
            },
            Err(e) => Err(ClipboardError::Read(e)),
        }
    }

    /// Copies a frame to the clipboard as an image: the frame itself, with
    /// its width, height and pixels, is what the clipboard receives. An empty
    /// frame is refused before the clipboard is touched; clipboard failures
    /// are `Write` errors. A frame whose pixels do not fill width × height × 4
    /// bytes makes the clipboard's image encoder panic, so it is left out.
    pub fn copy_image(frame: &RgbaFrame) -> (r: Result<(), ClipboardError>)
        requires
            frame.width == 0 || frame.height == 0 || frame.pixels@.len() == frame.width
                * frame.height * 4,
        ensures
            (frame.width == 0 || frame.height == 0) ==> r == Err::<(), ClipboardError>(
                ClipboardError::EmptyFrame,
            ),
            r matches Err(e) ==> (e is EmptyFrame && (frame.width == 0 || frame.height == 0)) || (
            e is Write && frame.width > 0 && frame.height > 0),
    {
        if frame.width == 0 || frame.height == 0 {
            return Err(ClipboardError::EmptyFrame);
        }
        match open_clipboard() {
            Ok(mut clipboard) => match clipboard_set_image(&mut clipboard, frame) {
                Ok(()) => Ok(()),
                Err(e) => Err(ClipboardError::Write(e)),
            },
            Err(e) => Err(ClipboardError::Write(e)),
        }
    }
}

/// JPEG quality of saved screenshots.
pub const JPEG_QUALITY: u8 = 85;

/// The JPEG file that `jpeg_encoder` produces for these RGBA pixels.
pub uninterp spec fn jpeg_rgba_bytes(pixels: Seq<u8>, width: u16, height: u16, quality: u8) -> Seq<u8>;

/// Encodes RGBA pixels into a JPEG held in memory through
/// `jpeg_encoder::Encoder::encode` (writing to a `Vec` cannot fail). The
/// encoder refuses data shorter than width × height × 4 and zero dimensions;
/// otherwise it produces the JPEG named by [`jpeg_rgba_bytes`]. It computes
/// width × height × 4 in `usize` unchecked, hence the requirement.
#[verifier::external_body]
fn encode_jpeg_rgba(pixels: &[u8], width: u16, height: u16, quality: u8) -> (r: Result<Vec<u8>, String>)
    requires
        width * height * 4 <= usize::MAX,
    ensures
        r is Ok <==> (pixels@.len() >= width * height * 4 && width > 0 && height > 0),
        r matches Ok(bytes) ==> bytes@ == jpeg_rgba_bytes(pixels@, width, height, quality),
{
    let mut out: Vec<u8> = Vec::new();
    match jpeg_encoder::Encoder::new(&mut out, quality).encode(
        pixels,
        width,
        height,
        jpeg_encoder::ColorType::Rgba,
    ) {
        Ok(()) => Ok(out),
        Err(e) => Err(e.to_string()),
    }
}

/// A screenshot as JPEG bytes (quality 85). An empty frame and a frame wider
/// or taller than 65535 pixels are refused; encoder failures are `Jpeg` errors.
/// The encoder's buffer size width × height × 4 must fit in `usize` (always
/// so where `usize` has 64 bits).
pub fn encode_screenshot_jpeg(frame: &RgbaFrame) -> (r: Result<Vec<u8>, ClipboardError>)
    requires
        frame.width <= 65535 && frame.height <= 65535 ==> frame.width * frame.height * 4
            <= usize::MAX,
    ensures
        (frame.width == 0 || frame.height == 0) ==> r == Err::<Vec<u8>, ClipboardError>(
            ClipboardError::EmptyFrame,
        ),
        (frame.width > 0 && frame.height > 0 && (frame.width > 65535 || frame.height > 65535))
            ==> r == Err::<Vec<u8>, ClipboardError>(ClipboardError::DimensionsTooLarge),
        (frame.width > 0 && frame.height > 0 && frame.width <= 65535 && frame.height <= 65535)
            ==> match r {
            Ok(bytes) => frame.pixels@.len() >= frame.width * frame.height * 4 && bytes@
                == jpeg_rgba_bytes(frame.pixels@, frame.width as u16, frame.height as u16, JPEG_QUALITY),
            Err(e) => e is Jpeg && frame.pixels@.len() < frame.width * frame.height * 4,
        },
{
    if frame.width == 0 || frame.height == 0 {
        return Err(ClipboardError::EmptyFrame);
    }
    if frame.width > 65535 || frame.height > 65535 {
        return Err(ClipboardError::DimensionsTooLarge);
    }
    let width = frame.width as u16;
    let height = frame.height as u16;
    match encode_jpeg_rgba(frame.pixels.as_slice(), width, height, JPEG_QUALITY) {
        Ok(bytes) => Ok(bytes),
        Err(e) => Err(ClipboardError::Jpeg(e)),
    }
}

} // verus!
