//! GPU Renderer Module
//!
//! What the renderer decides: the format and mode of its surface, the sizes of its
//! textures, and whether a frame can be uploaded.

use vstd::prelude::*;

use crate::decoder::DecodedFrame;
use crate::overlay::{Overlay, OverlayDrawing};
use crate::stats::{Figures, StreamStats};
use crate::text::push_decimal;

verus! {

use crate::decoder::RawFrame;
use crate::overlay::overlay_text;
use crate::text::decimal;

/// How finished pictures reach the screen.
#[derive(Debug, Clone, Copy, PartialEq, Eq, Structural)]
pub enum PresentMode {
    /// At once, even if the picture tears.
    Immediate,
    /// At the next refresh, the latest picture first.
    Mailbox,
    /// At the next refresh, in order.
    Fifo,
    Other,
}

/// GPU renderer for video frames with NV12 YUV-to-RGB conversion
#[derive(Debug, Clone, Copy, PartialEq, Eq)]
pub struct Renderer {
    /// The size of the surface.
    pub width: u32,
    pub height: u32,
    /// The size of the frames that the textures are made for.
    pub current_texture_size: (u32, u32),
    /// Stats overlay
    pub overlay: Overlay,
}

/// The size of a texture or of a part of it.
#[derive(Debug, Clone, Copy, PartialEq, Eq, Structural)]
pub struct Extent {
    pub width: u32,
    pub height: u32,
}

/// The sizes of the textures for both planes of a frame.
#[derive(Debug, Clone, Copy, PartialEq, Eq, Structural)]
pub struct TextureSizes {
    pub y: Extent,
    pub uv: Extent,
}

/// How the bytes of a plane go into its texture.
#[derive(Debug, Clone, Copy, PartialEq, Eq, Structural)]
pub struct PlaneLayout {
    pub bytes_per_row: u32,
    pub rows: u32,
    pub extent: Extent,
}

/// How both planes of a frame go into their textures.
#[derive(Debug, Clone, Copy, PartialEq, Eq, Structural)]
pub struct Upload {
    pub y: PlaneLayout,
    pub uv: PlaneLayout,
}

/// A plane does not have the size that its frame announces.
#[derive(Debug, Clone, Copy, PartialEq, Eq, Structural)]
pub enum PlaneMismatch {
    Y { expected: usize, got: usize },
    Uv { expected: usize, got: usize },
}

/// The first format in which colours are sRGB, or else the first one, by position.
pub open spec fn preferred_format(srgb: Seq<bool>) -> int {
    if exists|i: int| 0 <= i < srgb.len() && srgb[i] {
        first_set(srgb)
    } else {
        0
    }
}

/// Where the first mark stands.
pub open spec fn first_set(marks: Seq<bool>) -> int
    decreases marks.len(),
{
    if marks.len() == 0 || marks[0] {
        0
    } else {
        1 + first_set(marks.skip(1))
    }
}

proof fn lemma_first_set(marks: Seq<bool>, at: int)
    requires
        0 <= at < marks.len(),
        marks[at],
        forall|i: int| 0 <= i < at ==> !marks[i],
    ensures
        first_set(marks) == at,
    decreases at,
{
    if at > 0 {
        assert(!marks[0]);
        let rest = marks.skip(1);
        assert forall|i: int| 0 <= i < at - 1 implies !rest[i] by {
            assert(rest[i] == marks[i + 1]);
        }
        lemma_first_set(rest, at - 1);
    }
}

/// The surface format to use, given which ones are sRGB
pub fn choose_format(srgb: &Vec<bool>) -> (at: usize)
    requires
        srgb.len() > 0,
    ensures
        at < srgb.len(),
        at == preferred_format(srgb@),
{
    for i in 0..srgb.len()
        invariant
            forall|j: int| 0 <= j < i ==> !srgb@[j],
    {
        if srgb[i] {
            proof {
                lemma_first_set(srgb@, i as int);
            }
            return i;
        }
    }
    0
}

/// The mode with the lowest latency among those that there are.
pub open spec fn preferred_mode(available: Seq<PresentMode>) -> PresentMode {
    if available.contains(PresentMode::Immediate) {
        PresentMode::Immediate
    } else if available.contains(PresentMode::Mailbox) {
        PresentMode::Mailbox
    } else {
        PresentMode::Fifo
    }
}

fn has_mode(available: &Vec<PresentMode>, mode: PresentMode) -> (has: bool)
    ensures
        has == available@.contains(mode),
{
    for i in 0..available.len()
        invariant
            forall|j: int| 0 <= j < i ==> available@[j] != mode,
    {
        if available[i] == mode {
            assert(available@[i as int] == mode);
            return true;
        }
    }
    false
}

/// Select lowest latency present mode available
/// Priority: Immediate (lowest latency, may tear) > Mailbox > Fifo (VSync)
pub fn choose_present_mode(available: &Vec<PresentMode>) -> (mode: PresentMode)
    ensures
        mode == preferred_mode(available@),
{
    if has_mode(available, PresentMode::Immediate) {
        PresentMode::Immediate
    } else if has_mode(available, PresentMode::Mailbox) {
        PresentMode::Mailbox
    } else {
        PresentMode::Fifo
    }
}

/// The luma texture has the size of the frame, the chroma texture half of it.
pub open spec fn sizes_for(width: u32, height: u32) -> TextureSizes {
    TextureSizes {
        y: Extent { width, height },
        uv: Extent { width: width / 2, height: height / 2 },
    }
}

/// The sizes of the textures for frames of a size
pub fn texture_sizes(width: u32, height: u32) -> (sizes: TextureSizes)
    ensures
        sizes == sizes_for(width, height),
{
    TextureSizes {
        y: Extent { width, height },
        uv: Extent { width: width / 2, height: height / 2 },
    }
}

/// How the planes of a frame with a size are uploaded: one byte per pixel, and two
/// bytes per pixel at half the width.
pub open spec fn upload_of(width: u32, height: u32) -> Upload {
    let sizes = sizes_for(width, height);
    Upload {
        y: PlaneLayout { bytes_per_row: width, rows: height, extent: sizes.y },
        uv: PlaneLayout { bytes_per_row: width, rows: height / 2, extent: sizes.uv },
    }
}

/// Whether both planes have the sizes that a frame announces, or which one does not.
pub open spec fn check_planes(frame: DecodedFrame) -> Result<Upload, PlaneMismatch> {
    let pixels = frame.width * frame.height;
    if frame.y_data@.len() != pixels {
        Err(PlaneMismatch::Y { expected: pixels as usize, got: frame.y_data@.len() as usize })
    } else if frame.uv_data@.len() != pixels / 2 {
        Err(
            PlaneMismatch::Uv {
                expected: (pixels / 2) as usize,
                got: frame.uv_data@.len() as usize,
            },
        )
    } else {
        Ok(upload_of(frame.width, frame.height))
    }
}

impl PlaneMismatch {
    /// The message that tells of the mismatch.
    pub open spec fn text(self) -> Seq<char> {
        match self {
            PlaneMismatch::Y { expected, got } => "Y plane size mismatch: expected "@ + decimal(
                expected as nat,
            ) + " bytes, got "@ + decimal(got as nat) + " bytes"@,
            PlaneMismatch::Uv { expected, got } => "UV plane size mismatch: expected "@ + decimal(
                expected as nat,
            ) + " bytes, got "@ + decimal(got as nat) + " bytes"@,
        }
    }

    /// The message that tells of the mismatch.
    pub fn message(&self) -> (message: String)
        ensures
            message@ == self.text(),
    {
        match self {
            PlaneMismatch::Y { expected, got } => mismatch_message(
                "Y plane size mismatch: expected ",
                *expected,
                *got,
            ),
            PlaneMismatch::Uv { expected, got } => mismatch_message(
                "UV plane size mismatch: expected ",
                *expected,
                *got,
            ),
        }
    }
}

fn mismatch_message(start: &str, expected: usize, got: usize) -> (message: String)
    ensures
        message@ == start@ + decimal(expected as nat) + " bytes, got "@ + decimal(got as nat)
            + " bytes"@,
{
    let mut message: String = start.to_string();
    push_decimal(&mut message, expected as u64);
    message.append(" bytes, got ");
    push_decimal(&mut message, got as u64);
    message.append(" bytes");
    message
}

impl Renderer {
    /// Create a new renderer for a window of a size, which counts as one pixel where
    /// it is none
    pub fn new_from_raw(width: u32, height: u32, now_ns: u64) -> (renderer: Self)
        ensures
            renderer.width == if width > 0 {
                width
            } else {
                1
            },
            renderer.height == if height > 0 {
                height
            } else {
                1
            },
            renderer.current_texture_size == (1920u32, 1080u32),
            renderer.overlay == (Overlay {
                visible: true,
                last_update_ns: now_ns,
                needs_prepare: true,
            }),
    {
        Renderer {
            width: if width > 0 {
                width
            } else {
                1
            },
            height: if height > 0 {
                height
            } else {
                1
            },
            current_texture_size: (1920, 1080),
            overlay: Overlay::new(now_ns),
        }
    }

    /// Resize the surface: whether it has to be configured anew
    pub fn resize(&mut self, width: u32, height: u32) -> (configure: bool)
        ensures
            configure == (width > 0 && height > 0),
            *final(self) == if configure {
                Renderer { width, height, ..*old(self) }
            } else {
                *old(self)
            },
    {
        if width > 0 && height > 0 {
            self.width = width;
            self.height = height;
            true
        } else {
            false
        }
    }

    /// Upload a decoded NV12 frame to the GPU: the textures to make first, where the
    /// size of the frames has changed, and how to upload the planes, unless one does
    /// not have the right size
    pub fn upload_frame(&mut self, frame: &DecodedFrame) -> (upload: (
        Option<TextureSizes>,
        Result<Upload, PlaneMismatch>,
    ))
        requires
            frame.width * frame.height <= u32::MAX,
        ensures
            upload.0 == if (frame.width, frame.height) == old(self).current_texture_size {
                None::<TextureSizes>
            } else {
                Some(sizes_for(frame.width, frame.height))
            },
            upload.1 == check_planes(*frame),
            *final(self) == (Renderer {
                current_texture_size: (frame.width, frame.height),
                ..*old(self)
            }),
    {
        let textures = if frame.width != self.current_texture_size.0 || frame.height
            != self.current_texture_size.1 {
            Some(self.recreate_texture(frame.width, frame.height))
        } else {
            None
        };
        let expected_y: usize = (frame.width * frame.height) as usize;
        let y_len: usize = frame.y_data.len();
        if y_len != expected_y {
            return (textures, Err(PlaneMismatch::Y { expected: expected_y, got: y_len }));
        }
        let expected_uv: usize = (frame.width * frame.height / 2) as usize;
        let uv_len: usize = frame.uv_data.len();
        if uv_len != expected_uv {
            return (textures, Err(PlaneMismatch::Uv { expected: expected_uv, got: uv_len }));
        }
        let sizes = texture_sizes(frame.width, frame.height);
        let upload = Upload {
            y: PlaneLayout { bytes_per_row: frame.width, rows: frame.height, extent: sizes.y },
            uv: PlaneLayout {
                bytes_per_row: frame.width,
                rows: frame.height / 2,
                extent: sizes.uv,
            },
        };
        (textures, Ok(upload))
    }

    /// Recreate NV12 textures with new size
    fn recreate_texture(&mut self, width: u32, height: u32) -> (sizes: TextureSizes)
        ensures
            sizes == sizes_for(width, height),
            *final(self) == (Renderer { current_texture_size: (width, height), ..*old(self) }),
    {
        self.current_texture_size = (width, height);
        texture_sizes(width, height)
    }

    /// Render a frame with stats overlay: the new text of the overlay, where it has
    /// one, and what drawing it takes
    pub fn render(&mut self, now_ns: u64, stats: &StreamStats, figures: &Figures) -> (overlay: (
        Option<String>,
        OverlayDrawing,
    ))
        ensures
            match overlay.0 {
                Some(text) => {
                    &&& old(self).overlay.is_due(now_ns)
                    &&& text@ == overlay_text(*stats, *figures)
                    &&& *final(self) == (Renderer {
                        overlay: Overlay {
                            last_update_ns: now_ns,
                            needs_prepare: true,
                            ..old(self).overlay
                        },
                        ..*old(self)
                    })
                },
                None => !old(self).overlay.is_due(now_ns) && *final(self) == *old(self),
            },
            overlay.1 == if !old(self).overlay.visible {
                OverlayDrawing::Nothing
            } else if overlay.0 is Some || old(self).overlay.needs_prepare {
                OverlayDrawing::PrepareAndDraw
            } else {
                OverlayDrawing::Draw
            },
    {
        let text = self.overlay.update(now_ns, stats, figures);
        let drawing = self.overlay.render();
        (text, drawing)
    }

    /// Toggle stats overlay visibility
    pub fn toggle_overlay(&mut self)
        ensures
            *final(self) == (Renderer {
                overlay: Overlay {
                    visible: !old(self).overlay.visible,
                    ..old(self).overlay
                },
                ..*old(self)
            }),
    {
        self.overlay.toggle();
    }

    /// Check if overlay is visible
    pub fn is_overlay_visible(&self) -> (visible: bool)
        ensures
            visible == self.overlay.visible,
    {
        self.overlay.is_visible()
    }
}

/// A frame that comes from the decoder is always accepted: its planes have the sizes
/// that a picture of its size asks for.
pub proof fn decoded_frames_are_accepted(picture: RawFrame<'_>, frame: DecodedFrame)
    requires
        frame.width == picture.width,
        frame.height == picture.height,
        frame.y_data@.len() == picture.pixels(),
        frame.uv_data@.len() == picture.uv_size(),
    ensures
        check_planes(frame) == Ok::<Upload, PlaneMismatch>(upload_of(frame.width, frame.height)),
{
}

/// An upload reads nothing beyond the planes that it was checked against.
pub proof fn uploads_stay_within_the_planes(frame: DecodedFrame)
    requires
        check_planes(frame) is Ok,
    ensures
        ({
            let upload = upload_of(frame.width, frame.height);
            &&& upload.y.bytes_per_row * upload.y.rows <= frame.y_data@.len()
            &&& upload.y.extent.width <= upload.y.bytes_per_row
            &&& upload.uv.bytes_per_row * upload.uv.rows <= frame.uv_data@.len()
            &&& 2 * upload.uv.extent.width <= upload.uv.bytes_per_row
        }),
{
    let w = frame.width as int;
    let h = frame.height as int;
    assert(w * (h / 2) <= w * h / 2) by (nonlinear_arith)
        requires
            0 <= w,
            2 * (h / 2) <= h,
    ;
}

/// The format that is taken is one with sRGB colours if there is one, and the first of
/// those; else it is the first of all.
pub proof fn first_srgb_format_is_taken(srgb: Seq<bool>, at: int)
    requires
        0 <= at < srgb.len(),
    ensures
        srgb[at] && (forall|i: int| 0 <= i < at ==> !srgb[i]) ==> preferred_format(srgb) == at,
        (forall|i: int| 0 <= i < srgb.len() ==> !srgb[i]) ==> preferred_format(srgb) == 0,
{
    if srgb[at] && forall|i: int| 0 <= i < at ==> !srgb[i] {
        lemma_first_set(srgb, at);
    }
}

/// The mode that is taken is there, or the one that is always there, and no faster one
/// is: none is faster than immediate, and only that is faster than the mailbox.
pub proof fn no_mode_is_faster(available: Seq<PresentMode>)
    ensures
        preferred_mode(available) is Immediate <==> available.contains(PresentMode::Immediate),
        preferred_mode(available) is Mailbox <==> available.contains(PresentMode::Mailbox)
            && !available.contains(PresentMode::Immediate),
        !available.contains(preferred_mode(available)) ==> preferred_mode(available) is Fifo,
        !(preferred_mode(available) is Other),
{
}

/// The luma texture has the size of the frame, and each side of the chroma texture is
/// half as long, rounded down.
pub proof fn chroma_is_half_the_size(width: u32, height: u32)
    ensures
        ({
            let sizes = sizes_for(width, height);
            &&& sizes.y.width == width && sizes.y.height == height
            &&& 2 * sizes.uv.width <= width < 2 * sizes.uv.width + 2
            &&& 2 * sizes.uv.height <= height < 2 * sizes.uv.height + 2
        }),
{
}

/// A frame is refused exactly if one of its planes does not have a byte for each pixel,
/// or for each two; the luma plane is told of first, with both lengths. A frame that is
/// accepted is uploaded row by row, each row as wide as the frame, into the whole of
/// both textures.
pub proof fn frames_are_checked_before_they_are_uploaded(frame: DecodedFrame)
    requires
        frame.width * frame.height <= u32::MAX,
    ensures
        ({
            let y = frame.y_data@.len();
            let uv = frame.uv_data@.len();
            let pixels = frame.width * frame.height;
            let sizes = sizes_for(frame.width, frame.height);
            match check_planes(frame) {
                Ok(upload) => {
                    &&& y == pixels && 2 * uv <= pixels < 2 * uv + 2
                    &&& upload.y.bytes_per_row == frame.width
                    &&& upload.y.rows == frame.height
                    &&& upload.y.extent == sizes.y
                    &&& upload.uv.bytes_per_row == frame.width
                    &&& upload.uv.rows == sizes.uv.height
                    &&& upload.uv.extent == sizes.uv
                },
                Err(PlaneMismatch::Y { expected, got }) => y != pixels && expected == pixels
                    && got == y as usize,
                Err(PlaneMismatch::Uv { expected, got }) => y == pixels && !(2 * uv <= pixels < 2
                    * uv + 2) && 2 * expected <= pixels < 2 * expected + 2 && got == uv as usize,
            }
        }),
{
}

/// The message of a mismatch names the plane, the length that was expected and the one
/// that was got.
pub proof fn mismatches_name_both_lengths(expected: usize, got: usize)
    ensures
        (PlaneMismatch::Y { expected, got }).text() == "Y plane size mismatch: expected "@
            + decimal(expected as nat) + " bytes, got "@ + decimal(got as nat) + " bytes"@,
        (PlaneMismatch::Uv { expected, got }).text() == "UV plane size mismatch: expected "@
            + decimal(expected as nat) + " bytes, got "@ + decimal(got as nat) + " bytes"@,
{
}

} // verus!
