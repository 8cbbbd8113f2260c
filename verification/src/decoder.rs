//! Video Decoder Module
//!
//! What surrounds the codec: the NAL units that RTP payloads carry go in, and the
//! planes of a picture come out in the layout that the renderer takes.

use std::sync::Arc;
use vstd::prelude::*;

verus! {

/// The width and height that a decoder is prepared for.
pub const PREPARED_WIDTH: u32 = 1920;

pub const PREPARED_HEIGHT: u32 = 1080;

/// The number of pixels of a picture with the prepared size.
pub const PREPARED_PIXELS: usize = 2_073_600;

/// Video codec type
#[derive(Debug, Clone, Copy, PartialEq, Eq, Structural)]
pub enum VideoCodec {
    H264,
    H265,
    Unknown,
}

/// Decoded video frame ready for rendering
#[derive(Clone)]
pub struct DecodedFrame {
    pub width: u32,
    pub height: u32,
    pub y_data: Arc<Vec<u8>>,
    pub uv_data: Arc<Vec<u8>>,
    pub pts: u64,
}

/// The state around the codec, with buffers that are kept from frame to frame
pub struct VideoDecoder {
    pub frames_decoded: u64,
    pub nal_buffer: Vec<u8>,
    pub width: u32,
    pub height: u32,
    pub is_hardware: bool,
    pub y_buffer: Vec<u8>,
    pub uv_buffer: Vec<u8>,
}

/// The codecs that are tried.
#[derive(Debug, Clone, Copy, PartialEq, Eq, Structural)]
pub enum Backend {
    Hardware,
    Software,
}

impl Backend {
    /// The codec that is tried first.
    pub fn first(hw_accel: bool) -> (backend: Backend)
        ensures
            backend == if hw_accel {
                Backend::Hardware
            } else {
                Backend::Software
            },
    {
        if hw_accel {
            Backend::Hardware
        } else {
            Backend::Software
        }
    }

    /// The codec that is tried after this one could not be had.
    pub fn fallback(self) -> (backend: Option<Backend>)
        ensures
            backend == match self {
                Backend::Hardware => Some(Backend::Software),
                Backend::Software => None,
            },
    {
        match self {
            Backend::Hardware => Some(Backend::Software),
            Backend::Software => None,
        }
    }

    /// The number of threads that the codec gets. The hardware is parallel by
    /// itself.
    pub fn thread_count(self) -> (count: i32)
        ensures
            count == match self {
                Backend::Hardware => 1int,
                Backend::Software => 4,
            },
    {
        match self {
            Backend::Hardware => 1,
            Backend::Software => 4,
        }
    }
}

/// The name of the hardware codec.
pub fn hardware_codec_name(macos: bool) -> (name: &'static str)
    ensures
        name@ == if macos {
            "h264_videotoolbox"@
        } else {
            "h264_cuvid"@
        },
{
    if macos {
        "h264_videotoolbox"
    } else {
        "h264_cuvid"
    }
}

/// The bytes that begin each NAL unit in a byte stream.
pub open spec fn start_code() -> Seq<u8> {
    seq![0u8, 0, 0, 1]
}

/// The kind of NAL unit that a header byte announces.
pub open spec fn nal_type(header: u8) -> u8 {
    header & 0x1F
}

/// The units of an aggregate, each behind a start code: a length of two bytes, most
/// significant first, then as many bytes. A unit that is cut short ends the list.
pub open spec fn aggregated_units(s: Seq<u8>) -> Seq<u8>
    decreases s.len(),
{
    if s.len() < 2 {
        Seq::empty()
    } else {
        let size = s[0] * 256 + s[1];
        if 2 + size <= s.len() {
            start_code() + s.subrange(2, 2 + size) + aggregated_units(s.skip(2 + size))
        } else {
            Seq::empty()
        }
    }
}

pub open spec fn is_first_fragment(fu_header: u8) -> bool {
    (fu_header & 0x80) != 0
}

pub open spec fn is_last_fragment(fu_header: u8) -> bool {
    (fu_header & 0x40) != 0
}

/// The header of the unit that a fragment belongs to.
pub open spec fn unit_header(header: u8, fu_header: u8) -> u8 {
    (header & 0xE0) | (fu_header & 0x1F)
}

/// The unit under assembly once a fragment has come: the first one begins a new
/// unit, and others only add to a unit that was begun.
pub open spec fn assembled(buffer: Seq<u8>, data: Seq<u8>) -> Seq<u8> {
    if is_first_fragment(data[1]) {
        start_code().push(unit_header(data[0], data[1])) + data.skip(2)
    } else if buffer.len() > 0 {
        buffer + data.skip(2)
    } else {
        buffer
    }
}

/// What an RTP payload leads to: the byte stream that it completes, and the unit
/// that stays under assembly.
pub open spec fn unpacked(buffer: Seq<u8>, data: Seq<u8>) -> (Seq<u8>, Seq<u8>) {
    if data.len() == 0 {
        (Seq::empty(), buffer)
    } else if 1 <= nal_type(data[0]) <= 23 {
        (start_code() + data, buffer)
    } else if nal_type(data[0]) == 24 {
        (aggregated_units(data.skip(1)), buffer)
    } else if nal_type(data[0]) == 28 && data.len() >= 2 {
        let unit = assembled(buffer, data);
        if is_last_fragment(data[1]) {
            (unit, Seq::empty())
        } else {
            (Seq::empty(), unit)
        }
    } else {
        (Seq::empty(), buffer)
    }
}

/// The layouts of a picture that are understood.
#[derive(Debug, Clone, Copy, PartialEq, Eq, Structural)]
pub enum PixelFormat {
    Nv12,
    Yuv420p,
    Other,
}

/// One plane of a picture: rows that begin `stride` bytes apart.
#[derive(Debug, Clone, Copy)]
pub struct Plane<'a> {
    pub data: &'a [u8],
    pub stride: usize,
}

/// A picture as the codec hands it out. The second plane holds both colours in
/// `Nv12`, and only the first of them in `Yuv420p`.
#[derive(Debug, Clone, Copy)]
pub struct RawFrame<'a> {
    pub width: u32,
    pub height: u32,
    pub format: PixelFormat,
    pub planes: [Plane<'a>; 3],
}

impl<'a> Plane<'a> {
    /// Whether the plane has `count` rows of `width` bytes.
    pub open spec fn holds(&self, width: int, count: int) -> bool {
        count > 0 ==> (count - 1) * self.stride + width <= self.data@.len()
    }

    /// The first `count` rows of the plane, each cut to `width` bytes.
    pub open spec fn rows(&self, width: int, count: int) -> Seq<u8>
        decreases count,
    {
        if count <= 0 {
            Seq::empty()
        } else {
            self.rows(width, count - 1) + self.data@.subrange(
                (count - 1) * self.stride,
                (count - 1) * self.stride + width,
            )
        }
    }
}

/// Two byte strings, byte by byte in turn.
pub open spec fn interleaved(a: Seq<u8>, b: Seq<u8>) -> Seq<u8>
    decreases a.len(),
{
    if a.len() == 0 {
        Seq::empty()
    } else {
        interleaved(a.drop_last(), b.drop_last()).push(a.last()).push(b.last())
    }
}

pub open spec fn filled(value: u8, count: int) -> Seq<u8> {
    Seq::new(count as nat, |i: int| value)
}

/// A buffer that has at least `size` bytes, the new ones zero.
pub open spec fn grown(buffer: Seq<u8>, size: int) -> Seq<u8> {
    if buffer.len() < size {
        buffer + filled(0, size - buffer.len())
    } else {
        buffer
    }
}

/// A buffer whose front has been written over.
pub open spec fn overwritten(buffer: Seq<u8>, front: Seq<u8>) -> Seq<u8> {
    front + buffer.skip(front.len() as int)
}

impl<'a> RawFrame<'a> {
    pub open spec fn pixels(&self) -> int {
        self.width * self.height
    }

    /// The bytes of both colours at half the resolution.
    pub open spec fn uv_size(&self) -> int {
        self.width * self.height / 2
    }

    /// Whether the planes hold as much as the picture's size asks for.
    pub open spec fn complete(&self) -> bool {
        let w = self.width as int;
        let h = self.height as int;
        &&& w * h <= isize::MAX
        &&& match self.format {
            PixelFormat::Nv12 => {
                &&& self.planes[0].holds(w, h)
                &&& if self.planes[1].stride == w {
                    self.uv_size() <= self.planes[1].data@.len()
                } else {
                    self.planes[1].holds(w, h / 2)
                }
            },
            PixelFormat::Yuv420p => {
                &&& self.planes[0].holds(w, h)
                &&& w >= 2 ==> self.planes[1].holds(w / 2, h / 2)
                &&& w >= 2 ==> self.planes[2].holds(w / 2, h / 2)
            },
            PixelFormat::Other => true,
        }
    }

    /// The brightness of the picture: its rows, or black where the layout is not
    /// understood.
    pub open spec fn brightness(&self) -> Seq<u8> {
        match self.format {
            PixelFormat::Other => filled(0, self.pixels()),
            _ => self.planes[0].rows(self.width as int, self.height as int),
        }
    }

    /// The colour of the picture, in pairs, as far as it goes: where a size is odd,
    /// a remainder is not covered.
    pub open spec fn colour(&self) -> Seq<u8> {
        let w = self.width as int;
        let h = self.height as int;
        match self.format {
            PixelFormat::Nv12 => if self.planes[1].stride == w {
                self.planes[1].data@.take(self.uv_size())
            } else {
                self.planes[1].rows(w, h / 2)
            },
            PixelFormat::Yuv420p => if w >= 2 {
                interleaved(
                    self.planes[1].rows(w / 2, h / 2),
                    self.planes[2].rows(w / 2, h / 2),
                )
            } else {
                Seq::empty()
            },
            PixelFormat::Other => filled(128, self.uv_size()),
        }
    }
}

fn overwrite(buffer: &mut Vec<u8>, at: usize, data: &[u8], from: usize, count: usize)
    requires
        at + count <= old(buffer).len(),
        from + count <= data.len(),
    ensures
        final(buffer)@ == old(buffer)@.take(at as int) + data@.subrange(
            from as int,
            from + count,
        ) + old(buffer)@.skip(at + count),
{
    let ghost before = buffer@;
    for i in 0..count
        invariant
            at + count <= before.len(),
            buffer.len() == before.len(),
            from + count <= data.len(),
            buffer@ == before.take(at as int) + data@.subrange(from as int, from + i)
                + before.skip(at + i),
    {
        buffer.set(at + i, data[from + i]);
        assert(buffer@ =~= before.take(at as int) + data@.subrange(from as int, from + i + 1)
            + before.skip(at + i + 1));
    }
    assert(buffer@ =~= before.take(at as int) + data@.subrange(from as int, from + count)
        + before.skip(at + count));
}

proof fn lemma_rows_len(plane: Plane<'_>, width: int, count: int)
    requires
        0 <= width,
        0 <= count,
        plane.holds(width, count),
    ensures
        plane.rows(width, count).len() == count * width,
    decreases count,
{
    if count > 0 {
        assert((count - 1) * plane.stride >= 0) by (nonlinear_arith)
            requires
                count > 0,
                plane.stride >= 0,
        ;
        lemma_holds_fewer(plane, width, count, count - 1);
        lemma_rows_len(plane, width, count - 1);
        assert(count * width == (count - 1) * width + width) by (nonlinear_arith);
    } else {
        assert(count * width == 0) by (nonlinear_arith)
            requires
                count == 0,
        ;
    }
}

proof fn lemma_holds_fewer(plane: Plane<'_>, width: int, count: int, fewer: int)
    requires
        plane.holds(width, count),
        0 <= fewer <= count,
    ensures
        plane.holds(width, fewer),
{
    if fewer > 0 {
        assert((fewer - 1) * plane.stride <= (count - 1) * plane.stride) by (nonlinear_arith)
            requires
                fewer <= count,
                plane.stride >= 0,
        ;
    }
}

/// Rows without a gap between them are one run of bytes.
proof fn lemma_tight_rows(plane: Plane<'_>, width: int, count: int)
    requires
        0 <= width,
        0 <= count,
        plane.stride == width,
        plane.holds(width, count),
    ensures
        count * width <= plane.data@.len(),
        plane.rows(width, count) == plane.data@.take(count * width),
    decreases count,
{
    if count > 0 {
        lemma_holds_fewer(plane, width, count, count - 1);
        lemma_tight_rows(plane, width, count - 1);
        assert(count * width == (count - 1) * width + width) by (nonlinear_arith);
        assert((count - 1) * width >= 0) by (nonlinear_arith)
            requires
                count > 0,
                width >= 0,
        ;
        assert(plane.rows(width, count) =~= plane.data@.take(count * width));
    } else {
        assert(count * width == 0) by (nonlinear_arith)
            requires
                count == 0,
        ;
        assert(plane.rows(width, count) =~= plane.data@.take(count * width));
    }
}

fn copy_rows(buffer: &mut Vec<u8>, plane: &Plane<'_>, width: usize, count: usize)
    requires
        plane.holds(width as int, count as int),
        count * width <= old(buffer).len(),
    ensures
        final(buffer)@ == overwritten(old(buffer)@, plane.rows(width as int, count as int)),
{
    let ghost before = buffer@;
    if plane.stride == width {
        proof {
            lemma_tight_rows(*plane, width as int, count as int);
        }
        let size: usize = count * width;
        overwrite(buffer, 0, plane.data, 0, size);
        assert(buffer@ =~= overwritten(before, plane.rows(width as int, count as int)));
        return;
    }
    let len: usize = plane.data.len();
    let mut at: usize = 0;
    let mut from: usize = 0;
    assert(overwritten(before, plane.rows(width as int, 0)) =~= before);
    assert(0 * width == 0 && 0 * plane.stride == 0) by (nonlinear_arith);
    for row in 0..count
        invariant
            len == plane.data@.len(),
            plane.holds(width as int, count as int),
            count * width <= before.len(),
            buffer.len() == before.len(),
            at == row * width,
            row < count ==> from == row * plane.stride,
            buffer@ == overwritten(before, plane.rows(width as int, row as int)),
    {
        proof {
            lemma_holds_fewer(*plane, width as int, count as int, row as int);
            lemma_holds_fewer(*plane, width as int, count as int, row + 1);
            lemma_rows_len(*plane, width as int, row as int);
            lemma_rows_len(*plane, width as int, row + 1);
            assert((row + 1) * width <= count * width) by (nonlinear_arith)
                requires
                    row + 1 <= count,
                    width >= 0,
            ;
            assert((row + 1) * width == row * width + width) by (nonlinear_arith);
        }
        let ghost shorter = plane.rows(width as int, row as int);
        let ghost longer = plane.rows(width as int, row + 1);
        let ghost was = buffer@;
        overwrite(buffer, at, plane.data, from, width);
        proof {
            let line = plane.data@.subrange(row * plane.stride, row * plane.stride + width);
            assert(longer == shorter + line);
            assert(was.take(at as int) =~= shorter);
            assert(was.skip(at + width) =~= before.skip(at + width));
            assert(buffer@ =~= overwritten(before, longer));
        }
        at += width;
        if row + 1 < count {
            proof {
                assert((row + 1) * plane.stride == row * plane.stride + plane.stride)
                    by (nonlinear_arith);
                assert((row + 1) * plane.stride <= (count - 1) * plane.stride) by (nonlinear_arith)
                    requires
                        row + 1 <= count - 1,
                        plane.stride >= 0,
                ;
                assert((count - 1) * plane.stride + width <= len);
            }
            from += plane.stride;
        }
    }
}

proof fn lemma_interleaved_len(a: Seq<u8>, b: Seq<u8>)
    ensures
        interleaved(a, b).len() == 2 * a.len(),
    decreases a.len(),
{
    if a.len() > 0 {
        lemma_interleaved_len(a.drop_last(), b.drop_last());
    }
}

/// The rows of both planes up to a column of a row.
spec fn partial_rows(plane: Plane<'_>, width: int, row: int, column: int) -> Seq<u8> {
    plane.rows(width, row) + plane.data@.subrange(
        row * plane.stride,
        row * plane.stride + column,
    )
}

fn copy_interleaved(
    buffer: &mut Vec<u8>,
    u: &Plane<'_>,
    v: &Plane<'_>,
    width: usize,
    count: usize,
)
    requires
        u.holds(width as int, count as int),
        v.holds(width as int, count as int),
        2 * (count * width) <= old(buffer).len(),
    ensures
        final(buffer)@ == overwritten(
            old(buffer)@,
            interleaved(
                u.rows(width as int, count as int),
                v.rows(width as int, count as int),
            ),
        ),
{
    let ghost before = buffer@;
    let u_len: usize = u.data.len();
    let v_len: usize = v.data.len();
    let mut at: usize = 0;
    let mut u_from: usize = 0;
    let mut v_from: usize = 0;
    proof {
        assert(0 * width == 0 && 0 * u.stride == 0 && 0 * v.stride == 0) by (nonlinear_arith);
        assert(overwritten(before, interleaved(Seq::empty(), Seq::empty())) =~= before);
    }
    for row in 0..count
        invariant
            u_len == u.data@.len(),
            v_len == v.data@.len(),
            u.holds(width as int, count as int),
            v.holds(width as int, count as int),
            2 * (count * width) <= before.len(),
            buffer.len() == before.len(),
            at == 2 * (row * width),
            row < count ==> u_from == row * u.stride && v_from == row * v.stride,
            buffer@ == overwritten(
                before,
                interleaved(u.rows(width as int, row as int), v.rows(width as int, row as int)),
            ),
    {
        proof {
            lemma_holds_fewer(*u, width as int, count as int, row as int);
            lemma_holds_fewer(*v, width as int, count as int, row as int);
            lemma_holds_fewer(*u, width as int, count as int, row + 1);
            lemma_holds_fewer(*v, width as int, count as int, row + 1);
            lemma_rows_len(*u, width as int, row as int);
            lemma_rows_len(*v, width as int, row as int);
            assert((row + 1) * width <= count * width) by (nonlinear_arith)
                requires
                    row + 1 <= count,
                    width >= 0,
            ;
            assert((row + 1) * width == row * width + width) by (nonlinear_arith);
            assert(partial_rows(*u, width as int, row as int, 0) =~= u.rows(
                width as int,
                row as int,
            ));
            assert(partial_rows(*v, width as int, row as int, 0) =~= v.rows(
                width as int,
                row as int,
            ));
        }
        for column in 0..width
            invariant
                row < count,
                u_len == u.data@.len(),
                v_len == v.data@.len(),
                u_from + width <= u_len,
                v_from + width <= v_len,
                u_from == row * u.stride,
                v_from == row * v.stride,
                u.rows(width as int, row as int).len() == row * width,
                v.rows(width as int, row as int).len() == row * width,
                2 * (row * width + width) <= before.len(),
                buffer.len() == before.len(),
                at == 2 * (row * width + column),
                buffer@ == overwritten(
                    before,
                    interleaved(
                        partial_rows(*u, width as int, row as int, column as int),
                        partial_rows(*v, width as int, row as int, column as int),
                    ),
                ),
        {
            let ghost a = partial_rows(*u, width as int, row as int, column as int);
            let ghost b = partial_rows(*v, width as int, row as int, column as int);
            let ghost was = buffer@;
            let x: u8 = u.data[u_from + column];
            let y: u8 = v.data[v_from + column];
            buffer.set(at, x);
            buffer.set(at + 1, y);
            proof {
                let a1 = partial_rows(*u, width as int, row as int, column + 1);
                let b1 = partial_rows(*v, width as int, row as int, column + 1);
                assert(a1 =~= a.push(x));
                assert(b1 =~= b.push(y));
                assert(a1.drop_last() =~= a);
                assert(b1.drop_last() =~= b);
                lemma_interleaved_len(a, b);
                assert(interleaved(a1, b1) == interleaved(a, b).push(x).push(y));
                assert(buffer@ =~= overwritten(before, interleaved(a1, b1)));
            }
            at += 2;
        }
        proof {
            assert(partial_rows(*u, width as int, row as int, width as int) == u.rows(
                width as int,
                row + 1,
            ));
            assert(partial_rows(*v, width as int, row as int, width as int) == v.rows(
                width as int,
                row + 1,
            ));
        }
        if row + 1 < count {
            proof {
                assert((row + 1) * u.stride == row * u.stride + u.stride) by (nonlinear_arith);
                assert((row + 1) * v.stride == row * v.stride + v.stride) by (nonlinear_arith);
                assert((row + 1) * u.stride <= (count - 1) * u.stride) by (nonlinear_arith)
                    requires
                        row + 1 <= count - 1,
                        u.stride >= 0,
                ;
                assert((row + 1) * v.stride <= (count - 1) * v.stride) by (nonlinear_arith)
                    requires
                        row + 1 <= count - 1,
                        v.stride >= 0,
                ;
            }
            u_from += u.stride;
            v_from += v.stride;
        }
    }
}

fn fill(buffer: &mut Vec<u8>, count: usize, value: u8)
    requires
        count <= old(buffer).len(),
    ensures
        final(buffer)@ == overwritten(old(buffer)@, filled(value, count as int)),
{
    let ghost before = buffer@;
    for i in 0..count
        invariant
            count <= before.len(),
            buffer.len() == before.len(),
            buffer@ == overwritten(before, filled(value, i as int)),
    {
        buffer.set(i, value);
        assert(buffer@ =~= overwritten(before, filled(value, i + 1)));
    }
}

fn grow(buffer: &mut Vec<u8>, size: usize)
    ensures
        final(buffer)@ == grown(old(buffer)@, size as int),
{
    let ghost before = buffer@;
    if buffer.len() < size {
        buffer.resize(size, 0);
        assert(buffer@ =~= grown(before, size as int));
    }
}

fn front(buffer: &Vec<u8>, size: usize) -> (copy: Vec<u8>)
    requires
        size <= buffer.len(),
    ensures
        copy@ == buffer@.take(size as int),
{
    let mut copy: Vec<u8> = Vec::new();
    for i in 0..size
        invariant
            size <= buffer.len(),
            copy@ == buffer@.take(i as int),
    {
        copy.push(buffer[i]);
        assert(copy@ =~= buffer@.take(i + 1));
    }
    copy
}

proof fn lemma_picture_sizes(w: int, h: int)
    requires
        0 <= w,
        0 <= h,
    ensures
        0 <= w * h,
        (h / 2) * w <= w * h / 2,
        2 * ((h / 2) * (w / 2)) <= w * h / 2,
        h * w == w * h,
{
    assert(0 <= w * h && h * w == w * h) by (nonlinear_arith)
        requires
            0 <= w,
            0 <= h,
    ;
    assert(2 * ((h / 2) * w) <= w * h) by (nonlinear_arith)
        requires
            0 <= w,
            2 * (h / 2) <= h,
    ;
    assert(2 * ((h / 2) * (w / 2)) <= (h / 2) * w) by (nonlinear_arith)
        requires
            0 <= h / 2,
            2 * (w / 2) <= w,
    ;
}

/// Writes the brightness of a picture over the front of a buffer.
fn write_brightness(buffer: &mut Vec<u8>, frame: &RawFrame<'_>)
    requires
        frame.complete(),
        frame.pixels() <= old(buffer).len(),
    ensures
        final(buffer)@ == overwritten(old(buffer)@, frame.brightness()),
        final(buffer).len() == old(buffer).len(),
        frame.brightness().len() == frame.pixels(),
{
    proof {
        lemma_picture_sizes(frame.width as int, frame.height as int);
        lemma_brightness_len(*frame);
    }
    let width: usize = frame.width as usize;
    let height: usize = frame.height as usize;
    match frame.format {
        PixelFormat::Other => fill(buffer, width * height, 0),
        _ => copy_rows(buffer, &frame.planes[0], width, height),
    }
}

/// Writes the colour of a picture over the front of a buffer.
fn write_colour(buffer: &mut Vec<u8>, frame: &RawFrame<'_>)
    requires
        frame.complete(),
        frame.uv_size() <= old(buffer).len(),
    ensures
        final(buffer)@ == overwritten(old(buffer)@, frame.colour()),
        final(buffer).len() == old(buffer).len(),
{
    proof {
        lemma_picture_sizes(frame.width as int, frame.height as int);
        lemma_colour_len(*frame);
    }
    match frame.format {
        PixelFormat::Nv12 => write_paired_colour(buffer, frame),
        PixelFormat::Yuv420p => write_planar_colour(buffer, frame),
        PixelFormat::Other => fill(
            buffer,
            frame.width as usize * frame.height as usize / 2,
            128,
        ),
    }
}

fn write_paired_colour(buffer: &mut Vec<u8>, frame: &RawFrame<'_>)
    requires
        frame.complete(),
        frame.format is Nv12,
        frame.uv_size() <= old(buffer).len(),
    ensures
        final(buffer)@ == overwritten(old(buffer)@, frame.colour()),
{
    proof {
        lemma_picture_sizes(frame.width as int, frame.height as int);
    }
    let ghost before = buffer@;
    let width: usize = frame.width as usize;
    let height: usize = frame.height as usize;
    let uv = &frame.planes[1];
    if uv.stride == width {
        overwrite(buffer, 0, uv.data, 0, width * height / 2);
        assert(buffer@ =~= overwritten(before, frame.colour()));
    } else {
        copy_rows(buffer, uv, width, height / 2);
    }
}

fn write_planar_colour(buffer: &mut Vec<u8>, frame: &RawFrame<'_>)
    requires
        frame.complete(),
        frame.format is Yuv420p,
        frame.uv_size() <= old(buffer).len(),
    ensures
        final(buffer)@ == overwritten(old(buffer)@, frame.colour()),
{
    proof {
        lemma_picture_sizes(frame.width as int, frame.height as int);
    }
    let width: usize = frame.width as usize;
    let height: usize = frame.height as usize;
    if width >= 2 {
        copy_interleaved(buffer, &frame.planes[1], &frame.planes[2], width / 2, height / 2);
    } else {
        assert(overwritten(buffer@, frame.colour()) =~= buffer@);
    }
}

impl VideoDecoder {
    /// Create the state for a new codec
    pub fn new(backend: Backend) -> (decoder: Self)
        ensures
            decoder.frames_decoded == 0,
            decoder.nal_buffer@ == Seq::<u8>::empty(),
            decoder.width == PREPARED_WIDTH,
            decoder.height == PREPARED_HEIGHT,
            decoder.is_hardware == (backend is Hardware),
            decoder.y_buffer@ == filled(0, PREPARED_PIXELS as int),
            decoder.uv_buffer@ == filled(0, PREPARED_PIXELS as int / 2),
            decoder.width == 1920 && decoder.height == 1080,
            decoder.y_buffer@.len() == 1920 * 1080,
            decoder.uv_buffer@.len() == 1920 * 540,
    {
        let is_hardware = match backend {
            Backend::Hardware => true,
            Backend::Software => false,
        };
        let mut y_buffer: Vec<u8> = Vec::new();
        let mut uv_buffer: Vec<u8> = Vec::new();
        grow(&mut y_buffer, PREPARED_PIXELS);
        grow(&mut uv_buffer, PREPARED_PIXELS / 2);
        assert(y_buffer@ =~= filled(0, PREPARED_PIXELS as int));
        assert(uv_buffer@ =~= filled(0, PREPARED_PIXELS as int / 2));
        VideoDecoder {
            frames_decoded: 0,
            nal_buffer: Vec::new(),
            width: PREPARED_WIDTH,
            height: PREPARED_HEIGHT,
            is_hardware,
            y_buffer,
            uv_buffer,
        }
    }

    /// Whether only the assembly of NAL units differs.
    pub open spec fn same_pictures(&self, other: &Self) -> bool {
        &&& self.frames_decoded == other.frames_decoded
        &&& self.width == other.width
        &&& self.height == other.height
        &&& self.is_hardware == other.is_hardware
        &&& self.y_buffer == other.y_buffer
        &&& self.uv_buffer == other.uv_buffer
    }

    /// Decode a video packet (RTP payload): what goes to the codec, if the packet
    /// completes something, and the time stamp that goes with it
    pub fn decode(&mut self, data: &[u8]) -> (submission: Option<(Vec<u8>, u64)>)
        ensures
            final(self).nal_buffer@ == unpacked(old(self).nal_buffer@, data@).1,
            final(self).same_pictures(old(self)),
            match submission {
                Some((stream, pts)) => {
                    &&& stream@ == unpacked(old(self).nal_buffer@, data@).0
                    &&& stream@.len() > 0
                    &&& pts == old(self).frames_decoded
                },
                None => unpacked(old(self).nal_buffer@, data@).0.len() == 0,
            },
    {
        let stream = self.parse_rtp_h264(data);
        if stream.len() == 0 {
            return None;
        }
        Some((stream, self.frames_decoded))
    }

    /// Take over a picture that the codec has decoded
    pub fn receive(&mut self, frame: &RawFrame<'_>) -> (decoded: DecodedFrame)
        requires
            frame.complete(),
            old(self).frames_decoded < u64::MAX,
        ensures
            final(self).frames_decoded == old(self).frames_decoded + 1,
            final(self).nal_buffer == old(self).nal_buffer,
            final(self).width == frame.width,
            final(self).height == frame.height,
            final(self).is_hardware == old(self).is_hardware,
            final(self).y_buffer@ == overwritten(
                grown(old(self).y_buffer@, frame.pixels()),
                frame.brightness(),
            ),
            final(self).uv_buffer@ == overwritten(
                grown(old(self).uv_buffer@, frame.uv_size()),
                frame.colour(),
            ),
            decoded.width == frame.width,
            decoded.height == frame.height,
            decoded.y_data@ == frame.brightness(),
            decoded.uv_data@ == final(self).uv_buffer@.take(frame.uv_size()),
            decoded.y_data@.len() == frame.pixels(),
            decoded.uv_data@.len() == frame.uv_size(),
            decoded.pts == old(self).frames_decoded + 1,
    {
        self.frames_decoded += 1;
        self.width = frame.width;
        self.height = frame.height;
        self.extract_frame_fast(frame)
    }

    /// Fast frame extraction with pre-allocated buffers
    pub fn extract_frame_fast(&mut self, frame: &RawFrame<'_>) -> (decoded: DecodedFrame)
        requires
            frame.complete(),
        ensures
            final(self).frames_decoded == old(self).frames_decoded,
            final(self).nal_buffer == old(self).nal_buffer,
            final(self).width == old(self).width,
            final(self).height == old(self).height,
            final(self).is_hardware == old(self).is_hardware,
            final(self).y_buffer@ == overwritten(
                grown(old(self).y_buffer@, frame.pixels()),
                frame.brightness(),
            ),
            final(self).uv_buffer@ == overwritten(
                grown(old(self).uv_buffer@, frame.uv_size()),
                frame.colour(),
            ),
            decoded.width == frame.width,
            decoded.height == frame.height,
            decoded.y_data@ == frame.brightness(),
            decoded.uv_data@ == final(self).uv_buffer@.take(frame.uv_size()),
            decoded.y_data@.len() == frame.pixels(),
            decoded.uv_data@.len() == frame.uv_size(),
            decoded.pts == old(self).frames_decoded,
    {
        proof {
            lemma_picture_sizes(frame.width as int, frame.height as int);
        }
        let y_size: usize = frame.width as usize * frame.height as usize;
        let uv_size: usize = y_size / 2;
        grow(&mut self.y_buffer, y_size);
        grow(&mut self.uv_buffer, uv_size);
        write_brightness(&mut self.y_buffer, frame);
        write_colour(&mut self.uv_buffer, frame);
        let y_data = front(&self.y_buffer, y_size);
        let uv_data = front(&self.uv_buffer, uv_size);
        assert(y_data@ =~= frame.brightness());
        DecodedFrame {
            width: frame.width,
            height: frame.height,
            y_data: Arc::new(y_data),
            uv_data: Arc::new(uv_data),
            pts: self.frames_decoded,
        }
    }

    /// Parse RTP H.264 payload and assemble NAL units
    pub fn parse_rtp_h264(&mut self, data: &[u8]) -> (stream: Vec<u8>)
        ensures
            (stream@, final(self).nal_buffer@) == unpacked(old(self).nal_buffer@, data@),
            final(self).same_pictures(old(self)),
    {
        if data.len() == 0 {
            return Vec::new();
        }
        let nal_header: u8 = data[0];
        let kind: u8 = nal_header & 0x1F;
        if 1 <= kind && kind <= 23 {
            let mut stream = coded_start();
            stream.extend_from_slice(data);
            assert(stream@ =~= start_code() + data@);
            stream
        } else if kind == 24 {
            split_aggregate(data)
        } else if kind == 28 {
            if data.len() < 2 {
                return Vec::new();
            }
            let ghost before = self.nal_buffer@;
            let fu_header: u8 = data[1];
            if (fu_header & 0x80) != 0 {
                let mut unit = coded_start();
                unit.push((nal_header & 0xE0) | (fu_header & 0x1F));
                extend_from(&mut unit, data, 2);
                self.nal_buffer = unit;
            } else if self.nal_buffer.len() > 0 {
                extend_from(&mut self.nal_buffer, data, 2);
            }
            assert(self.nal_buffer@ =~= assembled(before, data@));
            if (fu_header & 0x40) != 0 {
                let mut unit: Vec<u8> = Vec::new();
                std::mem::swap(&mut unit, &mut self.nal_buffer);
                unit
            } else {
                Vec::new()
            }
        } else {
            Vec::new()
        }
    }
}

proof fn lemma_brightness_len(frame: RawFrame<'_>)
    requires
        frame.complete(),
    ensures
        frame.brightness().len() == frame.pixels(),
{
    lemma_picture_sizes(frame.width as int, frame.height as int);
    if frame.format !is Other {
        lemma_rows_len(frame.planes[0], frame.width as int, frame.height as int);
    }
}

proof fn lemma_colour_len(frame: RawFrame<'_>)
    requires
        frame.complete(),
    ensures
        frame.colour().len() <= frame.uv_size(),
        frame.width % 2 == 0 && frame.height % 2 == 0 ==> frame.colour().len() == frame.uv_size(),
{
    let w = frame.width as int;
    let h = frame.height as int;
    lemma_picture_sizes(w, h);
    match frame.format {
        PixelFormat::Nv12 => {
            if frame.planes[1].stride != w {
                lemma_rows_len(frame.planes[1], w, h / 2);
            }
        },
        PixelFormat::Yuv420p => if w >= 2 {
            lemma_rows_len(frame.planes[1], w / 2, h / 2);
            lemma_rows_len(frame.planes[2], w / 2, h / 2);
            lemma_interleaved_len(
                frame.planes[1].rows(w / 2, h / 2),
                frame.planes[2].rows(w / 2, h / 2),
            );
        },
        PixelFormat::Other => {},
    }
    if w % 2 == 0 && h % 2 == 0 {
        assert(w * h / 2 == (h / 2) * w && w * h / 2 == 2 * ((h / 2) * (w / 2)))
            by (nonlinear_arith)
            requires
                w == 2 * (w / 2),
                h == 2 * (h / 2),
        ;
    }
}

fn coded_start() -> (code: Vec<u8>)
    ensures
        code@ == start_code(),
{
    let mut code: Vec<u8> = Vec::new();
    code.push(0);
    code.push(0);
    code.push(0);
    code.push(1);
    assert(code@ =~= start_code());
    code
}

fn extend_from(out: &mut Vec<u8>, data: &[u8], from: usize)
    requires
        from <= data.len(),
    ensures
        final(out)@ == old(out)@ + data@.skip(from as int),
{
    let ghost before = out@;
    for i in from..data.len()
        invariant
            from <= data.len(),
            out@ == before + data@.subrange(from as int, i as int),
    {
        out.push(data[i]);
        assert(out@ =~= before + data@.subrange(from as int, i + 1));
    }
    assert(data@.subrange(from as int, data@.len() as int) =~= data@.skip(from as int));
}

fn extend_range(out: &mut Vec<u8>, data: &[u8], from: usize, count: usize)
    requires
        from + count <= data.len(),
    ensures
        final(out)@ == old(out)@ + data@.subrange(from as int, from + count),
{
    let ghost before = out@;
    for i in 0..count
        invariant
            from + count <= data.len(),
            out@ == before + data@.subrange(from as int, from + i),
    {
        out.push(data[from + i]);
        assert(out@ =~= before + data@.subrange(from as int, from + i + 1));
    }
}

fn split_aggregate(data: &[u8]) -> (stream: Vec<u8>)
    requires
        data.len() > 0,
    ensures
        stream@ == aggregated_units(data@.skip(1)),
{
    let mut stream: Vec<u8> = Vec::new();
    let mut at: usize = 1;
    assert(stream@ + aggregated_units(data@.skip(1)) =~= aggregated_units(data@.skip(1)));
    while data.len() - at >= 2
        invariant
            1 <= at <= data.len(),
            stream@ + aggregated_units(data@.skip(at as int)) == aggregated_units(data@.skip(1)),
        decreases data.len() - at,
    {
        let ghost rest = data@.skip(at as int);
        let ghost before = stream@;
        let size: usize = (data[at] as usize) * 256 + (data[at + 1] as usize);
        assert(rest[0] == data@[at as int] && rest[1] == data@[at + 1]);
        if size > data.len() - at - 2 {
            assert(before + aggregated_units(rest) =~= before);
            return stream;
        }
        let mut code = coded_start();
        stream.append(&mut code);
        extend_range(&mut stream, data, at + 2, size);
        proof {
            let unit = data@.subrange(at + 2, at + 2 + size);
            assert(unit =~= rest.subrange(2, 2 + size));
            assert(rest.skip(2 + size) =~= data@.skip(at + 2 + size));
            let tail = aggregated_units(rest.skip(2 + size));
            assert(stream@ =~= before + start_code() + unit);
            assert(stream@ + tail =~= before + aggregated_units(rest));
        }
        at += 2 + size;
    }
    assert(stream@ + aggregated_units(data@.skip(at as int)) =~= stream@);
    stream
}

/// What a series of payloads leads to: all the byte streams that it completes, and
/// the unit that stays under assembly.
pub open spec fn unpacked_all(buffer: Seq<u8>, payloads: Seq<Seq<u8>>) -> (Seq<u8>, Seq<u8>)
    decreases payloads.len(),
{
    if payloads.len() == 0 {
        (Seq::empty(), buffer)
    } else {
        let (stream, unit) = unpacked_all(buffer, payloads.drop_last());
        let (more, rest) = unpacked(unit, payloads.last());
        (stream + more, rest)
    }
}

/// All the pieces in one.
pub open spec fn joined(pieces: Seq<Seq<u8>>) -> Seq<u8>
    decreases pieces.len(),
{
    if pieces.len() == 0 {
        Seq::empty()
    } else {
        joined(pieces.drop_last()) + pieces.last()
    }
}

/// The second byte of a fragment: which kind of unit it belongs to, and whether it
/// is the first or the last one.
pub open spec fn fragment_mark(header: u8, first: bool, last: bool) -> u8 {
    (header & 0x1F) | (if first {
        0x80u8
    } else {
        0u8
    }) | (if last {
        0x40u8
    } else {
        0u8
    })
}

/// The payloads that carry a unit in pieces.
pub open spec fn fragments(header: u8, pieces: Seq<Seq<u8>>) -> Seq<Seq<u8>> {
    Seq::new(
        pieces.len(),
        |i: int|
            seq![
                (header & 0xE0) | 28,
                fragment_mark(header, i == 0, i == pieces.len() - 1),
            ] + pieces[i],
    )
}

/// A unit that travels in pieces comes out whole, whatever was under assembly
/// before, and leaves nothing behind.
pub proof fn fragments_reassemble(buffer: Seq<u8>, header: u8, pieces: Seq<Seq<u8>>)
    requires
        pieces.len() > 0,
    ensures
        unpacked_all(buffer, fragments(header, pieces)) == (
            start_code().push(header) + joined(pieces),
            Seq::<u8>::empty(),
        ),
{
    let payloads = fragments(header, pieces);
    let n = pieces.len() as int;
    assert(payloads.take(n) =~= payloads);
    assert(pieces.take(n) =~= pieces);
    lemma_fragments_so_far(buffer, header, pieces, n - 1);
    lemma_one_more_fragment(buffer, header, pieces, n);
}

/// What a series of fragments leads to, up to the one before the last.
proof fn lemma_fragments_so_far(buffer: Seq<u8>, header: u8, pieces: Seq<Seq<u8>>, count: int)
    requires
        0 <= count < pieces.len(),
    ensures
        unpacked_all(buffer, fragments(header, pieces).take(count)) == (
            Seq::<u8>::empty(),
            under_assembly(buffer, header, pieces, count),
        ),
    decreases count,
{
    if count > 0 {
        lemma_fragments_so_far(buffer, header, pieces, count - 1);
        lemma_one_more_fragment(buffer, header, pieces, count);
    } else {
        assert(fragments(header, pieces).take(0) =~= Seq::empty());
    }
}

/// The unit under assembly once so many fragments have come.
spec fn under_assembly(buffer: Seq<u8>, header: u8, pieces: Seq<Seq<u8>>, count: int) -> Seq<u8> {
    if count == 0 {
        buffer
    } else {
        start_code().push(header) + joined(pieces.take(count))
    }
}

proof fn lemma_one_more_fragment(buffer: Seq<u8>, header: u8, pieces: Seq<Seq<u8>>, count: int)
    requires
        0 < count <= pieces.len(),
        unpacked_all(buffer, fragments(header, pieces).take(count - 1)) == (
            Seq::<u8>::empty(),
            under_assembly(buffer, header, pieces, count - 1),
        ),
    ensures
        unpacked_all(buffer, fragments(header, pieces).take(count)) == if count == pieces.len() {
            (under_assembly(buffer, header, pieces, count), Seq::<u8>::empty())
        } else {
            (Seq::<u8>::empty(), under_assembly(buffer, header, pieces, count))
        },
{
    let payloads = fragments(header, pieces);
    let unit = under_assembly(buffer, header, pieces, count - 1);
    let last = count == pieces.len();
    assert(payloads.take(count).drop_last() =~= payloads.take(count - 1));
    assert(payloads.take(count).last() == payloads[count - 1]);
    lemma_joined_one_more(pieces, count);
    lemma_fragment_unpacked(
        unit,
        joined(pieces.take(count - 1)),
        header,
        pieces[count - 1],
        count == 1,
        last,
    );
    let done = unpacked(unit, payloads[count - 1]).0;
    assert(Seq::<u8>::empty() + done =~= done);
}

proof fn lemma_joined_one_more(pieces: Seq<Seq<u8>>, count: int)
    requires
        0 < count <= pieces.len(),
    ensures
        joined(pieces.take(count)) == joined(pieces.take(count - 1)) + pieces[count - 1],
        count == 1 ==> joined(pieces.take(count - 1)) == Seq::<u8>::empty(),
{
    assert(pieces.take(count).drop_last() =~= pieces.take(count - 1));
    assert(pieces.take(count).last() == pieces[count - 1]);
}

/// What one fragment leads to.
proof fn lemma_fragment_unpacked(
    unit: Seq<u8>,
    so_far: Seq<u8>,
    header: u8,
    piece: Seq<u8>,
    first: bool,
    last: bool,
)
    requires
        first ==> so_far.len() == 0,
        !first ==> unit == start_code().push(header) + so_far,
    ensures
        unpacked(unit, seq![(header & 0xE0) | 28, fragment_mark(header, first, last)] + piece)
            == if last {
            (start_code().push(header) + (so_far + piece), Seq::<u8>::empty())
        } else {
            (Seq::<u8>::empty(), start_code().push(header) + (so_far + piece))
        },
{
    let payload = seq![(header & 0xE0) | 28, fragment_mark(header, first, last)] + piece;
    lemma_fragment_bytes(header, first, last);
    assert(payload[0] == (header & 0xE0) | 28);
    assert(payload[1] == fragment_mark(header, first, last));
    assert(payload.skip(2) =~= piece);
    assert(assembled(unit, payload) =~= start_code().push(header) + (so_far + piece));
}

proof fn lemma_fragment_bytes(header: u8, first: bool, last: bool)
    ensures
        nal_type((header & 0xE0) | 28) == 28,
        is_first_fragment(fragment_mark(header, first, last)) == first,
        is_last_fragment(fragment_mark(header, first, last)) == last,
        unit_header((header & 0xE0) | 28, fragment_mark(header, first, last)) == header,
{
    let f: u8 = if first {
        0x80u8
    } else {
        0u8
    };
    let l: u8 = if last {
        0x40u8
    } else {
        0u8
    };
    let mark = (header & 0x1F) | f | l;
    assert(((header & 0xE0) | 28) & 0x1F == 28) by (bit_vector);
    assert((f == 0 || f == 0x80) && (l == 0 || l == 0x40));
    assert(((header & 0x1F) | f | l) & 0x80 == f) by (bit_vector)
        requires
            f == 0u8 || f == 0x80u8,
            l == 0u8 || l == 0x40u8,
    ;
    assert(((header & 0x1F) | f | l) & 0x40 == l) by (bit_vector)
        requires
            f == 0u8 || f == 0x80u8,
            l == 0u8 || l == 0x40u8,
    ;
    assert((((header & 0xE0) | 28) & 0xE0) | (((header & 0x1F) | f | l) & 0x1F) == header)
        by (bit_vector)
        requires
            f == 0u8 || f == 0x80u8,
            l == 0u8 || l == 0x40u8,
    ;
}

/// The units of an aggregate, each behind its length.
pub open spec fn aggregate(units: Seq<Seq<u8>>) -> Seq<u8>
    decreases units.len(),
{
    if units.len() == 0 {
        Seq::empty()
    } else {
        let size = units[0].len();
        seq![(size / 256) as u8, (size % 256) as u8] + units[0] + aggregate(units.skip(1))
    }
}

/// The units, each behind a start code.
pub open spec fn byte_stream(units: Seq<Seq<u8>>) -> Seq<u8>
    decreases units.len(),
{
    if units.len() == 0 {
        Seq::empty()
    } else {
        start_code() + units[0] + byte_stream(units.skip(1))
    }
}

/// Units that travel in one payload come out one by one, in order.
pub proof fn aggregate_comes_apart(units: Seq<Seq<u8>>)
    requires
        forall|i: int| 0 <= i < units.len() ==> #[trigger] units[i].len() < 65536,
    ensures
        aggregated_units(aggregate(units)) == byte_stream(units),
    decreases units.len(),
{
    if units.len() > 0 {
        let rest = units.skip(1);
        let size = units[0].len();
        assert forall|i: int| 0 <= i < rest.len() implies #[trigger] rest[i].len() < 65536 by {
            assert(rest[i] == units[i + 1]);
        }
        aggregate_comes_apart(rest);
        let s = aggregate(units);
        assert(s[0] == size / 256 && s[1] == size % 256);
        assert(s[0] * 256 + s[1] == size);
        assert(s.subrange(2, 2 + size as int) =~= units[0]);
        assert(s.skip(2 + size as int) =~= aggregate(rest));
    }
}

/// Only fragments touch the unit under assembly.
pub proof fn whole_units_leave_the_assembly_alone(buffer: Seq<u8>, data: Seq<u8>)
    requires
        data.len() < 2 || nal_type(data[0]) != 28,
    ensures
        unpacked(buffer, data).1 == buffer,
{
}

/// Each pixel stands where its row and column put it, however far apart the rows
/// of the plane are.
pub proof fn pixel_stands_in_its_row(
    plane: Plane<'_>,
    width: int,
    count: int,
    row: int,
    column: int,
)
    requires
        plane.holds(width, count),
        0 <= row < count,
        0 <= column < width,
    ensures
        0 <= row * width + column < plane.rows(width, count).len(),
        plane.rows(width, count)[row * width + column] == plane.data@[row * plane.stride + column],
    decreases count,
{
    lemma_rows_len(plane, width, count);
    lemma_holds_fewer(plane, width, count, count - 1);
    lemma_rows_len(plane, width, count - 1);
    assert(count * width == (count - 1) * width + width) by (nonlinear_arith);
    assert(0 <= row * width && row * width + width <= count * width) by (nonlinear_arith)
        requires
            0 <= row < count,
            0 <= width,
    ;
    assert((count - 1) * plane.stride >= 0) by (nonlinear_arith)
        requires
            count > 0,
            plane.stride >= 0,
    ;
    if row < count - 1 {
        pixel_stands_in_its_row(plane, width, count - 1, row, column);
        assert(row * width + width <= (count - 1) * width) by (nonlinear_arith)
            requires
                row + 1 <= count - 1,
                0 <= width,
        ;
    }
}

/// A picture whose width and height are even is decoded whole: nothing of an
/// earlier picture is left in it.
pub proof fn even_pictures_are_whole(frame: RawFrame<'_>, buffer: Seq<u8>)
    requires
        frame.complete(),
        frame.width % 2 == 0,
        frame.height % 2 == 0,
    ensures
        overwritten(grown(buffer, frame.uv_size()), frame.colour()).take(frame.uv_size())
            == frame.colour(),
{
    lemma_colour_len(frame);
    assert(overwritten(grown(buffer, frame.uv_size()), frame.colour()).take(frame.uv_size())
        =~= frame.colour());
}

/// A payload that is a single unit comes out whole behind a start code, and nothing
/// else changes.
pub proof fn single_units_come_out_whole(buffer: Seq<u8>, data: Seq<u8>)
    requires
        data.len() > 0,
        1 <= data[0] & 0x1F <= 23,
    ensures
        unpacked(buffer, data) == (seq![0u8, 0, 0, 1] + data, buffer),
{
    assert(unpacked(buffer, data).0 =~= seq![0u8, 0, 0, 1] + data);
}

/// A payload that is empty, or of a kind that is neither a unit, an aggregate nor a
/// fragment, or a fragment without its second byte, gives nothing and changes nothing.
pub proof fn other_payloads_give_nothing(buffer: Seq<u8>, data: Seq<u8>)
    requires
        data.len() > 0 ==> data[0] & 0x1F == 0 || 24 < data[0] & 0x1F < 28 || 28 < data[0] & 0x1F
            || (data[0] & 0x1F == 28 && data.len() == 1),
    ensures
        unpacked(buffer, data) == (Seq::<u8>::empty(), buffer),
{
}

/// The units of an aggregate come out of its payload one by one, in order, each behind
/// a start code.
pub proof fn aggregates_are_unpacked(buffer: Seq<u8>, header: u8, units: Seq<Seq<u8>>)
    requires
        header & 0x1F == 24,
        forall|i: int| 0 <= i < units.len() ==> #[trigger] units[i].len() < 65536,
    ensures
        unpacked(buffer, seq![header] + aggregate(units)) == (byte_stream(units), buffer),
{
    let data = seq![header] + aggregate(units);
    assert(data.skip(1) =~= aggregate(units));
    aggregate_comes_apart(units);
}

/// An aggregate that ends in the middle of a unit gives the units before that one.
pub proof fn cut_aggregates_give_what_is_whole(
    buffer: Seq<u8>,
    header: u8,
    units: Seq<Seq<u8>>,
    size: u16,
    part: Seq<u8>,
)
    requires
        header & 0x1F == 24,
        forall|i: int| 0 <= i < units.len() ==> #[trigger] units[i].len() < 65536,
        part.len() < size,
    ensures
        unpacked(
            buffer,
            seq![header] + aggregate(units) + (seq![(size / 256) as u8, (size % 256) as u8] + part),
        ) == (byte_stream(units), buffer),
{
    let cut = seq![(size / 256) as u8, (size % 256) as u8] + part;
    let data = seq![header] + aggregate(units) + cut;
    assert(data.skip(1) =~= aggregate(units) + cut);
    assert(cut[0] * 256 + cut[1] == size);
    assert(aggregated_units(cut) == Seq::<u8>::empty());
    lemma_aggregate_then(units, cut);
}

proof fn lemma_aggregate_then(units: Seq<Seq<u8>>, tail: Seq<u8>)
    requires
        forall|i: int| 0 <= i < units.len() ==> #[trigger] units[i].len() < 65536,
        aggregated_units(tail) == Seq::<u8>::empty(),
    ensures
        aggregated_units(aggregate(units) + tail) == byte_stream(units),
    decreases units.len(),
{
    if units.len() > 0 {
        let rest = units.skip(1);
        let size = units[0].len();
        assert forall|i: int| 0 <= i < rest.len() implies #[trigger] rest[i].len() < 65536 by {
            assert(rest[i] == units[i + 1]);
        }
        lemma_aggregate_then(rest, tail);
        let s = aggregate(units) + tail;
        assert(s[0] == size / 256 && s[1] == size % 256);
        assert(s[0] * 256 + s[1] == size);
        assert(s.subrange(2, 2 + size as int) =~= units[0]);
        assert(s.skip(2 + size as int) =~= aggregate(rest) + tail);
    } else {
        assert(aggregate(units) + tail =~= tail);
    }
}

/// An aggregate is a length of two bytes, most significant first, and the unit, for
/// each unit; the byte stream is a start code and the unit, for each unit.
pub proof fn aggregates_begin_with_their_first_unit(unit: Seq<u8>, units: Seq<Seq<u8>>)
    requires
        unit.len() < 65536,
    ensures
        aggregate(seq![unit] + units) == seq![
            (unit.len() / 256) as u8,
            (unit.len() % 256) as u8,
        ] + unit + aggregate(units),
        byte_stream(seq![unit] + units) == seq![0u8, 0, 0, 1] + unit + byte_stream(units),
        aggregate(Seq::empty()) == Seq::<u8>::empty(),
        byte_stream(Seq::empty()) == Seq::<u8>::empty(),
{
    assert((seq![unit] + units).skip(1) =~= units);
    assert(byte_stream(seq![unit] + units) =~= seq![0u8, 0, 0, 1] + unit + byte_stream(units));
}

/// A unit that travels in two pieces or more comes out as a start code, its header and
/// all its pieces: the first payload begins it anew, those between add to it, and the
/// last one hands it over.
pub proof fn pieces_are_put_together(
    buffer: Seq<u8>,
    kind: u8,
    indicator: u8,
    mark: u8,
    so_far: Seq<u8>,
    piece: Seq<u8>,
)
    requires
        indicator & 0x1F == 28,
        kind == mark & 0x1F,
    ensures
        ({
            let begun = seq![0u8, 0, 0, 1, (indicator & 0xE0) | kind] + piece;
            let continued = so_far + piece;
            let payload = seq![indicator, mark] + piece;
            &&& mark & 0x80 != 0 && mark & 0x40 == 0 ==> unpacked(buffer, payload) == (
                Seq::<u8>::empty(),
                begun,
            )
            &&& mark & 0x80 != 0 && mark & 0x40 != 0 ==> unpacked(buffer, payload) == (
                begun,
                Seq::<u8>::empty(),
            )
            &&& mark & 0x80 == 0 && mark & 0x40 == 0 && so_far.len() > 0 ==> unpacked(
                so_far,
                payload,
            ) == (Seq::<u8>::empty(), continued)
            &&& mark & 0x80 == 0 && mark & 0x40 != 0 && so_far.len() > 0 ==> unpacked(
                so_far,
                payload,
            ) == (continued, Seq::<u8>::empty())
            &&& mark & 0x80 == 0 ==> unpacked(Seq::empty(), payload) == (
                Seq::<u8>::empty(),
                Seq::<u8>::empty(),
            )
        }),
{
    let payload = seq![indicator, mark] + piece;
    assert(payload.skip(2) =~= piece);
    assert(payload[0] == indicator && payload[1] == mark);
    assert(assembled(buffer, payload) =~= if mark & 0x80 != 0 {
        seq![0u8, 0, 0, 1, (indicator & 0xE0) | kind] + piece
    } else if buffer.len() > 0 {
        buffer + piece
    } else {
        buffer
    });
}

/// In a picture whose layout is understood, the brightness of each pixel is the byte at
/// its row and column of the first plane.
pub proof fn brightness_is_that_of_the_pixels(frame: RawFrame<'_>, row: int, column: int)
    requires
        frame.complete(),
        frame.format is Nv12 || frame.format is Yuv420p,
        0 <= row < frame.height,
        0 <= column < frame.width,
    ensures
        frame.brightness().len() == frame.width * frame.height,
        0 <= row * frame.width + column < frame.brightness().len(),
        frame.brightness()[row * frame.width + column] == frame.planes[0].data@[row
            * frame.planes[0].stride + column],
{
    lemma_brightness_len(frame);
    pixel_stands_in_its_row(
        frame.planes[0],
        frame.width as int,
        frame.height as int,
        row,
        column,
    );
}

/// In a picture with paired colours, each byte of the colour is the one at its row and
/// column of the second plane, at half the height.
pub proof fn paired_colour_is_that_of_the_plane(frame: RawFrame<'_>, row: int, column: int)
    requires
        frame.complete(),
        frame.format is Nv12,
        0 <= row < frame.height as int / 2,
        0 <= column < frame.width,
    ensures
        0 <= row * frame.width + column < frame.colour().len(),
        frame.colour()[row * frame.width + column] == frame.planes[1].data@[row
            * frame.planes[1].stride + column],
{
    let w = frame.width as int;
    let h = frame.height as int;
    let uv = frame.planes[1];
    if uv.stride == w {
        lemma_picture_sizes(w, h);
        assert(0 <= row * w && row * w + w <= (h / 2) * w) by (nonlinear_arith)
            requires
                0 <= row < h / 2,
                0 <= w,
        ;
    } else {
        pixel_stands_in_its_row(uv, w, h / 2, row, column);
    }
}

/// In a picture with a plane for each colour, the colours of each two by two pixels
/// stand side by side, the first one first, at half the width and height.
pub proof fn planar_colours_stand_side_by_side(frame: RawFrame<'_>, row: int, column: int)
    requires
        frame.complete(),
        frame.format is Yuv420p,
        0 <= row < frame.height as int / 2,
        0 <= column < frame.width as int / 2,
    ensures
        ({
            let at = 2 * (row * (frame.width as int / 2) + column);
            &&& 0 <= at && at + 1 < frame.colour().len()
            &&& frame.colour()[at] == frame.planes[1].data@[row * frame.planes[1].stride + column]
            &&& frame.colour()[at + 1] == frame.planes[2].data@[row * frame.planes[2].stride
                + column]
        }),
{
    let w = frame.width as int / 2;
    let h = frame.height as int / 2;
    pixel_stands_in_its_row(frame.planes[1], w, h, row, column);
    pixel_stands_in_its_row(frame.planes[2], w, h, row, column);
    lemma_rows_len(frame.planes[1], w, h);
    lemma_rows_len(frame.planes[2], w, h);
    lemma_interleaved_at(
        frame.planes[1].rows(w, h),
        frame.planes[2].rows(w, h),
        row * w + column,
    );
}

proof fn lemma_interleaved_at(a: Seq<u8>, b: Seq<u8>, i: int)
    requires
        a.len() == b.len(),
        0 <= i < a.len(),
    ensures
        interleaved(a, b).len() == 2 * a.len(),
        interleaved(a, b)[2 * i] == a[i],
        interleaved(a, b)[2 * i + 1] == b[i],
    decreases a.len(),
{
    lemma_interleaved_len(a, b);
    lemma_interleaved_len(a.drop_last(), b.drop_last());
    if i < a.len() - 1 {
        lemma_interleaved_at(a.drop_last(), b.drop_last(), i);
    }
}

/// A picture whose layout is not understood comes out black: no brightness, and both
/// colours in the middle.
pub proof fn unknown_pictures_are_black(frame: RawFrame<'_>, i: int)
    requires
        frame.complete(),
        frame.format is Other,
    ensures
        frame.brightness().len() == frame.width * frame.height,
        frame.colour().len() == frame.width * frame.height / 2,
        0 <= i < frame.brightness().len() ==> frame.brightness()[i] == 0,
        0 <= i < frame.colour().len() ==> frame.colour()[i] == 128,
{
    lemma_picture_sizes(frame.width as int, frame.height as int);
}

/// Growing keeps what is there and adds zeros up to the size; writing over the front
/// changes nothing behind it.
pub proof fn buffers_change_only_where_written(buffer: Seq<u8>, size: int, front: Seq<u8>, i: int)
    requires
        0 <= size,
        front.len() <= buffer.len(),
    ensures
        grown(buffer, size).len() == if buffer.len() < size {
            size
        } else {
            buffer.len() as int
        },
        0 <= i < buffer.len() ==> grown(buffer, size)[i] == buffer[i],
        buffer.len() <= i < size ==> grown(buffer, size)[i] == 0,
        overwritten(buffer, front).len() == buffer.len(),
        0 <= i < front.len() ==> overwritten(buffer, front)[i] == front[i],
        front.len() <= i < buffer.len() ==> overwritten(buffer, front)[i] == buffer[i],
{
}

/// A picture has a byte of brightness for each pixel, and half as many of colour.
pub proof fn planes_have_the_size_of_the_picture(frame: RawFrame<'_>)
    ensures
        frame.pixels() == frame.width * frame.height,
        2 * frame.uv_size() <= frame.pixels() < 2 * frame.uv_size() + 2,
{
}

/// Decoders with the same pictures differ in nothing but the unit that is being put
/// together.
pub proof fn pictures_are_all_but_the_unit(a: VideoDecoder, b: VideoDecoder)
    ensures
        a.same_pictures(&b) <==> a == (VideoDecoder { nal_buffer: a.nal_buffer, ..b }),
{
}

} // verus!
