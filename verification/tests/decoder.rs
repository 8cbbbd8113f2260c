use gfn_streamer::decoder::{
    hardware_codec_name, Backend, PixelFormat, Plane, RawFrame, VideoDecoder,
};

fn decoder() -> VideoDecoder {
    VideoDecoder::new(Backend::Software)
}

const EMPTY: Plane<'static> = Plane { data: &[], stride: 0 };

#[test]
fn backends_are_tried_in_order() {
    assert_eq!(Backend::first(true), Backend::Hardware);
    assert_eq!(Backend::first(false), Backend::Software);
    assert_eq!(Backend::Hardware.fallback(), Some(Backend::Software));
    assert_eq!(Backend::Software.fallback(), None);
    assert_eq!(Backend::Hardware.thread_count(), 1);
    assert_eq!(Backend::Software.thread_count(), 4);
    assert_eq!(hardware_codec_name(true), "h264_videotoolbox");
    assert_eq!(hardware_codec_name(false), "h264_cuvid");
}

#[test]
fn new_decoder() {
    let decoder = VideoDecoder::new(Backend::Hardware);
    assert!(decoder.is_hardware);
    assert_eq!((decoder.width, decoder.height), (1920, 1080));
    assert_eq!(decoder.y_buffer.len(), 1920 * 1080);
    assert_eq!(decoder.uv_buffer.len(), 1920 * 1080 / 2);
}

#[test]
fn single_units_get_a_start_code() {
    let mut decoder = decoder();
    assert_eq!(decoder.decode(&[0x65, 1, 2]), Some((vec![0, 0, 0, 1, 0x65, 1, 2], 0)));
    assert_eq!(decoder.decode(&[0x17]), Some((vec![0, 0, 0, 1, 0x17], 0)));
    assert_eq!(decoder.decode(&[]), None);
    assert_eq!(decoder.decode(&[0x00, 1]), None);
    assert_eq!(decoder.decode(&[0x1d, 1]), None);
}

#[test]
fn aggregates_come_apart() {
    let mut decoder = decoder();
    let data = [24, 0, 2, 0x67, 1, 0, 1, 0x68];
    assert_eq!(decoder.parse_rtp_h264(&data), vec![0, 0, 0, 1, 0x67, 1, 0, 0, 0, 1, 0x68]);
    let cut_short = [24, 0, 1, 0x67, 0, 5, 1];
    assert_eq!(decoder.parse_rtp_h264(&cut_short), vec![0, 0, 0, 1, 0x67]);
    assert_eq!(decoder.parse_rtp_h264(&[24]), Vec::<u8>::new());
    assert_eq!(decoder.parse_rtp_h264(&[24, 0, 0, 1]), vec![0, 0, 0, 1]);
}

#[test]
fn fragments_are_assembled() {
    let mut decoder = decoder();
    assert_eq!(decoder.decode(&[0x7c, 0x85, 1, 2]), None);
    assert_eq!(decoder.decode(&[0x7c, 0x05, 3]), None);
    assert_eq!(decoder.decode(&[0x41, 9]), Some((vec![0, 0, 0, 1, 0x41, 9], 0)));
    assert_eq!(
        decoder.decode(&[0x7c, 0x45, 4]),
        Some((vec![0, 0, 0, 1, 0x65, 1, 2, 3, 4], 0))
    );
    assert_eq!(decoder.nal_buffer, Vec::<u8>::new());
}

#[test]
fn stray_fragments_are_dropped() {
    let mut decoder = decoder();
    assert_eq!(decoder.decode(&[0x7c, 0x05, 3]), None);
    assert_eq!(decoder.decode(&[0x7c, 0x45, 3]), None);
    assert_eq!(decoder.decode(&[0x7c]), None);
    decoder.decode(&[0x7c, 0x85, 1]);
    decoder.decode(&[0x7c, 0x85, 2]);
    assert_eq!(decoder.decode(&[0x7c, 0x45, 3]), Some((vec![0, 0, 0, 1, 0x65, 2, 3], 0)));
    assert_eq!(decoder.decode(&[0x7c, 0xc5, 9]), Some((vec![0, 0, 0, 1, 0x65, 9], 0)));
}

#[test]
fn tight_nv12_picture() {
    let mut decoder = decoder();
    let frame = RawFrame {
        width: 4,
        height: 2,
        format: PixelFormat::Nv12,
        planes: [
            Plane { data: &[1, 2, 3, 4, 5, 6, 7, 8, 99], stride: 4 },
            Plane { data: &[11, 12, 13, 14], stride: 4 },
            EMPTY,
        ],
    };
    let decoded = decoder.receive(&frame);
    assert_eq!((decoded.width, decoded.height, decoded.pts), (4, 2, 1));
    assert_eq!(*decoded.y_data, vec![1, 2, 3, 4, 5, 6, 7, 8]);
    assert_eq!(*decoded.uv_data, vec![11, 12, 13, 14]);
    assert_eq!((decoder.width, decoder.height, decoder.frames_decoded), (4, 2, 1));
    assert_eq!(decoder.decode(&[0x65]), Some((vec![0, 0, 0, 1, 0x65], 1)));
}

#[test]
fn padded_nv12_picture() {
    let mut decoder = decoder();
    let frame = RawFrame {
        width: 2,
        height: 4,
        format: PixelFormat::Nv12,
        planes: [
            Plane { data: &[1, 2, 0, 3, 4, 0, 5, 6, 0, 7, 8], stride: 3 },
            Plane { data: &[11, 12, 0, 0, 13, 14], stride: 4 },
            EMPTY,
        ],
    };
    let decoded = decoder.receive(&frame);
    assert_eq!(*decoded.y_data, vec![1, 2, 3, 4, 5, 6, 7, 8]);
    assert_eq!(*decoded.uv_data, vec![11, 12, 13, 14]);
}

#[test]
fn planar_picture_is_interleaved() {
    let mut decoder = decoder();
    let frame = RawFrame {
        width: 4,
        height: 4,
        format: PixelFormat::Yuv420p,
        planes: [
            Plane {
                data: &[1, 2, 3, 4, 5, 6, 7, 8, 9, 10, 11, 12, 13, 14, 15, 16],
                stride: 4,
            },
            Plane { data: &[21, 22, 0, 23, 24], stride: 3 },
            Plane { data: &[31, 32, 33, 34], stride: 2 },
        ],
    };
    let decoded = decoder.receive(&frame);
    assert_eq!(decoded.y_data.len(), 16);
    assert_eq!(*decoded.uv_data, vec![21, 31, 22, 32, 23, 33, 24, 34]);
}

#[test]
fn narrow_pictures_have_no_colour_of_their_own() {
    let mut decoder = decoder();
    let frame = RawFrame {
        width: 1,
        height: 4,
        format: PixelFormat::Yuv420p,
        planes: [Plane { data: &[1, 2, 3, 4], stride: 1 }, EMPTY, EMPTY],
    };
    let decoded = decoder.receive(&frame);
    assert_eq!(*decoded.y_data, vec![1, 2, 3, 4]);
    assert_eq!(*decoded.uv_data, vec![0, 0]);
}

#[test]
fn odd_pictures_keep_a_remainder() {
    let mut decoder = decoder();
    let black = RawFrame {
        width: 3,
        height: 3,
        format: PixelFormat::Other,
        planes: [EMPTY, EMPTY, EMPTY],
    };
    let decoded = decoder.receive(&black);
    assert_eq!(*decoded.y_data, vec![0; 9]);
    assert_eq!(*decoded.uv_data, vec![128; 4]);
    let odd = RawFrame {
        width: 3,
        height: 3,
        format: PixelFormat::Nv12,
        planes: [
            Plane { data: &[1, 2, 3, 4, 5, 6, 7, 8, 9], stride: 3 },
            Plane { data: &[11, 12, 13, 14], stride: 4 },
            EMPTY,
        ],
    };
    let decoded = decoder.receive(&odd);
    assert_eq!(*decoded.uv_data, vec![11, 12, 13, 128]);
}

#[test]
fn large_pictures_grow_the_buffers() {
    let mut decoder = decoder();
    let frame = RawFrame {
        width: 2560,
        height: 1440,
        format: PixelFormat::Other,
        planes: [EMPTY, EMPTY, EMPTY],
    };
    let decoded = decoder.receive(&frame);
    assert_eq!(decoded.y_data.len(), 2560 * 1440);
    assert_eq!(decoded.uv_data.len(), 2560 * 720);
    assert_eq!(decoder.y_buffer.len(), 2560 * 1440);
}
