use gfn_streamer::decoder::{
    Backend, DecodedFrame, PixelFormat, Plane, RawFrame, VideoCodec, VideoDecoder,
};
use gfn_streamer::overlay::OverlayDrawing;
use gfn_streamer::renderer::{
    choose_format, choose_present_mode, texture_sizes, Extent, PlaneMismatch, Renderer,
};
use gfn_streamer::renderer::PresentMode::{Fifo, Immediate, Mailbox, Other};
use gfn_streamer::stats::{Figures, StreamStats};
use gfn_streamer::vulkan_decoder::{
    check_version, find_memory_type, find_video_device, VulkanError, VulkanStep,
    VulkanVideoDecoder, INITIAL_BITSTREAM_SIZE,
};
use std::sync::Arc;

fn frame(width: u32, height: u32, y: usize, uv: usize) -> DecodedFrame {
    DecodedFrame {
        width,
        height,
        y_data: Arc::new(vec![0; y]),
        uv_data: Arc::new(vec![0; uv]),
        pts: 1,
    }
}

#[test]
fn srgb_formats_are_preferred() {
    assert_eq!(choose_format(&vec![false, true, true]), 1);
    assert_eq!(choose_format(&vec![false, false]), 0);
    assert_eq!(choose_format(&vec![true]), 0);
}

#[test]
fn low_latency_modes_are_preferred() {
    assert_eq!(choose_present_mode(&vec![Fifo, Mailbox, Immediate]), Immediate);
    assert_eq!(choose_present_mode(&vec![Fifo, Mailbox]), Mailbox);
    assert_eq!(choose_present_mode(&vec![Other]), Fifo);
    assert_eq!(choose_present_mode(&vec![]), Fifo);
}

#[test]
fn surfaces_have_a_pixel() {
    let mut renderer = Renderer::new_from_raw(0, 600, 0);
    assert_eq!((renderer.width, renderer.height), (1, 600));
    assert_eq!(renderer.current_texture_size, (1920, 1080));
    assert!(!renderer.resize(0, 5));
    assert!(renderer.resize(800, 5));
    assert_eq!((renderer.width, renderer.height), (800, 5));
}

#[test]
fn frames_are_checked_before_upload() {
    let mut renderer = Renderer::new_from_raw(1, 1, 0);
    let (textures, upload) = renderer.upload_frame(&frame(4, 2, 8, 4));
    let sizes = textures.unwrap();
    assert_eq!(sizes, texture_sizes(4, 2));
    assert_eq!(sizes.uv, Extent { width: 2, height: 1 });
    let upload = upload.unwrap();
    assert_eq!((upload.y.bytes_per_row, upload.y.rows), (4, 2));
    assert_eq!((upload.uv.bytes_per_row, upload.uv.rows), (4, 1));
    let (textures, upload) = renderer.upload_frame(&frame(4, 2, 7, 4));
    assert!(textures.is_none());
    let error = upload.unwrap_err();
    assert_eq!(error, PlaneMismatch::Y { expected: 8, got: 7 });
    assert_eq!(error.message(), "Y plane size mismatch: expected 8 bytes, got 7 bytes");
    let (textures, upload) = renderer.upload_frame(&frame(6, 2, 12, 5));
    assert!(textures.is_some());
    let error = upload.unwrap_err();
    assert_eq!(error.message(), "UV plane size mismatch: expected 6 bytes, got 5 bytes");
    assert_eq!(renderer.current_texture_size, (6, 2));
}

#[test]
fn decoded_frames_are_accepted() {
    let picture = RawFrame {
        width: 3,
        height: 5,
        format: PixelFormat::Other,
        planes: [Plane { data: &[], stride: 0 }; 3],
    };
    let decoded = VideoDecoder::new(Backend::Software).receive(&picture);
    assert!(Renderer::new_from_raw(1, 1, 0).upload_frame(&decoded).1.is_ok());
}

#[test]
fn renderer_drives_the_overlay() {
    let mut renderer = Renderer::new_from_raw(1, 1, 0);
    let figures = Figures {
        render_fps: String::new(),
        decode_fps: String::new(),
        latency_ms: String::new(),
        jitter_ms: String::new(),
        loss: String::new(),
    };
    let (text, drawing) = renderer.render(200_000_000, &StreamStats::new(), &figures);
    assert!(text.is_some());
    assert_eq!(drawing, OverlayDrawing::PrepareAndDraw);
    renderer.overlay.prepared();
    let (text, drawing) = renderer.render(200_000_001, &StreamStats::new(), &figures);
    assert!(text.is_none());
    assert_eq!(drawing, OverlayDrawing::Draw);
    renderer.toggle_overlay();
    assert!(!renderer.is_overlay_visible());
    assert_eq!(
        renderer.render(900_000_000, &StreamStats::new(), &figures),
        (None, OverlayDrawing::Nothing)
    );
}

#[test]
fn vulkan_versions() {
    assert_eq!(check_version(ash::vk::API_VERSION_1_3), Ok(()));
    assert_eq!(check_version(ash::vk::make_api_version(0, 2, 0, 0)), Ok(()));
    let error = check_version(ash::vk::API_VERSION_1_2).unwrap_err();
    assert_eq!(error, VulkanError::VersionTooLow { major: 1, minor: 2 });
    assert_eq!(error.message(), "Vulkan 1.3+ required for Vulkan Video (found 1.2)");
    assert!(check_version(ash::vk::make_api_version(0, 0, 9, 0)).is_err());
}

#[test]
fn vulkan_messages() {
    assert_eq!(VulkanError::NoVideoDevice.message(), "No Vulkan Video capable device found");
    assert_eq!(VulkanError::NoMemoryType.message(), "Failed to find suitable memory type");
    assert_eq!(VulkanError::UnsupportedCodec.message(), "Unsupported codec for Vulkan Video");
    assert_eq!(VulkanError::NoBitstreamMemory.message(), "No bitstream memory");
}

#[test]
fn video_devices() {
    let video = ash::vk::QueueFlags::VIDEO_DECODE_KHR.as_raw();
    let graphics = ash::vk::QueueFlags::GRAPHICS.as_raw();
    let found = find_video_device(&vec![
        vec![graphics],
        vec![graphics, graphics | video, video],
        vec![video],
    ])
    .unwrap();
    assert_eq!((found.device, found.queue_family), (1, 1));
    assert!(found.supports_h264 && found.supports_h265);
    assert_eq!(find_video_device(&vec![vec![graphics], vec![]]), Err(VulkanError::NoVideoDevice));
}

#[test]
fn memory_types() {
    let local = ash::vk::MemoryPropertyFlags::DEVICE_LOCAL.as_raw();
    let visible = ash::vk::MemoryPropertyFlags::HOST_VISIBLE.as_raw();
    let types = vec![visible, local, local | visible];
    assert_eq!(find_memory_type(&types, 0b111, local), Ok(1));
    assert_eq!(find_memory_type(&types, 0b101, local), Ok(2));
    assert_eq!(find_memory_type(&types, 0b111, local | visible), Ok(2));
    assert_eq!(find_memory_type(&types, 0b001, local), Err(VulkanError::NoMemoryType));
}

fn vulkan() -> VulkanVideoDecoder {
    VulkanVideoDecoder::new(find_video_device(&vec![vec![0x20]]).unwrap())
}

#[test]
fn vulkan_configuration() {
    let mut decoder = vulkan();
    assert!(decoder.supports_h264() && decoder.supports_h265());
    let steps = decoder.configure(640, 480, VideoCodec::H265);
    assert_eq!(steps.len(), 10);
    assert_eq!(steps[0], VulkanStep::CleanUp);
    assert_eq!(
        steps[1],
        VulkanStep::CreateSession { width: 640, height: 480, codec: VideoCodec::H265 }
    );
    assert_eq!(steps[5], VulkanStep::CreateBitstreamBuffer { size: 4 * 1024 * 1024 });
    for step in steps {
        decoder.record(step);
    }
    assert!(decoder.has_session && decoder.has_parameters && decoder.has_output);
    assert_eq!((decoder.references, decoder.bitstream_size), (4, INITIAL_BITSTREAM_SIZE));
    assert!(decoder.configure(640, 480, VideoCodec::H265).is_empty());
    assert_eq!(
        decoder.configure(640, 480, VideoCodec::Unknown),
        vec![VulkanStep::CleanUp, VulkanStep::Fail(VulkanError::UnsupportedCodec)]
    );
}

#[test]
fn vulkan_decoding() {
    let mut decoder = vulkan();
    let steps = decoder.decode(100);
    assert_eq!(steps.len(), 11);
    assert_eq!(steps[10], VulkanStep::Upload { len: 100 });
    for step in steps {
        decoder.record(step);
    }
    assert_eq!((decoder.width, decoder.height, decoder.codec), (1920, 1080, VideoCodec::H264));
    assert_eq!(decoder.frames_decoded(), 1);
    let large = INITIAL_BITSTREAM_SIZE + 1;
    assert_eq!(
        decoder.decode(large),
        vec![
            VulkanStep::CreateBitstreamBuffer { size: 2 * large },
            VulkanStep::Upload { len: large }
        ]
    );
    decoder.record(VulkanStep::CleanUp);
    assert_eq!(decoder.decode(1), vec![VulkanStep::Fail(VulkanError::NoBitstreamMemory)]);
}
