//! Vulkan Video Decoder Module
//!
//! Which device decodes video, what a configuration consists of, and what has to
//! be done before a NAL unit can be handed to the device.
//!
//! Requirements:
//! - Vulkan 1.3+
//! - VK_KHR_video_queue
//! - VK_KHR_video_decode_queue
//! - VK_KHR_video_decode_h264 and/or VK_KHR_video_decode_h265

use ash::vk;
use vstd::prelude::*;

use crate::decoder::VideoCodec;
use crate::text::push_decimal;

verus! {

use crate::text::decimal;

/// The size of the bit stream buffer that a configuration begins with.
pub const INITIAL_BITSTREAM_SIZE: u64 = 4_194_304;

/// How many pictures are kept for reference.
pub const REFERENCE_PICTURES: u32 = 4;

/// The size that is assumed until the stream tells its own.
pub const ASSUMED_WIDTH: u32 = 1920;

pub const ASSUMED_HEIGHT: u32 = 1080;

/// The queue flag that stands for decoding video.
pub const VIDEO_DECODE_FLAG: u32 = 0x20;

/// A device can have at most this many kinds of memory.
pub const MAX_MEMORY_TYPES: usize = 32;

/// `ash::vk::api_version_major`: the seven bits of a packed version that hold its
/// major number.
pub assume_specification[ vk::api_version_major ](version: u32) -> (major: u32)
    ensures
        major == (version >> 22) & 0x7fu32,
;

/// `ash::vk::api_version_minor`: the ten bits of a packed version that hold its
/// minor number.
pub assume_specification[ vk::api_version_minor ](version: u32) -> (minor: u32)
    ensures
        minor == (version >> 12) & 0x3ffu32,
;

/// `ash::vk::QueueFlags::contains`, on the raw bits of both sides: whether all bits
/// of the second are set in the first.
#[verifier::external_body]
fn queue_flags_contain(flags: u32, wanted: u32) -> (does: bool)
    ensures
        does == (flags & wanted == wanted),
{
    vk::QueueFlags::from_raw(flags).contains(vk::QueueFlags::from_raw(wanted))
}

/// `ash::vk::MemoryPropertyFlags::contains`, on the raw bits of both sides: whether
/// all bits of the second are set in the first.
#[verifier::external_body]
fn memory_flags_contain(flags: u32, wanted: u32) -> (does: bool)
    ensures
        does == (flags & wanted == wanted),
{
    vk::MemoryPropertyFlags::from_raw(flags).contains(vk::MemoryPropertyFlags::from_raw(wanted))
}

/// Why the decoder cannot be used.
#[derive(Debug, Clone, Copy, PartialEq, Eq, Structural)]
pub enum VulkanError {
    /// The version is below 1.3.
    VersionTooLow { major: u32, minor: u32 },
    NoVideoDevice,
    NoMemoryType,
    UnsupportedCodec,
    NoBitstreamMemory,
}

impl VulkanError {
    /// The message that tells of the error.
    pub open spec fn text(self) -> Seq<char> {
        match self {
            VulkanError::VersionTooLow { major, minor } =>
                "Vulkan 1.3+ required for Vulkan Video (found "@ + decimal(major as nat) + "."@
                + decimal(minor as nat) + ")"@,
            VulkanError::NoVideoDevice => "No Vulkan Video capable device found"@,
            VulkanError::NoMemoryType => "Failed to find suitable memory type"@,
            VulkanError::UnsupportedCodec => "Unsupported codec for Vulkan Video"@,
            VulkanError::NoBitstreamMemory => "No bitstream memory"@,
        }
    }

    /// The message that tells of the error
    pub fn message(&self) -> (message: String)
        ensures
            message@ == self.text(),
    {
        match self {
            VulkanError::VersionTooLow { major, minor } => {
                let mut message: String = "Vulkan 1.3+ required for Vulkan Video (found ".to_string();
                push_decimal(&mut message, *major as u64);
                message.append(".");
                push_decimal(&mut message, *minor as u64);
                message.append(")");
                message
            },
            VulkanError::NoVideoDevice => "No Vulkan Video capable device found".to_string(),
            VulkanError::NoMemoryType => "Failed to find suitable memory type".to_string(),
            VulkanError::UnsupportedCodec => "Unsupported codec for Vulkan Video".to_string(),
            VulkanError::NoBitstreamMemory => "No bitstream memory".to_string(),
        }
    }
}

/// Whether a version is at least 1.3.
pub open spec fn is_recent(major: u32, minor: u32) -> bool {
    major > 1 || (major == 1 && minor >= 3)
}

/// Check for Vulkan 1.3+ support
pub fn check_version(api_version: u32) -> (result: Result<(), VulkanError>)
    ensures
        ({
            let major = (api_version >> 22) & 0x7fu32;
            let minor = (api_version >> 12) & 0x3ffu32;
            result == if is_recent(major, minor) {
                Ok::<(), VulkanError>(())
            } else {
                Err(VulkanError::VersionTooLow { major, minor })
            }
        }),
{
    let major: u32 = vk::api_version_major(api_version);
    let minor: u32 = vk::api_version_minor(api_version);
    if major < 1 || (major == 1 && minor < 3) {
        Err(VulkanError::VersionTooLow { major, minor })
    } else {
        Ok(())
    }
}

pub open spec fn decodes_video(queue_flags: u32) -> bool {
    queue_flags & VIDEO_DECODE_FLAG == VIDEO_DECODE_FLAG
}

/// Whether a queue family of a device is the first one that decodes video, over all
/// devices in order.
pub open spec fn is_first_decoder(devices: Seq<Vec<u32>>, device: int, family: int) -> bool {
    &&& 0 <= device < devices.len()
    &&& 0 <= family < devices[device]@.len()
    &&& decodes_video(devices[device]@[family])
    &&& forall|i: int| 0 <= i < family ==> !decodes_video(#[trigger] devices[device]@[i])
    &&& forall|d: int, i: int|
        0 <= d < device && 0 <= i < devices[d]@.len() ==> !decodes_video(
            #[trigger] devices[d]@[i],
        )
}

/// Whether no queue family of any device decodes video.
pub open spec fn none_decodes(devices: Seq<Vec<u32>>) -> bool {
    forall|d: int, i: int|
        0 <= d < devices.len() && 0 <= i < devices[d]@.len() ==> !decodes_video(
            #[trigger] devices[d]@[i],
        )
}

/// A device and its queue family for decoding.
#[derive(Debug, Clone, Copy, PartialEq, Eq, Structural)]
pub struct VideoDevice {
    pub device: usize,
    pub queue_family: usize,
    pub supports_h264: bool,
    pub supports_h265: bool,
}

/// Find a physical device with video decode support, given the flags of all queue
/// families of each device. Both codecs are taken to be supported.
pub fn find_video_device(devices: &Vec<Vec<u32>>) -> (found: Result<VideoDevice, VulkanError>)
    ensures
        match found {
            Ok(found) => {
                &&& is_first_decoder(devices@, found.device as int, found.queue_family as int)
                &&& found.supports_h264
                &&& found.supports_h265
            },
            Err(error) => error is NoVideoDevice && none_decodes(devices@),
        },
{
    for d in 0..devices.len()
        invariant
            forall|e: int, i: int|
                0 <= e < d && 0 <= i < devices@[e]@.len() ==> !decodes_video(
                    #[trigger] devices@[e]@[i],
                ),
    {
        let families = &devices[d];
        for f in 0..families.len()
            invariant
                d < devices.len(),
                families@ == devices@[d as int]@,
                forall|e: int, i: int|
                    0 <= e < d && 0 <= i < devices@[e]@.len() ==> !decodes_video(
                        #[trigger] devices@[e]@[i],
                    ),
                forall|i: int| 0 <= i < f ==> !decodes_video(#[trigger] families@[i]),
        {
            if queue_flags_contain(families[f], VIDEO_DECODE_FLAG) {
                return Ok(
                    VideoDevice {
                        device: d,
                        queue_family: f,
                        supports_h264: true,
                        supports_h265: true,
                    },
                );
            }
        }
    }
    Err(VulkanError::NoVideoDevice)
}

/// Whether a kind of memory is allowed by the filter and has the wanted properties.
pub open spec fn is_suitable(properties: Seq<u32>, filter: u32, wanted: u32, at: int) -> bool {
    filter & (1u32 << (at as u32)) != 0 && properties[at] & wanted == wanted
}

/// Find suitable memory type: the first one, given the properties of each
pub fn find_memory_type(properties: &Vec<u32>, type_filter: u32, wanted: u32) -> (found: Result<
    u32,
    VulkanError,
>)
    requires
        properties.len() <= MAX_MEMORY_TYPES,
    ensures
        match found {
            Ok(at) => {
                &&& at < properties.len()
                &&& is_suitable(properties@, type_filter, wanted, at as int)
                &&& forall|i: int|
                    0 <= i < at ==> !#[trigger] is_suitable(properties@, type_filter, wanted, i)
            },
            Err(error) => {
                &&& error is NoMemoryType
                &&& forall|i: int|
                    0 <= i < properties.len() ==> !#[trigger] is_suitable(
                        properties@,
                        type_filter,
                        wanted,
                        i,
                    )
            },
        },
{
    for i in 0..properties.len()
        invariant
            properties.len() <= MAX_MEMORY_TYPES,
            forall|j: int|
                0 <= j < i ==> !#[trigger] is_suitable(properties@, type_filter, wanted, j),
    {
        let bit: u32 = i as u32;
        if (type_filter & (1u32 << bit)) != 0 && memory_flags_contain(properties[i], wanted) {
            return Ok(bit);
        }
    }
    Err(VulkanError::NoMemoryType)
}

/// Vulkan Video decoder for H.264/H.265
#[derive(Debug, Clone, Copy, PartialEq, Eq, Structural)]
pub struct VulkanVideoDecoder {
    pub decode_queue_family: u32,
    /// Which objects exist.
    pub has_session: bool,
    pub has_parameters: bool,
    pub has_output: bool,
    pub has_bitstream: bool,
    pub bitstream_size: u64,
    pub references: u32,
    /// Current configuration
    pub width: u32,
    pub height: u32,
    pub codec: VideoCodec,
    pub frames_decoded: u64,
    /// Capabilities
    pub supports_h264: bool,
    pub supports_h265: bool,
}

/// One thing to do with the device.
#[derive(Debug, Clone, Copy, PartialEq, Eq, Structural)]
pub enum VulkanStep {
    /// Destroy all that a configuration consists of.
    CleanUp,
    CreateSession { width: u32, height: u32, codec: VideoCodec },
    BindSessionMemory,
    CreateParameters,
    CreateOutputImage { width: u32, height: u32 },
    CreateBitstreamBuffer { size: u64 },
    CreateReferenceImage { width: u32, height: u32 },
    /// Copy a NAL unit of this length into the bit stream buffer.
    Upload { len: u64 },
    /// Give up.
    Fail(VulkanError),
}

/// What a configuration consists of, in order.
pub open spec fn configuration(width: u32, height: u32, codec: VideoCodec) -> Seq<VulkanStep> {
    if codec is Unknown {
        seq![VulkanStep::CleanUp, VulkanStep::Fail(VulkanError::UnsupportedCodec)]
    } else {
        seq![
            VulkanStep::CleanUp,
            VulkanStep::CreateSession { width, height, codec },
            VulkanStep::BindSessionMemory,
            VulkanStep::CreateParameters,
            VulkanStep::CreateOutputImage { width, height },
            VulkanStep::CreateBitstreamBuffer { size: INITIAL_BITSTREAM_SIZE },
            VulkanStep::CreateReferenceImage { width, height },
            VulkanStep::CreateReferenceImage { width, height },
            VulkanStep::CreateReferenceImage { width, height },
            VulkanStep::CreateReferenceImage { width, height },
        ]
    }
}

/// How a NAL unit of a length gets into the bit stream buffer, which is made twice
/// as long where it is too short.
pub open spec fn upload_steps(has_bitstream: bool, size: u64, len: u64) -> Seq<VulkanStep> {
    if len > size {
        seq![
            VulkanStep::CreateBitstreamBuffer { size: (2 * len) as u64 },
            VulkanStep::Upload { len },
        ]
    } else if has_bitstream {
        seq![VulkanStep::Upload { len }]
    } else {
        seq![VulkanStep::Fail(VulkanError::NoBitstreamMemory)]
    }
}

impl VulkanVideoDecoder {
    /// Whether a configuration is the current one.
    pub open spec fn is_configured_for(&self, width: u32, height: u32, codec: VideoCodec) -> bool {
        self.width == width && self.height == height && self.codec == codec
    }

    /// What has to be done for a configuration: nothing if it is the current one.
    pub open spec fn configure_steps(&self, width: u32, height: u32, codec: VideoCodec) -> Seq<
        VulkanStep,
    > {
        if self.is_configured_for(width, height, codec) {
            Seq::empty()
        } else {
            configuration(width, height, codec)
        }
    }

    /// What has to be done for a NAL unit of a length.
    pub open spec fn decode_steps(&self, len: u64) -> Seq<VulkanStep> {
        if self.has_session || self.is_configured_for(
            ASSUMED_WIDTH,
            ASSUMED_HEIGHT,
            VideoCodec::H264,
        ) {
            upload_steps(self.has_bitstream, self.bitstream_size, len)
        } else {
            configuration(ASSUMED_WIDTH, ASSUMED_HEIGHT, VideoCodec::H264) + upload_steps(
                true,
                INITIAL_BITSTREAM_SIZE,
                len,
            )
        }
    }

    /// The decoder after a step has been done.
    pub open spec fn after(self, step: VulkanStep) -> Self {
        match step {
            VulkanStep::CleanUp => VulkanVideoDecoder {
                has_session: false,
                has_parameters: false,
                has_output: false,
                has_bitstream: false,
                references: 0,
                ..self
            },
            VulkanStep::CreateSession { .. } => VulkanVideoDecoder { has_session: true, ..self },
            VulkanStep::BindSessionMemory => self,
            VulkanStep::CreateParameters => VulkanVideoDecoder { has_parameters: true, ..self },
            VulkanStep::CreateOutputImage { .. } => VulkanVideoDecoder {
                has_output: true,
                ..self
            },
            VulkanStep::CreateBitstreamBuffer { size } => VulkanVideoDecoder {
                has_bitstream: true,
                bitstream_size: size,
                ..self
            },
            VulkanStep::CreateReferenceImage { .. } => VulkanVideoDecoder {
                references: (self.references + 1) as u32,
                ..self
            },
            VulkanStep::Upload { .. } => VulkanVideoDecoder {
                frames_decoded: (self.frames_decoded + 1) as u64,
                ..self
            },
            VulkanStep::Fail(_) => self,
        }
    }

    /// Create a new Vulkan Video decoder on a device
    pub fn new(found: VideoDevice) -> (decoder: Self)
        requires
            found.queue_family <= u32::MAX,
        ensures
            decoder == (VulkanVideoDecoder {
                decode_queue_family: found.queue_family as u32,
                has_session: false,
                has_parameters: false,
                has_output: false,
                has_bitstream: false,
                bitstream_size: 0,
                references: 0,
                width: 0,
                height: 0,
                codec: VideoCodec::Unknown,
                frames_decoded: 0,
                supports_h264: found.supports_h264,
                supports_h265: found.supports_h265,
            }),
    {
        VulkanVideoDecoder {
            decode_queue_family: found.queue_family as u32,
            has_session: false,
            has_parameters: false,
            has_output: false,
            has_bitstream: false,
            bitstream_size: 0,
            references: 0,
            width: 0,
            height: 0,
            codec: VideoCodec::Unknown,
            frames_decoded: 0,
            supports_h264: found.supports_h264,
            supports_h265: found.supports_h265,
        }
    }

    /// Configure decoder for specific codec and resolution: what has to be done
    pub fn configure(&mut self, width: u32, height: u32, codec: VideoCodec) -> (steps: Vec<
        VulkanStep,
    >)
        ensures
            steps@ == old(self).configure_steps(width, height, codec),
            *final(self) == (VulkanVideoDecoder { width, height, codec, ..*old(self) }),
    {
        let mut steps: Vec<VulkanStep> = Vec::new();
        if self.width == width && self.height == height && self.codec == codec {
            assert(steps@ =~= self.configure_steps(width, height, codec));
            return steps;
        }
        self.width = width;
        self.height = height;
        self.codec = codec;
        steps.push(VulkanStep::CleanUp);
        if codec == VideoCodec::Unknown {
            steps.push(VulkanStep::Fail(VulkanError::UnsupportedCodec));
            assert(steps@ =~= configuration(width, height, codec));
            return steps;
        }
        steps.push(VulkanStep::CreateSession { width, height, codec });
        steps.push(VulkanStep::BindSessionMemory);
        steps.push(VulkanStep::CreateParameters);
        steps.push(VulkanStep::CreateOutputImage { width, height });
        steps.push(VulkanStep::CreateBitstreamBuffer { size: INITIAL_BITSTREAM_SIZE });
        let ghost begun = steps@;
        for i in 0..REFERENCE_PICTURES
            invariant
                steps@ == begun + Seq::new(
                    i as nat,
                    |j: int| VulkanStep::CreateReferenceImage { width, height },
                ),
        {
            steps.push(VulkanStep::CreateReferenceImage { width, height });
            assert(steps@ =~= begun + Seq::new(
                (i + 1) as nat,
                |j: int| VulkanStep::CreateReferenceImage { width, height },
            ));
        }
        assert(steps@ =~= configuration(width, height, codec));
        steps
    }

    /// Decode a NAL unit of a length: what has to be done. No picture comes out of it
    /// yet.
    pub fn decode(&mut self, len: u64) -> (steps: Vec<VulkanStep>)
        requires
            2 * len <= u64::MAX,
        ensures
            steps@ == old(self).decode_steps(len),
            *final(self) == if old(self).has_session {
                *old(self)
            } else {
                VulkanVideoDecoder {
                    width: ASSUMED_WIDTH,
                    height: ASSUMED_HEIGHT,
                    codec: VideoCodec::H264,
                    ..*old(self)
                }
            },
    {
        let mut steps: Vec<VulkanStep> = Vec::new();
        let mut has_bitstream = self.has_bitstream;
        let mut size: u64 = self.bitstream_size;
        if !self.has_session {
            steps = self.configure(ASSUMED_WIDTH, ASSUMED_HEIGHT, VideoCodec::H264);
            if steps.len() > 0 {
                has_bitstream = true;
                size = INITIAL_BITSTREAM_SIZE;
            }
        }
        let ghost first = steps@;
        if len > size {
            steps.push(VulkanStep::CreateBitstreamBuffer { size: 2 * len });
            steps.push(VulkanStep::Upload { len });
        } else if has_bitstream {
            steps.push(VulkanStep::Upload { len });
        } else {
            steps.push(VulkanStep::Fail(VulkanError::NoBitstreamMemory));
        }
        assert(steps@ =~= first + upload_steps(has_bitstream, size, len));
        assert(steps@ =~= old(self).decode_steps(len));
        steps
    }

    /// Take note that a step has been done
    pub fn record(&mut self, step: VulkanStep)
        requires
            step is CreateReferenceImage ==> old(self).references < u32::MAX,
            step is Upload ==> old(self).frames_decoded < u64::MAX,
        ensures
            *final(self) == old(self).after(step),
    {
        match step {
            VulkanStep::CleanUp => {
                self.has_session = false;
                self.has_parameters = false;
                self.has_output = false;
                self.has_bitstream = false;
                self.references = 0;
            },
            VulkanStep::CreateSession { .. } => {
                self.has_session = true;
            },
            VulkanStep::BindSessionMemory => {},
            VulkanStep::CreateParameters => {
                self.has_parameters = true;
            },
            VulkanStep::CreateOutputImage { .. } => {
                self.has_output = true;
            },
            VulkanStep::CreateBitstreamBuffer { size } => {
                self.has_bitstream = true;
                self.bitstream_size = size;
            },
            VulkanStep::CreateReferenceImage { .. } => {
                self.references += 1;
            },
            VulkanStep::Upload { .. } => {
                self.frames_decoded += 1;
            },
            VulkanStep::Fail(_) => {},
        }
    }

    /// Get frames decoded count
    pub fn frames_decoded(&self) -> (count: u64)
        ensures
            count == self.frames_decoded,
    {
        self.frames_decoded
    }

    /// Check if H.264 is supported
    pub fn supports_h264(&self) -> (does: bool)
        ensures
            does == self.supports_h264,
    {
        self.supports_h264
    }

    /// Check if H.265 is supported
    pub fn supports_h265(&self) -> (does: bool)
        ensures
            does == self.supports_h265,
    {
        self.supports_h265
    }
}

/// The decoder after all of some steps have been done.
pub open spec fn after_all(
    decoder: VulkanVideoDecoder,
    steps: Seq<VulkanStep>,
) -> VulkanVideoDecoder
    decreases steps.len(),
{
    if steps.len() == 0 {
        decoder
    } else {
        after_all(decoder, steps.drop_last()).after(steps.last())
    }
}

/// Once a configuration is done, everything that decoding takes is there.
pub proof fn configuration_is_complete(
    decoder: VulkanVideoDecoder,
    width: u32,
    height: u32,
    codec: VideoCodec,
)
    requires
        codec !is Unknown,
    ensures
        ({
            let done = after_all(decoder, configuration(width, height, codec));
            &&& done.has_session
            &&& done.has_parameters
            &&& done.has_output
            &&& done.has_bitstream
            &&& done.bitstream_size == INITIAL_BITSTREAM_SIZE
            &&& done.references == REFERENCE_PICTURES
            &&& done.frames_decoded == decoder.frames_decoded
            &&& done.width == decoder.width
            &&& done.height == decoder.height
            &&& done.codec == decoder.codec
        }),
{
    let steps = configuration(width, height, codec);
    lemma_steps_so_far(decoder, steps, 10);
    lemma_steps_so_far(decoder, steps, 9);
    lemma_steps_so_far(decoder, steps, 8);
    lemma_steps_so_far(decoder, steps, 7);
    lemma_steps_so_far(decoder, steps, 6);
    lemma_steps_so_far(decoder, steps, 5);
    lemma_steps_so_far(decoder, steps, 4);
    lemma_steps_so_far(decoder, steps, 3);
    lemma_steps_so_far(decoder, steps, 2);
    lemma_steps_so_far(decoder, steps, 1);
    assert(steps.take(0) =~= Seq::empty());
    assert(steps.take(10) =~= steps);
}

proof fn lemma_steps_so_far(decoder: VulkanVideoDecoder, steps: Seq<VulkanStep>, count: int)
    requires
        0 < count <= steps.len(),
    ensures
        after_all(decoder, steps.take(count)) == after_all(decoder, steps.take(count - 1)).after(
            steps[count - 1],
        ),
{
    assert(steps.take(count).drop_last() =~= steps.take(count - 1));
}

/// Configuring for what is configured already takes nothing.
pub proof fn configuring_again_takes_nothing(
    decoder: VulkanVideoDecoder,
    width: u32,
    height: u32,
    codec: VideoCodec,
)
    ensures
        (VulkanVideoDecoder { width, height, codec, ..decoder }).configure_steps(
            width,
            height,
            codec,
        ) == Seq::<VulkanStep>::empty(),
{
}

/// A NAL unit is only copied into a buffer that exists and is long enough for it.
pub proof fn units_fit_their_buffer(decoder: VulkanVideoDecoder, len: u64)
    requires
        2 * len <= u64::MAX,
        decoder.decode_steps(len).last() == (VulkanStep::Upload { len }),
    ensures
        ({
            let steps = decoder.decode_steps(len);
            let ready = after_all(decoder, steps.drop_last());
            ready.has_bitstream && ready.bitstream_size >= len
        }),
{
    let steps = decoder.decode_steps(len);
    let assumed = configuration(ASSUMED_WIDTH, ASSUMED_HEIGHT, VideoCodec::H264);
    if decoder.has_session || decoder.is_configured_for(
        ASSUMED_WIDTH,
        ASSUMED_HEIGHT,
        VideoCodec::H264,
    ) {
        let tail = upload_steps(decoder.has_bitstream, decoder.bitstream_size, len);
        assert(steps == tail);
        if len > decoder.bitstream_size {
            assert(steps.drop_last().drop_last() =~= Seq::empty());
            assert(steps.drop_last().last() == tail[0]);
        } else {
            assert(steps.drop_last() =~= Seq::empty());
        }
    } else {
        configuration_is_complete(decoder, ASSUMED_WIDTH, ASSUMED_HEIGHT, VideoCodec::H264);
        let tail = upload_steps(true, INITIAL_BITSTREAM_SIZE, len);
        if len > INITIAL_BITSTREAM_SIZE {
            assert(steps.drop_last().drop_last() =~= assumed);
            assert(steps.drop_last().last() == tail[0]);
        } else {
            assert(steps.drop_last() =~= assumed);
        }
    }
}

/// Every decoding that does not fail counts one frame.
pub proof fn decoding_counts_one_frame(decoder: VulkanVideoDecoder, len: u64)
    requires
        2 * len <= u64::MAX,
        decoder.frames_decoded < u64::MAX,
        decoder.decode_steps(len).last() == (VulkanStep::Upload { len }),
    ensures
        after_all(decoder, decoder.decode_steps(len)).frames_decoded == decoder.frames_decoded + 1,
{
    let steps = decoder.decode_steps(len);
    let assumed = configuration(ASSUMED_WIDTH, ASSUMED_HEIGHT, VideoCodec::H264);
    if decoder.has_session || decoder.is_configured_for(
        ASSUMED_WIDTH,
        ASSUMED_HEIGHT,
        VideoCodec::H264,
    ) {
        if len > decoder.bitstream_size {
            assert(steps.drop_last().drop_last() =~= Seq::empty());
        } else {
            assert(steps.drop_last() =~= Seq::empty());
        }
    } else {
        configuration_is_complete(decoder, ASSUMED_WIDTH, ASSUMED_HEIGHT, VideoCodec::H264);
        if len > INITIAL_BITSTREAM_SIZE {
            assert(steps.drop_last().drop_last() =~= assumed);
        } else {
            assert(steps.drop_last() =~= assumed);
        }
    }
    reveal_with_fuel(after_all, 3);
}

/// Versions are recent enough from 1.3 on, in the order of major and then minor number.
pub proof fn versions_count_from_one_point_three(major: u32, minor: u32)
    requires
        minor < 1024,
    ensures
        is_recent(major, minor) <==> 1024 * major + minor >= 1024 * 1 + 3,
{
}

/// A queue family decodes video exactly if its sixth flag is set, whatever the others
/// say.
pub proof fn the_sixth_flag_decodes(flags: u32)
    ensures
        decodes_video(flags | 0x20),
        !decodes_video(flags & !0x20u32),
        decodes_video(flags) <==> (flags / 32) % 2 == 1,
{
    assert((flags | 0x20) & 0x20 == 0x20) by (bit_vector);
    assert((flags & !0x20u32) & 0x20 != 0x20) by (bit_vector);
    assert((flags & 0x20 == 0x20) <==> (flags / 32) % 2 == 1) by (bit_vector);
}

/// The device that is found is the first one with a family that decodes video, and the
/// family the first of those: there is never a second answer.
pub proof fn the_first_decoder_is_the_only_one(
    devices: Seq<Vec<u32>>,
    d1: int,
    f1: int,
    d2: int,
    f2: int,
)
    requires
        is_first_decoder(devices, d1, f1),
        0 <= d2 < devices.len(),
        0 <= f2 < devices[d2]@.len(),
        (devices[d2]@[f2] / 32) % 2 == 1,
    ensures
        (devices[d1]@[f1] / 32) % 2 == 1,
        d1 < d2 || (d1 == d2 && f1 <= f2),
        !none_decodes(devices),
{
    the_sixth_flag_decodes(devices[d1]@[f1]);
    the_sixth_flag_decodes(devices[d2]@[f2]);
}

/// A kind of memory is suitable exactly if the filter has its bit and it has every
/// property that is wanted: another property, or another bit of the filter, changes
/// nothing, and without its own bit it is not.
pub proof fn suitable_memory_has_what_is_wanted(
    properties: Seq<u32>,
    filter: u32,
    wanted: u32,
    at: int,
    more: u32,
)
    requires
        0 <= at < properties.len() <= 32,
    ensures
        is_suitable(properties, filter, wanted, at) ==> is_suitable(
            properties.update(at, properties[at] | more),
            filter | more,
            wanted,
            at,
        ),
        is_suitable(properties, filter, wanted, at) ==> properties[at] | wanted == properties[at],
        is_suitable(properties, filter, 0, at) <==> filter & (1u32 << (at as u32)) != 0,
        is_suitable(properties, u32::MAX, wanted, at) <==> properties[at] | wanted
            == properties[at],
{
    let bit = at as u32;
    let p = properties[at];
    assert(filter & (1u32 << bit) != 0 ==> (filter | more) & (1u32 << bit) != 0) by (bit_vector);
    assert(p & wanted == wanted ==> (p | more) & wanted == wanted) by (bit_vector);
    assert((p & wanted == wanted) <==> (p | wanted == p)) by (bit_vector);
    assert(p & 0u32 == 0u32) by (bit_vector);
    assert(0xffff_ffffu32 & (1u32 << bit) != 0) by (bit_vector)
        requires
            bit < 32,
    ;
}

/// A configuration begins by cleaning up; with a codec that is not known it fails, and
/// else it makes one session for the size and the codec, one output image and four
/// reference images of the size, and a buffer of four mebibytes.
pub proof fn configurations_are_made_for_their_size(
    width: u32,
    height: u32,
    codec: VideoCodec,
    i: int,
)
    ensures
        ({
            let steps = configuration(width, height, codec);
            &&& steps[0] is CleanUp
            &&& codec is Unknown ==> steps.len() == 2 && steps[1] == VulkanStep::Fail(
                VulkanError::UnsupportedCodec,
            )
            &&& codec !is Unknown ==> {
                &&& steps.len() == 10
                &&& steps[1] == (VulkanStep::CreateSession { width, height, codec })
                &&& steps[2] is BindSessionMemory
                &&& steps[3] is CreateParameters
                &&& steps[4] == (VulkanStep::CreateOutputImage { width, height })
                &&& steps[5] == (VulkanStep::CreateBitstreamBuffer { size: 4_194_304 })
                &&& 6 <= i < 10 ==> steps[i] == (VulkanStep::CreateReferenceImage {
                    width,
                    height,
                })
            }
        }),
{
}

/// A decoder is configured anew exactly if width, height or codec change.
pub proof fn changes_are_configured(
    decoder: VulkanVideoDecoder,
    width: u32,
    height: u32,
    codec: VideoCodec,
)
    ensures
        decoder.configure_steps(width, height, codec).len() == 0 <==> decoder.width == width
            && decoder.height == height && decoder.codec == codec,
        decoder.configure_steps(width, height, codec).len() > 0 ==> decoder.configure_steps(
            width,
            height,
            codec,
        ) == configuration(width, height, codec),
{
}

/// A unit that fits goes into the buffer as it is; for one that does not, a buffer of
/// twice its length is made first; without a buffer there is nothing to put it into.
/// So it is with a session, and with none that was left for H.264 in full HD.
pub proof fn buffers_are_made_twice_as_long(decoder: VulkanVideoDecoder, len: u64)
    requires
        2 * len <= u64::MAX,
        decoder.has_session || (decoder.width == 1920 && decoder.height == 1080 && decoder.codec
            == VideoCodec::H264),
    ensures
        ({
            let steps = decoder.decode_steps(len);
            &&& len <= decoder.bitstream_size && decoder.has_bitstream ==> steps == seq![
                VulkanStep::Upload { len },
            ]
            &&& len > decoder.bitstream_size ==> steps == seq![
                VulkanStep::CreateBitstreamBuffer { size: (len + len) as u64 },
                VulkanStep::Upload { len },
            ]
            &&& len <= decoder.bitstream_size && !decoder.has_bitstream ==> steps == seq![
                VulkanStep::Fail(VulkanError::NoBitstreamMemory),
            ]
        }),
{
}

/// A decoder without a session, and not left for H.264 in full HD, is first configured
/// for that.
pub proof fn the_first_unit_configures_for_full_hd(decoder: VulkanVideoDecoder, len: u64)
    requires
        2 * len <= u64::MAX,
        !decoder.has_session,
        decoder.width != 1920 || decoder.height != 1080 || decoder.codec != VideoCodec::H264,
    ensures
        decoder.decode_steps(len).take(10) == configuration(1920, 1080, VideoCodec::H264),
        len <= 4 * 1024 * 1024 ==> decoder.decode_steps(len).skip(10) == seq![
            VulkanStep::Upload { len },
        ],
        len > 4 * 1024 * 1024 ==> decoder.decode_steps(len).skip(10) == seq![
            VulkanStep::CreateBitstreamBuffer { size: (len + len) as u64 },
            VulkanStep::Upload { len },
        ],
{
    let steps = decoder.decode_steps(len);
    assert(steps.take(10) =~= configuration(1920, 1080, VideoCodec::H264));
    assert(steps.skip(10) =~= upload_steps(true, INITIAL_BITSTREAM_SIZE, len));
}

/// Each step that is done leaves what it makes, cleaning up leaves nothing, and only an
/// upload counts a frame.
pub proof fn steps_leave_what_they_make(
    decoder: VulkanVideoDecoder,
    step: VulkanStep,
    size: u64,
)
    requires
        decoder.references < u32::MAX,
        decoder.frames_decoded < u64::MAX,
    ensures
        ({
            let clean = decoder.after(VulkanStep::CleanUp);
            !clean.has_session && !clean.has_parameters && !clean.has_output
                && !clean.has_bitstream && clean.references == 0
        }),
        decoder.after(VulkanStep::CreateBitstreamBuffer { size }).bitstream_size == size,
        decoder.after(step).has_session <==> step is CreateSession || (decoder.has_session && !(step
            is CleanUp)),
        decoder.after(step).has_parameters <==> step is CreateParameters || (decoder.has_parameters
            && !(step is CleanUp)),
        decoder.after(step).has_output <==> step is CreateOutputImage || (decoder.has_output
            && !(step is CleanUp)),
        decoder.after(step).has_bitstream <==> step is CreateBitstreamBuffer || (
        decoder.has_bitstream && !(step is CleanUp)),
        step !is CleanUp ==> decoder.after(step).references == decoder.references + (if step
            is CreateReferenceImage {
            1int
        } else {
            0
        }),
        decoder.after(step).frames_decoded == decoder.frames_decoded + (if step is Upload {
            1int
        } else {
            0
        }),
        step !is CreateBitstreamBuffer ==> decoder.after(step).bitstream_size
            == decoder.bitstream_size,
        decoder.after(step).width == decoder.width,
        decoder.after(step).height == decoder.height,
        decoder.after(step).codec == decoder.codec,
{
}

/// The message of each error.
pub proof fn errors_have_their_messages(major: u32, minor: u32)
    ensures
        (VulkanError::VersionTooLow { major, minor }).text()
            == "Vulkan 1.3+ required for Vulkan Video (found "@ + decimal(major as nat) + "."@
            + decimal(minor as nat) + ")"@,
        VulkanError::NoVideoDevice.text() == "No Vulkan Video capable device found"@,
        VulkanError::NoMemoryType.text() == "Failed to find suitable memory type"@,
        VulkanError::UnsupportedCodec.text() == "Unsupported codec for Vulkan Video"@,
        VulkanError::NoBitstreamMemory.text() == "No bitstream memory"@,
{
}

} // verus!
