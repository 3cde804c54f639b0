//! Video frames as the streaming core hands them to a decoder, and how a frame is cut into the
//! samples that are sent on: the NAL units of H.264 and H.265 from their header byte on, the
//! payloads of the Annex B units of AV1.
use vstd::prelude::*;

use crate::annexb::{lemma_next_unit, spec_next_unit, AnnexBSplitter};
use crate::codec::trim_bytes_to_range;
use crate::h264::{law_only_sei_left_out, lemma_next_nal, spec_next_nal, H264Reader};
use crate::stream::{
    AudioConfig, BufferType, Colorspace, ConnectionStatus, DecodeResult, FrameType,
    OpusMultistreamConfig, Stage, SupportedVideoFormats, VideoFormat,
};

verus! {

/// The decoder sends frames as they come, without a queue of its own.
pub const CAPABILITY_DIRECT_SUBMIT: u32 = 0x1;
/// The decoder can recover from a lost H.264 reference frame without a new IDR frame.
pub const CAPABILITY_REFERENCE_FRAME_INVALIDATION_AVC: u32 = 0x2;
/// The decoder can recover from a lost H.265 reference frame without a new IDR frame.
pub const CAPABILITY_REFERENCE_FRAME_INVALIDATION_HEVC: u32 = 0x4;
/// The Opus decoder is slow.
pub const CAPABILITY_SLOW_OPUS_DECODER: u32 = 0x8;
/// The audio renderer takes samples of any duration.
pub const CAPABILITY_SUPPORTS_ARBITRARY_AUDIO_DURATION: u32 = 0x10;
/// The renderer pulls frames itself.
pub const CAPABILITY_PULL_RENDERER: u32 = 0x20;
/// The decoder can recover from a lost AV1 reference frame without a new IDR frame.
pub const CAPABILITY_REFERENCE_FRAME_INVALIDATION_AV1: u32 = 0x40;

/// What a decoder or renderer can do, as the protocol's bit set.
#[derive(Debug, Clone, Copy, PartialEq, Eq, Structural)]
pub struct Capabilities {
    pub bits: u32,
}

/// One buffer of a video frame.
#[derive(Debug, Clone)]
pub struct VideoDataBuffer {
    /// Only set for H.264 and H.265.
    pub ty: BufferType,
    pub data: Vec<u8>,
}

/// A video frame, made of the buffers of the packets it came in.
#[derive(Debug, Clone)]
pub struct VideoDecodeUnit {
    pub frame_number: i32,
    pub frame_type: FrameType,
    /// Host processing latency in units of a tenth of a millisecond, zero when unknown.
    pub frame_processing_latency: u16,
    pub receive_time_ms: u64,
    pub enqueue_time_ms: u64,
    /// Presentation time in milliseconds since the first captured frame.
    pub presentation_time_ms: u32,
    pub hdr_active: bool,
    pub color_space: Colorspace,
    pub buffers: Vec<VideoDataBuffer>,
}

/// Receives the video of a stream.
pub trait VideoDecoder {
    /// Sets the decoder up for a stream; 0 on success.
    fn setup(
        &mut self,
        format: VideoFormat,
        width: u32,
        height: u32,
        redraw_rate: u32,
        flags: (),
    ) -> i32;

    /// The stream starts; no frame comes before this returns.
    fn start(&mut self);

    /// A frame of Annex B data; a decoder that cannot use it asks for an IDR frame.
    fn submit_decode_unit(&mut self, unit: VideoDecodeUnit) -> DecodeResult;

    /// The stream stops; frames that still come may be dropped.
    fn stop(&mut self);

    fn supported_formats(&self) -> SupportedVideoFormats;

    fn capabilities(&self) -> Capabilities;
}

/// A video handler whose callbacks take no stream state.
pub trait VideoHandler {
    fn setup(format: (), width: u32, height: u32, redraw_rate: u32, flags: ());

    fn start();

    fn submit_decode_unit();

    fn stop();

    fn supported_formats(&self) -> SupportedVideoFormats;

    fn capabilities(&self);
}

/// Receives the audio of a stream.
pub trait AudioDecoder {
    /// Sets the renderer up for the negotiated configuration; 0 on success.
    fn setup(
        &mut self,
        audio_config: AudioConfig,
        stream_config: OpusMultistreamConfig,
        ar_flags: (),
    ) -> i32;

    /// The stream starts; no audio comes before this returns.
    fn start(&mut self);

    /// The stream stops; samples that still come may be dropped.
    fn stop(&mut self);

    /// One Opus packet to decode and play.
    fn decode_and_play_sample(&mut self, data: &[u8]);

    fn config(&self) -> AudioConfig;

    fn capabilities(&self) -> Capabilities;
}

/// Hears how a connection to a host goes.
pub trait ConnectionListener {
    /// A stage of setting the connection up begins.
    fn stage_starting(&mut self, stage: Stage);

    /// A stage of setting the connection up is done.
    fn stage_complete(&mut self, stage: Stage);

    /// A stage of setting the connection up failed; the connection never started.
    fn stage_failed(&mut self, stage: Stage, error_code: i32);

    /// The connection is established.
    fn connection_started(&mut self);

    /// The established connection ended: 0 when the host ended it on purpose.
    fn connection_terminated(&mut self, error_code: i32);

    /// A debug message.
    fn log_message(&mut self, message: &str);

    /// The quality of the connection changed.
    fn connection_status_update(&mut self, status: ConnectionStatus);

    /// The host turned HDR on or off.
    fn set_hdr_mode(&mut self, hdr_enabled: bool);

    /// The host asks for rumble on a controller.
    fn controller_rumble(
        &mut self,
        controller_number: u16,
        low_frequency_motor: u16,
        high_frequency_motor: u16,
    );

    /// The host asks for trigger rumble on a controller.
    fn controller_rumble_triggers(
        &mut self,
        controller_number: u16,
        left_trigger_motor: u16,
        right_trigger_motor: u16,
    );

    /// The host sets the motion sensor of a controller.
    fn controller_set_motion_event_state(
        &mut self,
        controller_number: u16,
        motion_type: u8,
        report_rate_hz: u16,
    );

    /// The host changes the adaptive trigger effects of a controller; the two trigger
    /// configurations are handed over to be read and updated.
    fn controller_set_adaptive_triggers(
        &mut self,
        controller_number: u16,
        event_flags: u8,
        type_left: u8,
        type_right: u8,
        left: &mut u8,
        right: &mut u8,
    );

    /// The host sets the LED of a controller.
    fn controller_set_led(&mut self, controller_number: u16, r: u8, g: u8, b: u8);
}

/// The bytes of a frame: its buffers one after another.
pub open spec fn frame_bytes(buffers: Seq<VideoDataBuffer>) -> Seq<u8>
    decreases buffers.len(),
{
    if buffers.len() == 0 {
        Seq::empty()
    } else {
        frame_bytes(buffers.drop_last()) + buffers.last().data@
    }
}

/// The bytes of the frame `unit`, its buffers joined.
pub fn full_frame(unit: &VideoDecodeUnit) -> (res: Vec<u8>)
    ensures
        res@ == frame_bytes(unit.buffers@),
{
    let mut out: Vec<u8> = Vec::new();
    let mut i: usize = 0;
    while i < unit.buffers.len()
        invariant
            i <= unit.buffers@.len(),
            out@ == frame_bytes(unit.buffers@.subrange(0, i as int)),
        decreases unit.buffers@.len() - i,
    {
        let data = &unit.buffers[i].data;
        let ghost before = out@;
        let mut k: usize = 0;
        while k < data.len()
            invariant
                k <= data@.len(),
                out@ == before + data@.subrange(0, k as int),
            decreases data@.len() - k,
        {
            out.push(data[k]);
            k = k + 1;
            assert(out@ =~= before + data@.subrange(0, k as int));
        }
        assert(unit.buffers@.subrange(0, i + 1).drop_last() =~= unit.buffers@.subrange(0, i as int));
        assert(data@.subrange(0, data@.len() as int) =~= data@);
        i = i + 1;
    }
    assert(unit.buffers@.subrange(0, unit.buffers@.len() as int) =~= unit.buffers@);
    out
}

/// The samples of an H.264 stream from position `p` on: each NAL unit that is no supplemental
/// enhancement information, from its header byte to its end.
pub open spec fn spec_h264_samples(b: Seq<u8>, p: int) -> Seq<Seq<u8>>
    decreases b.len() - p,
{
    match spec_next_nal(b, p) {
        None => Seq::empty(),
        Some(u) => if p < u.end <= b.len() {
            seq![b.subrange(u.payload, u.end)] + spec_h264_samples(b, u.end)
        } else {
            Seq::empty()
        },
    }
}

/// The samples of an AV1 stream from position `p` on: the payload of each Annex B unit.
pub open spec fn spec_annexb_payloads(b: Seq<u8>, p: int) -> Seq<Seq<u8>>
    decreases b.len() - p,
{
    match spec_next_unit(b, p) {
        None => Seq::empty(),
        Some(u) => if p < u.end <= b.len() {
            seq![b.subrange(u.payload, u.end)] + spec_annexb_payloads(b, u.end)
        } else {
            Seq::empty()
        },
    }
}

/// The first sample of an H.264 frame is the first unit of the frame, from its header byte
/// to its end, unless that unit is supplemental enhancement information (header type 6), in
/// which case the samples are those of the rest of the frame; a frame with no unit has no
/// sample.
pub proof fn law_h264_first_sample(b: Seq<u8>)
    ensures
        spec_next_unit(b, 0) is None ==> spec_h264_samples(b, 0).len() == 0,
        spec_next_unit(b, 0) matches Some(u) ==> {
            &&& b[u.payload] % 32 != 6 ==> spec_h264_samples(b, 0).len() >= 1
                && spec_h264_samples(b, 0)[0] == b.subrange(u.payload, u.end)
            &&& b[u.payload] % 32 == 6 ==> spec_h264_samples(b, 0) == spec_h264_samples(b, u.end)
        },
{
    lemma_next_unit(b, 0);
    law_only_sei_left_out(b, 0);
    match spec_next_unit(b, 0) {
        None => {},
        Some(u) => {
            if b[u.payload] % 32 == 6 {
                lemma_next_nal(b, u.end);
            }
        },
    }
}

/// The samples of an H.264 frame, in order: its NAL units without start code, leaving out
/// supplemental enhancement information.
pub fn h264_samples(frame: Vec<u8>) -> (res: Vec<Vec<u8>>)
    ensures
        res@.len() == spec_h264_samples(frame@, 0).len(),
        forall|i: int| 0 <= i < res@.len() ==> #[trigger] res@[i]@ == spec_h264_samples(frame@, 0)[i],
{
    let ghost b = frame@;
    let ghost all = spec_h264_samples(b, 0);
    let mut reader = H264Reader::new(frame);
    let mut out: Vec<Vec<u8>> = Vec::new();
    let ghost mut done: Seq<Seq<u8>> = Seq::empty();
    loop
        invariant
            reader.wf(),
            reader.stream() == b,
            b == frame@,
            all == spec_h264_samples(b, 0),
            done + spec_h264_samples(b, reader.pos()) == all,
            out@.len() == done.len(),
            forall|i: int| 0 <= i < out@.len() ==> #[trigger] out@[i]@ == done[i],
        decreases b.len() - reader.pos(),
    {
        let ghost p = reader.pos();
        proof { lemma_next_nal(b, p); }
        match reader.next_nal() {
            None => {
                assert(done =~= all);
                return out;
            },
            Some(nal) => {
                let ghost u = spec_next_nal(b, p)->0;
                let sample = trim_bytes_to_range(nal.full, nal.header_range.0, nal.payload_range.1);
                assert(sample@ =~= b.subrange(u.payload, u.end));
                proof {
                    assert(done.push(sample@) + spec_h264_samples(b, u.end) =~= done + (seq![
                        sample@,
                    ] + spec_h264_samples(b, u.end)));
                    done = done.push(sample@);
                }
                out.push(sample);
            },
        }
    }
}

/// The samples of an AV1 frame, in order: the payloads of its Annex B units.
pub fn annexb_payloads(frame: Vec<u8>) -> (res: Vec<Vec<u8>>)
    ensures
        res@.len() == spec_annexb_payloads(frame@, 0).len(),
        forall|i: int|
            0 <= i < res@.len() ==> #[trigger] res@[i]@ == spec_annexb_payloads(frame@, 0)[i],
{
    let ghost b = frame@;
    let ghost all = spec_annexb_payloads(b, 0);
    let mut splitter = AnnexBSplitter::new(frame);
    let mut out: Vec<Vec<u8>> = Vec::new();
    let ghost mut done: Seq<Seq<u8>> = Seq::empty();
    loop
        invariant
            splitter.wf(),
            splitter.stream() == b,
            b == frame@,
            all == spec_annexb_payloads(b, 0),
            done + spec_annexb_payloads(b, splitter.pos()) == all,
            out@.len() == done.len(),
            forall|i: int| 0 <= i < out@.len() ==> #[trigger] out@[i]@ == done[i],
        decreases b.len() - splitter.pos(),
    {
        let ghost p = splitter.pos();
        proof { lemma_next_unit(b, p); }
        match splitter.next() {
            None => {
                assert(done =~= all);
                return out;
            },
            Some(unit) => {
                let ghost u = spec_next_unit(b, p)->0;
                let sample = trim_bytes_to_range(unit.full, unit.payload_range.0, unit.payload_range.1);
                assert(sample@ =~= b.subrange(u.payload, u.end));
                proof {
                    assert(done.push(sample@) + spec_annexb_payloads(b, u.end) =~= done + (seq![
                        sample@,
                    ] + spec_annexb_payloads(b, u.end)));
                    done = done.push(sample@);
                }
                out.push(sample);
            },
        }
    }
}

/// An IDR frame is sent as important.
pub fn is_important(frame_type: FrameType) -> (res: bool)
    ensures
        res == (frame_type == FrameType::Idr),
{
    match frame_type {
        FrameType::Idr => true,
        FrameType::PFrame => false,
    }
}

/// The answer for a frame: an IDR frame is asked for when the receiver reported a lost picture
/// since the last frame.
pub fn decode_result(needs_idr: bool) -> (res: DecodeResult)
    ensures
        res == (if needs_idr { DecodeResult::NeedIdr } else { DecodeResult::Success }),
{
    if needs_idr {
        DecodeResult::NeedIdr
    } else {
        DecodeResult::Success
    }
}

/// The longest duration there is, in nanoseconds: `u64::MAX` seconds and the nanoseconds
/// short of one more.
pub const DURATION_MAX_NANOS: u128 = 18_446_744_073_709_551_615_999_999_999;

/// One second in nanoseconds.
pub const SECOND_NANOS: u128 = 1_000_000_000;

/// Timing statistics of the frames sent, durations in nanoseconds. The minimums start at zero
/// and so stay zero.
#[derive(Debug, Clone, Copy, PartialEq, Eq, Structural)]
pub struct VideoStats {
    /// When the statistics were last sent, on the caller's clock.
    pub last_send: Option<u128>,
    pub min_host_processing_latency: u128,
    pub max_host_processing_latency: u128,
    pub total_host_processing_latency: u128,
    pub host_processing_frame_count: usize,
    pub min_streamer_processing_time: u128,
    pub max_streamer_processing_time: u128,
    pub total_streamer_processing_time: u128,
    pub streamer_processing_time_frame_count: usize,
}

/// The statistics gathered so far, as they are reported.
#[derive(Debug, Clone, Copy, PartialEq, Eq, Structural)]
pub struct VideoStatsSummary {
    pub has_host_processing_latency: bool,
    pub min_host_processing_latency: u128,
    pub max_host_processing_latency: u128,
    pub avg_host_processing_latency: u128,
    pub min_streamer_processing_time: u128,
    pub max_streamer_processing_time: u128,
    pub avg_streamer_processing_time: u128,
}

/// The smaller of two durations.
pub open spec fn min_nanos(a: u128, b: u128) -> u128 {
    if a <= b { a } else { b }
}

/// The larger of two durations.
pub open spec fn max_nanos(a: u128, b: u128) -> u128 {
    if a >= b { a } else { b }
}

/// A total divided by a frame count taken as 32 bits, nothing when that is zero.
pub open spec fn average_nanos(total: u128, count: usize) -> u128 {
    if count as u32 == 0 {
        0
    } else {
        (total / (count as u32) as u128) as u128
    }
}

/// The statistics after one more frame: its host latency when the host reported one, and the
/// time this side took on it.
pub open spec fn stats_after(stats: VideoStats, host_latency: Option<u128>, processing: u128) -> VideoStats {
    let with_host = match host_latency {
        Some(l) => VideoStats {
            min_host_processing_latency: min_nanos(stats.min_host_processing_latency, l),
            max_host_processing_latency: max_nanos(stats.max_host_processing_latency, l),
            total_host_processing_latency: (stats.total_host_processing_latency + l) as u128,
            host_processing_frame_count: (stats.host_processing_frame_count + 1) as usize,
            ..stats
        },
        None => stats,
    };
    VideoStats {
        min_streamer_processing_time: min_nanos(with_host.min_streamer_processing_time, processing),
        max_streamer_processing_time: max_nanos(with_host.max_streamer_processing_time, processing),
        total_streamer_processing_time: (with_host.total_streamer_processing_time + processing) as u128,
        streamer_processing_time_frame_count: (with_host.streamer_processing_time_frame_count + 1) as usize,
        ..with_host
    }
}

/// The statistics are due to be reported: never reported, or last more than a second before
/// `now`.
pub open spec fn report_due(stats: VideoStats, now: u128) -> bool {
    match stats.last_send {
        None => true,
        Some(t) => t + SECOND_NANOS < now,
    }
}

/// The report of `stats`.
pub open spec fn spec_summary(stats: VideoStats) -> VideoStatsSummary {
    VideoStatsSummary {
        has_host_processing_latency: stats.host_processing_frame_count > 0,
        min_host_processing_latency: stats.min_host_processing_latency,
        max_host_processing_latency: stats.max_host_processing_latency,
        avg_host_processing_latency: average_nanos(
            stats.total_host_processing_latency,
            stats.host_processing_frame_count,
        ),
        min_streamer_processing_time: stats.min_streamer_processing_time,
        max_streamer_processing_time: stats.max_streamer_processing_time,
        avg_streamer_processing_time: average_nanos(
            stats.total_streamer_processing_time,
            stats.streamer_processing_time_frame_count,
        ),
    }
}

fn average(total: u128, count: usize) -> (res: u128)
    ensures
        res == average_nanos(total, count),
{
    let n = count as u32;
    if n == 0 {
        0
    } else {
        total / (n as u128)
    }
}

impl VideoStats {
    /// No frame yet, never reported.
    pub fn new() -> (res: VideoStats)
        ensures
            res.last_send is None,
            res.min_host_processing_latency == 0,
            res.max_host_processing_latency == 0,
            res.total_host_processing_latency == 0,
            res.host_processing_frame_count == 0,
            res.min_streamer_processing_time == 0,
            res.max_streamer_processing_time == 0,
            res.total_streamer_processing_time == 0,
            res.streamer_processing_time_frame_count == 0,
    {
        VideoStats {
            last_send: None,
            min_host_processing_latency: 0,
            max_host_processing_latency: 0,
            total_host_processing_latency: 0,
            host_processing_frame_count: 0,
            min_streamer_processing_time: 0,
            max_streamer_processing_time: 0,
            total_streamer_processing_time: 0,
            streamer_processing_time_frame_count: 0,
        }
    }

    /// Counts one more frame, and gives the report when one is due at `now`.
    pub fn analyze(&mut self, host_latency: Option<u128>, processing: u128, now: u128) -> (res: Option<VideoStatsSummary>)
        requires
            host_latency matches Some(l) ==> old(self).total_host_processing_latency + l <= DURATION_MAX_NANOS
                && old(self).host_processing_frame_count < usize::MAX,
            old(self).total_streamer_processing_time + processing <= DURATION_MAX_NANOS,
            old(self).streamer_processing_time_frame_count < usize::MAX,
            old(self).last_send matches Some(t) ==> t + SECOND_NANOS <= u128::MAX,
        ensures
            *final(self) == stats_after(*old(self), host_latency, processing),
            res == (if report_due(*old(self), now) {
                Some(spec_summary(*final(self)))
            } else {
                None::<VideoStatsSummary>
            }),
    {
        if let Some(l) = host_latency {
            if l < self.min_host_processing_latency {
                self.min_host_processing_latency = l;
            }
            if l > self.max_host_processing_latency {
                self.max_host_processing_latency = l;
            }
            self.total_host_processing_latency = self.total_host_processing_latency + l;
            self.host_processing_frame_count = self.host_processing_frame_count + 1;
        }
        if processing < self.min_streamer_processing_time {
            self.min_streamer_processing_time = processing;
        }
        if processing > self.max_streamer_processing_time {
            self.max_streamer_processing_time = processing;
        }
        self.total_streamer_processing_time = self.total_streamer_processing_time + processing;
        self.streamer_processing_time_frame_count = self.streamer_processing_time_frame_count + 1;
        let due = match self.last_send {
            None => true,
            Some(t) => t + SECOND_NANOS < now,
        };
        if due {
            Some(
                VideoStatsSummary {
                    has_host_processing_latency: self.host_processing_frame_count > 0,
                    min_host_processing_latency: self.min_host_processing_latency,
                    max_host_processing_latency: self.max_host_processing_latency,
                    avg_host_processing_latency: average(
                        self.total_host_processing_latency,
                        self.host_processing_frame_count,
                    ),
                    min_streamer_processing_time: self.min_streamer_processing_time,
                    max_streamer_processing_time: self.max_streamer_processing_time,
                    avg_streamer_processing_time: average(
                        self.total_streamer_processing_time,
                        self.streamer_processing_time_frame_count,
                    ),
                },
            )
        } else {
            None
        }
    }
}

} // verus!
