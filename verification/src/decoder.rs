//! Incremental MP3 decoding: adapts a readable byte source into a pull-based
//! sequence of 16-bit PCM samples, decoding one frame at a time.
//!
//! The byte source may deliver its bytes in arbitrarily small pieces (a slow
//! network connection). Bytes are therefore collected here, in verified code,
//! and handed to the frame decoder only once enough of them are in hand for a
//! whole frame and its following sync header: the decoded samples do not
//! depend on where the source happened to split its chunks.

use vstd::prelude::*;

verus! {

/// How many bytes one read from the source asks for at most.
const CHUNK_BYTES: usize = 4096;

/// How many undecoded bytes are kept in hand before the frame decoder runs:
/// comfortably more than the largest legal MP3 frame plus the next frame's
/// header, so the decoder never sees a frame cut short.
const FEED_THRESHOLD: usize = 8192;

/// How many stash-fulls of undecodable bytes are skipped while looking for
/// the next frame before the stream is reported as malformed rather than
/// merely slow.
const RESYNC_ROUNDS: usize = 64;

/// One decoded MP3 frame: interleaved 16-bit samples together with the stream
/// parameters that were in force for this frame (they may legally change from
/// frame to frame).
pub struct Frame {
    /// The decoded audio of this frame; channels are interleaved.
    pub data: Vec<i16>,
    /// The number of channels in this frame.
    pub channels: u16,
    /// This frame's sample rate in hertz.
    pub sample_rate: u32,
}

/// The outcome of asking for one more frame.
pub enum FramePull {
    /// A frame was decoded.
    Got(Frame),
    /// The byte source ended cleanly; no further frame will come.
    EndOfStream,
    /// Reading from the byte source failed; no further frame will come.
    ReadFailed,
}

/// Whether the sample sequence can still grow, ended cleanly, or stopped on a
/// read failure.
#[derive(Clone, Copy, PartialEq, Eq, Structural, Debug)]
pub enum StreamStatus {
    /// More samples may still be decoded from the source.
    Active,
    /// The byte source ended cleanly.
    Ended,
    /// Reading from the byte source failed.
    Failed,
}

/// Whether the byte source can still be read.
#[derive(Clone, Copy, PartialEq, Eq, Structural)]
enum SourceState {
    /// The source has not reported an end yet.
    Open,
    /// The source reported a clean end of its bytes.
    Drained,
    /// Reading from the source failed.
    Broken,
}

#[verifier::external_type_specification]
#[verifier::external_body]
#[verifier::reject_recursive_types(T)]
pub struct ExCursor<T>(std::io::Cursor<T>);

#[verifier::external_type_specification]
#[verifier::external_body]
#[verifier::reject_recursive_types(R)]
pub struct ExMp3Decoder<R>(minimp3::Decoder<R>);

/// The bytes ever fed to the buffered decoder: the contents of the in-memory
/// buffer it reads from.
pub uninterp spec fn fed_of(decoder: minimp3::Decoder<std::io::Cursor<Vec<u8>>>) -> Seq<u8>;

/// How many of the fed bytes the decoder has already taken in.
pub uninterp spec fn consumed_of(decoder: minimp3::Decoder<std::io::Cursor<Vec<u8>>>) -> nat;

/// Relies on `minimp3::Decoder::new` and `std::io::Cursor::new`: a fresh
/// decoder over an empty in-memory buffer has been fed nothing and has
/// consumed nothing.
#[verifier::external_body]
fn buffered_decoder_new() -> (r: minimp3::Decoder<std::io::Cursor<Vec<u8>>>)
    ensures
        fed_of(r) == Seq::<u8>::empty(),
        consumed_of(r) == 0,
{
    minimp3::Decoder::new(std::io::Cursor::new(Vec::new()))
}

/// Relies on `Vec::extend_from_slice`, reached through
/// `minimp3::Decoder::reader_mut` and `std::io::Cursor::get_mut`: appending
/// to the buffer grows the fed bytes by exactly `bytes` and consumes nothing.
#[verifier::external_body]
fn feed(decoder: &mut minimp3::Decoder<std::io::Cursor<Vec<u8>>>, bytes: &Vec<u8>)
    ensures
        fed_of(*final(decoder)) == fed_of(*old(decoder)) + bytes@,
        consumed_of(*final(decoder)) == consumed_of(*old(decoder)),
{
    decoder.reader_mut().get_mut().extend_from_slice(bytes.as_slice());
}

/// Relies on `Vec::len`, reached through `minimp3::Decoder::reader` and
/// `std::io::Cursor::get_ref`: the buffer's length is the number of fed
/// bytes.
#[verifier::external_body]
fn fed_len(decoder: &minimp3::Decoder<std::io::Cursor<Vec<u8>>>) -> (n: usize)
    ensures
        n == fed_of(*decoder).len(),
{
    decoder.reader().get_ref().len()
}

/// Relies on `std::io::Cursor::position`, `Vec::drain` and
/// `std::io::Cursor::set_position`, reached through
/// `minimp3::Decoder::reader_mut`: dropping the bytes before the cursor's
/// position and resetting it keeps exactly the bytes not yet consumed.
#[verifier::external_body]
fn compact(decoder: &mut minimp3::Decoder<std::io::Cursor<Vec<u8>>>)
    ensures
        fed_of(*final(decoder)) == fed_of(*old(decoder)).skip(consumed_of(*old(decoder)) as int),
        consumed_of(*final(decoder)) == 0,
{
    let cursor = decoder.reader_mut();
    let position = cursor.position() as usize;
    cursor.get_mut().drain(..position);
    cursor.set_position(0);
}

/// Relies on `std::io::Read::read`: one read delivers at most `buf.len()`
/// bytes, delivers 0 exactly when the source has no more bytes, and reports
/// failures as errors (here: `None`).
#[verifier::external_body]
fn read_chunk<R: std::io::Read>(source: &mut R) -> (r: Option<Vec<u8>>)
    ensures
        r matches Some(b) ==> b@.len() <= CHUNK_BYTES,
{
    let mut buf = vec![0u8; CHUNK_BYTES];
    match source.read(&mut buf) {
        Ok(n) => {
            buf.truncate(n);
            Some(buf)
        },
        Err(_) => None,
    }
}

/// Relies on `minimp3::Decoder::next_frame`: on success the frame holds at
/// least one sample and one or two channels (the C decoder reports a frame
/// only when it produced samples, and a frame is mono or stereo); `Eof` is
/// returned when the buffer is exhausted; decoding only consumes fed bytes,
/// never appends any.
#[verifier::external_body]
fn decoder_next_frame(decoder: &mut minimp3::Decoder<std::io::Cursor<Vec<u8>>>) -> (r: FramePull)
    ensures
        r matches FramePull::Got(f) ==> f.data@.len() > 0 && 1 <= f.channels <= 2,
        fed_of(*final(decoder)) == fed_of(*old(decoder)),
        consumed_of(*old(decoder)) <= consumed_of(*final(decoder)),
{
    match decoder.next_frame() {
        Ok(f) => FramePull::Got(Frame {
            data: f.data,
            channels: f.channels as u16,
            sample_rate: f.sample_rate as u32,
        }),
        Err(minimp3::Error::Eof) => FramePull::EndOfStream,
        Err(minimp3::Error::Io(_)) => FramePull::ReadFailed,
        Err(minimp3::Error::InsufficientData) => FramePull::ReadFailed,
        Err(minimp3::Error::SkippedData) => FramePull::ReadFailed,
    }
}

/// A lazy, singly-consumable sequence of PCM samples decoded on demand from a
/// readable MP3 byte source. Constructing one decodes the first frame, so a
/// source that is empty or not decodable MP3 is rejected up front.
#[verifier::reject_recursive_types(R)]
pub struct Mp3StreamDecoder<R> {
    source: R,
    source_state: SourceState,
    decoder: minimp3::Decoder<std::io::Cursor<Vec<u8>>>,
    current_frame: Frame,
    current_frame_offset: usize,
    status: StreamStatus,
}

impl<R> Mp3StreamDecoder<R> {
    /// The samples of the most recently decoded frame.
    pub closed spec fn frame_data(self) -> Seq<i16> {
        self.current_frame.data@
    }

    /// How many samples of the current frame have already been served.
    pub closed spec fn offset(self) -> int {
        self.current_frame_offset as int
    }

    /// The channel count of the most recently decoded frame.
    pub closed spec fn spec_channels(self) -> u16 {
        self.current_frame.channels
    }

    /// The sample rate of the most recently decoded frame.
    pub closed spec fn spec_sample_rate(self) -> u32 {
        self.current_frame.sample_rate
    }

    /// Whether the source is still being decoded, ended, or failed.
    pub closed spec fn spec_status(self) -> StreamStatus {
        self.status
    }

    /// The decoder never serves past the current frame, and once the source
    /// is over the current frame is fully drained.
    pub open spec fn wf(self) -> bool {
        &&& 0 <= self.offset() <= self.frame_data().len()
        &&& self.spec_status() != StreamStatus::Active ==> self.offset() == self.frame_data().len()
    }

    /// Destroy the decoder and return the underlying byte source.
    pub fn into_inner(self) -> R {
        self.source
    }

    /// Whether more samples may still come, and if not, why the sequence
    /// ended.
    pub fn status(&self) -> (r: StreamStatus)
        ensures
            r == self.spec_status(),
    {
        self.status
    }

    /// The channel count of the most recently decoded frame.
    pub fn channels(&self) -> (r: u16)
        ensures
            r == self.spec_channels(),
    {
        self.current_frame.channels
    }

    /// The sample rate, in hertz, of the most recently decoded frame.
    pub fn sample_rate(&self) -> (r: u32)
        ensures
            r == self.spec_sample_rate(),
    {
        self.current_frame.sample_rate
    }

    /// How many samples remain buffered from the current frame before the
    /// next frame has to be decoded.
    pub fn current_frame_len(&self) -> (r: Option<usize>)
        requires
            self.wf(),
        ensures
            r matches Some(n) && n == self.frame_data().len() - self.offset(),
    {
        Some(self.current_frame.data.len() - self.current_frame_offset)
    }
}

impl<R: std::io::Read> Mp3StreamDecoder<R> {
    /// Collect bytes from the source until enough are in hand for a whole
    /// frame, or the source is over. Only the byte stash changes; the frame
    /// being served does not.
    fn top_up(&mut self)
        ensures
            final(self).current_frame == old(self).current_frame,
            final(self).current_frame_offset == old(self).current_frame_offset,
            final(self).status == old(self).status,
    {
        compact(&mut self.decoder);
        loop
            invariant
                self.current_frame == old(self).current_frame,
                self.current_frame_offset == old(self).current_frame_offset,
                self.status == old(self).status,
            decreases FEED_THRESHOLD + CHUNK_BYTES - fed_of(self.decoder).len(),
        {
            if self.source_state != SourceState::Open {
                break;
            }
            if fed_len(&self.decoder) >= FEED_THRESHOLD {
                break;
            }
            match read_chunk(&mut self.source) {
                None => {
                    self.source_state = SourceState::Broken;
                    break;
                },
                Some(chunk) => {
                    if chunk.len() == 0 {
                        self.source_state = SourceState::Drained;
                        break;
                    } else {
                        feed(&mut self.decoder, &chunk);
                    }
                },
            }
        }
    }

    /// Decode one more frame, topping the stash up first so the decoder never
    /// runs on a frame cut short by chunked delivery. `EndOfStream` and
    /// `ReadFailed` tell a source that ended from one that broke; a stream
    /// that yields no frame for `RESYNC_ROUNDS` stash-fulls is reported as
    /// failed rather than skipped forever.
    fn pull_frame(&mut self) -> (r: FramePull)
        ensures
            final(self).current_frame == old(self).current_frame,
            final(self).current_frame_offset == old(self).current_frame_offset,
            final(self).status == old(self).status,
            r matches FramePull::Got(f) ==> f.data@.len() > 0 && 1 <= f.channels <= 2,
    {
        let mut attempts: usize = RESYNC_ROUNDS;
        loop
            invariant
                self.current_frame == old(self).current_frame,
                self.current_frame_offset == old(self).current_frame_offset,
                self.status == old(self).status,
            decreases attempts,
        {
            if attempts == 0 {
                return FramePull::ReadFailed;
            }
            attempts = attempts - 1;
            self.top_up();
            match decoder_next_frame(&mut self.decoder) {
                FramePull::Got(frame) => {
                    return FramePull::Got(frame);
                },
                FramePull::EndOfStream => {
                    // The stash is exhausted; over only if the source is.
                    match self.source_state {
                        SourceState::Broken => {
                            return FramePull::ReadFailed;
                        },
                        SourceState::Drained => {
                            return FramePull::EndOfStream;
                        },
                        SourceState::Open => {},
                    }
                },
                FramePull::ReadFailed => {
                    return FramePull::ReadFailed;
                },
            }
        }
    }

    /// Wrap a readable MP3 byte source. The first frame is decoded eagerly,
    /// so a source that is empty or does not start with decodable MP3 data is
    /// handed back unchanged as the error.
    pub fn new(data: R) -> (r: Result<Self, R>)
        ensures
            r matches Ok(d) ==> {
                &&& d.wf()
                &&& d.offset() == 0
                &&& d.spec_status() == StreamStatus::Active
                &&& d.frame_data().len() > 0
                &&& 1 <= d.spec_channels() <= 2
            },
    {
        let mut decoder = Mp3StreamDecoder {
            source: data,
            source_state: SourceState::Open,
            decoder: buffered_decoder_new(),
            current_frame: Frame { data: Vec::new(), channels: 0, sample_rate: 0 },
            current_frame_offset: 0,
            status: StreamStatus::Active,
        };
        match decoder.pull_frame() {
            FramePull::Got(frame) => {
                decoder.current_frame = frame;
                Ok(decoder)
            },
            _ => Err(decoder.source),
        }
    }

    /// Serve the next 16-bit sample, decoding the next frame from the source
    /// once the current frame is drained. `None` means the sequence is over,
    /// either because the source ended or because reading it failed;
    /// `status()` tells the two apart.
    pub fn next_sample(&mut self) -> (r: Option<i16>)
        requires
            old(self).wf(),
        ensures
            final(self).wf(),
            // Samples buffered in the current frame are served in order.
            old(self).offset() < old(self).frame_data().len() ==> {
                &&& r == Some(old(self).frame_data()[old(self).offset()])
                &&& final(self).frame_data() == old(self).frame_data()
                &&& final(self).offset() == old(self).offset() + 1
                &&& final(self).spec_channels() == old(self).spec_channels()
                &&& final(self).spec_sample_rate() == old(self).spec_sample_rate()
                &&& final(self).spec_status() == old(self).spec_status()
            },
            // An ended sequence stays ended, silently.
            old(self).offset() == old(self).frame_data().len()
                && old(self).spec_status() != StreamStatus::Active ==> {
                &&& r is None
                &&& final(self).frame_data() == old(self).frame_data()
                &&& final(self).offset() == old(self).offset()
                &&& final(self).spec_channels() == old(self).spec_channels()
                &&& final(self).spec_sample_rate() == old(self).spec_sample_rate()
                &&& final(self).spec_status() == old(self).spec_status()
            },
            // At a frame boundary a fresh frame is pulled: either it yields
            // its first sample, or the sequence ends here.
            old(self).offset() == old(self).frame_data().len()
                && old(self).spec_status() == StreamStatus::Active ==> {
                ||| {
                    &&& r matches Some(s) && s == final(self).frame_data()[0]
                    &&& final(self).frame_data().len() > 0
                    &&& final(self).offset() == 1
                    &&& final(self).spec_status() == StreamStatus::Active
                    &&& 1 <= final(self).spec_channels() <= 2
                }
                ||| {
                    &&& r is None
                    &&& final(self).spec_status() != StreamStatus::Active
                    &&& final(self).frame_data() == old(self).frame_data()
                    &&& final(self).spec_channels() == old(self).spec_channels()
                    &&& final(self).spec_sample_rate() == old(self).spec_sample_rate()
                }
            },
            // `None` is only ever an end of the sequence, never a skip.
            r is None ==> final(self).spec_status() != StreamStatus::Active,
    {
        if self.current_frame_offset < self.current_frame.data.len() {
            let v = self.current_frame.data[self.current_frame_offset];
            self.current_frame_offset = self.current_frame_offset + 1;
            Some(v)
        } else if self.status != StreamStatus::Active {
            None
        } else {
            match self.pull_frame() {
                FramePull::Got(frame) => {
                    let v = frame.data[0];
                    self.current_frame = frame;
                    self.current_frame_offset = 1;
                    Some(v)
                },
                FramePull::EndOfStream => {
                    self.status = StreamStatus::Ended;
                    None
                },
                FramePull::ReadFailed => {
                    self.status = StreamStatus::Failed;
                    None
                },
            }
        }
    }
}

} // verus!
