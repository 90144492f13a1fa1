//! Binding a configuration and the record transform to the stream or
//! datagram ingestion engine, and what the adapter does with each frame that
//! the engine hands it.
use crate::config::{ConfigError, UnixConfig};
use crate::event::{Event, Timestamp};
use crate::transform::{
    build_event_at, event_model, key_view, metric_model, peer_view, utf8_len, SocketEventReceived,
    SocketMode,
};
use tokio_util::codec::LinesCodec;
use vstd::prelude::*;

verus! {

#[verifier::external_type_specification]
#[verifier::external_body]
pub struct ExLinesCodec(LinesCodec);

/// A newline-delimited line decoder, with the longest line it lets through.
pub struct LineDecoder {
    codec: LinesCodec,
    limit: Ghost<usize>,
}

impl LineDecoder {
    /// The longest line, in bytes, that the decoder lets through.
    pub closed spec fn limit(&self) -> usize {
        self.limit@
    }

    /// Relies on `LinesCodec::new_with_max_length`: a decoder that refuses
    /// lines longer than `max_length` bytes. It performs no I/O and does not
    /// fail. The limit is recorded beside it.
    #[verifier::external_body]
    fn with_max_length(max_length: usize) -> (r: Self)
        ensures
            r.limit() == max_length,
    {
        LineDecoder { codec: LinesCodec::new_with_max_length(max_length), limit: Ghost(max_length) }
    }

    /// Relies on `LinesCodec::max_length`, which returns the limit that the
    /// codec was built with; a `LineDecoder` is built only by
    /// `with_max_length` and never hands its codec out mutably.
    #[verifier::external_body]
    fn codec_limit(&self) -> (r: usize)
        ensures
            r == self.limit(),
    {
        self.codec.max_length()
    }

    /// The longest line, in bytes, that the decoder lets through.
    pub fn max_length(&self) -> (r: usize)
        ensures
            r == self.limit(),
    {
        self.codec_limit()
    }

    /// The codec, for the engine to frame a byte stream with.
    pub fn codec(&self) -> &LinesCodec {
        &self.codec
    }
}

/// One framing unit handed over by the ingestion engine.
#[derive(Debug, Clone)]
pub enum Frame {
    /// A record, with the sender's identity when the transport gives it.
    Record { text: String, peer: Option<Vec<u8>> },
    /// The engine met a record longer than the framing limit.
    TooLong,
}

/// What the adapter does with one frame.
#[derive(Debug, Clone)]
pub enum Outcome {
    /// Forward this event to the pipeline.
    Emit(Event),
    /// The frame broke the framing limit: no event and no metric; the source
    /// keeps serving the records that follow.
    FramingViolation,
}

/// What a bound source is: its socket mode and path, the framing limit,
/// the peer field name, and the limit that its line decoder was built with.
pub struct SourceModel {
    pub mode: SocketMode,
    pub path: Seq<char>,
    pub max_length: usize,
    pub host_key: Option<Seq<char>>,
    pub decoder_limit: usize,
}

/// A source ready to run: the socket path, the framing limit, the peer field
/// name and the socket mode, with the line decoder built for that limit.
pub struct UnixSource {
    mode: SocketMode,
    path: String,
    max_length: usize,
    host_key: Option<String>,
    decoder: LineDecoder,
}

impl View for UnixSource {
    type V = SourceModel;

    closed spec fn view(&self) -> SourceModel {
        SourceModel {
            mode: self.mode,
            path: self.path@,
            max_length: self.max_length,
            host_key: key_view(self.host_key),
            decoder_limit: self.decoder.limit(),
        }
    }
}

/// The model of a source bound with these values.
pub open spec fn source_model(
    mode: SocketMode,
    path: Seq<char>,
    max_length: usize,
    host_key: Option<Seq<char>>,
) -> SourceModel {
    SourceModel { mode, path, max_length, host_key, decoder_limit: max_length }
}

/// Binds a source of the given mode. It performs no I/O.
fn build_source(mode: SocketMode, path: String, max_length: usize, host_key: Option<String>) -> (r:
    UnixSource)
    requires
        path@.len() > 0,
        max_length > 0,
    ensures
        r.wf(),
        r@ == source_model(mode, path@, max_length, key_view(host_key)),
{
    let decoder = LineDecoder::with_max_length(max_length);
    UnixSource { mode, path, max_length, host_key, decoder }
}

/// Binds a stream-mode source: many connections, each framed into lines.
pub fn unix_stream(path: String, max_length: usize, host_key: Option<String>) -> (r: UnixSource)
    requires
        path@.len() > 0,
        max_length > 0,
    ensures
        r.wf(),
        r@ == source_model(SocketMode::Stream, path@, max_length, key_view(host_key)),
{
    build_source(SocketMode::Stream, path, max_length, host_key)
}

/// Binds a datagram-mode source: each datagram is one record, tagged with
/// its sender.
pub fn unix_datagram(path: String, max_length: usize, host_key: Option<String>) -> (r: UnixSource)
    requires
        path@.len() > 0,
        max_length > 0,
    ensures
        r.wf(),
        r@ == source_model(SocketMode::Datagram, path@, max_length, key_view(host_key)),
{
    build_source(SocketMode::Datagram, path, max_length, host_key)
}

impl UnixSource {
    /// A bound source has a non-empty path, a positive framing limit, and a
    /// line decoder built for that limit.
    pub open spec fn wf(&self) -> bool {
        &&& self@.path.len() > 0
        &&& self@.max_length > 0
        &&& self@.decoder_limit == self@.max_length
    }

    /// Binds a source of the given mode to a configuration, which is checked
    /// first.
    pub fn from_config(config: &UnixConfig, mode: SocketMode) -> (r: Result<Self, ConfigError>)
        ensures
            match r {
                Ok(s) => config.is_valid() && s.wf() && s@ == source_model(
                    mode,
                    config.path@,
                    config.max_length,
                    key_view(config.host_key),
                ),
                Err(e) => crate::config::config_error(config.path@, config.max_length) == Some(
                    e,
                ),
            },
    {
        match config.validate() {
            Ok(()) => Ok(
                build_source(mode, config.path.clone(), config.max_length, config.host_key.clone()),
            ),
            Err(e) => Err(e),
        }
    }

    /// The socket mode.
    pub fn mode(&self) -> (r: SocketMode)
        ensures
            r == self@.mode,
    {
        self.mode
    }

    /// The socket path.
    pub fn path(&self) -> (r: &String)
        ensures
            r@ == self@.path,
    {
        &self.path
    }

    /// The framing limit in bytes.
    pub fn max_length(&self) -> (r: usize)
        ensures
            r == self@.max_length,
    {
        self.max_length
    }

    /// The name of the field that receives the peer's identity.
    pub fn host_key(&self) -> (r: &Option<String>)
        ensures
            key_view(*r) == self@.host_key,
    {
        &self.host_key
    }

    /// The line decoder bound to the framing limit.
    pub fn decoder(&self) -> (r: &LineDecoder)
        ensures
            r.limit() == self@.decoder_limit,
    {
        &self.decoder
    }

    /// Handles one frame captured at `at`: a record within the framing
    /// limit becomes an event and a metric in `metrics`; anything else is a
    /// framing violation that leaves `metrics` as it was.
    pub fn handle_frame(
        &self,
        frame: Frame,
        at: Timestamp,
        metrics: &mut Vec<SocketEventReceived>,
    ) -> (r: Outcome)
        ensures
            match frame {
                Frame::Record { text, peer } => if utf8_len(text@) <= self@.max_length {
                    &&& r matches Outcome::Emit(e)
                    &&& e.wf()
                    &&& e@ == event_model(self@.host_key, peer_view(peer), text@, at)
                    &&& final(metrics)@ == old(metrics)@.push(metric_model(text@, self@.mode))
                } else {
                    r is FramingViolation && final(metrics)@ == old(metrics)@
                },
                Frame::TooLong => r is FramingViolation && final(metrics)@ == old(metrics)@,
            },
    {
        match frame {
            Frame::Record { text, peer } => {
                if text.as_str().as_bytes().len() <= self.max_length {
                    match build_event_at(&self.host_key, peer, text.as_str(), at, self.mode, metrics) {
                        Some(e) => Outcome::Emit(e),
                        None => Outcome::FramingViolation,
                    }
                } else {
                    Outcome::FramingViolation
                }
            },
            Frame::TooLong => Outcome::FramingViolation,
        }
    }
}

} // verus!
