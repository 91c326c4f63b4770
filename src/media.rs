//! Stream fan-out scheduling: streams by track, clients with their future
//! buffers and subscriptions, and the presentation time of each frame.
use vstd::prelude::*;
use crate::buffer::{overrun_update, quality_update, underrun_update, BufferView, DynamicFutureBuffer, MAX_LATENCY, MIN_LATENCY};
use crate::messages::{MediaAction, MediaControlMessage};
use crate::protocol::{is_v4_uuid, new_uuid, ErrorCode, NetworkQuality, NANOS_PER_MILLI};
use crate::sync::{saturate, saturate_i128};

verus! {

/// Bitrate given to a new stream, bits per second.
pub const DEFAULT_BITRATE: u32 = 128_000;

/// Sample rate given to a new stream, hertz.
pub const DEFAULT_SAMPLE_RATE: u32 = 48_000;

/// Channel count given to a new stream.
pub const DEFAULT_CHANNELS: u8 = 2;

/// Future-buffer latency of a newly added client, in nanoseconds (80 ms).
pub const CLIENT_INITIAL_LATENCY: u64 = 80 * NANOS_PER_MILLI;

/// Playback state of a stream, set by control commands.
#[derive(Debug, Clone, Copy, PartialEq, Eq, Structural)]
pub enum PlaybackState {
    /// No command yet: frames are delivered as they come.
    Idle,
    /// Playing from the given network-clock instant on.
    Playing(i64),
    Paused,
    Stopped,
}

/// Mathematical state of one stream.
pub ghost struct StreamView {
    pub track_id: Seq<char>,
    pub codec: Seq<char>,
    pub bitrate: u32,
    pub sample_rate: u32,
    pub channels: u8,
    pub playback: PlaybackState,
}

/// Mathematical state of one client.
pub ghost struct ClientView {
    pub client_id: u128,
    pub buffer: BufferView,
    pub network_quality: NetworkQuality,
    pub subscribed_tracks: Seq<Seq<char>>,
}

/// Mathematical state of a [`MediaServer`].
pub ghost struct MediaView {
    pub server_id: u128,
    pub streams: Seq<StreamView>,
    pub clients: Seq<ClientView>,
}

pub open spec fn has_track(s: Seq<StreamView>, t: Seq<char>) -> bool {
    exists|i: int| 0 <= i < s.len() && s[i].track_id == t
}

/// Position of the stream of track `t`.
pub open spec fn track_index(s: Seq<StreamView>, t: Seq<char>) -> int {
    choose|i: int| 0 <= i < s.len() && s[i].track_id == t
}

pub open spec fn has_client(c: Seq<ClientView>, id: u128) -> bool {
    exists|i: int| 0 <= i < c.len() && c[i].client_id == id
}

/// Position of the client `id`.
pub open spec fn client_index(c: Seq<ClientView>, id: u128) -> int {
    choose|i: int| 0 <= i < c.len() && c[i].client_id == id
}

pub open spec fn distinct_tracks(s: Seq<StreamView>) -> bool {
    forall|i: int, j: int| 0 <= i < j < s.len() ==> s[i].track_id != s[j].track_id
}

pub open spec fn distinct_clients(c: Seq<ClientView>) -> bool {
    forall|i: int, j: int| 0 <= i < j < c.len() ==> c[i].client_id != c[j].client_id
}

/// A stream as first registered.
pub open spec fn new_stream(track_id: Seq<char>, codec: Seq<char>) -> StreamView {
    StreamView {
        track_id,
        codec,
        bitrate: DEFAULT_BITRATE,
        sample_rate: DEFAULT_SAMPLE_RATE,
        channels: DEFAULT_CHANNELS,
        playback: PlaybackState::Idle,
    }
}

/// A client as first added at `now`.
pub open spec fn new_client(client_id: u128, now: i64) -> ClientView {
    ClientView {
        client_id,
        buffer: BufferView {
            target_latency: CLIENT_INITIAL_LATENCY as int,
            min_latency: MIN_LATENCY as int,
            max_latency: MAX_LATENCY as int,
            network_quality: NetworkQuality::Good,
            last_adjustment: now as int,
            underrun_count: 0,
            overrun_count: 0,
        },
        network_quality: NetworkQuality::Good,
        subscribed_tracks: Seq::empty(),
    }
}

/// Playback state after a control command.
pub open spec fn after_action(p: PlaybackState, action: MediaAction, start_at: i64) -> PlaybackState {
    match action {
        MediaAction::Play => PlaybackState::Playing(start_at),
        MediaAction::Pause => PlaybackState::Paused,
        MediaAction::Stop => PlaybackState::Stopped,
        _ => p,
    }
}

/// Presentation time of a frame handed out at network time `now` to a
/// client whose target latency is `target`: `now + target`. A stream that
/// plays from a start instant delivers nothing before it; nothing is
/// delivered while paused or stopped.
pub open spec fn stamp(p: PlaybackState, target: int, now: int) -> Option<i64> {
    match p {
        PlaybackState::Idle => Some(saturate(now + target)),
        PlaybackState::Playing(start) => if now < start {
            None
        } else {
            Some(saturate(now + target))
        },
        _ => None,
    }
}

/// Once a stream plays from `start`, every frame handed out is presented
/// no earlier than `start`.
pub proof fn lemma_no_presentation_before_start(start: i64, target: int, now: int)
    requires
        target >= 0,
    ensures
        stamp(PlaybackState::Playing(start), target, now) matches Some(t) ==> t >= start,
{
}

struct MediaStream {
    track_id: String,
    codec: String,
    bitrate: u32,
    sample_rate: u32,
    channels: u8,
    playback: PlaybackState,
}

struct MediaClient {
    client_id: u128,
    future_buffer: DynamicFutureBuffer,
    network_quality: NetworkQuality,
    subscribed_tracks: Vec<String>,
}

spec fn stream_view(s: MediaStream) -> StreamView {
    StreamView {
        track_id: s.track_id@,
        codec: s.codec@,
        bitrate: s.bitrate,
        sample_rate: s.sample_rate,
        channels: s.channels,
        playback: s.playback,
    }
}

spec fn client_view(c: MediaClient) -> ClientView {
    ClientView {
        client_id: c.client_id,
        buffer: c.future_buffer@,
        network_quality: c.network_quality,
        subscribed_tracks: c.subscribed_tracks@.map_values(|t: String| t@),
    }
}

/// Streams by track and clients by id, with what the scheduler needs to
/// stamp frames for each client.
pub struct MediaServer {
    server_id: u128,
    streams: Vec<MediaStream>,
    clients: Vec<MediaClient>,
}

impl View for MediaServer {
    type V = MediaView;

    closed spec fn view(&self) -> MediaView {
        MediaView {
            server_id: self.server_id,
            streams: self.streams@.map_values(|s: MediaStream| stream_view(s)),
            clients: self.clients@.map_values(|c: MediaClient| client_view(c)),
        }
    }
}

impl MediaServer {
    /// Well-formedness: one stream per track, one entry per client.
    pub open spec fn wf(&self) -> bool {
        distinct_tracks(self@.streams) && distinct_clients(self@.clients)
    }

    /// A server with a fresh random identifier, no stream and no client.
    pub fn new() -> (r: Self)
        ensures
            r.wf(),
            is_v4_uuid(r@.server_id),
            r@.streams == Seq::<StreamView>::empty(),
            r@.clients == Seq::<ClientView>::empty(),
    {
        let r = MediaServer { server_id: new_uuid(), streams: Vec::new(), clients: Vec::new() };
        assert(r@.streams =~= Seq::<StreamView>::empty());
        assert(r@.clients =~= Seq::<ClientView>::empty());
        r
    }

    /// Identifier of this server.
    pub fn server_id(&self) -> (r: u128)
        ensures
            r == self@.server_id,
    {
        self.server_id
    }

    /// Number of registered streams.
    pub fn stream_count(&self) -> (r: usize)
        ensures
            r == self@.streams.len(),
    {
        self.streams.len()
    }

    /// Number of connected clients.
    pub fn client_count(&self) -> (r: usize)
        ensures
            r == self@.clients.len(),
    {
        self.clients.len()
    }

    fn find_stream(&self, track_id: &String) -> (r: Option<usize>)
        ensures
            match r {
                Some(i) => i < self@.streams.len() && self@.streams[i as int].track_id == track_id@,
                None => !has_track(self@.streams, track_id@),
            },
    {
        let mut i: usize = 0;
        while i < self.streams.len()
            invariant
                i <= self.streams@.len(),
                forall|k: int| 0 <= k < i ==> self@.streams[k].track_id != track_id@,
            decreases self.streams@.len() - i,
        {
            if self.streams[i].track_id == *track_id {
                return Some(i);
            }
            i = i + 1;
        }
        None
    }

    fn find_client(&self, client_id: u128) -> (r: Option<usize>)
        ensures
            match r {
                Some(i) => i < self@.clients.len() && self@.clients[i as int].client_id == client_id,
                None => !has_client(self@.clients, client_id),
            },
    {
        let mut i: usize = 0;
        while i < self.clients.len()
            invariant
                i <= self.clients@.len(),
                forall|k: int| 0 <= k < i ==> self@.clients[k].client_id != client_id,
            decreases self.clients@.len() - i,
        {
            if self.clients[i].client_id == client_id {
                return Some(i);
            }
            i = i + 1;
        }
        None
    }

    /// Whether a stream is registered for the track.
    pub fn has_stream(&self, track_id: &String) -> (r: bool)
        ensures
            r == has_track(self@.streams, track_id@),
    {
        self.find_stream(track_id).is_some()
    }

    /// Registers a stream for a track. Re-creating an existing track
    /// replaces its codec and keeps everything else, its subscribers
    /// included.
    pub fn create_stream(&mut self, track_id: String, codec: String)
        requires
            old(self).wf(),
        ensures
            final(self).wf(),
            final(self)@.server_id == old(self)@.server_id,
            final(self)@.clients == old(self)@.clients,
            if has_track(old(self)@.streams, track_id@) {
                let i = track_index(old(self)@.streams, track_id@);
                final(self)@.streams == old(self)@.streams.update(
                    i,
                    StreamView { codec: codec@, ..old(self)@.streams[i] },
                )
            } else {
                final(self)@.streams == old(self)@.streams.push(new_stream(track_id@, codec@))
            },
    {
        match self.find_stream(&track_id) {
            Some(i) => {
                let ghost v = stream_view(self.streams@[i as int]);
                proof {
                    let j = track_index(old(self)@.streams, track_id@);
                    assert(old(self)@.streams[j].track_id == track_id@);
                }
                self.streams[i].codec = codec;
                assert(self@.streams =~= old(self)@.streams.update(
                    i as int,
                    StreamView { codec: codec@, ..v },
                ));
            },
            None => {
                let s = MediaStream {
                    track_id,
                    codec,
                    bitrate: DEFAULT_BITRATE,
                    sample_rate: DEFAULT_SAMPLE_RATE,
                    channels: DEFAULT_CHANNELS,
                    playback: PlaybackState::Idle,
                };
                self.streams.push(s);
                assert(self@.streams =~= old(self)@.streams.push(stream_view(s)));
            },
        }
    }

    /// Adds a client at monotonic instant `now` with an 80 ms future buffer
    /// on a good link and no subscription; a client already present starts
    /// over.
    pub fn add_client(&mut self, client_id: u128, now: i64)
        requires
            old(self).wf(),
        ensures
            final(self).wf(),
            final(self)@.server_id == old(self)@.server_id,
            final(self)@.streams == old(self)@.streams,
            if has_client(old(self)@.clients, client_id) {
                final(self)@.clients == old(self)@.clients.update(
                    client_index(old(self)@.clients, client_id),
                    new_client(client_id, now),
                )
            } else {
                final(self)@.clients == old(self)@.clients.push(new_client(client_id, now))
            },
    {
        let c = MediaClient {
            client_id,
            future_buffer: DynamicFutureBuffer::new(CLIENT_INITIAL_LATENCY, NetworkQuality::Good, now),
            network_quality: NetworkQuality::Good,
            subscribed_tracks: Vec::new(),
        };
        assert(client_view(c) == new_client(client_id, now)) by {
            assert(c.subscribed_tracks@.map_values(|t: String| t@) =~= Seq::<Seq<char>>::empty());
        }
        match self.find_client(client_id) {
            Some(i) => {
                proof {
                    let j = client_index(old(self)@.clients, client_id);
                    assert(old(self)@.clients[j].client_id == client_id);
                }
                self.clients.set(i, c);
                assert(self@.clients =~= old(self)@.clients.update(i as int, client_view(c)));
            },
            None => {
                self.clients.push(c);
                assert(self@.clients =~= old(self)@.clients.push(client_view(c)));
            },
        }
    }

    /// Removes a client and its subscriptions, if present.
    pub fn remove_client(&mut self, client_id: u128)
        requires
            old(self).wf(),
        ensures
            final(self).wf(),
            final(self)@.server_id == old(self)@.server_id,
            final(self)@.streams == old(self)@.streams,
            if has_client(old(self)@.clients, client_id) {
                final(self)@.clients == old(self)@.clients.remove(
                    client_index(old(self)@.clients, client_id),
                )
            } else {
                final(self)@.clients == old(self)@.clients
            },
    {
        match self.find_client(client_id) {
            Some(i) => {
                proof {
                    let j = client_index(old(self)@.clients, client_id);
                    assert(old(self)@.clients[j].client_id == client_id);
                }
                let _ = self.clients.remove(i);
                assert(self@.clients =~= old(self)@.clients.remove(i as int));
            },
            None => {},
        }
    }

    /// Records a client's network quality at monotonic instant `now` and
    /// hands it to the client's future buffer. Unknown clients are ignored.
    pub fn update_client_quality(&mut self, client_id: u128, quality: NetworkQuality, now: i64)
        requires
            old(self).wf(),
        ensures
            final(self).wf(),
            final(self)@.server_id == old(self)@.server_id,
            final(self)@.streams == old(self)@.streams,
            if has_client(old(self)@.clients, client_id) {
                let i = client_index(old(self)@.clients, client_id);
                let c = old(self)@.clients[i];
                final(self)@.clients == old(self)@.clients.update(
                    i,
                    ClientView {
                        network_quality: quality,
                        buffer: quality_update(c.buffer, quality, now as int),
                        ..c
                    },
                )
            } else {
                final(self)@.clients == old(self)@.clients
            },
    {
        match self.find_client(client_id) {
            Some(i) => {
                proof {
                    let j = client_index(old(self)@.clients, client_id);
                    assert(old(self)@.clients[j].client_id == client_id);
                }
                let ghost c = old(self)@.clients[i as int];
                self.clients[i].network_quality = quality;
                self.clients[i].future_buffer.update_network_quality(quality, now);
                assert(self@.clients =~= old(self)@.clients.update(
                    i as int,
                    ClientView {
                        network_quality: quality,
                        buffer: quality_update(c.buffer, quality, now as int),
                        ..c
                    },
                ));
            },
            None => {},
        }
    }

    /// Reports starvation of a client's buffer (also used for frames the
    /// client lost by lagging behind a stream). Unknown clients are ignored.
    pub fn report_client_underrun(&mut self, client_id: u128)
        requires
            old(self).wf(),
        ensures
            final(self).wf(),
            final(self)@.server_id == old(self)@.server_id,
            final(self)@.streams == old(self)@.streams,
            if has_client(old(self)@.clients, client_id) {
                let i = client_index(old(self)@.clients, client_id);
                let c = old(self)@.clients[i];
                final(self)@.clients == old(self)@.clients.update(
                    i,
                    ClientView { buffer: underrun_update(c.buffer), ..c },
                )
            } else {
                final(self)@.clients == old(self)@.clients
            },
    {
        match self.find_client(client_id) {
            Some(i) => {
                proof {
                    let j = client_index(old(self)@.clients, client_id);
                    assert(old(self)@.clients[j].client_id == client_id);
                }
                let ghost c = old(self)@.clients[i as int];
                self.clients[i].future_buffer.report_underrun();
                assert(self@.clients =~= old(self)@.clients.update(
                    i as int,
                    ClientView { buffer: underrun_update(c.buffer), ..c },
                ));
            },
            None => {},
        }
    }

    /// Reports excess buffered latency at a client. Unknown clients are ignored.
    pub fn report_client_overrun(&mut self, client_id: u128)
        requires
            old(self).wf(),
        ensures
            final(self).wf(),
            final(self)@.server_id == old(self)@.server_id,
            final(self)@.streams == old(self)@.streams,
            if has_client(old(self)@.clients, client_id) {
                let i = client_index(old(self)@.clients, client_id);
                let c = old(self)@.clients[i];
                final(self)@.clients == old(self)@.clients.update(
                    i,
                    ClientView { buffer: overrun_update(c.buffer), ..c },
                )
            } else {
                final(self)@.clients == old(self)@.clients
            },
    {
        match self.find_client(client_id) {
            Some(i) => {
                proof {
                    let j = client_index(old(self)@.clients, client_id);
                    assert(old(self)@.clients[j].client_id == client_id);
                }
                let ghost c = old(self)@.clients[i as int];
                self.clients[i].future_buffer.report_overrun();
                assert(self@.clients =~= old(self)@.clients.update(
                    i as int,
                    ClientView { buffer: overrun_update(c.buffer), ..c },
                ));
            },
            None => {},
        }
    }

    fn find_track_in(tracks: &Vec<String>, track_id: &String) -> (r: bool)
        ensures
            r == tracks@.map_values(|t: String| t@).contains(track_id@),
    {
        let ghost v = tracks@.map_values(|t: String| t@);
        let mut i: usize = 0;
        while i < tracks.len()
            invariant
                i <= tracks@.len(),
                v == tracks@.map_values(|t: String| t@),
                forall|k: int| 0 <= k < i ==> v[k] != track_id@,
            decreases tracks@.len() - i,
        {
            if tracks[i] == *track_id {
                assert(v[i as int] == track_id@);
                return true;
            }
            i = i + 1;
        }
        false
    }

    /// Whether a client is subscribed to a track.
    pub fn is_subscribed(&self, client_id: u128, track_id: &String) -> (r: bool)
        requires
            self.wf(),
        ensures
            r == (has_client(self@.clients, client_id) && self@.clients[client_index(
                self@.clients,
                client_id,
            )].subscribed_tracks.contains(track_id@)),
    {
        match self.find_client(client_id) {
            Some(i) => {
                proof {
                    let j = client_index(self@.clients, client_id);
                    assert(self@.clients[j].client_id == client_id);
                }
                Self::find_track_in(&self.clients[i].subscribed_tracks, track_id)
            },
            None => false,
        }
    }

    /// Subscribes a client to a track; the client's subscriptions form a
    /// set, so subscribing again changes nothing. Fails with `NotFound`,
    /// changing nothing, when no stream is registered for the track; a
    /// client that is not connected subscribes to nothing.
    pub fn subscribe_client(&mut self, client_id: u128, track_id: String) -> (r: Result<(), ErrorCode>)
        requires
            old(self).wf(),
        ensures
            final(self).wf(),
            final(self)@.server_id == old(self)@.server_id,
            final(self)@.streams == old(self)@.streams,
            r is Err <==> !has_track(old(self)@.streams, track_id@),
            r is Err ==> r == Err::<(), ErrorCode>(ErrorCode::NotFound) && final(self)@.clients == old(
                self,
            )@.clients,
            r is Ok ==> if has_client(old(self)@.clients, client_id) {
                let i = client_index(old(self)@.clients, client_id);
                let c = old(self)@.clients[i];
                final(self)@.clients == if c.subscribed_tracks.contains(track_id@) {
                    old(self)@.clients
                } else {
                    old(self)@.clients.update(
                        i,
                        ClientView { subscribed_tracks: c.subscribed_tracks.push(track_id@), ..c },
                    )
                }
            } else {
                final(self)@.clients == old(self)@.clients
            },
    {
        if !self.has_stream(&track_id) {
            return Err(ErrorCode::NotFound);
        }
        match self.find_client(client_id) {
            Some(i) => {
                proof {
                    let j = client_index(old(self)@.clients, client_id);
                    assert(old(self)@.clients[j].client_id == client_id);
                }
                if Self::find_track_in(&self.clients[i].subscribed_tracks, &track_id) {
                    return Ok(());
                }
                let ghost c = old(self)@.clients[i as int];
                let ghost t = track_id@;
                self.clients[i].subscribed_tracks.push(track_id);
                assert(self.clients@[i as int].subscribed_tracks@.map_values(|t: String| t@)
                    =~= c.subscribed_tracks.push(t));
                assert(self@.clients =~= old(self)@.clients.update(
                    i as int,
                    ClientView { subscribed_tracks: c.subscribed_tracks.push(t), ..c },
                ));
            },
            None => {},
        }
        Ok(())
    }

    /// Applies a playback command to its track: play from `start_at`,
    /// pause, stop, or unload (which removes the stream); seek and load
    /// leave the state as it is. Fails with `NotFound`, changing nothing,
    /// when no stream is registered for the track.
    pub fn process_control(&mut self, cmd: &MediaControlMessage) -> (r: Result<(), ErrorCode>)
        requires
            old(self).wf(),
        ensures
            final(self).wf(),
            final(self)@.server_id == old(self)@.server_id,
            final(self)@.clients == old(self)@.clients,
            r is Err <==> !has_track(old(self)@.streams, cmd.track_id@),
            r is Err ==> r == Err::<(), ErrorCode>(ErrorCode::NotFound) && final(self)@.streams == old(
                self,
            )@.streams,
            r is Ok ==> {
                let i = track_index(old(self)@.streams, cmd.track_id@);
                let s = old(self)@.streams[i];
                final(self)@.streams == if cmd.action == MediaAction::Unload {
                    old(self)@.streams.remove(i)
                } else {
                    old(self)@.streams.update(
                        i,
                        StreamView { playback: after_action(s.playback, cmd.action, cmd.start_at), ..s },
                    )
                }
            },
    {
        let i = match self.find_stream(&cmd.track_id) {
            Some(i) => i,
            None => {
                return Err(ErrorCode::NotFound);
            },
        };
        proof {
            let j = track_index(old(self)@.streams, cmd.track_id@);
            assert(old(self)@.streams[j].track_id == cmd.track_id@);
        }
        let ghost s = old(self)@.streams[i as int];
        match cmd.action {
            MediaAction::Unload => {
                let _ = self.streams.remove(i);
                assert(self@.streams =~= old(self)@.streams.remove(i as int));
            },
            action => {
                let next = match action {
                    MediaAction::Play => PlaybackState::Playing(cmd.start_at),
                    MediaAction::Pause => PlaybackState::Paused,
                    MediaAction::Stop => PlaybackState::Stopped,
                    _ => self.streams[i].playback,
                };
                self.streams[i].playback = next;
                assert(self@.streams =~= old(self)@.streams.update(
                    i as int,
                    StreamView { playback: after_action(s.playback, cmd.action, cmd.start_at), ..s },
                ));
            },
        }
        Ok(())
    }

    /// Presentation time of a frame of a track handed out to a client at
    /// network time `network_now`; `None`, meaning the frame is not
    /// delivered, when the client or the track is unknown, the track is
    /// paused or stopped, or it plays from a start instant still ahead.
    pub fn presentation_time(&self, client_id: u128, track_id: &String, network_now: i64) -> (r: Option<i64>)
        requires
            self.wf(),
        ensures
            r == if has_client(self@.clients, client_id) && has_track(self@.streams, track_id@) {
                stamp(
                    self@.streams[track_index(self@.streams, track_id@)].playback,
                    self@.clients[client_index(self@.clients, client_id)].buffer.target_latency,
                    network_now as int,
                )
            } else {
                None::<i64>
            },
    {
        let ci = match self.find_client(client_id) {
            Some(ci) => ci,
            None => {
                return None;
            },
        };
        let si = match self.find_stream(track_id) {
            Some(si) => si,
            None => {
                return None;
            },
        };
        proof {
            let j = client_index(self@.clients, client_id);
            assert(self@.clients[j].client_id == client_id);
            let k = track_index(self@.streams, track_id@);
            assert(self@.streams[k].track_id == track_id@);
        }
        let target = self.clients[ci].future_buffer.target_latency();
        let base = saturate_i128(network_now as i128 + target as i128);
        match self.streams[si].playback {
            PlaybackState::Idle => Some(base),
            PlaybackState::Playing(start) => if network_now < start {
                None
            } else {
                Some(base)
            },
            _ => None,
        }
    }
}

} // verus!
