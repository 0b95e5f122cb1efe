//! The decision core of one RTMP publishing session.  The connection walks
//! handshake, connect dialog, chunk-size wait, then the message loop; this
//! module decides, for every inbound message, the next state and the
//! ordered outbound actions.  Socket reads and writes, and the chunk-level
//! (de)serialization that carries AMF0 numbers, live outside the library
//! and hand plain values in and out.

use vstd::prelude::*;

verus! {

use crate::errors::{ErrorKind, MixerError};

/// Counts raw inbound bytes toward the next `Acknowledgement` message.
/// The 1 MiB threshold and its update rule are kept as found; they are not
/// derived from the RTMP specification.
pub struct AckCounter {
    pub bytes_since_ack: u32,
    pub ack_after_bytes: u32,
}

impl AckCounter {
    /// A fresh counter with the 1 MiB acknowledgement threshold.
    pub fn new() -> (r: AckCounter)
        ensures
            r.bytes_since_ack == 0,
            r.ack_after_bytes == 1048576,
    {
        AckCounter { bytes_since_ack: 0, ack_after_bytes: 1048576 }
    }

    /// Records `n` raw bytes read from the peer.
    pub fn add_bytes(&mut self, n: u32)
        requires
            old(self).bytes_since_ack + n <= u32::MAX,
        ensures
            final(self).bytes_since_ack == old(self).bytes_since_ack + n,
            final(self).ack_after_bytes == old(self).ack_after_bytes,
    {
        self.bytes_since_ack = self.bytes_since_ack + n;
    }

    /// If the threshold is reached, yields the sequence number to
    /// acknowledge and resets the counter; otherwise changes nothing.
    pub fn take_ack(&mut self) -> (r: Option<u32>)
        ensures
            final(self).ack_after_bytes == old(self).ack_after_bytes,
            old(self).bytes_since_ack >= old(self).ack_after_bytes ==> {
                &&& r == Some(old(self).bytes_since_ack)
                &&& final(self).bytes_since_ack == 0
            },
            old(self).bytes_since_ack < old(self).ack_after_bytes ==> {
                &&& r is None
                &&& final(self).bytes_since_ack == old(self).bytes_since_ack
            },
    {
        if self.bytes_since_ack >= self.ack_after_bytes {
            let seq_no = self.bytes_since_ack;
            self.bytes_since_ack = 0;
            Some(seq_no)
        } else {
            None
        }
    }
}

/// One inbound RTMP message, reduced to the plain values the dialog reads.
#[derive(Debug)]
pub enum InboundMessage {
    /// An AMF0 command with its name and transaction id.
    Command { name: String, transaction_id: u32 },
    /// The peer announces its outbound chunk size.
    SetChunkSize { size: u32 },
    /// An audio payload with the message's own RTMP timestamp.
    Audio { data: Vec<u8>, timestamp: u32 },
    /// A video payload with the message's own RTMP timestamp.
    Video { data: Vec<u8>, timestamp: u32 },
    /// A window acknowledgement from the peer.
    Acknowledgement,
    /// An AMF0 data message (stream metadata); logged outside, never
    /// answered.
    Metadata,
    /// Anything else; logged outside, never answered.
    Other,
}

/// One outbound step the session asks its surroundings to perform.
#[derive(Debug)]
pub enum Action {
    /// Send a `set_chunk_size` control message, uncompressed header forced.
    SetOutboundChunkSize { size: u32 },
    /// Apply the peer's chunk size to the inbound deserializer.
    ApplyInboundChunkSize { size: u32 },
    /// Send `WindowAcknowledgement`, uncompressed header forced.
    SendWindowAcknowledgement { size: u32 },
    /// Send `SetPeerBandwidth` with the dynamic limit type.
    SendSetPeerBandwidth { size: u32 },
    /// Send `UserControl` `StreamBegin` for stream id 0.
    SendStreamBegin,
    /// Send the `_result` for `connect`: fmsVer and capabilities 31, then
    /// level status, `NetConnection.Connect.Success`, object encoding 0.
    SendConnectResult { transaction_id: u32 },
    /// Send `onBWDone` with transaction id 0 and the single argument 8192.
    SendBwDone,
    /// Send `onFCPublish` with transaction id 0 and no arguments.
    SendFcPublishResponse,
    /// Send `onStatus` with `NetStream.Publish.Start`.
    SendPublishStart,
    /// Send the `_result` for `createStream` carrying the new stream id.
    SendCreateStreamResult { transaction_id: u32, stream_id: u32 },
    /// Send a `_result` with no arguments.
    SendEmptyResult { transaction_id: u32 },
    /// Hand an audio payload to the mixer under the FLV timeline.
    ForwardAudio { data: Vec<u8>, timestamp: i32 },
    /// Hand a video payload to the mixer under the FLV timeline.
    ForwardVideo { data: Vec<u8>, timestamp: i32 },
}

/// Where the dialog stands once the handshake has completed.
#[derive(Clone, Copy, Debug, PartialEq, Eq, Structural)]
pub enum ConnState {
    /// Scanning inbound commands for `connect`.
    Connecting,
    /// Waiting for the peer's first `SetChunkSize`; anything else fails
    /// the connection.
    ChunkSizeWait,
    /// The command loop, before `publish`.
    Ready,
    /// The command loop, once the peer has published.
    Publishing,
    /// Failed or finished.
    Closed,
}

/// The per-connection dialog state.
pub struct Connection {
    pub state: ConnState,
    pub connect_transaction_id: u32,
    pub next_stream_id: u32,
}

/// The ordered sends that bring a connection from the chunk-size wait into
/// the message loop.
pub open spec fn spec_ready_actions(tx: u32) -> Seq<Action> {
    seq![
        Action::SendWindowAcknowledgement { size: 2500000 },
        Action::SendSetPeerBandwidth { size: 2500000 },
        Action::SendStreamBegin,
        Action::SendConnectResult { transaction_id: tx },
        Action::SendBwDone,
    ]
}

/// The reply the message loop owes each AMF0 command, by name.  `bumped_sid`
/// is the stream id counter after this command.  Unknown commands, and the
/// replies a server itself receives, are ignored without disconnecting.
pub open spec fn spec_command_response(name: Seq<char>, tx: u32, bumped_sid: u32) -> Seq<Action> {
    if name == "FCPublish"@ {
        seq![Action::SendFcPublishResponse]
    } else if name == "publish"@ {
        seq![Action::SendPublishStart]
    } else if name == "createStream"@ {
        seq![Action::SendCreateStreamResult { transaction_id: tx, stream_id: bumped_sid }]
    } else if name == "releaseStream"@ || name == "_checkbw"@ {
        seq![Action::SendEmptyResult { transaction_id: tx }]
    } else {
        Seq::<Action>::empty()
    }
}

/// Everything one `on_message` call does, over the whole dialog.
pub open spec fn spec_on_message(
    pre: Connection,
    post: Connection,
    msg: InboundMessage,
    r: Result<Vec<Action>, MixerError>,
) -> bool {
    match pre.state {
        ConnState::Connecting => match msg {
            InboundMessage::Command { name, transaction_id } => {
                if name@ == "connect"@ {
                    &&& post.state == ConnState::ChunkSizeWait
                    &&& post.connect_transaction_id == transaction_id
                    &&& post.next_stream_id == pre.next_stream_id
                    &&& r matches Ok(v) && v@ == seq![Action::SetOutboundChunkSize { size: 128 }]
                } else {
                    &&& post == pre
                    &&& r matches Ok(v) && v@ == Seq::<Action>::empty()
                }
            },
            _ => {
                &&& post == pre
                &&& r matches Ok(v) && v@ == Seq::<Action>::empty()
            },
        },
        ConnState::ChunkSizeWait => match msg {
            InboundMessage::SetChunkSize { size } => {
                &&& post.state == ConnState::Ready
                &&& post.connect_transaction_id == pre.connect_transaction_id
                &&& post.next_stream_id == pre.next_stream_id
                &&& r matches Ok(v) && v@ == seq![Action::ApplyInboundChunkSize { size }]
                    + spec_ready_actions(pre.connect_transaction_id)
            },
            _ => {
                &&& post.state == ConnState::Closed
                &&& post.connect_transaction_id == pre.connect_transaction_id
                &&& post.next_stream_id == pre.next_stream_id
                &&& r == Err::<Vec<Action>, MixerError>(
                    MixerError { kind: ErrorKind::ProtocolViolation },
                )
            },
        },
        ConnState::Ready | ConnState::Publishing => match msg {
            InboundMessage::Command { name, transaction_id } => {
                let bumped = if name@ == "createStream"@ {
                    (pre.next_stream_id + 1) as u32
                } else {
                    pre.next_stream_id
                };
                &&& post.next_stream_id == bumped
                &&& post.connect_transaction_id == pre.connect_transaction_id
                &&& post.state == (if name@ == "publish"@ {
                    ConnState::Publishing
                } else {
                    pre.state
                })
                &&& r matches Ok(v) && v@ == spec_command_response(name@, transaction_id, bumped)
            },
            InboundMessage::SetChunkSize { size } => {
                &&& post == pre
                &&& r matches Ok(v) && v@ == seq![Action::ApplyInboundChunkSize { size }]
            },
            InboundMessage::Audio { data, timestamp } => {
                if timestamp > 0x7fffffff {
                    &&& post.state == ConnState::Closed
                    &&& post.connect_transaction_id == pre.connect_transaction_id
                    &&& post.next_stream_id == pre.next_stream_id
                    &&& r == Err::<Vec<Action>, MixerError>(
                        MixerError { kind: ErrorKind::Overflow },
                    )
                } else {
                    &&& post == pre
                    &&& r matches Ok(v) && v@ == seq![
                        Action::ForwardAudio { data, timestamp: timestamp as i32 },
                    ]
                }
            },
            InboundMessage::Video { data, timestamp } => {
                if timestamp > 0x7fffffff {
                    &&& post.state == ConnState::Closed
                    &&& post.connect_transaction_id == pre.connect_transaction_id
                    &&& post.next_stream_id == pre.next_stream_id
                    &&& r == Err::<Vec<Action>, MixerError>(
                        MixerError { kind: ErrorKind::Overflow },
                    )
                } else {
                    &&& post == pre
                    &&& r matches Ok(v) && v@ == seq![
                        Action::ForwardVideo { data, timestamp: timestamp as i32 },
                    ]
                }
            },
            _ => {
                &&& post == pre
                &&& r matches Ok(v) && v@ == Seq::<Action>::empty()
            },
        },
        ConnState::Closed => {
            &&& post == pre
            &&& r matches Ok(v) && v@ == Seq::<Action>::empty()
        },
    }
}

/// An empty action list.
fn no_actions() -> (r: Vec<Action>)
    ensures
        r@ == Seq::<Action>::empty(),
{
    let r: Vec<Action> = Vec::new();
    proof {
        assert(r@ =~= Seq::<Action>::empty());
    }
    r
}

impl Connection {
    /// The dialog state of a connection whose handshake just completed:
    /// scanning for `connect`, with the stream id counter at its starting
    /// value 3.
    pub fn new() -> (r: Connection)
        ensures
            r.state == ConnState::Connecting,
            r.connect_transaction_id == 0,
            r.next_stream_id == 3,
    {
        Connection { state: ConnState::Connecting, connect_transaction_id: 0, next_stream_id: 3 }
    }

    /// Feeds one inbound message to the dialog; returns the ordered
    /// outbound actions, or the error that closes the connection.
    pub fn on_message(&mut self, msg: InboundMessage) -> (r: Result<Vec<Action>, MixerError>)
        requires
            old(self).next_stream_id < u32::MAX,
        ensures
            spec_on_message(*old(self), *final(self), msg, r),
    {
        match self.state {
            ConnState::Connecting => match msg {
                InboundMessage::Command { name, transaction_id } => {
                    let s_connect = String::from_str("connect");
                    if name == s_connect {
                        self.state = ConnState::ChunkSizeWait;
                        self.connect_transaction_id = transaction_id;
                        let mut acts: Vec<Action> = Vec::new();
                        acts.push(Action::SetOutboundChunkSize { size: 128 });
                        proof {
                            assert(acts@ =~= seq![Action::SetOutboundChunkSize { size: 128u32 }]);
                        }
                        Ok(acts)
                    } else {
                        Ok(no_actions())
                    }
                },
                _ => Ok(no_actions()),
            },
            ConnState::ChunkSizeWait => match msg {
                InboundMessage::SetChunkSize { size } => {
                    self.state = ConnState::Ready;
                    let tx = self.connect_transaction_id;
                    let mut acts: Vec<Action> = Vec::new();
                    acts.push(Action::ApplyInboundChunkSize { size });
                    acts.push(Action::SendWindowAcknowledgement { size: 2500000 });
                    acts.push(Action::SendSetPeerBandwidth { size: 2500000 });
                    acts.push(Action::SendStreamBegin);
                    acts.push(Action::SendConnectResult { transaction_id: tx });
                    acts.push(Action::SendBwDone);
                    proof {
                        assert(acts@ =~= seq![Action::ApplyInboundChunkSize { size }]
                            + spec_ready_actions(tx));
                    }
                    Ok(acts)
                },
                _ => {
                    self.state = ConnState::Closed;
                    Err(MixerError { kind: ErrorKind::ProtocolViolation })
                },
            },
            ConnState::Ready | ConnState::Publishing => match msg {
                InboundMessage::Command { name, transaction_id } => {
                    self.on_command(name, transaction_id)
                },
                InboundMessage::SetChunkSize { size } => {
                    let mut acts: Vec<Action> = Vec::new();
                    acts.push(Action::ApplyInboundChunkSize { size });
                    proof {
                        assert(acts@ =~= seq![Action::ApplyInboundChunkSize { size }]);
                    }
                    Ok(acts)
                },
                InboundMessage::Audio { data, timestamp } => {
                    if timestamp > 0x7fffffff {
                        self.state = ConnState::Closed;
                        return Err(MixerError { kind: ErrorKind::Overflow });
                    }
                    let mut acts: Vec<Action> = Vec::new();
                    let ghost data_view = data;
                    acts.push(Action::ForwardAudio { data, timestamp: timestamp as i32 });
                    proof {
                        assert(acts@ =~= seq![
                            Action::ForwardAudio { data: data_view, timestamp: timestamp as i32 },
                        ]);
                    }
                    Ok(acts)
                },
                InboundMessage::Video { data, timestamp } => {
                    if timestamp > 0x7fffffff {
                        self.state = ConnState::Closed;
                        return Err(MixerError { kind: ErrorKind::Overflow });
                    }
                    let mut acts: Vec<Action> = Vec::new();
                    let ghost data_view = data;
                    acts.push(Action::ForwardVideo { data, timestamp: timestamp as i32 });
                    proof {
                        assert(acts@ =~= seq![
                            Action::ForwardVideo { data: data_view, timestamp: timestamp as i32 },
                        ]);
                    }
                    Ok(acts)
                },
                _ => Ok(no_actions()),
            },
            ConnState::Closed => Ok(no_actions()),
        }
    }

    /// Answers one AMF0 command inside the message loop.
    fn on_command(&mut self, name: String, transaction_id: u32) -> (r: Result<
        Vec<Action>,
        MixerError,
    >)
        requires
            old(self).state == ConnState::Ready || old(self).state == ConnState::Publishing,
            old(self).next_stream_id < u32::MAX,
        ensures
            final(self).connect_transaction_id == old(self).connect_transaction_id,
            final(self).next_stream_id == (if name@ == "createStream"@ {
                (old(self).next_stream_id + 1) as u32
            } else {
                old(self).next_stream_id
            }),
            final(self).state == (if name@ == "publish"@ {
                ConnState::Publishing
            } else {
                old(self).state
            }),
            r matches Ok(v) && v@ == spec_command_response(
                name@,
                transaction_id,
                final(self).next_stream_id,
            ),
    {
        proof {
            // The five command names have pairwise distinct lengths, so one
            // equality rules the others out.
            reveal_strlit("FCPublish");
            reveal_strlit("publish");
            reveal_strlit("createStream");
            reveal_strlit("releaseStream");
            reveal_strlit("_checkbw");
            assert("FCPublish"@.len() == 9 && "publish"@.len() == 7 && "createStream"@.len() == 12
                && "releaseStream"@.len() == 13 && "_checkbw"@.len() == 8);
        }
        let s_fcpublish = String::from_str("FCPublish");
        let s_publish = String::from_str("publish");
        let s_create = String::from_str("createStream");
        let s_release = String::from_str("releaseStream");
        let s_checkbw = String::from_str("_checkbw");
        let mut acts: Vec<Action> = Vec::new();
        if name == s_fcpublish {
            acts.push(Action::SendFcPublishResponse);
            proof {
                assert(acts@ =~= seq![Action::SendFcPublishResponse]);
            }
        } else if name == s_publish {
            self.state = ConnState::Publishing;
            acts.push(Action::SendPublishStart);
            proof {
                assert(acts@ =~= seq![Action::SendPublishStart]);
            }
        } else if name == s_create {
            self.next_stream_id = self.next_stream_id + 1;
            acts.push(Action::SendCreateStreamResult {
                transaction_id,
                stream_id: self.next_stream_id,
            });
            proof {
                assert(acts@ =~= seq![
                    Action::SendCreateStreamResult {
                        transaction_id,
                        stream_id: final(self).next_stream_id,
                    },
                ]);
            }
        } else if name == s_release || name == s_checkbw {
            acts.push(Action::SendEmptyResult { transaction_id });
            proof {
                assert(acts@ =~= seq![Action::SendEmptyResult { transaction_id }]);
            }
        }
        Ok(acts)
    }
}

/// Whether the dispatcher admits one more publisher: with `active`
/// connections already running against a cap, an accept either passes or is
/// refused with `CapExceeded`.
pub fn admit_connection(active: usize, cap: usize) -> (r: Result<(), MixerError>)
    ensures
        active < cap <==> r is Ok,
        active >= cap ==> r == Err::<(), MixerError>(MixerError { kind: ErrorKind::CapExceeded }),
{
    if active < cap {
        Ok(())
    } else {
        Err(MixerError { kind: ErrorKind::CapExceeded })
    }
}

/// The progress of the server-side handshake after feeding it peer bytes.
pub enum HandshakeProgress {
    /// Still in flight; write these bytes to the peer and keep reading.
    InProgress { response_bytes: Vec<u8> },
    /// Done; write these bytes to the peer, then parse the leftover bytes
    /// as the start of the chunk stream.
    Completed { response_bytes: Vec<u8>, remaining_bytes: Vec<u8> },
}

#[verifier::external_type_specification]
#[verifier::external_body]
pub struct ExHandshake(rml_rtmp::handshake::Handshake);

/// Relies on rml_rtmp::handshake::Handshake::new with the server role: a
/// fresh handshake processor that has sent nothing yet.
#[verifier::external_body]
fn new_server_handshake() -> rml_rtmp::handshake::Handshake {
    rml_rtmp::handshake::Handshake::new(rml_rtmp::handshake::PeerType::Server)
}

/// Relies on Handshake::generate_outbound_p0_and_p1: packet 0 (the command
/// byte 3) followed by the 1536-byte packet 1, whose content past the
/// version field is random.
#[verifier::external_body]
fn generate_p0_and_p1(hs: &mut rml_rtmp::handshake::Handshake) -> (r: Result<Vec<u8>, MixerError>)
    ensures
        r matches Ok(v) ==> v@.len() == 1537 && v@[0] == 3,
{
    match hs.generate_outbound_p0_and_p1() {
        Ok(v) => Ok(v),
        Err(_) => Err(MixerError { kind: ErrorKind::ProtocolViolation }),
    }
}

/// Relies on Handshake::process_bytes: buffers peer bytes, answers with
/// response bytes while handshake packets remain outstanding, and on
/// completion hands back whatever the peer sent past the handshake; a
/// rejection by the processor fails the connection.
#[verifier::external_body]
fn process_handshake_bytes(
    hs: &mut rml_rtmp::handshake::Handshake,
    data: &Vec<u8>,
) -> Result<HandshakeProgress, MixerError> {
    match hs.process_bytes(data.as_slice()) {
        Ok(rml_rtmp::handshake::HandshakeProcessResult::InProgress { response_bytes }) => Ok(
            HandshakeProgress::InProgress { response_bytes },
        ),
        Ok(rml_rtmp::handshake::HandshakeProcessResult::Completed {
            response_bytes,
            remaining_bytes,
        }) => Ok(HandshakeProgress::Completed { response_bytes, remaining_bytes }),
        Err(_) => Err(MixerError { kind: ErrorKind::ProtocolViolation }),
    }
}

/// The server half of the RTMP handshake as this connection drives it:
/// `begin` yields the server's packets 0 and 1, then each chunk of peer
/// bytes goes through `consume`, writing whatever it answers, until it
/// reports completion; reaching end-of-stream first fails the connection.
pub struct ServerHandshake {
    processor: rml_rtmp::handshake::Handshake,
}

impl ServerHandshake {
    /// Starts the server handshake; the returned bytes are the server's
    /// packets 0 and 1 and are written to the peer before anything else.
    pub fn begin() -> (r: Result<(ServerHandshake, Vec<u8>), MixerError>)
        ensures
            r matches Ok(p) ==> p.1@.len() == 1537 && p.1@[0] == 3,
    {
        let mut processor = new_server_handshake();
        match generate_p0_and_p1(&mut processor) {
            Ok(v) => Ok((ServerHandshake { processor }, v)),
            Err(e) => Err(e),
        }
    }

    /// Feeds one chunk of peer bytes to the handshake processor.  What
    /// comes back depends on the random handshake packets, so nothing more
    /// is promised of it; the dialog that follows completion is verified
    /// against [`Connection`] whatever bytes the handshake produced.
    pub fn consume(&mut self, data: &Vec<u8>) -> Result<HandshakeProgress, MixerError> {
        process_handshake_bytes(&mut self.processor, data)
    }
}

} // verus!

