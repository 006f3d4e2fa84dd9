//! The transport session and the topic-keyed command channel built on it:
//! one connection to the publish/subscribe broker, a set of named outbound
//! publishers and inbound subscribers unique per direction, bounded-queue
//! draining, and the diagnostic text that every send and receive is logged
//! with.
//!
//! The network itself is the application layer's: a successful `publish`
//! yields the outbound message to hand to the broker, and arriving samples
//! are delivered into a subscriber handle's own bounded queue.

use vstd::prelude::*;
use crate::queue::{queue_bound, queue_contents, SampleQueue};
use crate::text::{decimal_string, lossy_text, lossy_utf8, spec_decimal_chars};

verus! {

/// The connection mode of a session; this console always connects as a
/// client.
#[derive(Clone, Copy, PartialEq, Eq, Structural, Debug)]
pub enum ConnectionMode {
    Client,
}

/// The broker connection parameters.
#[derive(Debug)]
pub struct SessionConfig {
    pub mode: ConnectionMode,
    /// Broker endpoint addresses, such as `tcp/zenoh:7447`; at least one.
    pub endpoints: Vec<String>,
    /// Connect timeout in milliseconds; -1 means wait forever.
    pub connect_timeout_ms: i64,
    /// Whether the owning process should exit when the broker cannot be
    /// reached.
    pub exit_on_failure: bool,
}

impl SessionConfig {
    /// A configuration is valid when it names at least one non-empty
    /// endpoint and its timeout is a duration or -1 for infinite.
    pub open spec fn valid(self) -> bool {
        &&& self.endpoints@.len() > 0
        &&& forall|i: int|
            0 <= i < self.endpoints@.len() ==> (#[trigger] self.endpoints@[i])@.len() > 0
        &&& self.connect_timeout_ms >= -1
    }

    /// Whether this configuration is valid.
    pub fn is_valid(&self) -> (r: bool)
        ensures
            r == self.valid(),
    {
        if self.endpoints.len() == 0 {
            return false;
        }
        if self.connect_timeout_ms < -1 {
            return false;
        }
        let mut i: usize = 0;
        while i < self.endpoints.len()
            invariant
                0 <= i <= self.endpoints@.len(),
                forall|j: int| 0 <= j < i ==> (#[trigger] self.endpoints@[j])@.len() > 0,
            decreases self.endpoints@.len() - i,
        {
            if self.endpoints[i].as_str().is_empty() {
                return false;
            }
            i += 1;
        }
        true
    }

    /// The configuration the console uses: one client connection to the
    /// given endpoint, waiting forever, never exiting on failure.
    pub fn client(endpoint: String) -> (r: SessionConfig)
        requires
            endpoint@.len() > 0,
        ensures
            r.valid(),
            r.mode == ConnectionMode::Client,
            r.endpoints@.len() == 1,
            r.endpoints@[0]@ == endpoint@,
            r.connect_timeout_ms == -1,
            !r.exit_on_failure,
    {
        let mut endpoints: Vec<String> = Vec::new();
        endpoints.push(endpoint);
        SessionConfig { mode: ConnectionMode::Client, endpoints, connect_timeout_ms: -1, exit_on_failure: false }
    }
}

/// Why a session could not be opened.
#[derive(Clone, Copy, PartialEq, Eq, Structural, Debug)]
pub enum ConnectError {
    /// The broker did not answer within the configured timeout. Reported by
    /// the application layer when the transport gives up; never produced by
    /// [`CommandChannel::open_session`] itself.
    Unreachable,
    /// The configuration is rejected before any connection is tried.
    ConfigInvalid,
}

/// Why a declaration failed.
#[derive(Clone, Copy, PartialEq, Eq, Structural, Debug)]
pub enum ChannelError {
    /// The session was closed; every handle derived from it is invalid.
    SessionClosed,
    /// The topic already has a publisher (or subscriber): declaring the same
    /// topic twice in one direction is a caller error.
    DuplicateTopic,
}

/// Why a publish failed.
#[derive(Clone, Copy, PartialEq, Eq, Structural, Debug)]
pub enum PublishError {
    /// The session was closed.
    Closed,
    /// The transport could not accept the payload within its send timeout.
    /// Reported by the application layer; never produced by
    /// [`CommandChannel::publish`] itself, which only validates and builds
    /// the outbound message.
    Timeout,
}

/// An outbound publisher for one topic.
#[derive(Debug)]
pub struct PublisherHandle {
    pub topic: String,
}

/// An inbound subscriber for one topic, owning its bounded receive queue.
pub struct SubscriberHandle {
    pub topic: String,
    pub queue: SampleQueue,
}

/// A validated outbound message, ready to be handed to the broker.
#[derive(Debug)]
pub struct OutboundMessage {
    pub topic: String,
    pub payload: Vec<u8>,
}

/// One received payload: the raw bytes and their best-effort UTF-8 decoding,
/// which never fails on invalid bytes.
#[derive(Debug)]
pub struct Received {
    pub bytes: Vec<u8>,
    pub text: String,
}

/// The default bound on undelivered samples per subscriber.
pub const DEFAULT_QUEUE_CAPACITY: usize = 32;

/// Whether some topic of `topics` reads `t`.
pub open spec fn spec_has_topic(topics: Seq<Seq<char>>, t: Seq<char>) -> bool {
    exists|i: int| 0 <= i < topics.len() && topics[i] == t
}

/// Whether some topic of `topics` reads `t`.
fn contains_topic(topics: &Vec<String>, t: &String) -> (r: bool)
    ensures
        r == spec_has_topic(topics.deep_view(), t@),
{
    let mut i: usize = 0;
    while i < topics.len()
        invariant
            0 <= i <= topics@.len(),
            forall|j: int| 0 <= j < i ==> topics.deep_view()[j] != t@,
        decreases topics@.len() - i,
    {
        if topics[i] == *t {
            proof {
                assert(topics.deep_view()[i as int] == t@);
            }
            return true;
        }
        i += 1;
    }
    false
}

/// One command channel over one transport session: the session's lifecycle
/// and the topics declared on it, unique per direction.
pub struct CommandChannel {
    pub session_open: bool,
    pub pub_topics: Vec<String>,
    pub sub_topics: Vec<String>,
}

impl CommandChannel {
    /// Open a session for the given configuration. An invalid configuration
    /// is rejected before any connection is tried; the application layer
    /// reports [`ConnectError::Unreachable`] if the broker itself cannot be
    /// reached.
    pub fn open_session(config: &SessionConfig) -> (r: Result<CommandChannel, ConnectError>)
        ensures
            r is Ok <==> config.valid(),
            r is Err ==> r == Result::<CommandChannel, ConnectError>::Err(
                ConnectError::ConfigInvalid,
            ),
            r is Ok ==> {
                let c = r->Ok_0;
                &&& c.session_open
                &&& c.pub_topics@.len() == 0
                &&& c.sub_topics@.len() == 0
            },
    {
        if config.is_valid() {
            Ok(CommandChannel { session_open: true, pub_topics: Vec::new(), sub_topics: Vec::new() })
        } else {
            Err(ConnectError::ConfigInvalid)
        }
    }

    /// Close the session. Safe to repeat; every handle derived from the
    /// session is invalid afterwards.
    pub fn close(&mut self)
        ensures
            *final(self) == (CommandChannel { session_open: false, ..*old(self) }),
    {
        self.session_open = false;
    }

    /// Declare the outbound publisher for a topic, exactly once per topic
    /// per session.
    pub fn declare_publisher(&mut self, topic: &str) -> (r: Result<PublisherHandle, ChannelError>)
        ensures
            !old(self).session_open ==> r == Result::<PublisherHandle, ChannelError>::Err(
                ChannelError::SessionClosed,
            ) && *final(self) == *old(self),
            old(self).session_open && spec_has_topic(old(self).pub_topics.deep_view(), topic@)
                ==> r == Result::<PublisherHandle, ChannelError>::Err(ChannelError::DuplicateTopic)
                && *final(self) == *old(self),
            old(self).session_open && !spec_has_topic(old(self).pub_topics.deep_view(), topic@)
                ==> match r {
                Ok(h) => {
                    &&& h.topic@ == topic@
                    &&& final(self).session_open == old(self).session_open
                    &&& final(self).pub_topics.deep_view() == old(
                        self,
                    ).pub_topics.deep_view().push(topic@)
                    &&& final(self).sub_topics == old(self).sub_topics
                },
                Err(_) => false,
            },
    {
        if !self.session_open {
            return Err(ChannelError::SessionClosed);
        }
        let key = topic.to_owned();
        if contains_topic(&self.pub_topics, &key) {
            return Err(ChannelError::DuplicateTopic);
        }
        self.pub_topics.push(key);
        let handle = PublisherHandle { topic: topic.to_owned() };
        proof {
            assert(final(self).pub_topics.deep_view() =~= old(self).pub_topics.deep_view().push(
                topic@,
            ));
        }
        Ok(handle)
    }

    /// Declare the inbound subscriber for a topic, exactly once per topic
    /// per session; the handle owns a fresh bounded queue of the given
    /// capacity.
    pub fn declare_subscriber(&mut self, topic: &str, queue_capacity: usize) -> (r: Result<
        SubscriberHandle,
        ChannelError,
    >)
        ensures
            !old(self).session_open ==> r == Result::<SubscriberHandle, ChannelError>::Err(
                ChannelError::SessionClosed,
            ) && *final(self) == *old(self),
            old(self).session_open && spec_has_topic(old(self).sub_topics.deep_view(), topic@)
                ==> r == Result::<SubscriberHandle, ChannelError>::Err(ChannelError::DuplicateTopic)
                && *final(self) == *old(self),
            old(self).session_open && !spec_has_topic(old(self).sub_topics.deep_view(), topic@)
                ==> match r {
                Ok(h) => {
                    &&& h.topic@ == topic@
                    &&& queue_contents(h.queue).len() == 0
                    &&& queue_bound(h.queue) == queue_capacity
                    &&& final(self).session_open == old(self).session_open
                    &&& final(self).sub_topics.deep_view() == old(
                        self,
                    ).sub_topics.deep_view().push(topic@)
                    &&& final(self).pub_topics == old(self).pub_topics
                },
                Err(_) => false,
            },
    {
        if !self.session_open {
            return Err(ChannelError::SessionClosed);
        }
        let key = topic.to_owned();
        if contains_topic(&self.sub_topics, &key) {
            return Err(ChannelError::DuplicateTopic);
        }
        self.sub_topics.push(key);
        let handle = SubscriberHandle { topic: topic.to_owned(), queue: SampleQueue::new(queue_capacity) };
        proof {
            assert(final(self).sub_topics.deep_view() =~= old(self).sub_topics.deep_view().push(
                topic@,
            ));
        }
        Ok(handle)
    }

    /// Validate a publish and build the outbound message for the broker: the
    /// handle's topic and the given payload, unchanged. Fails exactly when
    /// the session is closed; the application layer reports
    /// [`PublishError::Timeout`] if the transport cannot accept the send.
    pub fn publish(&self, handle: &PublisherHandle, payload: Vec<u8>) -> (r: Result<
        OutboundMessage,
        PublishError,
    >)
        ensures
            !self.session_open ==> r == Result::<OutboundMessage, PublishError>::Err(
                PublishError::Closed,
            ),
            self.session_open ==> match r {
                Ok(m) => m.topic@ == handle.topic@ && m.payload == payload,
                Err(_) => false,
            },
    {
        if !self.session_open {
            return Err(PublishError::Closed);
        }
        Ok(OutboundMessage { topic: handle.topic.clone(), payload })
    }

    /// Drain one sample from a subscriber's queue without blocking. A closed
    /// session invalidates every handle derived from it, so the drain fails
    /// then; on an open session it yields nothing when the queue is empty,
    /// else the oldest payload together with its best-effort UTF-8 decoding.
    pub fn try_receive(&self, handle: &mut SubscriberHandle) -> (r: Result<
        Option<Received>,
        ChannelError,
    >)
        ensures
            final(handle).topic == old(handle).topic,
            queue_bound(final(handle).queue) == queue_bound(old(handle).queue),
            !self.session_open ==> r == Result::<Option<Received>, ChannelError>::Err(
                ChannelError::SessionClosed,
            ) && queue_contents(final(handle).queue) == queue_contents(old(handle).queue),
            self.session_open && queue_contents(old(handle).queue).len() == 0 ==> match r {
                Ok(got) => got is None && queue_contents(final(handle).queue) == queue_contents(
                    old(handle).queue,
                ),
                Err(_) => false,
            },
            self.session_open && queue_contents(old(handle).queue).len() > 0 ==> match r {
                Ok(Some(got)) => {
                    &&& got.bytes@ == queue_contents(old(handle).queue).first()
                    &&& got.text@ == lossy_utf8(got.bytes@)
                    &&& queue_contents(final(handle).queue) == queue_contents(
                        old(handle).queue,
                    ).drop_first()
                },
                _ => false,
            },
    {
        if !self.session_open {
            return Err(ChannelError::SessionClosed);
        }
        match handle.queue.try_recv() {
            Some(bytes) => {
                let text = lossy_text(&bytes);
                Ok(Some(Received { bytes, text }))
            },
            None => Ok(None),
        }
    }
}

/// The diagnostic line recorded for one received sample: source topic, byte
/// length, and the payload's best-effort UTF-8 decoding.
pub open spec fn spec_receive_log(topic: Seq<char>, payload: Seq<u8>) -> Seq<char> {
    "<- ['"@ + topic + "'] "@ + spec_decimal_chars(payload.len()) + " bytes: "@ + lossy_utf8(
        payload,
    )
}

/// Render the diagnostic line for one received sample. It never fails, on
/// any payload bytes.
pub fn receive_log_line(topic: &str, payload: &Vec<u8>) -> (r: String)
    ensures
        r@ == spec_receive_log(topic@, payload@),
{
    let mut s = String::from_str("<- ['");
    s.append(topic);
    s.append("'] ");
    let count = decimal_string(payload.len() as u64);
    s.append(count.as_str());
    s.append(" bytes: ");
    let text = lossy_text(payload);
    s.append(text.as_str());
    s
}

/// The diagnostic line recorded for one outbound publish: target topic, byte
/// length, and the payload's best-effort UTF-8 decoding.
pub open spec fn spec_publish_log(topic: Seq<char>, payload: Seq<u8>) -> Seq<char> {
    "-> [PUT] '"@ + topic + "' "@ + spec_decimal_chars(payload.len()) + " bytes: "@ + lossy_utf8(
        payload,
    )
}

/// Render the diagnostic line for one outbound publish. It never fails, on
/// any payload bytes.
pub fn publish_log_line(msg: &OutboundMessage) -> (r: String)
    ensures
        r@ == spec_publish_log(msg.topic@, msg.payload@),
{
    let mut s = String::from_str("-> [PUT] '");
    s.append(msg.topic.as_str());
    s.append("' ");
    let count = decimal_string(msg.payload.len() as u64);
    s.append(count.as_str());
    s.append(" bytes: ");
    let text = lossy_text(&msg.payload);
    s.append(text.as_str());
    s
}

} // verus!
