//! Types of the UPnP event broker, and the decisions its event processor
//! makes for each raw event.

use vstd::prelude::*;
use vstd::string::StringSliceAdditionalSpecFns;
use vstd::utf8::{decode_utf8, encode_utf8_decode_utf8, is_char_boundary};
use crate::net::IpAddr;
use crate::property::Service;
use crate::text::{concat_str, decimal_digits, string_of, u64_to_chars};
use crate::viewed::ViewEq;

verus! {

// ---------------------------------------------------------------------------
// Identifiers and speakers
// ---------------------------------------------------------------------------

/// Unique identifier for a Sonos speaker, as the broker knows it.
#[derive(Debug)]
pub struct SpeakerId(pub String);

impl View for SpeakerId {
    type V = Seq<char>;

    open spec fn view(&self) -> Seq<char> {
        self.0@
    }
}

impl ViewEq for SpeakerId {
    fn view_eq(&self, other: &Self) -> (r: bool) {
        crate::text::str_eq(self.0.as_str(), other.0.as_str())
    }

    fn view_clone(&self) -> (r: Self) {
        SpeakerId(self.0.clone())
    }
}

impl Clone for SpeakerId {
    fn clone(&self) -> (r: Self)
        ensures
            r@ == self@,
    {
        self.view_clone()
    }
}

impl SpeakerId {
    /// A speaker ID holding `id` unchanged.
    pub fn new(id: &str) -> (r: SpeakerId)
        ensures
            r@ == id@,
    {
        SpeakerId(id.to_owned())
    }

    /// The speaker ID as a string slice.
    pub fn as_str(&self) -> (r: &str)
        ensures
            r@ == self@,
    {
        self.0.as_str()
    }
}

/// A Sonos speaker on the network.
#[derive(Debug)]
pub struct Speaker {
    /// Unique identifier for the speaker
    pub id: SpeakerId,
    /// IP address of the speaker
    pub ip: IpAddr,
    /// Human-readable name of the speaker
    pub name: String,
    /// Room name where the speaker is located
    pub room: String,
}

impl Speaker {
    /// A speaker with the given identity, address and names.
    pub fn new(id: SpeakerId, ip: IpAddr, name: String, room: String) -> (r: Speaker)
        ensures
            r.id@ == id@,
            r.ip == ip,
            r.name@ == name@,
            r.room@ == room@,
    {
        Speaker { id, ip, name, room }
    }
}

// ---------------------------------------------------------------------------
// Services and subscriptions
// ---------------------------------------------------------------------------

/// UPnP service types that can be subscribed to.
#[derive(Debug, Clone, Copy, PartialEq, Eq, Structural, Hash)]
pub enum ServiceType {
    /// AVTransport service for playback control
    AVTransport,
    /// RenderingControl service for volume and EQ
    RenderingControl,
    /// ZoneGroupTopology service for speaker grouping
    ZoneGroupTopology,
}

impl ServiceType {
    /// The control-API service this type stands for.
    pub fn to_sonos_api_service(self) -> (r: Service)
        ensures
            self is AVTransport ==> r is AVTransport,
            self is RenderingControl ==> r is RenderingControl,
            self is ZoneGroupTopology ==> r is ZoneGroupTopology,
    {
        match self {
            ServiceType::AVTransport => Service::AVTransport,
            ServiceType::RenderingControl => Service::RenderingControl,
            ServiceType::ZoneGroupTopology => Service::ZoneGroupTopology,
        }
    }

    /// The name of the service type, as it is printed.
    pub open spec fn name_spec(self) -> Seq<char> {
        match self {
            ServiceType::AVTransport => "AVTransport"@,
            ServiceType::RenderingControl => "RenderingControl"@,
            ServiceType::ZoneGroupTopology => "ZoneGroupTopology"@,
        }
    }

    /// The name of the service type, as it is printed.
    pub fn name(self) -> (r: &'static str)
        ensures
            r@ == self.name_spec(),
    {
        match self {
            ServiceType::AVTransport => "AVTransport",
            ServiceType::RenderingControl => "RenderingControl",
            ServiceType::ZoneGroupTopology => "ZoneGroupTopology",
        }
    }
}

/// Classification of subscription scope for a service.
#[derive(Debug, Clone, Copy, PartialEq, Eq, Structural)]
pub enum SubscriptionScope {
    /// Service requires a subscription per speaker
    PerSpeaker,
    /// Service requires only one subscription for the entire network
    NetworkWide,
}

/// Unique key for tracking subscriptions.
#[derive(Debug)]
pub struct SubscriptionKey {
    /// The speaker this subscription is for
    pub speaker_id: SpeakerId,
    /// The service type being subscribed to
    pub service_type: ServiceType,
}

impl SubscriptionKey {
    /// The key of `speaker_id`'s subscription to `service_type`.
    pub fn new(speaker_id: SpeakerId, service_type: ServiceType) -> (r: SubscriptionKey)
        ensures
            r.speaker_id@ == speaker_id@,
            r.service_type == service_type,
    {
        SubscriptionKey { speaker_id, service_type }
    }
}

/// Configuration for the event broker (durations in seconds).
#[derive(Debug, Clone, Copy)]
pub struct BrokerConfig {
    /// Port range for the callback server (start, end)
    pub callback_port_range: (u16, u16),
    /// Timeout for subscription operations, in seconds
    pub subscription_timeout: u64,
    /// Threshold before expiration to trigger renewal, in seconds
    pub renewal_threshold: u64,
    /// Maximum number of retry attempts for failed operations
    pub max_retry_attempts: u32,
    /// Base duration for exponential backoff between retries, in seconds
    pub retry_backoff_base: u64,
    /// Size of the event buffer channel
    pub event_buffer_size: usize,
}

impl Default for BrokerConfig {
    /// Ports 3400-3500, 30 minute subscriptions renewed 5 minutes before
    /// expiry, 3 retries backing off from 2 seconds, a buffer of 100 events.
    fn default() -> (r: BrokerConfig)
        ensures
            r.callback_port_range == (3400u16, 3500u16),
            r.subscription_timeout == 1800,
            r.renewal_threshold == 300,
            r.max_retry_attempts == 3,
            r.retry_backoff_base == 2,
            r.event_buffer_size == 100,
    {
        BrokerConfig {
            callback_port_range: (3400, 3500),
            subscription_timeout: 1800,
            renewal_threshold: 300,
            max_retry_attempts: 3,
            retry_backoff_base: 2,
            event_buffer_size: 100,
        }
    }
}

/// A raw event received from the callback server.
#[derive(Debug)]
pub struct RawEvent {
    /// The subscription ID this event is for
    pub subscription_id: String,
    /// The speaker ID
    pub speaker_id: SpeakerId,
    /// The service type
    pub service_type: ServiceType,
    /// The raw XML event body
    pub event_xml: String,
}

/// Configuration for individual subscriptions.
#[derive(Debug)]
pub struct SubscriptionConfig {
    /// Timeout in seconds for the subscription
    pub timeout_seconds: u32,
    /// Callback URL for receiving events
    pub callback_url: String,
}

impl SubscriptionConfig {
    /// A configuration with the given timeout and callback URL.
    pub fn new(timeout_seconds: u32, callback_url: String) -> (r: SubscriptionConfig)
        ensures
            r.timeout_seconds == timeout_seconds,
            r.callback_url@ == callback_url@,
    {
        SubscriptionConfig { timeout_seconds, callback_url }
    }
}

/// Active subscription state tracked by the broker (times in seconds since
/// the Unix epoch).
#[derive(Debug)]
pub struct ActiveSubscription {
    /// The unique key identifying this subscription
    pub key: SubscriptionKey,
    /// The subscription ID returned by the device
    pub subscription_id: String,
    /// When this subscription was created
    pub created_at: u64,
    /// When the last event was received (None if no events yet)
    pub last_event: Option<u64>,
    /// When this subscription expires
    pub expires_at: u64,
}

impl ActiveSubscription {
    /// A subscription created at `now` that has received no event yet.
    pub fn new(key: SubscriptionKey, subscription_id: String, expires_at: u64, now: u64) -> (r: ActiveSubscription)
        ensures
            r.key.speaker_id@ == key.speaker_id@,
            r.key.service_type == key.service_type,
            r.subscription_id@ == subscription_id@,
            r.created_at == now,
            r.last_event is None,
            r.expires_at == expires_at,
    {
        ActiveSubscription { key, subscription_id, created_at: now, last_event: None, expires_at }
    }

    /// Records that an event arrived at `now`.
    pub fn mark_event_received(&mut self, now: u64)
        ensures
            final(self).last_event == Some(now),
            final(self).created_at == old(self).created_at,
            final(self).expires_at == old(self).expires_at,
    {
        self.last_event = Some(now);
    }

    /// Whether the subscription needs renewal at `now`: it expires within
    /// `threshold` seconds, or has already expired.
    pub fn needs_renewal(&self, threshold: u64, now: u64) -> (r: bool)
        ensures
            r == (self.expires_at <= now || self.expires_at - now <= threshold),
    {
        if self.expires_at >= now {
            self.expires_at - now <= threshold
        } else {
            true
        }
    }

    /// Whether the subscription has expired at `now`.
    pub fn is_expired(&self, now: u64) -> (r: bool)
        ensures
            r == (now >= self.expires_at),
    {
        now >= self.expires_at
    }
}

// ---------------------------------------------------------------------------
// Event processing decisions
// ---------------------------------------------------------------------------

/// The printed form of a list of service types: "[A, B]".
pub open spec fn service_list_text(v: Seq<ServiceType>) -> Seq<char> {
    "["@ + service_items_text(v) + "]"@
}

/// The service type names of `v`, separated by ", ".
pub open spec fn service_items_text(v: Seq<ServiceType>) -> Seq<char>
    decreases v.len(),
{
    if v.len() == 0 {
        Seq::empty()
    } else if v.len() == 1 {
        v[0].name_spec()
    } else {
        service_items_text(v.drop_last()) + ", "@ + v.last().name_spec()
    }
}

/// Appends `b` to `a`.
fn push_str(a: &mut Vec<char>, b: &str)
    ensures
        final(a)@ == old(a)@ + b@,
{
    let v = crate::text::chars_of(b);
    let mut i: usize = 0;
    while i < v.len()
        invariant
            i <= v.len(),
            a@ == old(a)@ + v@.take(i as int),
        decreases v.len() - i,
    {
        a.push(v[i]);
        i = i + 1;
        assert(a@ =~= old(a)@ + v@.take(i as int));
    }
    assert(v@.take(v@.len() as int) =~= v@);
}

/// The error reported when no parsing strategy is registered for a raw
/// event's service type.
pub fn no_strategy_error(service_type: ServiceType, available: &Vec<ServiceType>) -> (r: String)
    ensures
        r@ == "No strategy registered for service type: "@ + service_type.name_spec()
            + ". Available strategies: "@ + service_list_text(available@),
{
    let mut out: Vec<char> = Vec::new();
    push_str(&mut out, "No strategy registered for service type: ");
    push_str(&mut out, service_type.name());
    push_str(&mut out, ". Available strategies: ");
    push_str(&mut out, "[");
    let ghost open = out@;
    let mut i: usize = 0;
    while i < available.len()
        invariant
            i <= available.len(),
            out@ == open + service_items_text(available@.take(i as int)),
        decreases available.len() - i,
    {
        let ghost before = out@;
        proof {
            assert(available@.take(i + 1).drop_last() =~= available@.take(i as int));
            assert(available@.take(i + 1).last() == available@[i as int]);
        }
        if i > 0 {
            push_str(&mut out, ", ");
        }
        push_str(&mut out, available[i].name());
        proof {
            if i == 0 {
                assert(available@.take(1)[0] == available@[0]);
            }
        }
        i = i + 1;
    }
    push_str(&mut out, "]");
    proof {
        assert(available@.take(available@.len() as int) =~= available@);
        assert(out@ =~= "No strategy registered for service type: "@ + service_type.name_spec()
            + ". Available strategies: "@ + service_list_text(available@));
    }
    string_of(&out)
}

/// The shown part of an event body: all of it up to 100 bytes, else its
/// first 100 bytes followed by "...".
pub open spec fn xml_preview_spec(xml: &str) -> Seq<char> {
    if xml.len() > 100 {
        decode_utf8(xml.spec_bytes().subrange(0, 100)) + "..."@
    } else {
        xml@
    }
}

/// The error reported when a strategy fails to parse an event body: its
/// size in bytes, a preview of it, and the strategy's error.
pub fn parse_failure_error(event_xml: &str, error: &str) -> (r: String)
    requires
        event_xml.len() > 100 ==> is_char_boundary(event_xml.spec_bytes(), 100),
    ensures
        r@ == "Parse failed for "@ + decimal_digits(event_xml.len() as nat) + " bytes of XML: "@
            + xml_preview_spec(event_xml) + ". Original error: "@ + error@,
{
    let n = event_xml.len();
    let mut out: Vec<char> = Vec::new();
    push_str(&mut out, "Parse failed for ");
    let digits = u64_to_chars(n as u64);
    let ds = string_of(&digits);
    push_str(&mut out, ds.as_str());
    push_str(&mut out, " bytes of XML: ");
    if n > 100 {
        let (head, _) = event_xml.split_at(100);
        proof {
            encode_utf8_decode_utf8(head@);
            assert(head@ == decode_utf8(event_xml.spec_bytes().subrange(0, 100)));
        }
        push_str(&mut out, head);
        push_str(&mut out, "...");
    } else {
        push_str(&mut out, event_xml);
    }
    push_str(&mut out, ". Original error: ");
    push_str(&mut out, error);
    proof {
        assert(out@ =~= "Parse failed for "@ + decimal_digits(event_xml.len() as nat) + " bytes of XML: "@
            + xml_preview_spec(event_xml) + ". Original error: "@ + error@);
    }
    string_of(&out)
}

/// The key of the subscription a successfully parsed raw event marks as
/// having received an event.
pub fn received_key(raw_event: &RawEvent) -> (r: SubscriptionKey)
    ensures
        r.speaker_id@ == raw_event.speaker_id@,
        r.service_type == raw_event.service_type,
{
    SubscriptionKey::new(raw_event.speaker_id.view_clone(), raw_event.service_type)
}

} // verus!
