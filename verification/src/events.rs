//! Events a state processor consumes: which speaker sent them, when, and the
//! state variables they carry.

use vstd::prelude::*;
use crate::net::IpAddr;
use crate::stamp::clock_now;

verus! {

/// An event that can be processed to update state.
#[derive(Debug)]
pub struct StateEvent {
    /// IP address of the speaker that generated this event
    pub speaker_ip: IpAddr,
    /// When this event occurred (nanoseconds since the Unix epoch)
    pub timestamp: u64,
    /// The event payload
    pub payload: StateEventPayload,
}

/// Event payload variants for state management.
#[derive(Debug)]
pub enum StateEventPayload {
    /// AVTransport state (playback, track, position)
    Transport {
        /// Transport state (PLAYING, PAUSED_PLAYBACK, STOPPED, etc.)
        transport_state: Option<String>,
        /// Current track URI
        current_track_uri: Option<String>,
        /// Track duration (HH:MM:SS format)
        track_duration: Option<String>,
        /// Relative time position (HH:MM:SS format)
        rel_time: Option<String>,
        /// Track metadata (DIDL-Lite XML)
        track_metadata: Option<String>,
    },
    /// RenderingControl state (volume, mute)
    Rendering {
        /// Master volume (0-100)
        master_volume: Option<u8>,
        /// Master mute state
        master_mute: Option<bool>,
    },
    /// ZoneGroupTopology state (groups, speakers)
    Topology {
        /// Current zone groups
        zone_groups: Vec<TopologyZoneGroup>,
    },
}

/// Zone group information from topology events.
#[derive(Debug)]
pub struct TopologyZoneGroup {
    /// Coordinator speaker UUID
    pub coordinator: String,
    /// Group ID
    pub id: String,
    /// Group members
    pub members: Vec<TopologyZoneMember>,
}

/// Zone member information from topology events.
#[derive(Debug)]
pub struct TopologyZoneMember {
    /// Speaker UUID (RINCON_...)
    pub uuid: String,
    /// Speaker location URL
    pub location: String,
    /// Zone/room name
    pub zone_name: String,
    /// Software version
    pub software_version: String,
    /// Satellite speaker UUIDs
    pub satellites: Vec<String>,
}

impl StateEvent {
    /// An event from `speaker_ip`, timestamped now.
    pub fn new(speaker_ip: IpAddr, payload: StateEventPayload) -> (r: StateEvent)
        ensures
            r.speaker_ip == speaker_ip,
            r.payload == payload,
    {
        StateEvent { speaker_ip, timestamp: clock_now(), payload }
    }

    /// An event from `speaker_ip` with a given timestamp.
    pub fn with_timestamp(speaker_ip: IpAddr, timestamp: u64, payload: StateEventPayload) -> (r: StateEvent)
        ensures
            r.speaker_ip == speaker_ip,
            r.timestamp == timestamp,
            r.payload == payload,
    {
        StateEvent { speaker_ip, timestamp, payload }
    }
}

} // verus!
