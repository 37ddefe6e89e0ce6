//! Static information about a speaker device.

use vstd::prelude::*;
use crate::ids::SpeakerId;
use crate::net::IpAddr;
use crate::text::{chars_of, decimal_digits, string_of, u64_to_chars};
use crate::viewed::{seq_view, vec_view_clone, vec_view_eq, ViewEq};

verus! {

/// Information about a Sonos speaker device.
#[derive(Debug)]
pub struct Speaker {
    /// Unique speaker identifier
    pub id: SpeakerId,
    /// Friendly name of the speaker
    pub name: String,
    /// Room name where the speaker is located
    pub room_name: String,
    /// IP address of the speaker
    pub ip_address: IpAddr,
    /// Port number (typically 1400)
    pub port: u16,
    /// Model name (e.g., "Sonos One")
    pub model_name: String,
    /// Software/firmware version
    pub software_version: String,
    /// Boot sequence number reported by the topology
    pub boot_seq: u32,
    /// Satellite speaker IDs (for home theater setups)
    pub satellites: Vec<SpeakerId>,
}

/// Static speaker information, as the property system calls it.
pub type SpeakerInfo = Speaker;

/// The abstract content of a [`Speaker`].
pub struct SpeakerView {
    pub id: Seq<char>,
    pub name: Seq<char>,
    pub room_name: Seq<char>,
    pub ip_address: IpAddr,
    pub port: u16,
    pub model_name: Seq<char>,
    pub software_version: Seq<char>,
    pub boot_seq: u32,
    pub satellites: Seq<Seq<char>>,
}

impl View for Speaker {
    type V = SpeakerView;

    open spec fn view(&self) -> SpeakerView {
        SpeakerView {
            id: self.id@,
            name: self.name@,
            room_name: self.room_name@,
            ip_address: self.ip_address,
            port: self.port,
            model_name: self.model_name@,
            software_version: self.software_version@,
            boot_seq: self.boot_seq,
            satellites: seq_view(self.satellites@),
        }
    }
}

impl ViewEq for Speaker {
    fn view_eq(&self, other: &Self) -> (r: bool) {
        self.id.view_eq(&other.id) && self.name == other.name && self.room_name == other.room_name
            && self.ip_address == other.ip_address && self.port == other.port && self.model_name
            == other.model_name && self.software_version == other.software_version
            && self.boot_seq == other.boot_seq && vec_view_eq(&self.satellites, &other.satellites)
    }

    fn view_clone(&self) -> (r: Self) {
        Speaker {
            id: self.id.view_clone(),
            name: self.name.clone(),
            room_name: self.room_name.clone(),
            ip_address: self.ip_address,
            port: self.port,
            model_name: self.model_name.clone(),
            software_version: self.software_version.clone(),
            boot_seq: self.boot_seq,
            satellites: vec_view_clone(&self.satellites),
        }
    }
}

impl Clone for Speaker {
    fn clone(&self) -> (r: Self)
        ensures
            r@ == self@,
    {
        self.view_clone()
    }
}

impl Speaker {
    /// The speaker ID.
    pub fn get_id(&self) -> (r: &SpeakerId)
        ensures
            r@ == self.id@,
    {
        &self.id
    }

    /// The "ip:port" text of this speaker's address.
    pub open spec fn address_spec(self) -> Seq<char> {
        self.ip_address.text() + seq![':'] + decimal_digits(self.port as nat)
    }

    /// The full address (ip:port) of this speaker.
    pub fn address(&self) -> (r: String)
        ensures
            r@ == self.address_spec(),
    {
        let ip = self.ip_address.to_text();
        let mut out = chars_of(ip.as_str());
        out.push(':');
        let port = u64_to_chars(self.port as u64);
        let ghost head = out@;
        let mut i: usize = 0;
        while i < port.len()
            invariant
                i <= port.len(),
                out@ == head + port@.take(i as int),
            decreases port.len() - i,
        {
            out.push(port[i]);
            i = i + 1;
            assert(out@ =~= head + port@.take(i as int));
        }
        assert(port@.take(port@.len() as int) =~= port@);
        string_of(&out)
    }
}

} // verus!
