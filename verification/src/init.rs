//! Initialization from a speaker's zone group state: the event document the
//! state is parsed from, speaker addresses from location URLs, and the
//! speakers and groups the zone groups describe.

use vstd::prelude::*;
use crate::decoder::{SatelliteInfo, ZoneGroupInfo, ZoneGroupMemberInfo};
use crate::error::StateError;
use crate::ids::{normalize_speaker_id, GroupId, SpeakerId};
use crate::model::{Group, GroupView, SpeakerRef, SpeakerRefView};
use crate::net::{parse_ip_addr, parse_ip_spec, IpAddr};
use crate::speaker::{Speaker, SpeakerView};
use crate::text::{chars_of, concat_str, ends_with, has_prefix, has_suffix, slice_chars, starts_with, str_eq, string_of};
use crate::viewed::{opt_str_view, seq_view, ViewEq};
use crate::xml::{escape_spec, escape_xml};

verus! {

// ---------------------------------------------------------------------------
// The zone group state document
// ---------------------------------------------------------------------------

/// The opening tag of a zone group state.
pub open spec fn zgs_open() -> Seq<char> {
    "<ZoneGroupState>"@
}

/// The closing tag of a zone group state.
pub open spec fn zgs_close() -> Seq<char> {
    "</ZoneGroupState>"@
}

/// The content of a zone group state: what lies between its tags when it is
/// wrapped in them, else all of it.
pub open spec fn zone_group_state_inner(s: Seq<char>) -> Seq<char> {
    if has_prefix(s, zgs_open()) && has_suffix(s, zgs_close()) {
        s.subrange(16, s.len() - 17)
    } else {
        s
    }
}

/// The start of the event document a zone group state is wrapped in.
pub open spec fn event_head() -> Seq<char> {
    "<e:propertyset xmlns:e=\"urn:schemas-upnp-org:event-1-0\">\n            <e:property><ZoneGroupState>"@
}

/// The end of the event document a zone group state is wrapped in.
pub open spec fn event_tail() -> Seq<char> {
    "</ZoneGroupState></e:property>\n        </e:propertyset>"@
}

/// A text wrapped in both zone group state tags is at least as long as the
/// two tags together: the tags cannot overlap.
proof fn lemma_wrapped_len(s: Seq<char>)
    requires
        has_prefix(s, zgs_open()),
        has_suffix(s, zgs_close()),
    ensures
        s.len() >= 33,
{
    reveal_strlit("<ZoneGroupState>");
    reveal_strlit("</ZoneGroupState>");
    if s.len() < 33 {
        let j = s.len() - 17;
        assert(s.skip(j)[0] == '<');
        assert(s.skip(j)[1] == '/');
        assert(s[j] == '<');
        assert(s[j + 1] == '/');
        assert(s.take(16)[j] == s[j]);
        if j + 1 < 16 {
            assert(s.take(16)[j + 1] == s[j + 1]);
        }
    }
}

/// The event document a zone group state is parsed from: the state's
/// content, XML-escaped, as the `ZoneGroupState` property of a property set.
pub fn zone_group_state_event_xml(zone_group_state: &str) -> (r: String)
    ensures
        r@ == event_head() + escape_spec(zone_group_state_inner(zone_group_state@)) + event_tail(),
{
    let s = chars_of(zone_group_state);
    let open = chars_of("<ZoneGroupState>");
    let close = chars_of("</ZoneGroupState>");
    proof {
        reveal_strlit("<ZoneGroupState>");
        reveal_strlit("</ZoneGroupState>");
    }
    let inner = if starts_with(&s, &open) && ends_with(&s, &close) {
        proof {
            lemma_wrapped_len(s@);
        }
        let v = slice_chars(&s, 16, s.len() - 17);
        string_of(&v)
    } else {
        string_of(&s)
    };
    let escaped = escape_xml(inner.as_str());
    let head = concat_str(
        "<e:propertyset xmlns:e=\"urn:schemas-upnp-org:event-1-0\">\n            <e:property><ZoneGroupState>",
        escaped.as_str(),
    );
    concat_str(head.as_str(), "</ZoneGroupState></e:property>\n        </e:propertyset>")
}

// ---------------------------------------------------------------------------
// Addresses from location URLs
// ---------------------------------------------------------------------------

/// What parsing a URL yields: its host (if it has one), or the parse error's
/// message.
pub uninterp spec fn url_parse_outcome(location: Seq<char>) -> Result<Option<Seq<char>>, Seq<char>>;

/// The view of a URL parse outcome.
pub open spec fn outcome_view(o: Result<Option<String>, String>) -> Result<Option<Seq<char>>, Seq<char>> {
    match o {
        Ok(h) => Ok(opt_str_view(h)),
        Err(e) => Err(e@),
    }
}

/// Parses a URL and takes its host.
///
/// Calls `url::Url::parse`, then `Url::host_str` on success or the error's
/// `Display` on failure. The outcome is named, not stated: it is a function
/// of the text alone, and the URL standard takes pages to write down.
#[verifier::external_body]
fn parse_url_host(location: &str) -> (r: Result<Option<String>, String>)
    ensures
        outcome_view(r) == url_parse_outcome(location@),
{
    match url::Url::parse(location) {
        Ok(u) => Ok(u.host_str().map(|h| h.to_string())),
        Err(e) => Err(e.to_string()),
    }
}

/// The message of an address that does not parse as an IP address.
pub open spec fn addr_parse_error_text() -> Seq<char> {
    "invalid IP address syntax"@
}

/// The address a location's URL parse outcome leads to, or the message of
/// the error it is reported with.
pub open spec fn location_ip_spec(location: Seq<char>, outcome: Result<Option<Seq<char>>, Seq<char>>) -> Result<IpAddr, Seq<char>> {
    match outcome {
        Err(e) => Err("Invalid location URL '"@ + location + "': "@ + e),
        Ok(None) => Err("No host in location URL: "@ + location),
        Ok(Some(host)) => match parse_ip_spec(host) {
            Some(ip) => Ok(ip),
            None => Err("Invalid IP in location '"@ + host + "': "@ + addr_parse_error_text()),
        },
    }
}

/// The view of an address lookup result.
pub open spec fn ip_result_view(r: Result<IpAddr, StateError>) -> Result<IpAddr, Seq<char>> {
    match r {
        Ok(ip) => Ok(ip),
        Err(StateError::Parse(m)) => Err(m@),
        Err(_) => Err(Seq::empty()),
    }
}

/// The address a location leads to, given what parsing its URL yielded.
pub fn ip_from_url_outcome(location: &str, outcome: Result<Option<String>, String>) -> (r: Result<IpAddr, StateError>)
    ensures
        r matches Err(e) ==> e is Parse,
        ip_result_view(r) == location_ip_spec(location@, outcome_view(outcome)),
{
    match outcome {
        Err(e) => {
            let a = concat_str("Invalid location URL '", location);
            let b = concat_str(a.as_str(), "': ");
            Err(StateError::Parse(concat_str(b.as_str(), e.as_str())))
        },
        Ok(None) => Err(StateError::Parse(concat_str("No host in location URL: ", location))),
        Ok(Some(host)) => match parse_ip_addr(host.as_str()) {
            Some(ip) => Ok(ip),
            None => {
                let a = concat_str("Invalid IP in location '", host.as_str());
                let b = concat_str(a.as_str(), "': ");
                Err(StateError::Parse(concat_str(b.as_str(), "invalid IP address syntax")))
            },
        },
    }
}

/// The IP address in a location URL such as
/// "http://192.168.1.100:1400/xml/device_description.xml".
pub fn extract_ip_from_location(location: &str) -> (r: Result<IpAddr, StateError>)
    ensures
        r matches Err(e) ==> e is Parse,
        ip_result_view(r) == location_ip_spec(location@, url_parse_outcome(location@)),
{
    let outcome = parse_url_host(location);
    ip_from_url_outcome(location, outcome)
}

// ---------------------------------------------------------------------------
// Speakers and groups from zone groups
// ---------------------------------------------------------------------------

/// The value of the first metadata entry named `key`, if any.
pub open spec fn metadata_value(md: Seq<(String, String)>, key: Seq<char>) -> Option<Seq<char>>
    decreases md.len(),
{
    if md.len() == 0 {
        None
    } else if md[0].0@ == key {
        Some(md[0].1@)
    } else {
        metadata_value(md.drop_first(), key)
    }
}

/// The speaker a zone group member at `ip` is.
pub open spec fn member_speaker_spec(m: ZoneGroupMemberInfo, ip: IpAddr) -> SpeakerView {
    SpeakerView {
        id: normalize_speaker_id(m.uuid@),
        name: m.zone_name@,
        room_name: m.zone_name@,
        ip_address: ip,
        port: 1400,
        model_name: match metadata_value(m.metadata@, "ModelName"@) {
            Some(v) => v,
            None => Seq::empty(),
        },
        software_version: m.software_version@,
        boot_seq: 0,
        satellites: m.satellites@.map_values(|sat: SatelliteInfo| normalize_speaker_id(sat.uuid@)),
    }
}

/// The speaker a satellite at `ip` is.
pub open spec fn satellite_speaker_spec(sat: SatelliteInfo, ip: IpAddr) -> SpeakerView {
    SpeakerView {
        id: normalize_speaker_id(sat.uuid@),
        name: sat.zone_name@,
        room_name: sat.zone_name@,
        ip_address: ip,
        port: 1400,
        model_name: Seq::empty(),
        software_version: Seq::empty(),
        boot_seq: 0,
        satellites: Seq::empty(),
    }
}

/// The address of a location, or the message of its error.
pub open spec fn location_spec(location: Seq<char>) -> Result<IpAddr, Seq<char>> {
    location_ip_spec(location, url_parse_outcome(location))
}

/// The speakers the satellites `ss` are, in order, or the first error.
pub open spec fn satellites_speakers_spec(ss: Seq<SatelliteInfo>) -> Result<Seq<SpeakerView>, Seq<char>>
    decreases ss.len(),
{
    if ss.len() == 0 {
        Ok(Seq::empty())
    } else {
        match satellites_speakers_spec(ss.drop_last()) {
            Err(e) => Err(e),
            Ok(prev) => match location_spec(ss.last().location@) {
                Err(e) => Err(e),
                Ok(ip) => Ok(prev.push(satellite_speaker_spec(ss.last(), ip))),
            },
        }
    }
}

/// The speakers of one member: itself, then its satellites; or the first
/// error.
pub open spec fn member_speakers_spec(m: ZoneGroupMemberInfo) -> Result<Seq<SpeakerView>, Seq<char>> {
    match location_spec(m.location@) {
        Err(e) => Err(e),
        Ok(ip) => match satellites_speakers_spec(m.satellites@) {
            Err(e) => Err(e),
            Ok(ss) => Ok(seq![member_speaker_spec(m, ip)] + ss),
        },
    }
}

/// The speakers of members `ms`, member by member, or the first error.
pub open spec fn members_speakers_spec(ms: Seq<ZoneGroupMemberInfo>) -> Result<Seq<SpeakerView>, Seq<char>>
    decreases ms.len(),
{
    if ms.len() == 0 {
        Ok(Seq::empty())
    } else {
        match members_speakers_spec(ms.drop_last()) {
            Err(e) => Err(e),
            Ok(prev) => match member_speakers_spec(ms.last()) {
                Err(e) => Err(e),
                Ok(more) => Ok(prev + more),
            },
        }
    }
}

/// The speakers of zone groups `zgs`, group by group, or the first error.
pub open spec fn zone_groups_speakers_spec(zgs: Seq<ZoneGroupInfo>) -> Result<Seq<SpeakerView>, Seq<char>>
    decreases zgs.len(),
{
    if zgs.len() == 0 {
        Ok(Seq::empty())
    } else {
        match zone_groups_speakers_spec(zgs.drop_last()) {
            Err(e) => Err(e),
            Ok(prev) => match members_speakers_spec(zgs.last().members@) {
                Err(e) => Err(e),
                Ok(more) => Ok(prev + more),
            },
        }
    }
}

/// The group a zone group is.
pub open spec fn zone_group_view(zg: ZoneGroupInfo) -> GroupView {
    GroupView {
        id: zg.id@,
        coordinator_id: normalize_speaker_id(zg.coordinator@),
        members: zg.members@.map_values(
            |m: ZoneGroupMemberInfo|
                SpeakerRefView {
                    id: normalize_speaker_id(m.uuid@),
                    satellite_ids: m.satellites@.map_values(|sat: SatelliteInfo| normalize_speaker_id(sat.uuid@)),
                },
        ),
    }
}

/// The message of a parse error.
pub open spec fn parse_message(e: StateError) -> Seq<char> {
    match e {
        StateError::Parse(m) => m@,
        _ => Seq::empty(),
    }
}

/// The value of the first metadata entry named `key`, or an empty string.
fn metadata_lookup(md: &Vec<(String, String)>, key: &str) -> (r: String)
    ensures
        r@ == (match metadata_value(md@, key@) {
            Some(v) => v,
            None => Seq::empty(),
        }),
{
    let mut i: usize = 0;
    assert(md@.skip(0) =~= md@);
    while i < md.len()
        invariant
            i <= md.len(),
            metadata_value(md@, key@) == metadata_value(md@.skip(i as int), key@),
        decreases md.len() - i,
    {
        proof {
            assert(md@.skip(i as int)[0] == md@[i as int]);
            assert(md@.skip(i as int).drop_first() =~= md@.skip(i + 1));
        }
        if str_eq(md[i].0.as_str(), key) {
            return md[i].1.clone();
        }
        i = i + 1;
    }
    proof {
        assert(md@.skip(i as int).len() == 0);
    }
    String::new()
}

/// The speakers of one satellite list, or the first location error.
fn satellites_speakers(ss: &Vec<SatelliteInfo>) -> (r: Result<Vec<Speaker>, StateError>)
    ensures
        match satellites_speakers_spec(ss@) {
            Ok(v) => r matches Ok(x) && seq_view(x@) == v,
            Err(e) => r matches Err(x) && x is Parse && parse_message(x) == e,
        },
{
    let mut out: Vec<Speaker> = Vec::new();
    let mut i: usize = 0;
    proof {
        assert(ss@.take(0) =~= Seq::<SatelliteInfo>::empty());
        assert(seq_view(out@) =~= Seq::<SpeakerView>::empty());
    }
    while i < ss.len()
        invariant
            i <= ss.len(),
            satellites_speakers_spec(ss@.take(i as int)) == Ok::<Seq<SpeakerView>, Seq<char>>(seq_view(out@)),
        decreases ss.len() - i,
    {
        let sat = &ss[i];
        proof {
            assert(ss@.take(i + 1).drop_last() =~= ss@.take(i as int));
            assert(ss@.take(i + 1).last() == *sat);
        }
        let ghost before = seq_view(out@);
        match extract_ip_from_location(sat.location.as_str()) {
            Err(e) => {
                proof {
                    assert(satellites_speakers_spec(ss@.take(i + 1)) is Err);
                    lemma_satellites_error_stays(ss@, i + 1);
                    assert(ss@.take(ss@.len() as int) =~= ss@);
                }
                return Err(e);
            },
            Ok(ip) => {
                out.push(Speaker {
                    id: SpeakerId::new(sat.uuid.as_str()),
                    name: sat.zone_name.clone(),
                    room_name: sat.zone_name.clone(),
                    ip_address: ip,
                    port: 1400,
                    model_name: String::new(),
                    software_version: String::new(),
                    boot_seq: 0,
                    satellites: Vec::new(),
                });
                proof {
                    assert(out@[out@.len() - 1]@.satellites =~= Seq::<Seq<char>>::empty());
                    assert(seq_view(out@) =~= before.push(satellite_speaker_spec(*sat, ip)));
                }
            },
        }
        i = i + 1;
    }
    proof {
        assert(ss@.take(ss@.len() as int) =~= ss@);
    }
    Ok(out)
}

/// Once a satellite list's prefix fails, every longer prefix fails the same way.
proof fn lemma_satellites_error_stays(ss: Seq<SatelliteInfo>, n: int)
    requires
        0 <= n <= ss.len(),
        satellites_speakers_spec(ss.take(n)) is Err,
    ensures
        satellites_speakers_spec(ss.take(ss.len() as int)) == satellites_speakers_spec(ss.take(n)),
    decreases ss.len() - n,
{
    if n < ss.len() {
        assert(ss.take(n + 1).drop_last() =~= ss.take(n));
        lemma_satellites_error_stays(ss, n + 1);
    }
}

/// Once a member list's prefix fails, every longer prefix fails the same way.
proof fn lemma_members_error_stays(ms: Seq<ZoneGroupMemberInfo>, n: int)
    requires
        0 <= n <= ms.len(),
        members_speakers_spec(ms.take(n)) is Err,
    ensures
        members_speakers_spec(ms.take(ms.len() as int)) == members_speakers_spec(ms.take(n)),
    decreases ms.len() - n,
{
    if n < ms.len() {
        assert(ms.take(n + 1).drop_last() =~= ms.take(n));
        lemma_members_error_stays(ms, n + 1);
    }
}

/// Once a zone group list's prefix fails, every longer prefix fails the
/// same way.
proof fn lemma_groups_error_stays(zgs: Seq<ZoneGroupInfo>, n: int)
    requires
        0 <= n <= zgs.len(),
        zone_groups_speakers_spec(zgs.take(n)) is Err,
    ensures
        zone_groups_speakers_spec(zgs.take(zgs.len() as int)) == zone_groups_speakers_spec(zgs.take(n)),
    decreases zgs.len() - n,
{
    if n < zgs.len() {
        assert(zgs.take(n + 1).drop_last() =~= zgs.take(n));
        lemma_groups_error_stays(zgs, n + 1);
    }
}

/// The speakers of one member, or the first location error.
fn member_speakers(m: &ZoneGroupMemberInfo) -> (r: Result<Vec<Speaker>, StateError>)
    ensures
        match member_speakers_spec(*m) {
            Ok(v) => r matches Ok(x) && seq_view(x@) == v,
            Err(e) => r matches Err(x) && x is Parse && parse_message(x) == e,
        },
{
    let ip = match extract_ip_from_location(m.location.as_str()) {
        Err(e) => {
            return Err(e);
        },
        Ok(ip) => ip,
    };
    let mut sat_ids: Vec<SpeakerId> = Vec::new();
    let mut k: usize = 0;
    while k < m.satellites.len()
        invariant
            k <= m.satellites.len(),
            sat_ids@.len() == k,
            forall|a: int| 0 <= a < k ==> #[trigger] sat_ids@[a]@ == normalize_speaker_id(m.satellites@[a].uuid@),
        decreases m.satellites.len() - k,
    {
        sat_ids.push(SpeakerId::new(m.satellites[k].uuid.as_str()));
        k = k + 1;
    }
    let speaker = Speaker {
        id: SpeakerId::new(m.uuid.as_str()),
        name: m.zone_name.clone(),
        room_name: m.zone_name.clone(),
        ip_address: ip,
        port: 1400,
        model_name: metadata_lookup(&m.metadata, "ModelName"),
        software_version: m.software_version.clone(),
        boot_seq: 0,
        satellites: sat_ids,
    };
    proof {
        assert(speaker@.satellites =~= m.satellites@.map_values(|sat: SatelliteInfo| normalize_speaker_id(sat.uuid@)));
        assert(speaker@ == member_speaker_spec(*m, ip));
    }
    match satellites_speakers(&m.satellites) {
        Err(e) => Err(e),
        Ok(sats) => {
            let mut out: Vec<Speaker> = Vec::new();
            out.push(speaker);
            let mut j: usize = 0;
            let ghost head = seq_view(out@);
            while j < sats.len()
                invariant
                    j <= sats.len(),
                    seq_view(out@) == head + seq_view(sats@).take(j as int),
                decreases sats.len() - j,
            {
                let ghost ob = seq_view(out@);
                out.push(sats[j].view_clone());
                proof {
                    assert(seq_view(out@) =~= ob.push(sats@[j as int]@));
                    assert(seq_view(sats@).take(j + 1) =~= seq_view(sats@).take(j as int).push(sats@[j as int]@));
                    assert(seq_view(out@) =~= head + seq_view(sats@).take(j + 1));
                }
                j = j + 1;
            }
            proof {
                assert(seq_view(sats@).take(sats@.len() as int) =~= seq_view(sats@));
            }
            Ok(out)
        },
    }
}

/// The speaker reference a member is.
fn member_ref(m: &ZoneGroupMemberInfo) -> (r: SpeakerRef)
    ensures
        r@ == (SpeakerRefView {
            id: normalize_speaker_id(m.uuid@),
            satellite_ids: m.satellites@.map_values(|sat: SatelliteInfo| normalize_speaker_id(sat.uuid@)),
        }),
{
    let mut sat_ids: Vec<SpeakerId> = Vec::new();
    let mut k: usize = 0;
    while k < m.satellites.len()
        invariant
            k <= m.satellites.len(),
            sat_ids@.len() == k,
            forall|a: int| 0 <= a < k ==> #[trigger] sat_ids@[a]@ == normalize_speaker_id(m.satellites@[a].uuid@),
        decreases m.satellites.len() - k,
    {
        sat_ids.push(SpeakerId::new(m.satellites[k].uuid.as_str()));
        k = k + 1;
    }
    let r = SpeakerRef::new(SpeakerId::new(m.uuid.as_str()), sat_ids);
    assert(r@.satellite_ids =~= m.satellites@.map_values(|sat: SatelliteInfo| normalize_speaker_id(sat.uuid@)));
    r
}

/// The speakers (members, each followed by its satellites) and groups the
/// zone groups describe; the first location whose address cannot be read
/// fails the whole with a parse error.
pub fn topology_from_zone_groups(zone_groups: &Vec<ZoneGroupInfo>) -> (r: Result<(Vec<Speaker>, Vec<Group>), StateError>)
    ensures
        match zone_groups_speakers_spec(zone_groups@) {
            Ok(v) => r matches Ok(x) && seq_view(x.0@) == v
                && x.1@.map_values(|g: Group| g@) == zone_groups@.map_values(|zg: ZoneGroupInfo| zone_group_view(zg)),
            Err(e) => r matches Err(x) && x is Parse && parse_message(x) == e,
        },
{
    let mut speakers: Vec<Speaker> = Vec::new();
    let mut groups: Vec<Group> = Vec::new();
    let mut g: usize = 0;
    proof {
        assert(zone_groups@.take(0) =~= Seq::<ZoneGroupInfo>::empty());
        assert(seq_view(speakers@) =~= Seq::<SpeakerView>::empty());
    }
    while g < zone_groups.len()
        invariant
            g <= zone_groups.len(),
            zone_groups_speakers_spec(zone_groups@.take(g as int)) == Ok::<Seq<SpeakerView>, Seq<char>>(seq_view(speakers@)),
            groups@.len() == g,
            forall|a: int| 0 <= a < g ==> #[trigger] groups@[a]@ == zone_group_view(zone_groups@[a]),
        decreases zone_groups.len() - g,
    {
        let zg = &zone_groups[g];
        proof {
            assert(zone_groups@.take(g + 1).drop_last() =~= zone_groups@.take(g as int));
            assert(zone_groups@.take(g + 1).last() == *zg);
        }
        let ghost prefix = seq_view(speakers@);
        let mut member_refs: Vec<SpeakerRef> = Vec::new();
        let mut j: usize = 0;
        proof {
            assert(zg.members@.take(0) =~= Seq::<ZoneGroupMemberInfo>::empty());
            assert(prefix + Seq::<SpeakerView>::empty() =~= prefix);
        }
        while j < zg.members.len()
            invariant
                g < zone_groups.len(),
                *zg == zone_groups@[g as int],
                zone_groups_speakers_spec(zone_groups@.take(g as int)) == Ok::<Seq<SpeakerView>, Seq<char>>(prefix),
                zone_groups@.take(g + 1).drop_last() == zone_groups@.take(g as int),
                j <= zg.members.len(),
                members_speakers_spec(zg.members@.take(j as int)) matches Ok(done) && seq_view(speakers@) == prefix + done,
                member_refs@.len() == j,
                forall|a: int| 0 <= a < j ==> #[trigger] member_refs@[a]@ == zone_group_view(*zg).members[a],
            decreases zg.members.len() - j,
        {
            let m = &zg.members[j];
            proof {
                assert(zg.members@.take(j + 1).drop_last() =~= zg.members@.take(j as int));
                assert(zg.members@.take(j + 1).last() == *m);
            }
            let ghost sp_before = seq_view(speakers@);
            match member_speakers(m) {
                Err(e) => {
                    proof {
                        let msg = parse_message(e);
                        assert(members_speakers_spec(zg.members@.take(j + 1)) == Err::<Seq<SpeakerView>, Seq<char>>(msg));
                        lemma_members_error_stays(zg.members@, j + 1);
                        assert(zg.members@.take(zg.members@.len() as int) =~= zg.members@);
                        assert(zone_groups@.take(g + 1).last() == *zg);
                        assert(zone_groups_speakers_spec(zone_groups@.take(g + 1)) == Err::<Seq<SpeakerView>, Seq<char>>(msg));
                        lemma_groups_error_stays(zone_groups@, g + 1);
                        assert(zone_groups@.take(zone_groups@.len() as int) =~= zone_groups@);
                    }
                    return Err(e);
                },
                Ok(ms) => {
                    let mut k: usize = 0;
                    while k < ms.len()
                        invariant
                            k <= ms.len(),
                            seq_view(speakers@) == sp_before + seq_view(ms@).take(k as int),
                        decreases ms.len() - k,
                    {
                        let ghost sb = seq_view(speakers@);
                        speakers.push(ms[k].view_clone());
                        proof {
                            assert(seq_view(speakers@) =~= sb.push(ms@[k as int]@));
                            assert(seq_view(ms@).take(k + 1) =~= seq_view(ms@).take(k as int).push(ms@[k as int]@));
                            assert(seq_view(speakers@) =~= sp_before + seq_view(ms@).take(k + 1));
                        }
                        k = k + 1;
                    }
                    proof {
                        assert(seq_view(ms@).take(ms@.len() as int) =~= seq_view(ms@));
                        let done = members_speakers_spec(zg.members@.take(j as int))->Ok_0;
                        assert(seq_view(speakers@) =~= prefix + (done + seq_view(ms@)));
                    }
                },
            }
            member_refs.push(member_ref(m));
            j = j + 1;
        }
        proof {
            assert(zg.members@.take(zg.members@.len() as int) =~= zg.members@);
        }
        let group = Group::new(GroupId::new(zg.id.as_str()), SpeakerId::new(zg.coordinator.as_str()), member_refs);
        proof {
            assert(group@.members =~= zone_group_view(*zg).members);
        }
        groups.push(group);
        g = g + 1;
    }
    proof {
        assert(zone_groups@.take(zone_groups@.len() as int) =~= zone_groups@);
        assert(groups@.map_values(|g: Group| g@) =~= zone_groups@.map_values(|zg: ZoneGroupInfo| zone_group_view(zg)));
    }
    Ok((speakers, groups))
}

} // verus!
