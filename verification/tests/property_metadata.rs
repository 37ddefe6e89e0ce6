use sonos_state::broker::ServiceType;
use sonos_state::ids::GroupId;
use sonos_state::init::extract_ip_from_location;
use sonos_state::logging::init_silent;
use sonos_state::property::{GroupMembership, Scope, Service, Topology, Volume};
use sonos_state::value::SonosProperty;

#[test]
fn test_property_constants() {
    assert_eq!(Volume::KEY, "volume");
    assert_eq!(<Volume as SonosProperty>::kind().scope(), Scope::Speaker);

    assert_eq!(Topology::KEY, "topology");
    assert_eq!(<Topology as SonosProperty>::kind().scope(), Scope::System);
}

#[test]
fn test_group_membership_always_has_valid_group_id() {
    let group_id = GroupId::new("RINCON_12345:1");
    let membership = GroupMembership::new(group_id.clone(), true);

    assert_eq!(membership.group_id, group_id);
    assert!(!membership.group_id.as_str().is_empty());
}

#[test]
fn test_group_membership_is_coordinator_flag() {
    let group_id = GroupId::new("RINCON_12345:1");

    let coordinator = GroupMembership::new(group_id.clone(), true);
    assert!(coordinator.is_coordinator);

    let member = GroupMembership::new(group_id.clone(), false);
    assert!(!member.is_coordinator);
}

#[test]
fn test_group_membership_equality() {
    let group_id = GroupId::new("RINCON_12345:1");

    let membership1 = GroupMembership::new(group_id.clone(), true);
    let membership2 = GroupMembership::new(group_id.clone(), true);
    let membership3 = GroupMembership::new(group_id.clone(), false);
    let membership4 = GroupMembership::new(GroupId::new("RINCON_67890:1"), true);

    assert_eq!(membership1, membership2);
    assert_ne!(membership1, membership3);
    assert_ne!(membership1, membership4);
}

#[test]
fn test_group_membership_property_metadata() {
    assert_eq!(GroupMembership::KEY, "group_membership");
    assert_eq!(<GroupMembership as SonosProperty>::kind().scope(), Scope::Speaker);
    assert_eq!(<GroupMembership as SonosProperty>::kind().service(), Service::ZoneGroupTopology);
}

#[test]
fn test_extract_ip_from_location() {
    let ip = extract_ip_from_location("http://192.168.1.100:1400/xml/device_description.xml");
    assert!(ip.is_ok());
    assert_eq!(ip.unwrap().to_text(), "192.168.1.100");
}

#[test]
fn test_extract_ip_invalid_url() {
    let result = extract_ip_from_location("not-a-url");
    assert!(result.is_err());
}

#[test]
fn test_silent_mode() {
    assert!(init_silent().is_ok());
}

#[test]
fn test_service_type_to_sonos_api_service_conversion() {
    assert_eq!(ServiceType::AVTransport.to_sonos_api_service(), Service::AVTransport);
    assert_eq!(ServiceType::RenderingControl.to_sonos_api_service(), Service::RenderingControl);
    assert_eq!(ServiceType::ZoneGroupTopology.to_sonos_api_service(), Service::ZoneGroupTopology);
}
