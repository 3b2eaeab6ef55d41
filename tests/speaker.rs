use sonosremote::actions::{GetVolume, Play};
use sonosremote::codec::decode_envelope;
use sonosremote::speaker::{build_sonos_url, extract_uid, Speaker};

const DESCRIPTION: &str = "<root><device><friendlyName>Kitchen</friendlyName><UDN>uuid:RINCON_000E58A0123401400</UDN></device></root>";

#[test]
fn urls_are_built_from_address_and_endpoint() {
    assert_eq!(
        build_sonos_url([192, 168, 1, 20], "/MediaRenderer/AVTransport/Control"),
        "http://192.168.1.20:1400/MediaRenderer/AVTransport/Control"
    );
    assert_eq!(
        Speaker::description_url([10, 0, 0, 255]),
        "http://10.0.0.255:1400/xml/device_description.xml"
    );
}

#[test]
fn uid_is_found_in_the_description() {
    assert_eq!(extract_uid(DESCRIPTION).unwrap(), "RINCON_000E58A0123401400");
    assert_eq!(extract_uid("<root/>").err().unwrap(), "Unable to find speaker uid");
    assert_eq!(extract_uid("id RINCON_12").err().unwrap(), "Error extracting speaker uid");
}

#[test]
fn speaker_connects_only_on_success() {
    let s = Speaker::new([192, 168, 1, 20], 200, DESCRIPTION).unwrap();
    assert_eq!(s.get_info(), "UID: RINCON_000E58A0123401400");
    assert_eq!(s.queue_uri(), "x-rincon-queue:RINCON_000E58A0123401400#0");
    assert_eq!(
        Speaker::new([192, 168, 1, 20], 404, DESCRIPTION).err().unwrap(),
        "Device returned unsuccessful response: 404"
    );
    assert!(Speaker::new([192, 168, 1, 20], 200, "<root/>").is_err());
}

#[test]
fn requests_carry_url_header_and_envelope() {
    let s = Speaker::new([192, 168, 1, 20], 200, DESCRIPTION).unwrap();
    let q = s.request(&Play).unwrap();
    assert_eq!(q.url, "http://192.168.1.20:1400/MediaRenderer/AVTransport/Control");
    assert_eq!(q.soap_action, "urn:schemas-upnp-org:service:AVTransport:1#Play");
    let (name, args) = decode_envelope(&String::from_utf8(q.body).unwrap()).unwrap();
    assert_eq!(name, "Play");
    assert_eq!(args, vec![
        ("InstanceID".to_string(), "0".to_string()),
        ("Speed".to_string(), "1".to_string()),
    ]);

    let v = s.request(&GetVolume).unwrap();
    assert_eq!(v.url, "http://192.168.1.20:1400/MediaRenderer/RenderingControl/Control");
    assert_eq!(v.soap_action, "urn:schemas-upnp-org:service:RenderingControl:1#GetVolume");
}
