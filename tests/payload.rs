use sonosremote::actions::{GetCurrentTrackInfo, GetQueue, GetStatus, GetVolume, Play};
use sonosremote::parse_utils::{
    current_from_nodes, get_error_code, parse_document, get_text, parse_current, parse_getvolume, parse_queue,
    parse_queue_item, parse_status, queue_from_nodes, QueueItem,
};
use sonosremote::xml::XmlNode;

const ENVELOPE_OPEN: &str = "<s:Envelope xmlns:s=\"http://schemas.xmlsoap.org/soap/envelope/\" s:encodingStyle=\"http://schemas.xmlsoap.org/soap/encoding/\"><s:Body>";
const ENVELOPE_CLOSE: &str = "</s:Body></s:Envelope>";
const DIDL_OPEN: &str = "&lt;DIDL-Lite xmlns:dc=&quot;http://purl.org/dc/elements/1.1/&quot; xmlns:upnp=&quot;urn:schemas-upnp-org:metadata-1-0/upnp/&quot; xmlns:r=&quot;urn:schemas-rinconnetworks-com:metadata-1-0/&quot; xmlns=&quot;urn:schemas-upnp-org:metadata-1-0/DIDL-Lite/&quot;&gt;";
const DIDL_CLOSE: &str = "&lt;/DIDL-Lite&gt;";

fn position_response(duration: &str, metadata: &str) -> String {
    format!(
        "{ENVELOPE_OPEN}<u:GetPositionInfoResponse xmlns:u=\"urn:schemas-upnp-org:service:AVTransport:1\"><Track>1</Track><TrackDuration>{duration}</TrackDuration><TrackMetaData>{metadata}</TrackMetaData><TrackURI>x-file:song.mp3</TrackURI><RelTime>0:01:02</RelTime></u:GetPositionInfoResponse>{ENVELOPE_CLOSE}"
    )
}

fn track_metadata() -> String {
    format!(
        "{DIDL_OPEN}&lt;item id=&quot;-1&quot; parentID=&quot;-1&quot;&gt;&lt;res protocolInfo=&quot;file&quot; duration=&quot;0:03:25&quot;&gt;x-file:song.mp3&lt;/res&gt;&lt;dc:title&gt;Song&lt;/dc:title&gt;&lt;r:albumArtist&gt;Band&lt;/r:albumArtist&gt;&lt;/item&gt;{DIDL_CLOSE}"
    )
}

fn queue_item(n: u32, with_res: bool) -> String {
    let res = if with_res {
        format!("&lt;res protocolInfo=&quot;file&quot; duration=&quot;0:0{n}:00&quot;&gt;x-file:track{n}.mp3&lt;/res&gt;")
    } else {
        String::new()
    };
    format!(
        "&lt;item id=&quot;Q:0/{n}&quot; parentID=&quot;Q:0&quot;&gt;{res}&lt;dc:title&gt;Track {n}&lt;/dc:title&gt;&lt;r:albumArtist&gt;Artist {n}&lt;/r:albumArtist&gt;&lt;/item&gt;"
    )
}

fn browse_response(items: &str) -> String {
    format!(
        "{ENVELOPE_OPEN}<u:BrowseResponse xmlns:u=\"urn:schemas-upnp-org:service:ContentDirectory:1\"><Result>{DIDL_OPEN}{items}{DIDL_CLOSE}</Result><NumberReturned>3</NumberReturned><TotalMatches>3</TotalMatches><UpdateID>1</UpdateID></u:BrowseResponse>{ENVELOPE_CLOSE}"
    )
}

#[test]
fn current_track_is_read() {
    let data = parse_current(position_response("0:03:25", &track_metadata()), &GetCurrentTrackInfo)
        .unwrap();
    assert_eq!(data.duration, "0:03:25");
    assert_eq!(data.position, "0:01:02");
    assert_eq!(data.uri, "x-file:song.mp3");
    assert_eq!(data.title.as_deref(), Some("Song"));
    assert_eq!(data.artist.as_deref(), Some("Band"));
    assert_eq!(data.to_text(), "Song by Band\nURI: x-file:song.mp3\nPosition: 0:01:02/0:03:25");
}

#[test]
fn current_track_without_metadata_has_no_title() {
    let data = parse_current(position_response("0:03:25", ""), &GetCurrentTrackInfo).unwrap();
    assert_eq!(data.title, None);
    assert_eq!(data.artist, None);
    assert_eq!(data.to_text(), "None by None\nURI: x-file:song.mp3\nPosition: 0:01:02/0:03:25");
}

#[test]
fn unavailable_track_data_fails() {
    let r = parse_current(position_response("NOT_IMPLEMENTED", &track_metadata()), &GetCurrentTrackInfo);
    assert_eq!(r.err().unwrap(), "Unable to fetch current track data");
    let r = parse_current(position_response("NOT_IMPLEMENTED", ""), &GetCurrentTrackInfo);
    assert!(r.is_err());
}

#[test]
fn current_track_missing_field_fails() {
    let body = format!(
        "{ENVELOPE_OPEN}<u:GetPositionInfoResponse xmlns:u=\"urn:schemas-upnp-org:service:AVTransport:1\"><TrackDuration>0:01:00</TrackDuration><RelTime>0:00:10</RelTime></u:GetPositionInfoResponse>{ENVELOPE_CLOSE}"
    );
    assert_eq!(parse_current(body, &GetCurrentTrackInfo).err().unwrap(), "'TrackURI' tag not found");
    assert!(parse_current("<broken".to_string(), &GetCurrentTrackInfo)
        .err()
        .unwrap()
        .starts_with("Error parsing xml: "));
}

#[test]
fn three_queue_items_in_order() {
    let items = format!("{}{}{}", queue_item(1, true), queue_item(2, true), queue_item(3, true));
    let queue = parse_queue(browse_response(&items), &GetQueue).unwrap();
    assert_eq!(queue.len(), 3);
    for (i, item) in queue.iter().enumerate() {
        let n = i + 1;
        assert_eq!(item.uri, format!("x-file:track{n}.mp3"));
        assert_eq!(item.duration.as_deref(), Some(format!("0:0{n}:00").as_str()));
        assert_eq!(item.title.as_deref(), Some(format!("Track {n}").as_str()));
        assert_eq!(item.artist.as_deref(), Some(format!("Artist {n}").as_str()));
    }
    assert_eq!(
        queue[0].to_text(),
        "Track 1 by Artist 1\nURI: x-file:track1.mp3\nDuration: 0:01:00"
    );
}

#[test]
fn queue_item_without_res_fails_the_queue() {
    let items = format!("{}{}{}", queue_item(1, true), queue_item(2, false), queue_item(3, true));
    assert_eq!(parse_queue(browse_response(&items), &GetQueue).err().unwrap(), "'res' tag not found");
}

#[test]
fn empty_queue() {
    assert!(parse_queue(browse_response(""), &GetQueue).unwrap().is_empty());
}

#[test]
fn queue_item_reads_within_its_own_subtree() {
    let doc = "<DIDL><item><res duration=\"1\">a</res></item><item><title>t</title></item><res>b</res></DIDL>";
    let nodes = parse_document(doc.to_string()).unwrap();
    let first = nodes.iter().position(|n| n.name == "item").unwrap();
    let item = parse_queue_item(&nodes, first).unwrap();
    assert_eq!(item.uri, "a");
    assert_eq!(item.duration.as_deref(), Some("1"));
    assert_eq!(item.title, None);
    let second = first + 1 + nodes[first + 1..].iter().position(|n| n.name == "item").unwrap();
    assert!(parse_queue_item(&nodes, second).is_err());
    assert!(queue_from_nodes(&nodes).is_err());
}

#[test]
fn queue_item_text_shows_missing_fields() {
    let item = QueueItem { duration: None, uri: "u".to_string(), title: None, artist: None };
    assert_eq!(item.to_text(), "None by None\nURI: u\nDuration: None");
}

#[test]
fn status_is_read() {
    let body = format!(
        "{ENVELOPE_OPEN}<u:GetTransportInfoResponse xmlns:u=\"urn:schemas-upnp-org:service:AVTransport:1\"><CurrentTransportState>PLAYING</CurrentTransportState><CurrentTransportStatus>OK</CurrentTransportStatus><CurrentSpeed>1</CurrentSpeed></u:GetTransportInfoResponse>{ENVELOPE_CLOSE}"
    );
    let st = parse_status(body, &GetStatus).unwrap();
    assert_eq!(st.state, "PLAYING");
    assert_eq!(st.status, "OK");
    assert_eq!(st.to_text(), "OK: PLAYING");
}

#[test]
fn volume_is_read() {
    let body = format!(
        "{ENVELOPE_OPEN}<u:GetVolumeResponse xmlns:u=\"urn:schemas-upnp-org:service:RenderingControl:1\"><CurrentVolume>23</CurrentVolume></u:GetVolumeResponse>{ENVELOPE_CLOSE}"
    );
    assert_eq!(parse_getvolume(body, &GetVolume).unwrap(), "23");
}

#[test]
fn error_code_is_read() {
    let body = format!(
        "{ENVELOPE_OPEN}<s:Fault><faultcode>s:Client</faultcode><faultstring>UPnPError</faultstring><detail><UPnPError xmlns=\"urn:schemas-upnp-org:control-1-0\"><errorCode>701</errorCode></UPnPError></detail></s:Fault>{ENVELOPE_CLOSE}"
    );
    assert_eq!(get_error_code(body, &Play).unwrap(), "701");
    let no_code = format!("{ENVELOPE_OPEN}<s:Fault></s:Fault>{ENVELOPE_CLOSE}");
    assert_eq!(get_error_code(no_code, &Play).err().unwrap(), "'errorCode' tag not found");
}

#[test]
fn node_text_lookup() {
    let node = XmlNode {
        is_element: true,
        name: "a".to_string(),
        text: None,
        attributes: Vec::new(),
        subtree_len: 1,
    };
    assert_eq!(get_text(&node, "no text").err().unwrap(), "no text");
    let nodes = parse_document("<r><TrackDuration>1</TrackDuration></r>".to_string()).unwrap();
    assert!(current_from_nodes(&nodes).is_err());
}

#[test]
fn empty_optional_tags_degrade_to_none() {
    let metadata = format!(
        "{DIDL_OPEN}&lt;item&gt;&lt;dc:title&gt;&lt;/dc:title&gt;&lt;r:albumArtist&gt;&lt;/r:albumArtist&gt;&lt;/item&gt;{DIDL_CLOSE}"
    );
    let data = parse_current(position_response("0:03:25", &metadata), &GetCurrentTrackInfo).unwrap();
    assert_eq!(data.title, None);
    assert_eq!(data.artist, None);
    assert_eq!(data.uri, "x-file:song.mp3");

    let items = format!(
        "{}&lt;item&gt;&lt;res&gt;x-file:bare.mp3&lt;/res&gt;&lt;dc:title&gt;&lt;/dc:title&gt;&lt;/item&gt;",
        queue_item(1, true)
    );
    let queue = parse_queue(browse_response(&items), &GetQueue).unwrap();
    assert_eq!(queue.len(), 2);
    assert_eq!(queue[1].uri, "x-file:bare.mp3");
    assert_eq!(queue[1].title, None);
    assert_eq!(queue[1].duration, None);
}

#[test]
fn error_code_without_text() {
    let body = format!(
        "{ENVELOPE_OPEN}<s:Fault><detail><errorCode></errorCode></detail></s:Fault>{ENVELOPE_CLOSE}"
    );
    assert_eq!(get_error_code(body, &Play).err().unwrap(), "Could not find error code");
    assert!(get_error_code("<".to_string(), &Play).err().unwrap().starts_with("Error parsing xml: "));
}
