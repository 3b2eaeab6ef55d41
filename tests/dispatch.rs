use sonosremote::actions::{
    fault_details_of, res_to_output, ActionError, ClearQueue, GetCurrentTrackInfo, GetQueue,
    GetVolume, Next, Play, Queue,
};
use sonosremote::parse_utils::QueueItem;

const ENVELOPE_OPEN: &str = "<s:Envelope xmlns:s=\"http://schemas.xmlsoap.org/soap/envelope/\" s:encodingStyle=\"http://schemas.xmlsoap.org/soap/encoding/\"><s:Body>";
const ENVELOPE_CLOSE: &str = "</s:Body></s:Envelope>";

fn fault(code: &str) -> String {
    format!(
        "{ENVELOPE_OPEN}<s:Fault><faultcode>s:Client</faultcode><faultstring>UPnPError</faultstring><detail><UPnPError xmlns=\"urn:schemas-upnp-org:control-1-0\"><errorCode>{code}</errorCode></UPnPError></detail></s:Fault>{ENVELOPE_CLOSE}"
    )
}

#[test]
fn play_fault_701_has_the_play_hint() {
    match res_to_output(&Play, 500, fault("701")) {
        Err(ActionError::DeviceFault { status, code, details }) => {
            assert_eq!(status, 500);
            assert_eq!(code, "701");
            assert_eq!(
                details,
                "Action currently unavailable. Ensure there is a track selected and that it is not currently playing."
            );
        },
        _ => panic!("expected a device fault"),
    }
}

#[test]
fn fault_without_hint_is_generic() {
    match res_to_output(&ClearQueue, 500, fault("701")) {
        Err(e @ ActionError::DeviceFault { .. }) => {
            assert_eq!(e.message(), "Speaker responded with 500\ndevice error code 701");
            if let ActionError::DeviceFault { details, .. } = e {
                assert_eq!(details, "device error code 701");
            }
        },
        _ => panic!("expected a device fault"),
    }
    assert_eq!(fault_details_of(&Next, "701"), "device error code 701");
    assert!(fault_details_of(&Next, "711").starts_with("Could not find next track."));
}

#[test]
fn fault_without_code_is_malformed() {
    let body = format!("{ENVELOPE_OPEN}<s:Fault></s:Fault>{ENVELOPE_CLOSE}");
    match res_to_output(&Play, 404, body) {
        Err(e @ ActionError::MalformedFault { .. }) => {
            assert_eq!(
                e.message(),
                "Speaker responded with 404:\nA more specific error code could not be found: 'errorCode' tag not found"
            );
        },
        _ => panic!("expected a malformed fault"),
    }
    assert!(matches!(
        res_to_output(&Play, 500, "garbage".to_string()),
        Err(ActionError::MalformedFault { status: 500, .. })
    ));
}

#[test]
fn success_goes_to_the_action() {
    assert_eq!(res_to_output(&Play, 200, String::new()).ok().unwrap(), "Started playback");
    let volume = format!(
        "{ENVELOPE_OPEN}<u:GetVolumeResponse xmlns:u=\"urn:schemas-upnp-org:service:RenderingControl:1\"><CurrentVolume>42</CurrentVolume></u:GetVolumeResponse>{ENVELOPE_CLOSE}"
    );
    assert_eq!(res_to_output(&GetVolume, 200, volume).ok().unwrap(), 42);
}

#[test]
fn unreadable_volume_is_a_content_error() {
    for v in ["loud", "101", ""] {
        let body = format!(
            "{ENVELOPE_OPEN}<u:GetVolumeResponse xmlns:u=\"urn:schemas-upnp-org:service:RenderingControl:1\"><CurrentVolume>{v}</CurrentVolume></u:GetVolumeResponse>{ENVELOPE_CLOSE}"
        );
        assert!(matches!(res_to_output(&GetVolume, 200, body), Err(ActionError::Content(_))));
    }
}

#[test]
fn unavailable_track_is_a_content_error() {
    let body = format!(
        "{ENVELOPE_OPEN}<u:GetPositionInfoResponse xmlns:u=\"urn:schemas-upnp-org:service:AVTransport:1\"><TrackDuration>NOT_IMPLEMENTED</TrackDuration><TrackURI>x</TrackURI><RelTime>0:00:00</RelTime></u:GetPositionInfoResponse>{ENVELOPE_CLOSE}"
    );
    match res_to_output(&GetCurrentTrackInfo, 200, body) {
        Err(e @ ActionError::Content(_)) => {
            assert_eq!(e.message(), "Unable to fetch current track data")
        },
        _ => panic!("expected a content error"),
    }
}

#[test]
fn queue_listing() {
    let body = format!(
        "{ENVELOPE_OPEN}<u:BrowseResponse xmlns:u=\"urn:schemas-upnp-org:service:ContentDirectory:1\"><Result>&lt;DIDL-Lite&gt;&lt;item&gt;&lt;res&gt;a&lt;/res&gt;&lt;/item&gt;&lt;item&gt;&lt;res duration=&quot;0:02:00&quot;&gt;b&lt;/res&gt;&lt;dc:title&gt;B&lt;/dc:title&gt;&lt;/item&gt;&lt;/DIDL-Lite&gt;</Result></u:BrowseResponse>{ENVELOPE_CLOSE}"
    );
    let queue = res_to_output(&GetQueue, 200, body).ok().unwrap();
    assert_eq!(queue.items.len(), 2);
    assert_eq!(
        queue.to_text(),
        "Queue:\n-----\n1: None by None\nURI: a\nDuration: None\n-----\n2: B by None\nURI: b\nDuration: 0:02:00"
    );
    let empty = Queue { items: Vec::<QueueItem>::new() };
    assert_eq!(empty.to_text(), "No tracks found in queue");
}

#[test]
fn transport_error_text() {
    assert_eq!(
        ActionError::Transport("refused".to_string()).message(),
        "Error sending request: refused"
    );
}

#[test]
fn content_errors_carry_the_reader_text() {
    let body = format!(
        "{ENVELOPE_OPEN}<u:GetVolumeResponse xmlns:u=\"urn:schemas-upnp-org:service:RenderingControl:1\"><CurrentVolume>loud</CurrentVolume></u:GetVolumeResponse>{ENVELOPE_CLOSE}"
    );
    match res_to_output(&GetVolume, 200, body) {
        Err(ActionError::Content(m)) => assert_eq!(m, "Volume loud is not a number"),
        _ => panic!("expected a content error"),
    }
    let body = format!(
        "{ENVELOPE_OPEN}<u:GetVolumeResponse xmlns:u=\"urn:schemas-upnp-org:service:RenderingControl:1\"></u:GetVolumeResponse>{ENVELOPE_CLOSE}"
    );
    match res_to_output(&GetVolume, 200, body) {
        Err(ActionError::Content(m)) => assert_eq!(m, "'CurrentVolume' tag not found"),
        _ => panic!("expected a content error"),
    }
}
