use sonosremote::actions::{
    Action, AddURIToQueue, ClearQueue, EndDirectControlSession, GetCurrentTrackInfo, GetQueue,
    GetStatus, GetVolume, Next, Pause, Play, Previous, Seek, SetURI, SetVolume,
};
use sonosremote::services::{AVTransport, ContentDirectory, RenderingControl, Service, ServiceKind};


fn expected(items: &[(&str, &str)]) -> Vec<(String, String)> {
    items.iter().map(|(k, v)| (k.to_string(), v.to_string())).collect()
}

#[test]
fn set_volume_accepts_every_volume_up_to_100() {
    for v in 0..=100u8 {
        let a = SetVolume::new(v).expect("volume in range");
        assert_eq!(a.get_volume(), v);
    }
}

#[test]
fn set_volume_rejects_volumes_above_100() {
    for v in 101..=255u8 {
        match SetVolume::new(v) {
            Err(e) => assert_eq!(e, "Volume out of range"),
            Ok(_) => panic!("volume {v} accepted"),
        }
    }
}

#[test]
fn set_volume_from_text_rejects_non_numbers() {
    for t in ["", "abc", "4x", "-3", "+", " 5", "12.5"] {
        match SetVolume::from_text(t) {
            Err(e) => assert_eq!(e, "invalid volume"),
            Ok(_) => panic!("{t:?} accepted"),
        }
    }
    assert!(SetVolume::from_text("101").is_err());
    assert!(SetVolume::from_text("256").is_err());
    assert_eq!(SetVolume::from_text("42").unwrap().get_volume(), 42);
    assert_eq!(SetVolume::from_text("+7").unwrap().get_volume(), 7);
    assert_eq!(SetVolume::from_text("0100").unwrap().get_volume(), 100);
}

#[test]
fn set_volume_arguments_carry_the_volume() {
    let a = SetVolume::new(37).unwrap();
    assert_eq!(
        a.get_args_map(),
        expected(&[("InstanceID", "0"), ("Channel", "Master"), ("DesiredVolume", "37")])
    );
    assert_eq!(a.get_action_name(), "SetVolume");
    assert_eq!(a.get_service(), ServiceKind::RenderingControl);
    assert_eq!(a.handle_successful_response(String::new()).unwrap(), "Set volume to 37");
}

#[test]
fn play_arguments_in_order() {
    assert_eq!(Play.get_args_map(), expected(&[("InstanceID", "0"), ("Speed", "1")]));
    assert_eq!(Play.get_action_name(), "Play");
    assert_eq!(Play.get_service().get_name(), "AVTransport:1");
}

#[test]
fn default_arguments_are_the_instance() {
    let only = expected(&[("InstanceID", "0")]);
    assert_eq!(Pause.get_args_map(), only);
    assert_eq!(Next.get_args_map(), only);
    assert_eq!(Previous.get_args_map(), only);
    assert_eq!(EndDirectControlSession.get_args_map(), only);
    assert_eq!(ClearQueue.get_args_map(), only);
    assert_eq!(GetCurrentTrackInfo.get_args_map(), only);
    assert_eq!(GetStatus.get_args_map(), only);
    assert_eq!(GetVolume.get_args_map(), expected(&[("InstanceID", "0"), ("Channel", "Master")]));
}

#[test]
fn queue_browse_arguments() {
    assert_eq!(
        GetQueue.get_args_map(),
        expected(&[
            ("ObjectID", "Q:0"),
            ("BrowseFlag", "BrowseDirectChildren"),
            ("Filter", "*"),
            ("StartingIndex", "0"),
            ("RequestedCount", "100"),
            ("SortCriteria", ""),
        ])
    );
    assert_eq!(GetQueue.get_action_name(), "Browse");
    assert_eq!(GetQueue.get_service(), ServiceKind::ContentDirectory);
}

#[test]
fn uri_and_seek_actions_carry_their_data() {
    let s = SetURI::new("x-file:a.mp3".to_string());
    assert_eq!(
        s.get_args_map(),
        expected(&[("InstanceID", "0"), ("CurrentURI", "x-file:a.mp3"), ("CurrentURIMetaData", "")])
    );
    assert_eq!(s.get_action_name(), "SetAVTransportURI");
    assert_eq!(s.handle_successful_response(String::new()).unwrap(), "Set URI to x-file:a.mp3");

    let k = Seek::new("0:01:30".to_string());
    assert_eq!(
        k.get_args_map(),
        expected(&[("InstanceID", "0"), ("Unit", "REL_TIME"), ("Target", "0:01:30")])
    );
    assert_eq!(k.handle_successful_response(String::new()).unwrap(), "Playing from 0:01:30");

    let q = AddURIToQueue::new("x-file:b.mp3".to_string());
    assert_eq!(
        q.get_args_map(),
        expected(&[
            ("InstanceID", "0"),
            ("EnqueuedURI", "x-file:b.mp3"),
            ("EnqueuedURIMetaData", ""),
            ("DesiredFirstTrackNumberEnqueued", "0"),
            ("EnqueueAsNext", "0"),
        ])
    );
    assert_eq!(q.handle_successful_response(String::new()).unwrap(), "Added x-file:b.mp3 to queue");
}

#[test]
fn action_names_and_success_messages() {
    assert_eq!(ClearQueue.get_action_name(), "RemoveAllTracksFromQueue");
    assert_eq!(EndDirectControlSession.get_action_name(), "EndDirectControlSession");
    assert_eq!(GetCurrentTrackInfo.get_action_name(), "GetPositionInfo");
    assert_eq!(GetStatus.get_action_name(), "GetTransportInfo");
    assert_eq!(Play.handle_successful_response(String::new()).unwrap(), "Started playback");
    assert_eq!(Pause.handle_successful_response(String::new()).unwrap(), "Stopped playback");
    assert_eq!(Next.handle_successful_response(String::new()).unwrap(), "Moved to next track");
    assert_eq!(
        Previous.handle_successful_response(String::new()).unwrap(),
        "Moved to previous track"
    );
    assert_eq!(
        ClearQueue.handle_successful_response(String::new()).unwrap(),
        "Removed all tracks from queue"
    );
}

#[test]
fn error_code_hints() {
    assert_eq!(
        Play.handle_sonos_err_code("701").unwrap(),
        "Action currently unavailable. Ensure there is a track selected and that it is not currently playing."
    );
    assert_eq!(
        Pause.handle_sonos_err_code("701").unwrap(),
        "Action currently unavailable. Ensure there is a track selected and that it is currently playing."
    );
    assert!(Next.handle_sonos_err_code("711").unwrap().starts_with("Could not find next track."));
    assert!(Previous.handle_sonos_err_code("711").unwrap().starts_with("Could not find previous track."));
    assert_eq!(Play.handle_sonos_err_code("711"), None);
    assert_eq!(Next.handle_sonos_err_code("701"), None);
    assert_eq!(ClearQueue.handle_sonos_err_code("701"), None);
}

#[test]
fn service_metadata() {
    assert_eq!(AVTransport.get_name(), "AVTransport:1");
    assert_eq!(AVTransport.get_endpoint(), "/MediaRenderer/AVTransport/Control");
    assert_eq!(ContentDirectory.get_name(), "ContentDirectory:1");
    assert_eq!(ContentDirectory.get_endpoint(), "/MediaServer/ContentDirectory/Control");
    assert_eq!(RenderingControl.get_name(), "RenderingControl:1");
    assert_eq!(RenderingControl.get_endpoint(), "/MediaRenderer/RenderingControl/Control");
}
