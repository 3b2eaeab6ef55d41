//! Device actions. Each names its service and SOAP action, lists its
//! arguments in order, elaborates the device error codes it knows, and reads
//! its result from a successful response.
use vstd::prelude::*;
use crate::parse_utils::{
    current_response, parse_current, parse_getvolume, parse_queue, parse_status, queue_response,
    status_response, volume_response, error_code_response, error_code_result, get_error_code, CurrentData,
    CurrentDataView, PlaybackStatus, QueueItem, QueueItemView,
};
use crate::services::{Service, ServiceKind};
use crate::text::{decimal, decimal_of, parsed_u8, parse_u8, chars_of, string_of};

verus! {

/// An argument pair from two literals.
fn arg(name: &str, value: &str) -> (r: (String, String))
    ensures
        r.0@ == name@,
        r.1@ == value@,
{
    (String::from_str(name), String::from_str(value))
}

/// The argument every transport and rendering action carries.
pub open spec fn instance_arg() -> (Seq<char>, Seq<char>) {
    ("InstanceID"@, "0"@)
}

/// A fixed message.
fn message(text: &str) -> (r: String)
    ensures
        r@ == text@,
{
    String::from_str(text)
}

/// `prefix`, then `middle`, then `suffix`.
fn joined(prefix: &str, middle: &str, suffix: &str) -> (r: String)
    ensures
        r@ == prefix@ + middle@ + suffix@,
{
    let mut s = String::from_str(prefix);
    s.append(middle);
    s.append(suffix);
    s
}

/// Whether the code `code` is the literal `lit`.
fn code_is(code: &str, lit: &str) -> (r: bool)
    ensures
        r == (code@ == lit@),
{
    String::from_str(code) == String::from_str(lit)
}

/// One device operation.
pub trait Action {
    /// The typed result of a successful response.
    type Output: View;

    spec fn spec_service(&self) -> ServiceKind;

    spec fn spec_name(&self) -> Seq<char>;

    spec fn spec_args(&self) -> Seq<(Seq<char>, Seq<char>)>;

    /// The remediation hint for a device error code, where there is one.
    spec fn spec_hint(&self, code: Seq<char>) -> Option<Seq<char>>;

    /// The result that a successful response with body `body` carries, or
    /// the error text where the body cannot be read as one.
    spec fn spec_result(&self, body: Seq<char>) -> Result<<Self::Output as View>::V, Seq<char>>;

    fn get_service(&self) -> (r: ServiceKind)
        ensures
            r == self.spec_service(),
    ;

    fn get_action_name(&self) -> (r: &'static str)
        ensures
            r@ == self.spec_name(),
    ;

    /// The action's arguments, in the order they appear in the request.
    fn get_args_map(&self) -> (r: Vec<(String, String)>)
        ensures
            r.deep_view() == self.spec_args(),
    ;

    fn handle_sonos_err_code(&self, err_code: &str) -> (r: Option<String>)
        ensures
            r.deep_view() == self.spec_hint(err_code@),
    ;

    fn handle_successful_response(&self, body: String) -> (r: Result<Self::Output, String>)
        ensures
            match self.spec_result(body@) {
                Ok(v) => r matches Ok(o) && o@ == v,
                Err(m) => r matches Err(e) && e@ == m,
            },
    ;
}

/// Starts playback of the selected track.
pub struct Play;

impl Action for Play {
    type Output = String;

    open spec fn spec_service(&self) -> ServiceKind {
        ServiceKind::AVTransport
    }

    open spec fn spec_name(&self) -> Seq<char> {
        "Play"@
    }

    open spec fn spec_args(&self) -> Seq<(Seq<char>, Seq<char>)> {
        seq![instance_arg(), ("Speed"@, "1"@)]
    }

    open spec fn spec_hint(&self, code: Seq<char>) -> Option<Seq<char>> {
        if code == "701"@ {
            Some("Action currently unavailable. Ensure there is a track selected and that it is not currently playing."@)
        } else {
            None
        }
    }

    open spec fn spec_result(&self, body: Seq<char>) -> Result<Seq<char>, Seq<char>> {
        Ok("Started playback"@)
    }

    fn get_service(&self) -> (r: ServiceKind) {
        ServiceKind::AVTransport
    }

    fn get_action_name(&self) -> (r: &'static str) {
        "Play"
    }

    fn get_args_map(&self) -> (r: Vec<(String, String)>) {
        let mut v: Vec<(String, String)> = Vec::new();
        v.push(arg("InstanceID", "0"));
        v.push(arg("Speed", "1"));
        assert(v.deep_view() =~= self.spec_args());
        v
    }

    fn handle_sonos_err_code(&self, err_code: &str) -> (r: Option<String>) {
        if code_is(err_code, "701") {
            Some(message("Action currently unavailable. Ensure there is a track selected and that it is not currently playing."))
        } else {
            None
        }
    }

    fn handle_successful_response(&self, body: String) -> (r: Result<String, String>) {
        Ok(message("Started playback"))
    }
}

/// Pauses playback.
pub struct Pause;

impl Action for Pause {
    type Output = String;

    open spec fn spec_service(&self) -> ServiceKind {
        ServiceKind::AVTransport
    }

    open spec fn spec_name(&self) -> Seq<char> {
        "Pause"@
    }

    open spec fn spec_args(&self) -> Seq<(Seq<char>, Seq<char>)> {
        seq![instance_arg()]
    }

    open spec fn spec_hint(&self, code: Seq<char>) -> Option<Seq<char>> {
        if code == "701"@ {
            Some("Action currently unavailable. Ensure there is a track selected and that it is currently playing."@)
        } else {
            None
        }
    }

    open spec fn spec_result(&self, body: Seq<char>) -> Result<Seq<char>, Seq<char>> {
        Ok("Stopped playback"@)
    }

    fn get_service(&self) -> (r: ServiceKind) {
        ServiceKind::AVTransport
    }

    fn get_action_name(&self) -> (r: &'static str) {
        "Pause"
    }

    fn get_args_map(&self) -> (r: Vec<(String, String)>) {
        let mut v: Vec<(String, String)> = Vec::new();
        v.push(arg("InstanceID", "0"));
        assert(v.deep_view() =~= self.spec_args());
        v
    }

    fn handle_sonos_err_code(&self, err_code: &str) -> (r: Option<String>) {
        if code_is(err_code, "701") {
            Some(message("Action currently unavailable. Ensure there is a track selected and that it is currently playing."))
        } else {
            None
        }
    }

    fn handle_successful_response(&self, body: String) -> (r: Result<String, String>) {
        Ok(message("Stopped playback"))
    }
}

/// Moves to the next track of the queue.
pub struct Next;

impl Action for Next {
    type Output = String;

    open spec fn spec_service(&self) -> ServiceKind {
        ServiceKind::AVTransport
    }

    open spec fn spec_name(&self) -> Seq<char> {
        "Next"@
    }

    open spec fn spec_args(&self) -> Seq<(Seq<char>, Seq<char>)> {
        seq![instance_arg()]
    }

    open spec fn spec_hint(&self, code: Seq<char>) -> Option<Seq<char>> {
        if code == "711"@ {
            Some("Could not find next track. Ensure that you are in the queue and that there are tracks after the current one."@)
        } else {
            None
        }
    }

    open spec fn spec_result(&self, body: Seq<char>) -> Result<Seq<char>, Seq<char>> {
        Ok("Moved to next track"@)
    }

    fn get_service(&self) -> (r: ServiceKind) {
        ServiceKind::AVTransport
    }

    fn get_action_name(&self) -> (r: &'static str) {
        "Next"
    }

    fn get_args_map(&self) -> (r: Vec<(String, String)>) {
        let mut v: Vec<(String, String)> = Vec::new();
        v.push(arg("InstanceID", "0"));
        assert(v.deep_view() =~= self.spec_args());
        v
    }

    fn handle_sonos_err_code(&self, err_code: &str) -> (r: Option<String>) {
        if code_is(err_code, "711") {
            Some(message("Could not find next track. Ensure that you are in the queue and that there are tracks after the current one."))
        } else {
            None
        }
    }

    fn handle_successful_response(&self, body: String) -> (r: Result<String, String>) {
        Ok(message("Moved to next track"))
    }
}

/// Moves to the previous track of the queue.
pub struct Previous;

impl Action for Previous {
    type Output = String;

    open spec fn spec_service(&self) -> ServiceKind {
        ServiceKind::AVTransport
    }

    open spec fn spec_name(&self) -> Seq<char> {
        "Previous"@
    }

    open spec fn spec_args(&self) -> Seq<(Seq<char>, Seq<char>)> {
        seq![instance_arg()]
    }

    open spec fn spec_hint(&self, code: Seq<char>) -> Option<Seq<char>> {
        if code == "711"@ {
            Some("Could not find previous track. Ensure that you are in the queue and that there are tracks before the current one."@)
        } else {
            None
        }
    }

    open spec fn spec_result(&self, body: Seq<char>) -> Result<Seq<char>, Seq<char>> {
        Ok("Moved to previous track"@)
    }

    fn get_service(&self) -> (r: ServiceKind) {
        ServiceKind::AVTransport
    }

    fn get_action_name(&self) -> (r: &'static str) {
        "Previous"
    }

    fn get_args_map(&self) -> (r: Vec<(String, String)>) {
        let mut v: Vec<(String, String)> = Vec::new();
        v.push(arg("InstanceID", "0"));
        assert(v.deep_view() =~= self.spec_args());
        v
    }

    fn handle_sonos_err_code(&self, err_code: &str) -> (r: Option<String>) {
        if code_is(err_code, "711") {
            Some(message("Could not find previous track. Ensure that you are in the queue and that there are tracks before the current one."))
        } else {
            None
        }
    }

    fn handle_successful_response(&self, body: String) -> (r: Result<String, String>) {
        Ok(message("Moved to previous track"))
    }
}

/// Ends the control of the device by another service.
pub struct EndDirectControlSession;

impl Action for EndDirectControlSession {
    type Output = String;

    open spec fn spec_service(&self) -> ServiceKind {
        ServiceKind::AVTransport
    }

    open spec fn spec_name(&self) -> Seq<char> {
        "EndDirectControlSession"@
    }

    open spec fn spec_args(&self) -> Seq<(Seq<char>, Seq<char>)> {
        seq![instance_arg()]
    }

    open spec fn spec_hint(&self, code: Seq<char>) -> Option<Seq<char>> {
        None
    }

    open spec fn spec_result(&self, body: Seq<char>) -> Result<Seq<char>, Seq<char>> {
        Ok("Ended third-party control of speaker"@)
    }

    fn get_service(&self) -> (r: ServiceKind) {
        ServiceKind::AVTransport
    }

    fn get_action_name(&self) -> (r: &'static str) {
        "EndDirectControlSession"
    }

    fn get_args_map(&self) -> (r: Vec<(String, String)>) {
        let mut v: Vec<(String, String)> = Vec::new();
        v.push(arg("InstanceID", "0"));
        assert(v.deep_view() =~= self.spec_args());
        v
    }

    fn handle_sonos_err_code(&self, err_code: &str) -> (r: Option<String>) {
        None
    }

    fn handle_successful_response(&self, body: String) -> (r: Result<String, String>) {
        Ok(message("Ended third-party control of speaker"))
    }
}

/// Removes every track from the queue.
pub struct ClearQueue;

impl Action for ClearQueue {
    type Output = String;

    open spec fn spec_service(&self) -> ServiceKind {
        ServiceKind::AVTransport
    }

    open spec fn spec_name(&self) -> Seq<char> {
        "RemoveAllTracksFromQueue"@
    }

    open spec fn spec_args(&self) -> Seq<(Seq<char>, Seq<char>)> {
        seq![instance_arg()]
    }

    open spec fn spec_hint(&self, code: Seq<char>) -> Option<Seq<char>> {
        None
    }

    open spec fn spec_result(&self, body: Seq<char>) -> Result<Seq<char>, Seq<char>> {
        Ok("Removed all tracks from queue"@)
    }

    fn get_service(&self) -> (r: ServiceKind) {
        ServiceKind::AVTransport
    }

    fn get_action_name(&self) -> (r: &'static str) {
        "RemoveAllTracksFromQueue"
    }

    fn get_args_map(&self) -> (r: Vec<(String, String)>) {
        let mut v: Vec<(String, String)> = Vec::new();
        v.push(arg("InstanceID", "0"));
        assert(v.deep_view() =~= self.spec_args());
        v
    }

    fn handle_sonos_err_code(&self, err_code: &str) -> (r: Option<String>) {
        None
    }

    fn handle_successful_response(&self, body: String) -> (r: Result<String, String>) {
        Ok(message("Removed all tracks from queue"))
    }
}

/// The queue's tracks, in order.
pub struct Queue {
    pub items: Vec<QueueItem>,
}

impl View for Queue {
    type V = Seq<QueueItemView>;

    open spec fn view(&self) -> Seq<QueueItemView> {
        self.items@.map_values(|q: QueueItem| q@)
    }
}

/// Lists the queue (its first hundred tracks).
pub struct GetQueue;

impl Action for GetQueue {
    type Output = Queue;

    open spec fn spec_service(&self) -> ServiceKind {
        ServiceKind::ContentDirectory
    }

    open spec fn spec_name(&self) -> Seq<char> {
        "Browse"@
    }

    open spec fn spec_args(&self) -> Seq<(Seq<char>, Seq<char>)> {
        seq![
            ("ObjectID"@, "Q:0"@),
            ("BrowseFlag"@, "BrowseDirectChildren"@),
            ("Filter"@, "*"@),
            ("StartingIndex"@, "0"@),
            ("RequestedCount"@, "100"@),
            ("SortCriteria"@, ""@),
        ]
    }

    open spec fn spec_hint(&self, code: Seq<char>) -> Option<Seq<char>> {
        None
    }

    open spec fn spec_result(&self, body: Seq<char>) -> Result<Seq<QueueItemView>, Seq<char>> {
        queue_response(body)
    }

    fn get_service(&self) -> (r: ServiceKind) {
        ServiceKind::ContentDirectory
    }

    fn get_action_name(&self) -> (r: &'static str) {
        "Browse"
    }

    fn get_args_map(&self) -> (r: Vec<(String, String)>) {
        let mut v: Vec<(String, String)> = Vec::new();
        v.push(arg("ObjectID", "Q:0"));
        v.push(arg("BrowseFlag", "BrowseDirectChildren"));
        v.push(arg("Filter", "*"));
        v.push(arg("StartingIndex", "0"));
        v.push(arg("RequestedCount", "100"));
        v.push(arg("SortCriteria", ""));
        assert(v.deep_view() =~= self.spec_args());
        v
    }

    fn handle_sonos_err_code(&self, err_code: &str) -> (r: Option<String>) {
        None
    }

    fn handle_successful_response(&self, body: String) -> (r: Result<Queue, String>) {
        match parse_queue(body, self) {
            Ok(items) => Ok(Queue { items }),
            Err(e) => Err(e),
        }
    }
}

/// Reads the current track and the position in it.
pub struct GetCurrentTrackInfo;

impl Action for GetCurrentTrackInfo {
    type Output = CurrentData;

    open spec fn spec_service(&self) -> ServiceKind {
        ServiceKind::AVTransport
    }

    open spec fn spec_name(&self) -> Seq<char> {
        "GetPositionInfo"@
    }

    open spec fn spec_args(&self) -> Seq<(Seq<char>, Seq<char>)> {
        seq![instance_arg()]
    }

    open spec fn spec_hint(&self, code: Seq<char>) -> Option<Seq<char>> {
        None
    }

    open spec fn spec_result(&self, body: Seq<char>) -> Result<CurrentDataView, Seq<char>> {
        current_response(body)
    }

    fn get_service(&self) -> (r: ServiceKind) {
        ServiceKind::AVTransport
    }

    fn get_action_name(&self) -> (r: &'static str) {
        "GetPositionInfo"
    }

    fn get_args_map(&self) -> (r: Vec<(String, String)>) {
        let mut v: Vec<(String, String)> = Vec::new();
        v.push(arg("InstanceID", "0"));
        assert(v.deep_view() =~= self.spec_args());
        v
    }

    fn handle_sonos_err_code(&self, err_code: &str) -> (r: Option<String>) {
        None
    }

    fn handle_successful_response(&self, body: String) -> (r: Result<CurrentData, String>) {
        parse_current(body, self)
    }
}

/// Reads the master volume.
pub struct GetVolume;

/// The volume that a volume response carries: a decimal from 0 to 100.
pub open spec fn volume_of_response(body: Seq<char>) -> Result<u8, Seq<char>> {
    match volume_response(body) {
        Ok(t) => match parsed_u8(t) {
            Some(v) => if v <= 100 {
                Ok(v)
            } else {
                Err("Volume "@ + t + " is out of range"@)
            },
            None => Err("Volume "@ + t + " is not a number"@),
        },
        Err(m) => Err(m),
    }
}

impl Action for GetVolume {
    type Output = u8;

    open spec fn spec_service(&self) -> ServiceKind {
        ServiceKind::RenderingControl
    }

    open spec fn spec_name(&self) -> Seq<char> {
        "GetVolume"@
    }

    open spec fn spec_args(&self) -> Seq<(Seq<char>, Seq<char>)> {
        seq![instance_arg(), ("Channel"@, "Master"@)]
    }

    open spec fn spec_hint(&self, code: Seq<char>) -> Option<Seq<char>> {
        None
    }

    open spec fn spec_result(&self, body: Seq<char>) -> Result<u8, Seq<char>> {
        volume_of_response(body)
    }

    fn get_service(&self) -> (r: ServiceKind) {
        ServiceKind::RenderingControl
    }

    fn get_action_name(&self) -> (r: &'static str) {
        "GetVolume"
    }

    fn get_args_map(&self) -> (r: Vec<(String, String)>) {
        let mut v: Vec<(String, String)> = Vec::new();
        v.push(arg("InstanceID", "0"));
        v.push(arg("Channel", "Master"));
        assert(v.deep_view() =~= self.spec_args());
        v
    }

    fn handle_sonos_err_code(&self, err_code: &str) -> (r: Option<String>) {
        None
    }

    fn handle_successful_response(&self, body: String) -> (r: Result<u8, String>) {
        let text = match parse_getvolume(body, self) {
            Ok(t) => t,
            Err(e) => return Err(e),
        };
        match parse_u8(&chars_of(text.as_str())) {
            Some(v) => if v <= 100 {
                Ok(v)
            } else {
                Err(joined("Volume ", text.as_str(), " is out of range"))
            },
            None => Err(joined("Volume ", text.as_str(), " is not a number")),
        }
    }
}

/// Reads the transport state and status.
pub struct GetStatus;

impl Action for GetStatus {
    type Output = PlaybackStatus;

    open spec fn spec_service(&self) -> ServiceKind {
        ServiceKind::AVTransport
    }

    open spec fn spec_name(&self) -> Seq<char> {
        "GetTransportInfo"@
    }

    open spec fn spec_args(&self) -> Seq<(Seq<char>, Seq<char>)> {
        seq![instance_arg()]
    }

    open spec fn spec_hint(&self, code: Seq<char>) -> Option<Seq<char>> {
        None
    }

    open spec fn spec_result(&self, body: Seq<char>) -> Result<(Seq<char>, Seq<char>), Seq<char>> {
        status_response(body)
    }

    fn get_service(&self) -> (r: ServiceKind) {
        ServiceKind::AVTransport
    }

    fn get_action_name(&self) -> (r: &'static str) {
        "GetTransportInfo"
    }

    fn get_args_map(&self) -> (r: Vec<(String, String)>) {
        let mut v: Vec<(String, String)> = Vec::new();
        v.push(arg("InstanceID", "0"));
        assert(v.deep_view() =~= self.spec_args());
        v
    }

    fn handle_sonos_err_code(&self, err_code: &str) -> (r: Option<String>) {
        None
    }

    fn handle_successful_response(&self, body: String) -> (r: Result<PlaybackStatus, String>) {
        parse_status(body, self)
    }
}

/// Plays from the given URI.
pub struct SetURI {
    pub uri: String,
}

impl SetURI {
    pub fn new(uri: String) -> (r: Self)
        ensures
            r.uri@ == uri@,
    {
        SetURI { uri }
    }
}

impl Action for SetURI {
    type Output = String;

    open spec fn spec_service(&self) -> ServiceKind {
        ServiceKind::AVTransport
    }

    open spec fn spec_name(&self) -> Seq<char> {
        "SetAVTransportURI"@
    }

    open spec fn spec_args(&self) -> Seq<(Seq<char>, Seq<char>)> {
        seq![instance_arg(), ("CurrentURI"@, self.uri@), ("CurrentURIMetaData"@, ""@)]
    }

    open spec fn spec_hint(&self, code: Seq<char>) -> Option<Seq<char>> {
        None
    }

    open spec fn spec_result(&self, body: Seq<char>) -> Result<Seq<char>, Seq<char>> {
        Ok("Set URI to "@ + self.uri@)
    }

    fn get_service(&self) -> (r: ServiceKind) {
        ServiceKind::AVTransport
    }

    fn get_action_name(&self) -> (r: &'static str) {
        "SetAVTransportURI"
    }

    fn get_args_map(&self) -> (r: Vec<(String, String)>) {
        let mut v: Vec<(String, String)> = Vec::new();
        v.push(arg("InstanceID", "0"));
        v.push(arg("CurrentURI", self.uri.as_str()));
        v.push(arg("CurrentURIMetaData", ""));
        assert(v.deep_view() =~= self.spec_args());
        v
    }

    fn handle_sonos_err_code(&self, err_code: &str) -> (r: Option<String>) {
        None
    }

    fn handle_successful_response(&self, body: String) -> (r: Result<String, String>) {
        proof {
            reveal_strlit("");
        }
        Ok(joined("Set URI to ", self.uri.as_str(), ""))
    }
}

/// Sets the master volume, a value from 0 to 100.
pub struct SetVolume {
    desired_volume: u8,
}

impl SetVolume {
    /// The volume this action sets.
    pub closed spec fn volume(&self) -> u8 {
        self.desired_volume
    }

    /// Accepts a volume from 0 to 100 and rejects any other.
    pub fn new(desired_volume: u8) -> (r: Result<Self, String>)
        ensures
            match r {
                Ok(a) => desired_volume <= 100 && a.volume() == desired_volume,
                Err(e) => desired_volume > 100 && e@ == "Volume out of range"@,
            },
    {
        if desired_volume > 100 {
            return Err(message("Volume out of range"));
        }
        Ok(SetVolume { desired_volume })
    }

    /// Reads the volume from text, as a `u8` in decimal, then accepts it as
    /// [`SetVolume::new`] does; text that is no such number is rejected.
    pub fn from_text(text: &str) -> (r: Result<Self, String>)
        ensures
            match parsed_u8(text@) {
                Some(v) => match r {
                    Ok(a) => v <= 100 && a.volume() == v,
                    Err(_) => v > 100,
                },
                None => r matches Err(e) && e@ == "invalid volume"@,
            },
    {
        match parse_u8(&chars_of(text)) {
            Some(v) => SetVolume::new(v),
            None => Err(message("invalid volume")),
        }
    }

    /// The volume this action sets.
    pub fn get_volume(&self) -> (r: u8)
        ensures
            r == self.volume(),
    {
        self.desired_volume
    }
}

impl Action for SetVolume {
    type Output = String;

    open spec fn spec_service(&self) -> ServiceKind {
        ServiceKind::RenderingControl
    }

    open spec fn spec_name(&self) -> Seq<char> {
        "SetVolume"@
    }

    open spec fn spec_args(&self) -> Seq<(Seq<char>, Seq<char>)> {
        seq![
            instance_arg(),
            ("Channel"@, "Master"@),
            ("DesiredVolume"@, decimal(self.volume() as nat)),
        ]
    }

    open spec fn spec_hint(&self, code: Seq<char>) -> Option<Seq<char>> {
        None
    }

    open spec fn spec_result(&self, body: Seq<char>) -> Result<Seq<char>, Seq<char>> {
        Ok("Set volume to "@ + decimal(self.volume() as nat))
    }

    fn get_service(&self) -> (r: ServiceKind) {
        ServiceKind::RenderingControl
    }

    fn get_action_name(&self) -> (r: &'static str) {
        "SetVolume"
    }

    fn get_args_map(&self) -> (r: Vec<(String, String)>) {
        let volume = string_of(decimal_of(self.desired_volume as u64).as_slice());
        let mut v: Vec<(String, String)> = Vec::new();
        v.push(arg("InstanceID", "0"));
        v.push(arg("Channel", "Master"));
        v.push((String::from_str("DesiredVolume"), volume));
        assert(v.deep_view() =~= self.spec_args());
        v
    }

    fn handle_sonos_err_code(&self, err_code: &str) -> (r: Option<String>) {
        None
    }

    fn handle_successful_response(&self, body: String) -> (r: Result<String, String>) {
        let volume = string_of(decimal_of(self.desired_volume as u64).as_slice());
        proof {
            reveal_strlit("");
        }
        Ok(joined("Set volume to ", volume.as_str(), ""))
    }
}

/// Moves to a position in the current track, given as `h:mm:ss`.
pub struct Seek {
    pub target: String,
}

impl Seek {
    pub fn new(target_time: String) -> (r: Self)
        ensures
            r.target@ == target_time@,
    {
        Seek { target: target_time }
    }
}

impl Action for Seek {
    type Output = String;

    open spec fn spec_service(&self) -> ServiceKind {
        ServiceKind::AVTransport
    }

    open spec fn spec_name(&self) -> Seq<char> {
        "Seek"@
    }

    open spec fn spec_args(&self) -> Seq<(Seq<char>, Seq<char>)> {
        seq![instance_arg(), ("Unit"@, "REL_TIME"@), ("Target"@, self.target@)]
    }

    open spec fn spec_hint(&self, code: Seq<char>) -> Option<Seq<char>> {
        None
    }

    open spec fn spec_result(&self, body: Seq<char>) -> Result<Seq<char>, Seq<char>> {
        Ok("Playing from "@ + self.target@)
    }

    fn get_service(&self) -> (r: ServiceKind) {
        ServiceKind::AVTransport
    }

    fn get_action_name(&self) -> (r: &'static str) {
        "Seek"
    }

    fn get_args_map(&self) -> (r: Vec<(String, String)>) {
        let mut v: Vec<(String, String)> = Vec::new();
        v.push(arg("InstanceID", "0"));
        v.push(arg("Unit", "REL_TIME"));
        v.push(arg("Target", self.target.as_str()));
        assert(v.deep_view() =~= self.spec_args());
        v
    }

    fn handle_sonos_err_code(&self, err_code: &str) -> (r: Option<String>) {
        None
    }

    fn handle_successful_response(&self, body: String) -> (r: Result<String, String>) {
        proof {
            reveal_strlit("");
        }
        Ok(joined("Playing from ", self.target.as_str(), ""))
    }
}

/// Adds the track at the given URI to the end of the queue.
pub struct AddURIToQueue {
    pub uri: String,
}

impl AddURIToQueue {
    pub fn new(uri: String) -> (r: Self)
        ensures
            r.uri@ == uri@,
    {
        AddURIToQueue { uri }
    }
}

impl Action for AddURIToQueue {
    type Output = String;

    open spec fn spec_service(&self) -> ServiceKind {
        ServiceKind::AVTransport
    }

    open spec fn spec_name(&self) -> Seq<char> {
        "AddURIToQueue"@
    }

    open spec fn spec_args(&self) -> Seq<(Seq<char>, Seq<char>)> {
        seq![
            instance_arg(),
            ("EnqueuedURI"@, self.uri@),
            ("EnqueuedURIMetaData"@, ""@),
            ("DesiredFirstTrackNumberEnqueued"@, "0"@),
            ("EnqueueAsNext"@, "0"@),
        ]
    }

    open spec fn spec_hint(&self, code: Seq<char>) -> Option<Seq<char>> {
        None
    }

    open spec fn spec_result(&self, body: Seq<char>) -> Result<Seq<char>, Seq<char>> {
        Ok("Added "@ + self.uri@ + " to queue"@)
    }

    fn get_service(&self) -> (r: ServiceKind) {
        ServiceKind::AVTransport
    }

    fn get_action_name(&self) -> (r: &'static str) {
        "AddURIToQueue"
    }

    fn get_args_map(&self) -> (r: Vec<(String, String)>) {
        let mut v: Vec<(String, String)> = Vec::new();
        v.push(arg("InstanceID", "0"));
        v.push(arg("EnqueuedURI", self.uri.as_str()));
        v.push(arg("EnqueuedURIMetaData", ""));
        v.push(arg("DesiredFirstTrackNumberEnqueued", "0"));
        v.push(arg("EnqueueAsNext", "0"));
        assert(v.deep_view() =~= self.spec_args());
        v
    }

    fn handle_sonos_err_code(&self, err_code: &str) -> (r: Option<String>) {
        None
    }

    fn handle_successful_response(&self, body: String) -> (r: Result<String, String>) {
        Ok(joined("Added ", self.uri.as_str(), " to queue"))
    }
}

/// Why an action did not produce its result.
pub enum ActionError {
    /// The request could not be sent or the response could not be read.
    Transport(String),
    /// The device answered with a non-success status and an error code.
    DeviceFault { status: u16, code: String, details: String },
    /// The device answered with a non-success status and no readable code.
    MalformedFault { status: u16, reason: String },
    /// The device answered with success, but the payload could not be read.
    Content(String),
    /// The request envelope could not be built.
    Encoding(String),
}

/// The elaboration of a device error code: the action's own hint where it
/// has one, a generic message with the raw code otherwise.
pub open spec fn fault_details<A: Action>(action: &A, code: Seq<char>) -> Seq<char> {
    match action.spec_hint(code) {
        Some(h) => h,
        None => "device error code "@ + code,
    }
}

/// The text shown for an action error.
pub open spec fn error_text(e: ActionError) -> Seq<char> {
    match e {
        ActionError::Transport(m) => "Error sending request: "@ + m@,
        ActionError::DeviceFault { status, details, .. } => "Speaker responded with "@ + decimal(
            status as nat,
        ) + "\n"@ + details@,
        ActionError::MalformedFault { status, reason } => "Speaker responded with "@ + decimal(
            status as nat,
        ) + ":\nA more specific error code could not be found: "@ + reason@,
        ActionError::Content(m) => m@,
        ActionError::Encoding(m) => m@,
    }
}

impl ActionError {
    /// The text shown for this error.
    pub fn message(&self) -> (r: String)
        ensures
            r@ == error_text(*self),
    {
        proof {
            reveal_strlit("");
        }
        match self {
            ActionError::Transport(m) => {
                let s = joined("Error sending request: ", m.as_str(), "");
                assert(s@ =~= "Error sending request: "@ + m@);
                s
            },
            ActionError::DeviceFault { status, details, .. } => {
                let code = string_of(decimal_of(*status as u64).as_slice());
                let mut s = joined("Speaker responded with ", code.as_str(), "\n");
                s.append(details.as_str());
                s
            },
            ActionError::MalformedFault { status, reason } => {
                let code = string_of(decimal_of(*status as u64).as_slice());
                let mut s = joined(
                    "Speaker responded with ",
                    code.as_str(),
                    ":\nA more specific error code could not be found: ",
                );
                s.append(reason.as_str());
                s
            },
            ActionError::Content(m) => m.clone(),
            ActionError::Encoding(m) => m.clone(),
        }
    }
}

/// Elaborates a device error code for `action` (see [`fault_details`]).
pub fn fault_details_of<A: Action>(action: &A, code: &str) -> (r: String)
    ensures
        r@ == fault_details(action, code@),
{
    match action.handle_sonos_err_code(code) {
        Some(h) => h,
        None => {
            proof {
                reveal_strlit("");
            }
            joined("device error code ", code, "")
        },
    }
}

/// Classifies a device's answer to `action`: a success status hands the body
/// to the action's own reader, any other status is a device fault with the
/// code the body carries, or a malformed fault where it carries none.
pub fn res_to_output<A: Action>(action: &A, status: u16, body: String) -> (r: Result<
    A::Output,
    ActionError,
>)
    ensures
        status == 200 ==> match action.spec_result(body@) {
            Ok(v) => r matches Ok(o) && o@ == v,
            Err(m) => (r matches Err(ActionError::Content(e)) && e@ == m),
        },
        status != 200 ==> match error_code_response(action, body@) {
            Some(code) => (r matches Err(
                ActionError::DeviceFault { status: s, code: c, details: d },
            ) && s == status && c@ == code && d@ == fault_details(action, code)),
            None => (r matches Err(ActionError::MalformedFault { status: s, reason }) && s == status
                && error_code_result(action, body@) == Err::<Seq<char>, Seq<char>>(reason@)),
        },
{
    if status == 200 {
        match action.handle_successful_response(body) {
            Ok(o) => Ok(o),
            Err(e) => Err(ActionError::Content(e)),
        }
    } else {
        match get_error_code(body, action) {
            Ok(code) => {
                let details = fault_details_of(action, code.as_str());
                Err(ActionError::DeviceFault { status, code, details })
            },
            Err(reason) => Err(ActionError::MalformedFault { status, reason }),
        }
    }
}

/// A device error code that an action has no hint for is reported as a
/// generic device error carrying the raw code.
pub proof fn lemma_unmapped_code_is_generic<A: Action>(action: &A, code: Seq<char>)
    requires
        action.spec_hint(code) is None,
    ensures
        fault_details(action, code) == "device error code "@ + code,
{
}

/// The numbered listing of queue items from index `k` on.
pub open spec fn listing_from(items: Seq<QueueItem>, k: int) -> Seq<char>
    decreases items.len() - k,
{
    if k < 0 || k >= items.len() {
        Seq::empty()
    } else {
        "\n-----\n"@ + decimal((k + 1) as nat) + ": "@ + items[k].text_view() + listing_from(
            items,
            k + 1,
        )
    }
}

impl Queue {
    /// `Queue:` followed by each track, numbered from 1, or a note that the
    /// queue is empty.
    pub open spec fn text_view(self) -> Seq<char> {
        if self.items@.len() == 0 {
            "No tracks found in queue"@
        } else {
            "Queue:"@ + listing_from(self.items@, 0)
        }
    }

    pub fn to_text(&self) -> (r: String)
        ensures
            r@ == self.text_view(),
    {
        if self.items.len() == 0 {
            return message("No tracks found in queue");
        }
        let mut s = message("Queue:");
        let mut k: usize = 0;
        while k < self.items.len()
            invariant
                k <= self.items@.len(),
                s@ + listing_from(self.items@, k as int) == "Queue:"@ + listing_from(
                    self.items@,
                    0,
                ),
            decreases self.items@.len() - k,
        {
            let ghost before = s@;
            let index = string_of(decimal_of((k + 1) as u64).as_slice());
            s.append("\n-----\n");
            s.append(index.as_str());
            s.append(": ");
            s.append(self.items[k].to_text().as_str());
            assert(before + listing_from(self.items@, k as int) =~= s@ + listing_from(
                self.items@,
                k + 1,
            ));
            k = k + 1;
        }
        assert(s@ + listing_from(self.items@, k as int) =~= s@);
        s
    }
}

} // verus!
