//! Typed payload parsers: each cleans a response body, parses it, and reads
//! the fields it needs by bare tag name.
use vstd::prelude::*;
use crate::actions::{Action, GetCurrentTrackInfo, GetQueue, GetStatus, GetVolume};
use crate::codec::{clean_meta_data, general_clean, general_cleaned, metadata_cleaned};
use crate::services::{service_name, Service};
use crate::xml::{document_nodes, parsed_document};
use crate::xml::{
    attribute_of, attribute_value, find_tag, find_tag_in, is_tag, nodes_view, optional_text,
    parse_nodes, required_text, subtree_end, subtree_end_of, NodeView, XmlNode,
};

verus! {

/// What the device reports of the track it is playing.
pub struct CurrentData {
    pub position: String,
    pub duration: String,
    pub uri: String,
    pub title: Option<String>,
    pub artist: Option<String>,
}

pub struct CurrentDataView {
    pub position: Seq<char>,
    pub duration: Seq<char>,
    pub uri: Seq<char>,
    pub title: Option<Seq<char>>,
    pub artist: Option<Seq<char>>,
}

impl View for CurrentData {
    type V = CurrentDataView;

    open spec fn view(&self) -> CurrentDataView {
        CurrentDataView {
            position: self.position@,
            duration: self.duration@,
            uri: self.uri@,
            title: self.title.deep_view(),
            artist: self.artist.deep_view(),
        }
    }
}

/// The transport state and status that the device reports.
pub struct PlaybackStatus {
    pub state: String,
    pub status: String,
}

impl View for PlaybackStatus {
    type V = (Seq<char>, Seq<char>);

    open spec fn view(&self) -> (Seq<char>, Seq<char>) {
        (self.state@, self.status@)
    }
}

/// One track of the queue.
pub struct QueueItem {
    pub duration: Option<String>,
    pub uri: String,
    pub title: Option<String>,
    pub artist: Option<String>,
}

pub struct QueueItemView {
    pub duration: Option<Seq<char>>,
    pub uri: Seq<char>,
    pub title: Option<Seq<char>>,
    pub artist: Option<Seq<char>>,
}

impl View for QueueItem {
    type V = QueueItemView;

    open spec fn view(&self) -> QueueItemView {
        QueueItemView {
            duration: self.duration.deep_view(),
            uri: self.uri@,
            title: self.title.deep_view(),
            artist: self.artist.deep_view(),
        }
    }
}

/// The duration the device reports when another source holds the transport
/// and no track data is available.
pub open spec fn unavailable_duration() -> Seq<char> {
    "NOT_IMPLEMENTED"@
}

/// The current track read from a parsed position-info response; the error
/// names the first missing required field, or reports the unavailable marker.
pub open spec fn current_track_of(nodes: Seq<NodeView>) -> Result<CurrentDataView, Seq<char>> {
    let n = nodes.len() as int;
    match required_result(nodes, "TrackDuration"@, 0, n, "No duration found"@) {
        Err(m) => Err(m),
        Ok(duration) => if duration == unavailable_duration() {
            Err("Unable to fetch current track data"@)
        } else {
            match required_result(nodes, "TrackURI"@, 0, n, "No track found"@) {
                Err(m) => Err(m),
                Ok(uri) => match required_result(nodes, "RelTime"@, 0, n, "No position found"@) {
                    Err(m) => Err(m),
                    Ok(position) => Ok(
                        CurrentDataView {
                            position,
                            duration,
                            uri,
                            title: optional_text(nodes, "title"@, 0, n),
                            artist: optional_text(nodes, "albumArtist"@, 0, n),
                        },
                    ),
                },
            }
        },
    }
}

/// The playback status read from a parsed transport-info response.
pub open spec fn status_of(nodes: Seq<NodeView>) -> Result<(Seq<char>, Seq<char>), Seq<char>> {
    let n = nodes.len() as int;
    match required_result(nodes, "CurrentTransportState"@, 0, n, "No state found"@) {
        Err(m) => Err(m),
        Ok(state) => match required_result(
            nodes,
            "CurrentTransportStatus"@,
            0,
            n,
            "No status found"@,
        ) {
            Err(m) => Err(m),
            Ok(status) => Ok((state, status)),
        },
    }
}

/// The text of the first element named `name` in a parsed document.
pub open spec fn field_of(nodes: Seq<NodeView>, name: Seq<char>) -> Option<Seq<char>> {
    required_text(nodes, name, 0, nodes.len() as int)
}

/// The queue item that the `item` element at index `i` describes: its `res`
/// element is required and gives the URI (its text) and the duration (its
/// `duration` attribute); title and artist are optional.
pub open spec fn queue_item_at(nodes: Seq<NodeView>, i: int) -> Result<QueueItemView, Seq<char>> {
    let end = subtree_end(nodes, i);
    match find_tag(nodes, "res"@, i, end) {
        None => Err("'res' tag not found"@),
        Some(r) => match nodes[r].text {
            Some(uri) => Ok(
                QueueItemView {
                    duration: attribute_value(nodes[r].attributes, "duration"@),
                    uri,
                    title: optional_text(nodes, "title"@, i, end),
                    artist: optional_text(nodes, "albumArtist"@, i, end),
                },
            ),
            None => Err("No URI found"@),
        },
    }
}

/// The queue items of the `item` elements at index `k` or later, in
/// document order; the first malformed one gives the error.
pub open spec fn queue_from(nodes: Seq<NodeView>, k: int) -> Result<Seq<QueueItemView>, Seq<char>>
    decreases nodes.len() - k,
{
    if k < 0 || k >= nodes.len() {
        Ok(Seq::empty())
    } else if is_tag(nodes[k], "item"@) {
        match queue_item_at(nodes, k) {
            Err(m) => Err(m),
            Ok(q) => match queue_from(nodes, k + 1) {
                Err(m) => Err(m),
                Ok(rest) => Ok(seq![q] + rest),
            },
        }
    } else {
        queue_from(nodes, k + 1)
    }
}

/// The number of `item` elements at index `k` or later.
pub open spec fn item_count(nodes: Seq<NodeView>, k: int) -> nat
    decreases nodes.len() - k,
{
    if k < 0 || k >= nodes.len() {
        0
    } else if is_tag(nodes[k], "item"@) {
        1 + item_count(nodes, k + 1)
    } else {
        item_count(nodes, k + 1)
    }
}

/// The text that a position-info response is parsed from.
pub open spec fn track_response_text(xml: Seq<char>) -> Seq<char> {
    metadata_cleaned(general_cleaned(xml, "GetPositionInfo"@, "AVTransport:1"@))
}

/// The text that a queue (browse) response is parsed from.
pub open spec fn queue_response_text(xml: Seq<char>) -> Seq<char> {
    metadata_cleaned(general_cleaned(xml, "Browse"@, "ContentDirectory:1"@))
}

proof fn lemma_nodes_view(a: Seq<XmlNode>)
    ensures
        nodes_view(a).len() == a.len(),
        forall|i: int| 0 <= i < a.len() ==> #[trigger] nodes_view(a)[i] == a[i]@,
{
}

/// The first element named `tag_name` in the document.
pub fn get_tag_by_name(nodes: &Vec<XmlNode>, tag_name: &str) -> (r: Result<usize, String>)
    ensures
        match r {
            Ok(i) => find_tag(nodes_view(nodes@), tag_name@, 0, nodes@.len() as int) == Some(
                i as int,
            ) && i < nodes@.len(),
            Err(e) => find_tag(nodes_view(nodes@), tag_name@, 0, nodes@.len() as int) is None
                && e@ == "'"@ + tag_name@ + "' tag not found"@,
        },
{
    match find_tag_in(nodes, tag_name, 0, nodes.len()) {
        Some(i) => Ok(i),
        None => {
            let mut e = String::from_str("'");
            e.append(tag_name);
            e.append("' tag not found");
            Err(e)
        },
    }
}

/// The text of a node, or the error `err` where it has none.
pub fn get_text(tag: &XmlNode, err: &str) -> (r: Result<String, String>)
    ensures
        match r {
            Ok(t) => tag.text matches Some(s) && t@ == s@,
            Err(e) => tag.text is None && e@ == err@,
        },
{
    match &tag.text {
        Some(t) => Ok(t.clone()),
        None => Err(String::from_str(err)),
    }
}

/// A required field: the text of the first element named `name` in
/// `lo .. hi`; the error names the tag where there is no such element, and is
/// `err` where it has no text.
pub open spec fn required_result(
    nodes: Seq<NodeView>,
    name: Seq<char>,
    lo: int,
    hi: int,
    err: Seq<char>,
) -> Result<Seq<char>, Seq<char>> {
    match find_tag(nodes, name, lo, hi) {
        Some(i) => match nodes[i].text {
            Some(t) => Ok(t),
            None => Err(err),
        },
        None => Err("'"@ + name + "' tag not found"@),
    }
}

/// The text of the first element named `name` in `lo .. hi`.
fn required_in(nodes: &Vec<XmlNode>, name: &str, lo: usize, hi: usize, err: &str) -> (r: Result<
    String,
    String,
>)
    ensures
        match required_result(nodes_view(nodes@), name@, lo as int, hi as int, err@) {
            Ok(t) => r matches Ok(s) && s@ == t,
            Err(m) => r matches Err(e) && e@ == m,
        },
{
    proof {
        lemma_nodes_view(nodes@);
    }
    match find_tag_in(nodes, name, lo, hi) {
        Some(i) => get_text(&nodes[i], err),
        None => {
            let mut e = String::from_str("'");
            e.append(name);
            e.append("' tag not found");
            Err(e)
        },
    }
}

/// An optional field: the text of the first element named `name` in
/// `lo .. hi`, or `None` where there is no such element or it has no text.
fn optional_in(nodes: &Vec<XmlNode>, name: &str, lo: usize, hi: usize) -> (r: Option<String>)
    ensures
        r.deep_view() == optional_text(nodes_view(nodes@), name@, lo as int, hi as int),
{
    proof {
        lemma_nodes_view(nodes@);
    }
    match find_tag_in(nodes, name, lo, hi) {
        Some(i) => match &nodes[i].text {
            Some(t) => Some(t.clone()),
            None => None,
        },
        None => None,
    }
}

/// Reads the current track from a parsed position-info response.
pub fn current_from_nodes(nodes: &Vec<XmlNode>) -> (r: Result<CurrentData, String>)
    ensures
        match current_track_of(nodes_view(nodes@)) {
            Ok(d) => r matches Ok(c) && c@ == d,
            Err(m) => r matches Err(e) && e@ == m,
        },
{
    let n = nodes.len();
    let duration = match required_in(nodes, "TrackDuration", 0, n, "No duration found") {
        Ok(d) => d,
        Err(e) => return Err(e),
    };
    if duration == String::from_str("NOT_IMPLEMENTED") {
        return Err(String::from_str("Unable to fetch current track data"));
    }
    let uri = match required_in(nodes, "TrackURI", 0, n, "No track found") {
        Ok(u) => u,
        Err(e) => return Err(e),
    };
    let title = optional_in(nodes, "title", 0, n);
    let artist = optional_in(nodes, "albumArtist", 0, n);
    let position = match required_in(nodes, "RelTime", 0, n, "No position found") {
        Ok(p) => p,
        Err(e) => return Err(e),
    };
    Ok(CurrentData { position, duration, uri, title, artist })
}

/// The text that a response to `action` is parsed from after the SOAP
/// framing pass.
pub open spec fn framing_cleaned<A: Action>(action: &A, xml: Seq<char>) -> Seq<char> {
    general_cleaned(xml, action.spec_name(), service_name(action.spec_service()))
}

/// The error text of a response that does not parse.
pub open spec fn parse_error(e: Seq<char>) -> Seq<char> {
    "Error parsing xml: "@ + e
}

/// The current track that a position-info response body carries.
pub open spec fn current_response(xml: Seq<char>) -> Result<CurrentDataView, Seq<char>> {
    match parsed_document(track_response_text(xml)) {
        Ok(nodes) => current_track_of(nodes),
        Err(e) => Err(parse_error(e)),
    }
}

/// The playback status that a transport-info response body carries.
pub open spec fn status_response(xml: Seq<char>) -> Result<(Seq<char>, Seq<char>), Seq<char>> {
    match parsed_document(general_cleaned(xml, "GetTransportInfo"@, "AVTransport:1"@)) {
        Ok(nodes) => status_of(nodes),
        Err(e) => Err(parse_error(e)),
    }
}

/// The volume text that a volume response body carries.
pub open spec fn volume_response(xml: Seq<char>) -> Result<Seq<char>, Seq<char>> {
    match parsed_document(general_cleaned(xml, "GetVolume"@, "RenderingControl:1"@)) {
        Ok(nodes) => required_result(
            nodes,
            "CurrentVolume"@,
            0,
            nodes.len() as int,
            "No volume found"@,
        ),
        Err(e) => Err(parse_error(e)),
    }
}

/// The queue that a browse response body carries.
pub open spec fn queue_response(xml: Seq<char>) -> Result<Seq<QueueItemView>, Seq<char>> {
    match parsed_document(queue_response_text(xml)) {
        Ok(nodes) => queue_from(nodes, 0),
        Err(e) => Err(parse_error(e)),
    }
}

/// The device error code that a fault response to `action` carries.
pub open spec fn error_code_response<A: Action>(action: &A, xml: Seq<char>) -> Option<Seq<char>> {
    match error_code_result(action, xml) {
        Ok(code) => Some(code),
        Err(_) => None,
    }
}

/// What reading the device error code of a fault response to `action` gives:
/// the code, or the reason none could be read.
pub open spec fn error_code_result<A: Action>(action: &A, xml: Seq<char>) -> Result<
    Seq<char>,
    Seq<char>,
> {
    match parsed_document(framing_cleaned(action, xml)) {
        Ok(nodes) => required_result(
            nodes,
            "errorCode"@,
            0,
            nodes.len() as int,
            "Could not find error code"@,
        ),
        Err(e) => Err(parse_error(e)),
    }
}

/// Parses (cleaned) response text into its nodes, reporting a malformed
/// document as an error.
pub fn parse_document(text: String) -> (r: Result<Vec<XmlNode>, String>)
    ensures
        match parsed_document(text@) {
            Ok(nodes) => r matches Ok(v) && nodes_view(v@) == nodes,
            Err(m) => r matches Err(e) && e@ == parse_error(m),
        },
{
    match parse_nodes(text.as_str()) {
        Ok(v) => Ok(v),
        Err(e) => {
            let mut m = String::from_str("Error parsing xml: ");
            m.append(e.as_str());
            Err(m)
        },
    }
}

/// Reads the current track from a position-info response body.
pub fn parse_current(xml: String, action: &GetCurrentTrackInfo) -> (r: Result<CurrentData, String>)
    ensures
        match current_response(xml@) {
            Ok(d) => r matches Ok(c) && c@ == d,
            Err(m) => r matches Err(e) && e@ == m,
        },
{
    let cleaned = clean_meta_data(
        general_clean(xml, action.get_action_name(), action.get_service().get_name()),
    );
    match parse_document(cleaned) {
        Ok(nodes) => current_from_nodes(&nodes),
        Err(e) => Err(e),
    }
}

/// Reads the volume text from a volume response body.
pub fn parse_getvolume(xml: String, action: &GetVolume) -> (r: Result<String, String>)
    ensures
        match volume_response(xml@) {
            Ok(v) => r matches Ok(s) && s@ == v,
            Err(m) => r matches Err(e) && e@ == m,
        },
{
    let cleaned = general_clean(xml, action.get_action_name(), action.get_service().get_name());
    match parse_document(cleaned) {
        Ok(nodes) => field_from_nodes(&nodes, "CurrentVolume", "No volume found"),
        Err(e) => Err(e),
    }
}

/// Reads the playback status from a transport-info response body.
pub fn parse_status(xml: String, action: &GetStatus) -> (r: Result<PlaybackStatus, String>)
    ensures
        match status_response(xml@) {
            Ok(st) => r matches Ok(p) && p@ == st,
            Err(m) => r matches Err(e) && e@ == m,
        },
{
    let cleaned = general_clean(xml, action.get_action_name(), action.get_service().get_name());
    match parse_document(cleaned) {
        Ok(nodes) => status_from_nodes(&nodes),
        Err(e) => Err(e),
    }
}

/// Reads the queue from a browse response body.
pub fn parse_queue(xml: String, action: &GetQueue) -> (r: Result<Vec<QueueItem>, String>)
    ensures
        match queue_response(xml@) {
            Ok(items) => r matches Ok(v) && v@.map_values(|q: QueueItem| q@) == items,
            Err(m) => r matches Err(e) && e@ == m,
        },
{
    let cleaned = clean_meta_data(
        general_clean(xml, action.get_action_name(), action.get_service().get_name()),
    );
    match parse_document(cleaned) {
        Ok(nodes) => queue_from_nodes(&nodes),
        Err(e) => Err(e),
    }
}

/// Reads the device error code from a fault response to `action`.
pub fn get_error_code<A: Action>(xml: String, action: &A) -> (r: Result<String, String>)
    ensures
        match error_code_result(action, xml@) {
            Ok(c) => r matches Ok(s) && s@ == c,
            Err(m) => r matches Err(e) && e@ == m,
        },
{
    let cleaned = general_clean(xml, action.get_action_name(), action.get_service().get_name());
    match parse_document(cleaned) {
        Ok(nodes) => field_from_nodes(&nodes, "errorCode", "Could not find error code"),
        Err(e) => Err(e),
    }
}

/// Reads the playback status from a parsed transport-info response.
pub fn status_from_nodes(nodes: &Vec<XmlNode>) -> (r: Result<PlaybackStatus, String>)
    ensures
        match status_of(nodes_view(nodes@)) {
            Ok(st) => r matches Ok(p) && p@ == st,
            Err(m) => r matches Err(e) && e@ == m,
        },
{
    let n = nodes.len();
    let state = match required_in(nodes, "CurrentTransportState", 0, n, "No state found") {
        Ok(s) => s,
        Err(e) => return Err(e),
    };
    let status = match required_in(nodes, "CurrentTransportStatus", 0, n, "No status found") {
        Ok(s) => s,
        Err(e) => return Err(e),
    };
    Ok(PlaybackStatus { state, status })
}

/// Reads the text of the first element named `name` from a parsed response;
/// `err` is the error where that element has no text.
pub fn field_from_nodes(nodes: &Vec<XmlNode>, name: &str, err: &str) -> (r: Result<String, String>)
    ensures
        match required_result(nodes_view(nodes@), name@, 0, nodes@.len() as int, err@) {
            Ok(t) => r matches Ok(s) && s@ == t && field_of(nodes_view(nodes@), name@) == Some(t),
            Err(m) => r matches Err(e) && e@ == m && field_of(nodes_view(nodes@), name@) is None,
        },
{
    required_in(nodes, name, 0, nodes.len(), err)
}

/// Reads the queue item that the `item` element at index `i` describes.
pub fn parse_queue_item(nodes: &Vec<XmlNode>, i: usize) -> (r: Result<QueueItem, String>)
    requires
        i < nodes@.len(),
    ensures
        match queue_item_at(nodes_view(nodes@), i as int) {
            Ok(q) => r matches Ok(item) && item@ == q,
            Err(m) => r matches Err(e) && e@ == m,
        },
{
    proof {
        lemma_nodes_view(nodes@);
    }
    let end = subtree_end_of(nodes, i);
    let res = match find_tag_in(nodes, "res", i, end) {
        Some(r) => r,
        None => return Err(String::from_str("'res' tag not found")),
    };
    let title = optional_in(nodes, "title", i, end);
    let artist = optional_in(nodes, "albumArtist", i, end);
    let duration = attribute_of(&nodes[res].attributes, "duration");
    let uri = match get_text(&nodes[res], "No URI found") {
        Ok(u) => u,
        Err(e) => return Err(e),
    };
    Ok(QueueItem { duration, uri, title, artist })
}

/// `rest` with the items `done` in front, where `rest` is a success.
pub open spec fn prepend_items(
    done: Seq<QueueItemView>,
    rest: Result<Seq<QueueItemView>, Seq<char>>,
) -> Result<Seq<QueueItemView>, Seq<char>> {
    match rest {
        Ok(r) => Ok(done + r),
        Err(m) => Err(m),
    }
}

/// Reads every `item` element of a parsed browse response, in document
/// order; the first malformed item fails the whole queue.
pub fn queue_from_nodes(nodes: &Vec<XmlNode>) -> (r: Result<Vec<QueueItem>, String>)
    ensures
        match queue_from(nodes_view(nodes@), 0) {
            Ok(items) => r matches Ok(v) && v@.map_values(|q: QueueItem| q@) == items,
            Err(m) => r matches Err(e) && e@ == m,
        },
{
    proof {
        lemma_nodes_view(nodes@);
    }
    let ghost view = nodes_view(nodes@);
    let wanted = String::from_str("item");
    let mut items: Vec<QueueItem> = Vec::new();
    let mut k: usize = 0;
    proof {
        match queue_from(view, 0) {
            Ok(all) => {
                assert(items@.map_values(|q: QueueItem| q@) + all =~= all);
            },
            Err(_) => {},
        }
    }
    while k < nodes.len()
        invariant
            k <= nodes@.len(),
            view == nodes_view(nodes@),
            view.len() == nodes@.len(),
            wanted@ == "item"@,
            queue_from(view, 0) == prepend_items(
                items@.map_values(|q: QueueItem| q@),
                queue_from(view, k as int),
            ),
        decreases nodes@.len() - k,
    {
        let ghost done = items@.map_values(|q: QueueItem| q@);
        assert(view[k as int] == nodes@[k as int]@);
        if nodes[k].is_element && nodes[k].name == wanted {
            match parse_queue_item(nodes, k) {
                Ok(item) => {
                    items.push(item);
                    proof {
                        let q = queue_item_at(view, k as int)->Ok_0;
                        assert(items@.map_values(|q: QueueItem| q@) =~= done.push(q));
                        match queue_from(view, k + 1) {
                            Ok(rest) => {
                                assert(done + (seq![q] + rest) =~= done.push(q) + rest);
                            },
                            Err(_) => {},
                        }
                    }
                },
                Err(e) => return Err(e),
            }
        }
        k = k + 1;
    }
    proof {
        let done = items@.map_values(|q: QueueItem| q@);
        assert(done + Seq::<QueueItemView>::empty() =~= done);
    }
    Ok(items)
}

/// A position-info response whose (cleaned and parsed) track duration is the
/// unavailable marker fails to read as a current track, whatever else it
/// holds.
pub proof fn lemma_unavailable_track_fails(body: Seq<char>)
    requires
        document_nodes(track_response_text(body)) matches Some(nodes) && field_of(
            nodes,
            "TrackDuration"@,
        ) == Some(unavailable_duration()),
    ensures
        current_response(body) is Err,
{
}

proof fn lemma_queue_fails_before(nodes: Seq<NodeView>, j: int, k: int)
    requires
        0 <= j <= k < nodes.len(),
        queue_from(nodes, k) is Err,
    ensures
        queue_from(nodes, j) is Err,
    decreases k - j,
{
    if j < k {
        lemma_queue_fails_before(nodes, j + 1, k);
    }
}

/// One `item` element without a `res` element in its subtree fails the whole
/// queue of a browse response.
pub proof fn lemma_item_without_res_fails(body: Seq<char>, k: int)
    requires
        document_nodes(queue_response_text(body)) matches Some(nodes) && 0 <= k < nodes.len()
            && is_tag(nodes[k], "item"@) && find_tag(nodes, "res"@, k, subtree_end(nodes, k)) is None,
    ensures
        queue_response(body) is Err,
{
    let nodes = document_nodes(queue_response_text(body))->Some_0;
    lemma_queue_fails_before(nodes, 0, k);
}

proof fn lemma_queue_length_from(nodes: Seq<NodeView>, k: int)
    requires
        0 <= k,
    ensures
        queue_from(nodes, k) matches Ok(items) ==> items.len() == item_count(nodes, k),
    decreases nodes.len() - k,
{
    if k < nodes.len() {
        lemma_queue_length_from(nodes, k + 1);
    }
}

/// A browse response that reads as a queue has exactly one record per `item`
/// element of its parsed document.
pub proof fn lemma_queue_length(body: Seq<char>)
    ensures
        queue_response(body) matches Ok(items) ==> (document_nodes(queue_response_text(body)) matches Some(
            nodes,
        ) && items.len() == item_count(nodes, 0)),
{
    if let Some(nodes) = document_nodes(queue_response_text(body)) {
        lemma_queue_length_from(nodes, 0);
    }
}

/// An optional field as shown: its text, or `None`.
pub open spec fn shown(o: Option<Seq<char>>) -> Seq<char> {
    match o {
        Some(t) => t,
        None => "None"@,
    }
}

fn show(o: &Option<String>) -> (r: String)
    ensures
        r@ == shown(o.deep_view()),
{
    match o {
        Some(t) => t.clone(),
        None => String::from_str("None"),
    }
}

/// `a`, `b`, `c`, `d` and `e` one after the other.
fn concat5(a: &str, b: &str, c: &str, d: &str, e: &str) -> (r: String)
    ensures
        r@ == a@ + b@ + c@ + d@ + e@,
{
    let mut s = String::from_str(a);
    s.append(b);
    s.append(c);
    s.append(d);
    s.append(e);
    s
}

impl CurrentData {
    /// `{title} by {artist}`, then the URI, then `Position: {position}/{duration}`.
    pub open spec fn text_view(self) -> Seq<char> {
        shown(self@.title) + " by "@ + shown(self@.artist) + "\nURI: "@ + self@.uri
            + "\nPosition: "@ + self@.position + "/"@ + self@.duration
    }

    pub fn to_text(&self) -> (r: String)
        ensures
            r@ == self.text_view(),
    {
        let mut s = concat5(
            show(&self.title).as_str(),
            " by ",
            show(&self.artist).as_str(),
            "\nURI: ",
            self.uri.as_str(),
        );
        let tail = concat5("\nPosition: ", self.position.as_str(), "/", self.duration.as_str(), "");
        s.append(tail.as_str());
        proof {
            reveal_strlit("");
        }
        assert(s@ =~= self.text_view());
        s
    }
}

impl PlaybackStatus {
    /// `{status}: {state}`.
    pub open spec fn text_view(self) -> Seq<char> {
        self.status@ + ": "@ + self.state@
    }

    pub fn to_text(&self) -> (r: String)
        ensures
            r@ == self.text_view(),
    {
        let s = concat5(self.status.as_str(), ": ", self.state.as_str(), "", "");
        proof {
            reveal_strlit("");
        }
        assert(s@ =~= self.text_view());
        s
    }
}

impl QueueItem {
    /// `{title} by {artist}`, then the URI, then `Duration: {duration}`.
    pub open spec fn text_view(self) -> Seq<char> {
        shown(self@.title) + " by "@ + shown(self@.artist) + "\nURI: "@ + self@.uri
            + "\nDuration: "@ + shown(self@.duration)
    }

    pub fn to_text(&self) -> (r: String)
        ensures
            r@ == self.text_view(),
    {
        let mut s = concat5(
            show(&self.title).as_str(),
            " by ",
            show(&self.artist).as_str(),
            "\nURI: ",
            self.uri.as_str(),
        );
        s.append("\nDuration: ");
        s.append(show(&self.duration).as_str());
        assert(s@ =~= self.text_view());
        s
    }
}

} // verus!
