//! A device's identity, and the requests and addresses derived from it.
use vstd::prelude::*;
use crate::actions::Action;
use crate::codec::{envelope_tree, generate_xml, rendered_document};
use crate::services::{service_endpoint, service_name, Service};
use crate::text::{
    chars_of, decimal, decimal_of, find_from, first_occurrence, lemma_first_occurrence_in_range,
    string_of,
};

verus! {


/// The path of the device description document.
pub const DESCRIPTION_ENDPOINT: &'static str = "/xml/device_description.xml";

/// An IPv4 address in dotted decimal.
pub open spec fn ip_text(ip: [u8; 4]) -> Seq<char> {
    decimal(ip@[0] as nat) + "."@ + decimal(ip@[1] as nat) + "."@ + decimal(ip@[2] as nat) + "."@
        + decimal(ip@[3] as nat)
}

/// The URL of `endpoint` on the device at `ip`.
pub open spec fn sonos_url(ip: [u8; 4], endpoint: Seq<char>) -> Seq<char> {
    "http://"@ + ip_text(ip) + ":1400"@ + endpoint
}

/// The device's unique identifier in its description document: the text
/// from the first `RINCON` up to the next `<`.
pub open spec fn uid_of(description: Seq<char>) -> Option<Seq<char>> {
    match first_occurrence(description, "RINCON"@, 0) {
        Some(b) => match first_occurrence(description, "<"@, b) {
            Some(e) => Some(description.subrange(b, e)),
            None => None,
        },
        None => None,
    }
}

/// The value of the `SOAPACTION` header of a request for `action` on
/// `service`.
pub open spec fn soap_action_header(service: Seq<char>, action: Seq<char>) -> Seq<char> {
    "urn:schemas-upnp-org:service:"@ + service + "#"@ + action
}

fn append_decimal(s: &mut String, n: u8)
    ensures
        final(s)@ == old(s)@ + decimal(n as nat),
{
    let d = string_of(decimal_of(n as u64).as_slice());
    s.append(d.as_str());
}

/// The URL of `endpoint` on the device at `ip`.
pub fn build_sonos_url(ip: [u8; 4], endpoint: &str) -> (r: String)
    ensures
        r@ == sonos_url(ip, endpoint@),
{
    let mut s = String::from_str("http://");
    append_decimal(&mut s, ip[0]);
    s.append(".");
    append_decimal(&mut s, ip[1]);
    s.append(".");
    append_decimal(&mut s, ip[2]);
    s.append(".");
    append_decimal(&mut s, ip[3]);
    s.append(":1400");
    s.append(endpoint);
    assert(s@ =~= sonos_url(ip, endpoint@));
    s
}

/// Finds the device's unique identifier in its description document.
pub fn extract_uid(description: &str) -> (r: Result<String, String>)
    ensures
        match uid_of(description@) {
            Some(u) => r matches Ok(s) && s@ == u,
            None => r matches Err(e) && (e@ == "Unable to find speaker uid"@ || e@
                == "Error extracting speaker uid"@),
        },
        first_occurrence(description@, "RINCON"@, 0) is None ==> (r matches Err(e) && e@
            == "Unable to find speaker uid"@),
{
    let text = chars_of(description);
    let begin = match find_from(&text, &chars_of("RINCON"), 0) {
        Some(b) => b,
        None => return Err(String::from_str("Unable to find speaker uid")),
    };
    proof {
        lemma_first_occurrence_in_range(text@, "RINCON"@, 0);
    }
    let end = match find_from(&text, &chars_of("<"), begin) {
        Some(e) => e,
        None => return Err(String::from_str("Error extracting speaker uid")),
    };
    proof {
        lemma_first_occurrence_in_range(text@, "<"@, begin as int);
    }
    let mut uid: Vec<char> = Vec::new();
    let mut i: usize = begin;
    while i < end
        invariant
            begin <= i <= end <= text@.len(),
            uid@ == text@.subrange(begin as int, i as int),
        decreases end - i,
    {
        uid.push(text[i]);
        i = i + 1;
        assert(uid@ =~= text@.subrange(begin as int, i as int));
    }
    Ok(string_of(uid.as_slice()))
}

/// A control request ready to send: where, with which `SOAPACTION` header,
/// and with which body.
pub struct SoapRequest {
    pub url: String,
    pub soap_action: String,
    pub body: Vec<u8>,
}

/// A connected device: its address and its unique identifier, fixed at
/// connection time.
pub struct Speaker {
    ip_addr: [u8; 4],
    uid: String,
}

impl Speaker {
    pub closed spec fn address(&self) -> [u8; 4] {
        self.ip_addr
    }

    pub closed spec fn uid_view(&self) -> Seq<char> {
        self.uid@
    }

    /// Connects to the device at `ip` from its answer to the description
    /// request: the status must be a success and the body must hold the
    /// device's identifier.
    pub fn new(ip: [u8; 4], status: u16, description: &str) -> (r: Result<Self, String>)
        ensures
            status != 200 ==> (r matches Err(e) && e@
                == "Device returned unsuccessful response: "@ + decimal(status as nat)),
            status == 200 ==> match uid_of(description@) {
                Some(u) => r matches Ok(s) && s.address() == ip && s.uid_view() == u,
                None => r is Err,
            },
    {
        if status != 200 {
            let mut m = String::from_str("Device returned unsuccessful response: ");
            let code = string_of(decimal_of(status as u64).as_slice());
            m.append(code.as_str());
            return Err(m);
        }
        match extract_uid(description) {
            Ok(uid) => Ok(Speaker { ip_addr: ip, uid }),
            Err(e) => Err(e),
        }
    }

    /// The device's identity, without a network round trip.
    pub fn get_info(&self) -> (r: String)
        ensures
            r@ == "UID: "@ + self.uid_view(),
    {
        let mut s = String::from_str("UID: ");
        s.append(self.uid.as_str());
        s
    }

    /// The URI of the device's own queue, for playing from it.
    pub fn queue_uri(&self) -> (r: String)
        ensures
            r@ == "x-rincon-queue:"@ + self.uid_view() + "#0"@,
    {
        let mut s = String::from_str("x-rincon-queue:");
        s.append(self.uid.as_str());
        s.append("#0");
        s
    }

    /// The URL of the device's description document.
    pub fn description_url(ip: [u8; 4]) -> (r: String)
        ensures
            r@ == sonos_url(ip, DESCRIPTION_ENDPOINT@),
    {
        build_sonos_url(ip, DESCRIPTION_ENDPOINT)
    }

    /// The request that carries `action` to this device; building it always
    /// succeeds.
    pub fn request<A: Action>(&self, action: &A) -> (r: Result<SoapRequest, String>)
        ensures
            r is Ok,
            r matches Ok(q) ==> {
                &&& q.url@ == sonos_url(self.address(), service_endpoint(action.spec_service()))
                &&& q.soap_action@ == soap_action_header(
                    service_name(action.spec_service()),
                    action.spec_name(),
                )
                &&& q.body@ == rendered_document(
                    envelope_tree(
                        action.spec_name(),
                        service_name(action.spec_service()),
                        action.spec_args(),
                    ),
                    "UTF-8"@,
                )
            },
    {
        let name = action.get_action_name();
        let service = action.get_service();
        let arguments = action.get_args_map();
        let url = build_sonos_url(self.ip_addr, service.get_endpoint());
        let body = match generate_xml(name, service.get_name(), &arguments) {
            Ok(b) => b,
            Err(e) => {
                let mut m = String::from_str("Error generating xml request: ");
                m.append(e.as_str());
                return Err(m);
            },
        };
        let mut soap_action = String::from_str("urn:schemas-upnp-org:service:");
        soap_action.append(service.get_name());
        soap_action.append("#");
        soap_action.append(name);
        Ok(SoapRequest { url, soap_action, body })
    }
}

} // verus!
