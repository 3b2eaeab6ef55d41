//! The UPnP services of a device: each has a fixed name and control endpoint.
use vstd::prelude::*;

verus! {

/// A UPnP service category, as a tag.
#[derive(Clone, Copy, Debug, PartialEq, Eq, Structural)]
pub enum ServiceKind {
    AVTransport,
    ContentDirectory,
    RenderingControl,
}

/// The name of a service category.
pub open spec fn service_name(kind: ServiceKind) -> Seq<char> {
    match kind {
        ServiceKind::AVTransport => "AVTransport:1"@,
        ServiceKind::ContentDirectory => "ContentDirectory:1"@,
        ServiceKind::RenderingControl => "RenderingControl:1"@,
    }
}

/// The control endpoint (a URL path) of a service category.
pub open spec fn service_endpoint(kind: ServiceKind) -> Seq<char> {
    match kind {
        ServiceKind::AVTransport => "/MediaRenderer/AVTransport/Control"@,
        ServiceKind::ContentDirectory => "/MediaServer/ContentDirectory/Control"@,
        ServiceKind::RenderingControl => "/MediaRenderer/RenderingControl/Control"@,
    }
}

/// A service's metadata: its name and its control endpoint.
pub trait Service {
    spec fn kind(&self) -> ServiceKind;

    fn get_name(&self) -> (r: &'static str)
        ensures
            r@ == service_name(self.kind()),
    ;

    fn get_endpoint(&self) -> (r: &'static str)
        ensures
            r@ == service_endpoint(self.kind()),
    ;
}

impl Service for ServiceKind {
    open spec fn kind(&self) -> ServiceKind {
        *self
    }

    fn get_name(&self) -> (r: &'static str) {
        match self {
            ServiceKind::AVTransport => "AVTransport:1",
            ServiceKind::ContentDirectory => "ContentDirectory:1",
            ServiceKind::RenderingControl => "RenderingControl:1",
        }
    }

    fn get_endpoint(&self) -> (r: &'static str) {
        match self {
            ServiceKind::AVTransport => "/MediaRenderer/AVTransport/Control",
            ServiceKind::ContentDirectory => "/MediaServer/ContentDirectory/Control",
            ServiceKind::RenderingControl => "/MediaRenderer/RenderingControl/Control",
        }
    }
}

/// The transport service: playback, seeking, the current track and queue
/// editing.
pub struct AVTransport;

impl Service for AVTransport {
    open spec fn kind(&self) -> ServiceKind {
        ServiceKind::AVTransport
    }

    fn get_name(&self) -> (r: &'static str) {
        ServiceKind::AVTransport.get_name()
    }

    fn get_endpoint(&self) -> (r: &'static str) {
        ServiceKind::AVTransport.get_endpoint()
    }
}

/// The content service: browsing the queue.
pub struct ContentDirectory;

impl Service for ContentDirectory {
    open spec fn kind(&self) -> ServiceKind {
        ServiceKind::ContentDirectory
    }

    fn get_name(&self) -> (r: &'static str) {
        ServiceKind::ContentDirectory.get_name()
    }

    fn get_endpoint(&self) -> (r: &'static str) {
        ServiceKind::ContentDirectory.get_endpoint()
    }
}

/// The rendering service: volume.
pub struct RenderingControl;

impl Service for RenderingControl {
    open spec fn kind(&self) -> ServiceKind {
        ServiceKind::RenderingControl
    }

    fn get_name(&self) -> (r: &'static str) {
        ServiceKind::RenderingControl.get_name()
    }

    fn get_endpoint(&self) -> (r: &'static str) {
        ServiceKind::RenderingControl.get_endpoint()
    }
}

} // verus!
