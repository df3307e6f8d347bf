use vstd::prelude::*;

use crate::camera::Camera;
use crate::error::{camera_error_text, CameraError};

verus! {

/// What the operator's front end shows: the connected camera, the serial
/// devices on offer, and a status line.
pub struct UIState<C> {
    camera: Option<C>,
    ports: Option<Vec<String>>,
    status: String,
}

impl<C> UIState<C> {
    pub closed spec fn spec_camera(&self) -> Option<C> {
        self.camera
    }

    pub closed spec fn spec_ports(&self) -> Option<Seq<String>> {
        match self.ports {
            Some(p) => Some(p@),
            None => None,
        }
    }

    pub closed spec fn spec_status(&self) -> Seq<char> {
        self.status@
    }
}

impl<C: Camera> UIState<C> {
    /// No camera, no list of devices, an empty status.
    pub fn new() -> (r: Self)
        ensures
            r.spec_camera() is None,
            r.spec_ports() is None,
            r.spec_status() == Seq::<char>::empty(),
    {
        UIState { camera: None, ports: None, status: String::new() }
    }

    /// Drops the current camera, then opens the one at `path`, if any. When
    /// opening fails no camera is left connected.
    pub fn set_camera(&mut self, path: Option<&str>) -> (r: std::result::Result<(), CameraError>)
        ensures
            path is None ==> r is Ok && final(self).spec_camera() is None,
            path is Some ==> (r is Ok <==> final(self).spec_camera() is Some),
            final(self).spec_ports() == old(self).spec_ports(),
            final(self).spec_status() == old(self).spec_status(),
    {
        self.camera = None;
        if let Some(path) = path {
            let camera = C::new(path)?;
            self.camera = Some(camera);
        }
        Ok(())
    }

    /// The connected camera, or `NoPortSet`.
    pub fn camera(&mut self) -> (r: std::result::Result<&mut C, CameraError>)
        ensures
            old(self).spec_camera() is None ==> (r matches Err(CameraError::NoPortSet)
                && final(self).spec_camera() is None),
            old(self).spec_camera() is Some ==> (r is Ok && *r->Ok_0 == old(
                self,
            ).spec_camera()->Some_0),
            old(self).spec_camera() is Some ==> final(self).spec_camera() == Some(*final(r->Ok_0)),
            final(self).spec_ports() == old(self).spec_ports(),
            final(self).spec_status() == old(self).spec_status(),
    {
        match self.camera.as_mut() {
            Some(camera) => Ok(camera),
            None => Err(CameraError::NoPortSet),
        }
    }

    /// Replaces the status line; it always succeeds.
    pub fn set_status(&mut self, status: &str) -> (r: std::result::Result<(), CameraError>)
        ensures
            r is Ok,
            final(self).spec_status() == status@,
            final(self).spec_camera() == old(self).spec_camera(),
            final(self).spec_ports() == old(self).spec_ports(),
    {
        self.status = String::from_str(status);
        Ok(())
    }

    /// Shows whether a camera is connected: "Connected" or "Disconnected".
    pub fn show_connection(&mut self)
        ensures
            final(self).spec_status() == (if old(self).spec_camera() is Some {
                "Connected"@
            } else {
                "Disconnected"@
            }),
            final(self).spec_camera() == old(self).spec_camera(),
            final(self).spec_ports() == old(self).spec_ports(),
    {
        if self.camera.is_some() {
            self.status = String::from_str("Connected");
        } else {
            self.status = String::from_str("Disconnected");
        }
    }

    /// Shows how an operation ended: `done` when it succeeded, else
    /// "Error: " and the error's text.
    pub fn record_outcome(&mut self, outcome: &std::result::Result<(), CameraError>, done: &str)
        ensures
            outcome is Ok ==> final(self).spec_status() == done@,
            outcome matches Err(e) ==> final(self).spec_status().len() >= 7 &&
                final(self).spec_status().subrange(0, 7) == "Error: "@,
            (outcome matches Err(e) && camera_error_text(*e) is Some) ==> final(self).spec_status()
                == "Error: "@ + camera_error_text((*outcome)->Err_0)->Some_0,
            final(self).spec_camera() == old(self).spec_camera(),
            final(self).spec_ports() == old(self).spec_ports(),
    {
        match outcome {
            Ok(()) => {
                self.status = String::from_str(done);
            },
            Err(e) => {
                let text = e.message();
                let status = String::from_str("Error: ").concat(text.as_str());
                proof {
                    reveal_strlit("Error: ");
                    assert(status@.subrange(0, 7) == "Error: "@);
                }
                self.status = status;
            },
        }
    }

    /// Records the serial devices on offer.
    pub fn set_ports(&mut self, ports: Vec<String>)
        ensures
            final(self).spec_ports() == Some(ports@),
            final(self).spec_camera() == old(self).spec_camera(),
            final(self).spec_status() == old(self).spec_status(),
    {
        self.ports = Some(ports);
    }
}

/// A copy of a list of names.
fn copy_names(names: &Vec<String>) -> (r: Vec<String>)
    ensures
        r@ == names@,
{
    let mut out: Vec<String> = Vec::new();
    let mut i: usize = 0;
    while i < names.len()
        invariant
            i <= names@.len(),
            out@ == names@.subrange(0, i as int),
        decreases names@.len() - i,
    {
        out.push(names[i].clone());
        i = i + 1;
        assert(names@.subrange(0, i as int) == names@.subrange(0, i - 1 as int).push(
            names@[i - 1],
        ));
    }
    assert(names@.subrange(0, names@.len() as int) == names@);
    out
}

/// What the front end is sent after each change: the connected device's
/// name, the devices on offer and the status line.
#[derive(Debug)]
pub struct UIStateEvent {
    port: Option<String>,
    ports: Option<Vec<String>>,
    status: String,
}

impl UIStateEvent {
    /// The snapshot of `state`; the port is the camera's own name for its
    /// device, none when no camera is connected.
    pub fn new<C: Camera>(state: &mut UIState<C>) -> (r: UIStateEvent)
        ensures
            old(state).spec_camera() is None ==> r.spec_port() is None,
            r.spec_ports() == old(state).spec_ports(),
            r.spec_status() == old(state).spec_status(),
            final(state).spec_ports() == old(state).spec_ports(),
            final(state).spec_status() == old(state).spec_status(),
            final(state).spec_camera() is Some == old(state).spec_camera() is Some,
    {
        let port = match state.camera() {
            Ok(camera) => camera.name(),
            Err(_) => None,
        };
        let ports = match &state.ports {
            Some(names) => Some(copy_names(names)),
            None => None,
        };
        let status = state.status.clone();
        UIStateEvent { port, ports, status }
    }

    /// An event with the given fields.
    pub fn from_parts(port: Option<String>, ports: Option<Vec<String>>, status: String) -> (r:
        UIStateEvent)
        ensures
            r.spec_port() == (match port {
                Some(p) => Some(p@),
                None => None::<Seq<char>>,
            }),
            r.spec_ports() == (match ports {
                Some(p) => Some(p@),
                None => None::<Seq<String>>,
            }),
            r.spec_status() == status@,
    {
        UIStateEvent { port, ports, status }
    }

    pub closed spec fn spec_port(&self) -> Option<Seq<char>> {
        match self.port {
            Some(p) => Some(p@),
            None => None,
        }
    }

    pub closed spec fn spec_ports(&self) -> Option<Seq<String>> {
        match self.ports {
            Some(p) => Some(p@),
            None => None,
        }
    }

    pub closed spec fn spec_status(&self) -> Seq<char> {
        self.status@
    }

    /// The connected device's name.
    pub fn port(&self) -> (r: Option<String>)
        ensures
            match r {
                Some(p) => self.spec_port() == Some(p@),
                None => self.spec_port() is None,
            },
    {
        match &self.port {
            Some(name) => Some(name.clone()),
            None => None,
        }
    }

    /// The devices on offer.
    pub fn ports(&self) -> (r: Option<Vec<String>>)
        ensures
            match r {
                Some(p) => self.spec_ports() == Some(p@),
                None => self.spec_ports() is None,
            },
    {
        match &self.ports {
            Some(names) => Some(copy_names(names)),
            None => None,
        }
    }

    /// The status line.
    pub fn status(&self) -> (r: String)
        ensures
            r@ == self.spec_status(),
    {
        self.status.clone()
    }
}

} // verus!
