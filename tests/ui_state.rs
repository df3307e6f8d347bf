use camera_control::{Camera, CameraError, Direction, UIState, UIStateEvent};

struct FakeCamera {
    path: String,
    powered: bool,
}

impl Camera for FakeCamera {
    fn new(path: &str) -> Result<Self, CameraError> {
        if path.is_empty() {
            Err(CameraError::NoPortSet)
        } else {
            Ok(FakeCamera { path: path.to_string(), powered: false })
        }
    }

    fn name(&self) -> Option<String> {
        Some(self.path.clone())
    }

    fn power_on(&mut self) -> Result<(), CameraError> {
        self.powered = true;
        Ok(())
    }

    fn power_off(&mut self) -> Result<(), CameraError> {
        self.powered = false;
        Ok(())
    }

    fn autofocus(&mut self, _state: bool) -> Result<(), CameraError> {
        Ok(())
    }

    fn zoom_in(&mut self) -> Result<(), CameraError> {
        Ok(())
    }

    fn zoom_out(&mut self) -> Result<(), CameraError> {
        Ok(())
    }

    fn pan_tilt(&mut self, _direction: Direction) -> Result<(), CameraError> {
        Ok(())
    }

    fn stop(&mut self) -> Result<(), CameraError> {
        Ok(())
    }

    fn set_preset(&mut self, _preset: u8) -> Result<(), CameraError> {
        Ok(())
    }

    fn go_to_preset(&mut self, _preset: u8) -> Result<(), CameraError> {
        Ok(())
    }
}

#[test]
fn camera_without_port_is_an_error() {
    let mut ui: UIState<FakeCamera> = UIState::new();
    assert!(matches!(ui.camera(), Err(CameraError::NoPortSet)));
    ui.show_connection();
    let event = UIStateEvent::new(&mut ui);
    assert_eq!(event.port(), None);
    assert_eq!(event.status(), "Disconnected");
    assert_eq!(event.ports(), None);
}

#[test]
fn camera_is_reachable_after_connecting() {
    let mut ui: UIState<FakeCamera> = UIState::new();
    ui.set_camera(Some("/dev/ttyUSB0")).unwrap();
    ui.camera().unwrap().power_on().unwrap();
    assert!(ui.camera().unwrap().powered);
    ui.show_connection();
    ui.set_ports(vec!["/dev/ttyUSB0".to_string(), "/dev/ttyS0".to_string()]);
    let event = UIStateEvent::new(&mut ui);
    assert_eq!(event.port(), Some("/dev/ttyUSB0".to_string()));
    assert_eq!(event.status(), "Connected");
    assert_eq!(event.ports(), Some(vec!["/dev/ttyUSB0".to_string(), "/dev/ttyS0".to_string()]));
}

#[test]
fn failed_open_leaves_no_camera() {
    let mut ui: UIState<FakeCamera> = UIState::new();
    ui.set_camera(Some("/dev/ttyUSB0")).unwrap();
    assert!(ui.set_camera(Some("")).is_err());
    assert!(matches!(ui.camera(), Err(CameraError::NoPortSet)));
    ui.set_camera(None).unwrap();
    assert!(ui.camera().is_err());
}

#[test]
fn status_is_replaced() {
    let mut ui: UIState<FakeCamera> = UIState::new();
    ui.set_status("Power on").unwrap();
    assert_eq!(UIStateEvent::new(&mut ui).status(), "Power on");
}

#[test]
fn direction_names() {
    assert_eq!(Direction::from_name("up"), Some(Direction::Up));
    assert_eq!(Direction::from_name("down"), Some(Direction::Down));
    assert_eq!(Direction::from_name("left"), Some(Direction::Left));
    assert_eq!(Direction::from_name("right"), Some(Direction::Right));
    assert_eq!(Direction::from_name("sideways"), None);
}

#[test]
fn outcome_sets_the_status() {
    let mut ui: UIState<FakeCamera> = UIState::new();
    ui.record_outcome(&Ok(()), "Done moving");
    assert_eq!(UIStateEvent::new(&mut ui).status(), "Done moving");
    let failed = ui.camera().map(|_| ());
    ui.record_outcome(&failed, "Power on");
    assert_eq!(UIStateEvent::new(&mut ui).status(), "Error: No port set");
}

#[test]
fn event_from_parts() {
    let event = UIStateEvent::from_parts(Some("COM3".to_string()), None, "Connected".to_string());
    assert_eq!(event.port(), Some("COM3".to_string()));
    assert_eq!(event.ports(), None);
    assert_eq!(event.status(), "Connected");
}
