use sonosremote::control::{next_volume, parse_command, validate_volume_change, Command};

fn words(line: &str) -> Vec<String> {
    line.split(' ').map(|w| w.to_string()).collect()
}

#[test]
fn plain_commands() {
    assert!(matches!(parse_command(&words("play")), Ok(Command::Play)));
    assert!(matches!(parse_command(&words("pause")), Ok(Command::Pause)));
    assert!(matches!(parse_command(&words("queue")), Ok(Command::Queue)));
    assert!(matches!(parse_command(&words("clearqueue")), Ok(Command::ClearQueue)));
    assert!(matches!(parse_command(&words("help")), Ok(Command::Help)));
    assert!(matches!(parse_command(&words("info extra")), Ok(Command::Info)));
}

#[test]
fn commands_with_arguments() {
    match parse_command(&words("seturi x-file:a.mp3")) {
        Ok(Command::SetUri(u)) => assert_eq!(u, "x-file:a.mp3"),
        _ => panic!("expected seturi"),
    }
    match parse_command(&words("seek 0:01:00")) {
        Ok(Command::Seek(t)) => assert_eq!(t, "0:01:00"),
        _ => panic!("expected seek"),
    }
    match parse_command(&words("setvolume 30")) {
        Ok(Command::SetVolume(a)) => assert_eq!(a.get_volume(), 30),
        _ => panic!("expected setvolume"),
    }
    assert_eq!(parse_command(&words("seturi")).err().unwrap(), "must enter a URI");
    assert_eq!(parse_command(&words("seek")).err().unwrap(), "must provide a target time");
    assert_eq!(parse_command(&words("addtoqueue")).err().unwrap(), "must provide a URI");
    assert_eq!(parse_command(&words("setvolume")).err().unwrap(), "must provide volume");
    assert_eq!(parse_command(&words("setvolume loud")).err().unwrap(), "invalid volume");
    assert_eq!(parse_command(&words("setvolume 101")).err().unwrap(), "Volume out of range");
}

#[test]
fn unknown_commands() {
    assert_eq!(parse_command(&words("dance")).err().unwrap(), "invalid command");
    assert_eq!(parse_command(&words("")).err().unwrap(), "invalid command");
    assert!(parse_command(&Vec::new()).is_err());
}

#[test]
fn volume_ramp_steps() {
    assert!(validate_volume_change(100).is_ok());
    assert!(validate_volume_change(-100).is_ok());
    assert!(validate_volume_change(101).is_err());
    assert!(validate_volume_change(-101).is_err());
    assert_eq!(next_volume(50, 5), Some(55));
    assert_eq!(next_volume(50, -50), Some(0));
    assert_eq!(next_volume(3, -5), None);
    assert_eq!(next_volume(98, 5), None);
    assert_eq!(next_volume(95, 5), Some(100));
}
