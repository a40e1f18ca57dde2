use serial_relay::forward::{Config, Convention, Direction, Session, Status};
use serial_relay::RelayError;

fn test_config() -> Config {
    Config { device_path: String::from("/dev/ttyACM0"), baud_rate: 921600 }
}

#[test]
fn console_to_device_reencodes_lines() {
    let mut d = Direction::new(Convention::Console);
    let out = d.on_read(&b"one\ntwo\n".to_vec());
    assert_eq!(out, b"one\r\ntwo\r\n".to_vec());
    assert!(d.is_running());
    assert!(d.buf.is_empty());
}

#[test]
fn device_to_console_reencodes_lines() {
    let mut d = Direction::new(Convention::Device);
    let out = d.on_read(&b"x\r\ny\r\n".to_vec());
    assert_eq!(out, b"x\ny\n".to_vec());
    assert!(d.is_running());
    assert!(d.buf.is_empty());
}

#[test]
fn direction_buffers_partial_frames() {
    let mut d = Direction::new(Convention::Console);
    let out = d.on_read(&b"par".to_vec());
    assert!(out.is_empty());
    assert!(d.is_running());
    assert_eq!(d.buf, b"par".to_vec());
    let out = d.on_read(&b"tial\nnext".to_vec());
    assert_eq!(out, b"partial\r\n".to_vec());
    assert_eq!(d.buf, b"next".to_vec());
}

#[test]
fn direction_keeps_lines_made_before_a_failure() {
    let mut d = Direction::new(Convention::Console);
    let out = d.on_read(&b"ok\n\x80\n".to_vec());
    assert_eq!(out, b"ok\r\n".to_vec());
    assert_eq!(d.status, Status::Failed(RelayError::Decode));
}

#[test]
fn eof_discards_unterminated_tail() {
    let mut d = Direction::new(Convention::Device);
    let out = d.on_read(&b"dangling".to_vec());
    assert!(out.is_empty());
    d.on_eof();
    assert_eq!(d.status, Status::Completed);
    assert!(d.buf.is_empty());
}

#[test]
fn session_reports_both_outcomes_after_eof() {
    let mut s = Session::new(test_config());
    let out = s.console_to_device.on_read(&b"hi\n".to_vec());
    assert_eq!(out, b"hi\r\n".to_vec());
    s.console_to_device.on_eof();
    assert!(!s.finished());
    assert!(s.device_to_console.is_running());
    s.device_to_console.on_eof();
    assert!(s.finished());
    assert_eq!(s.joint_result(), (Ok(()), Ok(())));
}

#[test]
fn session_failure_in_one_direction_spares_the_other() {
    let mut s = Session::new(test_config());
    let out = s.console_to_device.on_read(&b"\x80\n".to_vec());
    assert!(out.is_empty());
    assert!(!s.console_to_device.is_running());
    let out = s.device_to_console.on_read(&b"still fine\r\n".to_vec());
    assert_eq!(out, b"still fine\n".to_vec());
    s.device_to_console.on_eof();
    assert!(s.finished());
    assert_eq!(s.joint_result(), (Err(RelayError::Decode), Ok(())));
}

#[test]
fn transport_failure_is_terminal_and_reported() {
    let mut s = Session::new(test_config());
    s.console_to_device.on_eof();
    s.device_to_console.on_transport_error();
    assert!(s.finished());
    assert_eq!(s.joint_result(), (Ok(()), Err(RelayError::Transport)));
}

#[test]
fn session_starts_running_with_configured_device() {
    let s = Session::new(test_config());
    assert_eq!(s.config.device_path, "/dev/ttyACM0");
    assert_eq!(s.config.baud_rate, 921600);
    assert!(!s.finished());
    assert!(s.console_to_device.is_running());
    assert!(s.device_to_console.is_running());
}
