use cajal_io::address::SocketAddress;
use cajal_io::error::{BuildError, CommunicationError};
use cajal_io::motor::Motor;

type Behavior = fn(u32) -> String;

fn fired(_: u32) -> String {
    "fired".to_string()
}

fn doubled(x: u32) -> String {
    format!("{}", 2 * x)
}

fn motor() -> Motor<Behavior, u32, String> {
    let address = SocketAddress::V6 { segments: [0, 0, 0, 0, 0, 0, 0, 1], port: 40002, flowinfo: 0, scope_id: 0 };
    Motor::new("arm", Ok(address)).unwrap()
}

#[test]
fn motor_new_records_bound_address() {
    let m = motor();
    assert_eq!(m.tract_name(), "arm");
    assert_eq!(m.tract_address().port(), 40002);
    assert_eq!(m.num_fibers(), 0);
}

#[test]
fn motor_new_reports_bind_failure() {
    let failure = std::io::Error::new(std::io::ErrorKind::AddrNotAvailable, "no such address");
    let r: Result<Motor<Behavior, u32, String>, BuildError> = Motor::new("arm", Err(failure));
    assert!(matches!(r, Err(BuildError::SocketFailed(_))));
}

#[test]
fn recv_impulse_runs_the_registered_behavior() {
    let mut m = motor();
    m.add_fiber(7, fired);
    m.add_fiber(300, doubled);
    let buffer = [44u8, 1, 0, 0];
    assert_eq!(m.recv_impulse(&buffer, Ok(2), 21).unwrap(), "42");
    let buffer = [7u8, 0, 0, 0];
    assert_eq!(m.recv_impulse(&buffer, Ok(2), 0).unwrap(), "fired");
    assert_eq!(m.num_fibers(), 2);
}

#[test]
fn recv_impulse_reports_the_unrecognized_identifier() {
    let mut m = motor();
    m.add_fiber(7, fired);
    let buffer = [0xffu8, 0xff];
    match m.recv_impulse(&buffer, Ok(2), 0) {
        Err(CommunicationError::UnrecognizedImpulse(id)) => assert_eq!(id, 65535),
        other => panic!("unexpected outcome: {:?}", other),
    }
}

#[test]
fn recv_impulse_ignores_stale_buffer_bytes() {
    let mut m = motor();
    m.add_fiber(7, fired);
    let buffer = [7u8, 0, 0, 0];
    assert!(matches!(m.recv_impulse(&buffer, Ok(1), 0), Err(CommunicationError::SerdeFailed(_))));
    assert!(matches!(m.recv_impulse(&buffer, Ok(0), 0), Err(CommunicationError::SerdeFailed(_))));
}

#[test]
fn recv_impulse_reports_socket_failure() {
    let mut m = motor();
    m.add_fiber(7, fired);
    let failure = std::io::Error::new(std::io::ErrorKind::ConnectionRefused, "refused");
    match m.recv_impulse(&[7u8, 0], Err(failure), 0) {
        Err(CommunicationError::SocketFailed(e)) => {
            assert_eq!(e.kind(), std::io::ErrorKind::ConnectionRefused)
        },
        other => panic!("unexpected outcome: {:?}", other),
    }
}

#[test]
fn second_fiber_registration_wins() {
    let mut m = motor();
    m.add_fiber(7, fired);
    m.add_fiber(7, doubled);
    assert_eq!(m.num_fibers(), 1);
    assert_eq!(m.recv_impulse(&[7u8, 0], Ok(2), 5).unwrap(), "10");
}
