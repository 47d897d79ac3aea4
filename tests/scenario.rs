use cajal_io::address::SocketAddress;
use cajal_io::error::CommunicationError;
use cajal_io::motor::Motor;
use cajal_io::sensor::Sensor;

fn fired(_: ()) -> String {
    "fired".to_string()
}

fn runtime() -> tokio::runtime::Runtime {
    tokio::runtime::Builder::new_current_thread().enable_io().build().unwrap()
}

fn loopback(port: u16) -> SocketAddress {
    SocketAddress::V4 { octets: [127, 0, 0, 1], port }
}

#[test]
fn spike_reaches_behavior() {
    let mut e: Sensor<&str> = Sensor::new("tract", Ok(loopback(40010))).unwrap();
    e.add_receptor("spike_a", 7);
    let mut r: Motor<fn(()) -> String, (), String> = Motor::new("tract", Ok(loopback(40011))).unwrap();
    r.add_fiber(7, fired);
    assert!(e.connect(&r.tract_address(), Ok(())).is_ok());
    let datagram = e.send_impulse(&"spike_a").unwrap();
    let mut buffer = [0u8; 16];
    buffer[..datagram.len()].copy_from_slice(&datagram);
    assert_eq!(r.recv_impulse(&buffer, Ok(datagram.len()), ()).unwrap(), "fired");
}

#[test]
fn unknown_symbol_sends_nothing() {
    let mut e: Sensor<&str> = Sensor::new("tract", Ok(loopback(40012))).unwrap();
    e.add_receptor("spike_a", 7);
    match e.send_impulse(&"unknown") {
        Err(CommunicationError::UnrecognizedTrigger(name)) => assert_eq!(name, "tract"),
        other => panic!("unexpected outcome: {:?}", other),
    }
}

#[test]
fn bind_to_port_zero_records_assigned_port() {
    runtime().block_on(async {
        let socket = tokio::net::UdpSocket::bind("127.0.0.1:0").await.unwrap();
        let bound = socket.local_addr().map(|a| loopback(a.port()));
        let e: Sensor<&str> = Sensor::new("tract", bound).unwrap();
        assert_ne!(e.tract_address().port(), 0);
        let bound = socket.local_addr().map(|a| loopback(a.port()));
        let r: Motor<fn(()) -> String, (), String> = Motor::new("tract", bound).unwrap();
        assert_ne!(r.tract_address().port(), 0);
    });
}
