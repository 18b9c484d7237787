use modbus_server::net::SocketAddr;
use modbus_server::server::tcp::Server;

#[test]
fn new_server_has_the_address_and_no_thread_count() {
    let addr = SocketAddr::V4 {
        ip: [127, 0, 0, 1],
        port: 502,
    };
    let server = Server::new(addr);
    assert_eq!(
        server.socket_addr(),
        SocketAddr::V4 {
            ip: [127, 0, 0, 1],
            port: 502,
        }
    );
    assert_eq!(server.event_loops(1), 1);
    assert_eq!(server.event_loops(8), 8);
}

#[test]
fn thread_count_is_kept_with_the_address() {
    let addr = SocketAddr::V6 {
        ip: [0, 0, 0, 0, 0, 0, 0, 1],
        port: 5020,
        flowinfo: 0,
        scope_id: 0,
    };
    let server = Server::new(addr).threads(4);
    assert_eq!(server.socket_addr(), addr);
    assert_eq!(server.event_loops(1), 4);
    assert_eq!(server.event_loops(8), 4);
}

#[test]
fn later_thread_count_replaces_the_earlier() {
    let addr = SocketAddr::V4 {
        ip: [0, 0, 0, 0],
        port: 0,
    };
    let server = Server::new(addr).threads(2).threads(usize::MAX);
    assert_eq!(server.event_loops(1), usize::MAX);
    assert_eq!(server.socket_addr(), addr);
}

#[test]
fn servers_are_equal_when_their_configuration_is() {
    let addr = SocketAddr::V4 {
        ip: [10, 0, 0, 1],
        port: 502,
    };
    let server = Server::new(addr).threads(3);
    assert_eq!(server.clone(), server);
    assert_eq!(Server::new(addr).threads(3), server);
    assert_ne!(Server::new(addr), server);
    assert_ne!(Server::new(addr).threads(2), server);
    let other = SocketAddr::V4 {
        ip: [10, 0, 0, 1],
        port: 503,
    };
    assert_ne!(Server::new(other).threads(3), server);
}
