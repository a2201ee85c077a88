//! End-to-end scenario over the loopback driver with the real protocol
//! engine: a raw SYN injected via the transmit-then-loop-to-receive path is
//! snooped, a connection is pre-created for the listener on port 8080, the
//! handshake is completed against the engine, and accept hands the
//! connection out with the right remote endpoint.

use netcore::addr::{Medium, SocketAddrV4};
use netcore::buf::{NetBuf, NetBufOps};
use netcore::common::NetError;
use netcore::device::NetDeviceWrapper;
use netcore::listen_table::ListenTable;
use netcore::loopback::LoopbackDev;
use netcore::sockets::new_socket_set;

use smoltcp::iface::{Config, Interface};
use smoltcp::phy::{self, Checksum, DeviceCapabilities};
use smoltcp::time::Instant;
use smoltcp::wire::{HardwareAddress, IpAddress, IpCidr};

const SYN: u8 = 0x02;
const ACK: u8 = 0x10;

fn craft_tcp(
    src_ip: [u8; 4],
    src_port: u16,
    dst_ip: [u8; 4],
    dst_port: u16,
    seq: u32,
    ack: u32,
    flags: u8,
) -> Vec<u8> {
    let total_len = 40usize;
    let mut p = Vec::new();
    p.push(0x45);
    p.push(0);
    p.push((total_len >> 8) as u8);
    p.push((total_len & 0xff) as u8);
    p.extend_from_slice(&[0, 0, 0, 0]);
    p.push(64);
    p.push(6);
    p.extend_from_slice(&[0, 0]); // checksum: the device claims checksums
    p.extend_from_slice(&src_ip);
    p.extend_from_slice(&dst_ip);
    p.extend_from_slice(&src_port.to_be_bytes());
    p.extend_from_slice(&dst_port.to_be_bytes());
    p.extend_from_slice(&seq.to_be_bytes());
    p.extend_from_slice(&ack.to_be_bytes());
    p.push(0x50);
    p.push(flags);
    p.extend_from_slice(&[0x04, 0x00]);
    p.extend_from_slice(&[0, 0]);
    p.extend_from_slice(&[0, 0]);
    p
}

struct TestDev {
    bridge: NetDeviceWrapper<LoopbackDev>,
}

struct RxTok(Vec<u8>);

impl phy::RxToken for RxTok {
    fn consume<R, F>(self, f: F) -> R
    where
        F: FnOnce(&[u8]) -> R,
    {
        f(&self.0)
    }
}

struct TxTok<'a>(&'a mut NetDeviceWrapper<LoopbackDev>);

impl phy::TxToken for TxTok<'_> {
    fn consume<R, F>(self, len: usize, f: F) -> R
    where
        F: FnOnce(&mut [u8]) -> R,
    {
        let mut tmp = vec![0u8; len];
        let r = f(&mut tmp);
        if let Some(mut buf) = self.0.tx_alloc(len) {
            buf.write_prefix(&tmp);
            let _ = self.0.tx_send(buf);
        }
        r
    }
}

impl phy::Device for TestDev {
    type RxToken<'a> = RxTok;
    type TxToken<'a> = TxTok<'a>;

    fn receive(&mut self, _t: Instant) -> Option<(RxTok, TxTok<'_>)> {
        match self.bridge.receive() {
            Some(token) => {
                let bytes = token.packet().packet().to_vec();
                let _ = self.bridge.rx_recycle(token);
                Some((RxTok(bytes), TxTok(&mut self.bridge)))
            },
            None => None,
        }
    }

    fn transmit(&mut self, _t: Instant) -> Option<TxTok<'_>> {
        if self.bridge.transmit() {
            Some(TxTok(&mut self.bridge))
        } else {
            None
        }
    }

    fn capabilities(&self) -> DeviceCapabilities {
        let ours = self.bridge.capabilities();
        let mut caps = DeviceCapabilities::default();
        caps.max_transmission_unit = ours.max_transmission_unit;
        caps.medium = phy::Medium::Ip;
        caps.checksum.ipv4 = Checksum::None;
        caps.checksum.tcp = Checksum::None;
        caps.checksum.udp = Checksum::None;
        caps
    }
}

#[test]
fn syn_to_bound_listener_is_accepted_with_remote_endpoint() {
    let remote_ip = [10, 0, 0, 2];
    let local_ip = [10, 0, 0, 1];
    let remote_port = 5000u16;
    let listen_port = 8080u16;

    let mut dev = TestDev { bridge: NetDeviceWrapper::new(LoopbackDev::new()) };
    let mut config = Config::new(HardwareAddress::Ip);
    config.random_seed = 7;
    let mut iface = Interface::new(config, &mut dev, Instant::from_micros(0));
    iface.update_ip_addrs(|addrs| {
        addrs.push(IpCidr::new(IpAddress::v4(10, 0, 0, 1), 24)).unwrap();
    });

    let mut sockets = new_socket_set();
    let mut table = ListenTable::new();
    let local = SocketAddrV4::new(0, listen_port);
    table.listen(local, 4).expect("bind listener");

    // Inject the raw SYN through the transmit-then-loop-to-receive path.
    let syn = craft_tcp(remote_ip, remote_port, local_ip, listen_port, 1000, 0, SYN);
    let mut buf = dev.bridge.tx_alloc(syn.len()).expect("allocate");
    buf.write_prefix(&syn);
    dev.bridge.tx_send(buf).expect("inject");

    let mut accepted = None;
    let mut acked = false;
    for step in 0..20i64 {
        // Snoop phase: inspect every queued inbound frame before the engine
        // sees it; capture frames addressed to the fake remote peer and put
        // the rest back for the engine.
        let mut reinject: Vec<Vec<u8>> = Vec::new();
        let mut to_remote: Vec<Vec<u8>> = Vec::new();
        while let Some(token) = dev.bridge.receive() {
            let bytes = token.packet().packet().to_vec();
            token.preprocess(Medium::Ip, &mut table, &mut sockets);
            dev.bridge.rx_recycle(token).expect("recycle");
            if bytes.len() >= 24 && bytes[9] == 6 {
                let dst_port = u16::from_be_bytes([bytes[22], bytes[23]]);
                if dst_port == remote_port {
                    to_remote.push(bytes);
                    continue;
                }
            }
            reinject.push(bytes);
        }
        for bytes in reinject {
            let mut buf = dev.bridge.tx_alloc(bytes.len()).expect("allocate");
            buf.write_prefix(&bytes);
            dev.bridge.tx_send(buf).expect("reinject");
        }

        if step == 0 {
            // P7's first checkpoint: after the first poll cycle the
            // listener's queue holds exactly one pre-created connection.
            assert_eq!(table.pending_count(local), Some(1));
            // Not yet established: accept must report WouldBlock.
            match table.accept(local, &sockets) {
                Err(NetError::WouldBlock) => {},
                _ => panic!("accept before the handshake completes must would-block"),
            }
        }

        // Play the remote peer: answer the engine's SYN-ACK with the final
        // ACK of the handshake.
        for bytes in to_remote {
            let flags = bytes[33];
            if flags & SYN != 0 && flags & ACK != 0 && !acked {
                let server_seq = u32::from_be_bytes([bytes[24], bytes[25], bytes[26], bytes[27]]);
                let ack_pkt = craft_tcp(
                    remote_ip,
                    remote_port,
                    local_ip,
                    listen_port,
                    1001,
                    server_seq.wrapping_add(1),
                    ACK,
                );
                let mut buf = dev.bridge.tx_alloc(ack_pkt.len()).expect("allocate");
                buf.write_prefix(&ack_pkt);
                dev.bridge.tx_send(buf).expect("send handshake ack");
                acked = true;
            }
        }

        // Engine phase: one poll of the protocol engine.
        let timestamp = Instant::from_micros(step * 1_000);
        iface.poll(timestamp, &mut dev, &mut sockets);

        if let Ok(conn) = table.accept(local, &sockets) {
            accepted = Some(conn);
            break;
        }
    }

    let conn = accepted.expect("the handshake completes and accept returns the connection");
    assert_eq!(conn.remote.ip, 0x0A000002);
    assert_eq!(conn.remote.port, remote_port);
    // The queue is drained; a second accept would block again.
    assert_eq!(table.pending_count(local), Some(0));
    match table.accept(local, &sockets) {
        Err(NetError::WouldBlock) => {},
        _ => panic!("no second connection exists"),
    }
    // The accepted socket is still live in the socket set.
    assert_eq!(sockets.iter().count(), 1);
}
