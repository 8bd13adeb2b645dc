use wg_handshake::uapi::{serialize, AllowedIp, InterfaceConfig, PeerEntry};

fn empty_config() -> InterfaceConfig {
    InterfaceConfig {
        private_key: None,
        listen_port: None,
        fwmark: None,
    }
}

fn peer(rx: u64, tx: u64, nsec: u64, pk: [u8; 32], psk: [u8; 32]) -> PeerEntry {
    PeerEntry {
        rx_bytes: rx,
        tx_bytes: tx,
        last_handshake_time_sec: 0,
        last_handshake_time_nsec: nsec,
        public_key: pk,
        preshared_key: psk,
        allowed_ips: Vec::new(),
    }
}

#[test]
fn empty_input_serializes_to_nothing() {
    assert_eq!(serialize(&empty_config(), &Vec::new()), "");
}

#[test]
fn interface_fields_only_if_present() {
    let config = InterfaceConfig {
        private_key: None,
        listen_port: Some(51820),
        fwmark: None,
    };
    assert_eq!(serialize(&config, &Vec::new()), "listen_port=51820\n");

    let config = InterfaceConfig {
        private_key: Some([0xabu8; 32]),
        listen_port: Some(7),
        fwmark: Some(4294967295),
    };
    let expected = format!(
        "private_key={}\nlisten_port=7\nfwmark=4294967295\n",
        "ab".repeat(32)
    );
    assert_eq!(serialize(&config, &Vec::new()), expected);
}

#[test]
fn one_peer_exact_output() {
    let mut pk = [0u8; 32];
    pk[0] = 0x01;
    pk[1] = 0x23;
    pk[31] = 0xef;
    let p = peer(1234, 0, 987654321, pk, [0u8; 32]);
    let out = serialize(&empty_config(), &vec![p]);
    let mut pk_hex = String::from("0123");
    pk_hex.push_str(&"00".repeat(29));
    pk_hex.push_str("ef");
    let expected = format!(
        "rx_bytes=1234\n\
         tx_bytes=0\n\
         last_handshake_time_sec=987654321\n\
         last_handshake_time_nsec=987654321\n\
         public_key={}\n\
         preshared_key={}\n",
        pk_hex,
        "00".repeat(32)
    );
    assert_eq!(out, expected);
}

#[test]
fn hex_digits_are_lowercase_and_positional() {
    // Fails if the hex encoding handed its input back unchanged or used
    // the wrong digit order or case.
    let mut pk = [0u8; 32];
    pk[0] = 0xf0;
    pk[1] = 0x0f;
    let p = peer(0, 0, 0, pk, [0u8; 32]);
    let out = serialize(&empty_config(), &vec![p]);
    let line = out
        .lines()
        .find(|l| l.starts_with("public_key="))
        .unwrap();
    assert!(line.starts_with("public_key=f00f0000"));
    assert!(!line.contains('F'));
}

#[test]
fn peers_reported_from_end_of_list_first() {
    let a = peer(1, 2, 3, [0u8; 32], [0u8; 32]);
    let b = peer(4, 5, 6, [0u8; 32], [0u8; 32]);
    let out = serialize(&empty_config(), &vec![a, b]);
    let rx_lines: Vec<&str> = out
        .lines()
        .filter(|l| l.starts_with("rx_bytes="))
        .collect();
    assert_eq!(rx_lines, vec!["rx_bytes=4", "rx_bytes=1"]);
}

#[test]
fn allowed_ip_lines() {
    let mut p = peer(0, 0, 0, [0u8; 32], [0u8; 32]);
    p.allowed_ips = vec![
        AllowedIp {
            addr: String::from("10.0.0.0"),
            cidr: 8,
        },
        AllowedIp {
            addr: String::from("fd00::1"),
            cidr: 128,
        },
    ];
    let out = serialize(&empty_config(), &vec![p]);
    let ip_lines: Vec<&str> = out
        .lines()
        .filter(|l| l.starts_with("allowed_ip="))
        .collect();
    assert_eq!(
        ip_lines,
        vec!["allowed_ip=10.0.0.0/8", "allowed_ip=fd00::1/128"]
    );
}

#[test]
fn decimal_values_exact() {
    let p = peer(u64::MAX, 10, 0, [0u8; 32], [0u8; 32]);
    let out = serialize(&empty_config(), &vec![p]);
    assert!(out.contains("rx_bytes=18446744073709551615\n"));
    assert!(out.contains("tx_bytes=10\n"));
    assert!(out.contains("last_handshake_time_sec=0\n"));
}
