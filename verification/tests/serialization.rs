use zebra::serialization::{IpAddr, SocketAddr, WriteZcashExt};

fn compactsize(n: u64) -> Vec<u8> {
    let mut buf = Vec::new();
    buf.write_compactsize(n);
    buf
}

#[test]
fn compactsize_doc_examples() {
    assert_eq!(compactsize(0x12), b"\x12");
    assert_eq!(compactsize(0xfd), b"\xfd\xfd\x00");
    assert_eq!(compactsize(0xaafd), b"\xfd\xfd\xaa");
    assert_eq!(compactsize(0xbbaafd), b"\xfe\xfd\xaa\xbb\x00");
    assert_eq!(compactsize(0x22ccbbaafd), b"\xff\xfd\xaa\xbb\xcc\x22\x00\x00\x00");
}

#[test]
fn compactsize_boundaries() {
    assert_eq!(compactsize(0), vec![0x00]);
    assert_eq!(compactsize(0xfc), vec![0xfc]);
    assert_eq!(compactsize(0xffff), vec![0xfd, 0xff, 0xff]);
    assert_eq!(compactsize(0x1_0000), vec![0xfe, 0x00, 0x00, 0x01, 0x00]);
    assert_eq!(compactsize(0xffff_ffff), vec![0xfe, 0xff, 0xff, 0xff, 0xff]);
    assert_eq!(
        compactsize(0x1_0000_0000),
        vec![0xff, 0x00, 0x00, 0x00, 0x00, 0x01, 0x00, 0x00, 0x00]
    );
    assert_eq!(compactsize(u64::MAX), vec![0xff; 9]);
}

#[test]
fn compactsize_length_follows_first_byte() {
    for n in [0u64, 0xfc, 0xfd, 0xffff, 0x1_0000, 0xffff_ffff, 0x1_0000_0000, u64::MAX] {
        let bytes = compactsize(n);
        let expected = match bytes[0] {
            0xfd => 3,
            0xfe => 5,
            0xff => 9,
            _ => 1,
        };
        assert_eq!(bytes.len(), expected, "value {:#x}", n);
    }
}

#[test]
fn compactsize_distinct_values_encode_differently() {
    let values = [0u64, 1, 0xfc, 0xfd, 0xfe, 0xff, 0x100, 0xffff, 0x1_0000, 0xffff_ffff, 0x1_0000_0000];
    for (i, a) in values.iter().enumerate() {
        for b in values.iter().skip(i + 1) {
            assert_ne!(compactsize(*a), compactsize(*b));
        }
    }
}

#[test]
fn compactsize_appends() {
    let mut buf = vec![0xaa];
    buf.write_compactsize(0xfd);
    assert_eq!(buf, vec![0xaa, 0xfd, 0xfd, 0x00]);
}

#[test]
fn ipv4_is_written_as_mapped_ipv6() {
    let mut buf = Vec::new();
    buf.write_ip_addr(IpAddr::V4([192, 168, 0, 1]));
    assert_eq!(
        buf,
        vec![0, 0, 0, 0, 0, 0, 0, 0, 0, 0, 0xff, 0xff, 192, 168, 0, 1]
    );
}

#[test]
fn ipv6_is_written_as_is() {
    let octets = [0x20, 0x01, 0x0d, 0xb8, 0, 0, 0, 0, 0, 0, 0, 0, 0, 0, 0, 1];
    let mut buf = Vec::new();
    buf.write_ip_addr(IpAddr::V6(octets));
    assert_eq!(buf, octets.to_vec());
}

#[test]
fn socket_addr_port_is_big_endian() {
    let mut buf = Vec::new();
    buf.write_socket_addr(SocketAddr { ip: IpAddr::V4([127, 0, 0, 1]), port: 8233 });
    let mut expected = vec![0, 0, 0, 0, 0, 0, 0, 0, 0, 0, 0xff, 0xff, 127, 0, 0, 1];
    expected.extend_from_slice(&[0x20, 0x29]);
    assert_eq!(buf, expected);
}

#[test]
fn string_is_length_prefixed() {
    let mut buf = Vec::new();
    buf.write_string("/Zebra:1.0/");
    let mut expected = vec![11];
    expected.extend_from_slice(b"/Zebra:1.0/");
    assert_eq!(buf, expected);
}

#[test]
fn string_length_counts_utf8_bytes() {
    let mut buf = Vec::new();
    buf.write_string("\u{e9}");
    assert_eq!(buf, vec![2, 0xc3, 0xa9]);
}

#[test]
fn long_string_uses_three_byte_length() {
    let s = "a".repeat(300);
    let mut buf = Vec::new();
    buf.write_string(&s);
    assert_eq!(&buf[..3], &[0xfd, 0x2c, 0x01]);
    assert_eq!(buf.len(), 303);
}

#[test]
fn empty_string_is_one_zero_byte() {
    let mut buf = Vec::new();
    buf.write_string("");
    assert_eq!(buf, vec![0]);
}

#[test]
fn fixed_byte_arrays_are_written_as_is() {
    let mut bytes32 = [0u8; 32];
    for (i, b) in bytes32.iter_mut().enumerate() {
        *b = i as u8;
    }
    let bytes64 = [0x5au8; 64];
    let mut buf = Vec::new();
    buf.write_32_bytes(&bytes32);
    buf.write_64_bytes(&bytes64);
    assert_eq!(&buf[..32], &bytes32[..]);
    assert_eq!(&buf[32..], &bytes64[..]);
}
