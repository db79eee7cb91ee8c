use std::hash::Hasher;
use fxhash::FxHasher;
use netbricks::mbuf::MBuf;
use netbricks::nf::{macswap, PacketError, ETHERNET_HEADER_LEN};
use netbricks::rand::myrand;
use netbricks::synth::HEADER_LEN;

fn fx_u64(x: u64) -> u64 {
    let mut h = FxHasher::default();
    h.write_u64(x);
    h.finish()
}

#[test]
fn rand_replaces_the_state_by_its_hash() {
    let mut rng = myrand { holdrand: 1 };
    let r = rng.rand();
    assert_eq!(r, fx_u64(1));
    assert_ne!(r, 1);
    assert_eq!(rng.holdrand, r);
    if usize::BITS == 64 {
        assert_eq!(r, 0x517cc1b727220a95);
    }
    let r2 = rng.rand();
    assert_eq!(r2, fx_u64(r));
}

#[test]
fn seed_from_time_adds_milliseconds_to_seconds() {
    assert_eq!(myrand::from_time(5, 2_500_000).holdrand, 7);
    assert_eq!(myrand::from_time(1_700_000_000, 999_999_999).holdrand, 1_700_000_999);
    assert_eq!(myrand::from_time(-1, 0).holdrand, u64::MAX);
    assert_eq!(myrand::from_time(-3, 1_000_000).holdrand, u64::MAX - 1);
    assert_eq!(myrand::from_time(-1, 1_000_000).holdrand, 0);
    assert_eq!(myrand::from_time(i64::MAX, 999_000_000).holdrand, (i64::MAX as u64) + 999);
}

#[test]
fn seeding_from_the_clock_gives_a_generator() {
    let mut rng = myrand::new();
    let before = rng.holdrand;
    assert_eq!(rng.rand(), fx_u64(before));
}

#[test]
fn rand_str_fills_eight_bytes_per_draw() {
    let mut buf = vec![0xAAu8; 3 + 100];
    let mut rng = myrand { holdrand: 42 };
    MBuf::get_rand_str(&mut buf, 3, &mut rng);
    // 100 bytes: 100 / 64 + 1 = 2 draws, 16 bytes.
    let r1 = fx_u64(42);
    let r2 = fx_u64(r1);
    assert_eq!(&buf[0..3], &[0xAA; 3]);
    assert_eq!(&buf[3..11], &r1.to_be_bytes());
    assert_eq!(&buf[11..19], &r2.to_be_bytes());
    assert!(buf[19..].iter().all(|b| *b == 0xAA));
    assert_eq!(rng.holdrand, r2);
}

#[test]
fn rand_str_on_exactly_eight_bytes() {
    let mut buf = vec![0u8; 8];
    let mut rng = myrand { holdrand: 9 };
    MBuf::get_rand_str(&mut buf, 0, &mut rng);
    assert_eq!(&buf[..], &fx_u64(9).to_be_bytes());
}

#[test]
fn ipv4_octets_most_significant_first() {
    assert_eq!(MBuf::get_ipv4addr_from_u32(0x0a000102), [10, 0, 1, 2]);
    assert_eq!(MBuf::get_ipv4addr_from_u32(0xc0a80001), [192, 168, 0, 1]);
}

fn expected_tuple(index: u32) -> (u32, u32, u16, u16) {
    let mut h = FxHasher::default();
    h.write_u32(index);
    let srcip = h.finish() as u32;
    h.write_u32(srcip);
    let dstip = h.finish() as u32;
    h.write_u16(index as u16);
    let srcport = h.finish() as u16;
    h.write_u16(srcport);
    let dstport = h.finish() as u16;
    (srcip, dstip, srcport, dstport)
}

#[test]
fn five_tuple_follows_the_hash_chain() {
    for index in [0u32, 1, 7, 3 * 1024 * 1024, 0x1_0005] {
        assert_eq!(MBuf::get_zipf_five_tuples(index), expected_tuple(index));
    }
    let (srcip, _, _, _) = MBuf::get_zipf_five_tuples(1);
    assert_ne!(srcip, 1);
}

#[test]
fn synthetic_packet_layout() {
    let seed = 1234u64;
    let mut rng = myrand { holdrand: seed };
    let m = MBuf::new(1024, &mut rng, 77);
    assert_eq!((m.data_off, m.data_len, m.pkt_len, m.buf_len), (0, 1024, 1024, 1024));
    let b = m.as_bytes();
    assert_eq!(b.len(), 1024);
    assert_eq!(&b[0..14], &[1, 2, 3, 4, 5, 6, 0x0a, 0x0b, 0x0c, 0x0d, 0x0f, 0x0f, 0x08, 0x00]);
    assert_eq!(&b[14..16], &[0x45, 0x00]);
    assert_eq!(&b[16..18], &(1010u16).to_be_bytes());
    assert_eq!(b[23], 6);
    let (srcip, dstip, srcport, dstport) = expected_tuple(77);
    assert_eq!(&b[26..30], &srcip.to_be_bytes());
    assert_eq!(&b[30..34], &dstip.to_be_bytes());
    assert_eq!(&b[34..36], &srcport.to_be_bytes());
    assert_eq!(&b[36..38], &dstport.to_be_bytes());
    assert_eq!(b[46], 0x50);
    // Payload of 970 bytes: 970 / 64 + 1 = 16 draws.
    let mut state = seed;
    let mut expected = vec![0u8; 970];
    for i in 0..16 {
        state = fx_u64(state);
        expected[8 * i..8 * i + 8].copy_from_slice(&state.to_be_bytes());
    }
    assert_eq!(&b[HEADER_LEN..], &expected[..]);
    assert_eq!(rng.holdrand, state);
}

#[test]
fn smallest_synthetic_packet() {
    let mut rng = myrand { holdrand: 5 };
    let m = MBuf::new(62, &mut rng, 0);
    assert_eq!(m.buf_len(), 62);
    assert_eq!(&m.as_bytes()[54..62], &fx_u64(5).to_be_bytes());
    assert_eq!(&m.as_bytes()[16..18], &[0, 48]);
}

#[test]
fn macswap_exchanges_ethernet_addresses() {
    let mut rng = myrand { holdrand: 3 };
    let m = MBuf::new(100, &mut rng, 1);
    let swapped = macswap(m).unwrap();
    let b = swapped.as_bytes();
    assert_eq!(&b[0..6], &[0x0a, 0x0b, 0x0c, 0x0d, 0x0f, 0x0f]);
    assert_eq!(&b[6..12], &[1, 2, 3, 4, 5, 6]);
    assert_eq!(&b[12..14], &[0x08, 0x00]);
    let again = macswap(swapped).unwrap();
    assert_eq!(&again.as_bytes()[0..6], &[1, 2, 3, 4, 5, 6]);
}

#[test]
fn macswap_refuses_short_packets() {
    let m = MBuf {
        buffer: vec![0; 20],
        data_off: 7,
        pkt_len: 13,
        data_len: 13,
        buf_len: 20,
    };
    assert_eq!(ETHERNET_HEADER_LEN, 14);
    assert!(matches!(macswap(m), Err(PacketError::TooShort)));
}

#[test]
fn two_step_generation_draws_the_payload_first() {
    let mut rng = myrand { holdrand: 11 };
    let mut m = MBuf::with_payload(70, &mut rng);
    assert!(m.as_bytes()[..HEADER_LEN].iter().all(|b| *b == 0));
    assert_eq!(&m.as_bytes()[54..62], &fx_u64(11).to_be_bytes());
    assert_eq!(&m.as_bytes()[62..70], &[0u8; 8]);
    let payload: Vec<u8> = m.as_bytes()[HEADER_LEN..].to_vec();
    m.write_headers(5);
    let mut direct_rng = myrand { holdrand: 11 };
    let direct = MBuf::new(70, &mut direct_rng, 5);
    assert_eq!(m.as_bytes(), direct.as_bytes());
    assert_eq!(&m.as_bytes()[HEADER_LEN..], &payload[..]);
    assert_eq!(rng.holdrand, direct_rng.holdrand);
}
