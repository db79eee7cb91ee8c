use netbricks::mbuf::{MBuf, MAX_MBUF_SIZE, PKT_LEN};

fn buffer(len: u16, data_off: u16, data_len: u16) -> MBuf {
    MBuf {
        buffer: (0..len).map(|i| i as u8).collect(),
        data_off,
        pkt_len: data_len as u32,
        data_len,
        buf_len: len,
    }
}

#[test]
fn constants_match_the_framework() {
    assert_eq!(MAX_MBUF_SIZE, 2048);
    assert_eq!(PKT_LEN, 1024);
}

#[test]
fn lengths_and_rooms() {
    let m = buffer(100, 10, 60);
    assert_eq!(m.buf_len(), 100);
    assert_eq!(m.data_len(), 60);
    assert_eq!(m.pkt_len(), 60);
    assert_eq!(m.pkt_headroom(), 10);
    assert_eq!(m.pkt_tailroom(), 30);
    assert_eq!(m.data_address(5), 15);
    assert_eq!(m.refcnt(), 1);
}

#[test]
fn add_data_beginning_within_headroom() {
    let mut m = buffer(100, 10, 60);
    assert_eq!(m.add_data_beginning(4), 4);
    assert_eq!((m.data_off, m.data_len, m.pkt_len), (6, 64, 64));
    assert_eq!(m.add_data_beginning(6), 6);
    assert_eq!((m.data_off, m.data_len, m.pkt_len), (0, 70, 70));
}

#[test]
fn add_data_beginning_refused_without_headroom() {
    let mut m = buffer(100, 10, 60);
    assert_eq!(m.add_data_beginning(11), 0);
    assert_eq!((m.data_off, m.data_len, m.pkt_len), (10, 60, 60));
}

#[test]
fn add_data_end_within_tailroom() {
    let mut m = buffer(100, 10, 60);
    assert_eq!(m.add_data_end(30), 30);
    assert_eq!((m.data_off, m.data_len, m.pkt_len), (10, 90, 90));
    assert_eq!(m.pkt_tailroom(), 0);
}

#[test]
fn add_data_end_refused_without_tailroom() {
    let mut m = buffer(100, 10, 60);
    assert_eq!(m.add_data_end(31), 0);
    assert_eq!((m.data_off, m.data_len, m.pkt_len), (10, 60, 60));
}

#[test]
fn remove_data_beginning_and_end() {
    let mut m = buffer(100, 10, 60);
    assert_eq!(m.remove_data_beginning(20), 20);
    assert_eq!((m.data_off, m.data_len, m.pkt_len), (30, 40, 40));
    assert_eq!(m.remove_data_end(15), 15);
    assert_eq!((m.data_off, m.data_len, m.pkt_len), (30, 25, 25));
    assert_eq!(m.pkt_tailroom(), 45);
}

#[test]
fn remove_more_than_the_data_is_refused() {
    let mut m = buffer(100, 10, 60);
    assert_eq!(m.remove_data_beginning(61), 0);
    assert_eq!(m.remove_data_end(61), 0);
    assert_eq!((m.data_off, m.data_len, m.pkt_len), (10, 60, 60));
    assert_eq!(m.remove_data_end(60), 60);
    assert_eq!((m.data_off, m.data_len, m.pkt_len), (10, 0, 0));
}

#[test]
fn other_segments_stay_counted_in_pkt_len() {
    let mut m = buffer(100, 10, 60);
    m.pkt_len = 500;
    assert_eq!(m.add_data_beginning(5), 5);
    assert_eq!(m.pkt_len, 505);
    assert_eq!(m.remove_data_end(50), 50);
    assert_eq!(m.pkt_len, 455);
    assert_eq!(m.pkt_len - m.data_len as u32, 440);
}

#[test]
fn add_then_remove_restores_the_window() {
    let mut m = buffer(100, 10, 60);
    assert_eq!(m.add_data_beginning(7), 7);
    assert_eq!(m.remove_data_beginning(7), 7);
    assert_eq!((m.data_off, m.data_len, m.pkt_len), (10, 60, 60));
    assert_eq!(m.add_data_end(12), 12);
    assert_eq!(m.remove_data_end(12), 12);
    assert_eq!((m.data_off, m.data_len, m.pkt_len), (10, 60, 60));
}

#[test]
fn remove_then_add_restores_the_window() {
    let mut m = buffer(100, 10, 60);
    assert_eq!(m.remove_data_beginning(25), 25);
    assert_eq!(m.add_data_beginning(25), 25);
    assert_eq!((m.data_off, m.data_len, m.pkt_len), (10, 60, 60));
    assert_eq!(m.remove_data_end(25), 25);
    assert_eq!(m.add_data_end(25), 25);
    assert_eq!((m.data_off, m.data_len, m.pkt_len), (10, 60, 60));
}

#[test]
fn window_operations_keep_the_bytes() {
    let mut m = buffer(100, 10, 60);
    let before: Vec<u8> = m.as_bytes().to_vec();
    m.add_data_beginning(3);
    m.add_data_end(4);
    m.remove_data_beginning(9);
    m.remove_data_end(2);
    m.reference();
    assert_eq!(m.as_bytes(), &before[..]);
    assert_eq!(m.pkt_headroom() + m.data_len() + m.pkt_tailroom(), m.buf_len());
}

#[test]
fn swap_mac_addresses_swaps_twelve_bytes() {
    let mut m = buffer(40, 4, 20);
    m.swap_mac_addresses();
    let b = m.as_bytes();
    assert_eq!(&b[0..4], &[0, 1, 2, 3]);
    assert_eq!(&b[4..10], &[10, 11, 12, 13, 14, 15]);
    assert_eq!(&b[10..16], &[4, 5, 6, 7, 8, 9]);
    assert_eq!(b[16], 16);
    m.swap_mac_addresses();
    let back: Vec<u8> = (0..40u8).collect();
    assert_eq!(m.as_bytes(), &back[..]);
}
