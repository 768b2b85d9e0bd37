use opdesc::buffer::{Buf, RegionDesc};
use opdesc::complete::filled_lengths;
use opdesc::op::{Accept, Recv, RecvVectored, Send, SendVectored};

#[test]
fn single_recv_extract_identity() {
    let buf = Buf::from_vec(0x1000, vec![1, 2, 3]);
    let op = Recv::new(5, buf);
    assert_eq!(op.fd(), 5);
    let back = op.into_inner();
    assert_eq!(back.addr(), 0x1000);
    assert_eq!(back.capacity(), 3);
    assert_eq!(back.len(), 3);
    assert_eq!(back.bytes(), &vec![1, 2, 3]);
}

#[test]
fn single_send_extract_identity() {
    let buf = Buf::from_vec(0x2000, vec![9, 8]);
    let op = Send::new(6, buf);
    assert_eq!(op.fd(), 6);
    let back = op.into_inner();
    assert_eq!(back.addr(), 0x2000);
    assert_eq!(back.capacity(), 2);
    assert_eq!(back.len(), 2);
    assert_eq!(back.bytes(), &vec![9, 8]);
}

#[test]
fn empty_buffer_extract_identity() {
    let buf = Buf::new(0x3000, 0);
    let op = Recv::new(7, buf);
    let back = op.into_inner();
    assert_eq!(back.addr(), 0x3000);
    assert_eq!(back.capacity(), 0);
    assert_eq!(back.len(), 0);
    assert_eq!(back.bytes(), &Vec::new());
}

#[test]
fn single_recv_region_is_address_and_capacity() {
    let mut buf = Buf::new(0x4000, 16);
    buf.set_len(4);
    let op = Recv::new(3, buf);
    assert_eq!(op.region(), RegionDesc { addr: 0x4000, len: 16 });
}

#[test]
fn single_send_region_is_address_and_valid_len() {
    let buf = Buf::from_vec(0x5000, vec![0; 10]);
    let op = Send::new(3, buf);
    assert_eq!(op.region(), RegionDesc { addr: 0x5000, len: 10 });
}

#[test]
fn scatter_arm_three_regions() {
    let bufs = vec![Buf::new(0xa0, 2), Buf::new(0xb0, 3), Buf::new(0xc0, 4)];
    let mut op = RecvVectored::new(9, bufs);
    assert_eq!(op.slices().len(), 0);
    op.arm();
    assert_eq!(
        op.slices(),
        &vec![
            RegionDesc { addr: 0xa0, len: 2 },
            RegionDesc { addr: 0xb0, len: 3 },
            RegionDesc { addr: 0xc0, len: 4 },
        ]
    );
    let back = op.into_inner();
    assert_eq!(back.len(), 3);
    assert_eq!(back[0].addr(), 0xa0);
    assert_eq!(back[1].addr(), 0xb0);
    assert_eq!(back[2].addr(), 0xc0);
}

#[test]
fn rearm_rebuilds_gather_regions() {
    let bufs = vec![Buf::from_vec(0xd0, vec![1, 2, 3, 4])];
    let mut op = SendVectored::new(2, bufs);
    op.arm();
    assert_eq!(op.slices(), &vec![RegionDesc { addr: 0xd0, len: 4 }]);
    let mut bufs = op.into_inner();
    bufs[0].set_len(2);
    let mut op = SendVectored::new(2, bufs);
    op.arm();
    op.arm();
    assert_eq!(op.slices(), &vec![RegionDesc { addr: 0xd0, len: 2 }]);
}

#[test]
fn scatter_empty_collection() {
    let mut op = RecvVectored::new(1, Vec::new());
    op.arm();
    assert_eq!(op.slices().len(), 0);
    let back = op.into_inner();
    assert!(back.is_empty());
}

#[test]
fn gather_empty_collection() {
    let mut op = SendVectored::new(1, Vec::new());
    op.arm();
    assert_eq!(op.slices().len(), 0);
    let back = op.into_inner();
    assert!(back.is_empty());
}

#[test]
fn fill_short_completion_is_a_prefix() {
    let caps = vec![2, 3, 4];
    assert_eq!(filled_lengths(&caps, 4), vec![2, 2, 0]);
}

#[test]
fn fill_edge_counts() {
    let caps = vec![2, 3, 4];
    assert_eq!(filled_lengths(&caps, 0), vec![0, 0, 0]);
    assert_eq!(filled_lengths(&caps, 2), vec![2, 0, 0]);
    assert_eq!(filled_lengths(&caps, 9), vec![2, 3, 4]);
    assert_eq!(filled_lengths(&caps, 100), vec![2, 3, 4]);
    assert_eq!(filled_lengths(&Vec::new(), 5), Vec::<usize>::new());
}

#[test]
fn accept_initial_len_is_platform_capacity() {
    let op = Accept::new(11);
    assert_eq!(op.fd(), 11);
    assert_eq!(op.addr_len() as usize, op.capacity());
    assert_eq!(op.capacity(), std::mem::size_of::<libc::sockaddr_storage>());
}

#[test]
fn accept_fresh_storage_is_zeroed() {
    let op = Accept::new(12);
    let cap = op.capacity();
    let raw = op.into_addr();
    assert_eq!(raw.bytes, vec![0u8; cap]);
}

#[test]
fn accept_decodes_only_reported_prefix() {
    let mut op = Accept::new(13);
    let written = vec![7u8, 8, 9];
    assert!(written.len() < op.capacity());
    op.record_addr(&written);
    assert_eq!(op.addr_len(), 3);
    let raw = op.into_addr();
    assert_eq!(raw.bytes, written);
}

#[test]
fn gather_send_end_to_end() {
    let first = Buf::from_vec(0xab00, b"AB".to_vec());
    let second = Buf::from_vec(0xcd00, b"CDE".to_vec());
    let mut op = SendVectored::new(4, vec![first, second]);
    op.arm();
    assert_eq!(
        op.slices(),
        &vec![
            RegionDesc { addr: 0xab00, len: 2 },
            RegionDesc { addr: 0xcd00, len: 3 },
        ]
    );
    let sent = filled_lengths(&vec![2, 3], 4);
    assert_eq!(sent, vec![2, 2]);
    let back = op.into_inner();
    assert_eq!(back.len(), 2);
    assert_eq!(back[0].addr(), 0xab00);
    assert_eq!(back[0].bytes(), &b"AB".to_vec());
    assert_eq!(back[1].addr(), 0xcd00);
    assert_eq!(back[1].bytes(), &b"CDE".to_vec());
}
