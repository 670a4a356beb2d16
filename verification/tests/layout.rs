use oidn_wgpu::layout::RowLayout;

fn tight_image(row_bytes: usize, rows: usize) -> Vec<u8> {
    (0..row_bytes * rows).map(|i| (i % 251) as u8 + 1).collect()
}

#[test]
fn padded_stride_is_next_multiple_of_alignment() {
    let layout = RowLayout::new(2, 16, 256).expect("layout");
    assert_eq!(layout.unpadded_bytes_per_row(), 32);
    assert_eq!(layout.padded_bytes_per_row(), 256);
    assert_eq!(layout.alignment(), 256);

    let layout = RowLayout::new(17, 16, 256).expect("layout");
    assert_eq!(layout.unpadded_bytes_per_row(), 272);
    assert_eq!(layout.padded_bytes_per_row(), 512);

    let layout = RowLayout::new(100, 8, 256).expect("layout");
    assert_eq!(layout.unpadded_bytes_per_row(), 800);
    assert_eq!(layout.padded_bytes_per_row(), 1024);
}

#[test]
fn aligned_row_needs_no_padding() {
    let layout = RowLayout::new(16, 16, 256).expect("layout");
    assert_eq!(layout.unpadded_bytes_per_row(), 256);
    assert_eq!(layout.padded_bytes_per_row(), 256);
    let layout = RowLayout::new(64, 8, 256).expect("layout");
    assert_eq!(layout.padded_bytes_per_row(), 512);
}

#[test]
fn empty_row_has_empty_stride() {
    let layout = RowLayout::new(0, 16, 256).expect("layout");
    assert_eq!(layout.unpadded_bytes_per_row(), 0);
    assert_eq!(layout.padded_bytes_per_row(), 0);
    assert_eq!(layout.pack(&[], 5), Vec::<u8>::new());
    assert_eq!(layout.unpack(&[], 5), Vec::<u8>::new());
}

#[test]
fn no_layout_for_zero_alignment() {
    assert!(RowLayout::new(4, 16, 0).is_none());
}

#[test]
fn no_layout_when_stride_exceeds_32_bits() {
    assert!(RowLayout::new(u32::MAX, 16, 256).is_none());
    assert!(RowLayout::new(u32::MAX, 1, 256).is_none());
    let widest = RowLayout::new(u32::MAX - 255, 1, 256).expect("layout");
    assert_eq!(widest.padded_bytes_per_row(), u32::MAX - 255);
}

#[test]
fn alignment_of_one_pads_nothing() {
    let layout = RowLayout::new(3, 8, 1).expect("layout");
    assert_eq!(layout.padded_bytes_per_row(), 24);
    let tight = tight_image(24, 2);
    assert_eq!(layout.pack(&tight, 2), tight);
}

#[test]
fn pack_copies_rows_and_fills_with_zeros() {
    let layout = RowLayout::new(1, 3, 4).expect("layout");
    assert_eq!(layout.unpadded_bytes_per_row(), 3);
    assert_eq!(layout.padded_bytes_per_row(), 4);
    let packed = layout.pack(&[1, 2, 3, 4, 5, 6], 2);
    assert_eq!(packed, vec![1, 2, 3, 0, 4, 5, 6, 0]);
}

#[test]
fn unpack_takes_the_first_bytes_of_each_row() {
    let layout = RowLayout::new(1, 3, 4).expect("layout");
    let tight = layout.unpack(&[1, 2, 3, 9, 4, 5, 6, 9], 2);
    assert_eq!(tight, vec![1, 2, 3, 4, 5, 6]);
}

#[test]
fn pack_of_no_rows_is_empty() {
    let layout = RowLayout::new(2, 16, 256).expect("layout");
    assert_eq!(layout.pack(&[], 0), Vec::<u8>::new());
    assert_eq!(layout.unpack(&[], 0), Vec::<u8>::new());
}

#[test]
fn unpack_undoes_pack() {
    for &(width, bpp, alignment, height) in
        &[(2u32, 16u32, 256u32, 2u32), (17, 16, 256, 3), (5, 8, 256, 7), (16, 16, 256, 4), (3, 8, 64, 1), (7, 3, 5, 6)]
    {
        let layout = RowLayout::new(width, bpp, alignment).expect("layout");
        let tight = tight_image((width * bpp) as usize, height as usize);
        let packed = layout.pack(&tight, height);
        assert_eq!(packed.len(), (layout.padded_bytes_per_row() * height) as usize);
        assert_eq!(layout.unpack(&packed, height), tight);
    }
}

#[test]
fn pack_takes_each_row_from_its_own_tight_row() {
    let layout = RowLayout::new(2, 8, 256).expect("layout");
    let tight = tight_image(16, 3);
    let packed = layout.pack(&tight, 3);
    for row in 0..3usize {
        assert_eq!(&packed[row * 256..row * 256 + 16], &tight[row * 16..row * 16 + 16]);
        assert!(packed[row * 256 + 16..(row + 1) * 256].iter().all(|&b| b == 0));
    }
}
