use binder_ipc::error::BinderError;
use binder_ipc::parcel::Parcel;

#[test]
fn u32_round_trip_and_padding() {
    let mut p = Parcel::new();
    p.write_u32(0xdead_beef).unwrap();
    assert_eq!(p.as_slice(), &[0xef, 0xbe, 0xad, 0xde]);
    assert_eq!(p.data_position(), 4);
    p.set_data_position(0);
    assert_eq!(p.read_u32().unwrap(), 0xdead_beef);
    assert_eq!(p.data_position(), 4);
}

#[test]
fn i32_u64_u16_u8_bool_round_trip() {
    let mut p = Parcel::new();
    p.write_i32(-7).unwrap();
    p.write_u64(0x0102_0304_0506_0708).unwrap();
    p.write_u16(0xabcd).unwrap();
    p.write_u8(0x5a).unwrap();
    p.write_bool(true).unwrap();
    p.write_usize(42).unwrap();
    assert_eq!(p.data_position(), 4 + 8 + 4 + 4 + 4 + 8);
    assert_eq!(&p.as_slice()[12..20], &[0xcd, 0xab, 0, 0, 0x5a, 0, 0, 0]);
    p.reset_cursor();
    assert_eq!(p.read_i32().unwrap(), -7);
    assert_eq!(p.read_u64().unwrap(), 0x0102_0304_0506_0708);
    assert_eq!(p.read_u16().unwrap(), 0xabcd);
    assert_eq!(p.read_u8().unwrap(), 0x5a);
    assert!(p.read_bool().unwrap());
    assert_eq!(p.read_usize().unwrap(), 42);
    assert!(!p.has_unread_data());
}

#[test]
fn byte_slice_is_padded_with_zeros() {
    let mut p = Parcel::new();
    p.write(&[1, 2, 3]).unwrap();
    assert_eq!(p.as_slice(), &[1, 2, 3, 0]);
    p.write(&[9, 9, 9, 9, 9]).unwrap();
    assert_eq!(p.len(), 12);
    assert_eq!(&p.as_slice()[4..12], &[9, 9, 9, 9, 9, 0, 0, 0]);
    assert_eq!(p.data_position() % 4, 0);
    p.set_data_position(0);
    assert_eq!(p.read(3).unwrap(), vec![1, 2, 3]);
    assert_eq!(p.data_position(), 4);
    assert_eq!(p.read_without_alignment(2).unwrap(), vec![9, 9]);
    assert_eq!(p.data_position(), 6);
}

#[test]
fn read_past_end_fails_with_not_enough_data() {
    let mut p = Parcel::from_vec(vec![1, 2]);
    assert_eq!(p.read_u32(), Err(BinderError::NotEnoughData));
    assert_eq!(p.data_position(), 0);
    assert_eq!(p.read(4), Err(BinderError::NotEnoughData));
    let mut q = Parcel::from_vec(vec![0; 4]);
    assert_eq!(q.read_u64(), Err(BinderError::NotEnoughData));
}

#[test]
fn str_round_trip_and_layout() {
    let mut p = Parcel::new();
    p.write_str("hello").unwrap();
    assert_eq!(
        p.as_slice(),
        &[5, 0, 0, 0, b'h', b'e', b'l', b'l', b'o', 0, 0, 0]
    );
    p.set_data_position(0);
    assert_eq!(p.read_str().unwrap(), "hello");
    assert_eq!(p.data_position(), 12);
}

#[test]
fn empty_str_round_trip() {
    let mut p = Parcel::new();
    p.write_str("").unwrap();
    assert_eq!(p.as_slice(), &[0, 0, 0, 0, 0, 0, 0, 0]);
    p.set_data_position(0);
    assert_eq!(p.read_str().unwrap(), "");
}

#[test]
fn str_with_negative_length_is_bad_value() {
    let mut p = Parcel::new();
    p.write_i32(-1).unwrap();
    p.set_data_position(0);
    assert_eq!(p.read_str(), Err(BinderError::BadValue));
    p.set_data_position(0);
    assert_eq!(p.read_str16(), Err(BinderError::BadValue));
}

#[test]
fn str_with_invalid_utf8_fails() {
    let mut p = Parcel::from_vec(vec![2, 0, 0, 0, 0xff, 0xfe, 0, 0]);
    assert_eq!(p.read_str(), Err(BinderError::Utf8Error));
}

#[test]
fn str16_round_trip_and_layout() {
    let mut p = Parcel::new();
    p.write_str16("ab").unwrap();
    assert_eq!(p.as_slice(), &[2, 0, 0, 0, b'a', 0, b'b', 0, 0, 0, 0, 0]);
    p.set_data_position(0);
    assert_eq!(p.read_str16().unwrap(), "ab");
    let mut q = Parcel::new();
    q.write_str16("android.os.IServiceManager").unwrap();
    q.write_u32(77).unwrap();
    q.set_data_position(0);
    assert_eq!(q.read_str16().unwrap(), "android.os.IServiceManager");
    assert_eq!(q.read_u32().unwrap(), 77);
}

#[test]
fn str16_with_invalid_utf16_fails() {
    let mut p = Parcel::from_vec(vec![1, 0, 0, 0, 0x00, 0xd8, 0, 0]);
    assert_eq!(p.read_str16(), Err(BinderError::Utf16Error));
}

#[test]
fn str16_non_ascii_round_trip() {
    let mut p = Parcel::new();
    p.write_str16("h\u{e9}\u{1f600}").unwrap();
    assert_eq!(&p.as_slice()[0..4], &[4, 0, 0, 0]);
    p.set_data_position(0);
    assert_eq!(p.read_str16().unwrap(), "h\u{e9}\u{1f600}");
}

#[test]
fn interface_token_round_trip() {
    let mut p = Parcel::new();
    p.write_interface_token("android.os.IServiceManager").unwrap();
    assert_eq!(&p.as_slice()[0..4], &(0x4200_0004u32 | 0x8000_0000).to_le_bytes());
    assert_eq!(&p.as_slice()[4..8], &[0xff, 0xff, 0xff, 0xff]);
    assert_eq!(&p.as_slice()[8..12], &[b'T', b'S', b'Y', b'S']);
    p.set_data_position(0);
    assert_eq!(p.read_interface_token().unwrap(), "android.os.IServiceManager");
    assert!(!p.has_unread_data());
}

#[test]
fn interface_token_with_corrupt_marker_fails() {
    let mut p = Parcel::new();
    p.write_interface_token("x.y").unwrap();
    let mut bytes = p.as_slice().to_vec();
    bytes[9] ^= 0x01;
    let mut q = Parcel::from_vec(bytes);
    assert_eq!(q.read_interface_token(), Err(BinderError::BadValue));
}

#[test]
fn sized_block_skips_unread_rest() {
    let mut sub = Parcel::new();
    sub.write_u32(1).unwrap();
    sub.write_u32(2).unwrap();
    sub.write_u32(3).unwrap();
    let mut p = Parcel::new();
    p.sized_write(&sub).unwrap();
    p.write_u32(99).unwrap();
    assert_eq!(&p.as_slice()[0..4], &[16, 0, 0, 0]);
    p.set_data_position(0);
    let mut block = p.sized_read().unwrap();
    assert_eq!(block.read_u32().unwrap(), 1);
    assert_eq!(p.data_position(), 16);
    assert_eq!(p.read_u32().unwrap(), 99);
}

#[test]
fn sized_block_in_an_empty_parcel_is_exact() {
    let mut sub = Parcel::new();
    sub.write_u32(1).unwrap();
    sub.write_u32(2).unwrap();
    sub.write_u32(3).unwrap();
    let mut p = Parcel::new();
    p.sized_write(&sub).unwrap();
    assert_eq!(p.as_slice(), &[16, 0, 0, 0, 1, 0, 0, 0, 2, 0, 0, 0, 3, 0, 0, 0]);
    assert_eq!(p.data_position(), 16);
}

#[test]
fn sized_block_with_short_length_is_bad_value() {
    let mut p = Parcel::new();
    p.write_i32(2).unwrap();
    p.write_u32(0).unwrap();
    p.set_data_position(0);
    assert!(matches!(p.sized_read(), Err(BinderError::BadValue)));
}

#[test]
fn sized_block_past_the_buffer_is_not_enough_data() {
    let mut p = Parcel::new();
    p.write_i32(100).unwrap();
    p.write_u32(0).unwrap();
    p.set_data_position(0);
    assert!(matches!(p.sized_read(), Err(BinderError::NotEnoughData)));
}

#[test]
fn array_round_trip() {
    let mut p = Parcel::new();
    p.write_array(&[7, 8, 9]).unwrap();
    p.write_array(&[]).unwrap();
    assert_eq!(p.as_slice(), &[3, 0, 0, 0, 7, 8, 9, 0, 0, 0, 0, 0]);
    p.set_data_position(0);
    assert_eq!(p.read_array().unwrap(), Some(vec![7, 8, 9]));
    assert_eq!(p.read_array().unwrap(), None);
    let mut q = Parcel::new();
    q.write_i32(-2).unwrap();
    q.set_data_position(0);
    assert_eq!(q.read_array(), Err(BinderError::BadValue));
}

#[test]
fn array_char_round_trip() {
    let mut p = Parcel::new();
    p.write_array_char(&[0x41, 0xffff]).unwrap();
    assert_eq!(p.len(), 12);
    p.set_data_position(0);
    assert_eq!(p.read_array_char().unwrap(), Some(vec![0x41, 0xffff]));
}

#[test]
fn slice_size_and_out_vectors() {
    let mut p = Parcel::new();
    p.write_slice_size(Some(&[1u32, 2, 3][..])).unwrap();
    p.write_slice_size::<u32>(None).unwrap();
    p.set_data_position(0);
    let mut v: Vec<u8> = Vec::new();
    p.resize_out_vec(&mut v, 0).unwrap();
    assert_eq!(v.len(), 3);
    let mut w: Option<Vec<u8>> = Some(vec![1]);
    p.resize_nullable_out_vec(&mut w, 0).unwrap();
    assert_eq!(w, None);
    p.set_data_position(4);
    assert_eq!(p.resize_out_vec(&mut v, 0), Err(BinderError::UnexpectedNull));
    assert_eq!(v.len(), 3);
    assert_eq!(p.data_position(), 8);
}

#[test]
fn out_vectors_keep_old_and_fill_new_elements() {
    let mut p = Parcel::new();
    p.write_i32(4).unwrap();
    p.write_i32(2).unwrap();
    p.set_data_position(0);
    let mut v: Vec<u8> = vec![7, 8];
    p.resize_out_vec(&mut v, 9).unwrap();
    assert_eq!(v, vec![7, 8, 9, 9]);
    assert_eq!(p.data_position(), 4);
    let mut w: Option<Vec<u8>> = None;
    p.resize_nullable_out_vec(&mut w, 5).unwrap();
    assert_eq!(w, Some(vec![5, 5]));
    assert_eq!(p.data_position(), 8);
}

#[test]
fn sizes_and_cursor_management() {
    let mut p = Parcel::with_capacity(64);
    assert!(p.is_empty());
    assert!(p.capacity() >= p.len());
    p.write_u32(5).unwrap();
    assert_eq!(p.data_size(), 4);
    assert_eq!(p.data_avail(), 0);
    p.set_data_size(8);
    assert_eq!(p.as_slice(), &[5, 0, 0, 0, 0, 0, 0, 0]);
    assert_eq!(p.unread_data_size(), 4);
    p.set_data_size(2);
    assert_eq!(p.data_position(), 2);
    p.resize_data(4);
    assert_eq!(p.len(), 4);
    p.push_object();
    assert_eq!(p.offsets(), &[2]);
    p.clear_data();
    assert_eq!(p.data_position(), 0);
    assert_eq!(p.offsets_len(), 0);
    assert!(!p.is_empty());
}

#[test]
fn buffer_views_and_copies() {
    let mut p = Parcel::from_slice(&[1, 0, 0, 0, 2, 0, 0, 0, 0, 0, 0, 0]);
    p.as_slice_mut()[0] = 9;
    assert_eq!(p.read_u32().unwrap(), 9);
    p.offsets_mut().push(4);
    assert_eq!(p.offsets(), &[4]);
    p.set_data_position(4);
    assert_eq!(p.read_pointer().unwrap(), 2);
}

#[test]
fn append_all_of_an_empty_parcel_changes_nothing() {
    let mut p = Parcel::new();
    p.write_u32(3).unwrap();
    let empty = Parcel::new();
    p.append_all_from(&empty).unwrap();
    assert_eq!(p.len(), 4);
    assert_eq!(p.data_position(), 4);
}
