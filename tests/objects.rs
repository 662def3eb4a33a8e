use binder_ipc::error::BinderError;
use binder_ipc::flat_object::{BinderFlatObject, BinderType};
use binder_ipc::parcel::Parcel;

#[test]
fn flat_object_layout() {
    let o = BinderFlatObject::new(BinderType::Handle, 3, 0x1122, 7);
    let b = o.to_bytes();
    assert_eq!(b.len(), 24);
    assert_eq!(&b[0..4], &[0x85, b'*', b'h', b's']);
    assert_eq!(&b[4..8], &[7, 0, 0, 0]);
    assert_eq!(&b[8..16], &[3, 0, 0, 0, 0, 0, 0, 0]);
    assert_eq!(&b[16..24], &[0x22, 0x11, 0, 0, 0, 0, 0, 0]);
    assert_eq!(BinderFlatObject::from_bytes(&b, 0), Ok(o));
}

#[test]
fn flat_object_with_unknown_tag_is_bad_type() {
    let b = vec![0u8; 24];
    assert_eq!(BinderFlatObject::from_bytes(&b, 0), Err(BinderError::BadType));
}

#[test]
fn acquire_and_release_by_kind() {
    assert_eq!(BinderFlatObject::new(BinderType::Handle, 1, 0, 0).acquire(), Ok(()));
    assert_eq!(BinderFlatObject::new(BinderType::Binder, 1, 0, 0).acquire(), Ok(()));
    assert_eq!(BinderFlatObject::new(BinderType::Fd, 1, 0, 0).acquire(), Ok(()));
    assert_eq!(
        BinderFlatObject::new(BinderType::Fda, 1, 0, 0).acquire(),
        Err(BinderError::InvalidOperation)
    );
    let mut weak = BinderFlatObject::new(BinderType::WeakHandle, 1, 0, 0);
    assert_eq!(weak.release(), Err(BinderError::InvalidOperation));
    let mut borrowed = BinderFlatObject::new_with_fd(1, false);
    assert_eq!(borrowed.release(), Ok(()));
    assert_eq!(borrowed.cookie(), 0);
}

#[test]
fn fd_object_accessors() {
    let o = BinderFlatObject::new_with_fd(9, true);
    assert_eq!(o.header_type(), BinderType::Fd);
    assert_eq!(o.cookie(), 1);
    assert_eq!(o.owned_fd(), Some(9));
    assert_eq!(o.borrowed_fd(), Some(9));
    let h = BinderFlatObject::new(BinderType::Handle, 9, 0, 0);
    assert_eq!(h.owned_fd(), None);
    let mut d = BinderFlatObject::default();
    d.set_pointer(0x10);
    d.set_cookie(5);
    assert_eq!(d.pointer(), 0x10);
    d.set_handle(4);
    assert_eq!(d.handle(), 4);
}

#[test]
fn object_offsets_stay_ordered() {
    let mut p = Parcel::new();
    p.write_u32(1).unwrap();
    p.write_object(&BinderFlatObject::new(BinderType::Handle, 5, 0, 0), true).unwrap();
    p.write_str("abc").unwrap();
    p.write_object(&BinderFlatObject::new(BinderType::Binder, 0x1000, 0, 0), false).unwrap();
    p.write_u8(2).unwrap();
    p.write_object(&BinderFlatObject::new(BinderType::Handle, 6, 0, 0), true).unwrap();
    let offs = p.offsets().to_vec();
    assert_eq!(offs, vec![4, 36, 64]);
    for w in offs.windows(2) {
        assert!(w[0] < w[1]);
    }
    assert!(offs.iter().all(|o| o % 4 == 0));
}

#[test]
fn null_object_is_listed_only_where_nulls_are_allowed() {
    let mut p = Parcel::new();
    p.write_object(&BinderFlatObject::default(), false).unwrap();
    assert_eq!(p.offsets_len(), 0);
    p.set_data_position(0);
    assert_eq!(p.read_object(true), Ok(BinderFlatObject::default()));
    p.set_data_position(0);
    assert_eq!(p.read_object(false), Err(BinderError::BadType));
    let mut q = Parcel::new();
    q.write_object(&BinderFlatObject::default(), true).unwrap();
    assert_eq!(q.offsets(), &[0]);
    q.set_data_position(0);
    assert_eq!(q.read_object(false), Ok(BinderFlatObject::default()));
}

#[test]
fn failed_acquire_leaves_table_unchanged() {
    let mut p = Parcel::new();
    let r = p.write_object(&BinderFlatObject::new(BinderType::Fda, 1, 0, 0), true);
    assert_eq!(r, Err(BinderError::InvalidOperation));
    assert_eq!(p.offsets_len(), 0);
    assert_eq!(p.data_position(), 24);
}

#[test]
fn read_object_checks_the_offset_table() {
    let mut p = Parcel::new();
    let a = BinderFlatObject::new(BinderType::Handle, 1, 0, 0);
    let b = BinderFlatObject::new(BinderType::Handle, 2, 0, 0);
    p.write_object(&a, true).unwrap();
    p.write_object(&b, true).unwrap();
    p.set_data_position(24);
    assert_eq!(p.read_object(true), Ok(b));
    p.set_data_position(0);
    assert_eq!(p.read_object(true), Ok(a));
    let mut raw = Parcel::from_vec(a.to_bytes());
    assert_eq!(raw.read_object(true), Err(BinderError::BadType));
    let mut short = Parcel::from_vec(vec![0; 8]);
    assert_eq!(short.read_object(true), Err(BinderError::NotEnoughData));
}

#[test]
fn binder_and_fd_writers() {
    let mut p = Parcel::new();
    p.write_binder(0x4000).unwrap();
    p.write_file_descriptor(1, false).unwrap();
    assert_eq!(p.offsets(), &[0, 24]);
    p.set_data_position(24);
    assert_eq!(p.read_file_descriptor(), Ok(1));
    p.set_data_position(0);
    assert_eq!(p.read_file_descriptor(), Err(BinderError::BadType));
}

#[test]
fn append_rebases_offsets() {
    let mut a = Parcel::new();
    a.write_u32(0xaa).unwrap();
    a.write_object(&BinderFlatObject::new(BinderType::Handle, 7, 0, 0), true).unwrap();
    a.write_u32(0xbb).unwrap();
    let mut b = Parcel::new();
    b.write_u32(1).unwrap();
    b.write_u32(2).unwrap();
    b.append_from(&a, 0, a.data_size()).unwrap();
    assert_eq!(b.offsets(), &[4 - 0 + 8]);
    assert_eq!(b.data_position(), 8 + 32);
    assert_eq!(&b.as_slice()[8..40], a.as_slice());
    b.set_data_position(12);
    assert_eq!(b.read_object(true).unwrap().handle(), 7);
}

#[test]
fn append_of_part_takes_only_objects_inside() {
    let mut a = Parcel::new();
    a.write_object(&BinderFlatObject::new(BinderType::Handle, 1, 0, 0), true).unwrap();
    a.write_object(&BinderFlatObject::new(BinderType::Handle, 2, 0, 0), true).unwrap();
    let mut b = Parcel::new();
    b.append_from(&a, 20, 28).unwrap();
    assert_eq!(b.offsets(), &[4]);
    assert_eq!(b.data_position(), 28);
}

#[test]
fn append_duplicates_descriptors() {
    let mut a = Parcel::new();
    a.write_file_descriptor(1, false).unwrap();
    let mut b = Parcel::new();
    b.write_u32(0).unwrap();
    b.append_all_from(&a).unwrap();
    assert_eq!(b.offsets(), &[4]);
    b.set_data_position(4);
    let o = b.read_object(true).unwrap();
    assert_eq!(o.header_type(), BinderType::Fd);
    assert_ne!(o.handle(), 1);
    assert_eq!(o.cookie(), 1);
    b.release_objects();
    b.set_data_position(4);
    assert_eq!(b.read_object(true).unwrap().cookie(), 0);
}

#[test]
fn append_out_of_range_is_bad_value() {
    let mut a = Parcel::new();
    a.write_u32(1).unwrap();
    let mut b = Parcel::new();
    assert_eq!(b.append_from(&a, 2, 4), Err(BinderError::BadValue));
    assert_eq!(b.append_from(&a, 0, 0), Ok(()));
    assert_eq!(b.len(), 0);
}

#[test]
fn append_reports_the_first_bad_object() {
    let mut a = Parcel::new();
    a.write_object(&BinderFlatObject::new(BinderType::Handle, 1, 0, 0), true).unwrap();
    let mut raw = vec![0u8; 24];
    raw[0] = 1;
    a.write(&raw).unwrap();
    a.set_data_position(24);
    a.push_object();
    a.set_data_position(48);
    let mut b = Parcel::new();
    assert_eq!(b.append_from(&a, 0, 48), Err(BinderError::BadType));
    assert_eq!(b.offsets(), &[0]);
    assert_eq!(b.data_position(), 48);

    let mut c = Parcel::new();
    c.write_object(&BinderFlatObject::new(BinderType::Handle, 1, 0, 0), true).unwrap();
    c.write(&BinderFlatObject::new(BinderType::WeakHandle, 2, 0, 0).to_bytes()).unwrap();
    c.set_data_position(24);
    c.push_object();
    let mut d = Parcel::new();
    assert_eq!(d.append_from(&c, 0, 48), Err(BinderError::InvalidOperation));
    assert_eq!(d.offsets(), &[0]);
}

#[test]
fn write_array_succeeds_where_it_fits() {
    let mut p = Parcel::new();
    p.write_u32(1).unwrap();
    assert_eq!(p.write_array(&[1, 2, 3, 4, 5]), Ok(()));
    assert_eq!(p.data_position(), 16);
}
