//! The module host's scratch arena: marshalling, collections, faults.

use sawtooth_sabre::host::{ExternalsError, HostMemory};

#[test]
// a buffer written byte by byte reads back exactly
fn write_data_round_trip() {
    let mut mem = HostMemory::new();
    let ptr = mem.write_data(b"payload bytes").unwrap();
    assert_eq!(mem.get_ptr_len(ptr).unwrap(), 13);
    assert_eq!(mem.read_data(ptr).unwrap(), b"payload bytes".to_vec());
    assert_eq!(mem.read_byte(ptr, 0).unwrap(), b'p');
    assert_eq!(mem.read_byte(ptr, 12).unwrap(), b's');
}

#[test]
// an allocation starts zeroed and is written one byte at a time
fn allocate_and_write() {
    let mut mem = HostMemory::new();
    let ptr = mem.allocate(3);
    assert_eq!(mem.read_data(ptr).unwrap(), vec![0u8, 0, 0]);
    mem.write_byte(ptr, 1, 0xab).unwrap();
    assert_eq!(mem.read_data(ptr).unwrap(), vec![0u8, 0xab, 0]);
}

#[test]
// collections hold buffer handles in insertion order
fn collections_hold_handles() {
    let mut mem = HostMemory::new();
    let a = mem.write_data(b"one").unwrap();
    let b = mem.write_data(b"two").unwrap();
    let col = mem.create_collection(a).unwrap();
    mem.add_to_collection(col, b).unwrap();
    assert_eq!(mem.get_ptr_collection_len(col).unwrap(), 2);
    assert_eq!(mem.get_ptr_from_collection(col, 0).unwrap(), a);
    assert_eq!(mem.get_ptr_from_collection(col, 1).unwrap(), b);
    assert!(mem.get_ptr_from_collection(col, 2).is_err());
}

#[test]
// any access outside an allocated buffer or collection is a fault
fn out_of_bounds_access_faults() {
    let mut mem = HostMemory::new();
    assert_eq!(mem.get_ptr_len(0).unwrap_err(), ExternalsError::UnknownBuffer);
    let ptr = mem.write_data(b"x").unwrap();
    assert_eq!(mem.write_byte(ptr, 1, 0).unwrap_err(), ExternalsError::OutOfBounds);
    assert_eq!(mem.read_byte(ptr, 1).unwrap_err(), ExternalsError::OutOfBounds);
    assert_eq!(mem.create_collection(99).unwrap_err(), ExternalsError::UnknownBuffer);
    assert_eq!(
        mem.add_to_collection(99, ptr).unwrap_err(),
        ExternalsError::UnknownCollection
    );
}
