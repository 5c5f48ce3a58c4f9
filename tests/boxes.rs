use unibox::{
    BoxError, Buffer, Storable, UniBox, UniBox128, UniBox256, UniBox32, UniBox64, UniBoxN,
    Uniboxed,
};

fn check_sucession(arr: &[u8]) -> bool {
    for (i, v) in arr.iter().enumerate() {
        if *v != i as u8 {
            return false;
        }
    }
    true
}

fn init_array(arr: &mut [u8]) {
    for (i, v) in arr.iter_mut().enumerate() {
        *v = i as u8;
    }
}

trait TestArrayStruct {
    fn new() -> Self
    where
        Self: Sized;
    fn check(&self) -> bool;
}

type Test32 = [u8; 32];
type Test64 = [u8; 64];
type Test128 = [u8; 128];
type Test256 = [u8; 256];

impl TestArrayStruct for Test32 {
    fn new() -> Self {
        let mut arr = [0; 32];
        init_array(&mut arr);
        arr
    }

    fn check(&self) -> bool {
        check_sucession(self)
    }
}

impl TestArrayStruct for Test64 {
    fn new() -> Self {
        let mut arr = [0; 64];
        init_array(&mut arr);
        arr
    }

    fn check(&self) -> bool {
        check_sucession(self)
    }
}

impl TestArrayStruct for Test128 {
    fn new() -> Self {
        let mut arr = [0; 128];
        init_array(&mut arr);
        arr
    }

    fn check(&self) -> bool {
        check_sucession(self)
    }
}

impl TestArrayStruct for Test256 {
    fn new() -> Self {
        let mut arr = [0; 256];
        init_array(&mut arr);
        arr
    }

    fn check(&self) -> bool {
        check_sucession(self)
    }
}

fn test_type<T: TestArrayStruct + Storable, U: Uniboxed>() {
    let ubox = U::new(T::new()).expect("Couldn't create a uniboxed type");
    let inner = ubox.as_ref::<T>();
    assert!(inner.check(), "Content is incorrect");
}

#[test]
fn static_32() {
    test_type::<Test32, UniBox32>();
}

#[test]
fn static_64() {
    test_type::<Test64, UniBox64>();
}

#[test]
fn static_128() {
    test_type::<Test128, UniBox128>();
}

#[test]
fn static_256() {
    test_type::<Test256, UniBox256>();
}

#[test]
fn dynamic() {
    test_type::<Test32, UniBox>();
    test_type::<Test64, UniBox>();
    test_type::<Test128, UniBox>();
    test_type::<Test256, UniBox>();
}

#[test]
fn stored_record_reads_back_with_length_and_id() {
    let mut record = [0u8; 24];
    init_array(&mut record);
    record[23] = 37;
    let ubox = UniBox32::new_with_id(record, 7).expect("a 24-byte value fits in 32 bytes");
    assert_eq!(ubox.len(), 24);
    assert_eq!(ubox.id(), 7);
    assert!(ubox.check_type::<[u8; 24]>());
    let back = ubox.as_ref::<[u8; 24]>();
    assert_eq!(back[23], record[23]);
    assert_eq!(back, record);
}

#[test]
fn oversized_value_is_refused_and_stays_usable() {
    let mut big = [0u8; 40];
    init_array(&mut big);
    let r = UniBox32::new(big);
    assert!(matches!(r, Err(BoxError::CapacityExceeded)));
    assert_eq!(big[39], 39);
    assert!(check_sucession(&big));
}

#[test]
fn capacity_boundary_of_each_inline_box() {
    assert!(UniBox32::new([1u8; 32]).is_ok());
    assert!(matches!(UniBox32::new([1u8; 33]), Err(BoxError::CapacityExceeded)));
    assert!(UniBox64::new([1u8; 64]).is_ok());
    assert!(matches!(UniBox64::new([1u8; 65]), Err(BoxError::CapacityExceeded)));
    assert!(UniBox128::new([1u8; 128]).is_ok());
    assert!(matches!(UniBox128::new([1u8; 129]), Err(BoxError::CapacityExceeded)));
    assert!(UniBox256::new([1u8; 256]).is_ok());
    assert!(matches!(UniBox256::new([1u8; 257]), Err(BoxError::CapacityExceeded)));
}

#[test]
fn heap_box_takes_values_larger_than_any_inline_box() {
    let mut big = [0u8; 300];
    init_array(&mut big);
    let ubox = UniBox::new_with_id(big, 3).expect("the allocator gave the block");
    assert_eq!(ubox.len(), 300);
    assert_eq!(ubox.id(), 3);
    assert!(ubox.as_ref::<[u8; 300]>() == big);
}

#[test]
fn mismatched_size_is_not_held() {
    let ubox = UniBox32::new(0x0102_0304u32).unwrap();
    assert!(ubox.check_type::<u32>());
    assert!(!ubox.check_type::<u64>());
    assert!(!ubox.check_type::<u16>());
    assert!(!ubox.check_type::<[u8; 8]>());
    let heap = UniBox::new(7u64).unwrap();
    assert!(heap.check_type::<u64>());
    assert!(!heap.check_type::<u32>());
}

#[test]
fn mismatched_alignment_is_not_held() {
    let ubox = UniBox64::new(5u64).unwrap();
    assert!(ubox.check_type::<u64>());
    assert!(!ubox.check_type::<[u8; 8]>());
}

#[test]
fn take_owned_empties_the_box() {
    let mut ubox = UniBox64::new_with_id(0xdead_beef_u64, 9).unwrap();
    let v = ubox.take_owned::<u64>();
    assert_eq!(v, 0xdead_beef);
    assert_eq!(ubox.len(), 0);
    assert_eq!(ubox.id(), 9);
    assert!(!ubox.check_type::<u64>());

    let mut heap = UniBox::new(0x1234u16).unwrap();
    assert_eq!(heap.take_owned::<u16>(), 0x1234);
    assert_eq!(heap.len(), 0);
    assert!(!heap.check_type::<u16>());
}

#[test]
fn replace_returns_old_value_and_stores_new_one() {
    let mut ubox = UniBox128::new_with_id(10u32, 4).unwrap();
    assert_eq!(ubox.replace(20u32), 10);
    assert_eq!(ubox.as_ref::<u32>(), 20);
    assert_eq!(ubox.id(), 4);

    let mut heap = UniBox::new_with_id([1u8, 2, 3], 5).unwrap();
    assert_eq!(heap.replace([7u8, 8, 9]), [1, 2, 3]);
    assert_eq!(heap.as_ref::<[u8; 3]>(), [7, 8, 9]);
    assert_eq!(heap.len(), 3);
}

#[test]
fn integers_round_trip_through_every_box() {
    let a = UniBox32::new(0xabu8).unwrap();
    assert_eq!(a.as_ref::<u8>(), 0xab);
    assert_eq!(a.len(), 1);
    let b = UniBox64::new(0xbeefu16).unwrap();
    assert_eq!(b.as_ref::<u16>(), 0xbeef);
    assert_eq!(b.len(), 2);
    let c = UniBox128::new(u64::MAX - 1).unwrap();
    assert_eq!(c.as_ref::<u64>(), u64::MAX - 1);
    assert_eq!(c.len(), 8);
    let d = UniBox256::new(0x0011_2233_4455_6677_8899_aabb_ccdd_eeffu128).unwrap();
    assert_eq!(d.as_ref::<u128>(), 0x0011_2233_4455_6677_8899_aabb_ccdd_eeff);
    assert_eq!(d.len(), 16);
    let e = UniBox::new(0x8000_0001u32).unwrap();
    assert_eq!(e.as_ref::<u32>(), 0x8000_0001);
    assert_eq!(e.len(), 4);
}

#[test]
fn integer_images_are_little_endian() {
    assert_eq!(0x0102u16.to_image(), vec![2, 1]);
    assert_eq!(0x0102_0304u32.to_image(), vec![4, 3, 2, 1]);
    assert_eq!(0x0102_0304_0506_0708u64.to_image(), vec![8, 7, 6, 5, 4, 3, 2, 1]);
    assert_eq!(<u32 as Storable>::from_image(&[4, 3, 2, 1, 9]), 0x0102_0304);
    assert_eq!(<u16 as Storable>::size(), 2);
    assert_eq!(<u128 as Storable>::size(), 16);
    assert_eq!(<[u8; 5] as Storable>::size(), 5);
}

#[test]
fn default_identifier_is_zero() {
    assert_eq!(UniBox32::new(1u8).unwrap().id(), 0);
    assert_eq!(UniBox::new(1u8).unwrap().id(), 0);
    assert_eq!(UniBoxN::<[u8; 16]>::new(1u8).unwrap().id(), 0);
}

#[test]
fn generic_inline_box_over_a_custom_capacity() {
    let ubox = UniBoxN::<[u8; 12]>::new_with_id([9u8; 12], 2).unwrap();
    assert_eq!(ubox.as_ref::<[u8; 12]>(), [9u8; 12]);
    assert!(matches!(
        UniBoxN::<[u8; 12]>::new([9u8; 13]),
        Err(BoxError::CapacityExceeded)
    ));
}

#[test]
fn buffer_copies_keep_the_rest() {
    let mut b: [u8; 8] = <[u8; 8] as Buffer>::init();
    assert_eq!(b, [0u8; 8]);
    assert_eq!(<[u8; 8] as Buffer>::capacity(), 8);
    b.copy_from_byte(&[1, 2, 3, 4, 5], 3);
    assert_eq!(b, [1, 2, 3, 0, 0, 0, 0, 0]);
    let src: [u8; 8] = [9; 8];
    b.copy_from_type(&src, 2);
    assert_eq!(b, [9, 9, 3, 0, 0, 0, 0, 0]);
    assert_eq!(b.as_bytes(), &[9, 9, 3, 0, 0, 0, 0, 0]);
}
