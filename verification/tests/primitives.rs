use atomig::{Atomic, Ordering};

#[test]
fn bool_new() {
    let _: Atomic<bool> = Atomic::new(true);
}

#[test]
fn bool_load_store() {
    let a = Atomic::new(true);
    assert_eq!(a.load(Ordering::SeqCst), Ok(true));

    a.store(false, Ordering::SeqCst);
    assert_eq!(a.load(Ordering::SeqCst), Ok(false));
}

#[test]
fn bool_into_inner() {
    let a = Atomic::new(true);
    assert_eq!(a.into_inner(), Ok(true));
}

#[test]
fn bool_swap() {
    let a = Atomic::new(true);
    assert_eq!(a.swap(false, Ordering::SeqCst), Ok(true));
    assert_eq!(a.load(Ordering::SeqCst), Ok(false));
}

#[test]
fn bool_from() {
    let a = Atomic::new(true);
    let b: Atomic<bool> = true.into();
    assert_eq!(a.load(Ordering::SeqCst), b.load(Ordering::SeqCst));
    assert_eq!(b.load(Ordering::SeqCst), Ok(true));
}

#[test]
fn bool_default() {
    let a: Atomic<bool> = Default::default();
    assert_eq!(a.load(Ordering::SeqCst), Ok(<bool>::default()));
}

#[test]
fn bool_compare_exchange() {
    let a = Atomic::new(true);
    assert_eq!(a.compare_exchange(true, false, Ordering::SeqCst, Ordering::SeqCst), Ok(Ok(true)));
    assert_eq!(a.load(Ordering::SeqCst), Ok(false));
    assert_eq!(a.compare_exchange(true, true, Ordering::SeqCst, Ordering::Relaxed), Ok(Err(false)));
    assert_eq!(a.load(Ordering::SeqCst), Ok(false));
}

#[test]
fn bool_compare_exchange_weak() {
    let a = Atomic::new(true);
    let mut old = a.load(Ordering::Relaxed).unwrap();
    loop {
        match a.compare_exchange_weak(old, false, Ordering::SeqCst, Ordering::Relaxed).unwrap() {
            Ok(prev) => {
                assert_eq!(prev, true);
                break;
            }
            Err(seen) => old = seen,
        }
    }
    assert_eq!(a.load(Ordering::SeqCst), Ok(false));
}

#[test]
fn bool_fetch_update() {
    let a = Atomic::new(true);
    assert_eq!(a.fetch_update(Ordering::SeqCst, Ordering::SeqCst, |_| None), Ok(Err(true)));
    assert_eq!(a.load(Ordering::SeqCst), Ok(true));
    assert_eq!(a.fetch_update(Ordering::SeqCst, Ordering::SeqCst, |_| Some(false)), Ok(Ok(true)));
    assert_eq!(a.load(Ordering::SeqCst), Ok(false));
}

#[test]
fn bool_logic() {
    let a = Atomic::new(true);
    assert_eq!(a.fetch_and(false, Ordering::SeqCst), Ok(true));
    assert_eq!(a.load(Ordering::SeqCst), Ok(true & false));

    let a = Atomic::new(true);
    assert_eq!(a.fetch_nand(false, Ordering::SeqCst), Ok(true));
    assert_eq!(a.load(Ordering::SeqCst), Ok(!(true & false)));

    let a = Atomic::new(true);
    assert_eq!(a.fetch_or(false, Ordering::SeqCst), Ok(true));
    assert_eq!(a.load(Ordering::SeqCst), Ok(true | false));

    let a = Atomic::new(true);
    assert_eq!(a.fetch_xor(false, Ordering::SeqCst), Ok(true));
    assert_eq!(a.load(Ordering::SeqCst), Ok(true ^ false));
}

#[test]
fn u8_new() {
    let _: Atomic<u8> = Atomic::new(7u8);
}

#[test]
fn u8_load_store() {
    let a = Atomic::new(7u8);
    assert_eq!(a.load(Ordering::SeqCst), Ok(7u8));

    a.store(33u8, Ordering::SeqCst);
    assert_eq!(a.load(Ordering::SeqCst), Ok(33u8));
}

#[test]
fn u8_into_inner() {
    let a = Atomic::new(7u8);
    assert_eq!(a.into_inner(), Ok(7u8));
}

#[test]
fn u8_swap() {
    let a = Atomic::new(7u8);
    assert_eq!(a.swap(33u8, Ordering::SeqCst), Ok(7u8));
    assert_eq!(a.load(Ordering::SeqCst), Ok(33u8));
}

#[test]
fn u8_from() {
    let a = Atomic::new(7u8);
    let b: Atomic<u8> = 7u8.into();
    assert_eq!(a.load(Ordering::SeqCst), b.load(Ordering::SeqCst));
    assert_eq!(b.load(Ordering::SeqCst), Ok(7u8));
}

#[test]
fn u8_default() {
    let a: Atomic<u8> = Default::default();
    assert_eq!(a.load(Ordering::SeqCst), Ok(<u8>::default()));
}

#[test]
fn u8_compare_exchange() {
    let a = Atomic::new(7u8);
    assert_eq!(a.compare_exchange(7u8, 33u8, Ordering::SeqCst, Ordering::SeqCst), Ok(Ok(7u8)));
    assert_eq!(a.load(Ordering::SeqCst), Ok(33u8));
    assert_eq!(a.compare_exchange(7u8, 7u8, Ordering::SeqCst, Ordering::Relaxed), Ok(Err(33u8)));
    assert_eq!(a.load(Ordering::SeqCst), Ok(33u8));
}

#[test]
fn u8_compare_exchange_weak() {
    let a = Atomic::new(7u8);
    let mut old = a.load(Ordering::Relaxed).unwrap();
    loop {
        match a.compare_exchange_weak(old, 33u8, Ordering::SeqCst, Ordering::Relaxed).unwrap() {
            Ok(prev) => {
                assert_eq!(prev, 7u8);
                break;
            }
            Err(seen) => old = seen,
        }
    }
    assert_eq!(a.load(Ordering::SeqCst), Ok(33u8));
}

#[test]
fn u8_fetch_update() {
    let a = Atomic::new(7u8);
    assert_eq!(a.fetch_update(Ordering::SeqCst, Ordering::SeqCst, |_| None), Ok(Err(7u8)));
    assert_eq!(a.load(Ordering::SeqCst), Ok(7u8));
    assert_eq!(a.fetch_update(Ordering::SeqCst, Ordering::SeqCst, |_| Some(33u8)), Ok(Ok(7u8)));
    assert_eq!(a.load(Ordering::SeqCst), Ok(33u8));
}

#[test]
fn u8_logic() {
    let a = Atomic::new(7u8);
    assert_eq!(a.fetch_and(33u8, Ordering::SeqCst), Ok(7u8));
    assert_eq!(a.load(Ordering::SeqCst), Ok(7u8 & 33u8));

    let a = Atomic::new(7u8);
    assert_eq!(a.fetch_nand(33u8, Ordering::SeqCst), Ok(7u8));
    assert_eq!(a.load(Ordering::SeqCst), Ok(!(7u8 & 33u8)));

    let a = Atomic::new(7u8);
    assert_eq!(a.fetch_or(33u8, Ordering::SeqCst), Ok(7u8));
    assert_eq!(a.load(Ordering::SeqCst), Ok(7u8 | 33u8));

    let a = Atomic::new(7u8);
    assert_eq!(a.fetch_xor(33u8, Ordering::SeqCst), Ok(7u8));
    assert_eq!(a.load(Ordering::SeqCst), Ok(7u8 ^ 33u8));
}

#[test]
fn u8_integer() {
    let a = Atomic::new(7u8);
    assert_eq!(a.fetch_add(33u8, Ordering::SeqCst), Ok(7u8));
    assert_eq!(a.load(Ordering::SeqCst), Ok(7u8.wrapping_add(33u8)));

    let a = Atomic::new(7u8);
    assert_eq!(a.fetch_sub(33u8, Ordering::SeqCst), Ok(7u8));
    assert_eq!(a.load(Ordering::SeqCst), Ok(7u8.wrapping_sub(33u8)));
}

#[test]
fn u8_max_min() {
    let a = Atomic::new(7u8);
    assert_eq!(a.fetch_max(33u8, Ordering::SeqCst), Ok(7u8));
    assert_eq!(a.load(Ordering::SeqCst), Ok(33u8));
    assert_eq!(a.fetch_min(7u8, Ordering::SeqCst), Ok(33u8));
    assert_eq!(a.load(Ordering::SeqCst), Ok(7u8));
    assert_eq!(a.fetch_min(33u8, Ordering::SeqCst), Ok(7u8));
    assert_eq!(a.load(Ordering::SeqCst), Ok(7u8));
}

#[test]
fn u8_add_wraps() {
    let a = Atomic::new(<u8>::MAX);
    assert_eq!(a.fetch_add(1, Ordering::SeqCst), Ok(<u8>::MAX));
    assert_eq!(a.load(Ordering::SeqCst), Ok(<u8>::MIN));
    assert_eq!(a.fetch_sub(1, Ordering::SeqCst), Ok(<u8>::MIN));
    assert_eq!(a.load(Ordering::SeqCst), Ok(<u8>::MAX));
}

#[test]
fn i8_new() {
    let _: Atomic<i8> = Atomic::new(7i8);
}

#[test]
fn i8_load_store() {
    let a = Atomic::new(7i8);
    assert_eq!(a.load(Ordering::SeqCst), Ok(7i8));

    a.store(33i8, Ordering::SeqCst);
    assert_eq!(a.load(Ordering::SeqCst), Ok(33i8));
}

#[test]
fn i8_into_inner() {
    let a = Atomic::new(7i8);
    assert_eq!(a.into_inner(), Ok(7i8));
}

#[test]
fn i8_swap() {
    let a = Atomic::new(7i8);
    assert_eq!(a.swap(33i8, Ordering::SeqCst), Ok(7i8));
    assert_eq!(a.load(Ordering::SeqCst), Ok(33i8));
}

#[test]
fn i8_from() {
    let a = Atomic::new(7i8);
    let b: Atomic<i8> = 7i8.into();
    assert_eq!(a.load(Ordering::SeqCst), b.load(Ordering::SeqCst));
    assert_eq!(b.load(Ordering::SeqCst), Ok(7i8));
}

#[test]
fn i8_default() {
    let a: Atomic<i8> = Default::default();
    assert_eq!(a.load(Ordering::SeqCst), Ok(<i8>::default()));
}

#[test]
fn i8_compare_exchange() {
    let a = Atomic::new(7i8);
    assert_eq!(a.compare_exchange(7i8, 33i8, Ordering::SeqCst, Ordering::SeqCst), Ok(Ok(7i8)));
    assert_eq!(a.load(Ordering::SeqCst), Ok(33i8));
    assert_eq!(a.compare_exchange(7i8, 7i8, Ordering::SeqCst, Ordering::Relaxed), Ok(Err(33i8)));
    assert_eq!(a.load(Ordering::SeqCst), Ok(33i8));
}

#[test]
fn i8_compare_exchange_weak() {
    let a = Atomic::new(7i8);
    let mut old = a.load(Ordering::Relaxed).unwrap();
    loop {
        match a.compare_exchange_weak(old, 33i8, Ordering::SeqCst, Ordering::Relaxed).unwrap() {
            Ok(prev) => {
                assert_eq!(prev, 7i8);
                break;
            }
            Err(seen) => old = seen,
        }
    }
    assert_eq!(a.load(Ordering::SeqCst), Ok(33i8));
}

#[test]
fn i8_fetch_update() {
    let a = Atomic::new(7i8);
    assert_eq!(a.fetch_update(Ordering::SeqCst, Ordering::SeqCst, |_| None), Ok(Err(7i8)));
    assert_eq!(a.load(Ordering::SeqCst), Ok(7i8));
    assert_eq!(a.fetch_update(Ordering::SeqCst, Ordering::SeqCst, |_| Some(33i8)), Ok(Ok(7i8)));
    assert_eq!(a.load(Ordering::SeqCst), Ok(33i8));
}

#[test]
fn i8_logic() {
    let a = Atomic::new(7i8);
    assert_eq!(a.fetch_and(33i8, Ordering::SeqCst), Ok(7i8));
    assert_eq!(a.load(Ordering::SeqCst), Ok(7i8 & 33i8));

    let a = Atomic::new(7i8);
    assert_eq!(a.fetch_nand(33i8, Ordering::SeqCst), Ok(7i8));
    assert_eq!(a.load(Ordering::SeqCst), Ok(!(7i8 & 33i8)));

    let a = Atomic::new(7i8);
    assert_eq!(a.fetch_or(33i8, Ordering::SeqCst), Ok(7i8));
    assert_eq!(a.load(Ordering::SeqCst), Ok(7i8 | 33i8));

    let a = Atomic::new(7i8);
    assert_eq!(a.fetch_xor(33i8, Ordering::SeqCst), Ok(7i8));
    assert_eq!(a.load(Ordering::SeqCst), Ok(7i8 ^ 33i8));
}

#[test]
fn i8_integer() {
    let a = Atomic::new(7i8);
    assert_eq!(a.fetch_add(33i8, Ordering::SeqCst), Ok(7i8));
    assert_eq!(a.load(Ordering::SeqCst), Ok(7i8.wrapping_add(33i8)));

    let a = Atomic::new(7i8);
    assert_eq!(a.fetch_sub(33i8, Ordering::SeqCst), Ok(7i8));
    assert_eq!(a.load(Ordering::SeqCst), Ok(7i8.wrapping_sub(33i8)));
}

#[test]
fn i8_max_min() {
    let a = Atomic::new(7i8);
    assert_eq!(a.fetch_max(33i8, Ordering::SeqCst), Ok(7i8));
    assert_eq!(a.load(Ordering::SeqCst), Ok(33i8));
    assert_eq!(a.fetch_min(7i8, Ordering::SeqCst), Ok(33i8));
    assert_eq!(a.load(Ordering::SeqCst), Ok(7i8));
    assert_eq!(a.fetch_min(33i8, Ordering::SeqCst), Ok(7i8));
    assert_eq!(a.load(Ordering::SeqCst), Ok(7i8));
}

#[test]
fn i8_add_wraps() {
    let a = Atomic::new(<i8>::MAX);
    assert_eq!(a.fetch_add(1, Ordering::SeqCst), Ok(<i8>::MAX));
    assert_eq!(a.load(Ordering::SeqCst), Ok(<i8>::MIN));
    assert_eq!(a.fetch_sub(1, Ordering::SeqCst), Ok(<i8>::MIN));
    assert_eq!(a.load(Ordering::SeqCst), Ok(<i8>::MAX));
}

#[test]
fn u16_new() {
    let _: Atomic<u16> = Atomic::new(7u16);
}

#[test]
fn u16_load_store() {
    let a = Atomic::new(7u16);
    assert_eq!(a.load(Ordering::SeqCst), Ok(7u16));

    a.store(33u16, Ordering::SeqCst);
    assert_eq!(a.load(Ordering::SeqCst), Ok(33u16));
}

#[test]
fn u16_into_inner() {
    let a = Atomic::new(7u16);
    assert_eq!(a.into_inner(), Ok(7u16));
}

#[test]
fn u16_swap() {
    let a = Atomic::new(7u16);
    assert_eq!(a.swap(33u16, Ordering::SeqCst), Ok(7u16));
    assert_eq!(a.load(Ordering::SeqCst), Ok(33u16));
}

#[test]
fn u16_from() {
    let a = Atomic::new(7u16);
    let b: Atomic<u16> = 7u16.into();
    assert_eq!(a.load(Ordering::SeqCst), b.load(Ordering::SeqCst));
    assert_eq!(b.load(Ordering::SeqCst), Ok(7u16));
}

#[test]
fn u16_default() {
    let a: Atomic<u16> = Default::default();
    assert_eq!(a.load(Ordering::SeqCst), Ok(<u16>::default()));
}

#[test]
fn u16_compare_exchange() {
    let a = Atomic::new(7u16);
    assert_eq!(a.compare_exchange(7u16, 33u16, Ordering::SeqCst, Ordering::SeqCst), Ok(Ok(7u16)));
    assert_eq!(a.load(Ordering::SeqCst), Ok(33u16));
    assert_eq!(a.compare_exchange(7u16, 7u16, Ordering::SeqCst, Ordering::Relaxed), Ok(Err(33u16)));
    assert_eq!(a.load(Ordering::SeqCst), Ok(33u16));
}

#[test]
fn u16_compare_exchange_weak() {
    let a = Atomic::new(7u16);
    let mut old = a.load(Ordering::Relaxed).unwrap();
    loop {
        match a.compare_exchange_weak(old, 33u16, Ordering::SeqCst, Ordering::Relaxed).unwrap() {
            Ok(prev) => {
                assert_eq!(prev, 7u16);
                break;
            }
            Err(seen) => old = seen,
        }
    }
    assert_eq!(a.load(Ordering::SeqCst), Ok(33u16));
}

#[test]
fn u16_fetch_update() {
    let a = Atomic::new(7u16);
    assert_eq!(a.fetch_update(Ordering::SeqCst, Ordering::SeqCst, |_| None), Ok(Err(7u16)));
    assert_eq!(a.load(Ordering::SeqCst), Ok(7u16));
    assert_eq!(a.fetch_update(Ordering::SeqCst, Ordering::SeqCst, |_| Some(33u16)), Ok(Ok(7u16)));
    assert_eq!(a.load(Ordering::SeqCst), Ok(33u16));
}

#[test]
fn u16_logic() {
    let a = Atomic::new(7u16);
    assert_eq!(a.fetch_and(33u16, Ordering::SeqCst), Ok(7u16));
    assert_eq!(a.load(Ordering::SeqCst), Ok(7u16 & 33u16));

    let a = Atomic::new(7u16);
    assert_eq!(a.fetch_nand(33u16, Ordering::SeqCst), Ok(7u16));
    assert_eq!(a.load(Ordering::SeqCst), Ok(!(7u16 & 33u16)));

    let a = Atomic::new(7u16);
    assert_eq!(a.fetch_or(33u16, Ordering::SeqCst), Ok(7u16));
    assert_eq!(a.load(Ordering::SeqCst), Ok(7u16 | 33u16));

    let a = Atomic::new(7u16);
    assert_eq!(a.fetch_xor(33u16, Ordering::SeqCst), Ok(7u16));
    assert_eq!(a.load(Ordering::SeqCst), Ok(7u16 ^ 33u16));
}

#[test]
fn u16_integer() {
    let a = Atomic::new(7u16);
    assert_eq!(a.fetch_add(33u16, Ordering::SeqCst), Ok(7u16));
    assert_eq!(a.load(Ordering::SeqCst), Ok(7u16.wrapping_add(33u16)));

    let a = Atomic::new(7u16);
    assert_eq!(a.fetch_sub(33u16, Ordering::SeqCst), Ok(7u16));
    assert_eq!(a.load(Ordering::SeqCst), Ok(7u16.wrapping_sub(33u16)));
}

#[test]
fn u16_max_min() {
    let a = Atomic::new(7u16);
    assert_eq!(a.fetch_max(33u16, Ordering::SeqCst), Ok(7u16));
    assert_eq!(a.load(Ordering::SeqCst), Ok(33u16));
    assert_eq!(a.fetch_min(7u16, Ordering::SeqCst), Ok(33u16));
    assert_eq!(a.load(Ordering::SeqCst), Ok(7u16));
    assert_eq!(a.fetch_min(33u16, Ordering::SeqCst), Ok(7u16));
    assert_eq!(a.load(Ordering::SeqCst), Ok(7u16));
}

#[test]
fn u16_add_wraps() {
    let a = Atomic::new(<u16>::MAX);
    assert_eq!(a.fetch_add(1, Ordering::SeqCst), Ok(<u16>::MAX));
    assert_eq!(a.load(Ordering::SeqCst), Ok(<u16>::MIN));
    assert_eq!(a.fetch_sub(1, Ordering::SeqCst), Ok(<u16>::MIN));
    assert_eq!(a.load(Ordering::SeqCst), Ok(<u16>::MAX));
}

#[test]
fn i16_new() {
    let _: Atomic<i16> = Atomic::new(7i16);
}

#[test]
fn i16_load_store() {
    let a = Atomic::new(7i16);
    assert_eq!(a.load(Ordering::SeqCst), Ok(7i16));

    a.store(33i16, Ordering::SeqCst);
    assert_eq!(a.load(Ordering::SeqCst), Ok(33i16));
}

#[test]
fn i16_into_inner() {
    let a = Atomic::new(7i16);
    assert_eq!(a.into_inner(), Ok(7i16));
}

#[test]
fn i16_swap() {
    let a = Atomic::new(7i16);
    assert_eq!(a.swap(33i16, Ordering::SeqCst), Ok(7i16));
    assert_eq!(a.load(Ordering::SeqCst), Ok(33i16));
}

#[test]
fn i16_from() {
    let a = Atomic::new(7i16);
    let b: Atomic<i16> = 7i16.into();
    assert_eq!(a.load(Ordering::SeqCst), b.load(Ordering::SeqCst));
    assert_eq!(b.load(Ordering::SeqCst), Ok(7i16));
}

#[test]
fn i16_default() {
    let a: Atomic<i16> = Default::default();
    assert_eq!(a.load(Ordering::SeqCst), Ok(<i16>::default()));
}

#[test]
fn i16_compare_exchange() {
    let a = Atomic::new(7i16);
    assert_eq!(a.compare_exchange(7i16, 33i16, Ordering::SeqCst, Ordering::SeqCst), Ok(Ok(7i16)));
    assert_eq!(a.load(Ordering::SeqCst), Ok(33i16));
    assert_eq!(a.compare_exchange(7i16, 7i16, Ordering::SeqCst, Ordering::Relaxed), Ok(Err(33i16)));
    assert_eq!(a.load(Ordering::SeqCst), Ok(33i16));
}

#[test]
fn i16_compare_exchange_weak() {
    let a = Atomic::new(7i16);
    let mut old = a.load(Ordering::Relaxed).unwrap();
    loop {
        match a.compare_exchange_weak(old, 33i16, Ordering::SeqCst, Ordering::Relaxed).unwrap() {
            Ok(prev) => {
                assert_eq!(prev, 7i16);
                break;
            }
            Err(seen) => old = seen,
        }
    }
    assert_eq!(a.load(Ordering::SeqCst), Ok(33i16));
}

#[test]
fn i16_fetch_update() {
    let a = Atomic::new(7i16);
    assert_eq!(a.fetch_update(Ordering::SeqCst, Ordering::SeqCst, |_| None), Ok(Err(7i16)));
    assert_eq!(a.load(Ordering::SeqCst), Ok(7i16));
    assert_eq!(a.fetch_update(Ordering::SeqCst, Ordering::SeqCst, |_| Some(33i16)), Ok(Ok(7i16)));
    assert_eq!(a.load(Ordering::SeqCst), Ok(33i16));
}

#[test]
fn i16_logic() {
    let a = Atomic::new(7i16);
    assert_eq!(a.fetch_and(33i16, Ordering::SeqCst), Ok(7i16));
    assert_eq!(a.load(Ordering::SeqCst), Ok(7i16 & 33i16));

    let a = Atomic::new(7i16);
    assert_eq!(a.fetch_nand(33i16, Ordering::SeqCst), Ok(7i16));
    assert_eq!(a.load(Ordering::SeqCst), Ok(!(7i16 & 33i16)));

    let a = Atomic::new(7i16);
    assert_eq!(a.fetch_or(33i16, Ordering::SeqCst), Ok(7i16));
    assert_eq!(a.load(Ordering::SeqCst), Ok(7i16 | 33i16));

    let a = Atomic::new(7i16);
    assert_eq!(a.fetch_xor(33i16, Ordering::SeqCst), Ok(7i16));
    assert_eq!(a.load(Ordering::SeqCst), Ok(7i16 ^ 33i16));
}

#[test]
fn i16_integer() {
    let a = Atomic::new(7i16);
    assert_eq!(a.fetch_add(33i16, Ordering::SeqCst), Ok(7i16));
    assert_eq!(a.load(Ordering::SeqCst), Ok(7i16.wrapping_add(33i16)));

    let a = Atomic::new(7i16);
    assert_eq!(a.fetch_sub(33i16, Ordering::SeqCst), Ok(7i16));
    assert_eq!(a.load(Ordering::SeqCst), Ok(7i16.wrapping_sub(33i16)));
}

#[test]
fn i16_max_min() {
    let a = Atomic::new(7i16);
    assert_eq!(a.fetch_max(33i16, Ordering::SeqCst), Ok(7i16));
    assert_eq!(a.load(Ordering::SeqCst), Ok(33i16));
    assert_eq!(a.fetch_min(7i16, Ordering::SeqCst), Ok(33i16));
    assert_eq!(a.load(Ordering::SeqCst), Ok(7i16));
    assert_eq!(a.fetch_min(33i16, Ordering::SeqCst), Ok(7i16));
    assert_eq!(a.load(Ordering::SeqCst), Ok(7i16));
}

#[test]
fn i16_add_wraps() {
    let a = Atomic::new(<i16>::MAX);
    assert_eq!(a.fetch_add(1, Ordering::SeqCst), Ok(<i16>::MAX));
    assert_eq!(a.load(Ordering::SeqCst), Ok(<i16>::MIN));
    assert_eq!(a.fetch_sub(1, Ordering::SeqCst), Ok(<i16>::MIN));
    assert_eq!(a.load(Ordering::SeqCst), Ok(<i16>::MAX));
}

#[test]
fn u32_new() {
    let _: Atomic<u32> = Atomic::new(7u32);
}

#[test]
fn u32_load_store() {
    let a = Atomic::new(7u32);
    assert_eq!(a.load(Ordering::SeqCst), Ok(7u32));

    a.store(33u32, Ordering::SeqCst);
    assert_eq!(a.load(Ordering::SeqCst), Ok(33u32));
}

#[test]
fn u32_into_inner() {
    let a = Atomic::new(7u32);
    assert_eq!(a.into_inner(), Ok(7u32));
}

#[test]
fn u32_swap() {
    let a = Atomic::new(7u32);
    assert_eq!(a.swap(33u32, Ordering::SeqCst), Ok(7u32));
    assert_eq!(a.load(Ordering::SeqCst), Ok(33u32));
}

#[test]
fn u32_from() {
    let a = Atomic::new(7u32);
    let b: Atomic<u32> = 7u32.into();
    assert_eq!(a.load(Ordering::SeqCst), b.load(Ordering::SeqCst));
    assert_eq!(b.load(Ordering::SeqCst), Ok(7u32));
}

#[test]
fn u32_default() {
    let a: Atomic<u32> = Default::default();
    assert_eq!(a.load(Ordering::SeqCst), Ok(<u32>::default()));
}

#[test]
fn u32_compare_exchange() {
    let a = Atomic::new(7u32);
    assert_eq!(a.compare_exchange(7u32, 33u32, Ordering::SeqCst, Ordering::SeqCst), Ok(Ok(7u32)));
    assert_eq!(a.load(Ordering::SeqCst), Ok(33u32));
    assert_eq!(a.compare_exchange(7u32, 7u32, Ordering::SeqCst, Ordering::Relaxed), Ok(Err(33u32)));
    assert_eq!(a.load(Ordering::SeqCst), Ok(33u32));
}

#[test]
fn u32_compare_exchange_weak() {
    let a = Atomic::new(7u32);
    let mut old = a.load(Ordering::Relaxed).unwrap();
    loop {
        match a.compare_exchange_weak(old, 33u32, Ordering::SeqCst, Ordering::Relaxed).unwrap() {
            Ok(prev) => {
                assert_eq!(prev, 7u32);
                break;
            }
            Err(seen) => old = seen,
        }
    }
    assert_eq!(a.load(Ordering::SeqCst), Ok(33u32));
}

#[test]
fn u32_fetch_update() {
    let a = Atomic::new(7u32);
    assert_eq!(a.fetch_update(Ordering::SeqCst, Ordering::SeqCst, |_| None), Ok(Err(7u32)));
    assert_eq!(a.load(Ordering::SeqCst), Ok(7u32));
    assert_eq!(a.fetch_update(Ordering::SeqCst, Ordering::SeqCst, |_| Some(33u32)), Ok(Ok(7u32)));
    assert_eq!(a.load(Ordering::SeqCst), Ok(33u32));
}

#[test]
fn u32_logic() {
    let a = Atomic::new(7u32);
    assert_eq!(a.fetch_and(33u32, Ordering::SeqCst), Ok(7u32));
    assert_eq!(a.load(Ordering::SeqCst), Ok(7u32 & 33u32));

    let a = Atomic::new(7u32);
    assert_eq!(a.fetch_nand(33u32, Ordering::SeqCst), Ok(7u32));
    assert_eq!(a.load(Ordering::SeqCst), Ok(!(7u32 & 33u32)));

    let a = Atomic::new(7u32);
    assert_eq!(a.fetch_or(33u32, Ordering::SeqCst), Ok(7u32));
    assert_eq!(a.load(Ordering::SeqCst), Ok(7u32 | 33u32));

    let a = Atomic::new(7u32);
    assert_eq!(a.fetch_xor(33u32, Ordering::SeqCst), Ok(7u32));
    assert_eq!(a.load(Ordering::SeqCst), Ok(7u32 ^ 33u32));
}

#[test]
fn u32_integer() {
    let a = Atomic::new(7u32);
    assert_eq!(a.fetch_add(33u32, Ordering::SeqCst), Ok(7u32));
    assert_eq!(a.load(Ordering::SeqCst), Ok(7u32.wrapping_add(33u32)));

    let a = Atomic::new(7u32);
    assert_eq!(a.fetch_sub(33u32, Ordering::SeqCst), Ok(7u32));
    assert_eq!(a.load(Ordering::SeqCst), Ok(7u32.wrapping_sub(33u32)));
}

#[test]
fn u32_max_min() {
    let a = Atomic::new(7u32);
    assert_eq!(a.fetch_max(33u32, Ordering::SeqCst), Ok(7u32));
    assert_eq!(a.load(Ordering::SeqCst), Ok(33u32));
    assert_eq!(a.fetch_min(7u32, Ordering::SeqCst), Ok(33u32));
    assert_eq!(a.load(Ordering::SeqCst), Ok(7u32));
    assert_eq!(a.fetch_min(33u32, Ordering::SeqCst), Ok(7u32));
    assert_eq!(a.load(Ordering::SeqCst), Ok(7u32));
}

#[test]
fn u32_add_wraps() {
    let a = Atomic::new(<u32>::MAX);
    assert_eq!(a.fetch_add(1, Ordering::SeqCst), Ok(<u32>::MAX));
    assert_eq!(a.load(Ordering::SeqCst), Ok(<u32>::MIN));
    assert_eq!(a.fetch_sub(1, Ordering::SeqCst), Ok(<u32>::MIN));
    assert_eq!(a.load(Ordering::SeqCst), Ok(<u32>::MAX));
}

#[test]
fn i32_new() {
    let _: Atomic<i32> = Atomic::new(7i32);
}

#[test]
fn i32_load_store() {
    let a = Atomic::new(7i32);
    assert_eq!(a.load(Ordering::SeqCst), Ok(7i32));

    a.store(33i32, Ordering::SeqCst);
    assert_eq!(a.load(Ordering::SeqCst), Ok(33i32));
}

#[test]
fn i32_into_inner() {
    let a = Atomic::new(7i32);
    assert_eq!(a.into_inner(), Ok(7i32));
}

#[test]
fn i32_swap() {
    let a = Atomic::new(7i32);
    assert_eq!(a.swap(33i32, Ordering::SeqCst), Ok(7i32));
    assert_eq!(a.load(Ordering::SeqCst), Ok(33i32));
}

#[test]
fn i32_from() {
    let a = Atomic::new(7i32);
    let b: Atomic<i32> = 7i32.into();
    assert_eq!(a.load(Ordering::SeqCst), b.load(Ordering::SeqCst));
    assert_eq!(b.load(Ordering::SeqCst), Ok(7i32));
}

#[test]
fn i32_default() {
    let a: Atomic<i32> = Default::default();
    assert_eq!(a.load(Ordering::SeqCst), Ok(<i32>::default()));
}

#[test]
fn i32_compare_exchange() {
    let a = Atomic::new(7i32);
    assert_eq!(a.compare_exchange(7i32, 33i32, Ordering::SeqCst, Ordering::SeqCst), Ok(Ok(7i32)));
    assert_eq!(a.load(Ordering::SeqCst), Ok(33i32));
    assert_eq!(a.compare_exchange(7i32, 7i32, Ordering::SeqCst, Ordering::Relaxed), Ok(Err(33i32)));
    assert_eq!(a.load(Ordering::SeqCst), Ok(33i32));
}

#[test]
fn i32_compare_exchange_weak() {
    let a = Atomic::new(7i32);
    let mut old = a.load(Ordering::Relaxed).unwrap();
    loop {
        match a.compare_exchange_weak(old, 33i32, Ordering::SeqCst, Ordering::Relaxed).unwrap() {
            Ok(prev) => {
                assert_eq!(prev, 7i32);
                break;
            }
            Err(seen) => old = seen,
        }
    }
    assert_eq!(a.load(Ordering::SeqCst), Ok(33i32));
}

#[test]
fn i32_fetch_update() {
    let a = Atomic::new(7i32);
    assert_eq!(a.fetch_update(Ordering::SeqCst, Ordering::SeqCst, |_| None), Ok(Err(7i32)));
    assert_eq!(a.load(Ordering::SeqCst), Ok(7i32));
    assert_eq!(a.fetch_update(Ordering::SeqCst, Ordering::SeqCst, |_| Some(33i32)), Ok(Ok(7i32)));
    assert_eq!(a.load(Ordering::SeqCst), Ok(33i32));
}

#[test]
fn i32_logic() {
    let a = Atomic::new(7i32);
    assert_eq!(a.fetch_and(33i32, Ordering::SeqCst), Ok(7i32));
    assert_eq!(a.load(Ordering::SeqCst), Ok(7i32 & 33i32));

    let a = Atomic::new(7i32);
    assert_eq!(a.fetch_nand(33i32, Ordering::SeqCst), Ok(7i32));
    assert_eq!(a.load(Ordering::SeqCst), Ok(!(7i32 & 33i32)));

    let a = Atomic::new(7i32);
    assert_eq!(a.fetch_or(33i32, Ordering::SeqCst), Ok(7i32));
    assert_eq!(a.load(Ordering::SeqCst), Ok(7i32 | 33i32));

    let a = Atomic::new(7i32);
    assert_eq!(a.fetch_xor(33i32, Ordering::SeqCst), Ok(7i32));
    assert_eq!(a.load(Ordering::SeqCst), Ok(7i32 ^ 33i32));
}

#[test]
fn i32_integer() {
    let a = Atomic::new(7i32);
    assert_eq!(a.fetch_add(33i32, Ordering::SeqCst), Ok(7i32));
    assert_eq!(a.load(Ordering::SeqCst), Ok(7i32.wrapping_add(33i32)));

    let a = Atomic::new(7i32);
    assert_eq!(a.fetch_sub(33i32, Ordering::SeqCst), Ok(7i32));
    assert_eq!(a.load(Ordering::SeqCst), Ok(7i32.wrapping_sub(33i32)));
}

#[test]
fn i32_max_min() {
    let a = Atomic::new(7i32);
    assert_eq!(a.fetch_max(33i32, Ordering::SeqCst), Ok(7i32));
    assert_eq!(a.load(Ordering::SeqCst), Ok(33i32));
    assert_eq!(a.fetch_min(7i32, Ordering::SeqCst), Ok(33i32));
    assert_eq!(a.load(Ordering::SeqCst), Ok(7i32));
    assert_eq!(a.fetch_min(33i32, Ordering::SeqCst), Ok(7i32));
    assert_eq!(a.load(Ordering::SeqCst), Ok(7i32));
}

#[test]
fn i32_add_wraps() {
    let a = Atomic::new(<i32>::MAX);
    assert_eq!(a.fetch_add(1, Ordering::SeqCst), Ok(<i32>::MAX));
    assert_eq!(a.load(Ordering::SeqCst), Ok(<i32>::MIN));
    assert_eq!(a.fetch_sub(1, Ordering::SeqCst), Ok(<i32>::MIN));
    assert_eq!(a.load(Ordering::SeqCst), Ok(<i32>::MAX));
}

#[test]
fn u64_new() {
    let _: Atomic<u64> = Atomic::new(7u64);
}

#[test]
fn u64_load_store() {
    let a = Atomic::new(7u64);
    assert_eq!(a.load(Ordering::SeqCst), Ok(7u64));

    a.store(33u64, Ordering::SeqCst);
    assert_eq!(a.load(Ordering::SeqCst), Ok(33u64));
}

#[test]
fn u64_into_inner() {
    let a = Atomic::new(7u64);
    assert_eq!(a.into_inner(), Ok(7u64));
}

#[test]
fn u64_swap() {
    let a = Atomic::new(7u64);
    assert_eq!(a.swap(33u64, Ordering::SeqCst), Ok(7u64));
    assert_eq!(a.load(Ordering::SeqCst), Ok(33u64));
}

#[test]
fn u64_from() {
    let a = Atomic::new(7u64);
    let b: Atomic<u64> = 7u64.into();
    assert_eq!(a.load(Ordering::SeqCst), b.load(Ordering::SeqCst));
    assert_eq!(b.load(Ordering::SeqCst), Ok(7u64));
}

#[test]
fn u64_default() {
    let a: Atomic<u64> = Default::default();
    assert_eq!(a.load(Ordering::SeqCst), Ok(<u64>::default()));
}

#[test]
fn u64_compare_exchange() {
    let a = Atomic::new(7u64);
    assert_eq!(a.compare_exchange(7u64, 33u64, Ordering::SeqCst, Ordering::SeqCst), Ok(Ok(7u64)));
    assert_eq!(a.load(Ordering::SeqCst), Ok(33u64));
    assert_eq!(a.compare_exchange(7u64, 7u64, Ordering::SeqCst, Ordering::Relaxed), Ok(Err(33u64)));
    assert_eq!(a.load(Ordering::SeqCst), Ok(33u64));
}

#[test]
fn u64_compare_exchange_weak() {
    let a = Atomic::new(7u64);
    let mut old = a.load(Ordering::Relaxed).unwrap();
    loop {
        match a.compare_exchange_weak(old, 33u64, Ordering::SeqCst, Ordering::Relaxed).unwrap() {
            Ok(prev) => {
                assert_eq!(prev, 7u64);
                break;
            }
            Err(seen) => old = seen,
        }
    }
    assert_eq!(a.load(Ordering::SeqCst), Ok(33u64));
}

#[test]
fn u64_fetch_update() {
    let a = Atomic::new(7u64);
    assert_eq!(a.fetch_update(Ordering::SeqCst, Ordering::SeqCst, |_| None), Ok(Err(7u64)));
    assert_eq!(a.load(Ordering::SeqCst), Ok(7u64));
    assert_eq!(a.fetch_update(Ordering::SeqCst, Ordering::SeqCst, |_| Some(33u64)), Ok(Ok(7u64)));
    assert_eq!(a.load(Ordering::SeqCst), Ok(33u64));
}

#[test]
fn u64_logic() {
    let a = Atomic::new(7u64);
    assert_eq!(a.fetch_and(33u64, Ordering::SeqCst), Ok(7u64));
    assert_eq!(a.load(Ordering::SeqCst), Ok(7u64 & 33u64));

    let a = Atomic::new(7u64);
    assert_eq!(a.fetch_nand(33u64, Ordering::SeqCst), Ok(7u64));
    assert_eq!(a.load(Ordering::SeqCst), Ok(!(7u64 & 33u64)));

    let a = Atomic::new(7u64);
    assert_eq!(a.fetch_or(33u64, Ordering::SeqCst), Ok(7u64));
    assert_eq!(a.load(Ordering::SeqCst), Ok(7u64 | 33u64));

    let a = Atomic::new(7u64);
    assert_eq!(a.fetch_xor(33u64, Ordering::SeqCst), Ok(7u64));
    assert_eq!(a.load(Ordering::SeqCst), Ok(7u64 ^ 33u64));
}

#[test]
fn u64_integer() {
    let a = Atomic::new(7u64);
    assert_eq!(a.fetch_add(33u64, Ordering::SeqCst), Ok(7u64));
    assert_eq!(a.load(Ordering::SeqCst), Ok(7u64.wrapping_add(33u64)));

    let a = Atomic::new(7u64);
    assert_eq!(a.fetch_sub(33u64, Ordering::SeqCst), Ok(7u64));
    assert_eq!(a.load(Ordering::SeqCst), Ok(7u64.wrapping_sub(33u64)));
}

#[test]
fn u64_max_min() {
    let a = Atomic::new(7u64);
    assert_eq!(a.fetch_max(33u64, Ordering::SeqCst), Ok(7u64));
    assert_eq!(a.load(Ordering::SeqCst), Ok(33u64));
    assert_eq!(a.fetch_min(7u64, Ordering::SeqCst), Ok(33u64));
    assert_eq!(a.load(Ordering::SeqCst), Ok(7u64));
    assert_eq!(a.fetch_min(33u64, Ordering::SeqCst), Ok(7u64));
    assert_eq!(a.load(Ordering::SeqCst), Ok(7u64));
}

#[test]
fn u64_add_wraps() {
    let a = Atomic::new(<u64>::MAX);
    assert_eq!(a.fetch_add(1, Ordering::SeqCst), Ok(<u64>::MAX));
    assert_eq!(a.load(Ordering::SeqCst), Ok(<u64>::MIN));
    assert_eq!(a.fetch_sub(1, Ordering::SeqCst), Ok(<u64>::MIN));
    assert_eq!(a.load(Ordering::SeqCst), Ok(<u64>::MAX));
}

#[test]
fn i64_new() {
    let _: Atomic<i64> = Atomic::new(7i64);
}

#[test]
fn i64_load_store() {
    let a = Atomic::new(7i64);
    assert_eq!(a.load(Ordering::SeqCst), Ok(7i64));

    a.store(33i64, Ordering::SeqCst);
    assert_eq!(a.load(Ordering::SeqCst), Ok(33i64));
}

#[test]
fn i64_into_inner() {
    let a = Atomic::new(7i64);
    assert_eq!(a.into_inner(), Ok(7i64));
}

#[test]
fn i64_swap() {
    let a = Atomic::new(7i64);
    assert_eq!(a.swap(33i64, Ordering::SeqCst), Ok(7i64));
    assert_eq!(a.load(Ordering::SeqCst), Ok(33i64));
}

#[test]
fn i64_from() {
    let a = Atomic::new(7i64);
    let b: Atomic<i64> = 7i64.into();
    assert_eq!(a.load(Ordering::SeqCst), b.load(Ordering::SeqCst));
    assert_eq!(b.load(Ordering::SeqCst), Ok(7i64));
}

#[test]
fn i64_default() {
    let a: Atomic<i64> = Default::default();
    assert_eq!(a.load(Ordering::SeqCst), Ok(<i64>::default()));
}

#[test]
fn i64_compare_exchange() {
    let a = Atomic::new(7i64);
    assert_eq!(a.compare_exchange(7i64, 33i64, Ordering::SeqCst, Ordering::SeqCst), Ok(Ok(7i64)));
    assert_eq!(a.load(Ordering::SeqCst), Ok(33i64));
    assert_eq!(a.compare_exchange(7i64, 7i64, Ordering::SeqCst, Ordering::Relaxed), Ok(Err(33i64)));
    assert_eq!(a.load(Ordering::SeqCst), Ok(33i64));
}

#[test]
fn i64_compare_exchange_weak() {
    let a = Atomic::new(7i64);
    let mut old = a.load(Ordering::Relaxed).unwrap();
    loop {
        match a.compare_exchange_weak(old, 33i64, Ordering::SeqCst, Ordering::Relaxed).unwrap() {
            Ok(prev) => {
                assert_eq!(prev, 7i64);
                break;
            }
            Err(seen) => old = seen,
        }
    }
    assert_eq!(a.load(Ordering::SeqCst), Ok(33i64));
}

#[test]
fn i64_fetch_update() {
    let a = Atomic::new(7i64);
    assert_eq!(a.fetch_update(Ordering::SeqCst, Ordering::SeqCst, |_| None), Ok(Err(7i64)));
    assert_eq!(a.load(Ordering::SeqCst), Ok(7i64));
    assert_eq!(a.fetch_update(Ordering::SeqCst, Ordering::SeqCst, |_| Some(33i64)), Ok(Ok(7i64)));
    assert_eq!(a.load(Ordering::SeqCst), Ok(33i64));
}

#[test]
fn i64_logic() {
    let a = Atomic::new(7i64);
    assert_eq!(a.fetch_and(33i64, Ordering::SeqCst), Ok(7i64));
    assert_eq!(a.load(Ordering::SeqCst), Ok(7i64 & 33i64));

    let a = Atomic::new(7i64);
    assert_eq!(a.fetch_nand(33i64, Ordering::SeqCst), Ok(7i64));
    assert_eq!(a.load(Ordering::SeqCst), Ok(!(7i64 & 33i64)));

    let a = Atomic::new(7i64);
    assert_eq!(a.fetch_or(33i64, Ordering::SeqCst), Ok(7i64));
    assert_eq!(a.load(Ordering::SeqCst), Ok(7i64 | 33i64));

    let a = Atomic::new(7i64);
    assert_eq!(a.fetch_xor(33i64, Ordering::SeqCst), Ok(7i64));
    assert_eq!(a.load(Ordering::SeqCst), Ok(7i64 ^ 33i64));
}

#[test]
fn i64_integer() {
    let a = Atomic::new(7i64);
    assert_eq!(a.fetch_add(33i64, Ordering::SeqCst), Ok(7i64));
    assert_eq!(a.load(Ordering::SeqCst), Ok(7i64.wrapping_add(33i64)));

    let a = Atomic::new(7i64);
    assert_eq!(a.fetch_sub(33i64, Ordering::SeqCst), Ok(7i64));
    assert_eq!(a.load(Ordering::SeqCst), Ok(7i64.wrapping_sub(33i64)));
}

#[test]
fn i64_max_min() {
    let a = Atomic::new(7i64);
    assert_eq!(a.fetch_max(33i64, Ordering::SeqCst), Ok(7i64));
    assert_eq!(a.load(Ordering::SeqCst), Ok(33i64));
    assert_eq!(a.fetch_min(7i64, Ordering::SeqCst), Ok(33i64));
    assert_eq!(a.load(Ordering::SeqCst), Ok(7i64));
    assert_eq!(a.fetch_min(33i64, Ordering::SeqCst), Ok(7i64));
    assert_eq!(a.load(Ordering::SeqCst), Ok(7i64));
}

#[test]
fn i64_add_wraps() {
    let a = Atomic::new(<i64>::MAX);
    assert_eq!(a.fetch_add(1, Ordering::SeqCst), Ok(<i64>::MAX));
    assert_eq!(a.load(Ordering::SeqCst), Ok(<i64>::MIN));
    assert_eq!(a.fetch_sub(1, Ordering::SeqCst), Ok(<i64>::MIN));
    assert_eq!(a.load(Ordering::SeqCst), Ok(<i64>::MAX));
}

#[test]
fn usize_new() {
    let _: Atomic<usize> = Atomic::new(7usize);
}

#[test]
fn usize_load_store() {
    let a = Atomic::new(7usize);
    assert_eq!(a.load(Ordering::SeqCst), Ok(7usize));

    a.store(33usize, Ordering::SeqCst);
    assert_eq!(a.load(Ordering::SeqCst), Ok(33usize));
}

#[test]
fn usize_into_inner() {
    let a = Atomic::new(7usize);
    assert_eq!(a.into_inner(), Ok(7usize));
}

#[test]
fn usize_swap() {
    let a = Atomic::new(7usize);
    assert_eq!(a.swap(33usize, Ordering::SeqCst), Ok(7usize));
    assert_eq!(a.load(Ordering::SeqCst), Ok(33usize));
}

#[test]
fn usize_from() {
    let a = Atomic::new(7usize);
    let b: Atomic<usize> = 7usize.into();
    assert_eq!(a.load(Ordering::SeqCst), b.load(Ordering::SeqCst));
    assert_eq!(b.load(Ordering::SeqCst), Ok(7usize));
}

#[test]
fn usize_default() {
    let a: Atomic<usize> = Default::default();
    assert_eq!(a.load(Ordering::SeqCst), Ok(<usize>::default()));
}

#[test]
fn usize_compare_exchange() {
    let a = Atomic::new(7usize);
    assert_eq!(a.compare_exchange(7usize, 33usize, Ordering::SeqCst, Ordering::SeqCst), Ok(Ok(7usize)));
    assert_eq!(a.load(Ordering::SeqCst), Ok(33usize));
    assert_eq!(a.compare_exchange(7usize, 7usize, Ordering::SeqCst, Ordering::Relaxed), Ok(Err(33usize)));
    assert_eq!(a.load(Ordering::SeqCst), Ok(33usize));
}

#[test]
fn usize_compare_exchange_weak() {
    let a = Atomic::new(7usize);
    let mut old = a.load(Ordering::Relaxed).unwrap();
    loop {
        match a.compare_exchange_weak(old, 33usize, Ordering::SeqCst, Ordering::Relaxed).unwrap() {
            Ok(prev) => {
                assert_eq!(prev, 7usize);
                break;
            }
            Err(seen) => old = seen,
        }
    }
    assert_eq!(a.load(Ordering::SeqCst), Ok(33usize));
}

#[test]
fn usize_fetch_update() {
    let a = Atomic::new(7usize);
    assert_eq!(a.fetch_update(Ordering::SeqCst, Ordering::SeqCst, |_| None), Ok(Err(7usize)));
    assert_eq!(a.load(Ordering::SeqCst), Ok(7usize));
    assert_eq!(a.fetch_update(Ordering::SeqCst, Ordering::SeqCst, |_| Some(33usize)), Ok(Ok(7usize)));
    assert_eq!(a.load(Ordering::SeqCst), Ok(33usize));
}

#[test]
fn usize_logic() {
    let a = Atomic::new(7usize);
    assert_eq!(a.fetch_and(33usize, Ordering::SeqCst), Ok(7usize));
    assert_eq!(a.load(Ordering::SeqCst), Ok(7usize & 33usize));

    let a = Atomic::new(7usize);
    assert_eq!(a.fetch_nand(33usize, Ordering::SeqCst), Ok(7usize));
    assert_eq!(a.load(Ordering::SeqCst), Ok(!(7usize & 33usize)));

    let a = Atomic::new(7usize);
    assert_eq!(a.fetch_or(33usize, Ordering::SeqCst), Ok(7usize));
    assert_eq!(a.load(Ordering::SeqCst), Ok(7usize | 33usize));

    let a = Atomic::new(7usize);
    assert_eq!(a.fetch_xor(33usize, Ordering::SeqCst), Ok(7usize));
    assert_eq!(a.load(Ordering::SeqCst), Ok(7usize ^ 33usize));
}

#[test]
fn usize_integer() {
    let a = Atomic::new(7usize);
    assert_eq!(a.fetch_add(33usize, Ordering::SeqCst), Ok(7usize));
    assert_eq!(a.load(Ordering::SeqCst), Ok(7usize.wrapping_add(33usize)));

    let a = Atomic::new(7usize);
    assert_eq!(a.fetch_sub(33usize, Ordering::SeqCst), Ok(7usize));
    assert_eq!(a.load(Ordering::SeqCst), Ok(7usize.wrapping_sub(33usize)));
}

#[test]
fn usize_max_min() {
    let a = Atomic::new(7usize);
    assert_eq!(a.fetch_max(33usize, Ordering::SeqCst), Ok(7usize));
    assert_eq!(a.load(Ordering::SeqCst), Ok(33usize));
    assert_eq!(a.fetch_min(7usize, Ordering::SeqCst), Ok(33usize));
    assert_eq!(a.load(Ordering::SeqCst), Ok(7usize));
    assert_eq!(a.fetch_min(33usize, Ordering::SeqCst), Ok(7usize));
    assert_eq!(a.load(Ordering::SeqCst), Ok(7usize));
}

#[test]
fn usize_add_wraps() {
    let a = Atomic::new(<usize>::MAX);
    assert_eq!(a.fetch_add(1, Ordering::SeqCst), Ok(<usize>::MAX));
    assert_eq!(a.load(Ordering::SeqCst), Ok(<usize>::MIN));
    assert_eq!(a.fetch_sub(1, Ordering::SeqCst), Ok(<usize>::MIN));
    assert_eq!(a.load(Ordering::SeqCst), Ok(<usize>::MAX));
}

#[test]
fn isize_new() {
    let _: Atomic<isize> = Atomic::new(7isize);
}

#[test]
fn isize_load_store() {
    let a = Atomic::new(7isize);
    assert_eq!(a.load(Ordering::SeqCst), Ok(7isize));

    a.store(33isize, Ordering::SeqCst);
    assert_eq!(a.load(Ordering::SeqCst), Ok(33isize));
}

#[test]
fn isize_into_inner() {
    let a = Atomic::new(7isize);
    assert_eq!(a.into_inner(), Ok(7isize));
}

#[test]
fn isize_swap() {
    let a = Atomic::new(7isize);
    assert_eq!(a.swap(33isize, Ordering::SeqCst), Ok(7isize));
    assert_eq!(a.load(Ordering::SeqCst), Ok(33isize));
}

#[test]
fn isize_from() {
    let a = Atomic::new(7isize);
    let b: Atomic<isize> = 7isize.into();
    assert_eq!(a.load(Ordering::SeqCst), b.load(Ordering::SeqCst));
    assert_eq!(b.load(Ordering::SeqCst), Ok(7isize));
}

#[test]
fn isize_default() {
    let a: Atomic<isize> = Default::default();
    assert_eq!(a.load(Ordering::SeqCst), Ok(<isize>::default()));
}

#[test]
fn isize_compare_exchange() {
    let a = Atomic::new(7isize);
    assert_eq!(a.compare_exchange(7isize, 33isize, Ordering::SeqCst, Ordering::SeqCst), Ok(Ok(7isize)));
    assert_eq!(a.load(Ordering::SeqCst), Ok(33isize));
    assert_eq!(a.compare_exchange(7isize, 7isize, Ordering::SeqCst, Ordering::Relaxed), Ok(Err(33isize)));
    assert_eq!(a.load(Ordering::SeqCst), Ok(33isize));
}

#[test]
fn isize_compare_exchange_weak() {
    let a = Atomic::new(7isize);
    let mut old = a.load(Ordering::Relaxed).unwrap();
    loop {
        match a.compare_exchange_weak(old, 33isize, Ordering::SeqCst, Ordering::Relaxed).unwrap() {
            Ok(prev) => {
                assert_eq!(prev, 7isize);
                break;
            }
            Err(seen) => old = seen,
        }
    }
    assert_eq!(a.load(Ordering::SeqCst), Ok(33isize));
}

#[test]
fn isize_fetch_update() {
    let a = Atomic::new(7isize);
    assert_eq!(a.fetch_update(Ordering::SeqCst, Ordering::SeqCst, |_| None), Ok(Err(7isize)));
    assert_eq!(a.load(Ordering::SeqCst), Ok(7isize));
    assert_eq!(a.fetch_update(Ordering::SeqCst, Ordering::SeqCst, |_| Some(33isize)), Ok(Ok(7isize)));
    assert_eq!(a.load(Ordering::SeqCst), Ok(33isize));
}

#[test]
fn isize_logic() {
    let a = Atomic::new(7isize);
    assert_eq!(a.fetch_and(33isize, Ordering::SeqCst), Ok(7isize));
    assert_eq!(a.load(Ordering::SeqCst), Ok(7isize & 33isize));

    let a = Atomic::new(7isize);
    assert_eq!(a.fetch_nand(33isize, Ordering::SeqCst), Ok(7isize));
    assert_eq!(a.load(Ordering::SeqCst), Ok(!(7isize & 33isize)));

    let a = Atomic::new(7isize);
    assert_eq!(a.fetch_or(33isize, Ordering::SeqCst), Ok(7isize));
    assert_eq!(a.load(Ordering::SeqCst), Ok(7isize | 33isize));

    let a = Atomic::new(7isize);
    assert_eq!(a.fetch_xor(33isize, Ordering::SeqCst), Ok(7isize));
    assert_eq!(a.load(Ordering::SeqCst), Ok(7isize ^ 33isize));
}

#[test]
fn isize_integer() {
    let a = Atomic::new(7isize);
    assert_eq!(a.fetch_add(33isize, Ordering::SeqCst), Ok(7isize));
    assert_eq!(a.load(Ordering::SeqCst), Ok(7isize.wrapping_add(33isize)));

    let a = Atomic::new(7isize);
    assert_eq!(a.fetch_sub(33isize, Ordering::SeqCst), Ok(7isize));
    assert_eq!(a.load(Ordering::SeqCst), Ok(7isize.wrapping_sub(33isize)));
}

#[test]
fn isize_max_min() {
    let a = Atomic::new(7isize);
    assert_eq!(a.fetch_max(33isize, Ordering::SeqCst), Ok(7isize));
    assert_eq!(a.load(Ordering::SeqCst), Ok(33isize));
    assert_eq!(a.fetch_min(7isize, Ordering::SeqCst), Ok(33isize));
    assert_eq!(a.load(Ordering::SeqCst), Ok(7isize));
    assert_eq!(a.fetch_min(33isize, Ordering::SeqCst), Ok(7isize));
    assert_eq!(a.load(Ordering::SeqCst), Ok(7isize));
}

#[test]
fn isize_add_wraps() {
    let a = Atomic::new(<isize>::MAX);
    assert_eq!(a.fetch_add(1, Ordering::SeqCst), Ok(<isize>::MAX));
    assert_eq!(a.load(Ordering::SeqCst), Ok(<isize>::MIN));
    assert_eq!(a.fetch_sub(1, Ordering::SeqCst), Ok(<isize>::MIN));
    assert_eq!(a.load(Ordering::SeqCst), Ok(<isize>::MAX));
}

#[test]
fn char_new() {
    let _: Atomic<char> = Atomic::new('x');
}

#[test]
fn char_load_store() {
    let a = Atomic::new('x');
    assert_eq!(a.load(Ordering::SeqCst), Ok('x'));

    a.store('\u{2665}', Ordering::SeqCst);
    assert_eq!(a.load(Ordering::SeqCst), Ok('\u{2665}'));
}

#[test]
fn char_into_inner() {
    let a = Atomic::new('x');
    assert_eq!(a.into_inner(), Ok('x'));
}

#[test]
fn char_swap() {
    let a = Atomic::new('x');
    assert_eq!(a.swap('\u{2665}', Ordering::SeqCst), Ok('x'));
    assert_eq!(a.load(Ordering::SeqCst), Ok('\u{2665}'));
}

#[test]
fn char_from() {
    let a = Atomic::new('x');
    let b: Atomic<char> = 'x'.into();
    assert_eq!(a.load(Ordering::SeqCst), b.load(Ordering::SeqCst));
    assert_eq!(b.load(Ordering::SeqCst), Ok('x'));
}

#[test]
fn char_default() {
    let a: Atomic<char> = Default::default();
    assert_eq!(a.load(Ordering::SeqCst), Ok(<char>::default()));
}

#[test]
fn char_compare_exchange() {
    let a = Atomic::new('x');
    assert_eq!(a.compare_exchange('x', '\u{2665}', Ordering::SeqCst, Ordering::SeqCst), Ok(Ok('x')));
    assert_eq!(a.load(Ordering::SeqCst), Ok('\u{2665}'));
    assert_eq!(a.compare_exchange('x', 'x', Ordering::SeqCst, Ordering::Relaxed), Ok(Err('\u{2665}')));
    assert_eq!(a.load(Ordering::SeqCst), Ok('\u{2665}'));
}

#[test]
fn char_compare_exchange_weak() {
    let a = Atomic::new('x');
    let mut old = a.load(Ordering::Relaxed).unwrap();
    loop {
        match a.compare_exchange_weak(old, '\u{2665}', Ordering::SeqCst, Ordering::Relaxed).unwrap() {
            Ok(prev) => {
                assert_eq!(prev, 'x');
                break;
            }
            Err(seen) => old = seen,
        }
    }
    assert_eq!(a.load(Ordering::SeqCst), Ok('\u{2665}'));
}

#[test]
fn char_fetch_update() {
    let a = Atomic::new('x');
    assert_eq!(a.fetch_update(Ordering::SeqCst, Ordering::SeqCst, |_| None), Ok(Err('x')));
    assert_eq!(a.load(Ordering::SeqCst), Ok('x'));
    assert_eq!(a.fetch_update(Ordering::SeqCst, Ordering::SeqCst, |_| Some('\u{2665}')), Ok(Ok('x')));
    assert_eq!(a.load(Ordering::SeqCst), Ok('\u{2665}'));
}
