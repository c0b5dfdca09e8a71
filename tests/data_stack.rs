use runtime::data_stack::{DataStack, DataStackError};

/// Positive test for pop16.
#[test]
fn pop16_positive() {
    let mut data = DataStack::new();
    data.push8(0xbe);
    data.push8(0xef);
    assert_eq!(data.pop16().unwrap(), 0xbeef);
    assert_eq!(data.len(), 0);
}

/// Negative test for pop16 where there's not enough bytes to pop a 16-bit value.
#[test]
fn pop16_not_enough_bytes() {
    let mut data = DataStack::new();
    let error = data.pop16().unwrap_err();
    assert_eq!(error, DataStackError::NotEnoughBytes { attempt: 2, remaining: 0 });
}

/// Positive test for push16.
#[test]
fn push16_positive() {
    let mut data = DataStack::new();
    data.push16(0x1ea5);
    assert_eq!(data.as_bytes()[0], 0x1e);
    assert_eq!(data.as_bytes()[1], 0xa5);
}

/// Positive test for pop32.
#[test]
fn pop32_positive() {
    let mut data = DataStack::new();
    data.push8(0x12);
    data.push8(0x34);
    data.push8(0x56);
    data.push8(0x78);
    assert_eq!(data.pop32().unwrap(), 0x12345678);
    assert_eq!(data.len(), 0);
}

/// Positive test for push32.
#[test]
fn push32_positive() {
    let mut data = DataStack::new();
    data.push32(0x12345678);
    assert_eq!(data.as_bytes()[0], 0x12);
    assert_eq!(data.as_bytes()[1], 0x34);
    assert_eq!(data.as_bytes()[2], 0x56);
    assert_eq!(data.as_bytes()[3], 0x78);
}

#[test]
fn new_stack_is_empty() {
    let data = DataStack::new();
    assert_eq!(data.len(), 0);
    assert!(data.as_bytes().is_empty());
}

#[test]
fn push8_pop8_round_trip() {
    let mut data = DataStack::new();
    data.push8(0x01);
    for v in [0u8, 0x7f, 0xff] {
        let before = data.len();
        data.push8(v);
        assert_eq!(data.len(), before + 1);
        assert_eq!(data.pop8().unwrap(), v);
        assert_eq!(data.len(), before);
    }
    assert_eq!(data.as_bytes(), &[0x01]);
}

#[test]
fn push16_pop16_round_trip() {
    let mut data = DataStack::new();
    data.push8(0x42);
    for v in [0u16, 0x00ff, 0xff00, 0xffff, 0x1234] {
        let before = data.len();
        data.push16(v);
        assert_eq!(data.len(), before + 2);
        assert_eq!(data.pop16().unwrap(), v);
        assert_eq!(data.len(), before);
    }
    assert_eq!(data.as_bytes(), &[0x42]);
}

#[test]
fn push32_pop32_round_trip() {
    let mut data = DataStack::new();
    data.push8(0x42);
    for v in [0u32, 0xffff_ffff, 0x8000_0001, 0xdead_beef] {
        let before = data.len();
        data.push32(v);
        assert_eq!(data.len(), before + 4);
        assert_eq!(data.pop32().unwrap(), v);
        assert_eq!(data.len(), before);
    }
    assert_eq!(data.as_bytes(), &[0x42]);
}

#[test]
fn pop8_empty_underflow() {
    let mut data = DataStack::new();
    assert_eq!(data.pop8(), Err(DataStackError::NotEnoughBytes { attempt: 1, remaining: 0 }));
    assert_eq!(data.len(), 0);
}

#[test]
fn pop16_one_byte_underflow_keeps_stack() {
    let mut data = DataStack::new();
    data.push8(0x99);
    assert_eq!(data.pop16(), Err(DataStackError::NotEnoughBytes { attempt: 2, remaining: 1 }));
    assert_eq!(data.as_bytes(), &[0x99]);
}

#[test]
fn pop32_three_bytes_underflow_keeps_stack() {
    let mut data = DataStack::new();
    data.push8(1);
    data.push8(2);
    data.push8(3);
    assert_eq!(data.pop32(), Err(DataStackError::NotEnoughBytes { attempt: 4, remaining: 3 }));
    assert_eq!(data.as_bytes(), &[1, 2, 3]);
}

#[test]
fn narrow_pop_after_wide_push() {
    let mut data = DataStack::new();
    data.push32(0x0a0b0c0d);
    assert_eq!(data.pop8().unwrap(), 0x0d);
    assert_eq!(data.pop16().unwrap(), 0x0b0c);
    assert_eq!(data.pop8().unwrap(), 0x0a);
    assert_eq!(data.len(), 0);
}
