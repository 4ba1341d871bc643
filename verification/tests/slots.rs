use takeable::primitives::{unwrap_some, write_none};

#[test]
fn unwrap_some_returns_contained_value() {
    assert_eq!(unwrap_some(Some(34u32)), 34);
    assert_eq!(unwrap_some(Some(String::from("v"))), "v");
}

#[test]
fn write_none_fills_empty_slot() {
    let mut slot: Option<u32> = None;
    write_none(&mut slot, 43);
    assert_eq!(slot, Some(43));
}

#[test]
fn emptying_then_filling_round_trips() {
    let mut slot = Some(vec![1u8, 2]);
    let mut held = unwrap_some(slot.take());
    assert_eq!(slot, None);
    held.push(3);
    write_none(&mut slot, held);
    assert_eq!(slot, Some(vec![1u8, 2, 3]));
}
