use fabric_runtime::Externs;

#[test]
fn create_and_get_returns_value() {
    let mut externs: Externs<String> = Externs::new();
    let h = externs.create_extern(String::from("hello"));
    assert_eq!(h.index, 0);
    assert_eq!(h.generation, 0);
    assert_eq!(externs.get_extern(h), "hello");
}

#[test]
fn get_mut_updates_value() {
    let mut externs: Externs<u64> = Externs::new();
    let h = externs.create_extern(5u64);
    *externs.get_extern_mut(h) = 9;
    assert_eq!(*externs.get_extern(h), 9);
}

#[test]
fn take_returns_ownership_and_invalidates_handle() {
    let mut externs: Externs<String> = Externs::new();
    let h = externs.create_extern(String::from("owned"));
    assert!(externs.extern_valid(h));
    let value = externs.take_extern(h);
    assert_eq!(value, "owned");
    // The handle is stale: any lookup under it must be refused.
    assert!(!externs.extern_valid(h));
}

#[test]
fn freed_slot_is_reused_at_bumped_generation() {
    let mut externs: Externs<u32> = Externs::new();
    let first = externs.create_extern(1u32);
    let _second = externs.create_extern(2u32);
    let taken = externs.take_extern(first);
    assert_eq!(taken, 1);
    // The freed slot is the first free one, so the next create reuses
    // it — under a handle whose generation differs from the stale one.
    let revived = externs.create_extern(3u32);
    assert_eq!(revived.index, first.index);
    assert_ne!(revived.generation, first.generation);
    assert_eq!(revived.generation, first.generation + 1);
    // The stale handle stays invalid even though the slot is occupied
    // again.
    assert!(!externs.extern_valid(first));
    assert!(externs.extern_valid(revived));
    assert_eq!(*externs.get_extern(revived), 3);
}

#[test]
fn create_appends_when_no_slot_is_free() {
    let mut externs: Externs<u8> = Externs::new();
    let a = externs.create_extern(10u8);
    let b = externs.create_extern(20u8);
    let c = externs.create_extern(30u8);
    assert_eq!((a.index, b.index, c.index), (0, 1, 2));
    assert_eq!((a.generation, b.generation, c.generation), (0, 0, 0));
    assert_eq!(externs.slot_count(), 3);
    assert_eq!(*externs.get_extern(b), 20);
}

#[test]
fn first_free_slot_wins_reuse() {
    let mut externs: Externs<i32> = Externs::new();
    let h0 = externs.create_extern(0);
    let h1 = externs.create_extern(1);
    let h2 = externs.create_extern(2);
    externs.take_extern(h1);
    externs.take_extern(h0);
    // Slot 0 is the first free slot, so it is revived first.
    let r0 = externs.create_extern(100);
    assert_eq!(r0.index, 0);
    assert_eq!(r0.generation, 1);
    let r1 = externs.create_extern(101);
    assert_eq!(r1.index, 1);
    assert_eq!(r1.generation, 1);
    // No slot was appended while free slots remained.
    assert_eq!(externs.slot_count(), 3);
    assert_eq!(*externs.get_extern(h2), 2);
}

#[test]
fn checked_lookup_refuses_a_stale_handle() {
    let mut externs: Externs<u32> = Externs::new();
    let h = externs.create_extern(1u32);
    assert_eq!(externs.try_get_extern(h), Some(&1));
    let taken = externs.try_take_extern(h);
    assert_eq!(taken, Some(1));
    // Every checked lookup makes the generation-and-occupancy test at
    // run time and refuses the stale handle.
    assert_eq!(externs.try_get_extern(h), None);
    assert!(externs.try_get_extern_mut(h).is_none());
    assert_eq!(externs.try_take_extern(h), None);
    // A refused take leaves the arena exactly as it was.
    assert_eq!(externs.slot_count(), 1);
    // After the slot is reused, the stale handle is still refused: its
    // generation no longer matches, so it cannot alias the new value.
    let revived = externs.create_extern(2u32);
    assert_eq!(externs.try_get_extern(h), None);
    assert_eq!(externs.try_take_extern(h), None);
    assert_eq!(externs.try_get_extern(revived), Some(&2));
}

#[test]
fn checked_mutable_lookup_updates_a_live_handle() {
    let mut externs: Externs<u32> = Externs::new();
    let h = externs.create_extern(5u32);
    if let Some(v) = externs.try_get_extern_mut(h) {
        *v = 6;
    } else {
        panic!("live handle refused");
    }
    assert_eq!(externs.try_get_extern(h), Some(&6));
}

#[test]
fn default_arena_is_empty() {
    let externs: Externs<u8> = Externs::default();
    assert_eq!(externs.slot_count(), 0);
}

#[test]
fn distinct_types_in_distinct_arenas() {
    // The arena is generic over the stored host-object type: a host
    // with several object kinds stores them behind one tagged type.
    #[derive(Debug, PartialEq)]
    enum HostObject {
        Window(u32),
        Sound(String),
    }
    let mut externs: Externs<HostObject> = Externs::new();
    let w = externs.create_extern(HostObject::Window(7));
    let s = externs.create_extern(HostObject::Sound(String::from("beep")));
    assert_eq!(*externs.get_extern(w), HostObject::Window(7));
    assert_eq!(*externs.get_extern(s), HostObject::Sound(String::from("beep")));
}
