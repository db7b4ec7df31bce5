use context_bind::allocate_stack;
use context_bind::is_reserved;
use context_bind::HandoffSlot;
use context_bind::ProtocolViolation;
use context_bind::StackSize;
use context_bind::EXIT;
use context_bind::START;

#[test]
fn stack_size_bytes() {
    assert_eq!(StackSize::KiB4.bytes(), 4096);
    assert_eq!(StackSize::KiB8.bytes(), 8192);
    assert_eq!(StackSize::KiB16.bytes(), 16384);
    assert_eq!(StackSize::KiB32.bytes(), 32768);
    assert_eq!(StackSize::KiB64.bytes(), 65536);
    assert_eq!(StackSize::KiB128.bytes(), 131072);
    assert_eq!(StackSize::KiB256.bytes(), 262144);
    assert_eq!(StackSize::KiB512.bytes(), 524288);
    assert_eq!(StackSize::MiB.bytes(), 1048576);
    assert_eq!(StackSize::MiB2.bytes(), 2097152);
    assert_eq!(StackSize::MiB4.bytes(), 4194304);
    assert_eq!(StackSize::MiB8.bytes(), 8388608);
}

#[test]
fn reserved_words_are_the_top_two() {
    assert_eq!(EXIT, usize::MAX);
    assert_eq!(START, usize::MAX - 1);
    assert!(is_reserved(EXIT));
    assert!(is_reserved(START));
    assert!(!is_reserved(usize::MAX - 2));
    assert!(!is_reserved(0));
}

#[test]
fn violation_messages() {
    assert_eq!(
        ProtocolViolation::NotInsideCoroutine.message(),
        "not inside a coroutine"
    );
    assert_eq!(
        ProtocolViolation::NoContextToResume.message(),
        "routine has no context to resume"
    );
    assert_eq!(
        ProtocolViolation::BootstrapClosureMissing.message(),
        "bootstrap closure missing"
    );
}

#[test]
fn allocate_small_stack() {
    assert!(allocate_stack(StackSize::KiB8).is_ok());
    assert!(allocate_stack(StackSize::KiB4).is_ok());
}

#[test]
fn allocation_error_carries_smaller_maximum() {
    // Whether the largest class fits depends on the platform's stack limit;
    // when it does not, the error must carry a maximum below the request.
    match allocate_stack(StackSize::MiB8) {
        Ok(_) => {}
        Err(max) => assert!(max < 8388608),
    }
}

#[test]
fn swap_outside_coroutine_is_a_violation() {
    let mut slot: HandoffSlot<fn()> = HandoffSlot::empty();
    assert!(!slot.holds_transfer());
    assert!(matches!(
        slot.take_transfer(),
        Err(ProtocolViolation::NotInsideCoroutine)
    ));
    assert!(!slot.holds_transfer());
}

#[test]
fn bootstrap_without_pending_body_is_a_violation() {
    let mut slot: HandoffSlot<fn()> = HandoffSlot::empty();
    assert!(matches!(
        slot.take_pending(),
        Err(ProtocolViolation::BootstrapClosureMissing)
    ));
}

#[test]
fn pending_body_hands_over_exactly_once() {
    let mut slot: HandoffSlot<Box<dyn Fn() -> usize>> = HandoffSlot::empty();
    assert!(!slot.holds_pending());
    slot.store_pending(Box::new(|| 7));
    assert!(slot.holds_pending());
    match slot.take_pending() {
        Ok(body) => assert_eq!(body(), 7),
        Err(_) => panic!("staged body was lost"),
    }
    assert!(!slot.holds_pending());
    assert!(matches!(
        slot.take_pending(),
        Err(ProtocolViolation::BootstrapClosureMissing)
    ));
}
