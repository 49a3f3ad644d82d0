use egor::egor_event::EgorEvent;

#[test]
fn events_compare_by_variant_and_payload() {
    assert_eq!(EgorEvent::Focused(true), EgorEvent::Focused(true));
    assert_ne!(EgorEvent::Focused(true), EgorEvent::Focused(false));
    assert_eq!(EgorEvent::Resized(1920, 1080), EgorEvent::Resized(1920, 1080));
    assert_ne!(EgorEvent::Resized(1920, 1080), EgorEvent::Resized(1080, 1920));
    assert_ne!(EgorEvent::CloseRequested, EgorEvent::Focused(false));
}

#[test]
fn events_are_copy() {
    let e = EgorEvent::Resized(800, 600);
    let copied = e;
    assert_eq!(e, copied);
    let events = vec![EgorEvent::Focused(false), e, EgorEvent::CloseRequested];
    let mut paused = false;
    for event in &events {
        if let EgorEvent::Focused(focused) = event {
            paused = !focused;
        }
    }
    assert!(paused);
}
