use event_dispatch::Driver;
use event_dispatch::Event;
use event_dispatch::EventA;
use event_dispatch::EventB;
use event_dispatch::RecordingClient;

fn driver_with(n: usize) -> Driver<RecordingClient> {
    let mut clients = Vec::new();
    for _ in 0..n {
        clients.push(RecordingClient::new());
    }
    Driver::new(clients)
}

#[test]
fn it_works() {
    let mut driver = driver_with(2);
    driver.emit_event_a(100, false);
    driver.emit_event_b((3.4f64).to_bits(), 42);
    for client in driver.clients_ref() {
        assert_eq!(client.received().len(), 2);
    }
}

#[test]
fn concrete_scenario_two_clients() {
    let mut driver = driver_with(2);
    driver.emit_event_a(100, false);
    driver.emit_event_b((3.4f64).to_bits(), 42);
    let clients = driver.clients_ref();
    assert_eq!(clients.len(), 2);
    for client in clients {
        let received = client.received();
        assert_eq!(received.len(), 2);
        match &received[0] {
            Event::EventA(a) => {
                assert_eq!(a.field_a1, 100);
                assert_eq!(a.field_a2, false);
            }
            Event::EventB(_) => panic!("first event must be the EventA"),
        }
        match &received[1] {
            Event::EventB(b) => {
                assert_eq!(f64::from_bits(b.field_b1), 3.4);
                assert_eq!(b.field_b2, 42);
            }
            Event::EventA(_) => panic!("second event must be the EventB"),
        }
    }
}

#[test]
fn event_a_fields_arrive_unmodified() {
    let mut driver = driver_with(3);
    driver.emit_event_a(i64::MIN, true);
    driver.emit_event_a(i64::MAX, false);
    for client in driver.clients_ref() {
        let expected = vec![
            Event::EventA(EventA { field_a1: i64::MIN, field_a2: true }),
            Event::EventA(EventA { field_a1: i64::MAX, field_a2: false }),
        ];
        assert_eq!(client.received(), &expected);
    }
}

#[test]
fn event_b_fields_arrive_unmodified() {
    let mut driver = driver_with(3);
    driver.emit_event_b(f64::NAN.to_bits(), i32::MIN);
    driver.emit_event_b((-0.0f64).to_bits(), i32::MAX);
    for client in driver.clients_ref() {
        let expected = vec![
            Event::EventB(EventB { field_b1: f64::NAN.to_bits(), field_b2: i32::MIN }),
            Event::EventB(EventB { field_b1: (-0.0f64).to_bits(), field_b2: i32::MAX }),
        ];
        assert_eq!(client.received(), &expected);
    }
}

#[test]
fn no_cross_talk_between_variants() {
    let mut driver = driver_with(1);
    driver.emit_event_a(7, true);
    driver.emit_event_b((1.5f64).to_bits(), 9);
    let received = driver.clients_ref()[0].received();
    assert!(matches!(received[0], Event::EventA(_)));
    assert!(!matches!(received[0], Event::EventB(_)));
    assert!(matches!(received[1], Event::EventB(_)));
    assert!(!matches!(received[1], Event::EventA(_)));
}

#[test]
fn empty_driver_emits_without_failure() {
    let mut driver = driver_with(0);
    driver.emit_event_a(1, true);
    driver.emit_event_b((2.5f64).to_bits(), 3);
    assert_eq!(driver.clients_ref().len(), 0);
}

#[test]
fn delivery_order_matches_registration_order() {
    let mut driver = driver_with(5);
    driver.emit_event_a(11, false);
    driver.emit_event_a(22, true);
    let clients = driver.clients_ref();
    assert_eq!(clients.len(), 5);
    for client in clients {
        let received = client.received();
        assert_eq!(received.len(), 2);
        assert_eq!(received[0], Event::EventA(EventA { field_a1: 11, field_a2: false }));
        assert_eq!(received[1], Event::EventA(EventA { field_a1: 22, field_a2: true }));
    }
}

#[test]
fn fresh_recording_client_has_empty_log() {
    let client = RecordingClient::new();
    assert_eq!(client.received().len(), 0);
}
