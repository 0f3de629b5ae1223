use gon::addr::Address;
use gon::daemon::protocol::{Message, Method, Payload, Response, ResponseStatus};
use gon::AppMode;

#[test]
fn done_is_done() {
    let msg = Message { method: Method::Done, payload: Payload::Empty };
    assert!(msg.is_done());
    for method in [Method::Ping, Method::NewNotification, Method::GetHost, Method::ImHost] {
        let msg = Message { method, payload: Payload::Empty };
        assert!(!msg.is_done());
    }
}

#[test]
fn success_carries_its_payload() {
    let ok = Response::success(Payload::Number(7));
    assert_eq!(ok.status, ResponseStatus::Success);
    assert_eq!(ok.result, Some(Payload::Number(7)));
    assert!(!ok.is_failed());
    assert!(!ok.is_host_changed());
}

#[test]
fn empty_is_a_success_without_payload() {
    let empty = Response::empty();
    assert_eq!(empty.status, ResponseStatus::Success);
    assert_eq!(empty.result, None);
}

#[test]
fn failed_carries_nothing() {
    let failed = Response::failed();
    assert_eq!(failed.status, ResponseStatus::Failed);
    assert_eq!(failed.result, None);
    assert!(failed.is_failed());
    assert!(!failed.is_host_changed());
}

#[test]
fn host_changed_names_the_host() {
    let res = Response::host_changed(Address::new(192, 168, 1, 20, 40123));
    assert_eq!(res.status, ResponseStatus::HostChanged);
    assert_eq!(res.result, Some(Payload::Address(192, 168, 1, 20, 40123)));
    assert!(res.is_host_changed());
    assert!(!res.is_failed());
}

#[test]
fn payload_gives_its_address_back() {
    let addr = Address::new(10, 1, 2, 3, 65535);
    assert_eq!(Payload::of_address(addr), Payload::Address(10, 1, 2, 3, 65535));
    assert_eq!(Payload::of_address(addr).address(), Some(addr));
    assert_eq!(Payload::Empty.address(), None);
    assert_eq!(Payload::Text("10.1.2.3:65535".to_string()).address(), None);
    assert_eq!(Payload::Number(1).address(), None);
}

#[test]
fn roles_know_what_they_are() {
    let host: AppMode<Address> = AppMode::Host;
    assert!(host.is_host());
    assert!(!host.is_client());
    assert!(!host.is_client_and_not_found_host());
    assert_eq!(host.get_host(), None);

    let lost: AppMode<Address> = AppMode::Client(None);
    assert!(!lost.is_host());
    assert!(lost.is_client());
    assert!(lost.is_client_and_not_found_host());
    assert_eq!(lost.get_host(), None);

    let addr = Address::new(172, 16, 0, 9, 5000);
    let client = AppMode::Client(Some(addr));
    assert!(!client.is_host());
    assert!(client.is_client());
    assert!(!client.is_client_and_not_found_host());
    assert_eq!(client.get_host(), Some(&addr));
}

#[test]
fn roles_hold_any_kind_of_address() {
    let client: AppMode<String> = AppMode::Client(Some("somewhere".to_string()));
    assert_eq!(client.get_host().map(|s| s.as_str()), Some("somewhere"));
    assert!(client.is_client());
}
