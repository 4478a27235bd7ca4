use kv_plugin::bootstrap::{Bootstrap, Phase};
use kv_plugin::handshake::NetworkType;
use kv_plugin::health::ServingStatus;

fn fresh_bootstrap() -> Bootstrap {
    Bootstrap::new(
        1,
        2,
        NetworkType::Tcp,
        "grpc".to_string(),
        "plugin.KvService".to_string(),
    )
}

#[test]
fn health_gating_before_and_after_ready() {
    let mut b = fresh_bootstrap();
    assert_eq!(b.check_health("plugin.KvService"), ServingStatus::NotServing);

    b.bind_complete("127.0.0.1:5001".to_string());
    assert_eq!(b.check_health("plugin.KvService"), ServingStatus::NotServing);

    let _line = b.announce();
    assert_eq!(b.check_health("plugin.KvService"), ServingStatus::NotServing);

    b.mark_ready();
    assert_eq!(b.check_health("plugin.KvService"), ServingStatus::Serving);

    b.begin_serving();
    assert_eq!(b.check_health("plugin.KvService"), ServingStatus::Serving);
}

#[test]
fn unregistered_service_is_unknown() {
    let b = fresh_bootstrap();
    assert_eq!(b.check_health("no.such.Service"), ServingStatus::ServiceUnknown);
}

#[test]
fn announce_uses_the_bound_address() {
    let mut b = fresh_bootstrap();
    b.bind_complete("127.0.0.1:40123".to_string());
    let line = b.announce();
    assert_eq!(line, "1|2|tcp|127.0.0.1:40123|grpc");
    assert_eq!(b.phase, Phase::Announced);
}

#[test]
fn reassert_keeps_serving_status() {
    let mut b = fresh_bootstrap();
    b.bind_complete("127.0.0.1:5001".to_string());
    let _line = b.announce();
    b.mark_ready();
    b.begin_serving();
    b.reassert_serving();
    b.reassert_serving();
    assert_eq!(b.phase, Phase::Serving);
    assert_eq!(b.check_health("plugin.KvService"), ServingStatus::Serving);
}

#[test]
fn shutdown_reports_not_serving() {
    let mut b = fresh_bootstrap();
    b.bind_complete("127.0.0.1:5001".to_string());
    let _line = b.announce();
    b.mark_ready();
    b.begin_serving();
    b.shutdown();
    assert_eq!(b.phase, Phase::ShutDown);
    assert_eq!(b.check_health("plugin.KvService"), ServingStatus::NotServing);
}

#[test]
fn phases_advance_in_order() {
    let mut b = fresh_bootstrap();
    assert_eq!(b.phase, Phase::Init);
    b.bind_complete("127.0.0.1:5001".to_string());
    assert_eq!(b.phase, Phase::Bound);
    let _line = b.announce();
    assert_eq!(b.phase, Phase::Announced);
    b.mark_ready();
    assert_eq!(b.phase, Phase::Ready);
    b.begin_serving();
    assert_eq!(b.phase, Phase::Serving);
}
