use revsocks::agent::Client;
use revsocks::agent::DialAction;
use revsocks::agent::DialEvent;
use revsocks::agent::RETRY_INTERVAL_MILLIS;
use revsocks::agent::User;

#[test]
fn client_keeps_its_configuration() {
    let client = Client::new(3030, "localhost", vec![0x00]).unwrap();
    assert_eq!(client.ip(), "localhost");
    assert_eq!(client.port(), 3030);
    assert_eq!(client.auth_methods(), &vec![0x00]);
}

#[test]
fn dial_decisions() {
    assert_eq!(dial(&DialEvent::Connected), DialAction::RunSession);
    assert_eq!(
        dial(&DialEvent::ConnectFailed),
        DialAction::RetryAfterMillis(RETRY_INTERVAL_MILLIS)
    );
    assert_eq!(RETRY_INTERVAL_MILLIS, 1000);
}

fn dial(event: &DialEvent) -> DialAction {
    revsocks::agent::dial_step(event)
}

#[test]
fn user_holds_its_name() {
    let user = User::new("alice".to_string(), "pw".to_string());
    assert_eq!(user.username, "alice");
    let copy = user.clone();
    assert_eq!(copy, user);
}
