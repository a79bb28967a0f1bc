use event_bus::message::Message;
use event_bus::model::{Model, Msg as ModelMsg};
use event_bus::subscriber::{Msg, Subscriber};

#[test]
fn message_keeps_its_text() {
    let m = Message::new("payload".to_owned());
    assert_eq!(m.text(), "payload");
}

#[test]
fn subscriber_starts_with_placeholder() {
    let s = Subscriber::new();
    assert_eq!(s.message(), "No message yet.");
}

#[test]
fn subscriber_local_click() {
    let mut s = Subscriber::new();
    assert!(s.update(Msg::LocalClicked));
    assert_eq!(s.message(), "local clicked");
}

#[test]
fn subscriber_new_message_replaces_display() {
    let mut s = Subscriber::new();
    assert!(s.update(Msg::NewMessage("first".to_owned())));
    assert!(s.update(Msg::NewMessage("second".to_owned())));
    assert_eq!(s.message(), "second");
}

#[test]
fn model_starts_at_zero() {
    let m = Model::new();
    assert_eq!(m.value(), 0);
    assert_eq!(m.listy(), &[1, 2, 3]);
    assert_eq!(m.content(), "");
}

#[test]
fn model_add_one_appends_then_increments() {
    let mut m = Model::new();
    assert!(m.update(ModelMsg::AddOne));
    assert!(m.update(ModelMsg::AddOne));
    assert_eq!(m.value(), 2);
    assert_eq!(m.listy(), &[1, 2, 3, 0, 1]);
}

#[test]
fn model_text_is_upper_cased() {
    let mut m = Model::new();
    assert!(m.update(ModelMsg::UpdateText("Hello, yew!".to_owned())));
    assert_eq!(m.content(), "HELLO, YEW!");
    assert_eq!(m.value(), 0);
}

#[test]
fn model_rows_mark_all_but_first() {
    let mut m = Model::new();
    m.update(ModelMsg::AddOne);
    assert_eq!(m.rows(), vec![(1, false), (2, true), (3, true), (0, true)]);
}
