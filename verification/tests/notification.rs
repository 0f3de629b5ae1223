use gon::notification::{
    parse_notification, CaptureError, Field, Notification, NotifyCall, Timestamp,
};

#[test]
fn a_notify_call_is_read_from_its_arguments() {
    let s = |t: &str| Field::Str(t.to_string());
    let fields = vec![
        s("mail"),
        Field::Other,
        s("mail-unread"),
        s("New mail"),
        s("From a friend"),
        Field::Other,
        Field::Other,
        Field::Other,
    ];
    let call = parse_notification(&fields).unwrap();
    assert_eq!(
        call,
        NotifyCall {
            app_name: "mail".to_string(),
            icon: "mail-unread".to_string(),
            title: "New mail".to_string(),
            message: "From a friend".to_string(),
        }
    );
    assert_eq!(parse_notification(&fields[..5].to_vec()), Ok(call.clone()));
    let mut second_is_string = fields.clone();
    second_is_string[1] = s("7");
    assert_eq!(parse_notification(&second_is_string), Ok(call.clone()));

    assert_eq!(parse_notification(&fields[..4].to_vec()), Err(CaptureError::NotNotification));
    assert_eq!(parse_notification(&vec![]), Err(CaptureError::NotNotification));
    for at in [0usize, 2, 3, 4] {
        let mut broken = fields.clone();
        broken[at] = Field::Other;
        assert_eq!(parse_notification(&broken), Err(CaptureError::NotNotification));
    }

    let stamp = Timestamp { secs: 12, nanos: 34 };
    assert_eq!(
        call.clone().into_notification(Some(vec![1, 2]), stamp),
        Notification {
            app_name: "mail".to_string(),
            app_icon: Some(vec![1, 2]),
            title: "New mail".to_string(),
            message: "From a friend".to_string(),
            timestamp: stamp,
        }
    );
    assert_eq!(call.into_notification(None, stamp).app_icon, None);
}
