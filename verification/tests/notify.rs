use moxapi::notify::{Notification, NotificationBuilder, APP_ICON, APP_NAME};

#[test]
fn a_new_builder_sends_an_empty_new_notification() {
    assert_eq!(
        NotificationBuilder::new().send(),
        Notification {
            app_name: "moxapi",
            replaces_id: 0,
            app_icon: "",
            summary: "",
            body: "",
            expire_timeout: 0,
        }
    );
}

#[test]
fn the_builder_hands_everything_on_as_it_came() {
    let sent = NotificationBuilder::new()
        .with_summary("Backup done")
        .with_body("42 files, 0 errors")
        .with_timeout(5000)
        .with_id(17)
        .send();
    assert_eq!(
        sent,
        Notification {
            app_name: APP_NAME,
            replaces_id: 17,
            app_icon: APP_ICON,
            summary: "Backup done",
            body: "42 files, 0 errors",
            expire_timeout: 5000,
        }
    );
}

#[test]
fn each_setter_changes_its_own_field_only() {
    let base = NotificationBuilder::new().with_summary("s").with_body("b").with_timeout(1).with_id(2);
    assert_eq!(base.with_summary("t").send().summary, "t");
    assert_eq!(base.with_summary("t").send().body, "b");
    assert_eq!(base.with_body("c").send().body, "c");
    assert_eq!(base.with_body("c").send().summary, "s");
    assert_eq!(base.with_timeout(9).send().expire_timeout, 9);
    assert_eq!(base.with_timeout(9).send().replaces_id, 2);
    assert_eq!(base.with_id(8).send().replaces_id, 8);
    assert_eq!(base.with_id(8).send().expire_timeout, 1);
}

#[test]
fn the_last_value_given_counts() {
    let sent = NotificationBuilder::new().with_id(1).with_id(2).with_summary("a").with_summary("b").send();
    assert_eq!(sent.replaces_id, 2);
    assert_eq!(sent.summary, "b");
}

#[test]
fn timeout_may_be_negative_and_ids_large() {
    let sent = NotificationBuilder::new().with_timeout(-1).with_id(u32::MAX).send();
    assert_eq!(sent.expire_timeout, -1);
    assert_eq!(sent.replaces_id, u32::MAX);
    let least = NotificationBuilder::new().with_timeout(i32::MIN).send();
    assert_eq!(least.expire_timeout, i32::MIN);
}
