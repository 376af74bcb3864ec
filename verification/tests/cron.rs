use leafcast::cron::Croner;

#[test]
fn cron_wait_and_photo_minutes() {
    assert_eq!(Croner::seconds_until_next_minute(0), 60);
    assert_eq!(Croner::seconds_until_next_minute(59), 1);
    assert_eq!(Croner::seconds_until_next_minute(25), 35);
    assert!(Croner::is_photo_minute(0));
    assert!(Croner::is_photo_minute(55));
    assert!(!Croner::is_photo_minute(7));
}
