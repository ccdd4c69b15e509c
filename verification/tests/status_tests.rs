use led_controller::status::Status;

#[test]
fn new_status_has_initial_fields() {
    let s = Status::new("client-1", 4, "led-color/office");
    assert_eq!(s.client_name, "client-1");
    assert_eq!(s.num_strip_leds, 4);
    assert_eq!(s.change_color_topic, "led-color/office");
    assert_eq!(s.last_changed, 0);
    assert_eq!(s.current_color, (0, 0, 0));
    assert_eq!(s.last_color, (0, 0, 0));
    assert!(!s.is_subscribed);
}

#[test]
fn previous_color_tracks_current_across_calls() {
    // After every accepted color, the previous color equals the current
    // color from just before; for the first call that is the initial color.
    let mut s = Status::new("c", 1, "t");
    let initial = s.current_color;

    s.set_new_status_at((10, 20, 30), 100);
    assert_eq!(s.last_color, initial);
    assert_eq!(s.current_color, (10, 20, 30));

    s.set_new_status_at((1, 2, 3), 101);
    assert_eq!(s.last_color, (10, 20, 30));
    assert_eq!(s.current_color, (1, 2, 3));

    s.set_new_status_at((255, 255, 255), 102);
    assert_eq!(s.last_color, (1, 2, 3));
    assert_eq!(s.current_color, (255, 255, 255));
}

#[test]
fn last_changed_non_decreasing_with_monotonic_stamps() {
    let mut s = Status::new("c", 1, "t");
    let mut seen: Vec<u64> = vec![s.last_changed];
    s.set_new_status_at((1, 1, 1), 50);
    seen.push(s.last_changed);
    s.set_is_subscribed_at(true, 50);
    seen.push(s.last_changed);
    s.set_new_status_at((2, 2, 2), 51);
    seen.push(s.last_changed);
    s.set_is_subscribed_at(false, 60);
    seen.push(s.last_changed);
    for w in seen.windows(2) {
        assert!(w[0] <= w[1]);
    }
}

#[test]
fn set_is_subscribed_at_updates_flag_and_stamp_only() {
    let mut s = Status::new("c", 1, "t");
    s.set_new_status_at((9, 8, 7), 33);
    s.set_is_subscribed_at(true, 44);
    assert!(s.is_subscribed);
    assert_eq!(s.last_changed, 44);
    assert_eq!(s.current_color, (9, 8, 7));
    assert_eq!(s.last_color, (0, 0, 0));
}

#[test]
fn clocked_mutators_read_a_real_clock() {
    // The wall-clock wrapper must hand back the machine's actual time, not
    // some constant: on any sanely configured host the reading is far past
    // the year 2020 and never goes below a previous reading.
    let mut s = Status::new("c", 1, "t");
    s.set_new_status((5, 6, 7)).unwrap();
    assert_eq!(s.current_color, (5, 6, 7));
    assert_eq!(s.last_color, (0, 0, 0));
    let first = s.last_changed;
    assert!(first > 1_600_000_000);

    s.set_is_subscribed(true).unwrap();
    assert!(s.is_subscribed);
    assert!(s.last_changed >= first);
}

#[test]
fn to_message_encodes_the_exact_report() {
    let mut s = Status::new("client-1", 1, "led-color/office");
    s.set_new_status_at((10, 20, 30), 1700000000);
    let msg = s.to_message();
    let text = String::from_utf8(msg).unwrap();
    assert_eq!(
        text,
        "{\"client_name\":\"client-1\",\"num_strip_leds\":1,\
         \"change_color_topic\":\"led-color/office\",\"last_changed\":1700000000,\
         \"current_color\":[10,20,30],\"last_color\":[0,0,0],\"is_subscribed\":false}"
    );
}

#[test]
fn to_message_initial_report() {
    let s = Status::new("c", 0, "t");
    let text = String::from_utf8(s.to_message()).unwrap();
    assert_eq!(
        text,
        "{\"client_name\":\"c\",\"num_strip_leds\":0,\"change_color_topic\":\"t\",\
         \"last_changed\":0,\"current_color\":[0,0,0],\"last_color\":[0,0,0],\
         \"is_subscribed\":false}"
    );
}

#[test]
fn to_message_escapes_string_values() {
    let s = Status::new("a\"b\\c\nd\te\u{1}f", 2, "t/\u{1f}");
    let text = String::from_utf8(s.to_message()).unwrap();
    assert!(text.contains("\"client_name\":\"a\\\"b\\\\c\\nd\\te\\u0001f\""));
    assert!(text.contains("\"change_color_topic\":\"t/\\u001f\""));
}

#[test]
fn report_round_trips_through_a_json_parser() {
    let mut s = Status::new("name with \" quote and \\ slash", 61, "led-color/office");
    s.set_new_status_at((255, 0, 128), 1234567890);
    s.set_is_subscribed_at(true, 1234567891);
    let msg = s.to_message();
    let v: serde_json::Value = serde_json::from_slice(&msg).unwrap();
    assert_eq!(
        v.get("client_name").unwrap().as_str().unwrap(),
        "name with \" quote and \\ slash"
    );
    assert_eq!(v.get("num_strip_leds").unwrap().as_u64().unwrap(), 61);
    assert_eq!(
        v.get("change_color_topic").unwrap().as_str().unwrap(),
        "led-color/office"
    );
    assert_eq!(v.get("last_changed").unwrap().as_u64().unwrap(), 1234567891);
    let cur = v.get("current_color").unwrap().as_array().unwrap();
    assert_eq!(cur.len(), 3);
    assert_eq!(cur[0].as_u64().unwrap(), 255);
    assert_eq!(cur[1].as_u64().unwrap(), 0);
    assert_eq!(cur[2].as_u64().unwrap(), 128);
    let last = v.get("last_color").unwrap().as_array().unwrap();
    assert_eq!(last[0].as_u64().unwrap(), 0);
    assert!(v.get("is_subscribed").unwrap().as_bool().unwrap());
    assert_eq!(v.as_object().unwrap().len(), 7);
}

#[test]
fn report_with_largest_stamp_round_trips() {
    let mut s = Status::new("c", usize::MAX, "t");
    s.set_new_status_at((1, 2, 3), u64::MAX);
    let msg = s.to_message();
    let text = String::from_utf8(msg.clone()).unwrap();
    assert!(text.contains("\"last_changed\":18446744073709551615"));
    let v: serde_json::Value = serde_json::from_slice(&msg).unwrap();
    assert_eq!(v.get("last_changed").unwrap().as_u64().unwrap(), u64::MAX);
    assert_eq!(
        v.get("num_strip_leds").unwrap().as_u64().unwrap(),
        usize::MAX as u64
    );
}
