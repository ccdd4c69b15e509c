use led_controller::codec::decode_color_command;

fn decodes_to(payload: &str, expected: (u8, u8, u8)) {
    // Every payload this decoder accepts must mean the same thing to a real
    // JSON parser.
    let got = decode_color_command(payload.as_bytes()).unwrap();
    assert_eq!(got, expected);
    let v: serde_json::Value = serde_json::from_str(payload).unwrap();
    assert_eq!(v.get("red").unwrap().as_u64().unwrap(), expected.0 as u64);
    assert_eq!(v.get("green").unwrap().as_u64().unwrap(), expected.1 as u64);
    assert_eq!(v.get("blue").unwrap().as_u64().unwrap(), expected.2 as u64);
}

#[test]
fn decodes_canonical_command() {
    decodes_to("{\"red\":10,\"green\":20,\"blue\":30}", (10, 20, 30));
}

#[test]
fn decodes_any_member_order() {
    decodes_to("{\"green\":20,\"red\":10,\"blue\":30}", (10, 20, 30));
    decodes_to("{\"blue\":30,\"green\":20,\"red\":10}", (10, 20, 30));
    decodes_to("{\"blue\":3,\"red\":1,\"green\":2}", (1, 2, 3));
}

#[test]
fn decodes_with_whitespace_around_tokens() {
    decodes_to("  { \"red\" : 10 , \"green\"\t:\n20 ,\r\"blue\" : 30 }  ", (10, 20, 30));
    decodes_to("{\"red\":0,\"green\":0,\"blue\":0}\n", (0, 0, 0));
}

#[test]
fn decodes_channel_bounds() {
    decodes_to("{\"red\":0,\"green\":255,\"blue\":255}", (0, 255, 255));
    decodes_to("{\"red\":255,\"green\":0,\"blue\":9}", (255, 0, 9));
}

#[test]
fn rejects_malformed_payloads() {
    let bad: &[&str] = &[
        "",
        "   ",
        "{}",
        "[10,20,30]",
        "{\"red\":10,\"green\":20}",
        "{\"red\":10,\"green\":20,\"blue\":30,\"alpha\":1}",
        "{\"red\":10,\"green\":20,\"blue\":}",
        "{\"red\":10,\"green\":20,\"blue\":30",
        "{\"red\":10,\"green\":20,\"blue\":30}}",
        "{\"red\":10,\"green\":20,\"blue\":30} x",
        "{\"red\":10,\"green\":20,\"blue\":30,}",
        "{\"red\":10 \"green\":20 \"blue\":30}",
        "{\"red\":-1,\"green\":20,\"blue\":30}",
        "{\"red\":10.0,\"green\":20,\"blue\":30}",
        "{\"red\":\"10\",\"green\":20,\"blue\":30}",
        "{red:10,green:20,blue:30}",
        "{'red':10,'green':20,'blue':30}",
        "{\"red\":10,\"red\":20,\"blue\":30}",
        "{\"red\":10,\"green\":20,\"green\":30}",
        "{\"Red\":10,\"green\":20,\"blue\":30}",
        "{\"redd\":10,\"green\":20,\"blue\":30}",
        "null",
        "true",
        "42",
    ];
    for payload in bad {
        assert!(
            decode_color_command(payload.as_bytes()).is_err(),
            "accepted: {payload}"
        );
    }
}

#[test]
fn rejects_out_of_range_values() {
    assert!(decode_color_command(b"{\"red\":256,\"green\":20,\"blue\":30}").is_err());
    assert!(decode_color_command(b"{\"red\":999,\"green\":20,\"blue\":30}").is_err());
    assert!(decode_color_command(b"{\"red\":1000,\"green\":20,\"blue\":30}").is_err());
    assert!(decode_color_command(b"{\"red\":10,\"green\":18446744073709551616,\"blue\":30}").is_err());
}

#[test]
fn rejects_leading_zeros() {
    assert!(decode_color_command(b"{\"red\":01,\"green\":20,\"blue\":30}").is_err());
    assert!(decode_color_command(b"{\"red\":00,\"green\":20,\"blue\":30}").is_err());
    // A real JSON parser agrees that these are not valid JSON.
    assert!(serde_json::from_str::<serde_json::Value>("{\"red\":01,\"green\":20,\"blue\":30}").is_err());
}

#[test]
fn accepts_plain_zero() {
    decodes_to("{\"red\":0,\"green\":20,\"blue\":30}", (0, 20, 30));
}
