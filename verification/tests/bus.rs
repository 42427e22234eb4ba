use magicwand::dispatcher::{route, read_buttons, trim, Dispatcher, Route};
use magicwand::hal::hitachi_board::{HitachiConfig, Lights};
use magicwand::handlers::lovense::{
    map_range, parse_command, LovenseCommand, LovenseConfig, LovenseHandler,
};
use magicwand::handlers::rpc::{lookup, HostCall, RpcAction, RpcFault, RpcMethod};
use magicwand::hal::ledc::PwmController;
use magicwand::rpc::{
    decode_call, reply_route, ChannelOptions, MessageRecycler, MessageSource, ReplyChannel,
    RequestMessage, ResponseMessage, ResponseTag, RpcResponse,
};
use thingbuf::Recycle;

fn dispatcher() -> Dispatcher {
    Dispatcher::new(
        HitachiConfig::default().unwrap(),
        LovenseConfig::default().unwrap(),
    )
}

fn slot() -> ResponseMessage {
    Recycle::<ResponseMessage>::new_element(&MessageRecycler::new(32, 64))
}

fn call(method: &str, id: u8, params: &str) -> Vec<u8> {
    format!("{{\"method\":\"{method}\",\"id\":{id},\"params\":{params}}}").into_bytes()
}

#[test]
fn routing_table_matches_every_source() {
    assert_eq!(
        reply_route(MessageSource::BleRpc),
        Some((ReplyChannel::Ble, ResponseTag::BleRpc))
    );
    assert_eq!(
        reply_route(MessageSource::BleLovense),
        Some((ReplyChannel::Ble, ResponseTag::Lovense))
    );
    assert_eq!(
        reply_route(MessageSource::HttpRpc),
        Some((ReplyChannel::Http, ResponseTag::Normal))
    );
    assert_eq!(reply_route(MessageSource::Uart), None);
    assert_eq!(reply_route(MessageSource::Timer), None);
}

#[test]
fn routes_agree_with_the_table() {
    assert_eq!(
        route(MessageSource::BleRpc),
        Route::RpcDispatch(ReplyChannel::Ble, ResponseTag::BleRpc)
    );
    assert_eq!(
        route(MessageSource::HttpRpc),
        Route::RpcDispatch(ReplyChannel::Http, ResponseTag::Normal)
    );
    assert_eq!(
        route(MessageSource::BleLovense),
        Route::DomainProtocolDispatch(ReplyChannel::Ble)
    );
    assert_eq!(route(MessageSource::Uart), Route::SerialEvent);
    assert_eq!(route(MessageSource::Timer), Route::TimerTick);
}

#[test]
fn recycle_empties_and_bounds_a_burst() {
    let recycler = MessageRecycler::new(32, 64);
    let mut request = Recycle::<RequestMessage>::new_element(&recycler);
    let mut response = Recycle::<ResponseMessage>::new_element(&recycler);
    for round in 0..40 {
        let size = if round == 7 { 4096 } else { 48 };
        request.buffer.extend_from_slice(&vec![7u8; size]);
        request.src = MessageSource::HttpRpc;
        response.buffer.extend_from_slice(&vec![9u8; size]);
        response.tag = ResponseTag::Log;
        Recycle::<RequestMessage>::recycle(&recycler, &mut request);
        Recycle::<ResponseMessage>::recycle(&recycler, &mut response);
        assert!(request.buffer.is_empty());
        assert!(response.buffer.is_empty());
        assert!(request.buffer.capacity() <= 64);
        assert!(response.buffer.capacity() <= 64);
        assert_eq!(request.src, MessageSource::BleRpc);
        assert_eq!(response.tag, ResponseTag::Normal);
    }
}

#[test]
fn new_elements_are_empty_with_defaults() {
    let recycler = MessageRecycler::new(32, 512);
    assert_eq!(recycler.min_size, 32);
    assert_eq!(recycler.max_size, 512);
    let request: RequestMessage = Recycle::<RequestMessage>::new_element(&recycler);
    assert!(request.buffer.is_empty());
    assert!(request.buffer.capacity() >= 32);
    assert_eq!(request.src, MessageSource::BleRpc);
    let response = Recycle::<ResponseMessage>::new_element(&recycler);
    assert!(response.buffer.is_empty());
    assert_eq!(response.tag, ResponseTag::Normal);
}

#[test]
fn channel_options_give_their_recycler() {
    let options = ChannelOptions {
        message_capacity: 8,
        min_buffer_size: 32,
        max_buffer_size: 64,
    };
    assert_eq!(options.recycler(), MessageRecycler::new(32, 64));
}

#[test]
fn map_range_reference_values() {
    assert_eq!(map_range(0..20, 65..100, 10), Some(82));
    assert_eq!(map_range(0..20, 65..100, 20), Some(100));
    assert_eq!(map_range(0..20, 65..100, 1), Some(66));
    assert_eq!(map_range(0..20, 65..100, 0), Some(0));
    assert_eq!(map_range(0..20, 10..20, 0), Some(0));
    assert_eq!(map_range(0..20, -5..400, 0), Some(0));
    assert_eq!(map_range(3..9, i64::MIN..i64::MAX, 0), Some(0));
    assert_eq!(map_range(5..5, 0..10, 0), Some(0));
}

#[test]
fn map_range_rounds_toward_zero() {
    assert_eq!(map_range(0..20, 100..65, 3), Some(95));
    assert_eq!(map_range(0..20, 0..7, -5), Some(-1));
    assert_eq!(map_range(20..0, 0..7, 25), Some(-1));
    assert_eq!(map_range(20..0, 0..7, 5), Some(5));
    assert_eq!(map_range(0..3, 0..-10, 1), Some(-3));
}

#[test]
fn map_range_refuses_what_it_cannot_compute() {
    assert_eq!(map_range(5..5, 0..10, 5), None);
    assert_eq!(map_range(0..1, 0..i64::MAX, 2), None);
    assert_eq!(map_range(0..1, i64::MIN..i64::MAX, i64::MIN), None);
    assert_eq!(map_range(0..1, 0..i64::MAX, 1), Some(i64::MAX));
    assert_eq!(map_range(0..1, 0..i64::MIN, 1), Some(i64::MIN));
}

#[test]
fn line_without_terminator_is_discarded() {
    let handler = LovenseHandler {
        mappings: HitachiConfig::default().unwrap(),
        lovense_config: LovenseConfig::default().unwrap(),
    };
    for line in ["", "Battery", "Vibrate:10", "Status:1:2:3", "::::"] {
        let mut pwm = PwmController::new();
        pwm.set_percent(33);
        let mut reply = slot();
        let lights = handler.handle(line.as_bytes(), &mut pwm, &mut reply);
        assert_eq!(reply.tag, ResponseTag::Discard);
        assert!(reply.buffer.is_empty());
        assert_eq!(lights, None);
        assert_eq!(pwm.get_percent(), 33);
    }
}

#[test]
fn queries_get_their_fixed_replies() {
    let mut bus = dispatcher();
    for (line, body) in [
        ("Battery;", "100"),
        ("Status:1;", "2"),
        ("GetLight;", "Light:1"),
        ("Whatever;", ""),
        (";", ""),
        ("Battery;Status;", "100"),
    ] {
        let mut reply = slot();
        let lights = bus.domain_protocol_dispatch(line.as_bytes(), &mut reply);
        assert_eq!(reply.tag, ResponseTag::Lovense);
        assert_eq!(reply.buffer, body.as_bytes());
        assert_eq!(lights, None);
    }
    assert_eq!(bus.rpc.wand.pwm.get_percent(), 0);
}

#[test]
fn vibrate_maps_the_intensity() {
    let mut bus = dispatcher();
    let mut reply = slot();
    let lights = bus.domain_protocol_dispatch(b"Vibrate:10;", &mut reply);
    assert_eq!(reply.tag, ResponseTag::Lovense);
    assert!(reply.buffer.is_empty());
    assert_eq!(bus.rpc.wand.pwm.get_percent(), 82);
    assert_eq!(lights.as_deref(), Some("1111"));

    let mut reply = slot();
    let lights = bus.domain_protocol_dispatch(b"Vibrate:1;", &mut reply);
    assert_eq!(bus.rpc.wand.pwm.get_percent(), 66);
    assert_eq!(lights.as_deref(), Some("1101"));
}

#[test]
fn vibrate_zero_stops_whatever_the_range() {
    for (start, end) in [(65, 100), (10, 20), (-5, 400)] {
        let mut bus = Dispatcher::new(
            HitachiConfig::default().unwrap(),
            LovenseConfig { start, end },
        );
        let mut reply = slot();
        bus.domain_protocol_dispatch(b"Vibrate:7;", &mut reply);
        let mut reply = slot();
        let lights = bus.domain_protocol_dispatch(b"Vibrate:0;", &mut reply);
        assert_eq!(reply.tag, ResponseTag::Lovense);
        assert!(reply.buffer.is_empty());
        assert_eq!(bus.rpc.wand.pwm.get_percent(), 0);
        assert_eq!(lights.as_deref(), Some("0000"));
    }
}

#[test]
fn vibrate_clamps_the_duty() {
    let mut bus = Dispatcher::new(
        HitachiConfig::default().unwrap(),
        LovenseConfig { start: 65, end: 100 },
    );
    let mut reply = slot();
    bus.domain_protocol_dispatch(b"Vibrate:40;", &mut reply);
    assert_eq!(bus.rpc.wand.pwm.get_percent(), 100);
    let mut reply = slot();
    bus.domain_protocol_dispatch(b"Vibrate:-3;", &mut reply);
    assert_eq!(bus.rpc.wand.pwm.get_percent(), 0);
}

#[test]
fn vibrate_without_intensity_is_discarded() {
    let mut bus = dispatcher();
    for line in ["Vibrate;", "Vibrate:;", "Vibrate:abc;", "Vibrate:1x;", "Vibrate:99999999999999999999;"] {
        let mut reply = slot();
        let lights = bus.domain_protocol_dispatch(line.as_bytes(), &mut reply);
        assert_eq!(reply.tag, ResponseTag::Discard);
        assert!(reply.buffer.is_empty());
        assert_eq!(lights, None);
        assert_eq!(bus.rpc.wand.pwm.get_percent(), 0);
    }
}

#[test]
fn commands_are_told_apart() {
    assert_eq!(parse_command(b"Battery"), LovenseCommand::Battery);
    assert_eq!(parse_command(b"Status:1"), LovenseCommand::Status);
    assert_eq!(parse_command(b"GetLight"), LovenseCommand::GetLight);
    assert_eq!(parse_command(b"Vibrate:+12:x"), LovenseCommand::Vibrate(12));
    assert_eq!(parse_command(b"Vibrate:-4"), LovenseCommand::Vibrate(-4));
    assert_eq!(parse_command(b"Vibrate"), LovenseCommand::Malformed);
    assert_eq!(parse_command(b"battery"), LovenseCommand::Unknown);
    assert_eq!(parse_command(b""), LovenseCommand::Unknown);
}

#[test]
fn rpc_round_trip_sets_the_duty() {
    let mut bus = dispatcher();
    let mut reply = slot();
    let (action, _) = bus.rpc_dispatch(
        MessageSource::BleRpc,
        &call("wand:set_percent", 3, "[42]"),
        &mut reply,
    );
    assert_eq!(bus.rpc.wand.pwm.get_percent(), 42);
    assert_eq!(reply.buffer, br#"{"id":3,"result":null}"#);
    assert_eq!(reply.tag, ResponseTag::BleRpc);
    assert!(matches!(action, RpcAction::Drive));
    assert_eq!(bus.rpc.wand.pwm.duty(1023), 429);
}

#[test]
fn rpc_reads_the_duty_back() {
    let mut bus = dispatcher();
    for (asked, stored) in [(7, "7"), (42, "42"), (100, "100"), (250, "100"), (-9, "0")] {
        let mut reply = slot();
        bus.rpc_dispatch(
            MessageSource::HttpRpc,
            &call("wand:set_percent", 1, &format!("[{asked}]")),
            &mut reply,
        );
        let mut reply = slot();
        let (action, _) = bus.rpc_dispatch(MessageSource::HttpRpc, &call("wand:get_percent", 200, "[]"), &mut reply);
        assert_eq!(
            String::from_utf8(reply.buffer.clone()).unwrap(),
            format!("{{\"id\":200,\"result\":{stored}}}")
        );
        assert_eq!(reply.tag, ResponseTag::Normal);
        assert!(matches!(action, RpcAction::Nothing));
    }
}

#[test]
fn malformed_json_is_answered_with_the_diagnostic() {
    let mut bus = dispatcher();
    let diagnostic = serde_json::from_slice::<serde_json::Value>(b"{\"method\": ")
        .unwrap_err()
        .to_string();
    let mut reply = slot();
    let (action, decoded) = bus.rpc_dispatch(MessageSource::HttpRpc, b"{\"method\": ", &mut reply);
    assert!(decoded.is_none());
    assert_eq!(reply.tag, ResponseTag::Normal);
    assert!(matches!(action, RpcAction::Nothing));
    let parsed: serde_json::Value = serde_json::from_slice(&reply.buffer).unwrap();
    assert_eq!(parsed.get("id").and_then(|v| v.as_u64()), Some(0));
    assert_eq!(
        parsed.get("error").and_then(|v| v.as_str()),
        Some(format!("Invalid JSON in RPC request: {diagnostic}").as_str())
    );
    assert!(parsed.get("result").is_none());

    let mut reply = slot();
    let (_, decoded) =
        bus.rpc_dispatch(MessageSource::HttpRpc, &call("wand:get_percent", 5, "null"), &mut reply);
    let decoded = decoded.unwrap();
    assert_eq!(decoded.method, b"wand:get_percent");
    assert_eq!(decoded.id, 5);
    assert_eq!(decoded.params, b"null");
    assert_eq!(reply.buffer, br#"{"id":5,"result":0}"#);
}

#[test]
fn unknown_names_keep_the_id() {
    let mut bus = dispatcher();
    for (method, text) in [
        ("nope:set_percent", "Invalid namespace."),
        ("set_percent", "Invalid namespace."),
        ("wand:nope", "Invalid method."),
        ("wand:", "Invalid method."),
        ("sys:health:x", "Invalid method."),
    ] {
        let mut reply = slot();
        let (action, _) = bus.rpc_dispatch(MessageSource::BleRpc, &call(method, 9, "[1]"), &mut reply);
        assert_eq!(
            String::from_utf8(reply.buffer.clone()).unwrap(),
            format!("{{\"id\":9,\"error\":\"{text}\"}}")
        );
        assert!(matches!(action, RpcAction::Nothing));
        assert_eq!(bus.rpc.wand.pwm.get_percent(), 0);
    }
}

#[test]
fn bad_parameters_are_an_error_reply() {
    let mut bus = dispatcher();
    for (method, params) in [
        ("wand:set_percent", "[\"x\"]"),
        ("wand:set_percent", "[1,2]"),
        ("wand:set_percent", "{}"),
        ("wand:update_lovense_mapping", "[1]"),
        ("uart:send", "[true,false]"),
        ("sys:fake_uart", "[1]"),
    ] {
        let mut reply = slot();
        let (action, _) = bus.rpc_dispatch(MessageSource::BleRpc, &call(method, 4, params), &mut reply);
        let parsed: serde_json::Value = serde_json::from_slice(&reply.buffer).unwrap();
        assert_eq!(parsed.get("id").and_then(|v| v.as_u64()), Some(4));
        let text = parsed.get("error").and_then(|v| v.as_str()).unwrap();
        assert!(text.starts_with("Invalid JSON for the arguments: "));
        assert!(text.len() > "Invalid JSON for the arguments: ".len());
        assert!(parsed.get("result").is_none());
        assert!(matches!(action, RpcAction::Nothing));
        assert_eq!(bus.rpc.wand.pwm.get_percent(), 0);
    }
}

#[test]
fn error_text_is_escaped() {
    let mut out = Vec::new();
    RpcResponse::new(1, Err("a \"b\"\n\\".to_string())).write_into(&mut out);
    assert_eq!(out, br#"{"id":1,"error":"a \"b\"\n\\"}"#);
    let response = RpcResponse::new(2, Ok(b"[1,2]".to_vec()));
    assert_eq!(response.error, None);
    let mut out = b"x".to_vec();
    response.write_into(&mut out);
    assert_eq!(out, br#"x{"id":2,"result":[1,2]}"#);
    assert_eq!(RpcResponse::new(2, Err("e".to_string())).result, b"null");
}

#[test]
fn host_calls_write_nothing() {
    let mut bus = dispatcher();
    for (method, params, expected) in [
        ("sys:health", "[]", HostCall::Health),
        ("sys:restart", "[]", HostCall::Restart),
        ("sys:build_info", "[]", HostCall::BuildInfo),
        ("conn:set_wifi", "[{}]", HostCall::SetWifi),
        ("conn:addr", "[]", HostCall::Addr),
        (
            "wand:update_lovense_mapping",
            "[10, 90]",
            HostCall::StoreLovenseConfig(LovenseConfig { start: 10, end: 90 }),
        ),
    ] {
        let mut reply = slot();
        let (action, _) = bus.rpc_dispatch(MessageSource::HttpRpc, &call(method, 1, params), &mut reply);
        assert!(reply.buffer.is_empty());
        assert_eq!(reply.tag, ResponseTag::Normal);
        match action {
            RpcAction::Host(work) => assert_eq!(work, expected),
            other => panic!("unexpected action {other:?}"),
        }
    }
}

#[test]
fn uart_methods() {
    let mut bus = dispatcher();
    let mut reply = slot();
    let (action, _) = bus.rpc_dispatch(
        MessageSource::BleRpc,
        &call("uart:send", 1, "[true,false,true,false]"),
        &mut reply,
    );
    assert_eq!(reply.buffer, br#"{"id":1,"result":null}"#);
    match action {
        RpcAction::Show(lights) => assert_eq!(
            lights,
            Lights { bottom: true, mid_low: false, mid_high: true, top: false }
        ),
        other => panic!("unexpected action {other:?}"),
    }

    let mut reply = slot();
    let (action, _) = bus.rpc_dispatch(
        MessageSource::BleRpc,
        &call("sys:fake_uart", 2, "[\"BUTTONS:110\"]"),
        &mut reply,
    );
    assert_eq!(reply.buffer, br#"{"id":2,"result":null}"#);
    let injected = match action {
        RpcAction::Inject(payload) => payload,
        other => panic!("unexpected action {other:?}"),
    };
    assert_eq!(injected, b"BUTTONS:110\r\n");

    assert_eq!(bus.serial_event(&injected).as_deref(), Some("1111"));
    let mut reply = slot();
    bus.rpc_dispatch(MessageSource::BleRpc, &call("uart:get_last", 3, "[]"), &mut reply);
    assert_eq!(reply.buffer, br#"{"id":3,"result":"BUTTONS:110\r\n"}"#);
}

#[test]
fn serial_button_edge() {
    let mut bus = Dispatcher::new(
        HitachiConfig { light_mappings: [0, 25, 50, 75], button_mappings: [-100, 100] },
        LovenseConfig::default().unwrap(),
    );
    bus.rpc.wand.pwm.set_percent(50);
    let line = bus.serial_event(b"BUTTONS:010");
    assert_eq!(bus.rpc.wand.pwm.get_percent(), 100);
    assert_eq!(line.as_deref(), Some("1111"));
    assert_eq!(line.unwrap().len(), 4);
    assert_eq!(bus.rpc.uart.last_uart_msg, b"BUTTONS:010");
    assert_eq!(route(MessageSource::Uart), Route::SerialEvent);
    assert_eq!(reply_route(MessageSource::Uart), None);
}

#[test]
fn serial_buttons_follow_the_single_button_rule() {
    let mut bus = Dispatcher::new(
        HitachiConfig { light_mappings: [0, 25, 50, 75], button_mappings: [-20, 30] },
        LovenseConfig::default().unwrap(),
    );
    bus.rpc.wand.pwm.set_percent(50);
    assert_eq!(bus.serial_event(b"BUTTONS:101").as_deref(), Some("1001"));
    assert_eq!(bus.rpc.wand.pwm.get_percent(), 30);
    assert_eq!(bus.serial_event(b"\nBUTTONS:110\r").as_deref(), Some("1101"));
    assert_eq!(bus.rpc.wand.pwm.get_percent(), 60);
    assert_eq!(bus.serial_event(b"BUTTONS:100"), None);
    assert_eq!(bus.serial_event(b"BUTTONS:111"), None);
    assert_eq!(bus.serial_event(b"BUTTONS:011"), None);
    assert_eq!(bus.serial_event(b"BUTTONS:10"), None);
    assert_eq!(bus.serial_event(b"BUTTONS"), None);
    assert_eq!(bus.serial_event(b"LIGHTS:101"), None);
    assert_eq!(bus.serial_event(b""), None);
    assert_eq!(bus.rpc.wand.pwm.get_percent(), 60);
    assert_eq!(bus.rpc.uart.last_uart_msg, b"");
    assert_eq!(bus.serial_event(b"BUTTONS:101").as_deref(), Some("1001"));
    assert_eq!(bus.serial_event(b"BUTTONS:101").as_deref(), Some("0001"));
    assert_eq!(bus.serial_event(b"BUTTONS:101").as_deref(), Some("0000"));
    assert_eq!(bus.rpc.wand.pwm.get_percent(), 0);
}

#[test]
fn buttons_are_read_off_trimmed_lines() {
    assert_eq!(read_buttons(b"  BUTTONS:010\r\n"), Some((true, false, true)));
    assert_eq!(read_buttons(b"BUTTONS:1110"), Some((false, false, false)));
    assert_eq!(read_buttons(b"BUTTONSX:000"), Some((true, true, true)));
    assert_eq!(read_buttons(b"XBUTTONS:000"), None);
    assert_eq!(trim(b" \t a b \r\n"), b"a b");
    assert_eq!(trim(b" \n"), b"");
}

#[test]
fn lookup_finds_every_method() {
    assert_eq!(lookup(b"sys:fake_uart"), Ok(RpcMethod::SysFakeUart));
    assert_eq!(lookup(b"sys:health"), Ok(RpcMethod::SysHealth));
    assert_eq!(lookup(b"sys:restart"), Ok(RpcMethod::SysRestart));
    assert_eq!(lookup(b"sys:build_info"), Ok(RpcMethod::SysBuildInfo));
    assert_eq!(lookup(b"conn:set_wifi"), Ok(RpcMethod::ConnSetWifi));
    assert_eq!(lookup(b"conn:addr"), Ok(RpcMethod::ConnAddr));
    assert_eq!(lookup(b"wand:set_percent"), Ok(RpcMethod::WandSetPercent));
    assert_eq!(lookup(b"wand:update_lovense_mapping"), Ok(RpcMethod::WandUpdateLovenseMapping));
    assert_eq!(lookup(b"wand:get_percent"), Ok(RpcMethod::WandGetPercent));
    assert_eq!(lookup(b"uart:send"), Ok(RpcMethod::UartSend));
    assert_eq!(lookup(b"uart:get_last"), Ok(RpcMethod::UartGetLast));
    assert_eq!(lookup(b"uart:health"), Err(RpcFault::InvalidMethod));
    assert_eq!(lookup(b"led:send"), Err(RpcFault::InvalidNamespace));
    assert_eq!(lookup(b""), Err(RpcFault::InvalidNamespace));
    assert_eq!(RpcFault::InvalidMethod.message(), "Invalid method.");
    assert_eq!(RpcFault::InvalidNamespace.message(), "Invalid namespace.");
}

#[test]
fn call_envelopes_are_decoded() {
    let call = decode_call(br#" {"id": 7, "extra": {"a": [1]}, "params": [1, {"b": "c"}], "method": "a:b"} "#)
        .unwrap();
    assert_eq!(call.method, b"a:b");
    assert_eq!(call.id, 7);
    assert_eq!(call.params, br#"[1, {"b": "c"}]"#);
    let call = decode_call(br#"{"method":"w\u00e4nd:\n","id":255,"params":null}"#).unwrap();
    assert_eq!(call.method, "w\u{e4}nd:\n".as_bytes());
    assert_eq!(call.id, 255);
    assert_eq!(call.params, b"null");
}

#[test]
fn payloads_that_hold_no_call_are_refused() {
    assert_eq!(
        decode_call(br#"{"id":1,"params":[]}"#).unwrap_err(),
        "missing field `method`"
    );
    assert_eq!(
        decode_call(br#"{"method":"a:b","params":[]}"#).unwrap_err(),
        "missing field `id`"
    );
    assert_eq!(
        decode_call(br#"{"method":"a:b","id":1}"#).unwrap_err(),
        "missing field `params`"
    );
    for payload in [
        &b""[..],
        b"[]",
        b"nonsense",
        br#"{"method":"a:b","id":1,"params":[]"#,
        br#"{"method":7,"id":1,"params":[]}"#,
        br#"{"method":"a:b","id":256,"params":[]}"#,
        br#"{"method":"a:b","id":-1,"params":[]}"#,
        br#"{"method":"a:b","id":"1","params":[]}"#,
        b"\xff",
    ] {
        let text = decode_call(payload).unwrap_err();
        assert!(!text.is_empty());
        assert!(!text.starts_with("missing field"));
    }
}
