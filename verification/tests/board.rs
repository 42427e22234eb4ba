use magicwand::ble::{fill_log, stream_for, BleStream};
use magicwand::bytes::{bytes_eq, find_byte};
use magicwand::dispatcher::{Dispatched, Dispatcher};
use magicwand::hal::hitachi_board::{HitachiConfig, Lights};
use magicwand::hal::husb238::{
    decode_offer, parse_selection, Command, Current, Current5V, PdResponse, PdoSelection,
    SrcVoltage, Status, VoltageSelection,
};
use magicwand::hal::ledc::PwmController;
use magicwand::hal::uart::{write_line, LineFramer};
use magicwand::hal::wand::{LightMappings, Lights as WandLights, Wand};
use magicwand::hal::ws2812::{channel, set_color};
use magicwand::handlers::lovense::LovenseConfig;
use magicwand::handlers::mac::{format_mac, MACAddresses};
use magicwand::handlers::rpc::RpcAction;
use magicwand::http::{
    body_size, check_upload, AbortReason, ChunkEvent, ChunkStep, Download, UploadRefusal,
    FIRMWARE_MAX_SIZE,
};
use magicwand::rpc::{
    MessageRecycler, MessageSource, ReplyChannel, RequestMessage, ResponseMessage, ResponseTag,
};
use magicwand::script::LovenseArgs;
use magicwand::text::{parse_i64, write_u8};
use thingbuf::Recycle;

#[test]
fn lights_follow_the_thresholds() {
    let mapping = [0, 25, 50, 75];
    assert_eq!(
        Lights::from_mapping(0, &mapping),
        Lights { bottom: false, mid_low: false, mid_high: false, top: false }
    );
    assert_eq!(
        Lights::from_mapping(25, &mapping),
        Lights { bottom: true, mid_low: false, mid_high: false, top: false }
    );
    assert_eq!(
        Lights::from_mapping(51, &mapping),
        Lights { bottom: true, mid_low: true, mid_high: true, top: false }
    );
    assert_eq!(
        Lights::from_mapping(76, &mapping),
        Lights { bottom: true, mid_low: true, mid_high: true, top: true }
    );
}

#[test]
fn lights_write_their_pattern() {
    let lights = Lights { mid_low: true, mid_high: false, top: false, bottom: true };
    let mut out = String::from(">");
    lights.write_into(&mut out);
    assert_eq!(out, ">1001");
    let mut out = String::new();
    Lights { mid_low: false, mid_high: true, top: true, bottom: false }.write_into(&mut out);
    assert_eq!(out, "0110");
}

#[test]
fn wand_lights_write_a_whole_line() {
    let lights = WandLights::from_mapping(60, &LightMappings::default().thresholds);
    assert_eq!(
        lights,
        WandLights { mid_low: true, mid_high: true, top: false, bottom: true }
    );
    let mut out = String::new();
    lights.write_into(&mut out);
    assert_eq!(out, "1101\r\n");
    let mut out = String::new();
    WandLights::default().write_into(&mut out);
    assert_eq!(out, "0000\r\n");
    assert_eq!(LightMappings::default().thresholds, [-1, 25, 50, 75]);
}

#[test]
fn wand_clamps_and_shows_the_duty() {
    let mut wand = Wand { percent: 0 };
    let mappings = LightMappings::default();
    let lights = wand.set_percent(130, &mappings);
    assert_eq!(wand.get_percent(), 100);
    assert_eq!(lights, WandLights { mid_low: true, mid_high: true, top: true, bottom: true });
    let lights = wand.set_percent(-4, &mappings);
    assert_eq!(wand.get_percent(), 0);
    assert_eq!(lights, WandLights { mid_low: false, mid_high: false, top: false, bottom: true });
}

#[test]
fn defaults_of_the_board() {
    let config = HitachiConfig::default().unwrap();
    assert_eq!(config.light_mappings, [0, 25, 50, 75]);
    assert_eq!(config.button_mappings, [-100, 100]);
    assert_eq!(LovenseConfig::default(), Some(LovenseConfig { start: 65, end: 100 }));
}

#[test]
fn duty_is_clamped_and_scaled() {
    let mut pwm = PwmController::new();
    assert_eq!(pwm.get_percent(), 0);
    pwm.set_percent(50);
    assert_eq!(pwm.duty(1023), 511);
    pwm.set_percent(101);
    assert_eq!(pwm.get_percent(), 100);
    assert_eq!(pwm.duty(u32::MAX), u32::MAX);
    pwm.set_percent(i64::MIN);
    assert_eq!(pwm.get_percent(), 0);
    assert_eq!(pwm.duty(1023), 0);
    pwm.set_percent(33);
    assert_eq!(pwm.duty(8191), 2703);
}

#[test]
fn framer_hands_on_one_request_per_line() {
    let recycler = MessageRecycler::new(32, 64);
    let mut framer = LineFramer::new();
    let mut slot = Recycle::<RequestMessage>::new_element(&recycler);
    assert!(!framer.next_frame(&mut slot));
    framer.feed(b"BUTTONS:1");
    assert!(!framer.frame_ready());
    assert!(!framer.next_frame(&mut slot));
    assert!(slot.buffer.is_empty());
    assert_eq!(slot.src, MessageSource::BleRpc);

    framer.feed(b"10\r\nBUTTONS:011\r\nBU");
    assert!(framer.frame_ready());
    assert!(framer.next_frame(&mut slot));
    assert_eq!(slot.buffer, b"BUTTONS:110\r");
    assert_eq!(slot.src, MessageSource::Uart);
    let mut slot = Recycle::<RequestMessage>::new_element(&recycler);
    assert!(framer.next_frame(&mut slot));
    assert_eq!(slot.buffer, b"BUTTONS:011\r");
    let mut slot = Recycle::<RequestMessage>::new_element(&recycler);
    assert!(!framer.frame_ready());
    assert!(!framer.next_frame(&mut slot));
    assert!(slot.buffer.is_empty());

    framer.feed(b"TTONS");
    assert_eq!(framer.buf, b"BUTTONS");
    assert_eq!(framer.cursor, 0);
    assert!(!framer.next_frame(&mut slot));
    framer.feed(b":101\n");
    assert!(framer.next_frame(&mut slot));
    assert_eq!(slot.buffer, b"BUTTONS:101");
    let mut slot = Recycle::<RequestMessage>::new_element(&recycler);
    assert!(!framer.next_frame(&mut slot));
    framer.feed(b"");
    assert_eq!(framer.buf, b"");
}

#[test]
fn framer_keeps_empty_lines_and_appends_to_the_slot() {
    let recycler = MessageRecycler::new(32, 64);
    let mut framer = LineFramer::new();
    framer.feed(b"\n\na\n");
    let mut frames = Vec::new();
    while framer.frame_ready() {
        let mut slot = Recycle::<RequestMessage>::new_element(&recycler);
        assert!(framer.next_frame(&mut slot));
        assert!(!slot.buffer.contains(&b'\n'));
        frames.push(slot.buffer);
    }
    assert_eq!(frames, vec![b"".to_vec(), b"".to_vec(), b"a".to_vec()]);

    framer.feed(b"tail\nmore");
    let mut slot = Recycle::<RequestMessage>::new_element(&recycler);
    slot.buffer.extend_from_slice(b"head:");
    assert!(framer.next_frame(&mut slot));
    assert_eq!(slot.buffer, b"head:tail");
    assert!(!framer.frame_ready());
}

#[test]
fn framed_lines_reach_the_buttons() {
    let recycler = MessageRecycler::new(32, 64);
    let mut framer = LineFramer::new();
    let mut bus = Dispatcher::new(
        HitachiConfig { light_mappings: [0, 25, 50, 75], button_mappings: [-10, 10] },
        LovenseConfig::default().unwrap(),
    );
    framer.feed(b"BUTTONS:110\r\nBUTTONS:1");
    framer.feed(b"10\r\nnoise\r\n");
    let mut seen = Vec::new();
    loop {
        let mut slot = Recycle::<RequestMessage>::new_element(&recycler);
        if !framer.next_frame(&mut slot) {
            break;
        }
        seen.push(bus.serial_event(&slot.buffer));
    }
    assert_eq!(seen, vec![Some("0001".to_string()), Some("0001".to_string()), None]);
    assert_eq!(bus.rpc.wand.pwm.get_percent(), 20);
}

#[test]
fn outgoing_lines_are_terminated() {
    let mut out = Vec::new();
    write_line(b"1111", &mut out);
    write_line(b"", &mut out);
    assert_eq!(out, b"1111\r\n\r\n");
}

#[test]
fn host_results_are_framed_under_the_callers_id() {
    let mut bus = Dispatcher::new(
        HitachiConfig::default().unwrap(),
        LovenseConfig::default().unwrap(),
    );
    let mut slot = Recycle::<ResponseMessage>::new_element(&MessageRecycler::new(64, 512));
    let payload = br#"{"method":"sys:build_info","id":11,"params":[]}"#;
    let (action, call) = bus.rpc_dispatch(MessageSource::HttpRpc, payload, &mut slot);
    assert!(matches!(action, RpcAction::Host(_)));
    assert!(slot.buffer.is_empty());
    let call = call.unwrap();
    bus.rpc.host_reply(&call, Ok(br#"{"crate_name":"x"}"#.to_vec()), &mut slot.buffer);
    assert_eq!(slot.buffer, br#"{"id":11,"result":{"crate_name":"x"}}"#);
    assert_eq!(slot.tag, ResponseTag::Normal);

    let mut slot = Recycle::<ResponseMessage>::new_element(&MessageRecycler::new(64, 512));
    bus.rpc.host_reply(&call, Err("sensor \"t\" failed".to_string()), &mut slot.buffer);
    assert_eq!(slot.buffer, br#"{"id":11,"error":"sensor \"t\" failed"}"#);
}

#[test]
fn tags_select_the_radio_streams() {
    assert_eq!(stream_for(ResponseTag::BleRpc), Some(BleStream::RpcResponse));
    assert_eq!(stream_for(ResponseTag::Lovense), Some(BleStream::Lovense));
    assert_eq!(stream_for(ResponseTag::Log), Some(BleStream::Log));
    assert_eq!(stream_for(ResponseTag::Discard), None);
}

#[test]
fn log_text_is_tagged() {
    let mut slot = Recycle::<ResponseMessage>::new_element(&MessageRecycler::new(32, 64));
    fill_log(&mut slot, b"hello");
    assert_eq!(slot.buffer, b"hello");
    assert_eq!(slot.tag, ResponseTag::Log);
}

#[test]
fn uploads_are_checked_before_they_start() {
    assert_eq!(check_upload(1279, 256, true), Err(UploadRefusal::TooSmall));
    assert_eq!(check_upload(1280, 256, true), Ok(()));
    assert_eq!(check_upload(FIRMWARE_MAX_SIZE, 256, true), Ok(()));
    assert_eq!(check_upload(FIRMWARE_MAX_SIZE + 1, 256, true), Err(UploadRefusal::TooBig));
    assert_eq!(check_upload(4096, 256, false), Err(UploadRefusal::WrongContentType));
    assert_eq!(check_upload(0, 256, false), Err(UploadRefusal::TooSmall));
    assert_eq!(check_upload(usize::MAX, usize::MAX, true), Err(UploadRefusal::TooSmall));
    assert_eq!(body_size(None), 64);
    assert_eq!(body_size(Some(300)), 300);
}

#[test]
fn upload_runs_to_completion() {
    let mut download = Download::new(20000);
    let chunk = ChunkEvent::Read { bytes: 8192, header_ok: true, written: true };
    assert_eq!(download.advance(chunk), ChunkStep::Continue);
    assert!(!download.missing_firmware_info);
    let later = ChunkEvent::Read { bytes: 8192, header_ok: false, written: true };
    assert_eq!(download.advance(later), ChunkStep::Continue);
    assert_eq!(download.total_bytes_read, 16384);
    let last = ChunkEvent::Read { bytes: 3616, header_ok: false, written: true };
    assert_eq!(download.advance(last), ChunkStep::Complete);
    assert_eq!(download.total_bytes_read, 20000);
}

#[test]
fn upload_aborts_on_each_failure() {
    let mut download = Download::new(20000);
    assert_eq!(
        download.advance(ChunkEvent::ReadFailed),
        ChunkStep::Abort(500, AbortReason::Io)
    );
    assert_eq!(download, Download::new(20000));
    assert_eq!(
        download.advance(ChunkEvent::Read { bytes: 100, header_ok: false, written: true }),
        ChunkStep::Abort(400, AbortReason::NoFirmwareInfo)
    );
    let mut download = Download::new(20000);
    assert_eq!(
        download.advance(ChunkEvent::Read { bytes: 100, header_ok: true, written: false }),
        ChunkStep::Abort(500, AbortReason::WriteFailed)
    );
    let mut download = Download::new(20000);
    assert_eq!(
        download.advance(ChunkEvent::Read { bytes: 0, header_ok: true, written: false }),
        ChunkStep::Continue
    );
}

#[test]
fn status_registers_are_decoded() {
    assert_eq!(
        Status::decode(0b0011_1010, 0b1100_1110),
        Some(Status {
            selected_voltage: SrcVoltage::PD12V,
            selected_current: Current::PD3_00,
            attached: true,
            cc2_attached: true,
            pd_response: PdResponse::Success,
            current_5v: Some(Current5V::Current2_4),
        })
    );
    assert_eq!(
        Status::decode(0, 0),
        Some(Status {
            selected_voltage: SrcVoltage::Unattached,
            selected_current: Current::PD0_50,
            attached: false,
            cc2_attached: false,
            pd_response: PdResponse::NoResponse,
            current_5v: None,
        })
    );
    assert_eq!(Status::decode(0b0111_0000, 0), None);
    assert_eq!(Status::decode(0, 0b0001_0000), None);
    assert_eq!(Status::decode(0b1110_1111, 0b0010_1011).map(|s| s.selected_voltage), Some(SrcVoltage::PD20V));
}

#[test]
fn offers_and_registers() {
    assert_eq!(decode_offer(0b1000_1111), Some(Current::PD5_00));
    assert_eq!(decode_offer(0b1111_0100), Some(Current::PD1_50));
    assert_eq!(decode_offer(0b0111_1111), None);
    assert_eq!(VoltageSelection::PD5V.register(), 0x02);
    assert_eq!(VoltageSelection::PD9V.register(), 0x03);
    assert_eq!(VoltageSelection::PD12V.register(), 0x04);
    assert_eq!(VoltageSelection::PD15V.register(), 0x05);
    assert_eq!(VoltageSelection::PD18V.register(), 0x06);
    assert_eq!(VoltageSelection::PD20V.register(), 0x07);
    assert_eq!(Command::RequestPdo.register_value(), 0b00001);
    assert_eq!(Command::GetCapabilities.register_value(), 0b00100);
    assert_eq!(Command::HardReset.register_value(), 0b10000);
    assert_eq!(parse_selection(b"5V"), Some(PdoSelection::PDO5V));
    assert_eq!(parse_selection(b"9v"), Some(PdoSelection::PDO9V));
    assert_eq!(parse_selection(b"12V"), Some(PdoSelection::PDO12V));
    assert_eq!(parse_selection(b"20V"), None);
    assert_eq!(SrcVoltage::from_bits(7), None);
    assert_eq!(Current::from_bits(16), None);
    assert_eq!(Current5V::from_bits(3), Some(Current5V::Current3_0));
    assert_eq!(PdResponse::from_bits(2), None);
}

#[test]
fn lovense_args_keep_the_body() {
    assert!(LovenseArgs::new(b"Vibrate:10").is_none());
    let args = LovenseArgs::new(b"Vibrate:10;rest;").unwrap();
    assert_eq!(args.0, b"Vibrate:10");
    assert_eq!(args.tokens(), vec![b"Vibrate".to_vec(), b"10".to_vec()]);
    assert_eq!(LovenseArgs::new(b";").unwrap().tokens(), Vec::<Vec<u8>>::new());
    assert_eq!(
        LovenseArgs::new(b"a::b:;").unwrap().tokens(),
        vec![b"a".to_vec(), b"".to_vec(), b"b".to_vec()]
    );
    assert_eq!(LovenseArgs::new(b":;").unwrap().tokens(), vec![b"".to_vec()]);
}

#[test]
fn mac_addresses_are_written_in_hex() {
    assert_eq!(format_mac(&[0x00, 0x1a, 0xff, 0x09, 0xa0, 0x5c]), "00:1A:FF:09:A0:5C");
    assert_eq!(
        format_mac(&[0x00, 0x1a, 0xff, 0x09, 0xa0, 0x5c]),
        format!("{:<02X}:{:<02X}:{:<02X}:{:<02X}:{:<02X}:{:<02X}", 0x00, 0x1a, 0xff, 0x09, 0xa0, 0x5c)
    );
    let all = MACAddresses::get(&[1, 2, 3, 4, 5, 6], &[1, 2, 3, 4, 5, 7], &[1, 2, 3, 4, 5, 8]);
    assert_eq!(all.mac_base, "01:02:03:04:05:06");
    assert_eq!(all.mac_ble, "01:02:03:04:05:07");
    assert_eq!(all.mac_wifi, "01:02:03:04:05:08");
}

#[test]
fn colour_channels_are_clamped() {
    assert_eq!(channel(-1), 0);
    assert_eq!(channel(0), 0);
    assert_eq!(channel(128), 128);
    assert_eq!(channel(255), 255);
    assert_eq!(channel(256), 255);
    assert_eq!(set_color(300, -5, 17), (255, 0, 17));
}

#[test]
fn decimals_are_read_like_std() {
    for text in [
        "0", "7", "-7", "+7", "007", "-0", "9223372036854775807", "-9223372036854775808",
        "9223372036854775808", "-9223372036854775809", "", "+", "-", "1 ", " 1", "1_0", "--1",
        "12a", "99999999999999999999999",
    ] {
        assert_eq!(parse_i64(text.as_bytes()), text.parse::<i64>().ok(), "{text:?}");
    }
}

#[test]
fn small_numbers_are_written_in_decimal() {
    for n in [0u8, 5, 9, 10, 42, 99, 100, 101, 200, 255] {
        let mut out = b"=".to_vec();
        write_u8(n, &mut out);
        assert_eq!(out, format!("={n}").into_bytes());
    }
}

#[test]
fn bytes_are_found_and_compared() {
    assert_eq!(find_byte(b"a:b:c", b':'), Some(1));
    assert_eq!(find_byte(b":", b':'), Some(0));
    assert_eq!(find_byte(b"abc", b':'), None);
    assert_eq!(find_byte(b"", b':'), None);
    assert!(bytes_eq(b"", b""));
    assert!(bytes_eq(b"abc", b"abc"));
    assert!(!bytes_eq(b"abc", b"abd"));
    assert!(!bytes_eq(b"abc", b"ab"));
}

#[test]
fn last_line_is_read_lossily() {
    let mut bus = Dispatcher::new(
        HitachiConfig::default().unwrap(),
        LovenseConfig::default().unwrap(),
    );
    assert_eq!(bus.serial_event(b"ab\xffc\"\n"), None);
    let call = br#"{"method":"uart:get_last","id":8,"params":[]}"#;
    let mut slot = Recycle::<ResponseMessage>::new_element(&MessageRecycler::new(64, 512));
    bus.rpc_dispatch(MessageSource::HttpRpc, call, &mut slot);
    assert_eq!(slot.buffer, "{\"id\":8,\"result\":\"ab\u{fffd}c\\\"\\n\"}".as_bytes());
}

#[test]
fn dispatch_routes_every_source() {
    let recycler = MessageRecycler::new(32, 64);
    let mut bus = Dispatcher::new(
        HitachiConfig::default().unwrap(),
        LovenseConfig::default().unwrap(),
    );
    let call = br#"{"method":"wand:set_percent","id":3,"params":[42]}"#;

    let mut slot = Recycle::<ResponseMessage>::new_element(&recycler);
    match bus.dispatch(MessageSource::BleRpc, call, &mut slot) {
        Dispatched::Rpc(ReplyChannel::Ble, RpcAction::Drive, Some(_)) => {}
        other => panic!("unexpected {other:?}"),
    }
    assert_eq!(slot.tag, ResponseTag::BleRpc);
    assert_eq!(slot.buffer, br#"{"id":3,"result":null}"#);
    assert_eq!(bus.rpc.wand.pwm.get_percent(), 42);

    let mut slot = Recycle::<ResponseMessage>::new_element(&recycler);
    match bus.dispatch(MessageSource::HttpRpc, call, &mut slot) {
        Dispatched::Rpc(ReplyChannel::Http, RpcAction::Drive, Some(_)) => {}
        other => panic!("unexpected {other:?}"),
    }
    assert_eq!(slot.tag, ResponseTag::Normal);

    let mut slot = Recycle::<ResponseMessage>::new_element(&recycler);
    match bus.dispatch(MessageSource::BleLovense, b"Battery;", &mut slot) {
        Dispatched::Lovense(ReplyChannel::Ble, None) => {}
        other => panic!("unexpected {other:?}"),
    }
    assert_eq!(slot.tag, ResponseTag::Lovense);
    assert_eq!(slot.buffer, b"100");

    let mut slot = Recycle::<ResponseMessage>::new_element(&recycler);
    match bus.dispatch(MessageSource::Uart, b"BUTTONS:110", &mut slot) {
        Dispatched::Serial(Some(line)) => assert_eq!(line, "1111"),
        other => panic!("unexpected {other:?}"),
    }
    assert!(slot.buffer.is_empty());
    assert_eq!(slot.tag, ResponseTag::Normal);
    assert_eq!(bus.rpc.wand.pwm.get_percent(), 100);

    match bus.dispatch(MessageSource::Timer, call, &mut slot) {
        Dispatched::Tick => {}
        other => panic!("unexpected {other:?}"),
    }
    assert!(slot.buffer.is_empty());
    assert_eq!(slot.tag, ResponseTag::Normal);
    assert_eq!(bus.rpc.wand.pwm.get_percent(), 100);
}

#[test]
fn requests_are_handled_in_the_order_given() {
    let recycler = MessageRecycler::new(32, 64);
    let mut bus = Dispatcher::new(
        HitachiConfig::default().unwrap(),
        LovenseConfig::default().unwrap(),
    );
    let mut replies = Vec::new();
    for marker in 0u8..20 {
        let src = if marker % 2 == 0 { MessageSource::BleRpc } else { MessageSource::HttpRpc };
        let call =
            format!("{{\"method\":\"wand:set_percent\",\"id\":{marker},\"params\":[{marker}]}}");
        let mut slot = Recycle::<ResponseMessage>::new_element(&recycler);
        bus.dispatch(src, call.as_bytes(), &mut slot);
        assert_eq!(bus.rpc.wand.pwm.get_percent(), marker as i64);
        replies.push(String::from_utf8(slot.buffer.clone()).unwrap());
        Recycle::<ResponseMessage>::recycle(&recycler, &mut slot);
    }
    for (marker, reply) in replies.iter().enumerate() {
        assert_eq!(reply, &format!("{{\"id\":{marker},\"result\":null}}"));
    }
}

#[test]
fn reload_takes_new_mappings() {
    let mut bus = Dispatcher::new(
        HitachiConfig::default().unwrap(),
        LovenseConfig::default().unwrap(),
    );
    bus.reload(
        HitachiConfig { light_mappings: [10, 20, 30, 40], button_mappings: [-1, 1] },
        LovenseConfig { start: 0, end: 40 },
    );
    let mut slot = Recycle::<ResponseMessage>::new_element(&MessageRecycler::new(32, 64));
    let lights = bus.domain_protocol_dispatch(b"Vibrate:10;", &mut slot);
    assert_eq!(bus.rpc.wand.pwm.get_percent(), 20);
    assert_eq!(lights.as_deref(), Some("0001"));
    assert_eq!(bus.serial_event(b"BUTTONS:110").as_deref(), Some("1001"));
    assert_eq!(bus.rpc.wand.pwm.get_percent(), 21);
}
