use get_nhk_radio_url::{
    resolve_events, ParseContext, RadioChannel, RadioLocation, ResolutionError, XmlEvent,
};

fn open(name: &str) -> XmlEvent {
    XmlEvent::ElementOpen(name.to_string())
}

fn text(content: &str) -> XmlEvent {
    XmlEvent::Text(Some(content.to_string()))
}

fn literal(content: &str) -> XmlEvent {
    XmlEvent::LiteralData(content.to_string())
}

fn field(name: &str, content: XmlEvent) -> Vec<XmlEvent> {
    vec![open(name), content, XmlEvent::ElementClose]
}

fn record(region: &str, r1: &str, r2: &str, fm: &str) -> Vec<XmlEvent> {
    let mut events = vec![open("data")];
    events.extend(field("areajp", text("name")));
    events.extend(field("area", text(region)));
    events.extend(field("r1hls", literal(r1)));
    events.extend(field("r2hls", literal(r2)));
    events.extend(field("fmhls", literal(fm)));
    events.push(XmlEvent::ElementClose);
    events
}

fn list(records: Vec<Vec<XmlEvent>>) -> Vec<XmlEvent> {
    let mut events = vec![XmlEvent::Other, open("radiru_config"), open("stream_url")];
    for one in records {
        events.push(text("\n"));
        events.extend(one);
    }
    events.push(XmlEvent::ElementClose);
    events.push(XmlEvent::ElementClose);
    events.push(XmlEvent::EndOfInput);
    events
}

#[test]
fn events_of_one_record_resolve() {
    let events = list(vec![record(
        "tokyo",
        "https://example/r1.m3u8",
        "",
        "https://example/fm.m3u8",
    )]);
    assert_eq!(
        resolve_events(&events, RadioLocation::Tokyo, RadioChannel::NhkR1),
        Ok("https://example/r1.m3u8".to_string())
    );
    assert_eq!(
        resolve_events(&events, RadioLocation::Tokyo, RadioChannel::NhkFm),
        Ok("https://example/fm.m3u8".to_string())
    );
    assert_eq!(
        resolve_events(&events, RadioLocation::Tokyo, RadioChannel::NhkR2),
        Err(ResolutionError::EmptyEndpoint)
    );
    assert_eq!(
        resolve_events(&events, RadioLocation::Osaka, RadioChannel::NhkR1),
        Err(ResolutionError::DocumentExhausted)
    );
}

#[test]
fn events_of_an_earlier_record_do_not_leak() {
    let events = list(vec![
        record("sapporo", "leftover", "leftover", "leftover"),
        vec![
            open("data"),
            open("area"),
            text("tokyo"),
            XmlEvent::ElementClose,
            XmlEvent::ElementClose,
        ],
    ]);
    for channel in [RadioChannel::NhkR1, RadioChannel::NhkR2, RadioChannel::NhkFm] {
        assert_eq!(
            resolve_events(&events, RadioLocation::Tokyo, channel),
            Err(ResolutionError::EmptyEndpoint)
        );
    }
}

#[test]
fn events_without_an_end_count_as_an_ended_document() {
    assert_eq!(
        resolve_events(&[], RadioLocation::Tokyo, RadioChannel::NhkR1),
        Err(ResolutionError::DocumentExhausted)
    );
    let events = vec![open("data"), open("area"), text("tokyo")];
    assert_eq!(
        resolve_events(&events, RadioLocation::Tokyo, RadioChannel::NhkR1),
        Err(ResolutionError::DocumentExhausted)
    );
}

#[test]
fn events_stop_at_the_first_failure() {
    let mut events = vec![XmlEvent::Malformed];
    events.extend(record("tokyo", "a", "b", "c"));
    assert_eq!(
        resolve_events(&events, RadioLocation::Tokyo, RadioChannel::NhkR1),
        Err(ResolutionError::MalformedDocument)
    );
    let mut events = vec![XmlEvent::Text(None)];
    events.extend(record("tokyo", "a", "b", "c"));
    assert_eq!(
        resolve_events(&events, RadioLocation::Tokyo, RadioChannel::NhkR1),
        Err(ResolutionError::MalformedDocument)
    );
    let mut events = vec![XmlEvent::EndOfInput];
    events.extend(record("tokyo", "a", "b", "c"));
    assert_eq!(
        resolve_events(&events, RadioLocation::Tokyo, RadioChannel::NhkR1),
        Err(ResolutionError::DocumentExhausted)
    );
}

#[test]
fn events_of_the_last_value_in_a_field_count() {
    let events = vec![
        open("data"),
        open("area"),
        text("osaka"),
        XmlEvent::Other,
        text("tokyo"),
        XmlEvent::ElementClose,
        open("r1hls"),
        literal("FIRST"),
        literal("Second"),
        XmlEvent::ElementClose,
        XmlEvent::ElementClose,
    ];
    assert_eq!(
        resolve_events(&events, RadioLocation::Tokyo, RadioChannel::NhkR1),
        Ok("second".to_string())
    );
    assert_eq!(
        resolve_events(&events, RadioLocation::Osaka, RadioChannel::NhkR1),
        Err(ResolutionError::DocumentExhausted)
    );
}

#[test]
fn a_region_key_outside_a_record_is_taken_by_the_next_record() {
    let events = vec![
        open("area"),
        text("tokyo"),
        XmlEvent::ElementClose,
        open("data"),
        open("r1hls"),
        literal("u"),
        XmlEvent::ElementClose,
        XmlEvent::ElementClose,
    ];
    assert_eq!(
        resolve_events(&events, RadioLocation::Tokyo, RadioChannel::NhkR1),
        Ok("u".to_string())
    );
}

#[test]
fn a_new_context_is_empty() {
    let context = ParseContext::new();
    assert!(context.stack.is_empty());
    assert_eq!(context.current, "");
    assert_eq!(context.region, "");
    assert_eq!(context.r1, "");
    assert_eq!(context.r2, "");
    assert_eq!(context.fm, "");
}

#[test]
fn a_context_follows_the_open_elements() {
    let mut context = ParseContext::new();
    let tokyo = RadioLocation::Tokyo;
    let r1 = RadioChannel::NhkR1;
    assert_eq!(context.advance(&open("list"), tokyo, r1), None);
    assert_eq!(context.advance(&open("data"), tokyo, r1), None);
    assert_eq!(context.advance(&open("area"), tokyo, r1), None);
    assert_eq!(context.current, "area");
    assert_eq!(context.stack, vec!["", "list", "data"]);
    assert_eq!(context.advance(&text("sendai"), tokyo, r1), None);
    assert_eq!(context.region, "sendai");
    assert_eq!(context.advance(&XmlEvent::ElementClose, tokyo, r1), None);
    assert_eq!(context.current, "data");
    assert_eq!(context.stack, vec!["", "list"]);
    assert_eq!(context.advance(&open("fmhls"), tokyo, r1), None);
    assert_eq!(context.advance(&literal("HTTP://FM"), tokyo, r1), None);
    assert_eq!(context.fm, "http://fm");
    assert_eq!(context.r1, "");
    assert_eq!(context.advance(&XmlEvent::ElementClose, tokyo, r1), None);
    assert_eq!(context.advance(&XmlEvent::Other, tokyo, r1), None);
    assert_eq!(context.fm, "http://fm");
    assert_eq!(context.advance(&XmlEvent::ElementClose, tokyo, r1), None);
    assert_eq!(context.current, "list");
    assert_eq!(context.region, "");
    assert_eq!(context.fm, "");
    assert_eq!(context.advance(&XmlEvent::ElementClose, tokyo, r1), None);
    assert_eq!(context.current, "");
    assert!(context.stack.is_empty());
    assert_eq!(context.advance(&XmlEvent::ElementClose, tokyo, r1), None);
    assert_eq!(context.current, "");
    assert_eq!(
        context.advance(&XmlEvent::EndOfInput, tokyo, r1),
        Some(Err(ResolutionError::DocumentExhausted))
    );
}

#[test]
fn a_context_ends_on_the_record_of_its_region() {
    let mut context = ParseContext::new();
    let sendai = RadioLocation::Sendai;
    for event in [
        open("data"),
        open("area"),
        text("sendai"),
        XmlEvent::ElementClose,
        open("r2hls"),
        literal("two"),
        XmlEvent::ElementClose,
    ] {
        assert_eq!(context.advance(&event, sendai, RadioChannel::NhkR2), None);
    }
    assert_eq!(
        context.advance(&XmlEvent::ElementClose, sendai, RadioChannel::NhkFm),
        Some(Err(ResolutionError::EmptyEndpoint))
    );
    assert_eq!(
        context.advance(&XmlEvent::ElementClose, sendai, RadioChannel::NhkR2),
        Some(Ok("two".to_string()))
    );
    assert_eq!(context.region, "sendai");
    assert_eq!(
        context.advance(&XmlEvent::Malformed, sendai, RadioChannel::NhkR2),
        Some(Err(ResolutionError::MalformedDocument))
    );
    assert_eq!(
        context.advance(&XmlEvent::Text(None), sendai, RadioChannel::NhkR2),
        Some(Err(ResolutionError::MalformedDocument))
    );
}
