use onvif_camera::onvif::{
    default_ptz_success_response, detect_onvif_op, device_server, get_profiles_response,
    get_response_for_action, get_services_response, get_system_date_and_time_response,
    get_video_sources_response, SERVICES_RESPONSE, SYSTEM_DATE_AND_TIME_RESPONSE,
};

fn envelope(body: &str) -> String {
    format!(
        "<?xml version=\"1.0\" encoding=\"UTF-8\"?><s:Envelope xmlns:s=\"http://www.w3.org/2003/05/soap-envelope\"><s:Body>{}</s:Body></s:Envelope>",
        body
    )
}

#[test]
fn services_response_is_the_fixed_text() {
    let s = get_services_response();
    assert_eq!(s, SERVICES_RESPONSE);
    assert_eq!(s.len(), 7056);
    assert!(s.starts_with("\n    <?xml version='1.0' encoding='UTF-8'?>"));
    assert!(s.contains("<tds:XAddr>http://192.168.20.166:9296/onvif/PTZ</tds:XAddr>"));
    assert!(s.ends_with("</env:Envelope>`;\n    "));
}

#[test]
fn system_date_and_time_response_is_the_fixed_text() {
    let s = get_system_date_and_time_response();
    assert_eq!(s.len(), 3731);
    assert!(s.contains("<tt:TZ>CST+3:00:00</tt:TZ>"));
    assert!(s.contains("<tt:Year>2023</tt:Year>"));
    assert!(s.ends_with("</env:Envelope>\n    "));
}

#[test]
fn video_sources_response_is_the_fixed_text() {
    let s = get_video_sources_response();
    assert_eq!(s.len(), 1801);
    assert!(s.contains("<trt:VideoSources token='VideoSource_1'>"));
    assert!(s.ends_with("</env:Envelope>"));
}

#[test]
fn profiles_response_is_the_fixed_text() {
    let s = get_profiles_response();
    assert_eq!(s.len(), 20471);
    assert_eq!(s.matches("<tr2:Profiles token=").count(), 3);
    assert!(s.contains("<tr2:Name>mainStream</tr2:Name>"));
    assert!(s.contains("<tr2:Name>subStream</tr2:Name>"));
    assert!(s.contains("<tr2:Name>thirdStream</tr2:Name>"));
    let main = s.find("mainStream").unwrap();
    let sub = s.find("subStream").unwrap();
    let third = s.find("thirdStream").unwrap();
    assert!(main < sub && sub < third);
    assert!(s.ends_with("</env:Envelope>\n    "));
}

#[test]
fn ptz_success_response_is_an_empty_envelope() {
    assert_eq!(
        default_ptz_success_response(),
        "<?xml version='1.0' encoding='UTF-8'?><env:Envelope><env:Body></env:Body></env:Envelope>"
    );
}

#[test]
fn detect_onvif_op_names_first_element_in_body() {
    let xml = envelope("<tds:GetSystemDateAndTime xmlns:tds=\"http://www.onvif.org/ver10/device/wsdl\"/>");
    assert_eq!(detect_onvif_op(&xml), Some("GetSystemDateAndTime".to_string()));
    let xml = envelope("  text  <!-- c --><a:One xmlns:a=\"u\"/><a:Two xmlns:a=\"u\"/>");
    assert_eq!(detect_onvif_op(&xml), Some("One".to_string()));
}

#[test]
fn detect_onvif_op_none_cases() {
    assert_eq!(detect_onvif_op("not xml"), None);
    assert_eq!(detect_onvif_op("<Envelope><Header/></Envelope>"), None);
    assert_eq!(detect_onvif_op(&envelope("")), None);
    assert_eq!(detect_onvif_op(&envelope("only text")), None);
}

#[test]
fn get_response_for_action_chooses_by_suffix() {
    assert_eq!(get_response_for_action("GetSystemDateAndTime".to_string()), SYSTEM_DATE_AND_TIME_RESPONSE);
    assert_eq!(
        get_response_for_action("http://www.onvif.org/ver10/device/wsdl/GetServices".to_string()),
        SERVICES_RESPONSE
    );
    assert_eq!(get_response_for_action("GetServicesX".to_string()), "");
    assert_eq!(get_response_for_action("GetCapabilities".to_string()), "");
    assert_eq!(get_response_for_action(String::new()), "");
}

#[test]
fn device_server_answers_request_bodies() {
    let xml = envelope("<GetServices><IncludeCapability>false</IncludeCapability></GetServices>");
    assert_eq!(device_server(xml.as_bytes()), SERVICES_RESPONSE);
    let xml = envelope("<GetSystemDateAndTime/>");
    assert_eq!(device_server(xml.as_bytes()), SYSTEM_DATE_AND_TIME_RESPONSE);
    assert_eq!(device_server(b""), "");
    assert_eq!(device_server(envelope("<GetHostname/>").as_bytes()), "");
}

#[test]
fn device_server_decodes_invalid_utf8_lossily() {
    // an invalid byte inside a text node is replaced, and the request still parses
    let mut body = envelope("<GetServices>x</GetServices>").into_bytes();
    let at = body.iter().position(|&b| b == b'x').unwrap();
    body[at] = 0xFF;
    assert_eq!(device_server(&body), SERVICES_RESPONSE);
    // an invalid byte inside a tag name changes the name
    let mut body = envelope("<GetServicesQ/>").into_bytes();
    let at = body.iter().position(|&b| b == b'Q').unwrap();
    body[at] = 0xFF;
    assert_eq!(device_server(&body), "");
}
