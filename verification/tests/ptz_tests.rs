use onvif_camera::onvif::PTZ_SUCCESS_RESPONSE;
use onvif_camera::ptz::{
    build_get_presets_response, create_default_presets, get_response_for_ptz,
    parse_go_to_preset_params, parse_relative_move_params, parse_set_preset_params, ptz,
    CameraState, Preset,
};

fn envelope(body: &str) -> String {
    format!(
        "<?xml version=\"1.0\" encoding=\"UTF-8\"?><s:Envelope xmlns:s=\"http://www.w3.org/2003/05/soap-envelope\"><s:Body xmlns:tptz=\"http://www.onvif.org/ver20/ptz/wsdl\" xmlns:tt=\"http://www.onvif.org/ver10/schema\">{}</s:Body></s:Envelope>",
        body
    )
}

fn set_preset_xml(name: &str, token: &str) -> String {
    envelope(&format!(
        "<tptz:SetPreset><tptz:ProfileToken>Profile_1</tptz:ProfileToken><tptz:PresetName>{}</tptz:PresetName><tptz:PresetToken>{}</tptz:PresetToken></tptz:SetPreset>",
        name, token
    ))
}

fn go_to_preset_xml(token: &str) -> String {
    envelope(&format!(
        "<tptz:GotoPreset><tptz:ProfileToken>Profile_1</tptz:ProfileToken><tptz:PresetToken>{}</tptz:PresetToken><tptz:Speed></tptz:Speed></tptz:GotoPreset>",
        token
    ))
}

fn relative_move_xml(x: &str, y: &str, z: &str) -> String {
    envelope(&format!(
        "<tptz:RelativeMove><tptz:ProfileToken>Profile_1</tptz:ProfileToken><tptz:Translation><PanTilt x=\"{}\" y=\"{}\" xmlns=\"http://www.onvif.org/ver10/schema\"/><Zoom x=\"{}\" xmlns=\"http://www.onvif.org/ver10/schema\"/></tptz:Translation></tptz:RelativeMove>",
        x, y, z
    ))
}

fn camera() -> CameraState<f32> {
    CameraState { pan: 0.5, tilt: -0.25, zoom: 0.75, presets: create_default_presets(0.0, 0.0, 1.0) }
}

fn expected_presets_response(presets: &[(&str, &str)]) -> String {
    let presets_xml = presets
        .iter()
        .map(|(token, name)| {
            format!(
                r#"
<tptz:Preset token="{token}">
  <tt:Name>{name}</tt:Name>
  <tt:PTZPosition>
    <tt:PanTilt x="0.000000" y="0.000000"/>
    <tt:Zoom x="0.000000"/>
  </tt:PTZPosition>
</tptz:Preset>
"#
            )
        })
        .collect::<String>();
    format!(
        r#"<?xml version="1.0" encoding="UTF-8"?>
<env:Envelope>
  <env:Body>
    <tptz:GetPresetsResponse>
      {presets_xml}
    </tptz:GetPresetsResponse>
  </env:Body>
</env:Envelope>"#
    )
}

#[test]
fn default_presets_are_one_to_ten() {
    let presets = create_default_presets(0.0f32, 0.0, 1.0);
    assert_eq!(presets.len(), 10);
    for (i, p) in presets.iter().enumerate() {
        assert_eq!(p.token, (i + 1).to_string());
        assert_eq!(p.name, format!("Preset {}", i + 1));
        assert_eq!((p.pan, p.tilt, p.zoom), (0.0, 0.0, 1.0));
    }
}

#[test]
fn get_presets_response_lists_presets_in_order() {
    let presets = vec![
        Preset { token: "a".to_string(), name: "First".to_string(), pan: 1, tilt: 2, zoom: 3 },
        Preset { token: "7".to_string(), name: "<x>".to_string(), pan: 4, tilt: 5, zoom: 6 },
    ];
    assert_eq!(
        build_get_presets_response(&presets),
        expected_presets_response(&[("a", "First"), ("7", "<x>")])
    );
    let none: Vec<Preset<i32>> = Vec::new();
    assert_eq!(build_get_presets_response(&none), expected_presets_response(&[]));
}

#[test]
fn parse_set_preset_params_reads_name_and_token() {
    assert_eq!(
        parse_set_preset_params(&set_preset_xml("Door", "3")),
        Some(("Door".to_string(), "3".to_string()))
    );
    assert_eq!(
        parse_set_preset_params(&set_preset_xml("", "4")),
        Some(("".to_string(), "4".to_string()))
    );
    assert_eq!(parse_set_preset_params(&go_to_preset_xml("3")), None);
    assert_eq!(parse_set_preset_params("garbage"), None);
    let no_name = envelope("<SetPreset><PresetToken>3</PresetToken></SetPreset>");
    assert_eq!(parse_set_preset_params(&no_name), None);
}

#[test]
fn parse_relative_move_params_reads_translation() {
    assert_eq!(
        parse_relative_move_params(&relative_move_xml("0.04", "0", "-0.1")),
        Some(("0.04".to_string(), "0".to_string(), "-0.1".to_string()))
    );
    let no_y = envelope("<RelativeMove><Translation><PanTilt x=\"1\"/><Zoom/></Translation></RelativeMove>");
    assert_eq!(
        parse_relative_move_params(&no_y),
        Some(("1".to_string(), "".to_string(), "".to_string()))
    );
    let no_zoom = envelope("<RelativeMove><Translation><PanTilt x=\"1\" y=\"2\"/></Translation></RelativeMove>");
    assert_eq!(parse_relative_move_params(&no_zoom), None);
    assert_eq!(parse_relative_move_params(&set_preset_xml("a", "b")), None);
}

#[test]
fn parse_go_to_preset_params_reads_token() {
    assert_eq!(parse_go_to_preset_params(&go_to_preset_xml("2")), Some("2".to_string()));
    assert_eq!(parse_go_to_preset_params(&envelope("<GotoPreset/>")), None);
    assert_eq!(parse_go_to_preset_params("<"), None);
}

#[test]
fn get_presets_request_reads_without_changing() {
    let mut s = camera();
    let reply = get_response_for_ptz("GetPresets".to_string(), &mut s, "");
    let names: Vec<String> = (1..=10).map(|i| format!("Preset {}", i)).collect();
    let tokens: Vec<String> = (1..=10).map(|i| i.to_string()).collect();
    let pairs: Vec<(&str, &str)> = tokens.iter().zip(names.iter()).map(|(t, n)| (t.as_str(), n.as_str())).collect();
    assert_eq!(reply.response, expected_presets_response(&pairs));
    assert!(reply.relative_move.is_none());
    assert_eq!((s.pan, s.tilt, s.zoom), (0.5, -0.25, 0.75));
}

#[test]
fn set_preset_stores_position_and_name() {
    let mut s = camera();
    let reply = get_response_for_ptz("SetPreset".to_string(), &mut s, &set_preset_xml("Door", "3"));
    assert_eq!(reply.response, PTZ_SUCCESS_RESPONSE);
    assert!(reply.relative_move.is_none());
    assert_eq!(s.presets[2].name, "Door");
    assert_eq!(s.presets[2].token, "3");
    assert_eq!((s.presets[2].pan, s.presets[2].tilt, s.presets[2].zoom), (0.5, -0.25, 0.75));
    assert_eq!(s.presets[1].name, "Preset 2");
    assert_eq!(s.presets.len(), 10);
}

#[test]
fn set_preset_with_unknown_token_changes_nothing() {
    let mut s = camera();
    get_response_for_ptz("SetPreset".to_string(), &mut s, &set_preset_xml("Door", "99"));
    for (i, p) in s.presets.iter().enumerate() {
        assert_eq!(p.name, format!("Preset {}", i + 1));
        assert_eq!((p.pan, p.tilt, p.zoom), (0.0, 0.0, 1.0));
    }
    // a request that does not parse stores nothing either
    get_response_for_ptz("SetPreset".to_string(), &mut s, "garbage");
    assert!(s.presets.iter().all(|p| p.zoom == 1.0));
}

#[test]
fn go_to_preset_moves_camera() {
    let mut s = camera();
    s.presets[4].pan = -1.0;
    s.presets[4].tilt = 1.0;
    s.presets[4].zoom = 0.0;
    let reply = get_response_for_ptz("GotoPreset".to_string(), &mut s, &go_to_preset_xml("5"));
    assert_eq!(reply.response, PTZ_SUCCESS_RESPONSE);
    assert_eq!((s.pan, s.tilt, s.zoom), (-1.0, 1.0, 0.0));
    let reply = get_response_for_ptz("GotoPreset".to_string(), &mut s, &go_to_preset_xml("nope"));
    assert_eq!(reply.response, PTZ_SUCCESS_RESPONSE);
    assert_eq!((s.pan, s.tilt, s.zoom), (-1.0, 1.0, 0.0));
}

#[test]
fn go_to_after_set_restores_position() {
    let mut s = camera();
    get_response_for_ptz("SetPreset".to_string(), &mut s, &set_preset_xml("Here", "7"));
    s.pan = -0.9;
    s.tilt = 0.9;
    s.zoom = 0.1;
    get_response_for_ptz("GotoPreset".to_string(), &mut s, &go_to_preset_xml("7"));
    assert_eq!((s.pan, s.tilt, s.zoom), (0.5, -0.25, 0.75));
    assert_eq!(s.presets[6].name, "Here");
}

#[test]
fn relative_move_hands_back_translation() {
    let mut s = camera();
    let reply = get_response_for_ptz("RelativeMove".to_string(), &mut s, &relative_move_xml("0.1", "-0.2", "0.3"));
    assert_eq!(reply.response, PTZ_SUCCESS_RESPONSE);
    assert_eq!(
        reply.relative_move,
        Some(("0.1".to_string(), "-0.2".to_string(), "0.3".to_string()))
    );
    assert_eq!((s.pan, s.tilt, s.zoom), (0.5, -0.25, 0.75));
    let reply = get_response_for_ptz("RelativeMove".to_string(), &mut s, "garbage");
    assert_eq!(reply.relative_move, Some((String::new(), String::new(), String::new())));
}

#[test]
fn other_operations_answer_success_and_change_nothing() {
    let mut s = camera();
    let reply = get_response_for_ptz("GetStatus".to_string(), &mut s, &go_to_preset_xml("1"));
    assert_eq!(reply.response, PTZ_SUCCESS_RESPONSE);
    assert!(reply.relative_move.is_none());
    assert_eq!((s.pan, s.tilt, s.zoom), (0.5, -0.25, 0.75));
}

#[test]
fn ptz_handles_request_bodies() {
    let mut s = camera();
    let reply = ptz(&mut s, set_preset_xml("Gate", "1").as_bytes());
    assert_eq!(reply.response, PTZ_SUCCESS_RESPONSE);
    assert_eq!(s.presets[0].name, "Gate");
    assert_eq!(s.presets[0].pan, 0.5);
    s.pan = 0.0;
    ptz(&mut s, go_to_preset_xml("1").as_bytes());
    assert_eq!(s.pan, 0.5);
    let reply = ptz(&mut s, envelope("<tptz:GetPresets><tptz:ProfileToken>P</tptz:ProfileToken></tptz:GetPresets>").as_bytes());
    assert!(reply.response.contains("<tt:Name>Gate</tt:Name>"));
    let reply = ptz(&mut s, relative_move_xml("1", "2", "3").as_bytes());
    assert_eq!(reply.relative_move, Some(("1".to_string(), "2".to_string(), "3".to_string())));
    let reply = ptz(&mut s, b"\xff\xfe");
    assert_eq!(reply.response, PTZ_SUCCESS_RESPONSE);
    assert!(reply.relative_move.is_none());
}

#[test]
fn first_preset_with_a_token_wins() {
    let mut s = CameraState {
        pan: 7,
        tilt: 8,
        zoom: 9,
        presets: vec![
            Preset { token: "x".to_string(), name: "A".to_string(), pan: 1, tilt: 1, zoom: 1 },
            Preset { token: "x".to_string(), name: "B".to_string(), pan: 2, tilt: 2, zoom: 2 },
        ],
    };
    get_response_for_ptz("GotoPreset".to_string(), &mut s, &go_to_preset_xml("x"));
    assert_eq!((s.pan, s.tilt, s.zoom), (1, 1, 1));
    get_response_for_ptz("SetPreset".to_string(), &mut s, &set_preset_xml("C", "x"));
    assert_eq!(s.presets[0].name, "C");
    assert_eq!(s.presets[1].name, "B");
}

#[test]
fn go_to_preset_twice_is_once() {
    let mut s = camera();
    s.presets[1].pan = 0.125;
    get_response_for_ptz("GotoPreset".to_string(), &mut s, &go_to_preset_xml("2"));
    let once = (s.pan, s.tilt, s.zoom);
    get_response_for_ptz("GotoPreset".to_string(), &mut s, &go_to_preset_xml("2"));
    assert_eq!((s.pan, s.tilt, s.zoom), once);
    assert_eq!(once, (0.125, 0.0, 1.0));
}

#[test]
fn every_request_keeps_the_preset_tokens() {
    let mut s = camera();
    let requests = [
        ("SetPreset", set_preset_xml("n", "4")),
        ("GotoPreset", go_to_preset_xml("4")),
        ("RelativeMove", relative_move_xml("1", "1", "1")),
        ("GetPresets", String::new()),
        ("SetPreset", set_preset_xml("m", "missing")),
    ];
    for (action, xml) in requests.iter() {
        get_response_for_ptz(action.to_string(), &mut s, xml);
        assert_eq!(s.presets.len(), 10);
        for (i, p) in s.presets.iter().enumerate() {
            assert_eq!(p.token, (i + 1).to_string());
        }
    }
}
