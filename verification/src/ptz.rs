//! The PTZ service: the camera's position, its presets, and the handling of
//! `GetPresets`, `SetPreset`, `RelativeMove` and `GotoPreset` requests.
//!
//! A position coordinate has the type `P`: the library copies coordinates
//! between the camera and its presets but never computes with them.
use vstd::prelude::*;

use crate::onvif::{
    decode_utf8_lossy, default_ptz_success_response, detect_onvif_op, onvif_operation_of, or_empty,
    utf8_lossy, PTZ_SUCCESS_RESPONSE,
};
use crate::text::{decimal, decimal_string, ends_with, has_suffix};
use crate::xml::{
    attribute_or_empty, find_descendant, first_index, is_first_named, is_first_plain_attribute,
    law_attribute_or_empty_first_plain, law_find_descendant_finds_first_named, parse_xml,
    text_or_empty, whole_text, xml_attributes, xml_parse, XmlNodeData, XmlTree,
};

verus! {

#[derive(Debug, Clone)]
pub struct Preset<P> {
    pub token: String,
    pub name: String,
    pub pan: P,
    pub tilt: P,
    pub zoom: P,
}

#[derive(Debug)]
pub struct CameraState<P> {
    pub pan: P,
    pub tilt: P,
    pub zoom: P,
    pub presets: Vec<Preset<P>>,
}

/// A preset seen as values.
pub struct PresetView<P> {
    pub token: Seq<char>,
    pub name: Seq<char>,
    pub pan: P,
    pub tilt: P,
    pub zoom: P,
}

/// The camera seen as values.
pub struct CameraView<P> {
    pub pan: P,
    pub tilt: P,
    pub zoom: P,
    pub presets: Seq<PresetView<P>>,
}

impl<P> View for Preset<P> {
    type V = PresetView<P>;

    open spec fn view(&self) -> PresetView<P> {
        PresetView {
            token: self.token@,
            name: self.name@,
            pan: self.pan,
            tilt: self.tilt,
            zoom: self.zoom,
        }
    }
}

impl<P> View for CameraState<P> {
    type V = CameraView<P>;

    open spec fn view(&self) -> CameraView<P> {
        CameraView {
            pan: self.pan,
            tilt: self.tilt,
            zoom: self.zoom,
            presets: self.presets@.map_values(|p: Preset<P>| p@),
        }
    }
}

// ---------------------------------------------------------------------------
// The model of the presets
// ---------------------------------------------------------------------------

pub open spec fn token_pred<P>(presets: Seq<PresetView<P>>, token: Seq<char>) -> spec_fn(int) -> bool {
    |i: int| presets[i].token == token
}

/// The index of the first preset that has this token.
pub open spec fn preset_index<P>(presets: Seq<PresetView<P>>, token: Seq<char>) -> Option<int> {
    first_index(0, presets.len() as int, token_pred(presets, token))
}

/// `SetPreset`: the first preset with the token takes the new name and the
/// camera's current position; without such a preset nothing changes.
pub open spec fn set_preset_model<P>(s: CameraView<P>, token: Seq<char>, name: Seq<char>) -> CameraView<P> {
    match preset_index(s.presets, token) {
        Some(i) => CameraView {
            pan: s.pan,
            tilt: s.tilt,
            zoom: s.zoom,
            presets: s.presets.update(
                i,
                PresetView { token: s.presets[i].token, name, pan: s.pan, tilt: s.tilt, zoom: s.zoom },
            ),
        },
        None => s,
    }
}

/// `GotoPreset`: the camera takes the position of the first preset with the
/// token; without such a preset nothing changes.
pub open spec fn go_to_preset_model<P>(s: CameraView<P>, token: Seq<char>) -> CameraView<P> {
    match preset_index(s.presets, token) {
        Some(i) => CameraView {
            pan: s.presets[i].pan,
            tilt: s.presets[i].tilt,
            zoom: s.presets[i].zoom,
            presets: s.presets,
        },
        None => s,
    }
}

impl<P: Copy> CameraState<P> {
    /// The index of the first preset with the token `token`.
    pub fn find_preset(&self, token: &String) -> (res: Option<usize>)
        ensures
            match res {
                Some(i) => i < self@.presets.len() && preset_index(self@.presets, token@) == Some(
                    i as int,
                ),
                None => preset_index(self@.presets, token@) is None,
            },
    {
        let ghost views = self@.presets;
        let ghost pred = token_pred(views, token@);
        let n = self.presets.len();
        let mut i: usize = 0;
        while i < n
            invariant
                n == self.presets.len(),
                views == self@.presets,
                views.len() == n,
                pred == token_pred(views, token@),
                i <= n,
                first_index(0, n as int, pred) == first_index(i as int, n as int, pred),
            decreases n - i,
        {
            assert(views[i as int] == self.presets@[i as int]@);
            if self.presets[i].token == *token {
                assert(pred(i as int));
                return Some(i);
            }
            assert(!pred(i as int));
            i = i + 1;
        }
        None
    }

    /// `SetPreset`: stores the current position and `name` in the first
    /// preset that has the token `token`.
    pub fn set_preset(&mut self, token: &String, name: String)
        ensures
            final(self)@ == set_preset_model(old(self)@, token@, name@),
    {
        match self.find_preset(token) {
            Some(i) => {
                let preset = Preset {
                    token: self.presets[i].token.clone(),
                    name,
                    pan: self.pan,
                    tilt: self.tilt,
                    zoom: self.zoom,
                };
                self.presets.set(i, preset);
                assert(self@.presets =~= set_preset_model(old(self)@, token@, name@).presets);
            },
            None => {},
        }
    }

    /// `GotoPreset`: moves the camera to the position of the first preset
    /// that has the token `token`.
    pub fn go_to_preset(&mut self, token: &String)
        ensures
            final(self)@ == go_to_preset_model(old(self)@, token@),
    {
        match self.find_preset(token) {
            Some(i) => {
                let pan = self.presets[i].pan;
                let tilt = self.presets[i].tilt;
                let zoom = self.presets[i].zoom;
                self.pan = pan;
                self.tilt = tilt;
                self.zoom = zoom;
            },
            None => {},
        }
    }
}

// ---------------------------------------------------------------------------
// Parameters of the PTZ requests
// ---------------------------------------------------------------------------

/// `SetPreset` parameters: the texts of `PresetName` and `PresetToken` under
/// `SetPreset` under `Body`.
pub open spec fn set_preset_params(nodes: Seq<XmlNodeData>) -> Option<(Seq<char>, Seq<char>)> {
    match find_descendant(nodes, 0, "Body"@) {
        Some(body) => match find_descendant(nodes, body, "SetPreset"@) {
            Some(op) => match (
                find_descendant(nodes, op, "PresetName"@),
                find_descendant(nodes, op, "PresetToken"@),
            ) {
                (Some(name), Some(token)) => Some(
                    (text_or_empty(nodes, name), text_or_empty(nodes, token)),
                ),
                _ => None,
            },
            None => None,
        },
        None => None,
    }
}

/// `RelativeMove` parameters: attributes `x` and `y` of `PanTilt` and `x` of
/// `Zoom`, both under `Translation` under `RelativeMove` under `Body`.
pub open spec fn relative_move_params(nodes: Seq<XmlNodeData>) -> Option<
    (Seq<char>, Seq<char>, Seq<char>),
> {
    match find_descendant(nodes, 0, "Body"@) {
        Some(body) => match find_descendant(nodes, body, "RelativeMove"@) {
            Some(op) => match find_descendant(nodes, op, "Translation"@) {
                Some(tr) => match (
                    find_descendant(nodes, tr, "PanTilt"@),
                    find_descendant(nodes, tr, "Zoom"@),
                ) {
                    (Some(pt), Some(z)) => Some(
                        (
                            attribute_or_empty(nodes, pt, "x"@),
                            attribute_or_empty(nodes, pt, "y"@),
                            attribute_or_empty(nodes, z, "x"@),
                        ),
                    ),
                    _ => None,
                },
                None => None,
            },
            None => None,
        },
        None => None,
    }
}

/// `GotoPreset` parameter: the text of `PresetToken` under `GotoPreset`
/// under `Body`.
pub open spec fn go_to_preset_params(nodes: Seq<XmlNodeData>) -> Option<Seq<char>> {
    match find_descendant(nodes, 0, "Body"@) {
        Some(body) => match find_descendant(nodes, body, "GotoPreset"@) {
            Some(op) => match find_descendant(nodes, op, "PresetToken"@) {
                Some(token) => Some(text_or_empty(nodes, token)),
                None => None,
            },
            None => None,
        },
        None => None,
    }
}

pub open spec fn set_preset_params_of(text: Seq<char>) -> Option<(Seq<char>, Seq<char>)> {
    match xml_parse(text) {
        Some(nodes) => set_preset_params(nodes),
        None => None,
    }
}

pub open spec fn relative_move_params_of(text: Seq<char>) -> Option<(Seq<char>, Seq<char>, Seq<char>)> {
    match xml_parse(text) {
        Some(nodes) => relative_move_params(nodes),
        None => None,
    }
}

pub open spec fn go_to_preset_params_of(text: Seq<char>) -> Option<Seq<char>> {
    match xml_parse(text) {
        Some(nodes) => go_to_preset_params(nodes),
        None => None,
    }
}

/// `SetPreset` parameters (name, token) of a parsed request.
pub fn set_preset_params_in(tree: &XmlTree) -> (res: Option<(String, String)>)
    ensures
        res.deep_view() == set_preset_params(tree@),
{
    let body = match tree.find_descendant(0, &String::from_str("Body")) {
        Some(b) => b,
        None => return None,
    };
    let op = match tree.find_descendant(body, &String::from_str("SetPreset")) {
        Some(o) => o,
        None => return None,
    };
    let name = match tree.find_descendant(op, &String::from_str("PresetName")) {
        Some(n) => n,
        None => return None,
    };
    let token = match tree.find_descendant(op, &String::from_str("PresetToken")) {
        Some(t) => t,
        None => return None,
    };
    Some((tree.text_or_empty(name), tree.text_or_empty(token)))
}

/// `RelativeMove` parameters (pan, tilt, zoom translations) of a parsed
/// request.
pub fn relative_move_params_in(tree: &XmlTree) -> (res: Option<(String, String, String)>)
    ensures
        res.deep_view() == relative_move_params(tree@),
{
    let body = match tree.find_descendant(0, &String::from_str("Body")) {
        Some(b) => b,
        None => return None,
    };
    let op = match tree.find_descendant(body, &String::from_str("RelativeMove")) {
        Some(o) => o,
        None => return None,
    };
    let translation = match tree.find_descendant(op, &String::from_str("Translation")) {
        Some(t) => t,
        None => return None,
    };
    let pan_tilt = match tree.find_descendant(translation, &String::from_str("PanTilt")) {
        Some(p) => p,
        None => return None,
    };
    let zoom = match tree.find_descendant(translation, &String::from_str("Zoom")) {
        Some(z) => z,
        None => return None,
    };
    let x = String::from_str("x");
    let y = String::from_str("y");
    Some(
        (
            tree.attribute_or_empty(pan_tilt, &x),
            tree.attribute_or_empty(pan_tilt, &y),
            tree.attribute_or_empty(zoom, &x),
        ),
    )
}

/// `GotoPreset` parameter (the preset token) of a parsed request.
pub fn go_to_preset_params_in(tree: &XmlTree) -> (res: Option<String>)
    ensures
        res.deep_view() == go_to_preset_params(tree@),
{
    let body = match tree.find_descendant(0, &String::from_str("Body")) {
        Some(b) => b,
        None => return None,
    };
    let op = match tree.find_descendant(body, &String::from_str("GotoPreset")) {
        Some(o) => o,
        None => return None,
    };
    let token = match tree.find_descendant(op, &String::from_str("PresetToken")) {
        Some(t) => t,
        None => return None,
    };
    Some(tree.text_or_empty(token))
}

/// `SetPreset` parameters (name, token) of a request text.
pub fn parse_set_preset_params(xml: &str) -> (res: Option<(String, String)>)
    ensures
        res.deep_view() == set_preset_params_of(xml@),
{
    match parse_xml(xml) {
        Some(tree) => set_preset_params_in(&tree),
        None => None,
    }
}

/// `RelativeMove` parameters (pan, tilt, zoom translations) of a request text.
pub fn parse_relative_move_params(xml: &str) -> (res: Option<(String, String, String)>)
    ensures
        res.deep_view() == relative_move_params_of(xml@),
{
    match parse_xml(xml) {
        Some(tree) => relative_move_params_in(&tree),
        None => None,
    }
}

/// `GotoPreset` parameter (the preset token) of a request text.
pub fn parse_go_to_preset_params(xml: &str) -> (res: Option<String>)
    ensures
        res.deep_view() == go_to_preset_params_of(xml@),
{
    match parse_xml(xml) {
        Some(tree) => go_to_preset_params_in(&tree),
        None => None,
    }
}

// ---------------------------------------------------------------------------
// GetPresets
// ---------------------------------------------------------------------------

/// Opening of one preset's entry, up to its token.
pub const PRESET_ENTRY_OPEN: &'static str = r#"
<tptz:Preset token=""#;

/// Between a preset's token and its name.
pub const PRESET_ENTRY_NAME: &'static str = r#"">
  <tt:Name>"#;

/// Closing of one preset's entry, after its name.
pub const PRESET_ENTRY_CLOSE: &'static str = r#"</tt:Name>
  <tt:PTZPosition>
    <tt:PanTilt x="0.000000" y="0.000000"/>
    <tt:Zoom x="0.000000"/>
  </tt:PTZPosition>
</tptz:Preset>
"#;

/// Opening of the `GetPresets` reply, up to the preset entries.
pub const PRESETS_RESPONSE_HEAD: &'static str = r#"<?xml version="1.0" encoding="UTF-8"?>
<env:Envelope>
  <env:Body>
    <tptz:GetPresetsResponse>
      "#;

/// Closing of the `GetPresets` reply, after the preset entries.
pub const PRESETS_RESPONSE_TAIL: &'static str = r#"
    </tptz:GetPresetsResponse>
  </env:Body>
</env:Envelope>"#;

/// The entry of one preset: its token and name, inserted as they are.
pub open spec fn preset_entry<P>(p: PresetView<P>) -> Seq<char> {
    PRESET_ENTRY_OPEN@ + p.token + PRESET_ENTRY_NAME@ + p.name + PRESET_ENTRY_CLOSE@
}

/// The entries of all presets, in their order.
pub open spec fn preset_entries<P>(presets: Seq<PresetView<P>>) -> Seq<char>
    decreases presets.len(),
{
    if presets.len() == 0 {
        Seq::empty()
    } else {
        preset_entries(presets.drop_last()) + preset_entry(presets.last())
    }
}

/// The `GetPresets` reply for a list of presets.
pub open spec fn presets_response<P>(presets: Seq<PresetView<P>>) -> Seq<char> {
    PRESETS_RESPONSE_HEAD@ + preset_entries(presets) + PRESETS_RESPONSE_TAIL@
}

pub fn build_get_presets_response<P>(presets: &[Preset<P>]) -> (s: String)
    ensures
        s@ == presets_response(presets@.map_values(|p: Preset<P>| p@)),
{
    let ghost views = presets@.map_values(|p: Preset<P>| p@);
    let mut entries = String::new();
    let n = presets.len();
    let mut i: usize = 0;
    while i < n
        invariant
            n == presets@.len(),
            views == presets@.map_values(|p: Preset<P>| p@),
            i <= n,
            entries@ == preset_entries(views.take(i as int)),
        decreases n - i,
    {
        let p = &presets[i];
        entries.append(PRESET_ENTRY_OPEN);
        entries.append(p.token.as_str());
        entries.append(PRESET_ENTRY_NAME);
        entries.append(p.name.as_str());
        entries.append(PRESET_ENTRY_CLOSE);
        assert(views.take(i + 1).drop_last() =~= views.take(i as int));
        assert(views.take(i + 1).last() == p@);
        assert(entries@ =~= preset_entries(views.take(i + 1)));
        i = i + 1;
    }
    assert(views.take(n as int) =~= views);
    let mut s = String::from_str(PRESETS_RESPONSE_HEAD);
    s.append(entries.as_str());
    s.append(PRESETS_RESPONSE_TAIL);
    s
}

// ---------------------------------------------------------------------------
// Requests to the PTZ service
// ---------------------------------------------------------------------------

/// What a PTZ request gives back: the reply text, and, for `RelativeMove`,
/// the pan, tilt and zoom translations (as sent) that the caller adds to the
/// position, since the library does not compute with coordinates.
pub struct PtzReply {
    pub response: String,
    pub relative_move: Option<(String, String, String)>,
}

pub open spec fn pair_or_empty(o: Option<(Seq<char>, Seq<char>)>) -> (Seq<char>, Seq<char>) {
    match o {
        Some(p) => p,
        None => (Seq::empty(), Seq::empty()),
    }
}

pub open spec fn triple_or_empty(o: Option<(Seq<char>, Seq<char>, Seq<char>)>) -> (
    Seq<char>,
    Seq<char>,
    Seq<char>,
) {
    match o {
        Some(t) => t,
        None => (Seq::empty(), Seq::empty(), Seq::empty()),
    }
}

/// The PTZ service's handling of operation `action` with request text `xml`:
/// the camera afterwards, the reply text, and the translation to apply.
pub open spec fn ptz_step<P>(action: Seq<char>, s: CameraView<P>, xml: Seq<char>) -> (
    CameraView<P>,
    Seq<char>,
    Option<(Seq<char>, Seq<char>, Seq<char>)>,
) {
    if has_suffix(action, "GetPresets"@) {
        (s, presets_response(s.presets), None)
    } else if has_suffix(action, "SetPreset"@) {
        let (name, token) = pair_or_empty(set_preset_params_of(xml));
        (set_preset_model(s, token, name), PTZ_SUCCESS_RESPONSE@, None)
    } else if has_suffix(action, "RelativeMove"@) {
        (s, PTZ_SUCCESS_RESPONSE@, Some(triple_or_empty(relative_move_params_of(xml))))
    } else if has_suffix(action, "GotoPreset"@) {
        (go_to_preset_model(s, or_empty(go_to_preset_params_of(xml))), PTZ_SUCCESS_RESPONSE@, None)
    } else {
        (s, PTZ_SUCCESS_RESPONSE@, None)
    }
}

/// Handles one PTZ operation `action` whose request text is `xml`.
pub fn get_response_for_ptz<P: Copy>(action: String, state: &mut CameraState<P>, xml: &str) -> (reply: PtzReply)
    ensures
        (final(state)@, reply.response@, reply.relative_move.deep_view()) == ptz_step(
            action@,
            old(state)@,
            xml@,
        ),
{
    if ends_with(action.as_str(), "GetPresets") {
        let response = build_get_presets_response(state.presets.as_slice());
        return PtzReply { response, relative_move: None };
    }
    if ends_with(action.as_str(), "SetPreset") {
        let (preset_name, preset_token) = match parse_set_preset_params(xml) {
            Some(p) => p,
            None => (String::new(), String::new()),
        };
        state.set_preset(&preset_token, preset_name);
        return PtzReply { response: default_ptz_success_response(), relative_move: None };
    }
    if ends_with(action.as_str(), "RelativeMove") {
        let translation = match parse_relative_move_params(xml) {
            Some(t) => t,
            None => (String::new(), String::new(), String::new()),
        };
        return PtzReply {
            response: default_ptz_success_response(),
            relative_move: Some(translation),
        };
    }
    if ends_with(action.as_str(), "GotoPreset") {
        let preset_token = match parse_go_to_preset_params(xml) {
            Some(t) => t,
            None => String::new(),
        };
        state.go_to_preset(&preset_token);
    }
    PtzReply { response: default_ptz_success_response(), relative_move: None }
}

/// The PTZ service's handling of a request body.
pub fn ptz<P: Copy>(state: &mut CameraState<P>, body: &[u8]) -> (reply: PtzReply)
    ensures
        (final(state)@, reply.response@, reply.relative_move.deep_view()) == ptz_step(
            or_empty(onvif_operation_of(utf8_lossy(body@))),
            old(state)@,
            utf8_lossy(body@),
        ),
{
    let xml = decode_utf8_lossy(body);
    let action = match detect_onvif_op(xml.as_str()) {
        Some(a) => a,
        None => String::new(),
    };
    get_response_for_ptz(action, state, xml.as_str())
}

// ---------------------------------------------------------------------------
// The presets a camera starts with
// ---------------------------------------------------------------------------

/// The default preset number `k`: token `k`, name `Preset k`, at the given
/// position.
pub open spec fn default_preset<P>(k: nat, pan: P, tilt: P, zoom: P) -> PresetView<P> {
    PresetView { token: decimal(k), name: "Preset "@ + decimal(k), pan, tilt, zoom }
}

/// Presets `1` to `10`, all at the given position.
pub fn create_default_presets<P: Copy>(pan: P, tilt: P, zoom: P) -> (presets: Vec<Preset<P>>)
    ensures
        presets@.len() == 10,
        forall|k: int|
            0 <= k < 10 ==> (#[trigger] presets@[k])@ == default_preset((k + 1) as nat, pan, tilt, zoom),
{
    let mut presets: Vec<Preset<P>> = Vec::new();
    let mut i: u32 = 1;
    while i <= 10
        invariant
            1 <= i <= 11,
            presets@.len() == i - 1,
            forall|k: int|
                0 <= k < i - 1 ==> (#[trigger] presets@[k])@ == default_preset(
                    (k + 1) as nat,
                    pan,
                    tilt,
                    zoom,
                ),
        decreases 11 - i,
    {
        let token = decimal_string(i);
        let mut name = String::from_str("Preset ");
        name.append(token.as_str());
        presets.push(Preset { token, name, pan, tilt, zoom });
        i = i + 1;
    }
    presets
}

// ---------------------------------------------------------------------------
// Laws
// ---------------------------------------------------------------------------

proof fn lemma_first_index_congruent(lo: int, hi: int, p: spec_fn(int) -> bool, q: spec_fn(int) -> bool)
    requires
        forall|k: int| lo <= k < hi ==> #[trigger] p(k) == q(k),
    ensures
        first_index(lo, hi, p) == first_index(lo, hi, q),
    decreases hi - lo,
{
    if lo < hi {
        lemma_first_index_congruent(lo + 1, hi, p, q);
    }
}

/// Storing a preset keeps the token of every preset: the presets that a
/// later request can find are the same.
proof fn lemma_set_preset_same_index<P>(s: CameraView<P>, token: Seq<char>, name: Seq<char>, other: Seq<char>)
    ensures
        preset_index(set_preset_model(s, token, name).presets, other) == preset_index(s.presets, other),
{
    law_presets_keep_tokens(s, token, name);
    let after = set_preset_model(s, token, name).presets;
    assert forall|k: int| 0 <= k < s.presets.len() implies #[trigger] token_pred(after, other)(k)
        == token_pred(s.presets, other)(k) by {
        assert(after[k].token == s.presets[k].token);
    }
    lemma_first_index_congruent(
        0,
        s.presets.len() as int,
        token_pred(after, other),
        token_pred(s.presets, other),
    );
}

/// `SetPreset` and `GotoPreset` keep the number of presets and the token of
/// each; `SetPreset` leaves the position where it is, and `GotoPreset`
/// leaves the presets as they are.
pub proof fn law_presets_keep_tokens<P>(s: CameraView<P>, token: Seq<char>, name: Seq<char>)
    ensures
        set_preset_model(s, token, name).presets.len() == s.presets.len(),
        forall|i: int|
            0 <= i < s.presets.len() ==> (#[trigger] set_preset_model(s, token, name).presets[i]).token
                == s.presets[i].token,
        set_preset_model(s, token, name).pan == s.pan,
        set_preset_model(s, token, name).tilt == s.tilt,
        set_preset_model(s, token, name).zoom == s.zoom,
        go_to_preset_model(s, token).presets == s.presets,
{
    crate::xml::lemma_first_index(0, s.presets.len() as int, token_pred(s.presets, token));
}

/// Going to a preset right after storing the current position under its
/// token brings the camera back to that position, with the presets as the
/// store left them (where no preset has the token, neither request changes
/// anything).
pub proof fn law_go_to_after_set_restores<P>(s: CameraView<P>, token: Seq<char>, name: Seq<char>)
    ensures
        go_to_preset_model(set_preset_model(s, token, name), token).pan == s.pan,
        go_to_preset_model(set_preset_model(s, token, name), token).tilt == s.tilt,
        go_to_preset_model(set_preset_model(s, token, name), token).zoom == s.zoom,
        go_to_preset_model(set_preset_model(s, token, name), token).presets == set_preset_model(
            s,
            token,
            name,
        ).presets,
{
    lemma_set_preset_same_index(s, token, name, token);
    crate::xml::lemma_first_index(0, s.presets.len() as int, token_pred(s.presets, token));
}

/// `SetPreset` on a token that a preset has renames the first such preset and
/// gives it the current position; every other preset stays as it was.
pub proof fn law_set_preset_stores<P>(s: CameraView<P>, token: Seq<char>, name: Seq<char>)
    requires
        preset_index(s.presets, token) is Some,
    ensures
        ({
            let i = preset_index(s.presets, token)->0;
            let after = set_preset_model(s, token, name).presets;
            &&& 0 <= i < s.presets.len()
            &&& after[i].token == token
            &&& after[i].name == name
            &&& after[i].pan == s.pan
            &&& after[i].tilt == s.tilt
            &&& after[i].zoom == s.zoom
            &&& forall|j: int| 0 <= j < s.presets.len() && j != i ==> #[trigger] after[j] == s.presets[j]
        }),
{
    crate::xml::lemma_first_index(0, s.presets.len() as int, token_pred(s.presets, token));
}

/// A request for a token that no preset has changes nothing.
pub proof fn law_unknown_token_changes_nothing<P>(s: CameraView<P>, token: Seq<char>, name: Seq<char>)
    requires
        forall|i: int| 0 <= i < s.presets.len() ==> #[trigger] s.presets[i].token != token,
    ensures
        set_preset_model(s, token, name) == s,
        go_to_preset_model(s, token) == s,
{
    crate::xml::lemma_first_index(0, s.presets.len() as int, token_pred(s.presets, token));
    if preset_index(s.presets, token) is Some {
        let i = preset_index(s.presets, token)->0;
        assert(s.presets[i].token == token);
    }
}

/// Going to the same preset twice is going there once.
pub proof fn law_go_to_preset_idempotent<P>(s: CameraView<P>, token: Seq<char>)
    ensures
        go_to_preset_model(go_to_preset_model(s, token), token) == go_to_preset_model(s, token),
{
}

/// Every PTZ request keeps the number of presets and the token of each, and
/// only `SetPreset` changes presets.
pub proof fn law_ptz_requests_keep_tokens<P>(action: Seq<char>, s: CameraView<P>, xml: Seq<char>)
    ensures
        ptz_step(action, s, xml).0.presets.len() == s.presets.len(),
        forall|i: int|
            0 <= i < s.presets.len() ==> (#[trigger] ptz_step(action, s, xml).0.presets[i]).token
                == s.presets[i].token,
        !has_suffix(action, "SetPreset"@) ==> ptz_step(action, s, xml).0.presets == s.presets,
{
    let (name, token) = pair_or_empty(set_preset_params_of(xml));
    law_presets_keep_tokens(s, token, name);
    law_presets_keep_tokens(s, or_empty(go_to_preset_params_of(xml)), name);
}

/// No operation name ends with two of `GetPresets`, `SetPreset`,
/// `RelativeMove` and `GotoPreset`, so the order in which the PTZ service
/// tests them does not matter.
pub proof fn law_ptz_operations_exclusive(action: Seq<char>)
    ensures
        has_suffix(action, "GetPresets"@) ==> !has_suffix(action, "SetPreset"@) && !has_suffix(
            action,
            "RelativeMove"@,
        ) && !has_suffix(action, "GotoPreset"@),
        has_suffix(action, "SetPreset"@) ==> !has_suffix(action, "RelativeMove"@) && !has_suffix(
            action,
            "GotoPreset"@,
        ),
        has_suffix(action, "RelativeMove"@) ==> !has_suffix(action, "GotoPreset"@),
{
    reveal_strlit("GetPresets");
    reveal_strlit("SetPreset");
    reveal_strlit("RelativeMove");
    reveal_strlit("GotoPreset");
    let n = action.len() as int;
    if has_suffix(action, "GetPresets"@) {
        assert(action[n - 1] == action.subrange(n - 10, n)[9]);
        assert(action[n - 1] == 's');
    }
    if has_suffix(action, "SetPreset"@) {
        assert(action[n - 1] == action.subrange(n - 9, n)[8]);
        assert(action[n - 9] == action.subrange(n - 9, n)[0]);
        assert(action[n - 9] == 'S');
    }
    if has_suffix(action, "RelativeMove"@) {
        assert(action[n - 1] == action.subrange(n - 12, n)[11]);
        assert(action[n - 1] == 'e');
    }
    if has_suffix(action, "GotoPreset"@) {
        assert(action[n - 1] == action.subrange(n - 10, n)[9]);
        assert(action[n - 9] == action.subrange(n - 10, n)[1]);
        assert(action[n - 9] == 'o');
    }
}

/// The PTZ service answers every request but `GetPresets` with the empty
/// success envelope, and only `RelativeMove` hands back a translation.
pub proof fn law_ptz_replies<P>(action: Seq<char>, s: CameraView<P>, xml: Seq<char>)
    ensures
        !has_suffix(action, "GetPresets"@) ==> ptz_step(action, s, xml).1 == PTZ_SUCCESS_RESPONSE@,
        has_suffix(action, "GetPresets"@) ==> ptz_step(action, s, xml).1 == presets_response(s.presets),
        ptz_step(action, s, xml).2 is Some <==> (!has_suffix(action, "GetPresets"@) && !has_suffix(
            action,
            "SetPreset"@,
        ) && has_suffix(action, "RelativeMove"@)),
{
}

/// Only `SetPreset` and `GotoPreset` change the camera; every other request,
/// `GetPresets` and `RelativeMove` among them, leaves it as it was (the
/// translation of a `RelativeMove` is applied by the caller).
pub proof fn law_only_set_and_go_to_change_the_camera<P>(action: Seq<char>, s: CameraView<P>, xml: Seq<char>)
    requires
        !has_suffix(action, "SetPreset"@),
        !has_suffix(action, "GotoPreset"@),
    ensures
        ptz_step(action, s, xml).0 == s,
{
}

/// The `GetPresets` reply is its opening, then for each preset in order its
/// token and its whole name between the entry markups, then its closing:
/// adding a preset at the end adds exactly its entry before the closing.
pub proof fn law_presets_reply_lists_each_preset<P>(ps: Seq<PresetView<P>>, p: PresetView<P>)
    ensures
        presets_response(Seq::<PresetView<P>>::empty()) == PRESETS_RESPONSE_HEAD@
            + PRESETS_RESPONSE_TAIL@,
        presets_response(ps.push(p)) == PRESETS_RESPONSE_HEAD@ + preset_entries(ps) + (
        PRESET_ENTRY_OPEN@ + p.token + PRESET_ENTRY_NAME@ + p.name + PRESET_ENTRY_CLOSE@)
            + PRESETS_RESPONSE_TAIL@,
        presets_response(seq![p]) == PRESETS_RESPONSE_HEAD@ + PRESET_ENTRY_OPEN@ + p.token
            + PRESET_ENTRY_NAME@ + p.name + PRESET_ENTRY_CLOSE@ + PRESETS_RESPONSE_TAIL@,
{
    assert(ps.push(p).drop_last() =~= ps);
    assert(seq![p].drop_last() =~= Seq::<PresetView<P>>::empty());
    assert(Seq::<char>::empty() + PRESETS_RESPONSE_TAIL@ =~= PRESETS_RESPONSE_TAIL@);
    assert(PRESETS_RESPONSE_HEAD@ + Seq::<char>::empty() =~= PRESETS_RESPONSE_HEAD@);
    let e = PRESET_ENTRY_OPEN@ + p.token + PRESET_ENTRY_NAME@ + p.name + PRESET_ENTRY_CLOSE@;
    assert(Seq::<char>::empty() + e =~= e);
    assert(seq![p].last() == p);
    assert(preset_entries(Seq::<PresetView<P>>::empty()) == Seq::<char>::empty());
    assert(preset_entries(seq![p]) == preset_entries(Seq::<PresetView<P>>::empty()) + preset_entry(p));
    assert(preset_entries(seq![p]) =~= e);
    assert(PRESETS_RESPONSE_HEAD@ + e + PRESETS_RESPONSE_TAIL@ =~= PRESETS_RESPONSE_HEAD@
        + PRESET_ENTRY_OPEN@ + p.token + PRESET_ENTRY_NAME@ + p.name + PRESET_ENTRY_CLOSE@
        + PRESETS_RESPONSE_TAIL@);
}

/// The first preset, in order, with a token is the one that requests for that
/// token find.
pub proof fn law_preset_index_is_first_match<P>(presets: Seq<PresetView<P>>, token: Seq<char>, i: int)
    requires
        0 <= i < presets.len(),
        presets[i].token == token,
        forall|j: int| 0 <= j < i ==> (#[trigger] presets[j]).token != token,
    ensures
        preset_index(presets, token) == Some(i),
{
    let pred = token_pred(presets, token);
    crate::xml::lemma_first_index(0, presets.len() as int, pred);
    match preset_index(presets, token) {
        Some(m) => {
            if m < i {
                assert(presets[m].token != token);
            }
            if i < m {
                assert(!pred(i));
            }
        },
        None => {
            assert(!pred(i));
        },
    }
}

/// The `GotoPreset` token is the whole text of the first `PresetToken` under
/// the first `GotoPreset` under the first `Body`.
pub proof fn law_go_to_preset_params_whole_token(nodes: Seq<XmlNodeData>, body: int, op: int, token: int)
    requires
        is_first_named(nodes, 0, "Body"@, body),
        is_first_named(nodes, body, "GotoPreset"@, op),
        is_first_named(nodes, op, "PresetToken"@, token),
    ensures
        go_to_preset_params(nodes) == Some(whole_text(nodes[token])),
{
    law_find_descendant_finds_first_named(nodes, 0, "Body"@, body);
    law_find_descendant_finds_first_named(nodes, body, "GotoPreset"@, op);
    law_find_descendant_finds_first_named(nodes, op, "PresetToken"@, token);
}

/// The `SetPreset` parameters are the whole texts of the first `PresetName`
/// and the first `PresetToken` under the first `SetPreset` under the first
/// `Body`.
pub proof fn law_set_preset_params_whole_texts(
    nodes: Seq<XmlNodeData>,
    body: int,
    op: int,
    name: int,
    token: int,
)
    requires
        is_first_named(nodes, 0, "Body"@, body),
        is_first_named(nodes, body, "SetPreset"@, op),
        is_first_named(nodes, op, "PresetName"@, name),
        is_first_named(nodes, op, "PresetToken"@, token),
    ensures
        set_preset_params(nodes) == Some((whole_text(nodes[name]), whole_text(nodes[token]))),
{
    law_find_descendant_finds_first_named(nodes, 0, "Body"@, body);
    law_find_descendant_finds_first_named(nodes, body, "SetPreset"@, op);
    law_find_descendant_finds_first_named(nodes, op, "PresetName"@, name);
    law_find_descendant_finds_first_named(nodes, op, "PresetToken"@, token);
}

/// The `RelativeMove` translation is the values of the plain attributes `x`
/// and `y` of the first `PanTilt` and `x` of the first `Zoom` under the first
/// `Translation` under the first `RelativeMove` under the first `Body`.
pub proof fn law_relative_move_params_attributes(
    nodes: Seq<XmlNodeData>,
    body: int,
    op: int,
    tr: int,
    pt: int,
    z: int,
    px: int,
    py: int,
    zx: int,
)
    requires
        is_first_named(nodes, 0, "Body"@, body),
        is_first_named(nodes, body, "RelativeMove"@, op),
        is_first_named(nodes, op, "Translation"@, tr),
        is_first_named(nodes, tr, "PanTilt"@, pt),
        is_first_named(nodes, tr, "Zoom"@, z),
        is_first_plain_attribute(xml_attributes(nodes[pt]), "x"@, px),
        is_first_plain_attribute(xml_attributes(nodes[pt]), "y"@, py),
        is_first_plain_attribute(xml_attributes(nodes[z]), "x"@, zx),
    ensures
        relative_move_params(nodes) == Some(
            (
                xml_attributes(nodes[pt])[px].2,
                xml_attributes(nodes[pt])[py].2,
                xml_attributes(nodes[z])[zx].2,
            ),
        ),
{
    law_find_descendant_finds_first_named(nodes, 0, "Body"@, body);
    law_find_descendant_finds_first_named(nodes, body, "RelativeMove"@, op);
    law_find_descendant_finds_first_named(nodes, op, "Translation"@, tr);
    law_find_descendant_finds_first_named(nodes, tr, "PanTilt"@, pt);
    law_find_descendant_finds_first_named(nodes, tr, "Zoom"@, z);
    law_attribute_or_empty_first_plain(nodes, pt, "x"@);
    law_attribute_or_empty_first_plain(nodes, pt, "y"@);
    law_attribute_or_empty_first_plain(nodes, z, "x"@);
    assert(xml_attributes(nodes[pt])[px].2 == attribute_or_empty(nodes, pt, "x"@));
    assert(xml_attributes(nodes[pt])[py].2 == attribute_or_empty(nodes, pt, "y"@));
    assert(xml_attributes(nodes[z])[zx].2 == attribute_or_empty(nodes, z, "x"@));
}

/// A `SetPreset` request never moves the camera, whatever it carries.
pub proof fn law_set_preset_request_keeps_position<P>(action: Seq<char>, s: CameraView<P>, xml: Seq<char>)
    requires
        has_suffix(action, "SetPreset"@),
    ensures
        ptz_step(action, s, xml).0.pan == s.pan,
        ptz_step(action, s, xml).0.tilt == s.tilt,
        ptz_step(action, s, xml).0.zoom == s.zoom,
        ptz_step(action, s, xml).1 == PTZ_SUCCESS_RESPONSE@,
{
    law_ptz_operations_exclusive(action);
    let (name, token) = pair_or_empty(set_preset_params_of(xml));
    law_presets_keep_tokens(s, token, name);
}

/// A `SetPreset` request whose token is the token of preset `i` (and of no
/// earlier preset) stores the camera's position and the requested name, whole,
/// in preset `i`, leaves every other preset and the camera's position as they
/// were.
pub proof fn law_set_preset_request_stores<P>(
    action: Seq<char>,
    s: CameraView<P>,
    xml: Seq<char>,
    nodes: Seq<XmlNodeData>,
    body: int,
    op: int,
    name: int,
    token: int,
    i: int,
)
    requires
        has_suffix(action, "SetPreset"@),
        xml_parse(xml) == Some(nodes),
        is_first_named(nodes, 0, "Body"@, body),
        is_first_named(nodes, body, "SetPreset"@, op),
        is_first_named(nodes, op, "PresetName"@, name),
        is_first_named(nodes, op, "PresetToken"@, token),
        0 <= i < s.presets.len(),
        s.presets[i].token == whole_text(nodes[token]),
        forall|j: int| 0 <= j < i ==> (#[trigger] s.presets[j]).token != whole_text(nodes[token]),
    ensures
        ({
            let after = ptz_step(action, s, xml).0;
            &&& after.pan == s.pan
            &&& after.tilt == s.tilt
            &&& after.zoom == s.zoom
            &&& after.presets.len() == s.presets.len()
            &&& after.presets[i].token == s.presets[i].token
            &&& after.presets[i].name == whole_text(nodes[name])
            &&& after.presets[i].pan == s.pan
            &&& after.presets[i].tilt == s.tilt
            &&& after.presets[i].zoom == s.zoom
            &&& forall|j: int|
                0 <= j < s.presets.len() && j != i ==> #[trigger] after.presets[j] == s.presets[j]
        }),
{
    law_ptz_operations_exclusive(action);
    law_set_preset_params_whole_texts(nodes, body, op, name, token);
    law_preset_index_is_first_match(s.presets, whole_text(nodes[token]), i);
}

/// A `GotoPreset` request whose token is the token of preset `i` (and of no
/// earlier preset) moves the camera to the position stored in preset `i` and
/// leaves the presets as they were.
pub proof fn law_go_to_request_moves_to_preset<P>(
    action: Seq<char>,
    s: CameraView<P>,
    xml: Seq<char>,
    nodes: Seq<XmlNodeData>,
    body: int,
    op: int,
    token: int,
    i: int,
)
    requires
        has_suffix(action, "GotoPreset"@),
        xml_parse(xml) == Some(nodes),
        is_first_named(nodes, 0, "Body"@, body),
        is_first_named(nodes, body, "GotoPreset"@, op),
        is_first_named(nodes, op, "PresetToken"@, token),
        0 <= i < s.presets.len(),
        s.presets[i].token == whole_text(nodes[token]),
        forall|j: int| 0 <= j < i ==> (#[trigger] s.presets[j]).token != whole_text(nodes[token]),
    ensures
        ptz_step(action, s, xml).0.pan == s.presets[i].pan,
        ptz_step(action, s, xml).0.tilt == s.presets[i].tilt,
        ptz_step(action, s, xml).0.zoom == s.presets[i].zoom,
        ptz_step(action, s, xml).0.presets == s.presets,
        ptz_step(action, s, xml).1 == PTZ_SUCCESS_RESPONSE@,
{
    law_ptz_operations_exclusive(action);
    law_go_to_preset_params_whole_token(nodes, body, op, token);
    law_preset_index_is_first_match(s.presets, whole_text(nodes[token]), i);
}

/// A `RelativeMove` request leaves the camera and its presets to the caller
/// and hands back, in order, the plain `x` and `y` of the first `PanTilt` and
/// the plain `x` of the first `Zoom` under its `Translation`.
pub proof fn law_relative_move_request_hands_back_translation<P>(
    action: Seq<char>,
    s: CameraView<P>,
    xml: Seq<char>,
    nodes: Seq<XmlNodeData>,
    body: int,
    op: int,
    tr: int,
    pt: int,
    z: int,
    px: int,
    py: int,
    zx: int,
)
    requires
        has_suffix(action, "RelativeMove"@),
        xml_parse(xml) == Some(nodes),
        is_first_named(nodes, 0, "Body"@, body),
        is_first_named(nodes, body, "RelativeMove"@, op),
        is_first_named(nodes, op, "Translation"@, tr),
        is_first_named(nodes, tr, "PanTilt"@, pt),
        is_first_named(nodes, tr, "Zoom"@, z),
        is_first_plain_attribute(xml_attributes(nodes[pt]), "x"@, px),
        is_first_plain_attribute(xml_attributes(nodes[pt]), "y"@, py),
        is_first_plain_attribute(xml_attributes(nodes[z]), "x"@, zx),
    ensures
        ptz_step(action, s, xml).0 == s,
        ptz_step(action, s, xml).1 == PTZ_SUCCESS_RESPONSE@,
        ptz_step(action, s, xml).2 == Some(
            (
                xml_attributes(nodes[pt])[px].2,
                xml_attributes(nodes[pt])[py].2,
                xml_attributes(nodes[z])[zx].2,
            ),
        ),
{
    law_ptz_operations_exclusive(action);
    law_relative_move_params_attributes(nodes, body, op, tr, pt, z, px, py, zx);
}

/// Default preset `k` has as token the decimal notation of `k` and as name
/// `Preset ` followed by that token, at the given position.
pub proof fn law_default_preset_names<P>(k: nat, pan: P, tilt: P, zoom: P)
    ensures
        crate::text::decimal_value(default_preset(k, pan, tilt, zoom).token) == k,
        default_preset(k, pan, tilt, zoom).name == "Preset "@ + default_preset(k, pan, tilt, zoom).token,
        default_preset(k, pan, tilt, zoom).pan == pan,
        default_preset(k, pan, tilt, zoom).tilt == tilt,
        default_preset(k, pan, tilt, zoom).zoom == zoom,
{
    crate::text::law_decimal_value(k);
}

} // verus!
