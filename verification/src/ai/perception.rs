//! Device inference from a JSON state report: which keys it carries tells
//! what kind of device sent it and what it can do.
use vstd::prelude::*;
use vstd::utf8::encode_utf8;
use crate::ai::shell::{contains_str, has};

verus! {

/// The kind of device an inference names.
#[derive(Debug, Clone, Copy, PartialEq, Eq, Structural)]
pub enum DeviceType {
    Light,
    Audio,
    System,
}

/// What a device can be asked to do.
#[derive(Debug, Clone, Copy, PartialEq, Eq, Structural)]
pub enum Capability {
    PowerControl,
    BrightnessControl,
    VolumeControl,
    Diagnostic,
}

/// The inferred kind, the capabilities found (in the order power,
/// brightness, volume, diagnostic) and the confidence in percent.
pub struct InferenceResult {
    pub dev_type: DeviceType,
    pub capabilities: Vec<Capability>,
    pub confidence_percent: u8,
}

/// The report carries a power key.
pub open spec fn power_keys(j: Seq<char>) -> bool {
    has(j, "\"power\""@) || has(j, "\"state\""@)
}

/// The report carries a brightness key.
pub open spec fn brightness_keys(j: Seq<char>) -> bool {
    has(j, "\"brightness\""@) || has(j, "\"dimmer\""@) || has(j, "\"level\""@)
}

/// The report carries a volume key.
pub open spec fn volume_keys(j: Seq<char>) -> bool {
    has(j, "\"volume\""@) || has(j, "\"mute\""@)
}

/// The report carries a sensor key.
pub open spec fn sensor_keys(j: Seq<char>) -> bool {
    has(j, "\"temperature\""@) || has(j, "\"humidity\""@) || has(j, "\"sensor\""@)
}

/// The light score in halves: a half for power, one for brightness.
pub open spec fn light_score(j: Seq<char>) -> int {
    (if power_keys(j) { 1int } else { 0int }) + (if brightness_keys(j) { 2int } else { 0int })
}

/// The audio score in halves.
pub open spec fn audio_score(j: Seq<char>) -> int {
    if volume_keys(j) { 2 } else { 0 }
}

/// The sensor score in halves.
pub open spec fn sensor_score(j: Seq<char>) -> int {
    if sensor_keys(j) { 2 } else { 0 }
}

/// The capabilities found, in order.
pub open spec fn capabilities_of(j: Seq<char>) -> Seq<Capability> {
    (if power_keys(j) { seq![Capability::PowerControl] } else { Seq::empty() })
        + (if brightness_keys(j) { seq![Capability::BrightnessControl] } else { Seq::empty() })
        + (if volume_keys(j) { seq![Capability::VolumeControl] } else { Seq::empty() })
        + (if sensor_keys(j) { seq![Capability::Diagnostic] } else { Seq::empty() })
}

/// The inferred kind and confidence: light when its score beats both others
/// (confidence its score over two), else audio when it beats the sensor
/// score, else a system device when a sensor key is there (confidence one);
/// none otherwise.
pub open spec fn inferred(j: Seq<char>) -> Option<(DeviceType, u8)> {
    if light_score(j) > sensor_score(j) && light_score(j) > audio_score(j) {
        Some((DeviceType::Light, (25 * light_score(j)) as u8))
    } else if audio_score(j) > sensor_score(j) {
        Some((DeviceType::Audio, 100u8))
    } else if sensor_score(j) > 0 {
        Some((DeviceType::System, 100u8))
    } else {
        None
    }
}

fn either(json: &str, a: &str, b: &str) -> (r: bool)
    ensures
        r == (has(json@, a@) || has(json@, b@)),
{
    contains_str(json, a) || contains_str(json, b)
}

/// Infers the device behind a JSON state report from the keys it carries.
pub fn infer_device_from_json(json: &str) -> (r: Option<InferenceResult>)
    ensures
        inferred(json@) is None ==> r is None,
        inferred(json@) matches Some((t, c)) ==> {
            &&& r is Some
            &&& r.unwrap().dev_type == t
            &&& r.unwrap().confidence_percent == c
            &&& r.unwrap().capabilities@ == capabilities_of(json@)
        },
{
    proof {
        reveal_strlit("\"power\"");
        reveal_strlit("\"state\"");
        reveal_strlit("\"brightness\"");
        reveal_strlit("\"dimmer\"");
        reveal_strlit("\"level\"");
        reveal_strlit("\"volume\"");
        reveal_strlit("\"mute\"");
        reveal_strlit("\"temperature\"");
        reveal_strlit("\"humidity\"");
        reveal_strlit("\"sensor\"");
    }
    let mut capabilities: Vec<Capability> = Vec::new();
    let mut light: u8 = 0;
    let mut audio: u8 = 0;
    let mut sensor: u8 = 0;
    let power = either(json, "\"power\"", "\"state\"");
    if power {
        capabilities.push(Capability::PowerControl);
        light = light + 1;
    }
    let brightness = either(json, "\"brightness\"", "\"dimmer\"") || contains_str(json, "\"level\"");
    if brightness {
        capabilities.push(Capability::BrightnessControl);
        light = light + 2;
    }
    if either(json, "\"volume\"", "\"mute\"") {
        capabilities.push(Capability::VolumeControl);
        audio = 2;
    }
    let s = either(json, "\"temperature\"", "\"humidity\"") || contains_str(json, "\"sensor\"");
    if s {
        capabilities.push(Capability::Diagnostic);
        sensor = 2;
    }
    assert(capabilities@ =~= capabilities_of(json@));
    if light > sensor && light > audio {
        Some(InferenceResult { dev_type: DeviceType::Light, capabilities, confidence_percent: 25 * light })
    } else if audio > sensor {
        Some(InferenceResult { dev_type: DeviceType::Audio, capabilities, confidence_percent: 100 })
    } else if sensor > 0 {
        Some(InferenceResult { dev_type: DeviceType::System, capabilities, confidence_percent: 100 })
    } else {
        None
    }
}

fn holds(caps: &Vec<Capability>, c: Capability) -> (r: bool)
    ensures
        r == caps@.contains(c),
{
    let mut i: usize = 0;
    while i < caps.len()
        invariant
            i <= caps@.len(),
            forall|k: int| 0 <= k < i ==> caps@[k] != c,
        decreases caps@.len() - i,
    {
        if caps[i] == c {
            return true;
        }
        i = i + 1;
    }
    false
}

proof fn lemma_ascii_occurs(hay: Seq<char>, needle: Seq<char>, at: int)
    requires
        vstd::utf8::is_ascii_chars(hay),
        vstd::utf8::is_ascii_chars(needle),
        0 <= at,
        at + needle.len() <= hay.len(),
        hay.subrange(at, at + needle.len()) == needle,
    ensures
        has(hay, needle),
{
    vstd::utf8::is_ascii_chars_encode_utf8(hay);
    vstd::utf8::is_ascii_chars_encode_utf8(needle);
    assert(encode_utf8(hay).subrange(at, at + needle.len()) =~= encode_utf8(needle)) by {
        assert forall|i: int| 0 <= i < needle.len() implies encode_utf8(hay).subrange(at, at + needle.len())[i]
            == encode_utf8(needle)[i] by {
            assert(hay[at + i] == needle[i]);
        }
    }
    assert(crate::ai::shell::occurs_at(encode_utf8(hay), encode_utf8(needle), at));
}

proof fn lemma_light_report_keys()
    ensures
        power_keys(r#"{"state": "on", "brightness": 255}"#@),
        brightness_keys(r#"{"state": "on", "brightness": 255}"#@),
{
    reveal_strlit(r#"{"state": "on", "brightness": 255}"#);
    reveal_strlit("\"state\"");
    reveal_strlit("\"brightness\"");
    let j = r#"{"state": "on", "brightness": 255}"#@;
    assert(vstd::utf8::is_ascii_chars(j));
    assert(vstd::utf8::is_ascii_chars("\"state\""@));
    assert(vstd::utf8::is_ascii_chars("\"brightness\""@));
    assert(j.subrange(1, 8) =~= "\"state\""@);
    lemma_ascii_occurs(j, "\"state\""@, 1);
    assert(j.subrange(16, 28) =~= "\"brightness\""@);
    lemma_ascii_occurs(j, "\"brightness\""@, 16);
}

/// A light report (power and brightness keys) is inferred as a dimmable
/// light, and a report with volume keys as an audio device.
pub fn test_inference() -> (passed: bool)
    ensures
        passed == ({
            let audio = r#"{"volume": 50, "mute": false}"#@;
            &&& inferred(audio) matches Some((t, _)) && t == DeviceType::Audio
            &&& capabilities_of(audio).contains(Capability::VolumeControl)
        }),
{
    let light_payload = r#"{"state": "on", "brightness": 255}"#;
    proof {
        lemma_light_report_keys();
    }
    let light = match infer_device_from_json(light_payload) {
        Some(r) => r,
        None => return false,
    };
    assert(light.capabilities@[0] == Capability::PowerControl);
    assert(light.capabilities@[1] == Capability::BrightnessControl);
    if !(light.dev_type == DeviceType::Light && holds(&light.capabilities, Capability::PowerControl) && holds(
        &light.capabilities,
        Capability::BrightnessControl,
    )) {
        return false;
    }
    let audio_payload = r#"{"volume": 50, "mute": false}"#;
    match infer_device_from_json(audio_payload) {
        Some(r) => r.dev_type == DeviceType::Audio && holds(&r.capabilities, Capability::VolumeControl),
        None => false,
    }
}

} // verus!
