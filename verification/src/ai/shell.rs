//! The voice shell: recognised text to an intent, and the spoken answer.
use vstd::prelude::*;
use vstd::utf8::encode_utf8;
use crate::ai::speech::{SttEngine, TtsEngine};

verus! {

/// What a command asks for.
#[derive(Debug, Clone, Copy)]
pub enum Intent {
    SystemStatus,
    InitializeDiagnostics,
    ControlHardware { device: &'static str, action: &'static str },
    ListDevices,
    ScanNetwork,
    Greeting,
    Unknown,
}

/// The name of an intent's kind.
pub open spec fn intent_name(i: Intent) -> Seq<char> {
    match i {
        Intent::SystemStatus => "SystemStatus"@,
        Intent::InitializeDiagnostics => "InitializeDiagnostics"@,
        Intent::ControlHardware { .. } => "ControlHardware"@,
        Intent::ListDevices => "ListDevices"@,
        Intent::ScanNetwork => "ScanNetwork"@,
        Intent::Greeting => "Greeting"@,
        Intent::Unknown => "Unknown"@,
    }
}

impl Intent {
    /// The name of this intent's kind.
    pub fn as_str(&self) -> (s: &'static str)
        ensures
            s@ == intent_name(*self),
    {
        match self {
            Intent::SystemStatus => "SystemStatus",
            Intent::InitializeDiagnostics => "InitializeDiagnostics",
            Intent::ControlHardware { .. } => "ControlHardware",
            Intent::ListDevices => "ListDevices",
            Intent::ScanNetwork => "ScanNetwork",
            Intent::Greeting => "Greeting",
            Intent::Unknown => "Unknown",
        }
    }
}

/// `needle` occurs in `hay` starting at `i`.
pub open spec fn occurs_at(hay: Seq<u8>, needle: Seq<u8>, i: int) -> bool {
    0 <= i && i + needle.len() <= hay.len() && hay.subrange(i, i + needle.len()) == needle
}

/// `needle` occurs somewhere in `hay`.
pub open spec fn bytes_contain(hay: Seq<u8>, needle: Seq<u8>) -> bool {
    exists|i: int| occurs_at(hay, needle, i)
}

/// Whether the text `hay` contains the text `needle` (as bytes of their
/// UTF-8 encodings, which is containment of the texts).
pub fn contains_str(hay: &str, needle: &str) -> (r: bool)
    ensures
        r == bytes_contain(encode_utf8(hay@), encode_utf8(needle@)),
{
    let h = hay.as_bytes();
    let n = needle.as_bytes();
    let hl = h.len();
    let nl = n.len();
    if nl > hl {
        assert forall|i: int| !occurs_at(h@, n@, i) by {}
        return false;
    }
    let mut i: usize = 0;
    while i <= hl - nl
        invariant
            h@ == encode_utf8(hay@),
            n@ == encode_utf8(needle@),
            hl == h@.len(),
            nl == n@.len(),
            nl <= hl,
            i <= hl - nl + 1,
            forall|k: int| 0 <= k < i ==> !occurs_at(h@, n@, k),
        decreases hl - nl + 1 - i,
    {
        let mut j: usize = 0;
        let mut same = true;
        while j < nl
            invariant
                j <= nl,
                i + nl <= hl,
                h@.len() == hl,
                n@.len() == nl,
                same == (forall|t: int| 0 <= t < j ==> h@[i + t] == n@[t]),
            decreases nl - j,
        {
            if h[i + j] != n[j] {
                same = false;
            }
            j = j + 1;
        }
        if same {
            assert(h@.subrange(i as int, i + nl) =~= n@);
            assert(occurs_at(h@, n@, i as int));
            return true;
        }
        assert(!occurs_at(h@, n@, i as int)) by {
            if h@.subrange(i as int, i + nl) == n@ {
                assert forall|t: int| 0 <= t < nl implies h@[i + t] == n@[t] by {
                    assert(h@.subrange(i as int, i + nl)[t] == h@[i + t]);
                }
            }
        }
        i = i + 1;
    }
    false
}

/// The lower-case form of a text as `str::to_lowercase` gives it (Unicode
/// case mapping).
pub uninterp spec fn lowercase(s: Seq<char>) -> Seq<char>;

/// Calls `str::to_lowercase`: the lower-case form of `s`.
#[verifier::external_body]
fn to_lowercase(s: &str) -> (r: String)
    ensures
        r@ == lowercase(s@),
{
    s.to_lowercase()
}

/// The text `n` contains the text `w`.
pub open spec fn has(n: Seq<char>, w: Seq<char>) -> bool {
    bytes_contain(encode_utf8(n), encode_utf8(w))
}

/// Index of the first name in `names` whose lower-case form occurs in `n`.
pub open spec fn first_named(n: Seq<char>, names: Seq<&'static str>, i: int) -> Option<int>
    decreases names.len() - i,
{
    if i < 0 || i >= names.len() {
        None
    } else if has(n, lowercase(names[i]@)) {
        Some(i)
    } else {
        first_named(n, names, i + 1)
    }
}

/// The intent of a lower-cased command `n`: keyword groups are tried in
/// order (status, diagnostics, greeting, devices, network); then a power
/// command picks the power-controllable device named in the command, or
/// the first; then a volume command picks the first volume-controllable
/// device.
pub open spec fn intent_of(n: Seq<char>, power: Seq<&'static str>, volume: Seq<&'static str>) -> Intent {
    if has(n, "status"@) || has(n, "how are you"@) {
        Intent::SystemStatus
    } else if has(n, "diagnostic"@) || has(n, "check up"@) {
        Intent::InitializeDiagnostics
    } else if has(n, "hello"@) || has(n, "hi"@) {
        Intent::Greeting
    } else if has(n, "device"@) || has(n, "hardware"@) {
        Intent::ListDevices
    } else if has(n, "network"@) || has(n, "scan"@) {
        Intent::ScanNetwork
    } else if (has(n, "turn on"@) || has(n, "activate"@) || has(n, "start"@)) && power.len() > 0 {
        let d = match first_named(n, power, 0) {
            Some(i) => power[i],
            None => power[0],
        };
        Intent::ControlHardware { device: d, action: "on" }
    } else if (has(n, "volume"@) || has(n, "louder"@) || has(n, "quieter"@)) && volume.len() > 0 {
        Intent::ControlHardware { device: volume[0], action: "adjust" }
    } else {
        Intent::Unknown
    }
}

/// Words of a status request.
pub open spec fn status_words() -> Seq<Seq<char>> {
    seq!["status"@, "how are you"@]
}

/// Words of a diagnostics request.
pub open spec fn diagnostic_words() -> Seq<Seq<char>> {
    seq!["diagnostic"@, "check up"@]
}

/// Words of a greeting.
pub open spec fn greeting_words() -> Seq<Seq<char>> {
    seq!["hello"@, "hi"@]
}

/// Words of a request for the device list.
pub open spec fn device_words() -> Seq<Seq<char>> {
    seq!["device"@, "hardware"@]
}

/// Words of a network scan request.
pub open spec fn network_words() -> Seq<Seq<char>> {
    seq!["network"@, "scan"@]
}

/// Words that switch a device on.
pub open spec fn power_words() -> Seq<Seq<char>> {
    seq!["turn on"@, "activate"@, "start"@]
}

/// Words that change the volume.
pub open spec fn volume_words() -> Seq<Seq<char>> {
    seq!["volume"@, "louder"@, "quieter"@]
}

/// The command `n` contains one of `words`.
pub open spec fn mentions(n: Seq<char>, words: Seq<Seq<char>>) -> bool {
    exists|k: int| 0 <= k < words.len() && has(n, #[trigger] words[k])
}

/// The command `n` names device `name` (in lower case).
pub open spec fn names_device(n: Seq<char>, name: &'static str) -> bool {
    has(n, lowercase(name@))
}

/// `i` switches on a `power` device: the first one the command names, or
/// the first one when it names none.
pub open spec fn powers_on(i: Intent, n: Seq<char>, power: Seq<&'static str>) -> bool {
    match i {
        Intent::ControlHardware { device, action } => {
            &&& action@ == "on"@
            &&& exists|j: int| {
                &&& 0 <= j < power.len()
                &&& device == #[trigger] power[j]
                &&& forall|m: int| 0 <= m < j ==> names_device(n, #[trigger] power[m]) == false
                &&& names_device(n, power[j]) || (j == 0 && forall|m: int| 0 <= m < power.len() ==> names_device(n, #[trigger] power[m]) == false)
            }
        },
        _ => false,
    }
}

/// `i` adjusts the volume of the first of the `volume` devices.
pub open spec fn adjusts_volume(i: Intent, volume: Seq<&'static str>) -> bool {
    match i {
        Intent::ControlHardware { device, action } => action@ == "adjust"@ && device == volume[0],
        _ => false,
    }
}

proof fn lemma_mentions2(n: Seq<char>, a: Seq<char>, b: Seq<char>)
    ensures
        mentions(n, seq![a, b]) == (has(n, a) || has(n, b)),
{
    let w = seq![a, b];
    if has(n, a) {
        assert(has(n, w[0]));
    } else if has(n, b) {
        assert(has(n, w[1]));
    }
}

proof fn lemma_mentions3(n: Seq<char>, a: Seq<char>, b: Seq<char>, c: Seq<char>)
    ensures
        mentions(n, seq![a, b, c]) == (has(n, a) || has(n, b) || has(n, c)),
{
    let w = seq![a, b, c];
    if has(n, a) {
        assert(has(n, w[0]));
    } else if has(n, b) {
        assert(has(n, w[1]));
    } else if has(n, c) {
        assert(has(n, w[2]));
    }
}

/// A command is understood by the first keyword group it mentions, tried in
/// the order status, diagnostics, greeting, devices, network, power, volume:
/// a power word switches on one of the power-controllable devices (when
/// there is one), a volume word adjusts the first volume-controllable
/// device (when there is one), and a command that reaches none of these is
/// not understood.
pub proof fn lemma_intent_by_keywords(n: Seq<char>, power: Seq<&'static str>, volume: Seq<&'static str>)
    ensures
        mentions(n, status_words()) ==> intent_of(n, power, volume) == Intent::SystemStatus,
        !mentions(n, status_words()) && mentions(n, diagnostic_words())
            ==> intent_of(n, power, volume) == Intent::InitializeDiagnostics,
        !mentions(n, status_words()) && !mentions(n, diagnostic_words()) && mentions(n, greeting_words())
            ==> intent_of(n, power, volume) == Intent::Greeting,
        !mentions(n, status_words()) && !mentions(n, diagnostic_words()) && !mentions(n, greeting_words())
            && mentions(n, device_words()) ==> intent_of(n, power, volume) == Intent::ListDevices,
        !mentions(n, status_words()) && !mentions(n, diagnostic_words()) && !mentions(n, greeting_words())
            && !mentions(n, device_words()) && mentions(n, network_words())
            ==> intent_of(n, power, volume) == Intent::ScanNetwork,
        !mentions(n, status_words()) && !mentions(n, diagnostic_words()) && !mentions(n, greeting_words())
            && !mentions(n, device_words()) && !mentions(n, network_words())
            && mentions(n, power_words()) && power.len() > 0
            ==> powers_on(intent_of(n, power, volume), n, power),
        !mentions(n, status_words()) && !mentions(n, diagnostic_words()) && !mentions(n, greeting_words())
            && !mentions(n, device_words()) && !mentions(n, network_words())
            && !(mentions(n, power_words()) && power.len() > 0)
            && mentions(n, volume_words()) && volume.len() > 0
            ==> adjusts_volume(intent_of(n, power, volume), volume),
        !mentions(n, status_words()) && !mentions(n, diagnostic_words()) && !mentions(n, greeting_words())
            && !mentions(n, device_words()) && !mentions(n, network_words())
            && !(mentions(n, power_words()) && power.len() > 0)
            && !(mentions(n, volume_words()) && volume.len() > 0)
            ==> intent_of(n, power, volume) == Intent::Unknown,
{
    lemma_mentions2(n, "status"@, "how are you"@);
    lemma_mentions2(n, "diagnostic"@, "check up"@);
    lemma_mentions2(n, "hello"@, "hi"@);
    lemma_mentions2(n, "device"@, "hardware"@);
    lemma_mentions2(n, "network"@, "scan"@);
    lemma_mentions3(n, "turn on"@, "activate"@, "start"@);
    lemma_mentions3(n, "volume"@, "louder"@, "quieter"@);
    lemma_first_named_in(n, power, 0);
}

proof fn lemma_first_named_in(n: Seq<char>, names: Seq<&'static str>, i: int)
    requires
        0 <= i,
    ensures
        first_named(n, names, i) matches Some(j) ==> {
            &&& i <= j < names.len()
            &&& names_device(n, names[j])
            &&& forall|m: int| i <= m < j ==> names_device(n, #[trigger] names[m]) == false
        },
        first_named(n, names, i) is None ==> forall|m: int| i <= m < names.len() ==> names_device(n, #[trigger] names[m]) == false,
    decreases names.len() - i,
{
    if i < names.len() && has(n, lowercase(names[i]@)) == false {
        lemma_first_named_in(n, names, i + 1);
    }
}

/// Whether two intents are the same (devices and actions as texts).
pub open spec fn same_intent(a: Intent, b: Intent) -> bool {
    match (a, b) {
        (Intent::ControlHardware { device: d1, action: a1 }, Intent::ControlHardware { device: d2, action: a2 }) =>
            d1@ == d2@ && a1@ == a2@,
        _ => intent_name(a) == intent_name(b),
    }
}

/// The intent of an already lower-cased command `normalized`; `power` and
/// `volume` are the names of the devices with power and volume control.
pub fn intent_for(normalized: &str, power: &[&'static str], volume: &[&'static str]) -> (i: Intent)
    ensures
        same_intent(i, intent_of(normalized@, power@, volume@)),
{
    let n = normalized;
    if contains_str(n, "status") || contains_str(n, "how are you") {
        return Intent::SystemStatus;
    }
    if contains_str(n, "diagnostic") || contains_str(n, "check up") {
        return Intent::InitializeDiagnostics;
    }
    if contains_str(n, "hello") || contains_str(n, "hi") {
        return Intent::Greeting;
    }
    if contains_str(n, "device") || contains_str(n, "hardware") {
        return Intent::ListDevices;
    }
    if contains_str(n, "network") || contains_str(n, "scan") {
        return Intent::ScanNetwork;
    }
    if (contains_str(n, "turn on") || contains_str(n, "activate") || contains_str(n, "start")) && power.len() > 0 {
        let ghost target = intent_of(n@, power@, volume@);
        assert(target == Intent::ControlHardware {
            device: (match first_named(n@, power@, 0) { Some(i) => power@[i], None => power@[0] }),
            action: "on",
        });
        let mut k: usize = 0;
        while k < power.len()
            invariant
                k <= power@.len(),
                power@.len() > 0,
                n == normalized,
                target == intent_of(n@, power@, volume@),
                target == (Intent::ControlHardware {
                    device: (match first_named(n@, power@, 0) { Some(i) => power@[i], None => power@[0] }),
                    action: "on",
                }),
                first_named(n@, power@, 0) == first_named(n@, power@, k as int),
            decreases power@.len() - k,
        {
            let name = to_lowercase(power[k]);
            let ns = name.as_str();
            if contains_str(n, ns) {
                assert(ns@ == lowercase(power@[k as int]@));
                assert(has(n@, lowercase(power@[k as int]@)));
                assert(first_named(n@, power@, k as int) == Some(k as int));
                let r = Intent::ControlHardware { device: power[k], action: "on" };
                assert(same_intent(r, target));
                return r;
            }
            k = k + 1;
        }
        return Intent::ControlHardware { device: power[0], action: "on" };
    }
    if (contains_str(n, "volume") || contains_str(n, "louder") || contains_str(n, "quieter")) && volume.len() > 0 {
        return Intent::ControlHardware { device: volume[0], action: "adjust" };
    }
    Intent::Unknown
}

/// What the shell answers to an intent.
pub open spec fn response_text(i: Intent) -> Seq<char> {
    match i {
        Intent::SystemStatus => "All systems are operational, sir."@,
        Intent::InitializeDiagnostics => "Initiating full system diagnostics."@,
        Intent::Greeting => "Hello. I am JARVIS. How can I help you?"@,
        Intent::ListDevices => "Displaying all discovered hardware on the HUD."@,
        Intent::ScanNetwork => "Scanning local subnet for active nodes."@,
        Intent::ControlHardware { .. } => "Command processed."@,
        Intent::Unknown => "I'm sorry, I didn't catch that. Could you repeat?"@,
    }
}

/// The shell, with its optional speech engines.
pub struct VoiceShell<S: SttEngine, T: TtsEngine> {
    pub stt: Option<S>,
    pub tts: Option<T>,
}

impl<S: SttEngine, T: TtsEngine> VoiceShell<S, T> {
    /// A shell without engines.
    pub fn new() -> (v: Self)
        ensures
            v.stt is None,
            v.tts is None,
    {
        VoiceShell { stt: None, tts: None }
    }

    /// The intent of a recognised command: lower-cased, then matched.
    pub fn map_text_to_intent(&self, text: &str, power: &[&'static str], volume: &[&'static str]) -> (i: Intent)
        ensures
            same_intent(i, intent_of(lowercase(text@), power@, volume@)),
    {
        let normalized = to_lowercase(text);
        intent_for(normalized.as_str(), power, volume)
    }

    /// Answers `text` out loud when a speech engine is set.
    fn respond(&mut self, text: &'static str) -> (said: &'static str)
        ensures
            said@ == text@,
            old(self).tts is None <==> final(self).tts is None,
    {
        match &mut self.tts {
            Some(t) => {
                let _ = t.speak(text);
            },
            None => {},
        }
        text
    }

    /// Handles a recognised command: its intent and the answer spoken.
    pub fn handle_command(&mut self, text: &str, power: &[&'static str], volume: &[&'static str]) -> (r: (Intent, &'static str))
        ensures
            same_intent(r.0, intent_of(lowercase(text@), power@, volume@)),
            r.1@ == response_text(r.0),
    {
        let intent = self.map_text_to_intent(text, power, volume);
        let said = match intent {
            Intent::SystemStatus => self.respond("All systems are operational, sir."),
            Intent::InitializeDiagnostics => self.respond("Initiating full system diagnostics."),
            Intent::Greeting => self.respond("Hello. I am JARVIS. How can I help you?"),
            Intent::ListDevices => self.respond("Displaying all discovered hardware on the HUD."),
            Intent::ScanNetwork => self.respond("Scanning local subnet for active nodes."),
            Intent::ControlHardware { .. } => self.respond("Command processed."),
            Intent::Unknown => self.respond("I'm sorry, I didn't catch that. Could you repeat?"),
        };
        (intent, said)
    }
}

} // verus!
