//! The zip-contained JSON project format of the fifth editor generation.
//!
//! The records follow the JSON document field by field. A lane's display height
//! is a float in the document; a record holds its bit pattern, so that the
//! records can be compared and copied exactly.

use vstd::prelude::*;
use vstd::string::StringExecFns;

verus! {

#[verifier::external_type_specification]
#[verifier::external_body]
pub struct ExJsonValue(serde_json::Value);

/// `Clone::clone` of `serde_json::Value`, which the derived `Clone` of
/// [`Parameter`] calls. Nothing is claimed of the copy.
pub assume_specification[ <serde_json::Value as Clone>::clone ](v: &serde_json::Value) -> (r:
    serde_json::Value);

/// The vendor that a document names where it says nothing else.
pub fn vpr_vender() -> (r: String)
    ensures
        r@ == "Yamaha Corporation"@,
{
    String::from_str("Yamaha Corporation")
}

/// A project of the fifth editor generation.
#[derive(Clone, Debug, PartialEq)]
pub struct Vpr {
    pub version: Version,
    pub vender: String,
    pub title: String,
    pub master_track: MasterTrack,
    /// The singer models that the parts may name.
    pub voices: Vec<Voice>,
    pub tracks: Vec<Track>,
}

/// A project of the fifth editor generation.
#[verifier::ext_equal]
pub struct VprView {
    pub version: Version,
    pub vender: Seq<char>,
    pub title: Seq<char>,
    pub master_track: MasterTrackView,
    pub voices: Seq<VoiceView>,
    pub tracks: Seq<TrackView>,
}

impl DeepView for Vpr {
    type V = VprView;

    open spec fn deep_view(&self) -> VprView {
        VprView {
            version: self.version.deep_view(),
            vender: self.vender.deep_view(),
            title: self.title.deep_view(),
            master_track: self.master_track.deep_view(),
            voices: self.voices.deep_view(),
            tracks: self.tracks.deep_view(),
        }
    }
}

impl View for Vpr {
    type V = VprView;

    open spec fn view(&self) -> VprView {
        self.deep_view()
    }
}

/// The version of the format that a document was written in.
#[derive(Clone, Debug, PartialEq)]
pub struct Version {
    pub major: u64,
    pub minor: u64,
    pub revision: u64,
}

impl DeepView for Version {
    type V = Version;

    open spec fn deep_view(&self) -> Version {
        *self
    }
}

impl View for Version {
    type V = Version;

    open spec fn view(&self) -> Version {
        *self
    }
}

impl Version {
    pub fn new(major: u64, minor: u64, revision: u64) -> (v: Self)
        ensures
            v == (Version { major, minor, revision }),
    {
        Self { major, minor, revision }
    }
}

/// Sampling rate, loop range, and the tempo, time-signature and volume lanes.
#[derive(Clone, Debug, PartialEq)]
pub struct MasterTrack {
    pub sampling_rate: u64,
    pub loop_info: Loop,
    pub tempo: Tempo,
    pub time_sig: TimeSignature,
    pub volume: Volume,
}

/// The master track of a project.
#[verifier::ext_equal]
pub struct MasterTrackView {
    pub sampling_rate: u64,
    pub loop_info: Loop,
    pub tempo: TempoView,
    pub time_sig: TimeSignatureView,
    pub volume: VolumeView,
}

impl DeepView for MasterTrack {
    type V = MasterTrackView;

    open spec fn deep_view(&self) -> MasterTrackView {
        MasterTrackView {
            sampling_rate: self.sampling_rate.deep_view(),
            loop_info: self.loop_info.deep_view(),
            tempo: self.tempo.deep_view(),
            time_sig: self.time_sig.deep_view(),
            volume: self.volume.deep_view(),
        }
    }
}

impl View for MasterTrack {
    type V = MasterTrackView;

    open spec fn view(&self) -> MasterTrackView {
        self.deep_view()
    }
}

/// The loop range of the editor.
#[derive(Clone, Debug, PartialEq)]
pub struct Loop {
    pub is_enabled: bool,
    pub begin: i64,
    pub end: i64,
}

impl DeepView for Loop {
    type V = Loop;

    open spec fn deep_view(&self) -> Loop {
        *self
    }
}

impl View for Loop {
    type V = Loop;

    open spec fn view(&self) -> Loop {
        *self
    }
}

impl Default for Loop {
    /// No loop: switched off, from 0 to 0.
    fn default() -> (r: Self)
        ensures
            r == (Loop { is_enabled: false, begin: 0, end: 0 }),
    {
        Loop { is_enabled: false, begin: 0, end: 0 }
    }
}

/// The tempo lane; the value of an event is BPM times 100.
#[derive(Clone, Debug, PartialEq)]
pub struct Tempo {
    pub is_folded: bool,
    /// The display height, as the bit pattern of a 64-bit float; 0 stands for 0.0.
    pub height_bits: u64,
    pub global: GlobalTempo,
    pub events: Vec<ControlChange>,
}

/// The tempo lane.
#[verifier::ext_equal]
pub struct TempoView {
    pub is_folded: bool,
    pub height_bits: u64,
    pub global: GlobalTempo,
    pub events: Seq<ControlChange>,
}

impl DeepView for Tempo {
    type V = TempoView;

    open spec fn deep_view(&self) -> TempoView {
        TempoView {
            is_folded: self.is_folded.deep_view(),
            height_bits: self.height_bits.deep_view(),
            global: self.global.deep_view(),
            events: self.events.deep_view(),
        }
    }
}

impl View for Tempo {
    type V = TempoView;

    open spec fn view(&self) -> TempoView {
        self.deep_view()
    }
}

/// The tempo that holds where the lane is switched off; BPM times 100.
#[derive(Clone, Debug, PartialEq)]
pub struct GlobalTempo {
    pub is_enabled: bool,
    pub value: u64,
}

impl DeepView for GlobalTempo {
    type V = GlobalTempo;

    open spec fn deep_view(&self) -> GlobalTempo {
        *self
    }
}

impl View for GlobalTempo {
    type V = GlobalTempo;

    open spec fn view(&self) -> GlobalTempo {
        *self
    }
}

/// The time-signature lane.
#[derive(Clone, Debug, PartialEq)]
pub struct TimeSignature {
    pub is_folded: bool,
    pub events: Vec<TimeSignatureEvent>,
}

/// The time-signature lane.
#[verifier::ext_equal]
pub struct TimeSignatureView {
    pub is_folded: bool,
    pub events: Seq<TimeSignatureEvent>,
}

impl DeepView for TimeSignature {
    type V = TimeSignatureView;

    open spec fn deep_view(&self) -> TimeSignatureView {
        TimeSignatureView {
            is_folded: self.is_folded.deep_view(),
            events: self.events.deep_view(),
        }
    }
}

impl View for TimeSignature {
    type V = TimeSignatureView;

    open spec fn view(&self) -> TimeSignatureView {
        self.deep_view()
    }
}

/// A time-signature change at a bar.
#[derive(Clone, Debug, PartialEq)]
pub struct TimeSignatureEvent {
    pub bar: i64,
    pub numerator: i64,
    pub denominator: i64,
}

impl DeepView for TimeSignatureEvent {
    type V = TimeSignatureEvent;

    open spec fn deep_view(&self) -> TimeSignatureEvent {
        *self
    }
}

impl View for TimeSignatureEvent {
    type V = TimeSignatureEvent;

    open spec fn view(&self) -> TimeSignatureEvent {
        *self
    }
}

/// A volume lane.
#[derive(Clone, Debug, PartialEq)]
pub struct Volume {
    pub is_folded: bool,
    /// The display height, as the bit pattern of a 64-bit float; 0 stands for 0.0.
    pub height_bits: u64,
    pub events: Vec<ControlChange>,
}

/// A volume lane.
#[verifier::ext_equal]
pub struct VolumeView {
    pub is_folded: bool,
    pub height_bits: u64,
    pub events: Seq<ControlChange>,
}

impl DeepView for Volume {
    type V = VolumeView;

    open spec fn deep_view(&self) -> VolumeView {
        VolumeView {
            is_folded: self.is_folded.deep_view(),
            height_bits: self.height_bits.deep_view(),
            events: self.events.deep_view(),
        }
    }
}

impl View for Volume {
    type V = VolumeView;

    open spec fn view(&self) -> VolumeView {
        self.deep_view()
    }
}

impl Volume {
    /// A folded lane with one event: value 0 at tick 0.
    pub open spec fn spec_default() -> VolumeView {
        VolumeView {
            is_folded: true,
            height_bits: 0,
            events: seq![ControlChange { pos: 0, value: 0i64 }],
        }
    }
}

impl Default for Volume {
    fn default() -> (r: Self)
        ensures
            r@ == Volume::spec_default(),
    {
        let mut events: Vec<ControlChange> = Vec::new();
        events.push(ControlChange { pos: 0, value: 0 });
        Volume { is_folded: true, height_bits: 0, events }
    }
}

/// A panning lane.
#[derive(Clone, Debug, PartialEq)]
pub struct Panpot {
    pub is_folded: bool,
    /// The display height, as the bit pattern of a 64-bit float; 0 stands for 0.0.
    pub height_bits: u64,
    pub events: Vec<ControlChange>,
}

/// A panning lane.
#[verifier::ext_equal]
pub struct PanpotView {
    pub is_folded: bool,
    pub height_bits: u64,
    pub events: Seq<ControlChange>,
}

impl DeepView for Panpot {
    type V = PanpotView;

    open spec fn deep_view(&self) -> PanpotView {
        PanpotView {
            is_folded: self.is_folded.deep_view(),
            height_bits: self.height_bits.deep_view(),
            events: self.events.deep_view(),
        }
    }
}

impl View for Panpot {
    type V = PanpotView;

    open spec fn view(&self) -> PanpotView {
        self.deep_view()
    }
}

impl Panpot {
    /// A folded lane with one event: value 0 at tick 0.
    pub open spec fn spec_default() -> PanpotView {
        PanpotView {
            is_folded: true,
            height_bits: 0,
            events: seq![ControlChange { pos: 0, value: 0i64 }],
        }
    }
}

impl Default for Panpot {
    fn default() -> (r: Self)
        ensures
            r@ == Panpot::spec_default(),
    {
        let mut events: Vec<ControlChange> = Vec::new();
        events.push(ControlChange { pos: 0, value: 0 });
        Panpot { is_folded: true, height_bits: 0, events }
    }
}

/// A singer model: its component id, and where known its language id and display name.
#[derive(Clone, Debug, PartialEq)]
pub struct Voice {
    pub comp_id: String,
    pub lang_id: Option<i64>,
    pub name: Option<String>,
}

/// A singer model.
#[verifier::ext_equal]
pub struct VoiceView {
    pub comp_id: Seq<char>,
    pub lang_id: Option<i64>,
    pub name: Option<Seq<char>>,
}

impl DeepView for Voice {
    type V = VoiceView;

    open spec fn deep_view(&self) -> VoiceView {
        VoiceView {
            comp_id: self.comp_id.deep_view(),
            lang_id: self.lang_id.deep_view(),
            name: self.name.deep_view(),
        }
    }
}

impl View for Voice {
    type V = VoiceView;

    open spec fn view(&self) -> VoiceView {
        self.deep_view()
    }
}

/// A track. One of type 0 is a vocal track and carries sung notes.
#[derive(Clone, Debug, PartialEq)]
pub struct Track {
    pub track_type: i64,
    pub name: Option<String>,
    pub color: i64,
    pub bus_no: i64,
    pub is_folded: bool,
    /// The display height, as the bit pattern of a 64-bit float; 0 stands for 0.0.
    pub height_bits: u64,
    pub volume: Volume,
    pub panpot: Panpot,
    pub is_muted: bool,
    pub is_solo_mode: bool,
    pub parts: Vec<Part>,
}

/// A track.
#[verifier::ext_equal]
pub struct TrackView {
    pub track_type: i64,
    pub name: Option<Seq<char>>,
    pub color: i64,
    pub bus_no: i64,
    pub is_folded: bool,
    pub height_bits: u64,
    pub volume: VolumeView,
    pub panpot: PanpotView,
    pub is_muted: bool,
    pub is_solo_mode: bool,
    pub parts: Seq<PartView>,
}

impl DeepView for Track {
    type V = TrackView;

    open spec fn deep_view(&self) -> TrackView {
        TrackView {
            track_type: self.track_type.deep_view(),
            name: self.name.deep_view(),
            color: self.color.deep_view(),
            bus_no: self.bus_no.deep_view(),
            is_folded: self.is_folded.deep_view(),
            height_bits: self.height_bits.deep_view(),
            volume: self.volume.deep_view(),
            panpot: self.panpot.deep_view(),
            is_muted: self.is_muted.deep_view(),
            is_solo_mode: self.is_solo_mode.deep_view(),
            parts: self.parts.deep_view(),
        }
    }
}

impl View for Track {
    type V = TrackView;

    open spec fn view(&self) -> TrackView {
        self.deep_view()
    }
}

/// A clip on a track: where it starts, how long it is, who sings it, and its notes.
#[derive(Clone, Debug, PartialEq)]
pub struct Part {
    pub name: Option<String>,
    pub pos: u64,
    pub duration: u64,
    pub style_name: String,
    /// The voice of the part; its component id names an entry of the project's voices.
    pub voice: Voice,
    pub midi_effects: Vec<MidiEffect>,
    pub notes: Vec<Note>,
}

/// A part of a track.
#[verifier::ext_equal]
pub struct PartView {
    pub name: Option<Seq<char>>,
    pub pos: u64,
    pub duration: u64,
    pub style_name: Seq<char>,
    pub voice: VoiceView,
    pub midi_effects: Seq<MidiEffectView>,
    pub notes: Seq<NoteView>,
}

impl DeepView for Part {
    type V = PartView;

    open spec fn deep_view(&self) -> PartView {
        PartView {
            name: self.name.deep_view(),
            pos: self.pos.deep_view(),
            duration: self.duration.deep_view(),
            style_name: self.style_name.deep_view(),
            voice: self.voice.deep_view(),
            midi_effects: self.midi_effects.deep_view(),
            notes: self.notes.deep_view(),
        }
    }
}

impl View for Part {
    type V = PartView;

    open spec fn view(&self) -> PartView {
        self.deep_view()
    }
}

/// An effect on the notes of a part.
#[derive(Clone, Debug, PartialEq)]
pub struct MidiEffect {
    pub id: String,
    pub is_bypassed: bool,
    pub is_folded: bool,
    pub parameters: Vec<Parameter>,
}

/// An effect on the notes of a part.
#[verifier::ext_equal]
pub struct MidiEffectView {
    pub id: Seq<char>,
    pub is_bypassed: bool,
    pub is_folded: bool,
    pub parameters: Seq<ParameterView>,
}

impl DeepView for MidiEffect {
    type V = MidiEffectView;

    open spec fn deep_view(&self) -> MidiEffectView {
        MidiEffectView {
            id: self.id.deep_view(),
            is_bypassed: self.is_bypassed.deep_view(),
            is_folded: self.is_folded.deep_view(),
            parameters: self.parameters.deep_view(),
        }
    }
}

impl View for MidiEffect {
    type V = MidiEffectView;

    open spec fn view(&self) -> MidiEffectView {
        self.deep_view()
    }
}

/// A named setting of an effect. The value is carried as the JSON value that it was read as.
#[derive(Clone, Debug, PartialEq)]
pub struct Parameter {
    pub name: String,
    pub value: serde_json::Value,
}

/// A named setting of an effect.
#[verifier::ext_equal]
pub struct ParameterView {
    pub name: Seq<char>,
    pub value: serde_json::Value,
}

impl DeepView for Parameter {
    type V = ParameterView;

    open spec fn deep_view(&self) -> ParameterView {
        ParameterView {
            name: self.name.deep_view(),
            value: self.value,
        }
    }
}

impl View for Parameter {
    type V = ParameterView;

    open spec fn view(&self) -> ParameterView {
        self.deep_view()
    }
}

/// A note: tick, length, pitch, velocity, lyric, phonemes and ornaments.
#[derive(Clone, Debug, PartialEq)]
pub struct Note {
    pub lyric: String,
    pub phoneme: String,
    pub is_protected: bool,
    pub pos: i64,
    pub duration: u64,
    pub number: i64,
    pub velocity: u8,
    pub exp: std::collections::HashMap<String, i64>,
    pub singing_skill: Option<SingingSkill>,
    pub vibrato: Vibrato,
}

/// A note.
#[verifier::ext_equal]
pub struct NoteView {
    pub lyric: Seq<char>,
    pub phoneme: Seq<char>,
    pub is_protected: bool,
    pub pos: i64,
    pub duration: u64,
    pub number: i64,
    pub velocity: u8,
    pub exp: Map<Seq<char>, i64>,
    pub singing_skill: Option<SingingSkill>,
    pub vibrato: Vibrato,
}

impl DeepView for Note {
    type V = NoteView;

    open spec fn deep_view(&self) -> NoteView {
        NoteView {
            lyric: self.lyric.deep_view(),
            phoneme: self.phoneme.deep_view(),
            is_protected: self.is_protected.deep_view(),
            pos: self.pos.deep_view(),
            duration: self.duration.deep_view(),
            number: self.number.deep_view(),
            velocity: self.velocity.deep_view(),
            exp: self.exp.deep_view(),
            singing_skill: self.singing_skill.deep_view(),
            vibrato: self.vibrato.deep_view(),
        }
    }
}

impl View for Note {
    type V = NoteView;

    open spec fn view(&self) -> NoteView {
        self.deep_view()
    }
}

/// How a note leans on its neighbours.
#[derive(Clone, Debug, PartialEq)]
pub struct SingingSkill {
    pub duration: i64,
    pub weight: SkillWeight,
}

impl DeepView for SingingSkill {
    type V = SingingSkill;

    open spec fn deep_view(&self) -> SingingSkill {
        *self
    }
}

impl View for SingingSkill {
    type V = SingingSkill;

    open spec fn view(&self) -> SingingSkill {
        *self
    }
}

/// The balance of a note before and after its start.
#[derive(Clone, Debug, PartialEq)]
pub struct SkillWeight {
    pub pre: i64,
    pub post: i64,
}

impl DeepView for SkillWeight {
    type V = SkillWeight;

    open spec fn deep_view(&self) -> SkillWeight {
        *self
    }
}

impl View for SkillWeight {
    type V = SkillWeight;

    open spec fn view(&self) -> SkillWeight {
        *self
    }
}

/// The vibrato of a note; type 0 is none.
#[derive(Clone, Debug, PartialEq)]
pub struct Vibrato {
    pub vibrato_type: i64,
    pub duration: i64,
}

impl DeepView for Vibrato {
    type V = Vibrato;

    open spec fn deep_view(&self) -> Vibrato {
        *self
    }
}

impl View for Vibrato {
    type V = Vibrato;

    open spec fn view(&self) -> Vibrato {
        *self
    }
}

/// An automation event: a tick and a value.
#[derive(Clone, Debug, PartialEq)]
pub struct ControlChange<T = i64> {
    pub pos: i64,
    pub value: T,
}

impl DeepView for ControlChange<i64> {
    type V = ControlChange<i64>;

    open spec fn deep_view(&self) -> ControlChange<i64> {
        *self
    }
}

impl View for ControlChange<i64> {
    type V = ControlChange<i64>;

    open spec fn view(&self) -> ControlChange<i64> {
        *self
    }
}

impl PartView {
    /// Whether the voice of the part is one of `voices`, by its component id,
    /// and no note of the part starts before tick 0.
    pub open spec fn well_formed(self, voices: Seq<VoiceView>) -> bool {
        &&& exists|k: int| 0 <= k < voices.len() && (#[trigger] voices[k]).comp_id == self.voice.comp_id
        &&& forall|k: int| 0 <= k < self.notes.len() ==> 0 <= (#[trigger] self.notes[k]).pos
    }
}

impl MasterTrackView {
    /// Whether the tempo changes and the time-signature changes each stand in
    /// the order of their positions.
    pub open spec fn ordered(self) -> bool {
        &&& forall|i: int, j: int|
            0 <= i <= j < self.tempo.events.len() ==> (#[trigger] self.tempo.events[i]).pos <= (
            #[trigger] self.tempo.events[j]).pos
        &&& forall|i: int, j: int|
            0 <= i <= j < self.time_sig.events.len() ==> (#[trigger] self.time_sig.events[i]).bar
                <= (#[trigger] self.time_sig.events[j]).bar
    }
}

impl VprView {
    /// Whether the project keeps to what the format takes for granted: the
    /// changes of the master track stand in order, and every part is well
    /// formed. Nothing enforces this of a project that was read from a file.
    pub open spec fn well_formed(self) -> bool {
        &&& self.master_track.ordered()
        &&& forall|i: int, j: int|
            0 <= i < self.tracks.len() && 0 <= j < self.tracks[i].parts.len() ==> (
            #[trigger] self.tracks[i].parts[j]).well_formed(self.voices)
    }
}

} // verus!
