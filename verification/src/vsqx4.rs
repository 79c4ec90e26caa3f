//! The XML project format of the fourth editor generation.

use crate::dialect::{
    relabel_all, Relabel, AuxView, ControlChangeView, MasterTrackView, MasterUnitView, MixerView,
    MonoUnitView, NoteView, SingerView, StereoUnitView, StyleKeyView, StylePluginView, StyleView,
    TempoView, TimeSignatureView, VoiceParametersView, VoiceTableView, VoiceView, VsPartView,
    VsTrackView, VsUnitView, VsqxView,
};
use crate::error::ConvertError;
use crate::vsqx3;
use crate::write_xml::{node_element, WriteXml};
use vstd::prelude::*;
use vstd::std_specs::convert::FromSpecImpl;
use vstd::string::StringExecFns;

pub mod serializer;

verus! {

/// A project of the fourth editor generation.
///
/// The first three fields are the attributes of the root element; `version`
/// and `vender` are its first two children.
#[derive(Clone, Debug, PartialEq)]
pub struct Vsqx4 {
    pub xmlns: String,
    pub xmlns_xsi: String,
    pub xsi_schema_location: String,
    pub version: String,
    pub vender: String,
    pub voice_table: VoiceTable,
    pub mixer: Mixer,
    pub master_track: MasterTrack,
    pub vs_track: Vec<VsTrack>,
    pub mono_track: MonoTrack,
    pub stereo_track: StereoTrack,
    pub aux: Vec<Aux>,
}

impl DeepView for Vsqx4 {
    type V = VsqxView;

    open spec fn deep_view(&self) -> VsqxView {
        VsqxView {
            xmlns: self.xmlns.deep_view(),
            xmlns_xsi: self.xmlns_xsi.deep_view(),
            xsi_schema_location: self.xsi_schema_location.deep_view(),
            version: self.version.deep_view(),
            vender: self.vender.deep_view(),
            voice_table: self.voice_table.deep_view(),
            mixer: self.mixer.deep_view(),
            master_track: self.master_track.deep_view(),
            vs_track: self.vs_track.deep_view(),
            aux: self.aux.deep_view(),
        }
    }
}

impl View for Vsqx4 {
    type V = VsqxView;

    open spec fn view(&self) -> VsqxView {
        self.deep_view()
    }
}

impl Vsqx4 {
    /// A project under the header strings of this dialect: the two namespaces,
    /// the schema location and the version are those of the fourth generation,
    /// all else is as in `v`.
    pub open spec fn spec_headed(v: VsqxView) -> VsqxView {
        VsqxView {
            xmlns: "http://www.yamaha.co.jp/vocaloid/schema/vsq4/"@,
            xmlns_xsi: "http://www.w3.org/2001/XMLSchema-instance"@,
            xsi_schema_location: "http://www.yamaha.co.jp/vocaloid/schema/vsq4/ vsq4.xsd"@,
            version: "4.0.0.3"@,
            ..v
        }
    }

    /// An empty project: the stock voice, an untitled master track, no track.
    pub open spec fn spec_default() -> VsqxView {
        VsqxView {
            xmlns: "http://www.yamaha.co.jp/vocaloid/schema/vsq4/"@,
            xmlns_xsi: "http://www.w3.org/2001/XMLSchema-instance"@,
            xsi_schema_location: "http://www.yamaha.co.jp/vocaloid/schema/vsq4/ vsq4.xsd"@,
            version: "4.0.0.3"@,
            vender: "Yamaha corporation"@,
            voice_table: VoiceTable::spec_default(),
            mixer: Mixer::spec_default(),
            master_track: MasterTrack::spec_default(),
            vs_track: Seq::empty(),
            aux: Seq::empty(),
        }
    }

    /// The document of the project: the XML declaration, a line break, and the
    /// root element `vsq4`.
    pub open spec fn spec_document(&self) -> Seq<char> {
        "<?xml version=\"1.0\" encoding=\"UTF-8\" standalone=\"no\"?>"@ + "\n"@
            + node_element("vsq4"@, self)
    }

    /// Writes the project as a document. Nothing can fail while the text is
    /// built in memory, so the result is always `Ok`.
    pub fn to_string(&self) -> (r: Result<String, ConvertError>)
        ensures
            r matches Ok(s) && s@ == self.spec_document(),
    {
        let mut out = String::new();
        out.append("<?xml version=\"1.0\" encoding=\"UTF-8\" standalone=\"no\"?>");
        out.append("\n");
        self.tagged(&mut out, "vsq4");
        Ok(out)
    }
}

impl Default for Vsqx4 {
    fn default() -> (r: Self)
        ensures
            r@ == Vsqx4::spec_default(),
    {
        Vsqx4 {
            xmlns: _vsqx4_default_xmlns(),
            xmlns_xsi: _vsqx4_default_xmlns_xsi(),
            xsi_schema_location: _vsqx4_default_xsi_schema_location(),
            version: _vsqx4_default_version(),
            vender: _vsqx4_default_vendor(),
            voice_table: VoiceTable::default(),
            mixer: Mixer::default(),
            master_track: MasterTrack::default(),
            vs_track: Vec::new(),
            mono_track: MonoTrack::default(),
            stereo_track: StereoTrack::default(),
            aux: Vec::new(),
        }
    }
}

/// The bridge from the other dialect: every field is copied, and the four
/// header strings are set to those of this one. The vendor string stays.
impl From<vsqx3::Vsqx3> for Vsqx4 {
    fn from(v: vsqx3::Vsqx3) -> (r: Self)
        ensures
            r@ == Vsqx4::spec_headed(v@),
    {
        Vsqx4 {
            xmlns: _vsqx4_default_xmlns(),
            xmlns_xsi: _vsqx4_default_xmlns_xsi(),
            xsi_schema_location: _vsqx4_default_xsi_schema_location(),
            version: _vsqx4_default_version(),
            vender: v.vender.clone(),
            voice_table: v.voice_table.relabel(),
            mixer: v.mixer.relabel(),
            master_track: v.master_track.relabel(),
            vs_track: relabel_all(&v.vs_track),
            mono_track: MonoTrack {},
            stereo_track: StereoTrack {},
            aux: relabel_all(&v.aux),
        }
    }
}

impl FromSpecImpl<vsqx3::Vsqx3> for Vsqx4 {
    /// The bridge is stated over views, in the `ensures` of `from`: two
    /// records with one view need not be one value.
    open spec fn obeys_from_spec() -> bool {
        false
    }

    open spec fn from_spec(v: vsqx3::Vsqx3) -> Self {
        arbitrary()
    }
}

/// The table of singer models that parts refer to.
#[derive(Clone, Debug, PartialEq)]
pub struct VoiceTable {
    pub voices: Vec<Voice>,
}

impl DeepView for VoiceTable {
    type V = VoiceTableView;

    open spec fn deep_view(&self) -> VoiceTableView {
        VoiceTableView {
            voices: self.voices.deep_view(),
        }
    }
}

impl View for VoiceTable {
    type V = VoiceTableView;

    open spec fn view(&self) -> VoiceTableView {
        self.deep_view()
    }
}

impl VoiceTable {
    /// A fresh table holds the one stock voice.
    pub open spec fn spec_default() -> VoiceTableView {
        VoiceTableView {
            voices: seq![Voice::spec_default()],
        }
    }
}

impl Default for VoiceTable {
    fn default() -> (r: Self)
        ensures
            r@ == VoiceTable::spec_default(),
    {
        let mut voices: Vec<Voice> = Vec::new();
        voices.push(Voice::default());
        VoiceTable {
            voices,
        }
    }
}

impl Relabel<vsqx3::VoiceTable> for VoiceTable {
    fn relabel(&self) -> (r: vsqx3::VoiceTable) {
        vsqx3::VoiceTable {
            voices: relabel_all(&self.voices),
        }
    }
}

/// One singer model: bank and program numbers, component id, display name, timbre.
#[derive(Clone, Debug, PartialEq)]
pub struct Voice {
    pub bs: i64,
    pub pc: i64,
    pub id: String,
    pub name: String,
    pub parameters: VoiceParameters,
}

impl DeepView for Voice {
    type V = VoiceView;

    open spec fn deep_view(&self) -> VoiceView {
        VoiceView {
            bs: self.bs.deep_view(),
            pc: self.pc.deep_view(),
            id: self.id.deep_view(),
            name: self.name.deep_view(),
            parameters: self.parameters.deep_view(),
        }
    }
}

impl View for Voice {
    type V = VoiceView;

    open spec fn view(&self) -> VoiceView {
        self.deep_view()
    }
}

impl Voice {
    /// The stock voice.
    pub open spec fn spec_default() -> VoiceView {
        VoiceView {
            bs: 0,
            pc: 0,
            id: "BHHN4EF9BRWTNHAB"@,
            name: "Miku(V2)"@,
            parameters: VoiceParameters::spec_default(),
        }
    }
}

impl Default for Voice {
    fn default() -> (r: Self)
        ensures
            r@ == Voice::spec_default(),
    {
        Voice {
            bs: 0,
            pc: 0,
            id: String::from_str("BHHN4EF9BRWTNHAB"),
            name: String::from_str("Miku(V2)"),
            parameters: VoiceParameters::default(),
        }
    }
}

impl Relabel<vsqx3::Voice> for Voice {
    fn relabel(&self) -> (r: vsqx3::Voice) {
        vsqx3::Voice {
            bs: self.bs,
            pc: self.pc,
            id: self.id.clone(),
            name: self.name.clone(),
            parameters: self.parameters.relabel(),
        }
    }
}

/// Timbre settings of one voice.
#[derive(Clone, Debug, PartialEq)]
pub struct VoiceParameters {
    pub breathiness: i64,
    pub brightness: i64,
    pub clearness: i64,
    pub gender: i64,
    pub openness: i64,
}

impl DeepView for VoiceParameters {
    type V = VoiceParametersView;

    open spec fn deep_view(&self) -> VoiceParametersView {
        VoiceParametersView {
            breathiness: self.breathiness.deep_view(),
            brightness: self.brightness.deep_view(),
            clearness: self.clearness.deep_view(),
            gender: self.gender.deep_view(),
            openness: self.openness.deep_view(),
        }
    }
}

impl View for VoiceParameters {
    type V = VoiceParametersView;

    open spec fn view(&self) -> VoiceParametersView {
        self.deep_view()
    }
}

impl VoiceParameters {
    /// Every setting at zero.
    pub open spec fn spec_default() -> VoiceParametersView {
        VoiceParametersView {
            breathiness: 0,
            brightness: 0,
            clearness: 0,
            gender: 0,
            openness: 0,
        }
    }
}

impl Default for VoiceParameters {
    fn default() -> (r: Self)
        ensures
            r@ == VoiceParameters::spec_default(),
    {
        VoiceParameters {
            breathiness: 0,
            brightness: 0,
            clearness: 0,
            gender: 0,
            openness: 0,
        }
    }
}

impl Relabel<vsqx3::VoiceParameters> for VoiceParameters {
    fn relabel(&self) -> (r: vsqx3::VoiceParameters) {
        vsqx3::VoiceParameters {
            breathiness: self.breathiness,
            brightness: self.brightness,
            clearness: self.clearness,
            gender: self.gender,
            openness: self.openness,
        }
    }
}

/// The mixer: one master unit and the units of each kind of track.
#[derive(Clone, Debug, PartialEq)]
pub struct Mixer {
    pub master_unit: MasterUnit,
    pub vs_unit: Vec<VsUnit>,
    pub mono_unit: Vec<MonoUnit>,
    pub stereo_unit: Vec<StereoUnit>,
}

impl DeepView for Mixer {
    type V = MixerView;

    open spec fn deep_view(&self) -> MixerView {
        MixerView {
            master_unit: self.master_unit.deep_view(),
            vs_unit: self.vs_unit.deep_view(),
            mono_unit: self.mono_unit.deep_view(),
            stereo_unit: self.stereo_unit.deep_view(),
        }
    }
}

impl View for Mixer {
    type V = MixerView;

    open spec fn view(&self) -> MixerView {
        self.deep_view()
    }
}

impl Mixer {
    /// A master unit at zero and no other unit.
    pub open spec fn spec_default() -> MixerView {
        MixerView {
            master_unit: MasterUnit::spec_default(),
            vs_unit: Seq::empty(),
            mono_unit: Seq::empty(),
            stereo_unit: Seq::empty(),
        }
    }
}

impl Default for Mixer {
    fn default() -> (r: Self)
        ensures
            r@ == Mixer::spec_default(),
    {
        Mixer {
            master_unit: MasterUnit::default(),
            vs_unit: Vec::new(),
            mono_unit: Vec::new(),
            stereo_unit: Vec::new(),
        }
    }
}

impl Relabel<vsqx3::Mixer> for Mixer {
    fn relabel(&self) -> (r: vsqx3::Mixer) {
        vsqx3::Mixer {
            master_unit: self.master_unit.relabel(),
            vs_unit: relabel_all(&self.vs_unit),
            se_unit: relabel_all(&self.mono_unit),
            karaoke_unit: relabel_all(&self.stereo_unit),
        }
    }
}

/// The master unit of the mixer.
#[derive(Clone, Debug, PartialEq)]
pub struct MasterUnit {
    pub output_device: i64,
    pub return_level: i64,
    pub volume: i64,
}

impl DeepView for MasterUnit {
    type V = MasterUnitView;

    open spec fn deep_view(&self) -> MasterUnitView {
        MasterUnitView {
            output_device: self.output_device.deep_view(),
            return_level: self.return_level.deep_view(),
            volume: self.volume.deep_view(),
        }
    }
}

impl View for MasterUnit {
    type V = MasterUnitView;

    open spec fn view(&self) -> MasterUnitView {
        self.deep_view()
    }
}

impl MasterUnit {
    /// Every setting at zero.
    pub open spec fn spec_default() -> MasterUnitView {
        MasterUnitView {
            output_device: 0,
            return_level: 0,
            volume: 0,
        }
    }
}

impl Default for MasterUnit {
    fn default() -> (r: Self)
        ensures
            r@ == MasterUnit::spec_default(),
    {
        MasterUnit {
            output_device: 0,
            return_level: 0,
            volume: 0,
        }
    }
}

impl Relabel<vsqx3::MasterUnit> for MasterUnit {
    fn relabel(&self) -> (r: vsqx3::MasterUnit) {
        vsqx3::MasterUnit {
            output_device: self.output_device,
            return_level: self.return_level,
            volume: self.volume,
        }
    }
}

/// The mixer unit of one vocal track.
#[derive(Clone, Debug, PartialEq)]
pub struct VsUnit {
    pub track_no: i64,
    pub input_gain: i64,
    pub send_level: i64,
    pub is_send_enabled: i64,
    pub mute: i64,
    pub solo: i64,
    pub pan: i64,
    pub volume: i64,
}

impl DeepView for VsUnit {
    type V = VsUnitView;

    open spec fn deep_view(&self) -> VsUnitView {
        VsUnitView {
            track_no: self.track_no.deep_view(),
            input_gain: self.input_gain.deep_view(),
            send_level: self.send_level.deep_view(),
            is_send_enabled: self.is_send_enabled.deep_view(),
            mute: self.mute.deep_view(),
            solo: self.solo.deep_view(),
            pan: self.pan.deep_view(),
            volume: self.volume.deep_view(),
        }
    }
}

impl View for VsUnit {
    type V = VsUnitView;

    open spec fn view(&self) -> VsUnitView {
        self.deep_view()
    }
}

impl VsUnit {
    /// The unit of track 0: send level -898, centre pan, all else zero.
    pub open spec fn spec_default() -> VsUnitView {
        VsUnitView {
            track_no: 0,
            input_gain: 0,
            send_level: -898i64,
            is_send_enabled: 0,
            mute: 0,
            solo: 0,
            pan: 64,
            volume: 0,
        }
    }
}

impl Default for VsUnit {
    fn default() -> (r: Self)
        ensures
            r@ == VsUnit::spec_default(),
    {
        VsUnit {
            track_no: 0,
            input_gain: 0,
            send_level: -898,
            is_send_enabled: 0,
            mute: 0,
            solo: 0,
            pan: 64,
            volume: 0,
        }
    }
}

impl Relabel<vsqx3::VsUnit> for VsUnit {
    fn relabel(&self) -> (r: vsqx3::VsUnit) {
        vsqx3::VsUnit {
            track_no: self.track_no,
            input_gain: self.input_gain,
            send_level: self.send_level,
            is_send_enabled: self.is_send_enabled,
            mute: self.mute,
            solo: self.solo,
            pan: self.pan,
            volume: self.volume,
        }
    }
}

/// The mixer unit of the mono track.
#[derive(Clone, Debug, PartialEq)]
pub struct MonoUnit {
    pub input_gain: i64,
    pub send_level: i64,
    pub is_send_enabled: i64,
    pub mute: i64,
    pub solo: i64,
    pub pan: i64,
    pub volume: i64,
}

impl DeepView for MonoUnit {
    type V = MonoUnitView;

    open spec fn deep_view(&self) -> MonoUnitView {
        MonoUnitView {
            input_gain: self.input_gain.deep_view(),
            send_level: self.send_level.deep_view(),
            is_send_enabled: self.is_send_enabled.deep_view(),
            mute: self.mute.deep_view(),
            solo: self.solo.deep_view(),
            pan: self.pan.deep_view(),
            volume: self.volume.deep_view(),
        }
    }
}

impl View for MonoUnit {
    type V = MonoUnitView;

    open spec fn view(&self) -> MonoUnitView {
        self.deep_view()
    }
}

impl MonoUnit {
    /// Send level -898, centre pan, all else zero.
    pub open spec fn spec_default() -> MonoUnitView {
        MonoUnitView {
            input_gain: 0,
            send_level: -898i64,
            is_send_enabled: 0,
            mute: 0,
            solo: 0,
            pan: 64,
            volume: 0,
        }
    }
}

impl Default for MonoUnit {
    fn default() -> (r: Self)
        ensures
            r@ == MonoUnit::spec_default(),
    {
        MonoUnit {
            input_gain: 0,
            send_level: -898,
            is_send_enabled: 0,
            mute: 0,
            solo: 0,
            pan: 64,
            volume: 0,
        }
    }
}

impl Relabel<vsqx3::SeUnit> for MonoUnit {
    fn relabel(&self) -> (r: vsqx3::SeUnit) {
        vsqx3::SeUnit {
            input_gain: self.input_gain,
            send_level: self.send_level,
            is_send_enabled: self.is_send_enabled,
            mute: self.mute,
            solo: self.solo,
            pan: self.pan,
            volume: self.volume,
        }
    }
}

/// The mixer unit of the stereo track.
#[derive(Clone, Debug, PartialEq)]
pub struct StereoUnit {
    pub input_gain: i64,
    pub mute: i64,
    pub solo: i64,
    pub volume: i64,
}

impl DeepView for StereoUnit {
    type V = StereoUnitView;

    open spec fn deep_view(&self) -> StereoUnitView {
        StereoUnitView {
            input_gain: self.input_gain.deep_view(),
            mute: self.mute.deep_view(),
            solo: self.solo.deep_view(),
            volume: self.volume.deep_view(),
        }
    }
}

impl View for StereoUnit {
    type V = StereoUnitView;

    open spec fn view(&self) -> StereoUnitView {
        self.deep_view()
    }
}

impl StereoUnit {
    /// Every setting at zero.
    pub open spec fn spec_default() -> StereoUnitView {
        StereoUnitView {
            input_gain: 0,
            mute: 0,
            solo: 0,
            volume: 0,
        }
    }
}

impl Default for StereoUnit {
    fn default() -> (r: Self)
        ensures
            r@ == StereoUnit::spec_default(),
    {
        StereoUnit {
            input_gain: 0,
            mute: 0,
            solo: 0,
            volume: 0,
        }
    }
}

impl Relabel<vsqx3::KaraokeUnit> for StereoUnit {
    fn relabel(&self) -> (r: vsqx3::KaraokeUnit) {
        vsqx3::KaraokeUnit {
            input_gain: self.input_gain,
            mute: self.mute,
            solo: self.solo,
            volume: self.volume,
        }
    }
}

/// Sequence name, resolution, lead-in, and the time-signature and tempo changes.
#[derive(Clone, Debug, PartialEq)]
pub struct MasterTrack {
    pub name: String,
    pub comment: String,
    pub resolution: i64,
    pub pre_measure: i64,
    pub time_signatures: Vec<TimeSignature>,
    pub tempos: Vec<Tempo>,
}

impl DeepView for MasterTrack {
    type V = MasterTrackView;

    open spec fn deep_view(&self) -> MasterTrackView {
        MasterTrackView {
            name: self.name.deep_view(),
            comment: self.comment.deep_view(),
            resolution: self.resolution.deep_view(),
            pre_measure: self.pre_measure.deep_view(),
            time_signatures: self.time_signatures.deep_view(),
            tempos: self.tempos.deep_view(),
        }
    }
}

impl View for MasterTrack {
    type V = MasterTrackView;

    open spec fn view(&self) -> MasterTrackView {
        self.deep_view()
    }
}

impl MasterTrack {
    /// An untitled sequence at 480 ticks per quarter note, in 4/4 at 120 BPM.
    pub open spec fn spec_default() -> MasterTrackView {
        MasterTrackView {
            name: "Untitled"@,
            comment: ""@,
            resolution: 480,
            pre_measure: 0,
            time_signatures: seq![TimeSignature::spec_default()],
            tempos: seq![Tempo::spec_default()],
        }
    }
}

impl Default for MasterTrack {
    fn default() -> (r: Self)
        ensures
            r@ == MasterTrack::spec_default(),
    {
        let mut time_signatures: Vec<TimeSignature> = Vec::new();
        time_signatures.push(TimeSignature::default());
        let mut tempos: Vec<Tempo> = Vec::new();
        tempos.push(Tempo::default());
        MasterTrack {
            name: String::from_str("Untitled"),
            comment: String::from_str(""),
            resolution: 480,
            pre_measure: 0,
            time_signatures,
            tempos,
        }
    }
}

impl Relabel<vsqx3::MasterTrack> for MasterTrack {
    fn relabel(&self) -> (r: vsqx3::MasterTrack) {
        vsqx3::MasterTrack {
            name: self.name.clone(),
            comment: self.comment.clone(),
            resolution: self.resolution,
            pre_measure: self.pre_measure,
            time_signatures: relabel_all(&self.time_signatures),
            tempos: relabel_all(&self.tempos),
        }
    }
}

/// A time-signature change at a measure.
#[derive(Clone, Debug, PartialEq)]
pub struct TimeSignature {
    pub position: i64,
    pub numerator: i64,
    pub denominator: i64,
}

impl DeepView for TimeSignature {
    type V = TimeSignatureView;

    open spec fn deep_view(&self) -> TimeSignatureView {
        TimeSignatureView {
            position: self.position.deep_view(),
            numerator: self.numerator.deep_view(),
            denominator: self.denominator.deep_view(),
        }
    }
}

impl View for TimeSignature {
    type V = TimeSignatureView;

    open spec fn view(&self) -> TimeSignatureView {
        self.deep_view()
    }
}

impl TimeSignature {
    /// 4/4 from the first measure.
    pub open spec fn spec_default() -> TimeSignatureView {
        TimeSignatureView {
            position: 0,
            numerator: 4,
            denominator: 4,
        }
    }
}

impl Default for TimeSignature {
    fn default() -> (r: Self)
        ensures
            r@ == TimeSignature::spec_default(),
    {
        TimeSignature {
            position: 0,
            numerator: 4,
            denominator: 4,
        }
    }
}

impl Relabel<vsqx3::TimeSignature> for TimeSignature {
    fn relabel(&self) -> (r: vsqx3::TimeSignature) {
        vsqx3::TimeSignature {
            position: self.position,
            numerator: self.numerator,
            denominator: self.denominator,
        }
    }
}

/// A tempo change at a tick; the value is BPM times 100.
#[derive(Clone, Debug, PartialEq)]
pub struct Tempo {
    pub position: i64,
    pub value: i64,
}

impl DeepView for Tempo {
    type V = TempoView;

    open spec fn deep_view(&self) -> TempoView {
        TempoView {
            position: self.position.deep_view(),
            value: self.value.deep_view(),
        }
    }
}

impl View for Tempo {
    type V = TempoView;

    open spec fn view(&self) -> TempoView {
        self.deep_view()
    }
}

impl Tempo {
    /// 120 BPM from tick 0.
    pub open spec fn spec_default() -> TempoView {
        TempoView {
            position: 0,
            value: 12000,
        }
    }
}

impl Default for Tempo {
    fn default() -> (r: Self)
        ensures
            r@ == Tempo::spec_default(),
    {
        Tempo {
            position: 0,
            value: 12000,
        }
    }
}

impl Relabel<vsqx3::Tempo> for Tempo {
    fn relabel(&self) -> (r: vsqx3::Tempo) {
        vsqx3::Tempo {
            position: self.position,
            value: self.value,
        }
    }
}

/// A vocal track: its number, name, comment and parts.
#[derive(Clone, Debug, PartialEq)]
pub struct VsTrack {
    pub track_no: i64,
    pub name: String,
    pub comment: String,
    pub parts: Vec<VsPart>,
}

impl DeepView for VsTrack {
    type V = VsTrackView;

    open spec fn deep_view(&self) -> VsTrackView {
        VsTrackView {
            track_no: self.track_no.deep_view(),
            name: self.name.deep_view(),
            comment: self.comment.deep_view(),
            parts: self.parts.deep_view(),
        }
    }
}

impl View for VsTrack {
    type V = VsTrackView;

    open spec fn view(&self) -> VsTrackView {
        self.deep_view()
    }
}

impl VsTrack {
    /// Track 0, named "Track", without parts.
    pub open spec fn spec_default() -> VsTrackView {
        VsTrackView {
            track_no: 0,
            name: "Track"@,
            comment: ""@,
            parts: Seq::empty(),
        }
    }
}

impl Default for VsTrack {
    fn default() -> (r: Self)
        ensures
            r@ == VsTrack::spec_default(),
    {
        VsTrack {
            track_no: 0,
            name: String::from_str("Track"),
            comment: String::from_str(""),
            parts: Vec::new(),
        }
    }
}

impl Relabel<vsqx3::VsTrack> for VsTrack {
    fn relabel(&self) -> (r: vsqx3::VsTrack) {
        vsqx3::VsTrack {
            track_no: self.track_no,
            name: self.name.clone(),
            comment: self.comment.clone(),
            parts: relabel_all(&self.parts),
        }
    }
}

/// A clip on a vocal track: where it starts, who sings it, and its notes.
#[derive(Clone, Debug, PartialEq)]
pub struct VsPart {
    pub position: i64,
    pub style_plugin: StylePlugin,
    pub play_time: Option<u64>,
    pub name: Option<String>,
    pub comment: Option<String>,
    pub style: Style,
    pub singers: Vec<Singer>,
    pub control_changes: Vec<ControlChange>,
    pub notes: Vec<Note>,
    pub plane: i64,
}

impl DeepView for VsPart {
    type V = VsPartView;

    open spec fn deep_view(&self) -> VsPartView {
        VsPartView {
            position: self.position.deep_view(),
            style_plugin: self.style_plugin.deep_view(),
            play_time: self.play_time.deep_view(),
            name: self.name.deep_view(),
            comment: self.comment.deep_view(),
            style: self.style.deep_view(),
            singers: self.singers.deep_view(),
            control_changes: self.control_changes.deep_view(),
            notes: self.notes.deep_view(),
            plane: self.plane.deep_view(),
        }
    }
}

impl View for VsPart {
    type V = VsPartView;

    open spec fn view(&self) -> VsPartView {
        self.deep_view()
    }
}

impl VsPart {
    /// An empty part at tick 0 with the stock style.
    pub open spec fn spec_default() -> VsPartView {
        VsPartView {
            position: 0,
            style_plugin: StylePlugin::spec_default(),
            play_time: None,
            name: None,
            comment: None,
            style: Style::spec_default(),
            singers: Seq::empty(),
            control_changes: Seq::empty(),
            notes: Seq::empty(),
            plane: 0,
        }
    }
}

impl Default for VsPart {
    fn default() -> (r: Self)
        ensures
            r@ == VsPart::spec_default(),
    {
        VsPart {
            position: 0,
            style_plugin: StylePlugin::default(),
            play_time: None,
            name: None,
            comment: None,
            style: Style::default(),
            singers: Vec::new(),
            control_changes: Vec::new(),
            notes: Vec::new(),
            plane: 0,
        }
    }
}

impl Relabel<vsqx3::VsPart> for VsPart {
    fn relabel(&self) -> (r: vsqx3::VsPart) {
        vsqx3::VsPart {
            position: self.position,
            style_plugin: self.style_plugin.relabel(),
            play_time: self.play_time,
            name: self.name.clone(),
            comment: self.comment.clone(),
            style: self.style.relabel(),
            singers: relabel_all(&self.singers),
            control_changes: relabel_all(&self.control_changes),
            notes: relabel_all(&self.notes),
            plane: self.plane,
        }
    }
}

/// An automation event: the lane it belongs to, its tick and its value.
#[derive(Clone, Debug, PartialEq)]
pub struct ControlChange<T = i64> {
    pub id: String,
    pub pos: i64,
    pub value: T,
}

impl DeepView for ControlChange<i64> {
    type V = ControlChangeView;

    open spec fn deep_view(&self) -> ControlChangeView {
        ControlChangeView {
            id: self.id.deep_view(),
            pos: self.pos.deep_view(),
            value: self.value.deep_view(),
        }
    }
}

impl View for ControlChange<i64> {
    type V = ControlChangeView;

    open spec fn view(&self) -> ControlChangeView {
        self.deep_view()
    }
}

impl Relabel<vsqx3::ControlChange<i64>> for ControlChange<i64> {
    fn relabel(&self) -> (r: vsqx3::ControlChange<i64>) {
        vsqx3::ControlChange {
            id: self.id.clone(),
            pos: self.pos,
            value: self.value,
        }
    }
}

/// The style plug-in that a part was made with.
#[derive(Clone, Debug, PartialEq)]
pub struct StylePlugin {
    pub id: String,
    pub name: String,
    pub version: String,
}

impl DeepView for StylePlugin {
    type V = StylePluginView;

    open spec fn deep_view(&self) -> StylePluginView {
        StylePluginView {
            id: self.id.deep_view(),
            name: self.name.deep_view(),
            version: self.version.deep_view(),
        }
    }
}

impl View for StylePlugin {
    type V = StylePluginView;

    open spec fn view(&self) -> StylePluginView {
        self.deep_view()
    }
}

impl StylePlugin {
    /// The stock compatibility style.
    pub open spec fn spec_default() -> StylePluginView {
        StylePluginView {
            id: "ACA9C502-A04B-42b5-B2EB-5CEA36D16FCE"@,
            name: "VOCALOID2 Compatible Style"@,
            version: "3.0.0.1"@,
        }
    }
}

impl Default for StylePlugin {
    fn default() -> (r: Self)
        ensures
            r@ == StylePlugin::spec_default(),
    {
        StylePlugin {
            id: String::from_str("ACA9C502-A04B-42b5-B2EB-5CEA36D16FCE"),
            name: String::from_str("VOCALOID2 Compatible Style"),
            version: String::from_str("3.0.0.1"),
        }
    }
}

impl Relabel<vsqx3::StylePlugin> for StylePlugin {
    fn relabel(&self) -> (r: vsqx3::StylePlugin) {
        vsqx3::StylePlugin {
            id: self.id.clone(),
            name: self.name.clone(),
            version: self.version.clone(),
        }
    }
}

/// A singer assignment inside a part: from which tick, and which voice by bank and program.
#[derive(Clone, Debug, PartialEq)]
pub struct Singer {
    pub position: i64,
    pub bs: i64,
    pub pc: i64,
}

impl DeepView for Singer {
    type V = SingerView;

    open spec fn deep_view(&self) -> SingerView {
        SingerView {
            position: self.position.deep_view(),
            bs: self.bs.deep_view(),
            pc: self.pc.deep_view(),
        }
    }
}

impl View for Singer {
    type V = SingerView;

    open spec fn view(&self) -> SingerView {
        self.deep_view()
    }
}

impl Relabel<vsqx3::Singer> for Singer {
    fn relabel(&self) -> (r: vsqx3::Singer) {
        vsqx3::Singer {
            position: self.position,
            bs: self.bs,
            pc: self.pc,
        }
    }
}

/// A note: tick, length, pitch, velocity, lyric, phonemes and style.
#[derive(Clone, Debug, PartialEq)]
pub struct Note {
    pub position: i64,
    pub duration: i64,
    pub note_num: i64,
    pub velocity: i64,
    pub lyric: String,
    pub phoneme: String,
    pub style: Style,
}

impl DeepView for Note {
    type V = NoteView;

    open spec fn deep_view(&self) -> NoteView {
        NoteView {
            position: self.position.deep_view(),
            duration: self.duration.deep_view(),
            note_num: self.note_num.deep_view(),
            velocity: self.velocity.deep_view(),
            lyric: self.lyric.deep_view(),
            phoneme: self.phoneme.deep_view(),
            style: self.style.deep_view(),
        }
    }
}

impl View for Note {
    type V = NoteView;

    open spec fn view(&self) -> NoteView {
        self.deep_view()
    }
}

impl Note {
    /// A note of no length singing "a" on A5 at velocity 64, in the stock style.
    pub open spec fn spec_default() -> NoteView {
        NoteView {
            position: 0,
            duration: 0,
            note_num: 81,
            velocity: 64,
            lyric: "\u{3042}"@,
            phoneme: "a"@,
            style: Style::spec_default(),
        }
    }
}

impl Default for Note {
    fn default() -> (r: Self)
        ensures
            r@ == Note::spec_default(),
    {
        Note {
            position: 0,
            duration: 0,
            note_num: 81,
            velocity: 64,
            lyric: String::from_str("\u{3042}"),
            phoneme: String::from_str("a"),
            style: Style::default(),
        }
    }
}

impl Relabel<vsqx3::Note> for Note {
    fn relabel(&self) -> (r: vsqx3::Note) {
        vsqx3::Note {
            position: self.position,
            duration: self.duration,
            note_num: self.note_num,
            velocity: self.velocity,
            lyric: self.lyric.clone(),
            phoneme: self.phoneme.clone(),
            style: self.style.relabel(),
        }
    }
}

/// A table of style attributes, each a key and a value.
#[derive(Clone, Debug, PartialEq)]
pub struct Style {
    pub styles: Vec<StyleKey>,
}

impl DeepView for Style {
    type V = StyleView;

    open spec fn deep_view(&self) -> StyleView {
        StyleView {
            styles: self.styles.deep_view(),
        }
    }
}

impl View for Style {
    type V = StyleView;

    open spec fn view(&self) -> StyleView {
        self.deep_view()
    }
}

impl Style {
    /// The nine stock attributes.
    pub open spec fn spec_default() -> StyleView {
        StyleView {
            styles: seq![
                StyleKeyView { id: "accent"@, value: 50 },
                StyleKeyView { id: "bendDep"@, value: 8 },
                StyleKeyView { id: "bendLen"@, value: 0 },
                StyleKeyView { id: "decay"@, value: 50 },
                StyleKeyView { id: "fallPort"@, value: 0 },
                StyleKeyView { id: "opening"@, value: 127 },
                StyleKeyView { id: "risePort"@, value: 0 },
                StyleKeyView { id: "vibLen"@, value: 0 },
                StyleKeyView { id: "vibType"@, value: 0 },
            ],
        }
    }
}

impl Default for Style {
    fn default() -> (r: Self)
        ensures
            r@ == Style::spec_default(),
    {
        let mut styles: Vec<StyleKey> = Vec::new();
        styles.push(StyleKey { id: String::from_str("accent"), value: 50 });
        styles.push(StyleKey { id: String::from_str("bendDep"), value: 8 });
        styles.push(StyleKey { id: String::from_str("bendLen"), value: 0 });
        styles.push(StyleKey { id: String::from_str("decay"), value: 50 });
        styles.push(StyleKey { id: String::from_str("fallPort"), value: 0 });
        styles.push(StyleKey { id: String::from_str("opening"), value: 127 });
        styles.push(StyleKey { id: String::from_str("risePort"), value: 0 });
        styles.push(StyleKey { id: String::from_str("vibLen"), value: 0 });
        styles.push(StyleKey { id: String::from_str("vibType"), value: 0 });
        Style { styles }
    }
}

impl Relabel<vsqx3::Style> for Style {
    fn relabel(&self) -> (r: vsqx3::Style) {
        vsqx3::Style {
            styles: relabel_all(&self.styles),
        }
    }
}

/// One style attribute.
#[derive(Clone, Debug, PartialEq)]
pub struct StyleKey {
    pub id: String,
    pub value: i64,
}

impl DeepView for StyleKey {
    type V = StyleKeyView;

    open spec fn deep_view(&self) -> StyleKeyView {
        StyleKeyView {
            id: self.id.deep_view(),
            value: self.value.deep_view(),
        }
    }
}

impl View for StyleKey {
    type V = StyleKeyView;

    open spec fn view(&self) -> StyleKeyView {
        self.deep_view()
    }
}

impl Relabel<vsqx3::StyleKey> for StyleKey {
    fn relabel(&self) -> (r: vsqx3::StyleKey) {
        vsqx3::StyleKey {
            id: self.id.clone(),
            value: self.value,
        }
    }
}

/// The mono track; nothing of it is kept.
#[derive(Clone, Debug, PartialEq)]
pub struct MonoTrack {}

impl DeepView for MonoTrack {
    type V = ();

    open spec fn deep_view(&self) -> () {
        ()
    }
}

impl View for MonoTrack {
    type V = ();

    open spec fn view(&self) -> () {
        ()
    }
}

impl Default for MonoTrack {
    fn default() -> (r: Self) {
        MonoTrack {}
    }
}

impl Relabel<vsqx3::SeTrack> for MonoTrack {
    fn relabel(&self) -> (r: vsqx3::SeTrack) {
        vsqx3::SeTrack {}
    }
}

/// The stereo track; nothing of it is kept.
#[derive(Clone, Debug, PartialEq)]
pub struct StereoTrack {}

impl DeepView for StereoTrack {
    type V = ();

    open spec fn deep_view(&self) -> () {
        ()
    }
}

impl View for StereoTrack {
    type V = ();

    open spec fn view(&self) -> () {
        ()
    }
}

impl Default for StereoTrack {
    fn default() -> (r: Self) {
        StereoTrack {}
    }
}

impl Relabel<vsqx3::KaraokeTrack> for StereoTrack {
    fn relabel(&self) -> (r: vsqx3::KaraokeTrack) {
        vsqx3::KaraokeTrack {}
    }
}

/// An auxiliary block, kept as it was read.
#[derive(Clone, Debug, PartialEq)]
pub struct Aux {
    pub id: String,
    pub content: String,
}

impl DeepView for Aux {
    type V = AuxView;

    open spec fn deep_view(&self) -> AuxView {
        AuxView {
            id: self.id.deep_view(),
            content: self.content.deep_view(),
        }
    }
}

impl View for Aux {
    type V = AuxView;

    open spec fn view(&self) -> AuxView {
        self.deep_view()
    }
}

impl Relabel<vsqx3::Aux> for Aux {
    fn relabel(&self) -> (r: vsqx3::Aux) {
        vsqx3::Aux {
            id: self.id.clone(),
            content: self.content.clone(),
        }
    }
}

/// The namespace of the dialect.
pub fn _vsqx4_default_xmlns() -> (r: String)
    ensures
        r@ == "http://www.yamaha.co.jp/vocaloid/schema/vsq4/"@,
{
    String::from_str("http://www.yamaha.co.jp/vocaloid/schema/vsq4/")
}

/// The namespace of XML Schema instances.
pub fn _vsqx4_default_xmlns_xsi() -> (r: String)
    ensures
        r@ == "http://www.w3.org/2001/XMLSchema-instance"@,
{
    String::from_str("http://www.w3.org/2001/XMLSchema-instance")
}

/// Where the schema of the dialect is found.
pub fn _vsqx4_default_xsi_schema_location() -> (r: String)
    ensures
        r@ == "http://www.yamaha.co.jp/vocaloid/schema/vsq4/ vsq4.xsd"@,
{
    String::from_str("http://www.yamaha.co.jp/vocaloid/schema/vsq4/ vsq4.xsd")
}

/// The version string of the dialect.
pub fn _vsqx4_default_version() -> (r: String)
    ensures
        r@ == "4.0.0.3"@,
{
    String::from_str("4.0.0.3")
}

/// The vendor that a document names where it says nothing else.
pub fn _vsqx4_default_vendor() -> (r: String)
    ensures
        r@ == "Yamaha corporation"@,
{
    String::from_str("Yamaha corporation")
}

} // verus!
