//! The XML project format of the third editor generation.

use crate::dialect::{
    relabel_all, Relabel, AuxView, ControlChangeView, MasterTrackView, MasterUnitView, MixerView,
    MonoUnitView, NoteView, SingerView, StereoUnitView, StyleKeyView, StylePluginView, StyleView,
    TempoView, TimeSignatureView, VoiceParametersView, VoiceTableView, VoiceView, VsPartView,
    VsTrackView, VsUnitView, VsqxView,
};
use crate::error::ConvertError;
use crate::vsqx4;
use crate::write_xml::{node_element, WriteXml};
use vstd::prelude::*;
use vstd::std_specs::convert::FromSpecImpl;
use vstd::string::StringExecFns;

pub mod serializer;

verus! {

/// A project of the third editor generation.
///
/// The first three fields are the attributes of the root element; `version`
/// and `vender` are its first two children.
#[derive(Clone, Debug, PartialEq)]
pub struct Vsqx3 {
    pub xmlns: String,
    pub xmlns_xsi: String,
    pub xsi_schema_location: String,
    pub version: String,
    pub vender: String,
    pub voice_table: VoiceTable,
    pub mixer: Mixer,
    pub master_track: MasterTrack,
    pub vs_track: Vec<VsTrack>,
    pub se_track: SeTrack,
    pub karaoke_track: KaraokeTrack,
    pub aux: Vec<Aux>,
}

impl DeepView for Vsqx3 {
    type V = VsqxView;

    open spec fn deep_view(&self) -> VsqxView {
        VsqxView {
            xmlns: self.xmlns.deep_view(),
            xmlns_xsi: self.xmlns_xsi.deep_view(),
            xsi_schema_location: self.xsi_schema_location.deep_view(),
            version: self.version.deep_view(),
            vender: self.vender.deep_view(),
            voice_table: self.voice_table.deep_view(),
            mixer: self.mixer.deep_view(),
            master_track: self.master_track.deep_view(),
            vs_track: self.vs_track.deep_view(),
            aux: self.aux.deep_view(),
        }
    }
}

impl View for Vsqx3 {
    type V = VsqxView;

    open spec fn view(&self) -> VsqxView {
        self.deep_view()
    }
}

impl Vsqx3 {
    /// A project under the header strings of this dialect: the two namespaces,
    /// the schema location and the version are those of the third generation,
    /// all else is as in `v`.
    pub open spec fn spec_headed(v: VsqxView) -> VsqxView {
        VsqxView {
            xmlns: "http://www.yamaha.co.jp/vocaloid/schema/vsq3/"@,
            xmlns_xsi: "http://www.w3.org/2001/XMLSchema-instance"@,
            xsi_schema_location: "http://www.yamaha.co.jp/vocaloid/schema/vsq3/ vsq3.xsd"@,
            version: "3.0.0.11"@,
            ..v
        }
    }

    /// The document of the project: the XML declaration, a line break, and the
    /// root element `vsq3`.
    pub open spec fn spec_document(&self) -> Seq<char> {
        "<?xml version=\"1.0\" encoding=\"UTF-8\" standalone=\"no\"?>"@ + "\n"@
            + node_element("vsq3"@, self)
    }

    /// Writes the project as a document. Nothing can fail while the text is
    /// built in memory, so the result is always `Ok`.
    pub fn to_string(&self) -> (r: Result<String, ConvertError>)
        ensures
            r matches Ok(s) && s@ == self.spec_document(),
    {
        let mut out = String::new();
        out.append("<?xml version=\"1.0\" encoding=\"UTF-8\" standalone=\"no\"?>");
        out.append("\n");
        self.tagged(&mut out, "vsq3");
        Ok(out)
    }
}

/// The bridge from the other dialect: every field is copied, and the four
/// header strings are set to those of this one. The vendor string stays.
impl From<vsqx4::Vsqx4> for Vsqx3 {
    fn from(v: vsqx4::Vsqx4) -> (r: Self)
        ensures
            r@ == Vsqx3::spec_headed(v@),
    {
        Vsqx3 {
            xmlns: _vsqx3_default_xmlns(),
            xmlns_xsi: _vsqx3_default_xmlns_xsi(),
            xsi_schema_location: _vsqx3_default_xsi_schema_location(),
            version: _vsqx3_default_version(),
            vender: v.vender.clone(),
            voice_table: v.voice_table.relabel(),
            mixer: v.mixer.relabel(),
            master_track: v.master_track.relabel(),
            vs_track: relabel_all(&v.vs_track),
            se_track: SeTrack {},
            karaoke_track: KaraokeTrack {},
            aux: relabel_all(&v.aux),
        }
    }
}

impl FromSpecImpl<vsqx4::Vsqx4> for Vsqx3 {
    /// The bridge is stated over views, in the `ensures` of `from`: two
    /// records with one view need not be one value.
    open spec fn obeys_from_spec() -> bool {
        false
    }

    open spec fn from_spec(v: vsqx4::Vsqx4) -> Self {
        arbitrary()
    }
}

/// The table of singer models that parts refer to.
#[derive(Clone, Debug, PartialEq)]
pub struct VoiceTable {
    pub voices: Vec<Voice>,
}

impl DeepView for VoiceTable {
    type V = VoiceTableView;

    open spec fn deep_view(&self) -> VoiceTableView {
        VoiceTableView {
            voices: self.voices.deep_view(),
        }
    }
}

impl View for VoiceTable {
    type V = VoiceTableView;

    open spec fn view(&self) -> VoiceTableView {
        self.deep_view()
    }
}

impl VoiceTable {
    /// A fresh table holds no voice.
    pub open spec fn spec_default() -> VoiceTableView {
        VoiceTableView {
            voices: Seq::empty(),
        }
    }
}

impl Default for VoiceTable {
    fn default() -> (r: Self)
        ensures
            r@ == VoiceTable::spec_default(),
    {
        VoiceTable {
            voices: Vec::new(),
        }
    }
}

impl Relabel<vsqx4::VoiceTable> for VoiceTable {
    fn relabel(&self) -> (r: vsqx4::VoiceTable) {
        vsqx4::VoiceTable {
            voices: relabel_all(&self.voices),
        }
    }
}

/// One singer model: bank and program numbers, component id, display name, timbre.
#[derive(Clone, Debug, PartialEq)]
pub struct Voice {
    pub bs: i64,
    pub pc: i64,
    pub id: String,
    pub name: String,
    pub parameters: VoiceParameters,
}

impl DeepView for Voice {
    type V = VoiceView;

    open spec fn deep_view(&self) -> VoiceView {
        VoiceView {
            bs: self.bs.deep_view(),
            pc: self.pc.deep_view(),
            id: self.id.deep_view(),
            name: self.name.deep_view(),
            parameters: self.parameters.deep_view(),
        }
    }
}

impl View for Voice {
    type V = VoiceView;

    open spec fn view(&self) -> VoiceView {
        self.deep_view()
    }
}

impl Relabel<vsqx4::Voice> for Voice {
    fn relabel(&self) -> (r: vsqx4::Voice) {
        vsqx4::Voice {
            bs: self.bs,
            pc: self.pc,
            id: self.id.clone(),
            name: self.name.clone(),
            parameters: self.parameters.relabel(),
        }
    }
}

/// Timbre settings of one voice.
#[derive(Clone, Debug, PartialEq)]
pub struct VoiceParameters {
    pub breathiness: i64,
    pub brightness: i64,
    pub clearness: i64,
    pub gender: i64,
    pub openness: i64,
}

impl DeepView for VoiceParameters {
    type V = VoiceParametersView;

    open spec fn deep_view(&self) -> VoiceParametersView {
        VoiceParametersView {
            breathiness: self.breathiness.deep_view(),
            brightness: self.brightness.deep_view(),
            clearness: self.clearness.deep_view(),
            gender: self.gender.deep_view(),
            openness: self.openness.deep_view(),
        }
    }
}

impl View for VoiceParameters {
    type V = VoiceParametersView;

    open spec fn view(&self) -> VoiceParametersView {
        self.deep_view()
    }
}

impl Relabel<vsqx4::VoiceParameters> for VoiceParameters {
    fn relabel(&self) -> (r: vsqx4::VoiceParameters) {
        vsqx4::VoiceParameters {
            breathiness: self.breathiness,
            brightness: self.brightness,
            clearness: self.clearness,
            gender: self.gender,
            openness: self.openness,
        }
    }
}

/// The mixer: one master unit and the units of each kind of track.
#[derive(Clone, Debug, PartialEq)]
pub struct Mixer {
    pub master_unit: MasterUnit,
    pub vs_unit: Vec<VsUnit>,
    pub se_unit: Vec<SeUnit>,
    pub karaoke_unit: Vec<KaraokeUnit>,
}

impl DeepView for Mixer {
    type V = MixerView;

    open spec fn deep_view(&self) -> MixerView {
        MixerView {
            master_unit: self.master_unit.deep_view(),
            vs_unit: self.vs_unit.deep_view(),
            mono_unit: self.se_unit.deep_view(),
            stereo_unit: self.karaoke_unit.deep_view(),
        }
    }
}

impl View for Mixer {
    type V = MixerView;

    open spec fn view(&self) -> MixerView {
        self.deep_view()
    }
}

impl Relabel<vsqx4::Mixer> for Mixer {
    fn relabel(&self) -> (r: vsqx4::Mixer) {
        vsqx4::Mixer {
            master_unit: self.master_unit.relabel(),
            vs_unit: relabel_all(&self.vs_unit),
            mono_unit: relabel_all(&self.se_unit),
            stereo_unit: relabel_all(&self.karaoke_unit),
        }
    }
}

/// The master unit of the mixer.
#[derive(Clone, Debug, PartialEq)]
pub struct MasterUnit {
    pub output_device: i64,
    pub return_level: i64,
    pub volume: i64,
}

impl DeepView for MasterUnit {
    type V = MasterUnitView;

    open spec fn deep_view(&self) -> MasterUnitView {
        MasterUnitView {
            output_device: self.output_device.deep_view(),
            return_level: self.return_level.deep_view(),
            volume: self.volume.deep_view(),
        }
    }
}

impl View for MasterUnit {
    type V = MasterUnitView;

    open spec fn view(&self) -> MasterUnitView {
        self.deep_view()
    }
}

impl Relabel<vsqx4::MasterUnit> for MasterUnit {
    fn relabel(&self) -> (r: vsqx4::MasterUnit) {
        vsqx4::MasterUnit {
            output_device: self.output_device,
            return_level: self.return_level,
            volume: self.volume,
        }
    }
}

/// The mixer unit of one vocal track.
#[derive(Clone, Debug, PartialEq)]
pub struct VsUnit {
    pub track_no: i64,
    pub input_gain: i64,
    pub send_level: i64,
    pub is_send_enabled: i64,
    pub mute: i64,
    pub solo: i64,
    pub pan: i64,
    pub volume: i64,
}

impl DeepView for VsUnit {
    type V = VsUnitView;

    open spec fn deep_view(&self) -> VsUnitView {
        VsUnitView {
            track_no: self.track_no.deep_view(),
            input_gain: self.input_gain.deep_view(),
            send_level: self.send_level.deep_view(),
            is_send_enabled: self.is_send_enabled.deep_view(),
            mute: self.mute.deep_view(),
            solo: self.solo.deep_view(),
            pan: self.pan.deep_view(),
            volume: self.volume.deep_view(),
        }
    }
}

impl View for VsUnit {
    type V = VsUnitView;

    open spec fn view(&self) -> VsUnitView {
        self.deep_view()
    }
}

impl Relabel<vsqx4::VsUnit> for VsUnit {
    fn relabel(&self) -> (r: vsqx4::VsUnit) {
        vsqx4::VsUnit {
            track_no: self.track_no,
            input_gain: self.input_gain,
            send_level: self.send_level,
            is_send_enabled: self.is_send_enabled,
            mute: self.mute,
            solo: self.solo,
            pan: self.pan,
            volume: self.volume,
        }
    }
}

/// The mixer unit of the sound-effect track.
#[derive(Clone, Debug, PartialEq)]
pub struct SeUnit {
    pub input_gain: i64,
    pub send_level: i64,
    pub is_send_enabled: i64,
    pub mute: i64,
    pub solo: i64,
    pub pan: i64,
    pub volume: i64,
}

impl DeepView for SeUnit {
    type V = MonoUnitView;

    open spec fn deep_view(&self) -> MonoUnitView {
        MonoUnitView {
            input_gain: self.input_gain.deep_view(),
            send_level: self.send_level.deep_view(),
            is_send_enabled: self.is_send_enabled.deep_view(),
            mute: self.mute.deep_view(),
            solo: self.solo.deep_view(),
            pan: self.pan.deep_view(),
            volume: self.volume.deep_view(),
        }
    }
}

impl View for SeUnit {
    type V = MonoUnitView;

    open spec fn view(&self) -> MonoUnitView {
        self.deep_view()
    }
}

impl Relabel<vsqx4::MonoUnit> for SeUnit {
    fn relabel(&self) -> (r: vsqx4::MonoUnit) {
        vsqx4::MonoUnit {
            input_gain: self.input_gain,
            send_level: self.send_level,
            is_send_enabled: self.is_send_enabled,
            mute: self.mute,
            solo: self.solo,
            pan: self.pan,
            volume: self.volume,
        }
    }
}

/// The mixer unit of the karaoke track.
#[derive(Clone, Debug, PartialEq)]
pub struct KaraokeUnit {
    pub input_gain: i64,
    pub mute: i64,
    pub solo: i64,
    pub volume: i64,
}

impl DeepView for KaraokeUnit {
    type V = StereoUnitView;

    open spec fn deep_view(&self) -> StereoUnitView {
        StereoUnitView {
            input_gain: self.input_gain.deep_view(),
            mute: self.mute.deep_view(),
            solo: self.solo.deep_view(),
            volume: self.volume.deep_view(),
        }
    }
}

impl View for KaraokeUnit {
    type V = StereoUnitView;

    open spec fn view(&self) -> StereoUnitView {
        self.deep_view()
    }
}

impl Relabel<vsqx4::StereoUnit> for KaraokeUnit {
    fn relabel(&self) -> (r: vsqx4::StereoUnit) {
        vsqx4::StereoUnit {
            input_gain: self.input_gain,
            mute: self.mute,
            solo: self.solo,
            volume: self.volume,
        }
    }
}

/// Sequence name, resolution, lead-in, and the time-signature and tempo changes.
#[derive(Clone, Debug, PartialEq)]
pub struct MasterTrack {
    pub name: String,
    pub comment: String,
    pub resolution: i64,
    pub pre_measure: i64,
    pub time_signatures: Vec<TimeSignature>,
    pub tempos: Vec<Tempo>,
}

impl DeepView for MasterTrack {
    type V = MasterTrackView;

    open spec fn deep_view(&self) -> MasterTrackView {
        MasterTrackView {
            name: self.name.deep_view(),
            comment: self.comment.deep_view(),
            resolution: self.resolution.deep_view(),
            pre_measure: self.pre_measure.deep_view(),
            time_signatures: self.time_signatures.deep_view(),
            tempos: self.tempos.deep_view(),
        }
    }
}

impl View for MasterTrack {
    type V = MasterTrackView;

    open spec fn view(&self) -> MasterTrackView {
        self.deep_view()
    }
}

impl Relabel<vsqx4::MasterTrack> for MasterTrack {
    fn relabel(&self) -> (r: vsqx4::MasterTrack) {
        vsqx4::MasterTrack {
            name: self.name.clone(),
            comment: self.comment.clone(),
            resolution: self.resolution,
            pre_measure: self.pre_measure,
            time_signatures: relabel_all(&self.time_signatures),
            tempos: relabel_all(&self.tempos),
        }
    }
}

/// A time-signature change at a measure.
#[derive(Clone, Debug, PartialEq)]
pub struct TimeSignature {
    pub position: i64,
    pub numerator: i64,
    pub denominator: i64,
}

impl DeepView for TimeSignature {
    type V = TimeSignatureView;

    open spec fn deep_view(&self) -> TimeSignatureView {
        TimeSignatureView {
            position: self.position.deep_view(),
            numerator: self.numerator.deep_view(),
            denominator: self.denominator.deep_view(),
        }
    }
}

impl View for TimeSignature {
    type V = TimeSignatureView;

    open spec fn view(&self) -> TimeSignatureView {
        self.deep_view()
    }
}

impl Relabel<vsqx4::TimeSignature> for TimeSignature {
    fn relabel(&self) -> (r: vsqx4::TimeSignature) {
        vsqx4::TimeSignature {
            position: self.position,
            numerator: self.numerator,
            denominator: self.denominator,
        }
    }
}

/// A tempo change at a tick; the value is BPM times 100.
#[derive(Clone, Debug, PartialEq)]
pub struct Tempo {
    pub position: i64,
    pub value: i64,
}

impl DeepView for Tempo {
    type V = TempoView;

    open spec fn deep_view(&self) -> TempoView {
        TempoView {
            position: self.position.deep_view(),
            value: self.value.deep_view(),
        }
    }
}

impl View for Tempo {
    type V = TempoView;

    open spec fn view(&self) -> TempoView {
        self.deep_view()
    }
}

impl Relabel<vsqx4::Tempo> for Tempo {
    fn relabel(&self) -> (r: vsqx4::Tempo) {
        vsqx4::Tempo {
            position: self.position,
            value: self.value,
        }
    }
}

/// A vocal track: its number, name, comment and parts.
#[derive(Clone, Debug, PartialEq)]
pub struct VsTrack {
    pub track_no: i64,
    pub name: String,
    pub comment: String,
    pub parts: Vec<VsPart>,
}

impl DeepView for VsTrack {
    type V = VsTrackView;

    open spec fn deep_view(&self) -> VsTrackView {
        VsTrackView {
            track_no: self.track_no.deep_view(),
            name: self.name.deep_view(),
            comment: self.comment.deep_view(),
            parts: self.parts.deep_view(),
        }
    }
}

impl View for VsTrack {
    type V = VsTrackView;

    open spec fn view(&self) -> VsTrackView {
        self.deep_view()
    }
}

impl Relabel<vsqx4::VsTrack> for VsTrack {
    fn relabel(&self) -> (r: vsqx4::VsTrack) {
        vsqx4::VsTrack {
            track_no: self.track_no,
            name: self.name.clone(),
            comment: self.comment.clone(),
            parts: relabel_all(&self.parts),
        }
    }
}

/// A clip on a vocal track: where it starts, who sings it, and its notes.
#[derive(Clone, Debug, PartialEq)]
pub struct VsPart {
    pub position: i64,
    pub style_plugin: StylePlugin,
    pub play_time: Option<u64>,
    pub name: Option<String>,
    pub comment: Option<String>,
    pub style: Style,
    pub singers: Vec<Singer>,
    pub control_changes: Vec<ControlChange>,
    pub notes: Vec<Note>,
    pub plane: i64,
}

impl DeepView for VsPart {
    type V = VsPartView;

    open spec fn deep_view(&self) -> VsPartView {
        VsPartView {
            position: self.position.deep_view(),
            style_plugin: self.style_plugin.deep_view(),
            play_time: self.play_time.deep_view(),
            name: self.name.deep_view(),
            comment: self.comment.deep_view(),
            style: self.style.deep_view(),
            singers: self.singers.deep_view(),
            control_changes: self.control_changes.deep_view(),
            notes: self.notes.deep_view(),
            plane: self.plane.deep_view(),
        }
    }
}

impl View for VsPart {
    type V = VsPartView;

    open spec fn view(&self) -> VsPartView {
        self.deep_view()
    }
}

impl Relabel<vsqx4::VsPart> for VsPart {
    fn relabel(&self) -> (r: vsqx4::VsPart) {
        vsqx4::VsPart {
            position: self.position,
            style_plugin: self.style_plugin.relabel(),
            play_time: self.play_time,
            name: self.name.clone(),
            comment: self.comment.clone(),
            style: self.style.relabel(),
            singers: relabel_all(&self.singers),
            control_changes: relabel_all(&self.control_changes),
            notes: relabel_all(&self.notes),
            plane: self.plane,
        }
    }
}

/// An automation event: the lane it belongs to, its tick and its value.
#[derive(Clone, Debug, PartialEq)]
pub struct ControlChange<T = i64> {
    pub id: String,
    pub pos: i64,
    pub value: T,
}

impl DeepView for ControlChange<i64> {
    type V = ControlChangeView;

    open spec fn deep_view(&self) -> ControlChangeView {
        ControlChangeView {
            id: self.id.deep_view(),
            pos: self.pos.deep_view(),
            value: self.value.deep_view(),
        }
    }
}

impl View for ControlChange<i64> {
    type V = ControlChangeView;

    open spec fn view(&self) -> ControlChangeView {
        self.deep_view()
    }
}

impl Relabel<vsqx4::ControlChange<i64>> for ControlChange<i64> {
    fn relabel(&self) -> (r: vsqx4::ControlChange<i64>) {
        vsqx4::ControlChange {
            id: self.id.clone(),
            pos: self.pos,
            value: self.value,
        }
    }
}

/// The style plug-in that a part was made with.
#[derive(Clone, Debug, PartialEq)]
pub struct StylePlugin {
    pub id: String,
    pub name: String,
    pub version: String,
}

impl DeepView for StylePlugin {
    type V = StylePluginView;

    open spec fn deep_view(&self) -> StylePluginView {
        StylePluginView {
            id: self.id.deep_view(),
            name: self.name.deep_view(),
            version: self.version.deep_view(),
        }
    }
}

impl View for StylePlugin {
    type V = StylePluginView;

    open spec fn view(&self) -> StylePluginView {
        self.deep_view()
    }
}

impl Relabel<vsqx4::StylePlugin> for StylePlugin {
    fn relabel(&self) -> (r: vsqx4::StylePlugin) {
        vsqx4::StylePlugin {
            id: self.id.clone(),
            name: self.name.clone(),
            version: self.version.clone(),
        }
    }
}

/// A singer assignment inside a part: from which tick, and which voice by bank and program.
#[derive(Clone, Debug, PartialEq)]
pub struct Singer {
    pub position: i64,
    pub bs: i64,
    pub pc: i64,
}

impl DeepView for Singer {
    type V = SingerView;

    open spec fn deep_view(&self) -> SingerView {
        SingerView {
            position: self.position.deep_view(),
            bs: self.bs.deep_view(),
            pc: self.pc.deep_view(),
        }
    }
}

impl View for Singer {
    type V = SingerView;

    open spec fn view(&self) -> SingerView {
        self.deep_view()
    }
}

impl Relabel<vsqx4::Singer> for Singer {
    fn relabel(&self) -> (r: vsqx4::Singer) {
        vsqx4::Singer {
            position: self.position,
            bs: self.bs,
            pc: self.pc,
        }
    }
}

/// A note: tick, length, pitch, velocity, lyric, phonemes and style.
#[derive(Clone, Debug, PartialEq)]
pub struct Note {
    pub position: i64,
    pub duration: i64,
    pub note_num: i64,
    pub velocity: i64,
    pub lyric: String,
    pub phoneme: String,
    pub style: Style,
}

impl DeepView for Note {
    type V = NoteView;

    open spec fn deep_view(&self) -> NoteView {
        NoteView {
            position: self.position.deep_view(),
            duration: self.duration.deep_view(),
            note_num: self.note_num.deep_view(),
            velocity: self.velocity.deep_view(),
            lyric: self.lyric.deep_view(),
            phoneme: self.phoneme.deep_view(),
            style: self.style.deep_view(),
        }
    }
}

impl View for Note {
    type V = NoteView;

    open spec fn view(&self) -> NoteView {
        self.deep_view()
    }
}

impl Relabel<vsqx4::Note> for Note {
    fn relabel(&self) -> (r: vsqx4::Note) {
        vsqx4::Note {
            position: self.position,
            duration: self.duration,
            note_num: self.note_num,
            velocity: self.velocity,
            lyric: self.lyric.clone(),
            phoneme: self.phoneme.clone(),
            style: self.style.relabel(),
        }
    }
}

/// A table of style attributes, each a key and a value.
#[derive(Clone, Debug, PartialEq)]
pub struct Style {
    pub styles: Vec<StyleKey>,
}

impl DeepView for Style {
    type V = StyleView;

    open spec fn deep_view(&self) -> StyleView {
        StyleView {
            styles: self.styles.deep_view(),
        }
    }
}

impl View for Style {
    type V = StyleView;

    open spec fn view(&self) -> StyleView {
        self.deep_view()
    }
}

impl Relabel<vsqx4::Style> for Style {
    fn relabel(&self) -> (r: vsqx4::Style) {
        vsqx4::Style {
            styles: relabel_all(&self.styles),
        }
    }
}

/// One style attribute.
#[derive(Clone, Debug, PartialEq)]
pub struct StyleKey {
    pub id: String,
    pub value: i64,
}

impl DeepView for StyleKey {
    type V = StyleKeyView;

    open spec fn deep_view(&self) -> StyleKeyView {
        StyleKeyView {
            id: self.id.deep_view(),
            value: self.value.deep_view(),
        }
    }
}

impl View for StyleKey {
    type V = StyleKeyView;

    open spec fn view(&self) -> StyleKeyView {
        self.deep_view()
    }
}

impl Relabel<vsqx4::StyleKey> for StyleKey {
    fn relabel(&self) -> (r: vsqx4::StyleKey) {
        vsqx4::StyleKey {
            id: self.id.clone(),
            value: self.value,
        }
    }
}

/// The sound-effect track; nothing of it is kept.
#[derive(Clone, Debug, PartialEq)]
pub struct SeTrack {}

impl DeepView for SeTrack {
    type V = ();

    open spec fn deep_view(&self) -> () {
        ()
    }
}

impl View for SeTrack {
    type V = ();

    open spec fn view(&self) -> () {
        ()
    }
}

impl Relabel<vsqx4::MonoTrack> for SeTrack {
    fn relabel(&self) -> (r: vsqx4::MonoTrack) {
        vsqx4::MonoTrack {}
    }
}

/// The karaoke track; nothing of it is kept.
#[derive(Clone, Debug, PartialEq)]
pub struct KaraokeTrack {}

impl DeepView for KaraokeTrack {
    type V = ();

    open spec fn deep_view(&self) -> () {
        ()
    }
}

impl View for KaraokeTrack {
    type V = ();

    open spec fn view(&self) -> () {
        ()
    }
}

impl Relabel<vsqx4::StereoTrack> for KaraokeTrack {
    fn relabel(&self) -> (r: vsqx4::StereoTrack) {
        vsqx4::StereoTrack {}
    }
}

/// An auxiliary block, kept as it was read.
#[derive(Clone, Debug, PartialEq)]
pub struct Aux {
    pub id: String,
    pub content: String,
}

impl DeepView for Aux {
    type V = AuxView;

    open spec fn deep_view(&self) -> AuxView {
        AuxView {
            id: self.id.deep_view(),
            content: self.content.deep_view(),
        }
    }
}

impl View for Aux {
    type V = AuxView;

    open spec fn view(&self) -> AuxView {
        self.deep_view()
    }
}

impl Relabel<vsqx4::Aux> for Aux {
    fn relabel(&self) -> (r: vsqx4::Aux) {
        vsqx4::Aux {
            id: self.id.clone(),
            content: self.content.clone(),
        }
    }
}

/// The namespace of the dialect.
pub fn _vsqx3_default_xmlns() -> (r: String)
    ensures
        r@ == "http://www.yamaha.co.jp/vocaloid/schema/vsq3/"@,
{
    String::from_str("http://www.yamaha.co.jp/vocaloid/schema/vsq3/")
}

/// The namespace of XML Schema instances.
pub fn _vsqx3_default_xmlns_xsi() -> (r: String)
    ensures
        r@ == "http://www.w3.org/2001/XMLSchema-instance"@,
{
    String::from_str("http://www.w3.org/2001/XMLSchema-instance")
}

/// Where the schema of the dialect is found.
pub fn _vsqx3_default_xsi_schema_location() -> (r: String)
    ensures
        r@ == "http://www.yamaha.co.jp/vocaloid/schema/vsq3/ vsq3.xsd"@,
{
    String::from_str("http://www.yamaha.co.jp/vocaloid/schema/vsq3/ vsq3.xsd")
}

/// The version string of the dialect.
pub fn _vsqx3_default_version() -> (r: String)
    ensures
        r@ == "3.0.0.11"@,
{
    String::from_str("3.0.0.11")
}

/// The vendor that a document names where it says nothing else.
pub fn _vsqx3_default_vendor() -> (r: String)
    ensures
        r@ == "Yamaha corporation"@,
{
    String::from_str("Yamaha corporation")
}

} // verus!
