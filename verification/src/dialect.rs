//! What the two XML dialects have in common.
//!
//! Both describe the same tree: a project with its voice table, mixer, master
//! track, vocal tracks and auxiliary blocks. They differ in four header
//! strings and in how tags are spelled. The tree is the view of the records of
//! either dialect, and a record of one dialect is turned into its counterpart
//! in the other by copying every field.

use vstd::prelude::*;

verus! {

/// A project as either dialect describes it. The mono and stereo tracks (the
/// sound-effect and karaoke tracks of the earlier dialect) hold nothing and
/// have no place here.
#[verifier::ext_equal]
pub struct VsqxView {
    pub xmlns: Seq<char>,
    pub xmlns_xsi: Seq<char>,
    pub xsi_schema_location: Seq<char>,
    pub version: Seq<char>,
    pub vender: Seq<char>,
    pub voice_table: VoiceTableView,
    pub mixer: MixerView,
    pub master_track: MasterTrackView,
    pub vs_track: Seq<VsTrackView>,
    pub aux: Seq<AuxView>,
}

/// The voice table of a project.
#[verifier::ext_equal]
pub struct VoiceTableView {
    pub voices: Seq<VoiceView>,
}

/// One entry of the voice table.
#[verifier::ext_equal]
pub struct VoiceView {
    pub bs: i64,
    pub pc: i64,
    pub id: Seq<char>,
    pub name: Seq<char>,
    pub parameters: VoiceParametersView,
}

/// Timbre settings of one voice.
#[verifier::ext_equal]
pub struct VoiceParametersView {
    pub breathiness: i64,
    pub brightness: i64,
    pub clearness: i64,
    pub gender: i64,
    pub openness: i64,
}

/// The mixer of a project.
#[verifier::ext_equal]
pub struct MixerView {
    pub master_unit: MasterUnitView,
    pub vs_unit: Seq<VsUnitView>,
    pub mono_unit: Seq<MonoUnitView>,
    pub stereo_unit: Seq<StereoUnitView>,
}

/// The master unit of the mixer.
#[verifier::ext_equal]
pub struct MasterUnitView {
    pub output_device: i64,
    pub return_level: i64,
    pub volume: i64,
}

/// The mixer unit of one vocal track.
#[verifier::ext_equal]
pub struct VsUnitView {
    pub track_no: i64,
    pub input_gain: i64,
    pub send_level: i64,
    pub is_send_enabled: i64,
    pub mute: i64,
    pub solo: i64,
    pub pan: i64,
    pub volume: i64,
}

/// The mixer unit of the mono track; the earlier dialect has its sound-effect unit in this place.
#[verifier::ext_equal]
pub struct MonoUnitView {
    pub input_gain: i64,
    pub send_level: i64,
    pub is_send_enabled: i64,
    pub mute: i64,
    pub solo: i64,
    pub pan: i64,
    pub volume: i64,
}

/// The mixer unit of the stereo track; the earlier dialect has its karaoke unit in this place.
#[verifier::ext_equal]
pub struct StereoUnitView {
    pub input_gain: i64,
    pub mute: i64,
    pub solo: i64,
    pub volume: i64,
}

/// The master track of a project.
#[verifier::ext_equal]
pub struct MasterTrackView {
    pub name: Seq<char>,
    pub comment: Seq<char>,
    pub resolution: i64,
    pub pre_measure: i64,
    pub time_signatures: Seq<TimeSignatureView>,
    pub tempos: Seq<TempoView>,
}

/// A time-signature change.
#[verifier::ext_equal]
pub struct TimeSignatureView {
    pub position: i64,
    pub numerator: i64,
    pub denominator: i64,
}

/// A tempo change.
#[verifier::ext_equal]
pub struct TempoView {
    pub position: i64,
    pub value: i64,
}

/// A vocal track.
#[verifier::ext_equal]
pub struct VsTrackView {
    pub track_no: i64,
    pub name: Seq<char>,
    pub comment: Seq<char>,
    pub parts: Seq<VsPartView>,
}

/// A part of a vocal track.
#[verifier::ext_equal]
pub struct VsPartView {
    pub position: i64,
    pub style_plugin: StylePluginView,
    pub play_time: Option<u64>,
    pub name: Option<Seq<char>>,
    pub comment: Option<Seq<char>>,
    pub style: StyleView,
    pub singers: Seq<SingerView>,
    pub control_changes: Seq<ControlChangeView>,
    pub notes: Seq<NoteView>,
    pub plane: i64,
}

/// An automation event.
#[verifier::ext_equal]
pub struct ControlChangeView {
    pub id: Seq<char>,
    pub pos: i64,
    pub value: i64,
}

/// The style plug-in of a part.
#[verifier::ext_equal]
pub struct StylePluginView {
    pub id: Seq<char>,
    pub name: Seq<char>,
    pub version: Seq<char>,
}

/// A singer assignment.
#[verifier::ext_equal]
pub struct SingerView {
    pub position: i64,
    pub bs: i64,
    pub pc: i64,
}

/// A note.
#[verifier::ext_equal]
pub struct NoteView {
    pub position: i64,
    pub duration: i64,
    pub note_num: i64,
    pub velocity: i64,
    pub lyric: Seq<char>,
    pub phoneme: Seq<char>,
    pub style: StyleView,
}

/// A table of style attributes.
#[verifier::ext_equal]
pub struct StyleView {
    pub styles: Seq<StyleKeyView>,
}

/// One style attribute.
#[verifier::ext_equal]
pub struct StyleKeyView {
    pub id: Seq<char>,
    pub value: i64,
}

/// An auxiliary block.
#[verifier::ext_equal]
pub struct AuxView {
    pub id: Seq<char>,
    pub content: Seq<char>,
}
impl VsqxView {
    /// Whether two projects agree in everything but the four header strings
    /// that name the dialect: the two namespaces, the schema location and the
    /// version.
    pub open spec fn same_content(self, other: VsqxView) -> bool {
        &&& self.vender == other.vender
        &&& self.voice_table == other.voice_table
        &&& self.mixer == other.mixer
        &&& self.master_track == other.master_track
        &&& self.vs_track == other.vs_track
        &&& self.aux == other.aux
    }
}

impl VsPartView {
    /// Whether the part keeps to what the format takes for granted: it does not
    /// start before tick 0, its first singer names one of the `voices` entries
    /// of the voice table, and no note starts before tick 0 or has a negative
    /// length.
    pub open spec fn well_formed(self, voices: int) -> bool {
        &&& 0 <= self.position
        &&& self.singers.len() > 0
        &&& 0 <= self.singers[0].pc < voices
        &&& forall|k: int|
            0 <= k < self.notes.len() ==> 0 <= (#[trigger] self.notes[k]).position && 0
                <= self.notes[k].duration
    }
}

impl MasterTrackView {
    /// Whether the tempo changes and the time-signature changes each stand in
    /// the order of their positions.
    pub open spec fn ordered(self) -> bool {
        &&& forall|i: int, j: int|
            0 <= i <= j < self.tempos.len() ==> (#[trigger] self.tempos[i]).position <= (
            #[trigger] self.tempos[j]).position
        &&& forall|i: int, j: int|
            0 <= i <= j < self.time_signatures.len() ==> (
            #[trigger] self.time_signatures[i]).position <= (
            #[trigger] self.time_signatures[j]).position
    }
}

impl VsqxView {
    /// Whether the project keeps to what the format takes for granted: the
    /// changes of the master track stand in order, and every part is well
    /// formed. Nothing enforces this of a project that was read from a file.
    pub open spec fn well_formed(self) -> bool {
        &&& self.master_track.ordered()
        &&& forall|i: int, j: int|
            0 <= i < self.vs_track.len() && 0 <= j < self.vs_track[i].parts.len() ==> (
            #[trigger] self.vs_track[i].parts[j]).well_formed(self.voice_table.voices.len() as int)
    }
}

/// A record of one dialect that can be copied, field by field, into its
/// counterpart in the other.
pub trait Relabel<B: DeepView>: DeepView<V = B::V> {
    fn relabel(&self) -> (r: B)
        ensures
            r.deep_view() == self.deep_view(),
    ;
}

/// Copies each record of `items` into its counterpart, in order.
pub fn relabel_all<A: Relabel<B>, B: DeepView>(items: &Vec<A>) -> (r: Vec<B>)
    ensures
        r.deep_view() == items.deep_view(),
{
    let mut out: Vec<B> = Vec::new();
    let mut i: usize = 0;
    while i < items.len()
        invariant
            i <= items.len(),
            out@.len() == i,
            out.deep_view() == items.deep_view().take(i as int),
        decreases items.len() - i,
    {
        out.push(items[i].relabel());
        i += 1;
    }
    out
}

} // verus!
