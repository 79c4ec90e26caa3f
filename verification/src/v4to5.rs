//! Upgrade: a project of the fourth editor generation as one of the fifth.
//!
//! Notes keep pitch, timing, lyric and phonemes. What only the later format
//! has is filled in with fixed values: the sampling rate, an idle loop, folded
//! lanes, a singing-skill balance of 64/64, no vibrato, no effects.

use crate::dialect::{VsPartView, VsTrackView, VsqxView};
use crate::lemmas::{lemma_deep_view_empty, lemma_deep_view_push, lemma_take_all, lemma_take_next};
use crate::vpr::{
    vpr_vender, ControlChange, GlobalTempo, Loop, MasterTrack, MasterTrackView, Note, NoteView,
    Panpot, Part, PartView, SingingSkill, SkillWeight, Tempo, TempoView, TimeSignature,
    TimeSignatureEvent, TimeSignatureView, Track, TrackView, Version, Vibrato, Voice, VoiceView,
    Volume, Vpr, VprView,
};
use crate::dialect;
use crate::vsqx3::Vsqx3;
use crate::vsqx4;
use crate::vsqx4::Vsqx4;
use vstd::prelude::*;
use vstd::std_specs::hash::lemma_hashmap_deepview_dom;
use vstd::string::StringExecFns;

verus! {

/// The sampling rate that an upgraded project is given.
pub const SAMPLING_RATE: u64 = 44100;

/// The tempo, BPM times 100, that holds where an upgraded project's tempo lane
/// is switched off.
pub const GLOBAL_TEMPO: u64 = 12000;

/// The singing-skill weight that every upgraded note gets, before and after.
pub const SKILL_WEIGHT: i64 = 64;

/// The style name that every upgraded part gets: the one that stands for no
/// effect.
pub fn no_effect_style() -> (r: String)
    ensures
        r@ == "No Effect"@,
{
    String::from_str("No Effect")
}

/// A tempo change keeps its tick and its value.
pub open spec fn upgraded_tempo(t: dialect::TempoView) -> ControlChange<i64> {
    ControlChange { pos: t.position, value: t.value }
}

/// A time-signature change keeps its measure, numerator and denominator.
pub open spec fn upgraded_time_signature(t: dialect::TimeSignatureView) -> TimeSignatureEvent {
    TimeSignatureEvent { bar: t.position, numerator: t.numerator, denominator: t.denominator }
}

/// The master track: the tempo and time-signature changes of the project, in
/// order, and fixed values for all else.
pub open spec fn upgraded_master_track(m: dialect::MasterTrackView) -> MasterTrackView {
    MasterTrackView {
        sampling_rate: SAMPLING_RATE,
        loop_info: Loop { is_enabled: false, begin: 0, end: 0 },
        tempo: TempoView {
            is_folded: false,
            height_bits: 0,
            global: GlobalTempo { is_enabled: false, value: GLOBAL_TEMPO },
            events: Seq::new(m.tempos.len(), |i: int| upgraded_tempo(m.tempos[i])),
        },
        time_sig: TimeSignatureView {
            is_folded: false,
            events: Seq::new(
                m.time_signatures.len(),
                |i: int| upgraded_time_signature(m.time_signatures[i]),
            ),
        },
        volume: Volume::spec_default(),
    }
}

/// A voice keeps its component id and display name; no language id is carried
/// over.
pub open spec fn upgraded_voice(v: dialect::VoiceView) -> VoiceView {
    VoiceView { comp_id: v.id, lang_id: None, name: Some(v.name) }
}

/// The voices, one per entry of the voice table, in order.
pub open spec fn upgraded_voices(voices: Seq<dialect::VoiceView>) -> Seq<VoiceView> {
    Seq::new(voices.len(), |i: int| upgraded_voice(voices[i]))
}

/// A note keeps tick, length, pitch, velocity, lyric and phonemes. A length is
/// read as an unsigned number of the same 64 bits, a velocity by its lowest 8
/// bits; each is the number itself where it lies in the target's range.
pub open spec fn upgraded_note(n: dialect::NoteView) -> NoteView {
    NoteView {
        lyric: n.lyric,
        phoneme: n.phoneme,
        is_protected: false,
        pos: n.position,
        duration: n.duration as u64,
        number: n.note_num,
        velocity: n.velocity as u8,
        exp: Map::empty(),
        singing_skill: Some(
            SingingSkill {
                duration: 0,
                weight: SkillWeight { pre: SKILL_WEIGHT, post: SKILL_WEIGHT },
            },
        ),
        vibrato: Vibrato { vibrato_type: 0, duration: 0 },
    }
}

/// The notes of a part, in order.
pub open spec fn upgraded_notes(notes: Seq<dialect::NoteView>) -> Seq<NoteView> {
    Seq::new(notes.len(), |i: int| upgraded_note(notes[i]))
}

/// Whether the first singer of a part names an entry of a voice table with
/// `voices` entries.
pub open spec fn has_voice(p: VsPartView, voices: int) -> bool {
    p.singers.len() > 0 && 0 <= p.singers[0].pc < voices
}

/// A part keeps its name, tick and length (0 where it has none). Its voice is
/// the entry that the first singer's program number picks, without the display
/// name. The tick is read as an unsigned number of the same 64 bits.
pub open spec fn upgraded_part(p: VsPartView, voices: Seq<VoiceView>) -> PartView {
    PartView {
        name: p.name,
        pos: p.position as u64,
        duration: match p.play_time {
            Some(d) => d,
            None => 0,
        },
        style_name: "No Effect"@,
        voice: VoiceView { name: None, ..voices[p.singers[0].pc as int] },
        midi_effects: Seq::empty(),
        notes: upgraded_notes(p.notes),
    }
}

/// The parts of a track, in order.
pub open spec fn upgraded_parts(parts: Seq<VsPartView>, voices: Seq<VoiceView>) -> Seq<PartView> {
    Seq::new(parts.len(), |i: int| upgraded_part(parts[i], voices))
}

/// A vocal track becomes a track of type 0 under the same name, with fixed
/// display settings.
pub open spec fn upgraded_track(t: VsTrackView, voices: Seq<VoiceView>) -> TrackView {
    TrackView {
        track_type: 0,
        name: Some(t.name),
        color: 0,
        bus_no: 0,
        is_folded: true,
        height_bits: 0,
        volume: Volume::spec_default(),
        panpot: Panpot::spec_default(),
        is_muted: false,
        is_solo_mode: false,
        parts: upgraded_parts(t.parts, voices),
    }
}

/// The tracks, one per vocal track, in order.
pub open spec fn upgraded_tracks(tracks: Seq<VsTrackView>, voices: Seq<VoiceView>) -> Seq<
    TrackView,
> {
    Seq::new(tracks.len(), |i: int| upgraded_track(tracks[i], voices))
}

/// The upgraded project: version 5.0.0, titled by the sequence name.
pub open spec fn upgraded(v: VsqxView) -> VprView {
    VprView {
        version: Version { major: 5, minor: 0, revision: 0 },
        vender: "Yamaha Corporation"@,
        title: v.master_track.name,
        master_track: upgraded_master_track(v.master_track),
        voices: upgraded_voices(v.voice_table.voices),
        tracks: upgraded_tracks(v.vs_track, upgraded_voices(v.voice_table.voices)),
    }
}

/// Whether every part of a project refers to a voice: it has a singer, and
/// the first singer's program number is a place in the voice table.
pub open spec fn upgradable(v: VsqxView) -> bool {
    forall|i: int, j: int|
        0 <= i < v.vs_track.len() && 0 <= j < v.vs_track[i].parts.len() ==> has_voice(
            #[trigger] v.vs_track[i].parts[j],
            v.voice_table.voices.len() as int,
        )
}

/// Whether `convert_vsqx4_to_vpr` may be called on a project.
pub fn check_upgradable(v: &Vsqx4) -> (b: bool)
    ensures
        b == upgradable(v@),
{
    let voices = v.voice_table.voices.len();
    let mut i: usize = 0;
    while i < v.vs_track.len()
        invariant
            i <= v.vs_track.len(),
            voices == v.voice_table.voices.len(),
            forall|a: int, j: int|
                0 <= a < i && 0 <= j < v@.vs_track[a].parts.len() ==> has_voice(
                    #[trigger] v@.vs_track[a].parts[j],
                    voices as int,
                ),
        decreases v.vs_track.len() - i,
    {
        let track = &v.vs_track[i];
        let mut j: usize = 0;
        while j < track.parts.len()
            invariant
                j <= track.parts.len(),
                i < v.vs_track.len(),
                v@.vs_track[i as int] == track@,
                voices == v.voice_table.voices.len(),
                forall|b: int| 0 <= b < j ==> has_voice(#[trigger] track@.parts[b], voices as int),
            decreases track.parts.len() - j,
        {
            let part = &track.parts[j];
            let known = part.singers.len() > 0 && 0 <= part.singers[0].pc && (
            part.singers[0].pc as u64) < voices as u64;
            if !known {
                assert(!has_voice(v@.vs_track[i as int].parts[j as int], voices as int));
                return false;
            }
            j += 1;
        }
        i += 1;
    }
    true
}

/// Makes the master track of the upgraded project.
pub fn create_master_track(v: &Vsqx4) -> (r: MasterTrack)
    ensures
        r@ == upgraded_master_track(v@.master_track),
{
    let ghost m = v@.master_track;

    // Tempo changes.
    let ghost tempo_target = Seq::new(m.tempos.len(), |i: int| upgraded_tempo(m.tempos[i]));
    let mut tempo: Vec<ControlChange> = Vec::new();
    proof {
        lemma_deep_view_empty(tempo);
    }
    let mut i: usize = 0;
    while i < v.master_track.tempos.len()
        invariant
            i <= v.master_track.tempos.len(),
            m == v@.master_track,
            tempo_target == Seq::new(m.tempos.len(), |i: int| upgraded_tempo(m.tempos[i])),
            tempo.deep_view() == tempo_target.take(i as int),
        decreases v.master_track.tempos.len() - i,
    {
        let t = &v.master_track.tempos[i];
        let event = ControlChange { pos: t.position, value: t.value };
        let ghost before = tempo;
        tempo.push(event);
        proof {
            lemma_deep_view_push(before, tempo, event);
            lemma_take_next(tempo_target, i as int);
        }
        i += 1;
    }
    proof {
        lemma_take_all(tempo_target);
    }
    let tempo = Tempo {
        is_folded: false,
        height_bits: 0,
        global: GlobalTempo { is_enabled: false, value: GLOBAL_TEMPO },
        events: tempo,
    };

    // Time-signature changes.
    let ghost sig_target = Seq::new(
        m.time_signatures.len(),
        |i: int| upgraded_time_signature(m.time_signatures[i]),
    );
    let mut time_sig: Vec<TimeSignatureEvent> = Vec::new();
    proof {
        lemma_deep_view_empty(time_sig);
    }
    let mut i: usize = 0;
    while i < v.master_track.time_signatures.len()
        invariant
            i <= v.master_track.time_signatures.len(),
            m == v@.master_track,
            sig_target == Seq::new(
                m.time_signatures.len(),
                |i: int| upgraded_time_signature(m.time_signatures[i]),
            ),
            time_sig.deep_view() == sig_target.take(i as int),
        decreases v.master_track.time_signatures.len() - i,
    {
        let t = &v.master_track.time_signatures[i];
        let event = TimeSignatureEvent {
            bar: t.position,
            numerator: t.numerator,
            denominator: t.denominator,
        };
        let ghost before = time_sig;
        time_sig.push(event);
        proof {
            lemma_deep_view_push(before, time_sig, event);
            lemma_take_next(sig_target, i as int);
        }
        i += 1;
    }
    proof {
        lemma_take_all(sig_target);
    }
    let time_sig = TimeSignature { is_folded: false, events: time_sig };

    MasterTrack {
        sampling_rate: SAMPLING_RATE,
        loop_info: Loop::default(),
        tempo,
        time_sig,
        volume: Volume::default(),
    }
}

/// Upgrades a part. `voices` are the upgraded voices of the project; the
/// part's first singer must pick one of them.
pub fn convert_part(p: &vsqx4::VsPart, voices: &Vec<Voice>) -> (r: Part)
    requires
        has_voice(p@, voices.len() as int),
    ensures
        r@ == upgraded_part(p@, voices.deep_view()),
{
    let pos = #[verifier::truncate] (p.position as u64);
    let duration = match p.play_time {
        Some(d) => d,
        None => 0,
    };
    let chosen = &voices[p.singers[0].pc as usize];
    let voice = Voice { comp_id: chosen.comp_id.clone(), lang_id: chosen.lang_id, name: None };

    let ghost target = upgraded_notes(p@.notes);
    let mut notes: Vec<Note> = Vec::new();
    proof {
        lemma_deep_view_empty(notes);
    }
    let mut i: usize = 0;
    while i < p.notes.len()
        invariant
            i <= p.notes.len(),
            target == upgraded_notes(p@.notes),
            notes.deep_view() == target.take(i as int),
        decreases p.notes.len() - i,
    {
        let note = &p.notes[i];
        let exp: std::collections::HashMap<String, i64> = std::collections::HashMap::new();
        let n = Note {
            is_protected: false,
            pos: note.position,
            duration: #[verifier::truncate] (note.duration as u64),
            number: note.note_num,
            velocity: #[verifier::truncate] (note.velocity as u8),
            lyric: note.lyric.clone(),
            phoneme: note.phoneme.clone(),
            exp,
            // A neutral balance: the earlier format has nothing to read it from.
            singing_skill: Some(
                SingingSkill {
                    duration: 0,
                    weight: SkillWeight { pre: SKILL_WEIGHT, post: SKILL_WEIGHT },
                },
            ),
            vibrato: Vibrato { vibrato_type: 0, duration: 0 },
        };
        let ghost before = notes;
        notes.push(n);
        proof {
            lemma_hashmap_deepview_dom(n.exp);
            assert(n@.exp =~= Map::empty());
            lemma_deep_view_push(before, notes, n);
            lemma_take_next(target, i as int);
        }
        i += 1;
    }
    proof {
        lemma_take_all(target);
    }

    let midi_effects = Vec::new();
    proof {
        lemma_deep_view_empty(midi_effects);
    }
    Part {
        name: p.name.clone(),
        pos,
        duration,
        voice,
        notes,
        midi_effects,
        style_name: no_effect_style(),
    }
}

/// Upgrades a vocal track, each of whose parts must refer to one of `voices`.
pub fn convert_track(t: &vsqx4::VsTrack, voices: &Vec<Voice>) -> (r: Track)
    requires
        forall|j: int|
            0 <= j < t@.parts.len() ==> has_voice(#[trigger] t@.parts[j], voices.len() as int),
    ensures
        r@ == upgraded_track(t@, voices.deep_view()),
{
    let ghost target = upgraded_parts(t@.parts, voices.deep_view());
    let mut parts: Vec<Part> = Vec::new();
    proof {
        lemma_deep_view_empty(parts);
    }
    let mut i: usize = 0;
    while i < t.parts.len()
        invariant
            i <= t.parts.len(),
            target == upgraded_parts(t@.parts, voices.deep_view()),
            forall|j: int|
                0 <= j < t@.parts.len() ==> has_voice(#[trigger] t@.parts[j], voices.len() as int),
            parts.deep_view() == target.take(i as int),
        decreases t.parts.len() - i,
    {
        proof {
            assert(t@.parts[i as int] == t.parts[i as int]@);
        }
        let part = convert_part(&t.parts[i], voices);
        let ghost before = parts;
        parts.push(part);
        proof {
            lemma_deep_view_push(before, parts, part);
            lemma_take_next(target, i as int);
        }
        i += 1;
    }
    proof {
        lemma_take_all(target);
    }

    Track {
        track_type: 0,
        name: Some(t.name.clone()),
        color: 0,
        bus_no: 0,
        is_folded: true,
        height_bits: 0,
        volume: Volume::default(),
        panpot: Panpot::default(),
        is_muted: false,
        is_solo_mode: false,
        parts,
    }
}

/// Upgrades a project. Every part must refer to a voice: see `upgradable`.
pub fn convert_vsqx4_to_vpr(v: &Vsqx4) -> (r: Vpr)
    requires
        upgradable(v@),
    ensures
        r@ == upgraded(v@),
{
    let master_track = create_master_track(v);

    // The voices, in the order of the voice table.
    let ghost voice_target = upgraded_voices(v@.voice_table.voices);
    let mut voices: Vec<Voice> = Vec::new();
    proof {
        lemma_deep_view_empty(voices);
    }
    let mut i: usize = 0;
    while i < v.voice_table.voices.len()
        invariant
            i <= v.voice_table.voices.len(),
            voice_target == upgraded_voices(v@.voice_table.voices),
            voices@.len() == i,
            voices.deep_view() == voice_target.take(i as int),
        decreases v.voice_table.voices.len() - i,
    {
        let voice = &v.voice_table.voices[i];
        let converted = Voice {
            comp_id: voice.id.clone(),
            name: Some(voice.name.clone()),
            lang_id: None,
        };
        let ghost before = voices;
        voices.push(converted);
        proof {
            lemma_deep_view_push(before, voices, converted);
            lemma_take_next(voice_target, i as int);
        }
        i += 1;
    }
    proof {
        lemma_take_all(voice_target);
    }

    // The tracks.
    let ghost track_target = upgraded_tracks(v@.vs_track, voices.deep_view());
    let mut tracks: Vec<Track> = Vec::new();
    proof {
        lemma_deep_view_empty(tracks);
    }
    let mut i: usize = 0;
    while i < v.vs_track.len()
        invariant
            i <= v.vs_track.len(),
            upgradable(v@),
            voices@.len() == v@.voice_table.voices.len(),
            track_target == upgraded_tracks(v@.vs_track, voices.deep_view()),
            tracks.deep_view() == track_target.take(i as int),
        decreases v.vs_track.len() - i,
    {
        let tr = &v.vs_track[i];
        proof {
            assert(v@.vs_track[i as int] == tr@);
        }
        let track = convert_track(tr, &voices);
        let ghost before = tracks;
        tracks.push(track);
        proof {
            lemma_deep_view_push(before, tracks, track);
            lemma_take_next(track_target, i as int);
        }
        i += 1;
    }
    proof {
        lemma_take_all(track_target);
    }

    Vpr {
        version: Version::new(5, 0, 0),
        vender: vpr_vender(),
        title: v.master_track.name.clone(),
        master_track,
        voices,
        tracks,
    }
}

/// Upgrades a project of the third generation by way of the fourth.
pub fn convert_vsqx3_to_vpr(v: Vsqx3) -> (r: Vpr)
    requires
        upgradable(v@),
    ensures
        r@ == upgraded(Vsqx4::spec_headed(v@)),
{
    let v4 = Vsqx4::from(v);
    convert_vsqx4_to_vpr(&v4)
}

} // verus!
