//! Downgrade: a project of the fifth editor generation as one of the fourth.
//!
//! Only vocal tracks (type 0) are kept; every other track is dropped, which is
//! the intended loss of this direction. Mixer units and per-note style, which
//! the later format does not have, are filled in from the earlier format's
//! defaults.

use crate::dialect::{
    MasterTrackView, MixerView, NoteView, SingerView, TempoView, TimeSignatureView, VoiceTableView,
    VoiceView, VsPartView, VsTrackView, VsUnitView, VsqxView,
};
use crate::error::ConvertError;
use crate::laws::law_downgrade_succeeds_iff;
use crate::lemmas::{lemma_deep_view_empty, lemma_deep_view_push, lemma_take_all, lemma_take_next};
use crate::vpr;
use crate::vpr::{ControlChange, TimeSignatureEvent, Vpr};
use crate::vsqx3::Vsqx3;
use crate::vsqx4::{
    MasterTrack, MasterUnit, MonoUnit, Note, Singer, StereoUnit, Style, StylePlugin, Tempo,
    TimeSignature, Voice, VoiceParameters, VsPart, VsTrack, VsUnit, Vsqx4,
};
use vstd::prelude::*;

verus! {

/// The ticks by which a part moves back when it is downgraded: a fixed offset
/// that makes up for the lead-in that the earlier editor counts before the
/// first note and the later one does not. It was found by trial. It equals four
/// 4/4 measures at 480 ticks per quarter note, but it is not computed from a
/// project's resolution or lead-in.
pub const LEAD_IN_TICKS: i64 = 7680;

/// The place in the voice table that a component id refers to: the last entry
/// with that id, if there is one.
pub open spec fn voice_index(voices: Seq<vpr::VoiceView>, comp_id: Seq<char>) -> Option<int>
    decreases voices.len(),
{
    if voices.len() == 0 {
        None
    } else if voices.last().comp_id == comp_id {
        Some(voices.len() - 1)
    } else {
        voice_index(voices.drop_last(), comp_id)
    }
}

/// The voice-table entry for the voice at `index`: program number `index`,
/// bank number from the language id (0 where there is none), no timbre.
pub open spec fn downgraded_voice(v: vpr::VoiceView, index: int) -> VoiceView {
    VoiceView {
        bs: match v.lang_id {
            Some(l) => l,
            None => 0,
        },
        pc: index as i64,
        id: v.comp_id,
        name: match v.name {
            Some(n) => n,
            None => Seq::empty(),
        },
        parameters: VoiceParameters::spec_default(),
    }
}

/// The voice table: one entry per voice, in order.
pub open spec fn downgraded_voices(voices: Seq<vpr::VoiceView>) -> Seq<VoiceView> {
    Seq::new(voices.len(), |i: int| downgraded_voice(voices[i], i))
}

/// A tempo change keeps its tick and its value.
pub open spec fn downgraded_tempo(e: ControlChange<i64>) -> TempoView {
    TempoView { position: e.pos, value: e.value }
}

/// A time-signature change keeps its bar, numerator and denominator.
pub open spec fn downgraded_time_signature(e: TimeSignatureEvent) -> TimeSignatureView {
    TimeSignatureView { position: e.bar, numerator: e.numerator, denominator: e.denominator }
}

/// A note keeps tick, length, pitch, velocity, lyric and phonemes, and gets
/// the stock style. A length is read as a signed number of the same 64 bits.
pub open spec fn downgraded_note(n: vpr::NoteView) -> NoteView {
    NoteView {
        position: n.pos,
        duration: n.duration as i64,
        note_num: n.number,
        velocity: n.velocity as i64,
        lyric: n.lyric,
        phoneme: n.phoneme,
        style: Style::spec_default(),
    }
}

/// The notes of a part, in order.
pub open spec fn downgraded_notes(notes: Seq<vpr::NoteView>) -> Seq<NoteView> {
    Seq::new(notes.len(), |i: int| downgraded_note(notes[i]))
}

/// The bank number of a part's singer: the language id that the part's own
/// voice gives, else that of the voice-table entry, else 0.
pub open spec fn singer_bank(part_voice: vpr::VoiceView, table_voice: vpr::VoiceView) -> i64 {
    match part_voice.lang_id {
        Some(l) => l,
        None => match table_voice.lang_id {
            Some(l) => l,
            None => 0,
        },
    }
}

/// A part, moved back by the lead-in, with the one singer that its voice
/// refers to; or the component id of its voice where the table lacks it.
pub open spec fn downgraded_part(p: vpr::PartView, voices: Seq<vpr::VoiceView>) -> Result<
    VsPartView,
    Seq<char>,
> {
    match voice_index(voices, p.voice.comp_id) {
        None => Err(p.voice.comp_id),
        Some(i) => Ok(
            VsPartView {
                position: (p.pos + LEAD_IN_TICKS) as i64,
                play_time: Some(p.duration),
                singers: seq![
                    SingerView { position: 0, bs: singer_bank(p.voice, voices[i]), pc: i as i64 },
                ],
                notes: downgraded_notes(p.notes),
                ..VsPart::spec_default()
            },
        ),
    }
}

/// The parts of a track in order, or the component id that the first part
/// with an unknown voice names.
pub open spec fn downgraded_parts(parts: Seq<vpr::PartView>, voices: Seq<vpr::VoiceView>) -> Result<
    Seq<VsPartView>,
    Seq<char>,
>
    decreases parts.len(),
{
    if parts.len() == 0 {
        Ok(Seq::empty())
    } else {
        match downgraded_parts(parts.drop_last(), voices) {
            Err(id) => Err(id),
            Ok(before) => match downgraded_part(parts.last(), voices) {
                Err(id) => Err(id),
                Ok(p) => Ok(before.push(p)),
            },
        }
    }
}

/// The vocal tracks in order, each numbered by its place among all tracks, or
/// the component id that the first part with an unknown voice names. Tracks
/// of another type leave no trace.
pub open spec fn downgraded_tracks(
    tracks: Seq<vpr::TrackView>,
    voices: Seq<vpr::VoiceView>,
) -> Result<Seq<VsTrackView>, Seq<char>>
    decreases tracks.len(),
{
    if tracks.len() == 0 {
        Ok(Seq::empty())
    } else {
        match downgraded_tracks(tracks.drop_last(), voices) {
            Err(id) => Err(id),
            Ok(before) => if tracks.last().track_type != 0 {
                Ok(before)
            } else {
                match downgraded_parts(tracks.last().parts, voices) {
                    Err(id) => Err(id),
                    Ok(parts) => Ok(
                        before.push(
                            VsTrackView {
                                track_no: (tracks.len() - 1) as i64,
                                parts,
                                ..VsTrack::spec_default()
                            },
                        ),
                    ),
                }
            },
        }
    }
}

/// One mixer unit per kept track, under the track's number.
pub open spec fn mixer_units(tracks: Seq<VsTrackView>) -> Seq<VsUnitView> {
    Seq::new(
        tracks.len(),
        |i: int| VsUnitView { track_no: tracks[i].track_no, ..VsUnit::spec_default() },
    )
}

/// The downgraded project, or the component id that the first part with an
/// unknown voice names. Tempo and time-signature changes are taken over, the
/// lead-in is zero, the mixer has one default mono and one default stereo unit
/// beside the units of the kept tracks; everything else is as in a fresh
/// project of the earlier format.
pub open spec fn downgraded(v: vpr::VprView) -> Result<VsqxView, Seq<char>> {
    match downgraded_tracks(v.tracks, v.voices) {
        Err(id) => Err(id),
        Ok(tracks) => Ok(
            VsqxView {
                voice_table: VoiceTableView { voices: downgraded_voices(v.voices) },
                mixer: MixerView {
                    master_unit: MasterUnit::spec_default(),
                    vs_unit: mixer_units(tracks),
                    mono_unit: seq![MonoUnit::spec_default()],
                    stereo_unit: seq![StereoUnit::spec_default()],
                },
                master_track: MasterTrackView {
                    pre_measure: 0,
                    time_signatures: Seq::new(
                        v.master_track.time_sig.events.len(),
                        |i: int| downgraded_time_signature(v.master_track.time_sig.events[i]),
                    ),
                    tempos: Seq::new(
                        v.master_track.tempo.events.len(),
                        |i: int| downgraded_tempo(v.master_track.tempo.events[i]),
                    ),
                    ..MasterTrack::spec_default()
                },
                vs_track: tracks,
                ..Vsqx4::spec_default()
            },
        ),
    }
}

/// Whether every part of every vocal track names a voice of the project.
pub open spec fn voices_known(v: vpr::VprView) -> bool {
    forall|i: int, j: int|
        0 <= i < v.tracks.len() && v.tracks[i].track_type == 0 && 0 <= j < v.tracks[i].parts.len()
            ==> voice_index(v.voices, (#[trigger] v.tracks[i].parts[j]).voice.comp_id) is Some
}

/// Whether every part of a vocal track still starts within the range of a
/// signed 64-bit tick count once it is moved back by the lead-in.
pub open spec fn fits_vsqx4(v: vpr::VprView) -> bool {
    forall|i: int, j: int|
        0 <= i < v.tracks.len() && v.tracks[i].track_type == 0 && 0 <= j < v.tracks[i].parts.len()
            ==> #[trigger] v.tracks[i].parts[j].pos + LEAD_IN_TICKS <= i64::MAX
}

/// Whether `convert_vpr_to_vsqx4` may be called on a project.
pub fn check_fits_vsqx4(vpr: &Vpr) -> (b: bool)
    ensures
        b == fits_vsqx4(vpr@),
{
    let mut i: usize = 0;
    while i < vpr.tracks.len()
        invariant
            i <= vpr.tracks.len(),
            forall|a: int, j: int|
                0 <= a < i && vpr@.tracks[a].track_type == 0 && 0 <= j < vpr@.tracks[a].parts.len()
                    ==> #[trigger] vpr@.tracks[a].parts[j].pos + LEAD_IN_TICKS <= i64::MAX,
        decreases vpr.tracks.len() - i,
    {
        let track = &vpr.tracks[i];
        if track.track_type == 0 {
            let mut j: usize = 0;
            while j < track.parts.len()
                invariant
                    j <= track.parts.len(),
                    i < vpr.tracks.len(),
                    vpr@.tracks[i as int] == track@,
                    track.track_type == 0,
                    forall|b: int|
                        0 <= b < j ==> #[trigger] track@.parts[b].pos + LEAD_IN_TICKS <= i64::MAX,
                decreases track.parts.len() - j,
            {
                if track.parts[j].pos > (i64::MAX - LEAD_IN_TICKS) as u64 {
                    assert(vpr@.tracks[i as int].parts[j as int].pos + LEAD_IN_TICKS > i64::MAX);
                    return false;
                }
                j += 1;
            }
        }
        i += 1;
    }
    true
}

/// Looks a component id up in the voice table.
fn find_voice(voices: &Vec<vpr::Voice>, comp_id: &String) -> (r: Option<usize>)
    ensures
        match voice_index(voices.deep_view(), comp_id@) {
            Some(i) => r == Some(i as usize) && 0 <= i < voices.len(),
            None => r is None,
        },
{
    let ghost all = voices.deep_view();
    let mut i: usize = voices.len();
    proof {
        lemma_take_all(all);
    }
    while i > 0
        invariant
            i <= voices.len(),
            all == voices.deep_view(),
            voice_index(all, comp_id@) == voice_index(all.take(i as int), comp_id@),
        decreases i,
    {
        proof {
            lemma_take_next(all, i - 1);
        }
        if voices[i - 1].comp_id == *comp_id {
            return Some(i - 1);
        }
        i -= 1;
    }
    None
}

fn convert_note(note: &vpr::Note) -> (r: Note)
    ensures
        r@ == downgraded_note(note@),
{
    Note {
        position: note.pos,
        duration: #[verifier::truncate] (note.duration as i64),
        note_num: note.number,
        velocity: note.velocity as i64,
        lyric: note.lyric.clone(),
        phoneme: note.phoneme.clone(),
        style: Style::default(),
    }
}

fn convert_notes(notes: &Vec<vpr::Note>) -> (r: Vec<Note>)
    ensures
        r.deep_view() == downgraded_notes(notes.deep_view()),
{
    let ghost target = downgraded_notes(notes.deep_view());
    let mut out: Vec<Note> = Vec::new();
    proof {
        lemma_deep_view_empty(out);
    }
    let mut i: usize = 0;
    while i < notes.len()
        invariant
            i <= notes.len(),
            target == downgraded_notes(notes.deep_view()),
            out.deep_view() == target.take(i as int),
        decreases notes.len() - i,
    {
        let ghost before = out;
        let n = convert_note(&notes[i]);
        out.push(n);
        proof {
            lemma_deep_view_push(before, out, n);
            lemma_take_next(target, i as int);
        }
        i += 1;
    }
    proof {
        lemma_take_all(target);
    }
    out
}

fn convert_part(part: &vpr::Part, voices: &Vec<vpr::Voice>) -> (r: Result<VsPart, ConvertError>)
    requires
        part.pos + LEAD_IN_TICKS <= i64::MAX,
    ensures
        match downgraded_part(part@, voices.deep_view()) {
            Ok(p) => r matches Ok(x) && x@ == p,
            Err(id) => r matches Err(ConvertError::VoiceReference(s)) && s@ == id,
        },
{
    let singer_id = match find_voice(voices, &part.voice.comp_id) {
        Some(i) => i,
        None => {
            return Err(ConvertError::VoiceReference(part.voice.comp_id.clone()));
        },
    };
    let bs = match part.voice.lang_id {
        Some(l) => l,
        None => match voices[singer_id].lang_id {
            Some(l) => l,
            None => 0,
        },
    };
    let mut p = VsPart::default();
    // The lead-in of the earlier editor: see `LEAD_IN_TICKS`.
    p.position = part.pos as i64 + LEAD_IN_TICKS;
    p.play_time = Some(part.duration);
    let ghost empty = p.singers;
    let singer = Singer { position: 0, bs, pc: #[verifier::truncate] (singer_id as i64) };
    p.singers.push(singer);
    p.notes = convert_notes(&part.notes);
    proof {
        lemma_deep_view_push(empty, p.singers, singer);
    }
    Ok(p)
}

/// Once a prefix of the parts has run into an unknown voice, so has the
/// whole: the first failure is the one that is reported.
proof fn lemma_parts_error_stays(
    parts: Seq<vpr::PartView>,
    voices: Seq<vpr::VoiceView>,
    i: int,
)
    requires
        0 <= i <= parts.len(),
        downgraded_parts(parts.take(i), voices) is Err,
    ensures
        downgraded_parts(parts, voices) == downgraded_parts(parts.take(i), voices),
    decreases parts.len() - i,
{
    if i < parts.len() {
        lemma_take_next(parts, i);
        lemma_parts_error_stays(parts, voices, i + 1);
    } else {
        lemma_take_all(parts);
    }
}

/// The same for tracks.
proof fn lemma_tracks_error_stays(
    tracks: Seq<vpr::TrackView>,
    voices: Seq<vpr::VoiceView>,
    i: int,
)
    requires
        0 <= i <= tracks.len(),
        downgraded_tracks(tracks.take(i), voices) is Err,
    ensures
        downgraded_tracks(tracks, voices) == downgraded_tracks(tracks.take(i), voices),
    decreases tracks.len() - i,
{
    if i < tracks.len() {
        lemma_take_next(tracks, i);
        lemma_tracks_error_stays(tracks, voices, i + 1);
    } else {
        lemma_take_all(tracks);
    }
}

fn convert_parts(parts: &Vec<vpr::Part>, voices: &Vec<vpr::Voice>) -> (r: Result<
    Vec<VsPart>,
    ConvertError,
>)
    requires
        forall|j: int|
            0 <= j < parts.deep_view().len() ==> #[trigger] parts.deep_view()[j].pos
                + LEAD_IN_TICKS <= i64::MAX,
    ensures
        match downgraded_parts(parts.deep_view(), voices.deep_view()) {
            Ok(ps) => r matches Ok(x) && x.deep_view() == ps,
            Err(id) => r matches Err(ConvertError::VoiceReference(s)) && s@ == id,
        },
{
    let ghost all = parts.deep_view();
    let ghost table = voices.deep_view();
    let mut out: Vec<VsPart> = Vec::new();
    proof {
        lemma_deep_view_empty(out);
    }
    let mut i: usize = 0;
    while i < parts.len()
        invariant
            i <= parts.len(),
            all == parts.deep_view(),
            table == voices.deep_view(),
            forall|j: int| 0 <= j < all.len() ==> #[trigger] all[j].pos + LEAD_IN_TICKS <= i64::MAX,
            downgraded_parts(all.take(i as int), table) == Ok::<Seq<VsPartView>, Seq<char>>(
                out.deep_view(),
            ),
        decreases parts.len() - i,
    {
        proof {
            lemma_take_next(all, i as int);
            assert(all[i as int].pos + LEAD_IN_TICKS <= i64::MAX);
        }
        match convert_part(&parts[i], voices) {
            Err(e) => {
                proof {
                    lemma_parts_error_stays(all, table, i + 1);
                }
                return Err(e);
            },
            Ok(p) => {
                let ghost before = out;
                out.push(p);
                proof {
                    lemma_deep_view_push(before, out, p);
                }
            },
        }
        i += 1;
    }
    proof {
        lemma_take_all(all);
    }
    Ok(out)
}

fn convert_voices(voices: &Vec<vpr::Voice>) -> (r: Vec<Voice>)
    ensures
        r.deep_view() == downgraded_voices(voices.deep_view()),
{
    let ghost target = downgraded_voices(voices.deep_view());
    let mut out: Vec<Voice> = Vec::new();
    proof {
        lemma_deep_view_empty(out);
    }
    let mut i: usize = 0;
    while i < voices.len()
        invariant
            i <= voices.len(),
            target == downgraded_voices(voices.deep_view()),
            out.deep_view() == target.take(i as int),
        decreases voices.len() - i,
    {
        let vx = &voices[i];
        let voice = Voice {
            bs: match vx.lang_id {
                Some(l) => l,
                None => 0,
            },
            pc: #[verifier::truncate] (i as i64),
            id: vx.comp_id.clone(),
            name: match &vx.name {
                Some(n) => n.clone(),
                None => String::new(),
            },
            parameters: VoiceParameters::default(),
        };
        let ghost before = out;
        out.push(voice);
        proof {
            lemma_deep_view_push(before, out, voice);
            lemma_take_next(target, i as int);
        }
        i += 1;
    }
    proof {
        lemma_take_all(target);
    }
    out
}

fn convert_tempos(events: &Vec<ControlChange>) -> (r: Vec<Tempo>)
    ensures
        r.deep_view() == Seq::new(
            events.deep_view().len(),
            |i: int| downgraded_tempo(events.deep_view()[i]),
        ),
{
    let ghost target = Seq::new(
        events.deep_view().len(),
        |i: int| downgraded_tempo(events.deep_view()[i]),
    );
    let mut out: Vec<Tempo> = Vec::new();
    proof {
        lemma_deep_view_empty(out);
    }
    let mut i: usize = 0;
    while i < events.len()
        invariant
            i <= events.len(),
            target == Seq::new(
                events.deep_view().len(),
                |i: int| downgraded_tempo(events.deep_view()[i]),
            ),
            out.deep_view() == target.take(i as int),
        decreases events.len() - i,
    {
        let tempo = Tempo { position: events[i].pos, value: events[i].value };
        let ghost before = out;
        out.push(tempo);
        proof {
            lemma_deep_view_push(before, out, tempo);
            lemma_take_next(target, i as int);
        }
        i += 1;
    }
    proof {
        lemma_take_all(target);
    }
    out
}

fn convert_time_signatures(events: &Vec<TimeSignatureEvent>) -> (r: Vec<TimeSignature>)
    ensures
        r.deep_view() == Seq::new(
            events.deep_view().len(),
            |i: int| downgraded_time_signature(events.deep_view()[i]),
        ),
{
    let ghost target = Seq::new(
        events.deep_view().len(),
        |i: int| downgraded_time_signature(events.deep_view()[i]),
    );
    let mut out: Vec<TimeSignature> = Vec::new();
    proof {
        lemma_deep_view_empty(out);
    }
    let mut i: usize = 0;
    while i < events.len()
        invariant
            i <= events.len(),
            target == Seq::new(
                events.deep_view().len(),
                |i: int| downgraded_time_signature(events.deep_view()[i]),
            ),
            out.deep_view() == target.take(i as int),
        decreases events.len() - i,
    {
        let ts = &events[i];
        let sig = TimeSignature {
            position: ts.bar,
            numerator: ts.numerator,
            denominator: ts.denominator,
        };
        let ghost before = out;
        out.push(sig);
        proof {
            lemma_deep_view_push(before, out, sig);
            lemma_take_next(target, i as int);
        }
        i += 1;
    }
    proof {
        lemma_take_all(target);
    }
    out
}

/// Downgrades a project.
///
/// Succeeds exactly where every part of every vocal track names a voice of
/// the project. Else it fails, with the component id in question, on the first
/// part whose voice is unknown; no voice is put in its place. Parts of dropped
/// tracks are not looked at.
pub fn convert_vpr_to_vsqx4(vpr: &Vpr) -> (r: Result<Vsqx4, ConvertError>)
    requires
        fits_vsqx4(vpr@),
    ensures
        r is Ok <==> voices_known(vpr@),
        match downgraded(vpr@) {
            Ok(v) => r matches Ok(x) && x@ == v,
            Err(id) => r matches Err(ConvertError::VoiceReference(s)) && s@ == id,
        },
{
    proof {
        law_downgrade_succeeds_iff(vpr@);
    }
    let ghost all = vpr@.tracks;
    let ghost table = vpr@.voices;

    // Vocal tracks, and one mixer unit for each.
    let mut vs_track: Vec<VsTrack> = Vec::new();
    let mut vs_unit: Vec<VsUnit> = Vec::new();
    proof {
        lemma_deep_view_empty(vs_track);
        lemma_deep_view_empty(vs_unit);
    }
    let mut i: usize = 0;
    while i < vpr.tracks.len()
        invariant
            i <= vpr.tracks.len(),
            all == vpr@.tracks,
            table == vpr@.voices,
            fits_vsqx4(vpr@),
            downgraded_tracks(all.take(i as int), table) == Ok::<Seq<VsTrackView>, Seq<char>>(
                vs_track.deep_view(),
            ),
            vs_unit.deep_view() == mixer_units(vs_track.deep_view()),
        decreases vpr.tracks.len() - i,
    {
        let track = &vpr.tracks[i];
        proof {
            lemma_take_next(all, i as int);
        }
        // Anything but a vocal track is left out.
        if track.track_type == 0 {
            proof {
                assert forall|j: int| 0 <= j < track.parts.deep_view().len() implies #[trigger]
                    track.parts.deep_view()[j].pos + LEAD_IN_TICKS <= i64::MAX by {
                    // What `fits_vsqx4` says of track `i`.
                }
            }
            let parts = match convert_parts(&track.parts, &vpr.voices) {
                Ok(parts) => parts,
                Err(e) => {
                    proof {
                        lemma_tracks_error_stays(all, table, i + 1);
                        law_downgrade_succeeds_iff(vpr@);
                    }
                    return Err(e);
                },
            };
            let mut vsqx_track = VsTrack::default();
            vsqx_track.track_no = #[verifier::truncate] (i as i64);
            vsqx_track.parts = parts;
            let mut unit = VsUnit::default();
            unit.track_no = vsqx_track.track_no;

            let ghost tracks_before = vs_track;
            let ghost units_before = vs_unit;
            vs_unit.push(unit);
            vs_track.push(vsqx_track);
            proof {
                lemma_deep_view_push(units_before, vs_unit, unit);
                lemma_deep_view_push(tracks_before, vs_track, vsqx_track);
            }
        }
        i += 1;
    }
    proof {
        lemma_take_all(all);
    }

    let mut v = Vsqx4::default();

    // Tempo and time-signature changes.
    v.master_track.tempos = convert_tempos(&vpr.master_track.tempo.events);
    v.master_track.pre_measure = 0;
    v.master_track.time_signatures = convert_time_signatures(&vpr.master_track.time_sig.events);

    // The voice table.
    v.voice_table.voices = convert_voices(&vpr.voices);

    // Mixer units of the mono and the stereo track, which only this format has.
    let mut mono_unit: Vec<MonoUnit> = Vec::new();
    mono_unit.push(MonoUnit::default());
    let mut stereo_unit: Vec<StereoUnit> = Vec::new();
    stereo_unit.push(StereoUnit::default());
    v.mixer.mono_unit = mono_unit;
    v.mixer.stereo_unit = stereo_unit;
    v.mixer.vs_unit = vs_unit;
    v.vs_track = vs_track;
    Ok(v)
}

/// Downgrades a project to the third generation by way of the fourth.
pub fn convert_vpr_to_vsqx3(vpr: &Vpr) -> (r: Result<Vsqx3, ConvertError>)
    requires
        fits_vsqx4(vpr@),
    ensures
        r is Ok <==> voices_known(vpr@),
        match downgraded(vpr@) {
            Ok(v) => r matches Ok(x) && x@ == Vsqx3::spec_headed(v),
            Err(id) => r matches Err(ConvertError::VoiceReference(s)) && s@ == id,
        },
{
    match convert_vpr_to_vsqx4(vpr) {
        Ok(v4) => Ok(Vsqx3::from(v4)),
        Err(e) => Err(e),
    }
}

} // verus!
