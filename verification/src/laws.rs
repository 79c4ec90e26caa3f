//! What holds of the converters and of the writer on every project.

use crate::dialect::VsqxView;
use crate::lemmas::{lemma_take_all, lemma_take_next};
use crate::v4to5::{has_voice, upgradable, upgraded};
use crate::v5to4::{
    downgraded, downgraded_part, downgraded_parts, downgraded_tracks, fits_vsqx4, singer_bank,
    voice_index, voices_known, LEAD_IN_TICKS,
};
use crate::vpr::{PartView, TrackView, VoiceView, VprView};
use crate::vsqx3::Vsqx3;
use crate::vsqx4::Vsqx4;
use crate::write_xml::{decimal, escaped_text, signed_decimal, MarkupOfView};
use vstd::prelude::*;

verus! {

/// An upgrade keeps every track, part and note in its place.
pub proof fn law_upgrade_keeps_shape(v: VsqxView)
    ensures
        upgraded(v).tracks.len() == v.vs_track.len(),
        upgraded(v).voices.len() == v.voice_table.voices.len(),
        forall|i: int|
            0 <= i < v.vs_track.len() ==> (#[trigger] upgraded(v).tracks[i]).parts.len()
                == v.vs_track[i].parts.len(),
        forall|i: int, j: int|
            0 <= i < v.vs_track.len() && 0 <= j < v.vs_track[i].parts.len() ==> (
            #[trigger] upgraded(v).tracks[i].parts[j]).notes.len()
                == v.vs_track[i].parts[j].notes.len(),
{
}

/// A note of the upgraded project has the tick, the pitch, the lyric and the
/// phonemes of the note that it was made from; also its length, where that is
/// not negative, and its velocity, where that lies within 0 and 255.
pub proof fn law_upgrade_keeps_notes(v: VsqxView, i: int, j: int, k: int)
    requires
        0 <= i < v.vs_track.len(),
        0 <= j < v.vs_track[i].parts.len(),
        0 <= k < v.vs_track[i].parts[j].notes.len(),
    ensures
        ({
            let before = v.vs_track[i].parts[j].notes[k];
            let after = upgraded(v).tracks[i].parts[j].notes[k];
            &&& after.pos == before.position
            &&& after.number == before.note_num
            &&& after.lyric == before.lyric
            &&& after.phoneme == before.phoneme
            &&& 0 <= before.duration ==> after.duration == before.duration
            &&& 0 <= before.velocity <= 255 ==> after.velocity == before.velocity
        }),
{
}

/// An upgraded part keeps its tick, where that is not negative, and is sung by
/// the voice that its first singer's program number picks.
pub proof fn law_upgrade_keeps_parts(v: VsqxView, i: int, j: int)
    requires
        upgradable(v),
        0 <= i < v.vs_track.len(),
        0 <= j < v.vs_track[i].parts.len(),
    ensures
        ({
            let before = v.vs_track[i].parts[j];
            let after = upgraded(v).tracks[i].parts[j];
            &&& 0 <= before.position ==> after.pos == before.position
            &&& after.voice.comp_id == v.voice_table.voices[before.singers[0].pc as int].id
        }),
{
}

/// What `voice_index` finds: nothing exactly where no entry has the id, and
/// else the last entry that has it.
pub proof fn law_voice_index(voices: Seq<VoiceView>, comp_id: Seq<char>)
    ensures
        match voice_index(voices, comp_id) {
            None => forall|k: int|
                0 <= k < voices.len() ==> (#[trigger] voices[k]).comp_id != comp_id,
            Some(i) => {
                &&& 0 <= i < voices.len()
                &&& voices[i].comp_id == comp_id
                &&& forall|k: int|
                    i < k < voices.len() ==> (#[trigger] voices[k]).comp_id != comp_id
            },
        },
    decreases voices.len(),
{
    if voices.len() > 0 && voices.last().comp_id != comp_id {
        law_voice_index(voices.drop_last(), comp_id);
        match voice_index(voices, comp_id) {
            None => {
                assert forall|k: int| 0 <= k < voices.len() implies (#[trigger] voices[k]).comp_id
                    != comp_id by {
                    if k < voices.len() - 1 {
                        assert(voices[k] == voices.drop_last()[k]);
                    }
                }
            },
            Some(i) => {
                assert forall|k: int| i < k < voices.len() implies (#[trigger] voices[k]).comp_id
                    != comp_id by {
                    if k < voices.len() - 1 {
                        assert(voices[k] == voices.drop_last()[k]);
                    }
                }
            },
        }
    }
}

/// A downgraded part whose voice is in the table starts `LEAD_IN_TICKS` later
/// than before, where that is within range, and its one singer has the place of
/// that voice as program number.
pub proof fn law_downgrade_moves_parts(p: PartView, voices: Seq<VoiceView>)
    requires
        voice_index(voices, p.voice.comp_id) is Some,
        p.pos + LEAD_IN_TICKS <= i64::MAX,
    ensures
        downgraded_part(p, voices) matches Ok(q) && {
            &&& q.position == p.pos + 7680
            &&& q.play_time == Some(p.duration)
            &&& q.singers.len() == 1
            &&& voice_index(voices, p.voice.comp_id) matches Some(i) && (i <= i64::MAX
                ==> q.singers[0].pc == i)
            &&& q.notes.len() == p.notes.len()
        },
{
    law_voice_index(voices, p.voice.comp_id);
}

/// The places, among all tracks, of the vocal tracks, in rising order.
pub open spec fn vocal_indices(tracks: Seq<TrackView>) -> Seq<int>
    decreases tracks.len(),
{
    if tracks.len() == 0 {
        Seq::empty()
    } else if tracks.last().track_type == 0 {
        vocal_indices(tracks.drop_last()).push(tracks.len() - 1)
    } else {
        vocal_indices(tracks.drop_last())
    }
}

/// `vocal_indices` names the vocal tracks, each once, in rising order.
pub proof fn law_vocal_indices(tracks: Seq<TrackView>)
    ensures
        forall|k: int|
            0 <= k < vocal_indices(tracks).len() ==> 0 <= (#[trigger] vocal_indices(tracks)[k])
                < tracks.len() && tracks[vocal_indices(tracks)[k]].track_type == 0,
        forall|k: int, l: int|
            0 <= k < l < vocal_indices(tracks).len() ==> #[trigger] vocal_indices(tracks)[k]
                < #[trigger] vocal_indices(tracks)[l],
        forall|i: int|
            0 <= i < tracks.len() && (#[trigger] tracks[i]).track_type == 0 ==> vocal_indices(
                tracks,
            ).contains(i),
    decreases tracks.len(),
{
    if tracks.len() > 0 {
        let rest = tracks.drop_last();
        law_vocal_indices(rest);
        let found = vocal_indices(tracks);
        assert forall|i: int| 0 <= i < tracks.len() && (#[trigger] tracks[i]).track_type
            == 0 implies found.contains(i) by {
            if i < tracks.len() - 1 {
                assert(rest[i] == tracks[i]);
                let k = choose|k: int|
                    0 <= k < vocal_indices(rest).len() && vocal_indices(rest)[k] == i;
                assert(found[k] == i);
            } else {
                assert(found[found.len() - 1] == i);
            }
        }
    }
}

/// Where a downgrade succeeds, its tracks are the vocal tracks and no others,
/// in their order; each is numbered by its place among all tracks and holds the
/// downgraded parts of the track at that place.
pub proof fn law_downgrade_keeps_vocal_tracks(tracks: Seq<TrackView>, voices: Seq<VoiceView>)
    requires
        downgraded_tracks(tracks, voices) is Ok,
    ensures
        ({
            let kept = downgraded_tracks(tracks, voices)->Ok_0;
            &&& kept.len() == vocal_indices(tracks).len()
            &&& forall|k: int|
                0 <= k < kept.len() ==> {
                    &&& (#[trigger] kept[k]).track_no == vocal_indices(tracks)[k] as i64
                    &&& downgraded_parts(tracks[vocal_indices(tracks)[k]].parts, voices) == Ok::<
                        _,
                        Seq<char>,
                    >(kept[k].parts)
                }
        }),
    decreases tracks.len(),
{
    if tracks.len() > 0 {
        let rest = tracks.drop_last();
        law_downgrade_keeps_vocal_tracks(rest, voices);
        law_vocal_indices(rest);
    }
}

/// A part with an unknown voice makes the parts that hold it fail.
pub proof fn law_unknown_voice_fails_parts(parts: Seq<PartView>, voices: Seq<VoiceView>, j: int)
    requires
        0 <= j < parts.len(),
        voice_index(voices, parts[j].voice.comp_id) is None,
    ensures
        downgraded_parts(parts, voices) is Err,
    decreases parts.len(),
{
    if j < parts.len() - 1 {
        law_unknown_voice_fails_parts(parts.drop_last(), voices, j);
    }
}

/// A failing vocal track makes the tracks that hold it fail.
pub proof fn law_unknown_voice_fails_tracks(tracks: Seq<TrackView>, voices: Seq<VoiceView>, i: int)
    requires
        0 <= i < tracks.len(),
        tracks[i].track_type == 0,
        downgraded_parts(tracks[i].parts, voices) is Err,
    ensures
        downgraded_tracks(tracks, voices) is Err,
    decreases tracks.len(),
{
    if i < tracks.len() - 1 {
        law_unknown_voice_fails_tracks(tracks.drop_last(), voices, i);
    }
}

/// A project with a part, on a vocal track, whose voice names a component id
/// that no voice of the project has cannot be downgraded; the downgrade ends in
/// a voice-reference failure and puts no voice in its place. (A part of a track
/// of another type is dropped with its track, whatever its voice.)
pub proof fn law_unknown_voice_fails(v: VprView, i: int, j: int)
    requires
        0 <= i < v.tracks.len(),
        v.tracks[i].track_type == 0,
        0 <= j < v.tracks[i].parts.len(),
        forall|k: int|
            0 <= k < v.voices.len() ==> (#[trigger] v.voices[k]).comp_id
                != v.tracks[i].parts[j].voice.comp_id,
    ensures
        downgraded(v) is Err,
{
    let id = v.tracks[i].parts[j].voice.comp_id;
    law_voice_index(v.voices, id);
    law_unknown_voice_fails_parts(v.tracks[i].parts, v.voices, j);
    law_unknown_voice_fails_tracks(v.tracks, v.voices, i);
}

/// Where every part of every vocal track names a voice of the project, the
/// downgrade succeeds.
pub proof fn law_known_voices_succeed(v: VprView)
    requires
        voices_known(v),
    ensures
        downgraded(v) is Ok,
{
    assert forall|i: int| 0 <= i <= v.tracks.len() implies #[trigger] downgraded_tracks(
        v.tracks.take(i),
        v.voices,
    ) is Ok by {
        lemma_known_tracks_succeed(v, i);
    }
    lemma_take_all(v.tracks);
}

/// Parts whose voices are all known can be downgraded, however many of them are
/// taken.
proof fn lemma_known_parts_succeed(parts: Seq<PartView>, voices: Seq<VoiceView>, n: int)
    requires
        0 <= n <= parts.len(),
        forall|j: int|
            0 <= j < parts.len() ==> voice_index(
                voices,
                (#[trigger] parts[j]).voice.comp_id,
            ) is Some,
    ensures
        downgraded_parts(parts.take(n), voices) is Ok,
    decreases n,
{
    if n > 0 {
        lemma_known_parts_succeed(parts, voices, n - 1);
        lemma_take_next(parts, n - 1);
    }
}

/// The same for tracks.
proof fn lemma_known_tracks_succeed(v: VprView, n: int)
    requires
        0 <= n <= v.tracks.len(),
        voices_known(v),
    ensures
        downgraded_tracks(v.tracks.take(n), v.voices) is Ok,
    decreases n,
{
    if n > 0 {
        lemma_known_tracks_succeed(v, n - 1);
        lemma_take_next(v.tracks, n - 1);
        let t = v.tracks[n - 1];
        if t.track_type == 0 {
            lemma_known_parts_succeed(t.parts, v.voices, t.parts.len() as int);
            lemma_take_all(t.parts);
        }
    }
}

/// A downgrade succeeds exactly where every part of every vocal track names a
/// voice of the project.
pub proof fn law_downgrade_succeeds_iff(v: VprView)
    ensures
        downgraded(v) is Ok <==> voices_known(v),
{
    if voices_known(v) {
        law_known_voices_succeed(v);
    } else {
        let (i, j) = choose|i: int, j: int|
            0 <= i < v.tracks.len() && v.tracks[i].track_type == 0 && 0 <= j
                < v.tracks[i].parts.len() && !(voice_index(
                v.voices,
                (#[trigger] v.tracks[i].parts[j]).voice.comp_id,
            ) is Some);
        law_unknown_voice_fails_parts(v.tracks[i].parts, v.voices, j);
        law_unknown_voice_fails_tracks(v.tracks, v.voices, i);
    }
}

/// Where the parts of a track can be downgraded, each is downgraded by itself
/// and stays in its place.
pub proof fn law_downgrade_keeps_parts(parts: Seq<PartView>, voices: Seq<VoiceView>)
    requires
        downgraded_parts(parts, voices) is Ok,
    ensures
        ({
            let kept = downgraded_parts(parts, voices)->Ok_0;
            &&& kept.len() == parts.len()
            &&& forall|j: int|
                0 <= j < parts.len() ==> downgraded_part(#[trigger] parts[j], voices) == Ok::<
                    _,
                    Seq<char>,
                >(kept[j])
        }),
    decreases parts.len(),
{
    if parts.len() > 0 {
        let rest = parts.drop_last();
        law_downgrade_keeps_parts(rest, voices);
        let kept = downgraded_parts(parts, voices)->Ok_0;
        assert forall|j: int| 0 <= j < parts.len() implies downgraded_part(
            #[trigger] parts[j],
            voices,
        ) == Ok::<_, Seq<char>>(kept[j]) by {
            if j < rest.len() {
                assert(parts[j] == rest[j]);
            }
        }
    }
}

/// In a downgraded project, the part at place `j` of the `k`-th kept track is
/// made from the part at place `j` of the `k`-th vocal track. It has one
/// singer, from tick 0, whose program number is a place in the project's
/// voices where the voice has the component id that the part names, and whose
/// bank number is the part's own language id, else that voice's, else 0. This
/// needs the number of voices to be within the range of a signed 64-bit
/// number, in which the program number is held.
pub proof fn law_downgrade_names_the_voice(v: VprView, k: int, j: int)
    requires
        downgraded(v) is Ok,
        v.voices.len() <= i64::MAX,
        0 <= k < vocal_indices(v.tracks).len(),
        0 <= j < v.tracks[vocal_indices(v.tracks)[k]].parts.len(),
    ensures
        ({
            let before = v.tracks[vocal_indices(v.tracks)[k]].parts[j];
            let kept = (downgraded(v)->Ok_0).vs_track;
            let singer = kept[k].parts[j].singers[0];
            &&& k < kept.len()
            &&& j < kept[k].parts.len()
            &&& kept[k].parts[j].singers.len() == 1
            &&& singer.position == 0
            &&& 0 <= singer.pc < v.voices.len()
            &&& v.voices[singer.pc as int].comp_id == before.voice.comp_id
            &&& singer.bs == singer_bank(before.voice, v.voices[singer.pc as int])
            &&& voice_index(v.voices, before.voice.comp_id) == Some(singer.pc as int)
        }),
{
    law_downgrade_keeps_vocal_tracks(v.tracks, v.voices);
    law_vocal_indices(v.tracks);
    let parts = v.tracks[vocal_indices(v.tracks)[k]].parts;
    law_downgrade_keeps_parts(parts, v.voices);
    law_voice_index(v.voices, parts[j].voice.comp_id);
}

/// An upgrade keeps a project well formed, and a well-formed project can be
/// upgraded.
pub proof fn law_upgrade_keeps_well_formed(v: VsqxView)
    requires
        v.well_formed(),
    ensures
        upgradable(v),
        upgraded(v).well_formed(),
{
}

/// Whether the lengths of all notes on vocal tracks, and the number of voices,
/// are within the range of a signed 64-bit number.
pub open spec fn sizes_fit_vsqx4(v: VprView) -> bool {
    &&& v.voices.len() <= i64::MAX
    &&& forall|i: int, j: int, k: int|
        0 <= i < v.tracks.len() && v.tracks[i].track_type == 0 && 0 <= j < v.tracks[i].parts.len()
            && 0 <= k < v.tracks[i].parts[j].notes.len() ==> (
        #[trigger] v.tracks[i].parts[j].notes[k]).duration <= i64::MAX
}

/// A well-formed project that fits can be downgraded, and the downgrade keeps
/// it well formed.
pub proof fn law_downgrade_keeps_well_formed(v: VprView)
    requires
        v.well_formed(),
        fits_vsqx4(v),
        sizes_fit_vsqx4(v),
    ensures
        downgraded(v) matches Ok(d) && d.well_formed(),
{
    assert(voices_known(v)) by {
        assert forall|i: int, j: int|
            0 <= i < v.tracks.len() && v.tracks[i].track_type == 0 && 0 <= j
                < v.tracks[i].parts.len() implies voice_index(
            v.voices,
            (#[trigger] v.tracks[i].parts[j]).voice.comp_id,
        ) is Some by {
            law_voice_index(v.voices, v.tracks[i].parts[j].voice.comp_id);
        }
    }
    law_known_voices_succeed(v);
    let d = downgraded(v)->Ok_0;
    let places = vocal_indices(v.tracks);
    law_downgrade_keeps_vocal_tracks(v.tracks, v.voices);
    law_vocal_indices(v.tracks);
    assert forall|a: int, b: int|
        0 <= a < d.vs_track.len() && 0 <= b < d.vs_track[a].parts.len() implies (
    #[trigger] d.vs_track[a].parts[b]).well_formed(d.voice_table.voices.len() as int) by {
        let i = places[a];
        let before = v.tracks[i].parts;
        law_downgrade_keeps_parts(before, v.voices);
        law_voice_index(v.voices, before[b].voice.comp_id);
    }
}

/// A project taken to the other dialect and back is the project it was but for
/// the four header strings, which are then those of its own dialect. A project
/// that had them before comes back unchanged.
pub proof fn law_bridge_round_trip(v: VsqxView)
    ensures
        Vsqx4::spec_headed(Vsqx3::spec_headed(v)) == Vsqx4::spec_headed(v),
        Vsqx4::spec_headed(Vsqx3::spec_headed(v)).same_content(v),
        Vsqx4::spec_headed(v) == v ==> Vsqx4::spec_headed(Vsqx3::spec_headed(v)) == v,
        Vsqx3::spec_headed(Vsqx4::spec_headed(v)) == Vsqx3::spec_headed(v),
        Vsqx3::spec_headed(Vsqx4::spec_headed(v)).same_content(v),
{
}

/// The document of a project depends on nothing but the project's value. Two
/// projects that are equal as values are written as the same document; so a
/// project that is read back equal from its document is written again as that
/// document.
pub proof fn law_document_of_view(a: Vsqx4, b: Vsqx4)
    requires
        a@ == b@,
    ensures
        a.spec_document() == b.spec_document(),
{
    a.lemma_markup_of_view(&b);
}

/// The same for the earlier dialect.
pub proof fn law_document_of_view_vsqx3(a: Vsqx3, b: Vsqx3)
    requires
        a@ == b@,
    ensures
        a.spec_document() == b.spec_document(),
{
    a.lemma_markup_of_view(&b);
}

/// No digit is one of the five special characters.
proof fn lemma_decimal_is_plain(n: nat)
    ensures
        escaped_text(decimal(n)) == decimal(n),
    decreases n,
{
    if n < 10 {
        let s = decimal(n);
        assert(escaped_text(s.drop_last()) =~= Seq::empty());
    } else {
        lemma_decimal_is_plain(n / 10);
        let s = decimal(n);
        assert(s.drop_last() =~= decimal(n / 10));
        assert(escaped_text(s) =~= s);
    }
}

/// Text in front of plain text is escaped by itself.
proof fn lemma_escaped_concat(a: Seq<char>, b: Seq<char>)
    ensures
        escaped_text(a + b) == escaped_text(a) + escaped_text(b),
    decreases b.len(),
{
    if b.len() > 0 {
        lemma_escaped_concat(a, b.drop_last());
        assert((a + b).drop_last() =~= a + b.drop_last());
    }
}

/// A number stands in a document as it is written: escaping leaves the decimal
/// text of an integer unchanged.
pub proof fn law_number_text_is_plain(v: int)
    ensures
        escaped_text(signed_decimal(v)) == signed_decimal(v),
{
    if v < 0 {
        let sign = seq!['-'];
        lemma_decimal_is_plain((-v) as nat);
        lemma_escaped_concat(sign, decimal((-v) as nat));
        assert(escaped_text(sign.drop_last()) =~= Seq::empty());
    } else {
        lemma_decimal_is_plain(v as nat);
    }
}

} // verus!
