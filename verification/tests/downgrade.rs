use vocaloid::v5to4::{
    check_fits_vsqx4, convert_vpr_to_vsqx3, convert_vpr_to_vsqx4, LEAD_IN_TICKS,
};
use vocaloid::vpr;
use vocaloid::vpr::Vpr;
use vocaloid::vsqx3::Vsqx3;
use vocaloid::vsqx4;
use vocaloid::ConvertError;

fn voice(comp_id: &str) -> vpr::Voice {
    vpr::Voice { comp_id: String::from(comp_id), lang_id: None, name: None }
}

fn sung_note(pos: i64, duration: u64, number: i64, velocity: u8, lyric: &str, phoneme: &str) -> vpr::Note {
    vpr::Note {
        lyric: String::from(lyric),
        phoneme: String::from(phoneme),
        is_protected: false,
        pos,
        duration,
        number,
        velocity,
        exp: std::collections::HashMap::new(),
        singing_skill: None,
        vibrato: vpr::Vibrato { vibrato_type: 0, duration: 0 },
    }
}

fn part_of(comp_id: &str, pos: u64) -> vpr::Part {
    vpr::Part {
        name: None,
        pos,
        duration: 1920,
        style_name: String::from("No Effect"),
        voice: voice(comp_id),
        midi_effects: vec![],
        notes: vec![],
    }
}

fn track_of(track_type: i64, parts: Vec<vpr::Part>) -> vpr::Track {
    vpr::Track {
        track_type,
        name: Some(String::from("T")),
        color: 3,
        bus_no: 1,
        is_folded: false,
        height_bits: 40.0f64.to_bits(),
        volume: vpr::Volume::default(),
        panpot: vpr::Panpot::default(),
        is_muted: true,
        is_solo_mode: false,
        parts,
    }
}

fn project_of(voices: Vec<vpr::Voice>, tracks: Vec<vpr::Track>) -> Vpr {
    Vpr {
        version: vpr::Version::new(5, 0, 0),
        vender: String::from("Yamaha Corporation"),
        title: String::from("Title"),
        master_track: vpr::MasterTrack {
            sampling_rate: 44100,
            loop_info: vpr::Loop::default(),
            tempo: vpr::Tempo {
                is_folded: false,
                height_bits: 0,
                global: vpr::GlobalTempo { is_enabled: false, value: 12000 },
                events: vec![
                    vpr::ControlChange { pos: 0, value: 14000 },
                    vpr::ControlChange { pos: 960, value: 7000 },
                ],
            },
            time_sig: vpr::TimeSignature {
                is_folded: false,
                events: vec![vpr::TimeSignatureEvent { bar: 0, numerator: 6, denominator: 8 }],
            },
            volume: vpr::Volume::default(),
        },
        voices,
        tracks,
    }
}

#[test]
fn lead_in_is_7680_ticks() {
    assert_eq!(LEAD_IN_TICKS, 7680);
}

#[test]
fn part_at_zero_moves_to_7680() {
    let vpr = project_of(vec![voice("A")], vec![track_of(0, vec![part_of("A", 0)])]);
    let v = convert_vpr_to_vsqx4(&vpr).unwrap();
    assert_eq!(v.vs_track[0].parts[0].position, 7680);
    assert_eq!(v.vs_track[0].parts[0].play_time, Some(1920));
}

#[test]
fn part_moves_by_the_lead_in_wherever_it_is() {
    let vpr = project_of(
        vec![voice("A")],
        vec![track_of(0, vec![part_of("A", 480), part_of("A", 1_000_000)])],
    );
    let v = convert_vpr_to_vsqx4(&vpr).unwrap();
    assert_eq!(v.vs_track[0].parts[0].position, 8160);
    assert_eq!(v.vs_track[0].parts[1].position, 1_007_680);
}

#[test]
fn only_vocal_tracks_are_kept_in_their_order() {
    let vpr = project_of(
        vec![voice("A")],
        vec![
            track_of(0, vec![part_of("A", 0)]),
            track_of(1, vec![part_of("A", 10)]),
            track_of(0, vec![part_of("A", 20), part_of("A", 30)]),
        ],
    );
    let v = convert_vpr_to_vsqx4(&vpr).unwrap();
    assert_eq!(v.vs_track.len(), 2);
    assert_eq!(v.vs_track[0].track_no, 0);
    assert_eq!(v.vs_track[1].track_no, 2);
    assert_eq!(v.vs_track[0].parts.len(), 1);
    assert_eq!(v.vs_track[1].parts.len(), 2);
    assert_eq!(v.vs_track[1].parts[0].position, 7700);
    assert_eq!(v.vs_track[0].name, "Track");
    assert_eq!(v.vs_track[0].comment, "");
}

#[test]
fn mixer_gets_one_unit_per_kept_track_and_the_two_fixed_units() {
    let vpr = project_of(
        vec![voice("A")],
        vec![track_of(2, vec![]), track_of(0, vec![]), track_of(0, vec![])],
    );
    let v = convert_vpr_to_vsqx4(&vpr).unwrap();
    let unit = |track_no| vsqx4::VsUnit { track_no, ..vsqx4::VsUnit::default() };
    assert_eq!(v.mixer.vs_unit, vec![unit(1), unit(2)]);
    assert_eq!(v.mixer.vs_unit[0].send_level, -898);
    assert_eq!(v.mixer.vs_unit[0].pan, 64);
    assert_eq!(v.mixer.mono_unit, vec![vsqx4::MonoUnit::default()]);
    assert_eq!(v.mixer.stereo_unit, vec![vsqx4::StereoUnit::default()]);
    assert_eq!(v.mixer.master_unit, vsqx4::MasterUnit::default());
}

#[test]
fn singer_gets_the_place_of_the_voice_as_program_number() {
    let vpr = project_of(vec![voice("A"), voice("B")], vec![track_of(0, vec![part_of("B", 0)])]);
    let v = convert_vpr_to_vsqx4(&vpr).unwrap();
    assert_eq!(
        v.vs_track[0].parts[0].singers,
        vec![vsqx4::Singer { position: 0, bs: 0, pc: 1 }]
    );
}

#[test]
fn last_of_two_voices_with_one_id_is_chosen() {
    let vpr = project_of(
        vec![voice("A"), voice("B"), voice("A")],
        vec![track_of(0, vec![part_of("A", 0), part_of("B", 0)])],
    );
    let v = convert_vpr_to_vsqx4(&vpr).unwrap();
    assert_eq!(v.vs_track[0].parts[0].singers[0].pc, 2);
    assert_eq!(v.vs_track[0].parts[1].singers[0].pc, 1);
}

#[test]
fn bank_comes_from_the_part_then_from_the_table_then_is_zero() {
    let mut table_voice = voice("A");
    table_voice.lang_id = Some(4);
    let mut own = part_of("A", 0);
    own.voice.lang_id = Some(1);
    let vpr = project_of(
        vec![table_voice, voice("B")],
        vec![track_of(0, vec![own, part_of("A", 0), part_of("B", 0)])],
    );
    let v = convert_vpr_to_vsqx4(&vpr).unwrap();
    let parts = &v.vs_track[0].parts;
    assert_eq!(parts[0].singers[0].bs, 1);
    assert_eq!(parts[1].singers[0].bs, 4);
    assert_eq!(parts[2].singers[0].bs, 0);
}

#[test]
fn unknown_voice_is_a_voice_reference_failure() {
    let vpr = project_of(vec![voice("A")], vec![track_of(0, vec![part_of("A", 0), part_of("X", 0)])]);
    match convert_vpr_to_vsqx4(&vpr) {
        Err(ConvertError::VoiceReference(id)) => assert_eq!(id, "X"),
        other => panic!("expected a voice-reference failure, got {:?}", other),
    }
}

#[test]
fn first_unknown_voice_is_the_one_reported() {
    let vpr = project_of(
        vec![voice("A")],
        vec![
            track_of(0, vec![part_of("A", 0)]),
            track_of(0, vec![part_of("Y", 0), part_of("Z", 0)]),
            track_of(0, vec![part_of("W", 0)]),
        ],
    );
    match convert_vpr_to_vsqx4(&vpr) {
        Err(ConvertError::VoiceReference(id)) => assert_eq!(id, "Y"),
        other => panic!("expected a voice-reference failure, got {:?}", other),
    }
}

#[test]
fn project_without_voices_fails_on_its_first_vocal_part() {
    let vpr = project_of(vec![], vec![track_of(0, vec![part_of("A", 0)])]);
    assert!(matches!(convert_vpr_to_vsqx4(&vpr), Err(ConvertError::VoiceReference(_))));
}

#[test]
fn unknown_voice_on_a_dropped_track_does_not_matter() {
    let vpr = project_of(vec![voice("A")], vec![track_of(1, vec![part_of("X", 0)])]);
    let v = convert_vpr_to_vsqx4(&vpr).unwrap();
    assert!(v.vs_track.is_empty());
    assert!(v.mixer.vs_unit.is_empty());
}

#[test]
fn voice_table_is_numbered_in_order() {
    let mut named = voice("B");
    named.name = Some(String::from("Bee"));
    named.lang_id = Some(3);
    let vpr = project_of(vec![voice("A"), named], vec![]);
    let v = convert_vpr_to_vsqx4(&vpr).unwrap();
    assert_eq!(
        v.voice_table.voices,
        vec![
            vsqx4::Voice {
                bs: 0,
                pc: 0,
                id: String::from("A"),
                name: String::new(),
                parameters: vsqx4::VoiceParameters::default(),
            },
            vsqx4::Voice {
                bs: 3,
                pc: 1,
                id: String::from("B"),
                name: String::from("Bee"),
                parameters: vsqx4::VoiceParameters::default(),
            },
        ]
    );
}

#[test]
fn master_track_takes_tempo_and_time_signature_over() {
    let vpr = project_of(vec![], vec![]);
    let v = convert_vpr_to_vsqx4(&vpr).unwrap();
    assert_eq!(
        v.master_track.tempos,
        vec![
            vsqx4::Tempo { position: 0, value: 14000 },
            vsqx4::Tempo { position: 960, value: 7000 },
        ]
    );
    assert_eq!(
        v.master_track.time_signatures,
        vec![vsqx4::TimeSignature { position: 0, numerator: 6, denominator: 8 }]
    );
    assert_eq!(v.master_track.pre_measure, 0);
    assert_eq!(v.master_track.resolution, 480);
    assert_eq!(v.master_track.name, "Untitled");
    assert_eq!(v.version, "4.0.0.3");
    assert_eq!(v.vender, "Yamaha corporation");
    assert!(v.aux.is_empty());
}

#[test]
fn notes_are_taken_over_with_the_stock_style() {
    let mut part = part_of("A", 0);
    part.notes = vec![
        sung_note(0, 480, 60, 64, "\u{3042}", "a"),
        sung_note(480, 240, 62, 127, "ra", "4 a"),
    ];
    let vpr = project_of(vec![voice("A")], vec![track_of(0, vec![part])]);
    let v = convert_vpr_to_vsqx4(&vpr).unwrap();
    let notes = &v.vs_track[0].parts[0].notes;
    assert_eq!(
        notes[0],
        vsqx4::Note {
            position: 0,
            duration: 480,
            note_num: 60,
            velocity: 64,
            lyric: String::from("\u{3042}"),
            phoneme: String::from("a"),
            style: vsqx4::Style::default(),
        }
    );
    assert_eq!(notes[1].position, 480);
    assert_eq!(notes[1].duration, 240);
    assert_eq!(notes[1].note_num, 62);
    assert_eq!(notes[1].velocity, 127);
    assert_eq!(notes[1].style.styles.len(), 9);
}

#[test]
fn downgraded_part_is_otherwise_a_fresh_part() {
    let vpr = project_of(vec![voice("A")], vec![track_of(0, vec![part_of("A", 0)])]);
    let v = convert_vpr_to_vsqx4(&vpr).unwrap();
    let p = &v.vs_track[0].parts[0];
    let fresh = vsqx4::VsPart::default();
    assert_eq!(p.style_plugin, fresh.style_plugin);
    assert_eq!(p.style, fresh.style);
    assert_eq!(p.name, None);
    assert_eq!(p.comment, None);
    assert!(p.control_changes.is_empty());
    assert_eq!(p.plane, 0);
}

#[test]
fn part_too_late_for_the_lead_in_does_not_fit() {
    let last = (i64::MAX - 7680) as u64;
    let fits = project_of(vec![voice("A")], vec![track_of(0, vec![part_of("A", last)])]);
    assert!(check_fits_vsqx4(&fits));
    assert_eq!(convert_vpr_to_vsqx4(&fits).unwrap().vs_track[0].parts[0].position, i64::MAX);
    let late = project_of(vec![voice("A")], vec![track_of(0, vec![part_of("A", last + 1)])]);
    assert!(!check_fits_vsqx4(&late));
    let dropped = project_of(vec![voice("A")], vec![track_of(1, vec![part_of("A", u64::MAX)])]);
    assert!(check_fits_vsqx4(&dropped));
}

#[test]
fn third_generation_is_reached_by_way_of_the_fourth() {
    let vpr = project_of(vec![voice("A")], vec![track_of(0, vec![part_of("A", 0)])]);
    let v3 = convert_vpr_to_vsqx3(&vpr).unwrap();
    assert_eq!(v3, Vsqx3::from(convert_vpr_to_vsqx4(&vpr).unwrap()));
    assert_eq!(v3.version, "3.0.0.11");
    assert_eq!(v3.vs_track[0].parts[0].position, 7680);
    let bad = project_of(vec![], vec![track_of(0, vec![part_of("A", 0)])]);
    assert!(matches!(convert_vpr_to_vsqx3(&bad), Err(ConvertError::VoiceReference(_))));
}

/// A project downgraded from the later format: the vocal tracks arrive in the
/// earlier one and can be written as a document.
#[test]
fn test_vpr_to_vsqx4() {
    let mut part = part_of("B", 0);
    part.notes = vec![sung_note(0, 480, 60, 64, "\u{3042}", "a")];
    let vpr = project_of(
        vec![voice("A"), voice("B")],
        vec![track_of(0, vec![part]), track_of(1, vec![]), track_of(0, vec![])],
    );
    let v4 = convert_vpr_to_vsqx4(&vpr).unwrap();
    assert_eq!(v4.vs_track.len(), 2);
    let doc = v4.to_string().unwrap();
    assert!(doc.starts_with("<?xml version=\"1.0\" encoding=\"UTF-8\" standalone=\"no\"?>\n<vsq4 "));
    assert!(doc.contains("<vsPart><t>7680</t><playTime>1920</playTime>"));
    assert!(doc.contains("<singer><t>0</t><bs>0</bs><pc>1</pc></singer>"));
    assert!(doc.contains("<y><![CDATA[\u{3042}]]></y><p><![CDATA[a]]></p>"));
    assert!(doc.ends_with("<monoTrack></monoTrack><stTrack></stTrack></vsq4>"));
}
