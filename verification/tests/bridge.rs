use vocaloid::dialect::{relabel_all, Relabel};
use vocaloid::vsqx3;
use vocaloid::vsqx3::Vsqx3;
use vocaloid::vsqx4;
use vocaloid::vsqx4::Vsqx4;

fn full_project() -> Vsqx4 {
    let mut v = Vsqx4::default();
    v.vender = String::from("Someone else");
    v.voice_table.voices[0].parameters.brightness = 7;
    v.mixer.master_unit = vsqx4::MasterUnit { output_device: 1, return_level: 2, volume: 3 };
    v.mixer.vs_unit.push(vsqx4::VsUnit::default());
    v.mixer.mono_unit.push(vsqx4::MonoUnit::default());
    v.mixer.stereo_unit.push(vsqx4::StereoUnit { input_gain: 1, mute: 0, solo: 1, volume: -5 });
    v.master_track.comment = String::from("c");
    let mut part = vsqx4::VsPart::default();
    part.position = 7680;
    part.play_time = Some(960);
    part.name = Some(String::from("P"));
    part.plane = 2;
    part.singers.push(vsqx4::Singer { position: 0, bs: 1, pc: 0 });
    part.control_changes.push(vsqx4::ControlChange { id: String::from("DYN"), pos: 5, value: 99 });
    part.notes.push(vsqx4::Note::default());
    let mut track = vsqx4::VsTrack::default();
    track.parts.push(part);
    v.vs_track.push(track);
    v.aux.push(vsqx4::Aux { id: String::from("i"), content: String::from("c") });
    v
}

#[test]
fn bridge_there_and_back_gives_the_project_again() {
    let v4 = full_project();
    let back = Vsqx4::from(Vsqx3::from(v4.clone()));
    assert_eq!(back, v4);
}

#[test]
fn bridge_sets_the_header_strings_of_the_target() {
    let v3 = Vsqx3::from(full_project());
    assert_eq!(v3.xmlns, "http://www.yamaha.co.jp/vocaloid/schema/vsq3/");
    assert_eq!(v3.xmlns_xsi, "http://www.w3.org/2001/XMLSchema-instance");
    assert_eq!(v3.xsi_schema_location, "http://www.yamaha.co.jp/vocaloid/schema/vsq3/ vsq3.xsd");
    assert_eq!(v3.version, "3.0.0.11");
    assert_eq!(v3.vender, "Someone else");
    let v4 = Vsqx4::from(v3);
    assert_eq!(v4.xmlns, "http://www.yamaha.co.jp/vocaloid/schema/vsq4/");
    assert_eq!(v4.xsi_schema_location, "http://www.yamaha.co.jp/vocaloid/schema/vsq4/ vsq4.xsd");
    assert_eq!(v4.version, "4.0.0.3");
}

#[test]
fn bridge_overwrites_foreign_header_strings_and_nothing_else() {
    let mut odd = full_project();
    odd.xmlns = String::from("urn:x");
    odd.xmlns_xsi = String::from("urn:y");
    odd.xsi_schema_location = String::from("urn:z");
    odd.version = String::from("9");
    let back = Vsqx4::from(Vsqx3::from(odd.clone()));
    assert_ne!(back, odd);
    assert_eq!(back, full_project());
}

/// A project of the later dialect taken to the earlier one: every field
/// arrives in its counterpart.
#[test]
fn test_vsqx3_convert() {
    let v3: Vsqx3 = full_project().into();
    let voice = &v3.voice_table.voices[0];
    assert_eq!(voice.id, "BHHN4EF9BRWTNHAB");
    assert_eq!(voice.name, "Miku(V2)");
    assert_eq!(voice.parameters.brightness, 7);
    assert_eq!(
        v3.mixer.master_unit,
        vsqx3::MasterUnit { output_device: 1, return_level: 2, volume: 3 }
    );
    assert_eq!(v3.mixer.vs_unit.len(), 1);
    assert_eq!(v3.mixer.vs_unit[0].send_level, -898);
    assert_eq!(v3.mixer.se_unit.len(), 1);
    assert_eq!(v3.mixer.se_unit[0].pan, 64);
    assert_eq!(
        v3.mixer.karaoke_unit,
        vec![vsqx3::KaraokeUnit { input_gain: 1, mute: 0, solo: 1, volume: -5 }]
    );
    assert_eq!(v3.master_track.name, "Untitled");
    assert_eq!(v3.master_track.comment, "c");
    assert_eq!(v3.master_track.resolution, 480);
    assert_eq!(v3.master_track.tempos, vec![vsqx3::Tempo { position: 0, value: 12000 }]);
    assert_eq!(
        v3.master_track.time_signatures,
        vec![vsqx3::TimeSignature { position: 0, numerator: 4, denominator: 4 }]
    );
    let part = &v3.vs_track[0].parts[0];
    assert_eq!(part.position, 7680);
    assert_eq!(part.play_time, Some(960));
    assert_eq!(part.name, Some(String::from("P")));
    assert_eq!(part.comment, None);
    assert_eq!(part.plane, 2);
    assert_eq!(part.singers, vec![vsqx3::Singer { position: 0, bs: 1, pc: 0 }]);
    assert_eq!(
        part.control_changes,
        vec![vsqx3::ControlChange { id: String::from("DYN"), pos: 5, value: 99 }]
    );
    assert_eq!(part.notes[0].note_num, 81);
    assert_eq!(part.notes[0].lyric, "\u{3042}");
    assert_eq!(part.notes[0].style.styles.len(), 9);
    assert_eq!(part.notes[0].style.styles[5], vsqx3::StyleKey { id: String::from("opening"), value: 127 });
    assert_eq!(part.style_plugin.version, "3.0.0.1");
    assert_eq!(v3.aux, vec![vsqx3::Aux { id: String::from("i"), content: String::from("c") }]);
}

#[test]
fn records_are_copied_one_by_one() {
    let notes = vec![vsqx4::Note::default(), vsqx4::Note::default()];
    let copied: Vec<vsqx3::Note> = relabel_all(&notes);
    assert_eq!(copied.len(), 2);
    assert_eq!(copied[1].velocity, 64);
    let t: vsqx4::Tempo = vsqx3::Tempo { position: 3, value: 4 }.relabel();
    assert_eq!(t, vsqx4::Tempo { position: 3, value: 4 });
    let none: Vec<vsqx4::Aux> = relabel_all(&Vec::<vsqx3::Aux>::new());
    assert!(none.is_empty());
}
