use vocaloid::vpr;
use vocaloid::vsqx3;
use vocaloid::vsqx4;
use vocaloid::vsqx4::Vsqx4;

#[test]
fn fresh_project_names_the_fourth_dialect() {
    let v = Vsqx4::default();
    assert_eq!(v.xmlns, "http://www.yamaha.co.jp/vocaloid/schema/vsq4/");
    assert_eq!(v.xmlns_xsi, "http://www.w3.org/2001/XMLSchema-instance");
    assert_eq!(v.xsi_schema_location, "http://www.yamaha.co.jp/vocaloid/schema/vsq4/ vsq4.xsd");
    assert_eq!(v.version, "4.0.0.3");
    assert_eq!(v.vender, "Yamaha corporation");
    assert_eq!(v.voice_table, vsqx4::VoiceTable::default());
    assert_eq!(v.mixer, vsqx4::Mixer::default());
    assert_eq!(v.master_track, vsqx4::MasterTrack::default());
    assert!(v.vs_track.is_empty());
    assert!(v.aux.is_empty());
}

#[test]
fn header_strings_of_the_two_dialects() {
    assert_eq!(vsqx4::_vsqx4_default_xmlns(), "http://www.yamaha.co.jp/vocaloid/schema/vsq4/");
    assert_eq!(vsqx4::_vsqx4_default_xmlns_xsi(), "http://www.w3.org/2001/XMLSchema-instance");
    assert_eq!(
        vsqx4::_vsqx4_default_xsi_schema_location(),
        "http://www.yamaha.co.jp/vocaloid/schema/vsq4/ vsq4.xsd"
    );
    assert_eq!(vsqx4::_vsqx4_default_version(), "4.0.0.3");
    assert_eq!(vsqx4::_vsqx4_default_vendor(), "Yamaha corporation");
    assert_eq!(vsqx3::_vsqx3_default_xmlns(), "http://www.yamaha.co.jp/vocaloid/schema/vsq3/");
    assert_eq!(vsqx3::_vsqx3_default_xmlns_xsi(), "http://www.w3.org/2001/XMLSchema-instance");
    assert_eq!(
        vsqx3::_vsqx3_default_xsi_schema_location(),
        "http://www.yamaha.co.jp/vocaloid/schema/vsq3/ vsq3.xsd"
    );
    assert_eq!(vsqx3::_vsqx3_default_version(), "3.0.0.11");
    assert_eq!(vsqx3::_vsqx3_default_vendor(), "Yamaha corporation");
    assert_eq!(vpr::vpr_vender(), "Yamaha Corporation");
}

#[test]
fn stock_voice_table() {
    let t = vsqx4::VoiceTable::default();
    assert_eq!(
        t.voices,
        vec![vsqx4::Voice {
            bs: 0,
            pc: 0,
            id: String::from("BHHN4EF9BRWTNHAB"),
            name: String::from("Miku(V2)"),
            parameters: vsqx4::VoiceParameters {
                breathiness: 0,
                brightness: 0,
                clearness: 0,
                gender: 0,
                openness: 0,
            },
        }]
    );
    assert!(vsqx3::VoiceTable::default().voices.is_empty());
}

#[test]
fn stock_mixer_units() {
    assert_eq!(
        vsqx4::VsUnit::default(),
        vsqx4::VsUnit {
            track_no: 0,
            input_gain: 0,
            send_level: -898,
            is_send_enabled: 0,
            mute: 0,
            solo: 0,
            pan: 64,
            volume: 0,
        }
    );
    assert_eq!(
        vsqx4::MonoUnit::default(),
        vsqx4::MonoUnit {
            input_gain: 0,
            send_level: -898,
            is_send_enabled: 0,
            mute: 0,
            solo: 0,
            pan: 64,
            volume: 0,
        }
    );
    assert_eq!(
        vsqx4::StereoUnit::default(),
        vsqx4::StereoUnit { input_gain: 0, mute: 0, solo: 0, volume: 0 }
    );
    assert_eq!(
        vsqx4::MasterUnit::default(),
        vsqx4::MasterUnit { output_device: 0, return_level: 0, volume: 0 }
    );
    let m = vsqx4::Mixer::default();
    assert!(m.vs_unit.is_empty() && m.mono_unit.is_empty() && m.stereo_unit.is_empty());
}

#[test]
fn stock_master_track() {
    let m = vsqx4::MasterTrack::default();
    assert_eq!(m.name, "Untitled");
    assert_eq!(m.comment, "");
    assert_eq!(m.resolution, 480);
    assert_eq!(m.pre_measure, 0);
    assert_eq!(
        m.time_signatures,
        vec![vsqx4::TimeSignature { position: 0, numerator: 4, denominator: 4 }]
    );
    assert_eq!(m.tempos, vec![vsqx4::Tempo { position: 0, value: 12000 }]);
    assert_eq!(vsqx4::TimeSignature::default().numerator, 4);
    assert_eq!(vsqx4::Tempo::default().value, 12000);
}

#[test]
fn stock_track_part_and_note() {
    let t = vsqx4::VsTrack::default();
    assert_eq!((t.track_no, t.name.as_str(), t.comment.as_str()), (0, "Track", ""));
    assert!(t.parts.is_empty());

    let p = vsqx4::VsPart::default();
    assert_eq!(p.position, 0);
    assert_eq!(p.play_time, None);
    assert_eq!(p.name, None);
    assert_eq!(p.comment, None);
    assert_eq!(p.plane, 0);
    assert!(p.singers.is_empty() && p.control_changes.is_empty() && p.notes.is_empty());
    assert_eq!(p.style, vsqx4::Style::default());
    assert_eq!(
        p.style_plugin,
        vsqx4::StylePlugin {
            id: String::from("ACA9C502-A04B-42b5-B2EB-5CEA36D16FCE"),
            name: String::from("VOCALOID2 Compatible Style"),
            version: String::from("3.0.0.1"),
        }
    );

    let n = vsqx4::Note::default();
    assert_eq!(n.position, 0);
    assert_eq!(n.duration, 0);
    assert_eq!(n.note_num, 81);
    assert_eq!(n.velocity, 64);
    assert_eq!(n.lyric, "\u{3042}");
    assert_eq!(n.phoneme, "a");
    assert_eq!(n.style, vsqx4::Style::default());
}

#[test]
fn stock_style_has_nine_attributes() {
    let expected: Vec<(&str, i64)> = vec![
        ("accent", 50),
        ("bendDep", 8),
        ("bendLen", 0),
        ("decay", 50),
        ("fallPort", 0),
        ("opening", 127),
        ("risePort", 0),
        ("vibLen", 0),
        ("vibType", 0),
    ];
    let style = vsqx4::Style::default();
    let found: Vec<(&str, i64)> = style.styles.iter().map(|k| (k.id.as_str(), k.value)).collect();
    assert_eq!(found, expected);
}

#[test]
fn stock_lanes_of_the_fifth_generation() {
    assert_eq!(vpr::Loop::default(), vpr::Loop { is_enabled: false, begin: 0, end: 0 });
    let v = vpr::Volume::default();
    assert!(v.is_folded);
    assert_eq!(f64::from_bits(v.height_bits), 0.0);
    assert_eq!(v.events, vec![vpr::ControlChange { pos: 0, value: 0 }]);
    let p = vpr::Panpot::default();
    assert!(p.is_folded);
    assert_eq!(p.height_bits, 0);
    assert_eq!(p.events, vec![vpr::ControlChange { pos: 0, value: 0 }]);
}

#[test]
fn version_is_made_of_its_three_numbers() {
    let v = vpr::Version::new(5, 1, 2);
    assert_eq!((v.major, v.minor, v.revision), (5, 1, 2));
}
