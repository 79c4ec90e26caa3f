use quick_xml::events::Event;
use quick_xml::Reader;
use vocaloid::vsqx3::Vsqx3;
use vocaloid::vsqx4;
use vocaloid::vsqx4::Vsqx4;
use vocaloid::write_xml::WriteXml;

/// Reads a document back with the XML reader and lists what it holds: start
/// tags with their unescaped attributes, unescaped text, literal blocks and
/// end tags.
fn read_back(xml: &str) -> Vec<String> {
    let mut reader = Reader::from_str(xml);
    let mut buf = Vec::new();
    let mut seen = Vec::new();
    loop {
        match reader.read_event(&mut buf) {
            Ok(Event::Start(e)) => {
                let mut s = format!("<{}", String::from_utf8(e.name().to_vec()).unwrap());
                for a in e.attributes() {
                    let a = a.unwrap();
                    s.push_str(&format!(
                        " {}={}",
                        String::from_utf8(a.key.to_vec()).unwrap(),
                        String::from_utf8(a.unescaped_value().unwrap().to_vec()).unwrap()
                    ));
                }
                s.push('>');
                seen.push(s);
            }
            Ok(Event::End(e)) => {
                seen.push(format!("</{}>", String::from_utf8(e.name().to_vec()).unwrap()));
            }
            Ok(Event::Text(e)) => {
                // The reader reports the empty stretch between two tags as text.
                let text = String::from_utf8(e.unescaped().unwrap().to_vec()).unwrap();
                if !text.is_empty() {
                    seen.push(format!("text:{}", text));
                }
            }
            Ok(Event::CData(e)) => {
                seen.push(format!(
                    "cdata:{}",
                    String::from_utf8(e.unescaped().unwrap().to_vec()).unwrap()
                ));
            }
            Ok(Event::Decl(_)) => seen.push(String::from("decl")),
            Ok(Event::Eof) => break,
            Ok(other) => panic!("unexpected event {:?}", other),
            Err(e) => panic!("the document is not well-formed: {:?}", e),
        }
        buf.clear();
    }
    seen
}

fn sample_project() -> Vsqx4 {
    let mut v = Vsqx4::default();
    v.master_track.name = String::from("Song <1> & more");
    v.master_track.comment = String::from("\"quoted\"");
    let mut track = vsqx4::VsTrack::default();
    track.track_no = 0;
    track.name = String::from("Lead");
    let mut part = vsqx4::VsPart::default();
    part.position = 7680;
    part.play_time = Some(1920);
    part.name = Some(String::from("Verse"));
    part.singers.push(vsqx4::Singer { position: 0, bs: 0, pc: 0 });
    part.control_changes.push(vsqx4::ControlChange {
        id: String::from("DYN"),
        pos: 0,
        value: 64i64,
    });
    let mut note = vsqx4::Note::default();
    note.position = 0;
    note.duration = 480;
    note.note_num = 60;
    note.velocity = 64;
    note.lyric = String::from("\u{3042}");
    note.phoneme = String::from("a");
    note.style = vsqx4::Style { styles: vec![vsqx4::StyleKey { id: String::from("accent"), value: 50 }] };
    part.notes.push(note);
    track.parts.push(part);
    v.vs_track.push(track);
    v.mixer.vs_unit.push(vsqx4::VsUnit::default());
    v.aux.push(vsqx4::Aux { id: String::from("AUX_VST_HOST_CHUNK_INFO"), content: String::from("x") });
    v
}

const DEFAULT_DOCUMENT: &str = "<?xml version=\"1.0\" encoding=\"UTF-8\" standalone=\"no\"?>\n\
     <vsq4 xmlns=\"http://www.yamaha.co.jp/vocaloid/schema/vsq4/\" \
     xmlns:xsi=\"http://www.w3.org/2001/XMLSchema-instance\" \
     xsi:schemaLocation=\"http://www.yamaha.co.jp/vocaloid/schema/vsq4/ vsq4.xsd\">\
     <vender><![CDATA[Yamaha corporation]]></vender>\
     <version><![CDATA[4.0.0.3]]></version>\
     <vVoiceTable><vVoice><bs>0</bs><pc>0</pc><id><![CDATA[BHHN4EF9BRWTNHAB]]></id>\
     <name><![CDATA[Miku(V2)]]></name>\
     <vPrm><bre>0</bre><bri>0</bri><cle>0</cle><gen>0</gen><ope>0</ope></vPrm>\
     </vVoice></vVoiceTable>\
     <mixer><masterUnit><oDev>0</oDev><rLvl>0</rLvl><vol>0</vol></masterUnit></mixer>\
     <masterTrack><seqName><![CDATA[Untitled]]></seqName><comment><![CDATA[]]></comment>\
     <resolution>480</resolution><preMeasure>0</preMeasure>\
     <timeSig><m>0</m><nu>4</nu><de>4</de></timeSig>\
     <tempo><t>0</t><v>12000</v></tempo></masterTrack>\
     <monoTrack></monoTrack><stTrack></stTrack>\
     </vsq4>";

#[test]
fn fresh_project_is_written_exactly() {
    assert_eq!(Vsqx4::default().to_string().unwrap(), DEFAULT_DOCUMENT);
}

#[test]
fn document_is_declaration_line_break_and_root() {
    let v = sample_project();
    let doc = v.to_string().unwrap();
    let mut root = String::new();
    v.tagged(&mut root, "vsq4");
    assert_eq!(
        doc,
        format!("<?xml version=\"1.0\" encoding=\"UTF-8\" standalone=\"no\"?>\n{}", root)
    );
}

#[test]
fn part_is_written_in_the_order_of_the_format() {
    let v = sample_project();
    let mut out = String::new();
    v.vs_track[0].parts[0].tagged(&mut out, "vsPart");
    let expected = "<vsPart><t>7680</t><playTime>1920</playTime>\
     <name><![CDATA[Verse]]></name><comment><![CDATA[]]></comment>\
     <sPlug><id><![CDATA[ACA9C502-A04B-42b5-B2EB-5CEA36D16FCE]]></id>\
     <name><![CDATA[VOCALOID2 Compatible Style]]></name>\
     <version><![CDATA[3.0.0.1]]></version></sPlug>\
     <pStyle><v id=\"accent\">50</v><v id=\"bendDep\">8</v><v id=\"bendLen\">0</v>\
     <v id=\"decay\">50</v><v id=\"fallPort\">0</v><v id=\"opening\">127</v>\
     <v id=\"risePort\">0</v><v id=\"vibLen\">0</v><v id=\"vibType\">0</v></pStyle>\
     <singer><t>0</t><bs>0</bs><pc>0</pc></singer>\
     <cc><t>0</t><v id=\"DYN\">64</v></cc>\
     <note><t>0</t><dur>480</dur><n>60</n><v>64</v>\
     <y><![CDATA[\u{3042}]]></y><p><![CDATA[a]]></p>\
     <nStyle><v id=\"accent\">50</v></nStyle></note>\
     <plane>0</plane></vsPart>";
    assert_eq!(out, expected);
}

#[test]
fn part_without_length_has_no_length_element() {
    let part = vsqx4::VsPart::default();
    let mut out = String::new();
    part.write_inner(&mut out);
    assert!(out.starts_with("<t>0</t><name><![CDATA[]]></name>"));
    assert!(!out.contains("playTime"));
}

/// Writes a project and reads the document back: every tag, text and literal
/// block is found again in the order of the format, and the reader accepts the
/// document as well-formed.
#[test]
fn test_vsqx4_serialize() {
    let v = sample_project();
    let doc = v.to_string().unwrap();
    let seen = read_back(&doc);

    assert_eq!(seen[0], "decl");
    assert_eq!(seen[1], "text:\n");
    assert_eq!(
        seen[2],
        "<vsq4 xmlns=http://www.yamaha.co.jp/vocaloid/schema/vsq4/ xmlns:xsi=http://www.w3.org/2001/XMLSchema-instance xsi:schemaLocation=http://www.yamaha.co.jp/vocaloid/schema/vsq4/ vsq4.xsd>"
    );
    assert_eq!(seen[seen.len() - 1], "</vsq4>");

    let at = |what: &str| seen.iter().position(|s| s == what).unwrap();
    assert_eq!(seen[at("<seqName>") + 1], "cdata:Song <1> & more");
    assert_eq!(seen[at("<comment>") + 1], "cdata:\"quoted\"");
    assert_eq!(seen[at("<vsTrack>") + 1], "<tNo>");
    assert_eq!(seen[at("<vsTrack>") + 2], "text:0");
    assert_eq!(seen[at("<playTime>") + 1], "text:1920");
    assert_eq!(seen[at("<y>") + 1], "cdata:\u{3042}");
    assert_eq!(seen[at("<p>") + 1], "cdata:a");
    assert_eq!(seen[at("<dur>") + 1], "text:480");
    assert_eq!(seen[at("<v id=DYN>") + 1], "text:64");
    assert_eq!(seen[at("<aux>") + 2], "cdata:AUX_VST_HOST_CHUNK_INFO");

    let opened = seen.iter().filter(|s| s.starts_with('<') && !s.starts_with("</")).count();
    let closed = seen.iter().filter(|s| s.starts_with("</")).count();
    assert_eq!(opened, closed);

    // Writing is repeatable: the same project gives the same document.
    assert_eq!(v.clone().to_string().unwrap(), doc);
}

/// The same for the earlier dialect, with its own tag names.
#[test]
fn test_vsqx3_serialize() {
    let v3 = Vsqx3::from(sample_project());
    let mut out = String::new();
    v3.tagged(&mut out, "vsq3");
    let seen = read_back(&out);

    assert_eq!(
        seen[0],
        "<vsq3 xmlns=http://www.yamaha.co.jp/vocaloid/schema/vsq3/ xmlns:xsi=http://www.w3.org/2001/XMLSchema-instance xsi:schemaLocation=http://www.yamaha.co.jp/vocaloid/schema/vsq3/ vsq3.xsd>"
    );
    assert_eq!(seen[seen.len() - 1], "</vsq3>");
    let at = |what: &str| seen.iter().position(|s| s == what).unwrap();
    assert_eq!(seen[at("<version>") + 1], "cdata:3.0.0.11");
    assert_eq!(seen[at("<vender>") + 1], "cdata:Yamaha corporation");
    assert_eq!(seen[at("<compID>") + 1], "cdata:BHHN4EF9BRWTNHAB");
    assert_eq!(seen[at("<vVoiceName>") + 1], "cdata:Miku(V2)");
    assert_eq!(seen[at("<trackName>") + 1], "cdata:Lead");
    assert_eq!(seen[at("<musicalPart>") + 1], "<posTick>");
    assert_eq!(seen[at("<musicalPart>") + 2], "text:7680");
    assert_eq!(seen[at("<partName>") + 1], "cdata:Verse");
    assert_eq!(seen[at("<stylePluginName>") + 1], "text:VOCALOID2 Compatible Style");
    assert_eq!(seen[at("<durTick>") + 1], "text:480");
    assert_eq!(seen[at("<noteNum>") + 1], "text:60");
    assert_eq!(seen[at("<lyric>") + 1], "cdata:\u{3042}");
    assert_eq!(seen[at("<phnms>") + 1], "cdata:a");
    assert_eq!(seen[at("<attr id=accent>") + 1], "text:50");
    assert_eq!(seen[at("<auxID>") + 1], "cdata:AUX_VST_HOST_CHUNK_INFO");
    assert!(seen.contains(&String::from("<seTrack>")));
    assert!(seen.contains(&String::from("<karaokeTrack>")));
    assert!(!seen.contains(&String::from("<plane>")));

    assert!(v3.to_string().unwrap().ends_with(&out));
}

#[test]
fn escaped_text_is_read_back_as_it_was() {
    let raw = String::from("Tom & \"Jerry\" <3 'x'");
    let mut out = String::new();
    raw.tagged(&mut out, "t");
    assert_eq!(read_back(&out), vec!["<t>", "text:Tom & \"Jerry\" <3 'x'", "</t>"]);
    let key = vsqx4::StyleKey { id: String::from("a\"b<c>&d"), value: 1 };
    let mut out = String::new();
    key.tagged(&mut out, "v");
    assert_eq!(read_back(&out), vec!["<v id=a\"b<c>&d>", "text:1", "</v>"]);
}
