use quick_xml::events::{BytesEnd, BytesStart, BytesText, Event};
use vocaloid::vsqx3;
use vocaloid::vsqx4;
use vocaloid::write_xml::{write_each, write_optional_cdata, Cdata, LeafValue, WriteXml};

fn tagged_text<T: WriteXml>(value: &T, tag: &str) -> String {
    let mut out = String::new();
    value.tagged(&mut out, tag);
    out
}

fn cdata_text<T: Cdata>(value: &T, tag: &str) -> String {
    let mut out = String::new();
    value.cdata_tag(&mut out, tag);
    out
}

#[test]
fn number_is_written_in_decimal() {
    assert_eq!(tagged_text(&-898i64, "sLvl"), "<sLvl>-898</sLvl>");
    assert_eq!(tagged_text(&0i64, "pc"), "<pc>0</pc>");
    assert_eq!(tagged_text(&12000i64, "v"), "<v>12000</v>");
    assert_eq!(tagged_text(&7u64, "playTime"), "<playTime>7</playTime>");
}

#[test]
fn extreme_numbers_are_written_in_full() {
    assert_eq!(i64::MIN.text(), "-9223372036854775808");
    assert_eq!(i64::MAX.text(), "9223372036854775807");
    assert_eq!(u64::MAX.text(), "18446744073709551615");
    assert_eq!((-1i64).text(), "-1");
    assert_eq!(10u64.text(), "10");
    assert_eq!(9u64.text(), "9");
}

#[test]
fn number_text_agrees_with_the_standard_formatting() {
    let samples: [i64; 12] =
        [0, 1, -1, 9, 10, 11, 99, 100, -100, 7680, 1234567890123, -987654321098765];
    for v in samples {
        assert_eq!(v.text(), format!("{}", v));
        if v >= 0 {
            assert_eq!((v as u64).text(), format!("{}", v));
        }
    }
}

#[test]
fn text_leaf_is_escaped() {
    let raw = String::from("a<b>&'\"c");
    assert_eq!(tagged_text(&raw, "t"), "<t>a&lt;b&gt;&amp;&apos;&quot;c</t>");
}

#[test]
fn text_without_special_characters_is_kept() {
    let raw = String::from("VOCALOID2 Compatible Style");
    assert_eq!(
        tagged_text(&raw, "stylePluginName"),
        "<stylePluginName>VOCALOID2 Compatible Style</stylePluginName>"
    );
    assert_eq!(tagged_text(&"abc", "x"), "<x>abc</x>");
}

#[test]
fn text_outside_ascii_is_kept_and_escaped_around() {
    let raw = String::from("\u{3042}&\u{3044}");
    assert_eq!(tagged_text(&raw, "y"), "<y>\u{3042}&amp;\u{3044}</y>");
}

#[test]
fn literal_block_is_not_escaped() {
    let raw = String::from("a<b>&c");
    assert_eq!(cdata_text(&raw, "name"), "<name><![CDATA[a<b>&c]]></name>");
    assert_eq!(cdata_text(&String::from("\u{3042}"), "y"), "<y><![CDATA[\u{3042}]]></y>");
    let mut out = String::from("x");
    raw.cdata(&mut out);
    assert_eq!(out, "x<![CDATA[a<b>&c]]>");
}

#[test]
fn absent_text_is_an_empty_literal_block() {
    let mut out = String::new();
    write_optional_cdata(&None, &mut out, "comment");
    write_optional_cdata(&Some(String::from("hi")), &mut out, "name");
    assert_eq!(out, "<comment><![CDATA[]]></comment><name><![CDATA[hi]]></name>");
}

#[test]
fn leaf_has_no_attributes_and_writes_after_what_is_there() {
    assert!(5i64.props().is_empty());
    let mut out = String::from("<a>");
    5i64.write_inner(&mut out);
    assert_eq!(out, "<a>5");
}

#[test]
fn attribute_value_is_escaped() {
    let key = vsqx4::StyleKey { id: String::from("a\"b<c"), value: 5 };
    assert_eq!(tagged_text(&key, "v"), "<v id=\"a&quot;b&lt;c\">5</v>");
    assert_eq!(key.props(), vec![("id", "a\"b<c")]);
    let key3 = vsqx3::StyleKey { id: String::from("accent"), value: -50 };
    assert_eq!(tagged_text(&key3, "attr"), "<attr id=\"accent\">-50</attr>");
}

#[test]
fn control_change_id_is_written_as_it_is() {
    let cc = vsqx4::ControlChange { id: String::from("D&x"), pos: 10, value: -3i64 };
    assert_eq!(tagged_text(&cc, "cc"), "<cc><t>10</t><v id=\"D&x\">-3</v></cc>");
    let cc3 = vsqx3::ControlChange { id: String::from("DYN"), pos: 0, value: 64i64 };
    assert_eq!(tagged_text(&cc3, "cc"), "<cc><p>0</p><v id=\"DYN\">64</v></cc>");
}

#[test]
fn nodes_of_a_sequence_are_written_in_order() {
    let singers = vec![
        vsqx4::Singer { position: 0, bs: 1, pc: 2 },
        vsqx4::Singer { position: 480, bs: 0, pc: 0 },
    ];
    let mut out = String::new();
    write_each(&singers, &mut out, "singer");
    assert_eq!(
        out,
        "<singer><t>0</t><bs>1</bs><pc>2</pc></singer><singer><t>480</t><bs>0</bs><pc>0</pc></singer>"
    );
    let mut nothing = String::from("x");
    write_each(&Vec::<vsqx4::Singer>::new(), &mut nothing, "singer");
    assert_eq!(nothing, "x");
}

#[test]
fn the_two_dialects_spell_tags_differently() {
    let s4 = vsqx4::Singer { position: 1, bs: 2, pc: 3 };
    let s3 = vsqx3::Singer { position: 1, bs: 2, pc: 3 };
    assert_eq!(tagged_text(&s4, "singer"), "<singer><t>1</t><bs>2</bs><pc>3</pc></singer>");
    assert_eq!(
        tagged_text(&s3, "singer"),
        "<singer><posTick>1</posTick><vBS>2</vBS><vPC>3</vPC></singer>"
    );
    let t4 = vsqx4::Tempo { position: 0, value: 12000 };
    let t3 = vsqx3::Tempo { position: 0, value: 12000 };
    assert_eq!(tagged_text(&t4, "tempo"), "<tempo><t>0</t><v>12000</v></tempo>");
    assert_eq!(tagged_text(&t3, "tempo"), "<tempo><posTick>0</posTick><bpm>12000</bpm></tempo>");
}

#[test]
fn style_plugin_is_literal_in_one_dialect_and_escaped_in_the_other() {
    let fourth = vsqx4::StylePlugin {
        id: String::from("A&B"),
        name: String::from("n"),
        version: String::from("1"),
    };
    let third = vsqx3::StylePlugin {
        id: String::from("A&B"),
        name: String::from("n"),
        version: String::from("1"),
    };
    assert_eq!(
        tagged_text(&fourth, "sPlug"),
        "<sPlug><id><![CDATA[A&B]]></id><name><![CDATA[n]]></name><version><![CDATA[1]]></version></sPlug>"
    );
    assert_eq!(
        tagged_text(&third, "stylePlugin"),
        "<stylePlugin><stylePluginID>A&amp;B</stylePluginID><stylePluginName>n</stylePluginName><version>1</version></stylePlugin>"
    );
}

#[test]
fn empty_track_is_an_empty_element() {
    assert_eq!(tagged_text(&vsqx4::MonoTrack {}, "monoTrack"), "<monoTrack></monoTrack>");
    assert_eq!(tagged_text(&vsqx3::KaraokeTrack {}, "karaokeTrack"), "<karaokeTrack></karaokeTrack>");
}

/// Writes a start tag with attributes, a text or a literal block, and the end
/// tag through the XML writer of the `quick_xml` crate.
fn written_by_quick_xml(tag: &str, attrs: &[(&str, &str)], text: &str, literal: bool) -> String {
    let mut w = quick_xml::Writer::new(std::io::Cursor::new(Vec::new()));
    let mut start = BytesStart::borrowed(tag.as_bytes(), tag.len());
    for (name, value) in attrs {
        start.push_attribute((*name, *value));
    }
    w.write_event(Event::Start(start)).unwrap();
    if literal {
        w.write_event(Event::CData(BytesText::from_escaped_str(text))).unwrap();
    } else {
        w.write_event(Event::Text(BytesText::from_plain_str(text))).unwrap();
    }
    w.write_event(Event::End(BytesEnd::borrowed(tag.as_bytes()))).unwrap();
    String::from_utf8(w.into_inner().into_inner()).unwrap()
}

#[test]
fn leaf_is_written_as_the_xml_writer_writes_it() {
    let texts = ["", "plain", "a<b>&'\"c", "\u{3042}&\u{3044}", "]]>", "  spaced  ", "&amp;"];
    for text in texts {
        let value = String::from(text);
        assert_eq!(tagged_text(&value, "t"), written_by_quick_xml("t", &[], text, false));
        assert_eq!(tagged_text(&text, "t"), written_by_quick_xml("t", &[], text, false));
        assert_eq!(cdata_text(&value, "name"), written_by_quick_xml("name", &[], text, true));
    }
    for number in [0i64, 7, -898, i64::MIN, i64::MAX] {
        let text = format!("{}", number);
        assert_eq!(tagged_text(&number, "n"), written_by_quick_xml("n", &[], &text, false));
        assert_eq!(cdata_text(&number, "n"), written_by_quick_xml("n", &[], &text, true));
    }
    assert_eq!(
        tagged_text(&u64::MAX, "playTime"),
        written_by_quick_xml("playTime", &[], "18446744073709551615", false)
    );
}

#[test]
fn attributes_are_written_as_the_xml_writer_writes_them() {
    for id in ["accent", "a\"b<c>&d'e", "", "\u{3042}"] {
        let key = vsqx4::StyleKey { id: String::from(id), value: -50 };
        assert_eq!(tagged_text(&key, "v"), written_by_quick_xml("v", &[("id", id)], "-50", false));
        let key = vsqx3::StyleKey { id: String::from(id), value: 8 };
        assert_eq!(
            tagged_text(&key, "attr"),
            written_by_quick_xml("attr", &[("id", id)], "8", false)
        );
    }
    let mut project = vsqx4::Vsqx4::default();
    project.xmlns = String::from("urn:a&b");
    let mut start = String::new();
    project.tagged(&mut start, "vsq4");
    let attrs = [
        ("xmlns", "urn:a&b"),
        ("xmlns:xsi", "http://www.w3.org/2001/XMLSchema-instance"),
        ("xsi:schemaLocation", "http://www.yamaha.co.jp/vocaloid/schema/vsq4/ vsq4.xsd"),
    ];
    let expected = written_by_quick_xml("vsq4", &attrs, "", false);
    let open_tag = &expected[..expected.len() - "</vsq4>".len()];
    assert!(start.starts_with(open_tag));
    assert!(start.ends_with("</vsq4>"));
}

#[test]
fn control_change_is_written_as_the_xml_writer_writes_it() {
    for id in ["DYN", "D&x", "a\"b"] {
        let cc = vsqx4::ControlChange { id: String::from(id), pos: 10, value: -3i64 };
        let mut w = quick_xml::Writer::new(std::io::Cursor::new(Vec::new()));
        w.write_event(Event::Start(BytesStart::borrowed(b"cc", 2))).unwrap();
        w.write_event(Event::Start(BytesStart::borrowed(b"t", 1))).unwrap();
        w.write_event(Event::Text(BytesText::from_plain_str("10"))).unwrap();
        w.write_event(Event::End(BytesEnd::borrowed(b"t"))).unwrap();
        let mut v = BytesStart::borrowed(b"v", 1);
        v.push_attribute((&b"id"[..], id.as_bytes()));
        w.write_event(Event::Start(v)).unwrap();
        w.write_event(Event::Text(BytesText::from_plain_str("-3"))).unwrap();
        w.write_event(Event::End(BytesEnd::borrowed(b"v"))).unwrap();
        w.write_event(Event::End(BytesEnd::borrowed(b"cc"))).unwrap();
        let expected = String::from_utf8(w.into_inner().into_inner()).unwrap();
        assert_eq!(tagged_text(&cc, "cc"), expected);
    }
}
