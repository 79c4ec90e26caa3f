//! How a project of the fourth editor generation is written as markup.

use crate::vsqx4::{
    Aux, ControlChange, MasterTrack, MasterUnit, Mixer, MonoTrack, MonoUnit, Note, Singer,
    StereoTrack, StereoUnit, Style, StyleKey, StylePlugin, Tempo, TimeSignature, Voice,
    VoiceParameters, VoiceTable, VsPart, VsTrack, VsUnit, Vsqx4,
};
use crate::write_xml::{
    attribute, cdata_element, elements, end_tag, lemma_elements_of_vec_view, node_element,
    optional_element, start_tag, text_or_empty, write_each, write_optional_cdata, Cdata,
    MarkupOfView, WriteXml,
};
use vstd::prelude::*;
use vstd::string::StringExecFns;

verus! {

impl WriteXml for Vsqx4 {
    open spec fn spec_props(&self) -> Seq<(Seq<char>, Seq<char>)> {
        seq![
            ("xmlns"@, self.xmlns@),
            ("xmlns:xsi"@, self.xmlns_xsi@),
            ("xsi:schemaLocation"@, self.xsi_schema_location@),
        ]
    }

    open spec fn spec_inner(&self) -> Seq<char> {
        cdata_element("vender"@, self.vender@)
            + cdata_element("version"@, self.version@)
            + node_element("vVoiceTable"@, &self.voice_table)
            + node_element("mixer"@, &self.mixer)
            + node_element("masterTrack"@, &self.master_track)
            + elements(self.vs_track@, "vsTrack"@)
            + node_element("monoTrack"@, &self.mono_track)
            + node_element("stTrack"@, &self.stereo_track)
            + elements(self.aux@, "aux"@)
    }

    fn write_inner(&self, out: &mut String) {
        self.vender.cdata_tag(out, "vender");
        self.version.cdata_tag(out, "version");
        self.voice_table.tagged(out, "vVoiceTable");
        self.mixer.tagged(out, "mixer");
        self.master_track.tagged(out, "masterTrack");
        write_each(&self.vs_track, out, "vsTrack");
        self.mono_track.tagged(out, "monoTrack");
        self.stereo_track.tagged(out, "stTrack");
        write_each(&self.aux, out, "aux");
    }

    fn props(&self) -> (r: Vec<(&str, &str)>) {
        let mut r: Vec<(&str, &str)> = Vec::new();
        r.push(("xmlns", self.xmlns.as_str()));
        r.push(("xmlns:xsi", self.xmlns_xsi.as_str()));
        r.push(("xsi:schemaLocation", self.xsi_schema_location.as_str()));
        r
    }
}

impl MarkupOfView for Vsqx4 {
    proof fn lemma_markup_of_view(&self, other: &Self) {
        self.voice_table.lemma_markup_of_view(&other.voice_table);
        self.mixer.lemma_markup_of_view(&other.mixer);
        self.master_track.lemma_markup_of_view(&other.master_track);
        lemma_elements_of_vec_view(self.vs_track, other.vs_track, "vsTrack"@);
        self.mono_track.lemma_markup_of_view(&other.mono_track);
        self.stereo_track.lemma_markup_of_view(&other.stereo_track);
        lemma_elements_of_vec_view(self.aux, other.aux, "aux"@);
    }
}

impl WriteXml for VoiceTable {
    open spec fn spec_props(&self) -> Seq<(Seq<char>, Seq<char>)> {
        Seq::empty()
    }

    open spec fn spec_inner(&self) -> Seq<char> {
        elements(self.voices@, "vVoice"@)
    }

    fn write_inner(&self, out: &mut String) {
        write_each(&self.voices, out, "vVoice");
    }

    fn props(&self) -> (r: Vec<(&str, &str)>) {
        Vec::new()
    }
}

impl MarkupOfView for VoiceTable {
    proof fn lemma_markup_of_view(&self, other: &Self) {
        lemma_elements_of_vec_view(self.voices, other.voices, "vVoice"@);
    }
}

impl WriteXml for Voice {
    open spec fn spec_props(&self) -> Seq<(Seq<char>, Seq<char>)> {
        Seq::empty()
    }

    open spec fn spec_inner(&self) -> Seq<char> {
        node_element("bs"@, &self.bs)
            + node_element("pc"@, &self.pc)
            + cdata_element("id"@, self.id@)
            + cdata_element("name"@, self.name@)
            + node_element("vPrm"@, &self.parameters)
    }

    fn write_inner(&self, out: &mut String) {
        self.bs.tagged(out, "bs");
        self.pc.tagged(out, "pc");
        self.id.cdata_tag(out, "id");
        self.name.cdata_tag(out, "name");
        self.parameters.tagged(out, "vPrm");
    }

    fn props(&self) -> (r: Vec<(&str, &str)>) {
        Vec::new()
    }
}

impl MarkupOfView for Voice {
    proof fn lemma_markup_of_view(&self, other: &Self) {
        self.parameters.lemma_markup_of_view(&other.parameters);
    }
}

impl WriteXml for VoiceParameters {
    open spec fn spec_props(&self) -> Seq<(Seq<char>, Seq<char>)> {
        Seq::empty()
    }

    open spec fn spec_inner(&self) -> Seq<char> {
        node_element("bre"@, &self.breathiness)
            + node_element("bri"@, &self.brightness)
            + node_element("cle"@, &self.clearness)
            + node_element("gen"@, &self.gender)
            + node_element("ope"@, &self.openness)
    }

    fn write_inner(&self, out: &mut String) {
        self.breathiness.tagged(out, "bre");
        self.brightness.tagged(out, "bri");
        self.clearness.tagged(out, "cle");
        self.gender.tagged(out, "gen");
        self.openness.tagged(out, "ope");
    }

    fn props(&self) -> (r: Vec<(&str, &str)>) {
        Vec::new()
    }
}

impl MarkupOfView for VoiceParameters {
    proof fn lemma_markup_of_view(&self, other: &Self) {
    }
}

impl WriteXml for Mixer {
    open spec fn spec_props(&self) -> Seq<(Seq<char>, Seq<char>)> {
        Seq::empty()
    }

    open spec fn spec_inner(&self) -> Seq<char> {
        node_element("masterUnit"@, &self.master_unit)
            + elements(self.vs_unit@, "vsUnit"@)
            + elements(self.mono_unit@, "monoUnit"@)
            + elements(self.stereo_unit@, "stUnit"@)
    }

    fn write_inner(&self, out: &mut String) {
        self.master_unit.tagged(out, "masterUnit");
        write_each(&self.vs_unit, out, "vsUnit");
        write_each(&self.mono_unit, out, "monoUnit");
        write_each(&self.stereo_unit, out, "stUnit");
    }

    fn props(&self) -> (r: Vec<(&str, &str)>) {
        Vec::new()
    }
}

impl MarkupOfView for Mixer {
    proof fn lemma_markup_of_view(&self, other: &Self) {
        self.master_unit.lemma_markup_of_view(&other.master_unit);
        lemma_elements_of_vec_view(self.vs_unit, other.vs_unit, "vsUnit"@);
        lemma_elements_of_vec_view(self.mono_unit, other.mono_unit, "monoUnit"@);
        lemma_elements_of_vec_view(self.stereo_unit, other.stereo_unit, "stUnit"@);
    }
}

impl WriteXml for MasterUnit {
    open spec fn spec_props(&self) -> Seq<(Seq<char>, Seq<char>)> {
        Seq::empty()
    }

    open spec fn spec_inner(&self) -> Seq<char> {
        node_element("oDev"@, &self.output_device)
            + node_element("rLvl"@, &self.return_level)
            + node_element("vol"@, &self.volume)
    }

    fn write_inner(&self, out: &mut String) {
        self.output_device.tagged(out, "oDev");
        self.return_level.tagged(out, "rLvl");
        self.volume.tagged(out, "vol");
    }

    fn props(&self) -> (r: Vec<(&str, &str)>) {
        Vec::new()
    }
}

impl MarkupOfView for MasterUnit {
    proof fn lemma_markup_of_view(&self, other: &Self) {
    }
}

impl WriteXml for VsUnit {
    open spec fn spec_props(&self) -> Seq<(Seq<char>, Seq<char>)> {
        Seq::empty()
    }

    open spec fn spec_inner(&self) -> Seq<char> {
        node_element("tNo"@, &self.track_no)
            + node_element("iGin"@, &self.input_gain)
            + node_element("sLvl"@, &self.send_level)
            + node_element("sEnable"@, &self.is_send_enabled)
            + node_element("m"@, &self.mute)
            + node_element("s"@, &self.solo)
            + node_element("pan"@, &self.pan)
            + node_element("vol"@, &self.volume)
    }

    fn write_inner(&self, out: &mut String) {
        self.track_no.tagged(out, "tNo");
        self.input_gain.tagged(out, "iGin");
        self.send_level.tagged(out, "sLvl");
        self.is_send_enabled.tagged(out, "sEnable");
        self.mute.tagged(out, "m");
        self.solo.tagged(out, "s");
        self.pan.tagged(out, "pan");
        self.volume.tagged(out, "vol");
    }

    fn props(&self) -> (r: Vec<(&str, &str)>) {
        Vec::new()
    }
}

impl MarkupOfView for VsUnit {
    proof fn lemma_markup_of_view(&self, other: &Self) {
    }
}

impl WriteXml for MonoUnit {
    open spec fn spec_props(&self) -> Seq<(Seq<char>, Seq<char>)> {
        Seq::empty()
    }

    open spec fn spec_inner(&self) -> Seq<char> {
        node_element("iGin"@, &self.input_gain)
            + node_element("sLvl"@, &self.send_level)
            + node_element("sEnable"@, &self.is_send_enabled)
            + node_element("m"@, &self.mute)
            + node_element("s"@, &self.solo)
            + node_element("pan"@, &self.pan)
            + node_element("vol"@, &self.volume)
    }

    fn write_inner(&self, out: &mut String) {
        self.input_gain.tagged(out, "iGin");
        self.send_level.tagged(out, "sLvl");
        self.is_send_enabled.tagged(out, "sEnable");
        self.mute.tagged(out, "m");
        self.solo.tagged(out, "s");
        self.pan.tagged(out, "pan");
        self.volume.tagged(out, "vol");
    }

    fn props(&self) -> (r: Vec<(&str, &str)>) {
        Vec::new()
    }
}

impl MarkupOfView for MonoUnit {
    proof fn lemma_markup_of_view(&self, other: &Self) {
    }
}

impl WriteXml for StereoUnit {
    open spec fn spec_props(&self) -> Seq<(Seq<char>, Seq<char>)> {
        Seq::empty()
    }

    open spec fn spec_inner(&self) -> Seq<char> {
        node_element("iGin"@, &self.input_gain)
            + node_element("m"@, &self.mute)
            + node_element("s"@, &self.solo)
            + node_element("vol"@, &self.volume)
    }

    fn write_inner(&self, out: &mut String) {
        self.input_gain.tagged(out, "iGin");
        self.mute.tagged(out, "m");
        self.solo.tagged(out, "s");
        self.volume.tagged(out, "vol");
    }

    fn props(&self) -> (r: Vec<(&str, &str)>) {
        Vec::new()
    }
}

impl MarkupOfView for StereoUnit {
    proof fn lemma_markup_of_view(&self, other: &Self) {
    }
}

impl WriteXml for MasterTrack {
    open spec fn spec_props(&self) -> Seq<(Seq<char>, Seq<char>)> {
        Seq::empty()
    }

    open spec fn spec_inner(&self) -> Seq<char> {
        cdata_element("seqName"@, self.name@)
            + cdata_element("comment"@, self.comment@)
            + node_element("resolution"@, &self.resolution)
            + node_element("preMeasure"@, &self.pre_measure)
            + elements(self.time_signatures@, "timeSig"@)
            + elements(self.tempos@, "tempo"@)
    }

    fn write_inner(&self, out: &mut String) {
        self.name.cdata_tag(out, "seqName");
        self.comment.cdata_tag(out, "comment");
        self.resolution.tagged(out, "resolution");
        self.pre_measure.tagged(out, "preMeasure");
        write_each(&self.time_signatures, out, "timeSig");
        write_each(&self.tempos, out, "tempo");
    }

    fn props(&self) -> (r: Vec<(&str, &str)>) {
        Vec::new()
    }
}

impl MarkupOfView for MasterTrack {
    proof fn lemma_markup_of_view(&self, other: &Self) {
        lemma_elements_of_vec_view(self.time_signatures, other.time_signatures, "timeSig"@);
        lemma_elements_of_vec_view(self.tempos, other.tempos, "tempo"@);
    }
}

impl WriteXml for TimeSignature {
    open spec fn spec_props(&self) -> Seq<(Seq<char>, Seq<char>)> {
        Seq::empty()
    }

    open spec fn spec_inner(&self) -> Seq<char> {
        node_element("m"@, &self.position)
            + node_element("nu"@, &self.numerator)
            + node_element("de"@, &self.denominator)
    }

    fn write_inner(&self, out: &mut String) {
        self.position.tagged(out, "m");
        self.numerator.tagged(out, "nu");
        self.denominator.tagged(out, "de");
    }

    fn props(&self) -> (r: Vec<(&str, &str)>) {
        Vec::new()
    }
}

impl MarkupOfView for TimeSignature {
    proof fn lemma_markup_of_view(&self, other: &Self) {
    }
}

impl WriteXml for Tempo {
    open spec fn spec_props(&self) -> Seq<(Seq<char>, Seq<char>)> {
        Seq::empty()
    }

    open spec fn spec_inner(&self) -> Seq<char> {
        node_element("t"@, &self.position)
            + node_element("v"@, &self.value)
    }

    fn write_inner(&self, out: &mut String) {
        self.position.tagged(out, "t");
        self.value.tagged(out, "v");
    }

    fn props(&self) -> (r: Vec<(&str, &str)>) {
        Vec::new()
    }
}

impl MarkupOfView for Tempo {
    proof fn lemma_markup_of_view(&self, other: &Self) {
    }
}

impl WriteXml for VsTrack {
    open spec fn spec_props(&self) -> Seq<(Seq<char>, Seq<char>)> {
        Seq::empty()
    }

    open spec fn spec_inner(&self) -> Seq<char> {
        node_element("tNo"@, &self.track_no)
            + cdata_element("name"@, self.name@)
            + cdata_element("comment"@, self.comment@)
            + elements(self.parts@, "vsPart"@)
    }

    fn write_inner(&self, out: &mut String) {
        self.track_no.tagged(out, "tNo");
        self.name.cdata_tag(out, "name");
        self.comment.cdata_tag(out, "comment");
        write_each(&self.parts, out, "vsPart");
    }

    fn props(&self) -> (r: Vec<(&str, &str)>) {
        Vec::new()
    }
}

impl MarkupOfView for VsTrack {
    proof fn lemma_markup_of_view(&self, other: &Self) {
        lemma_elements_of_vec_view(self.parts, other.parts, "vsPart"@);
    }
}

impl WriteXml for VsPart {
    open spec fn spec_props(&self) -> Seq<(Seq<char>, Seq<char>)> {
        Seq::empty()
    }

    open spec fn spec_inner(&self) -> Seq<char> {
        node_element("t"@, &self.position)
            + optional_element("playTime"@, self.play_time)
            + cdata_element("name"@, text_or_empty(self.name))
            + cdata_element("comment"@, text_or_empty(self.comment))
            + node_element("sPlug"@, &self.style_plugin)
            + node_element("pStyle"@, &self.style)
            + elements(self.singers@, "singer"@)
            + elements(self.control_changes@, "cc"@)
            + elements(self.notes@, "note"@)
            + node_element("plane"@, &self.plane)
    }

    fn write_inner(&self, out: &mut String) {
        self.position.tagged(out, "t");
        if let Some(play_time) = self.play_time {
            play_time.tagged(out, "playTime");
        }
        write_optional_cdata(&self.name, out, "name");
        write_optional_cdata(&self.comment, out, "comment");
        self.style_plugin.tagged(out, "sPlug");
        self.style.tagged(out, "pStyle");
        write_each(&self.singers, out, "singer");
        write_each(&self.control_changes, out, "cc");
        write_each(&self.notes, out, "note");
        self.plane.tagged(out, "plane");
    }

    fn props(&self) -> (r: Vec<(&str, &str)>) {
        Vec::new()
    }
}

impl MarkupOfView for VsPart {
    proof fn lemma_markup_of_view(&self, other: &Self) {
        self.style_plugin.lemma_markup_of_view(&other.style_plugin);
        self.style.lemma_markup_of_view(&other.style);
        lemma_elements_of_vec_view(self.singers, other.singers, "singer"@);
        lemma_elements_of_vec_view(self.control_changes, other.control_changes, "cc"@);
        lemma_elements_of_vec_view(self.notes, other.notes, "note"@);
    }
}

impl WriteXml for ControlChange<i64> {
    open spec fn spec_props(&self) -> Seq<(Seq<char>, Seq<char>)> {
        Seq::empty()
    }

    open spec fn spec_inner(&self) -> Seq<char> {
        node_element("t"@, &self.pos) + start_tag("v"@, attribute("id"@, self.id@))
            + self.value.spec_inner() + end_tag("v"@)
    }

    fn write_inner(&self, out: &mut String) {
        self.pos.tagged(out, "t");
        out.append("<");
        out.append("v");
        out.append(" ");
        out.append("id");
        out.append("=\"");
        out.append(self.id.as_str());
        out.append("\"");
        out.append(">");
        self.value.write_inner(out);
        out.append("</");
        out.append("v");
        out.append(">");
    }

    fn props(&self) -> (r: Vec<(&str, &str)>) {
        Vec::new()
    }
}

impl MarkupOfView for ControlChange<i64> {
    proof fn lemma_markup_of_view(&self, other: &Self) {
    }
}

impl WriteXml for StylePlugin {
    open spec fn spec_props(&self) -> Seq<(Seq<char>, Seq<char>)> {
        Seq::empty()
    }

    open spec fn spec_inner(&self) -> Seq<char> {
        cdata_element("id"@, self.id@)
            + cdata_element("name"@, self.name@)
            + cdata_element("version"@, self.version@)
    }

    fn write_inner(&self, out: &mut String) {
        self.id.cdata_tag(out, "id");
        self.name.cdata_tag(out, "name");
        self.version.cdata_tag(out, "version");
    }

    fn props(&self) -> (r: Vec<(&str, &str)>) {
        Vec::new()
    }
}

impl MarkupOfView for StylePlugin {
    proof fn lemma_markup_of_view(&self, other: &Self) {
    }
}

impl WriteXml for Singer {
    open spec fn spec_props(&self) -> Seq<(Seq<char>, Seq<char>)> {
        Seq::empty()
    }

    open spec fn spec_inner(&self) -> Seq<char> {
        node_element("t"@, &self.position)
            + node_element("bs"@, &self.bs)
            + node_element("pc"@, &self.pc)
    }

    fn write_inner(&self, out: &mut String) {
        self.position.tagged(out, "t");
        self.bs.tagged(out, "bs");
        self.pc.tagged(out, "pc");
    }

    fn props(&self) -> (r: Vec<(&str, &str)>) {
        Vec::new()
    }
}

impl MarkupOfView for Singer {
    proof fn lemma_markup_of_view(&self, other: &Self) {
    }
}

impl WriteXml for Note {
    open spec fn spec_props(&self) -> Seq<(Seq<char>, Seq<char>)> {
        Seq::empty()
    }

    open spec fn spec_inner(&self) -> Seq<char> {
        node_element("t"@, &self.position)
            + node_element("dur"@, &self.duration)
            + node_element("n"@, &self.note_num)
            + node_element("v"@, &self.velocity)
            + cdata_element("y"@, self.lyric@)
            + cdata_element("p"@, self.phoneme@)
            + node_element("nStyle"@, &self.style)
    }

    fn write_inner(&self, out: &mut String) {
        self.position.tagged(out, "t");
        self.duration.tagged(out, "dur");
        self.note_num.tagged(out, "n");
        self.velocity.tagged(out, "v");
        self.lyric.cdata_tag(out, "y");
        self.phoneme.cdata_tag(out, "p");
        self.style.tagged(out, "nStyle");
    }

    fn props(&self) -> (r: Vec<(&str, &str)>) {
        Vec::new()
    }
}

impl MarkupOfView for Note {
    proof fn lemma_markup_of_view(&self, other: &Self) {
        self.style.lemma_markup_of_view(&other.style);
    }
}

impl WriteXml for Style {
    open spec fn spec_props(&self) -> Seq<(Seq<char>, Seq<char>)> {
        Seq::empty()
    }

    open spec fn spec_inner(&self) -> Seq<char> {
        elements(self.styles@, "v"@)
    }

    fn write_inner(&self, out: &mut String) {
        write_each(&self.styles, out, "v");
    }

    fn props(&self) -> (r: Vec<(&str, &str)>) {
        Vec::new()
    }
}

impl MarkupOfView for Style {
    proof fn lemma_markup_of_view(&self, other: &Self) {
        lemma_elements_of_vec_view(self.styles, other.styles, "v"@);
    }
}

impl WriteXml for StyleKey {
    open spec fn spec_props(&self) -> Seq<(Seq<char>, Seq<char>)> {
        seq![("id"@, self.id@)]
    }

    open spec fn spec_inner(&self) -> Seq<char> {
        self.value.spec_inner()
    }

    fn write_inner(&self, out: &mut String) {
        self.value.write_inner(out);
    }

    fn props(&self) -> (r: Vec<(&str, &str)>) {
        let mut r: Vec<(&str, &str)> = Vec::new();
        r.push(("id", self.id.as_str()));
        r
    }
}

impl MarkupOfView for StyleKey {
    proof fn lemma_markup_of_view(&self, other: &Self) {
    }
}

impl WriteXml for MonoTrack {
    open spec fn spec_props(&self) -> Seq<(Seq<char>, Seq<char>)> {
        Seq::empty()
    }

    open spec fn spec_inner(&self) -> Seq<char> {
        Seq::empty()
    }

    fn write_inner(&self, out: &mut String) {
    }

    fn props(&self) -> (r: Vec<(&str, &str)>) {
        Vec::new()
    }
}

impl MarkupOfView for MonoTrack {
    proof fn lemma_markup_of_view(&self, other: &Self) {
    }
}

impl WriteXml for StereoTrack {
    open spec fn spec_props(&self) -> Seq<(Seq<char>, Seq<char>)> {
        Seq::empty()
    }

    open spec fn spec_inner(&self) -> Seq<char> {
        Seq::empty()
    }

    fn write_inner(&self, out: &mut String) {
    }

    fn props(&self) -> (r: Vec<(&str, &str)>) {
        Vec::new()
    }
}

impl MarkupOfView for StereoTrack {
    proof fn lemma_markup_of_view(&self, other: &Self) {
    }
}

impl WriteXml for Aux {
    open spec fn spec_props(&self) -> Seq<(Seq<char>, Seq<char>)> {
        Seq::empty()
    }

    open spec fn spec_inner(&self) -> Seq<char> {
        cdata_element("id"@, self.id@)
            + cdata_element("content"@, self.content@)
    }

    fn write_inner(&self, out: &mut String) {
        self.id.cdata_tag(out, "id");
        self.content.cdata_tag(out, "content");
    }

    fn props(&self) -> (r: Vec<(&str, &str)>) {
        Vec::new()
    }
}

impl MarkupOfView for Aux {
    proof fn lemma_markup_of_view(&self, other: &Self) {
    }
}

} // verus!
