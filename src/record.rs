use vstd::prelude::*;
use vstd::string::*;
use crate::laws::lemma_one_line;
use crate::level::Level;
use crate::wire::{
    decimal, encode_text, json_string, lemma_json_string_single_line, no_newline, text_of,
    write_decimal,
};

verus! {

/// Call-site metadata, supplied by the caller.
pub struct Src {
    pub file: String,
    pub line: u32,
    pub module: String,
}

/// One log call: consumed by the logger that receives it.
pub struct Record {
    pub level: Level,
    pub msg: String,
    /// Structured payload; `None` means the line carries no `data` key.
    pub data: Option<rustc_serialize::json::Json>,
    pub src: Src,
}

/// The fields of an output line, as text and numbers.
///
/// In a `SerializableRecord` the text fields are plain text and `data` is
/// the payload's JSON text; in an `EncodedRecord` every text field already
/// holds its JSON form.
pub struct RecordView {
    pub level: nat,
    pub name: Seq<char>,
    pub hostname: Seq<char>,
    pub pid: nat,
    pub time: Seq<char>,
    pub msg: Seq<char>,
    pub file: Seq<char>,
    pub line: nat,
    pub module: Seq<char>,
    pub data: Option<Seq<char>>,
}

/// The canonical shape of one line, before its strings are escaped.
pub struct SerializableRecord {
    pub level: u8,
    pub name: String,
    pub hostname: String,
    pub pid: u32,
    pub time: String,
    pub msg: String,
    pub src: Src,
    /// The payload, already in JSON form.
    pub data: Option<String>,
}

/// A `SerializableRecord` whose text fields hold their JSON string forms.
pub struct EncodedRecord {
    pub level: u8,
    pub name: String,
    pub hostname: String,
    pub pid: u32,
    pub time: String,
    pub msg: String,
    pub file: String,
    pub line: u32,
    pub module: String,
    pub data: Option<String>,
}

impl View for SerializableRecord {
    type V = RecordView;

    open spec fn view(&self) -> RecordView {
        RecordView {
            level: self.level as nat,
            name: self.name@,
            hostname: self.hostname@,
            pid: self.pid as nat,
            time: self.time@,
            msg: self.msg@,
            file: self.src.file@,
            line: self.src.line as nat,
            module: self.src.module@,
            data: text_of(self.data),
        }
    }
}

impl View for EncodedRecord {
    type V = RecordView;

    open spec fn view(&self) -> RecordView {
        RecordView {
            level: self.level as nat,
            name: self.name@,
            hostname: self.hostname@,
            pid: self.pid as nat,
            time: self.time@,
            msg: self.msg@,
            file: self.file@,
            line: self.line as nat,
            module: self.module@,
            data: text_of(self.data),
        }
    }
}

/// Everything of a line up to the closing of `src`.
pub open spec fn line_head(e: RecordView) -> Seq<char> {
    "{\"v\":0,\"level\":"@ + decimal(e.level) + ",\"name\":"@ + e.name + ",\"hostname\":"@
        + e.hostname + ",\"pid\":"@ + decimal(e.pid) + ",\"time\":"@ + e.time + ",\"msg\":"@
        + e.msg + ",\"src\":{\"file\":"@ + e.file + ",\"line\":"@ + decimal(e.line)
        + ",\"module"@ + "_path\":"@ + e.module + "}"@
}

/// The `data` member with its leading comma, or nothing without a payload.
pub open spec fn data_member(data: Option<Seq<char>>) -> Seq<char> {
    match data {
        Some(d) => ",\"data\":"@ + d,
        None => Seq::empty(),
    }
}

/// The line for fields already in JSON form, newline included.
pub open spec fn render(e: RecordView) -> Seq<char> {
    line_head(e) + data_member(e.data) + "}\n"@
}

/// No text field holds a line break.
pub open spec fn single_line_texts(e: RecordView) -> bool {
    &&& no_newline(e.name)
    &&& no_newline(e.hostname)
    &&& no_newline(e.time)
    &&& no_newline(e.msg)
    &&& no_newline(e.file)
    &&& no_newline(e.module)
}

/// One object line: opens with `{`, closes with `}` and a newline, and holds
/// no other line break.
pub open spec fn one_line(l: Seq<char>) -> bool {
    &&& l.len() >= 2
    &&& l[0] == '{'
    &&& l[l.len() - 2] == '}'
    &&& l[l.len() - 1] == '\n'
    &&& forall|i: int| 0 <= i < l.len() - 1 ==> l[i] != '\n'
}

/// The fields with each text in its JSON string form.
pub open spec fn encode_fields(r: RecordView) -> RecordView {
    RecordView {
        name: json_string(r.name),
        hostname: json_string(r.hostname),
        time: json_string(r.time),
        msg: json_string(r.msg),
        file: json_string(r.file),
        module: json_string(r.module),
        ..r
    }
}

/// The line for a record.
pub open spec fn line_of(r: RecordView) -> Seq<char> {
    render(encode_fields(r))
}

impl EncodedRecord {
    /// Writes the line: the fields in canonical order, `data` only when
    /// present, and one closing newline.
    pub fn render(&self) -> (r: String)
        ensures
            r@ == render(self@),
    {
        let mut s = String::from_str("{\"v\":0,\"level\":");
        write_decimal(&mut s, self.level as u64);
        s.append(",\"name\":");
        s.append(self.name.as_str());
        s.append(",\"hostname\":");
        s.append(self.hostname.as_str());
        s.append(",\"pid\":");
        write_decimal(&mut s, self.pid as u64);
        s.append(",\"time\":");
        s.append(self.time.as_str());
        s.append(",\"msg\":");
        s.append(self.msg.as_str());
        s.append(",\"src\":{\"file\":");
        s.append(self.file.as_str());
        s.append(",\"line\":");
        write_decimal(&mut s, self.line as u64);
        s.append(",\"module");
        s.append("_path\":");
        s.append(self.module.as_str());
        s.append("}");
        assert(s@ == line_head(self@));
        let ghost head = s@;
        match &self.data {
            Some(d) => {
                s.append(",\"data\":");
                s.append(d.as_str());
            },
            None => {},
        }
        assert(s@ =~= head + data_member(self@.data));
        s.append("}\n");
        s
    }
}

impl SerializableRecord {
    /// Escapes each text field through the JSON encoder.
    pub fn encode(&self) -> (r: EncodedRecord)
        ensures
            r@ == encode_fields(self@),
            single_line_texts(r@),
    {
        let data = match &self.data {
            Some(d) => Some(d.clone()),
            None => None,
        };
        let r = EncodedRecord {
            level: self.level,
            name: encode_text(self.name.as_str()),
            hostname: encode_text(self.hostname.as_str()),
            pid: self.pid,
            time: encode_text(self.time.as_str()),
            msg: encode_text(self.msg.as_str()),
            file: encode_text(self.src.file.as_str()),
            line: self.src.line,
            module: encode_text(self.src.module.as_str()),
            data,
        };
        proof {
            lemma_json_string_single_line(self.name@);
            lemma_json_string_single_line(self.hostname@);
            lemma_json_string_single_line(self.time@);
            lemma_json_string_single_line(self.msg@);
            lemma_json_string_single_line(self.src.file@);
            lemma_json_string_single_line(self.src.module@);
        }
        r
    }

    /// The complete output line; a single line where the payload text is one.
    pub fn to_line(&self) -> (r: String)
        ensures
            r@ == line_of(self@),
            (self.data matches Some(d) ==> no_newline(d@)) ==> one_line(r@),
    {
        let e = self.encode();
        proof {
            if (self@.data matches Some(d) ==> no_newline(d)) {
                lemma_one_line(e@);
            }
        }
        e.render()
    }
}

} // verus!
