use vstd::prelude::*;
use crate::level::{enabled, Level};
use crate::logger::{appended, logged, record_fields, rfc3339_utc, LoggerState};
use crate::record::{
    data_member, encode_fields, line_head, one_line, render, single_line_texts, RecordView,
};
use crate::wire::{
    decimal, json_string, lemma_concat_single_line, lemma_decimal_single_line,
    lemma_json_string_single_line, no_newline,
};

verus! {

/// A logger whose threshold is the sentinel writes nothing, whatever the
/// level of the record.
pub proof fn lemma_disabled_writes_nothing(
    before: LoggerState,
    after: LoggerState,
    level: Level,
    msg: Seq<char>,
    file: Seq<char>,
    line: nat,
    module: Seq<char>,
    has_data: bool,
)
    requires
        before.minimum == Level::Disabled,
        level.is_severity(),
        logged(before, after, level, msg, file, line, module, has_data),
    ensures
        after.output == before.output,
{
}

/// A record without payload gives the line with no `data` member at all; with
/// a payload, the same line with `,"data":` and the payload before the
/// closing brace.
pub proof fn lemma_data_member_only_with_payload(e: RecordView, d: Seq<char>)
    ensures
        render(RecordView { data: None, ..e }) == line_head(e) + "}\n"@,
        render(RecordView { data: Some(d), ..e }) == line_head(e) + ",\"data\":"@ + d + "}\n"@,
{
    assert(line_head(RecordView { data: None, ..e }) == line_head(e));
    assert(line_head(RecordView { data: Some(d), ..e }) == line_head(e));
    assert(data_member(None) + "}\n"@ =~= "}\n"@);
    assert(render(RecordView { data: None, ..e }) =~= line_head(e) + "}\n"@);
    assert(render(RecordView { data: Some(d), ..e }) =~= line_head(e) + ",\"data\":"@ + d
        + "}\n"@);
}

/// Every rendered line is one JSON object that opens with `{"v":0,"level":`
/// and the level, closes with `}`, and is followed by exactly one newline,
/// the last character; no other line break occurs in it.
pub proof fn lemma_one_line(e: RecordView)
    requires
        single_line_texts(e),
        e.data matches Some(d) ==> no_newline(d),
    ensures
        one_line(render(e)),
        render(e).subrange(0, 15) == "{\"v\":0,\"level\":"@,
        render(e).subrange(15, 15 + decimal(e.level).len() as int) == decimal(e.level),
{
    reveal_strlit("{\"v\":0,\"level\":");
    reveal_strlit(",\"name\":");
    reveal_strlit(",\"hostname\":");
    reveal_strlit(",\"pid\":");
    reveal_strlit(",\"time\":");
    reveal_strlit(",\"msg\":");
    reveal_strlit(",\"src\":{\"file\":");
    reveal_strlit(",\"line\":");
    reveal_strlit(",\"module");
    reveal_strlit("_path\":");
    reveal_strlit("}");
    reveal_strlit(",\"data\":");
    reveal_strlit("}\n");
    lemma_decimal_single_line(e.level);
    lemma_decimal_single_line(e.pid);
    lemma_decimal_single_line(e.line);
    let mut acc = "{\"v\":0,\"level\":"@;
    assert(no_newline(acc));
    lemma_concat_single_line(acc, decimal(e.level));
    acc = acc + decimal(e.level);
    lemma_concat_single_line(acc, ",\"name\":"@);
    acc = acc + ",\"name\":"@;
    lemma_concat_single_line(acc, e.name);
    acc = acc + e.name;
    lemma_concat_single_line(acc, ",\"hostname\":"@);
    acc = acc + ",\"hostname\":"@;
    lemma_concat_single_line(acc, e.hostname);
    acc = acc + e.hostname;
    lemma_concat_single_line(acc, ",\"pid\":"@);
    acc = acc + ",\"pid\":"@;
    lemma_concat_single_line(acc, decimal(e.pid));
    acc = acc + decimal(e.pid);
    lemma_concat_single_line(acc, ",\"time\":"@);
    acc = acc + ",\"time\":"@;
    lemma_concat_single_line(acc, e.time);
    acc = acc + e.time;
    lemma_concat_single_line(acc, ",\"msg\":"@);
    acc = acc + ",\"msg\":"@;
    lemma_concat_single_line(acc, e.msg);
    acc = acc + e.msg;
    lemma_concat_single_line(acc, ",\"src\":{\"file\":"@);
    acc = acc + ",\"src\":{\"file\":"@;
    lemma_concat_single_line(acc, e.file);
    acc = acc + e.file;
    lemma_concat_single_line(acc, ",\"line\":"@);
    acc = acc + ",\"line\":"@;
    lemma_concat_single_line(acc, decimal(e.line));
    acc = acc + decimal(e.line);
    lemma_concat_single_line(acc, ",\"module"@);
    acc = acc + ",\"module"@;
    lemma_concat_single_line(acc, "_path\":"@);
    acc = acc + "_path\":"@;
    lemma_concat_single_line(acc, e.module);
    acc = acc + e.module;
    lemma_concat_single_line(acc, "}"@);
    acc = acc + "}"@;
    assert(acc == line_head(e));
    if let Some(d) = e.data {
        lemma_concat_single_line(",\"data\":"@, d);
    }
    lemma_concat_single_line(acc, data_member(e.data));
    let body = acc + data_member(e.data);
    let l = render(e);
    assert(l == body + "}\n"@);
    assert(l[l.len() - 2] == '}');
    assert(l[l.len() - 1] == '\n');
    assert forall|i: int| 0 <= i < l.len() - 1 implies l[i] != '\n' by {
        if i < body.len() {
            assert(l[i] == body[i]);
        }
    }
    let p0 = "{\"v\":0,\"level\":"@;
    assert(body.len() >= 15 + decimal(e.level).len());
    assert(l.subrange(0, 15) =~= p0);
    assert(l.subrange(15, 15 + decimal(e.level).len() as int) =~= decimal(e.level));
}

/// Loggers that share the host's name and the process id give the same
/// fields for the same record, but for their own names.
pub proof fn lemma_names_independent(
    a: LoggerState,
    b: LoggerState,
    level: Level,
    msg: Seq<char>,
    file: Seq<char>,
    line: nat,
    module: Seq<char>,
    time: Seq<char>,
    data: Option<Seq<char>>,
)
    requires
        a.hostname == b.hostname,
        a.pid == b.pid,
    ensures
        record_fields(a, level, msg, file, line, module, time, data).name == a.name,
        record_fields(b, level, msg, file, line, module, time, data).name == b.name,
        record_fields(b, level, msg, file, line, module, time, data) == (RecordView {
            name: b.name,
            ..record_fields(a, level, msg, file, line, module, time, data)
        }),
{
}

/// A call writes exactly when the threshold does not outrank its level, and
/// then exactly one object line, after everything written before.
pub proof fn lemma_emits_iff_enabled(
    before: LoggerState,
    after: LoggerState,
    level: Level,
    msg: Seq<char>,
    file: Seq<char>,
    line: nat,
    module: Seq<char>,
    has_data: bool,
)
    requires
        logged(before, after, level, msg, file, line, module, has_data),
    ensures
        after.output != before.output <==> enabled(before.minimum, level),
        enabled(before.minimum, level) ==> exists|l: Seq<char>|
            one_line(l) && after.output == before.output + l,
{
    if enabled(before.minimum, level) {
        let (t, p) = lemma_logged_witness(before, after, level, msg, file, line, module, has_data);
        let l = appended(before, level, msg, file, line, module, has_data, t, p);
        assert(one_line(l));
        assert(after.output.len() > before.output.len());
    }
}

/// The clock reading and payload text behind an accepted call, with what
/// the line they give is made of.
pub proof fn lemma_logged_witness(
    before: LoggerState,
    after: LoggerState,
    level: Level,
    msg: Seq<char>,
    file: Seq<char>,
    line: nat,
    module: Seq<char>,
    has_data: bool,
) -> (w: (Seq<char>, Seq<char>))
    requires
        logged(before, after, level, msg, file, line, module, has_data),
        enabled(before.minimum, level),
    ensures
        rfc3339_utc(w.0),
        no_newline(w.1),
        after.output == before.output + appended(
            before,
            level,
            msg,
            file,
            line,
            module,
            has_data,
            w.0,
            w.1,
        ),
        one_line(appended(before, level, msg, file, line, module, has_data, w.0, w.1)),
{
    let (t, p) = choose|t: Seq<char>, p: Seq<char>|
        rfc3339_utc(t) && no_newline(p) && after.output == before.output + #[trigger] appended(
            before,
            level,
            msg,
            file,
            line,
            module,
            has_data,
            t,
            p,
        );
    let fields = record_fields(
        before,
        level,
        msg,
        file,
        line,
        module,
        t,
        if has_data { Some(p) } else { None },
    );
    lemma_json_string_single_line(fields.name);
    lemma_json_string_single_line(fields.hostname);
    lemma_json_string_single_line(fields.time);
    lemma_json_string_single_line(fields.msg);
    lemma_json_string_single_line(fields.file);
    lemma_json_string_single_line(fields.module);
    lemma_one_line(encode_fields(fields));
    reveal(appended);
    (t, p)
}

/// An accepted call writes the `data` member exactly when the record has a
/// payload, and then with the payload's JSON text; the message is written
/// as the JSON string of exactly the text given.
pub proof fn lemma_data_tracks_payload(
    before: LoggerState,
    after: LoggerState,
    level: Level,
    msg: Seq<char>,
    file: Seq<char>,
    line: nat,
    module: Seq<char>,
    has_data: bool,
)
    requires
        logged(before, after, level, msg, file, line, module, has_data),
        enabled(before.minimum, level),
    ensures
        exists|time: Seq<char>, payload: Seq<char>|
            {
                let head = line_head(
                    encode_fields(record_fields(before, level, msg, file, line, module, time, None)),
                );
                &&& rfc3339_utc(time)
                &&& no_newline(payload)
                &&& after.output == before.output + #[trigger] appended(
                    before,
                    level,
                    msg,
                    file,
                    line,
                    module,
                    has_data,
                    time,
                    payload,
                )
                &&& encode_fields(
                    record_fields(before, level, msg, file, line, module, time, None),
                ).msg == json_string(msg)
                &&& has_data ==> after.output == before.output + head + ",\"data\":"@ + payload
                    + "}\n"@
                &&& !has_data ==> after.output == before.output + head + "}\n"@
            },
{
    let (t, p) = lemma_logged_witness(before, after, level, msg, file, line, module, has_data);
    reveal(appended);
    let base = record_fields(before, level, msg, file, line, module, t, None);
    let e = encode_fields(base);
    lemma_data_member_only_with_payload(e, p);
    assert(encode_fields(
        record_fields(before, level, msg, file, line, module, t, if has_data { Some(p) } else { None }),
    ) == RecordView { data: if has_data { Some(p) } else { None }, ..e });
    if has_data {
        assert(after.output =~= before.output + line_head(e) + ",\"data\":"@ + p + "}\n"@);
    } else {
        assert(after.output =~= before.output + line_head(e) + "}\n"@);
    }
}

/// One call keeps everything written before in place and can only add
/// after it.
pub proof fn lemma_output_extends(
    before: LoggerState,
    after: LoggerState,
    level: Level,
    msg: Seq<char>,
    file: Seq<char>,
    line: nat,
    module: Seq<char>,
    has_data: bool,
)
    requires
        logged(before, after, level, msg, file, line, module, has_data),
    ensures
        before.output.len() <= after.output.len(),
        after.output.subrange(0, before.output.len() as int) == before.output,
{
    if enabled(before.minimum, level) {
        lemma_logged_witness(before, after, level, msg, file, line, module, has_data);
    }
    assert(after.output.subrange(0, before.output.len() as int) =~= before.output);
}

/// Lines come out in call order: a later call adds after what an earlier one
/// wrote, and neither moves what was there.
pub proof fn lemma_call_order_kept(
    s0: LoggerState,
    s1: LoggerState,
    s2: LoggerState,
    first: Level,
    second: Level,
    msg1: Seq<char>,
    msg2: Seq<char>,
    file1: Seq<char>,
    file2: Seq<char>,
    line1: nat,
    line2: nat,
    module1: Seq<char>,
    module2: Seq<char>,
    has_data1: bool,
    has_data2: bool,
)
    requires
        logged(s0, s1, first, msg1, file1, line1, module1, has_data1),
        logged(s1, s2, second, msg2, file2, line2, module2, has_data2),
    ensures
        s0.output.len() <= s1.output.len() <= s2.output.len(),
        s2.output.subrange(0, s1.output.len() as int) == s1.output,
        s2.output.subrange(0, s0.output.len() as int) == s0.output,
{
    lemma_output_extends(s0, s1, first, msg1, file1, line1, module1, has_data1);
    lemma_output_extends(s1, s2, second, msg2, file2, line2, module2, has_data2);
    assert(s2.output.subrange(0, s0.output.len() as int) =~= s1.output.subrange(
        0,
        s0.output.len() as int,
    ));
}

} // verus!
