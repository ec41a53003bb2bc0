//! The XML document of a collection of records: one element per record,
//! named by the record's kind in lower case, with one child element per
//! field.

use vstd::prelude::*;
use vstd::string::*;
use crate::dns::record::{DnsRecord, DnsRecordView, record_views};
use crate::output::OutputError;
use crate::output::fields::{data_rows, record_data_rows, row_views};
use crate::utils::text::{decimal, decimal_string};

verus! {

/// What a character becomes in element text: the five XML special
/// characters are replaced by their entities.
pub open spec fn escape_char(c: char) -> Seq<char> {
    if c == '<' {
        "&lt;"@
    } else if c == '>' {
        "&gt;"@
    } else if c == '&' {
        "&amp;"@
    } else if c == '\'' {
        "&apos;"@
    } else if c == '"' {
        "&quot;"@
    } else {
        seq![c]
    }
}

/// Element text for `s`: each character escaped in turn.
pub open spec fn xml_escape(s: Seq<char>) -> Seq<char>
    decreases s.len(),
{
    if s.len() == 0 {
        Seq::empty()
    } else {
        xml_escape(s.drop_last()) + escape_char(s.last())
    }
}

/// The start tag `<name>`.
pub open spec fn start_tag(name: Seq<char>) -> Seq<char> {
    seq!['<'] + name + seq!['>']
}

/// The end tag `</name>`.
pub open spec fn end_tag(name: Seq<char>) -> Seq<char> {
    seq!['<', '/'] + name + seq!['>']
}

/// The element `<name>text</name>`, the text escaped.
pub open spec fn element(name: Seq<char>, text: Seq<char>) -> Seq<char> {
    start_tag(name) + xml_escape(text) + end_tag(name)
}

/// The elements of the first `n` fields, one after the other.
pub open spec fn field_elements(fields: Seq<(Seq<char>, Seq<char>)>, n: int) -> Seq<char>
    decreases n,
{
    if n <= 0 {
        Seq::empty()
    } else {
        field_elements(fields, n - 1) + element(fields[n - 1].0, fields[n - 1].1)
    }
}

/// The `ttl` element of a record, empty where the record has no time to live.
pub open spec fn ttl_element(ttl: Option<u32>) -> Seq<char> {
    match ttl {
        Some(t) => element("ttl"@, decimal(t as nat)),
        None => Seq::empty(),
    }
}

/// The element of one record.
pub open spec fn record_element(record: DnsRecordView) -> Seq<char> {
    start_tag(record.record_type.lower_name_spec()) + element("name"@, record.name)
        + field_elements(data_rows(record.data), data_rows(record.data).len() as int)
        + ttl_element(record.ttl) + end_tag(record.record_type.lower_name_spec())
}

/// The elements of the first `n` records, one after the other.
pub open spec fn record_elements(records: Seq<DnsRecordView>, n: int) -> Seq<char>
    decreases n,
{
    if n <= 0 {
        Seq::empty()
    } else {
        record_elements(records, n - 1) + record_element(records[n - 1])
    }
}

/// The XML declaration that opens every document.
pub open spec fn declaration() -> Seq<char> {
    "<?xml version=\"1.0\" encoding=\"UTF-8\"?>"@
}

/// The whole document: the declaration, then the root element `dnsrecon`
/// around the records' elements.
pub open spec fn document(records: Seq<DnsRecordView>) -> Seq<char> {
    declaration() + start_tag("dnsrecon"@) + record_elements(records, records.len() as int)
        + end_tag("dnsrecon"@)
}

/// One event of an XML document, as it is handed to the XML writer.
#[derive(Debug, Clone, PartialEq, Eq)]
pub enum XmlEvent {
    /// The XML declaration, with version 1.0 and encoding UTF-8.
    Declaration,
    /// The start tag of the element of this name.
    Start(String),
    /// Text between tags; it is escaped when it is written.
    Text(String),
    /// The end tag of the element of this name.
    End(String),
}

/// The mathematical value of an [`XmlEvent`].
pub enum XmlEventView {
    Declaration,
    Start(Seq<char>),
    Text(Seq<char>),
    End(Seq<char>),
}

impl View for XmlEvent {
    type V = XmlEventView;

    open spec fn view(&self) -> XmlEventView {
        match self {
            XmlEvent::Declaration => XmlEventView::Declaration,
            XmlEvent::Start(name) => XmlEventView::Start(name@),
            XmlEvent::Text(text) => XmlEventView::Text(text@),
            XmlEvent::End(name) => XmlEventView::End(name@),
        }
    }
}

/// The values of a list of events.
pub open spec fn event_views(events: Seq<XmlEvent>) -> Seq<XmlEventView> {
    events.map_values(|e: XmlEvent| e@)
}

/// The text that an event is in a document.
pub open spec fn event_text(event: XmlEventView) -> Seq<char> {
    match event {
        XmlEventView::Declaration => declaration(),
        XmlEventView::Start(name) => start_tag(name),
        XmlEventView::Text(text) => xml_escape(text),
        XmlEventView::End(name) => end_tag(name),
    }
}

/// The texts of the events, one after the other.
pub open spec fn texts(events: Seq<XmlEventView>) -> Seq<char>
    decreases events.len(),
{
    if events.len() == 0 {
        Seq::empty()
    } else {
        texts(events.drop_last()) + event_text(events.last())
    }
}

/// The events of the element `<name>text</name>`.
pub open spec fn element_events(name: Seq<char>, text: Seq<char>) -> Seq<XmlEventView> {
    seq![XmlEventView::Start(name), XmlEventView::Text(text), XmlEventView::End(name)]
}

/// The events of the elements of the first `n` fields.
pub open spec fn field_events(fields: Seq<(Seq<char>, Seq<char>)>, n: int) -> Seq<XmlEventView>
    decreases n,
{
    if n <= 0 {
        Seq::empty()
    } else {
        field_events(fields, n - 1) + element_events(fields[n - 1].0, fields[n - 1].1)
    }
}

/// The events of the `ttl` element of a record; none where the record has
/// no time to live.
pub open spec fn ttl_events(ttl: Option<u32>) -> Seq<XmlEventView> {
    match ttl {
        Some(t) => element_events("ttl"@, decimal(t as nat)),
        None => Seq::empty(),
    }
}

/// The events of the element of one record.
pub open spec fn record_events(record: DnsRecordView) -> Seq<XmlEventView> {
    seq![XmlEventView::Start(record.record_type.lower_name_spec())] + element_events(
        "name"@,
        record.name,
    ) + field_events(data_rows(record.data), data_rows(record.data).len() as int) + ttl_events(
        record.ttl,
    ) + seq![XmlEventView::End(record.record_type.lower_name_spec())]
}

/// The events of the elements of the first `n` records.
pub open spec fn records_events(records: Seq<DnsRecordView>, n: int) -> Seq<XmlEventView>
    decreases n,
{
    if n <= 0 {
        Seq::empty()
    } else {
        records_events(records, n - 1) + record_events(records[n - 1])
    }
}

/// The events of the whole document.
pub open spec fn document_events(records: Seq<DnsRecordView>) -> Seq<XmlEventView> {
    seq![XmlEventView::Declaration, XmlEventView::Start("dnsrecon"@)] + records_events(
        records,
        records.len() as int,
    ) + seq![XmlEventView::End("dnsrecon"@)]
}

/// The text of one event is the text of the event.
pub proof fn lemma_texts_one(event: XmlEventView)
    ensures
        texts(seq![event]) == event_text(event),
{
    let s = seq![event];
    assert(s.drop_last() =~= Seq::<XmlEventView>::empty());
    assert(texts(s.drop_last()) =~= Seq::<char>::empty());
    assert(texts(s) =~= event_text(event));
}

/// The texts of two lists of events, one after the other, are the texts
/// of the two lists joined.
pub proof fn lemma_texts_joined(a: Seq<XmlEventView>, b: Seq<XmlEventView>)
    ensures
        texts(a + b) == texts(a) + texts(b),
    decreases b.len(),
{
    if b.len() == 0 {
        assert(a + b =~= a);
        assert(texts(a) + texts(b) =~= texts(a));
    } else {
        assert((a + b).drop_last() =~= a + b.drop_last());
        assert((a + b).last() == b.last());
        lemma_texts_joined(a, b.drop_last());
        assert(texts(a + b) =~= texts(a) + texts(b));
    }
}

/// The events of an element spell the element.
pub proof fn lemma_element_text(name: Seq<char>, text: Seq<char>)
    ensures
        texts(element_events(name, text)) == element(name, text),
{
    let start = seq![XmlEventView::Start(name)];
    let body = seq![XmlEventView::Text(text)];
    let end = seq![XmlEventView::End(name)];
    assert(element_events(name, text) =~= start + body + end);
    lemma_texts_one(XmlEventView::Start(name));
    lemma_texts_one(XmlEventView::Text(text));
    lemma_texts_one(XmlEventView::End(name));
    lemma_texts_joined(start, body);
    lemma_texts_joined(start + body, end);
}

/// The events of the fields spell the elements of the fields.
pub proof fn lemma_field_texts(fields: Seq<(Seq<char>, Seq<char>)>, n: int)
    ensures
        texts(field_events(fields, n)) == field_elements(fields, n),
    decreases n,
{
    if n > 0 {
        lemma_field_texts(fields, n - 1);
        lemma_element_text(fields[n - 1].0, fields[n - 1].1);
        lemma_texts_joined(
            field_events(fields, n - 1),
            element_events(fields[n - 1].0, fields[n - 1].1),
        );
    }
}

/// The events of a record spell the element of the record.
pub proof fn lemma_record_text(record: DnsRecordView)
    ensures
        texts(record_events(record)) == record_element(record),
{
    let kind = record.record_type.lower_name_spec();
    let rows = data_rows(record.data);
    let open = seq![XmlEventView::Start(kind)];
    let name = element_events("name"@, record.name);
    let fields = field_events(rows, rows.len() as int);
    let ttl = ttl_events(record.ttl);
    let close = seq![XmlEventView::End(kind)];
    lemma_texts_one(XmlEventView::Start(kind));
    lemma_texts_one(XmlEventView::End(kind));
    lemma_element_text("name"@, record.name);
    lemma_field_texts(rows, rows.len() as int);
    match record.ttl {
        Some(t) => {
            lemma_element_text("ttl"@, decimal(t as nat));
        },
        None => {},
    }
    lemma_texts_joined(open, name);
    lemma_texts_joined(open + name, fields);
    lemma_texts_joined(open + name + fields, ttl);
    lemma_texts_joined(open + name + fields + ttl, close);
}

/// The events of the records spell the elements of the records.
pub proof fn lemma_records_text(records: Seq<DnsRecordView>, n: int)
    ensures
        texts(records_events(records, n)) == record_elements(records, n),
    decreases n,
{
    if n > 0 {
        lemma_records_text(records, n - 1);
        lemma_record_text(records[n - 1]);
        lemma_texts_joined(records_events(records, n - 1), record_events(records[n - 1]));
    }
}

/// The events of a document spell the document.
pub proof fn lemma_document_text(records: Seq<DnsRecordView>)
    ensures
        texts(document_events(records)) == document(records),
{
    let open = seq![XmlEventView::Declaration];
    let root = seq![XmlEventView::Start("dnsrecon"@)];
    let body = records_events(records, records.len() as int);
    let close = seq![XmlEventView::End("dnsrecon"@)];
    assert(document_events(records) =~= open + root + body + close);
    lemma_texts_one(XmlEventView::Declaration);
    lemma_texts_one(XmlEventView::Start("dnsrecon"@));
    lemma_texts_one(XmlEventView::End("dnsrecon"@));
    lemma_records_text(records, records.len() as int);
    lemma_texts_joined(open, root);
    lemma_texts_joined(open + root, body);
    lemma_texts_joined(open + root + body, close);
}

/// Writes a start-tag event through `quick_xml::Writer::write_event`, which
/// puts the name between `<` and `>`. The writer's only failure is that of
/// the buffer it writes to; the buffer is a fresh `Vec<u8>`, to which
/// writing appends and does not fail, and what is written is UTF-8 text.
#[verifier::external_body]
fn start_event(name: &str) -> (r: Result<String, OutputError>)
    ensures
        r is Ok,
        r matches Ok(s) ==> s@ == start_tag(name@),
{
    let mut writer = quick_xml::Writer::new(Vec::new());
    let event = quick_xml::events::Event::Start(quick_xml::events::BytesStart::new(name));
    match writer.write_event(event) {
        Ok(()) => match String::from_utf8(writer.into_inner()) {
            Ok(s) => Ok(s),
            Err(e) => Err(OutputError::Utf8(e.to_string())),
        },
        Err(e) => Err(OutputError::Xml(e.to_string())),
    }
}

/// Writes an end-tag event through `quick_xml::Writer::write_event`, which
/// puts the name between `</` and `>`. The writer's only failure is that of
/// the buffer it writes to; the buffer is a fresh `Vec<u8>`, to which
/// writing appends and does not fail, and what is written is UTF-8 text.
#[verifier::external_body]
fn end_event(name: &str) -> (r: Result<String, OutputError>)
    ensures
        r is Ok,
        r matches Ok(s) ==> s@ == end_tag(name@),
{
    let mut writer = quick_xml::Writer::new(Vec::new());
    let event = quick_xml::events::Event::End(quick_xml::events::BytesEnd::new(name));
    match writer.write_event(event) {
        Ok(()) => match String::from_utf8(writer.into_inner()) {
            Ok(s) => Ok(s),
            Err(e) => Err(OutputError::Utf8(e.to_string())),
        },
        Err(e) => Err(OutputError::Xml(e.to_string())),
    }
}

/// Writes a text event through `quick_xml::Writer::write_event`;
/// `BytesText::new` escapes `<`, `>`, `&`, `'` and `"` and leaves every
/// other character as it is. The writer's only failure is that of the
/// buffer it writes to; the buffer is a fresh `Vec<u8>`, to which writing
/// appends and does not fail, and what is written is UTF-8 text.
#[verifier::external_body]
fn text_event(text: &str) -> (r: Result<String, OutputError>)
    ensures
        r is Ok,
        r matches Ok(s) ==> s@ == xml_escape(text@),
{
    let mut writer = quick_xml::Writer::new(Vec::new());
    let event = quick_xml::events::Event::Text(quick_xml::events::BytesText::new(text));
    match writer.write_event(event) {
        Ok(()) => match String::from_utf8(writer.into_inner()) {
            Ok(s) => Ok(s),
            Err(e) => Err(OutputError::Utf8(e.to_string())),
        },
        Err(e) => Err(OutputError::Xml(e.to_string())),
    }
}

/// Writes the declaration event through `quick_xml::Writer::write_event`:
/// `BytesDecl::new` with version 1.0 and encoding UTF-8, between `<?` and
/// `?>`. The writer's only failure is that of the buffer it writes to; the
/// buffer is a fresh `Vec<u8>`, to which writing appends and does not
/// fail, and what is written is UTF-8 text.
#[verifier::external_body]
fn declaration_event() -> (r: Result<String, OutputError>)
    ensures
        r is Ok,
        r matches Ok(s) ==> s@ == declaration(),
{
    let mut writer = quick_xml::Writer::new(Vec::new());
    let decl = quick_xml::events::BytesDecl::new("1.0", Some("UTF-8"), None);
    match writer.write_event(quick_xml::events::Event::Decl(decl)) {
        Ok(()) => match String::from_utf8(writer.into_inner()) {
            Ok(s) => Ok(s),
            Err(e) => Err(OutputError::Utf8(e.to_string())),
        },
        Err(e) => Err(OutputError::Xml(e.to_string())),
    }
}

/// Hands one event to the XML writer and gives back the text it wrote.
pub fn write_event(event: &XmlEvent) -> (r: Result<String, OutputError>)
    ensures
        r matches Ok(s) && s@ == event_text(event@),
{
    match event {
        XmlEvent::Declaration => declaration_event(),
        XmlEvent::Start(name) => start_event(name.as_str()),
        XmlEvent::Text(text) => text_event(text.as_str()),
        XmlEvent::End(name) => end_event(name.as_str()),
    }
}

/// Writes the events to the end of `out`, in order.
pub fn write_events(out: &mut String, events: &Vec<XmlEvent>) -> (r: Result<(), OutputError>)
    ensures
        r is Ok,
        final(out)@ == old(out)@ + texts(event_views(events@)),
{
    let ghost views = event_views(events@);
    let ghost start = out@;
    let mut i: usize = 0;
    assert(views.take(0) =~= Seq::<XmlEventView>::empty());
    assert(out@ =~= start + texts(views.take(0)));
    while i < events.len()
        invariant
            i <= events.len(),
            views == event_views(events@),
            start == old(out)@,
            out@ == start + texts(views.take(i as int)),
        decreases events.len() - i,
    {
        assert(views[i as int] == events@[i as int]@);
        match write_event(&events[i]) {
            Ok(s) => {
                out.append(s.as_str());
            },
            Err(e) => {
                return Err(e);
            },
        }
        proof {
            let upto = views.take(i as int + 1);
            assert(upto.drop_last() =~= views.take(i as int));
            assert(upto.last() == views[i as int]);
            assert(out@ =~= start + texts(upto));
        }
        i += 1;
    }
    assert(views.take(views.len() as int) =~= views);
    Ok(())
}

/// Appends the events of the element `<name>text</name>` to `events`.
pub fn push_element(events: &mut Vec<XmlEvent>, name: &str, text: &str)
    ensures
        event_views(final(events)@) == event_views(old(events)@) + element_events(name@, text@),
{
    events.push(XmlEvent::Start(String::from_str(name)));
    events.push(XmlEvent::Text(String::from_str(text)));
    events.push(XmlEvent::End(String::from_str(name)));
    assert(event_views(events@) =~= event_views(old(events)@) + element_events(name@, text@));
}

/// Appends the events of the element of one record to `events`.
pub fn push_record(events: &mut Vec<XmlEvent>, record: &DnsRecord)
    ensures
        event_views(final(events)@) == event_views(old(events)@) + record_events(record@),
{
    let ghost start = event_views(events@);
    let ghost kind = record@.record_type.lower_name_spec();
    let element_name = record.record_type().lower_name();
    events.push(XmlEvent::Start(String::from_str(element_name)));
    push_element(events, "name", record.name());
    let ghost head = start + seq![XmlEventView::Start(kind)] + element_events(
        "name"@,
        record@.name,
    );
    assert(event_views(events@) =~= head);
    let fields = record_data_rows(record.data());
    let ghost rows = data_rows(record@.data);
    let mut i: usize = 0;
    assert(event_views(events@) =~= head + field_events(rows, 0));
    while i < fields.len()
        invariant
            i <= fields.len(),
            row_views(fields@) == rows,
            event_views(events@) == head + field_events(rows, i as int),
        decreases fields.len() - i,
    {
        assert(row_views(fields@)[i as int] == (fields@[i as int].0@, fields@[i as int].1@));
        push_element(events, fields[i].0.as_str(), fields[i].1.as_str());
        assert(event_views(events@) =~= head + field_events(rows, i as int + 1));
        i += 1;
    }
    assert(rows.len() == fields@.len());
    let ghost with_fields = event_views(events@);
    match record.ttl() {
        Some(ttl) => {
            let text = decimal_string(ttl as u64);
            push_element(events, "ttl", text.as_str());
        },
        None => {},
    }
    assert(event_views(events@) =~= with_fields + ttl_events(record@.ttl));
    let ghost with_ttl = event_views(events@);
    events.push(XmlEvent::End(String::from_str(element_name)));
    assert(event_views(events@) =~= with_ttl + seq![XmlEventView::End(kind)]);
    assert(with_fields == head + field_events(rows, rows.len() as int));
    assert(event_views(events@) =~= start + (seq![XmlEventView::Start(kind)] + element_events(
        "name"@,
        record@.name,
    ) + field_events(rows, rows.len() as int) + ttl_events(record@.ttl) + seq![
        XmlEventView::End(kind),
    ]));
}

/// Appends the element `<name>text</name>` to `out`.
pub fn write_element(out: &mut String, name: &str, text: &str) -> (r: Result<(), OutputError>)
    ensures
        r is Ok,
        final(out)@ == old(out)@ + element(name@, text@),
{
    let mut events: Vec<XmlEvent> = Vec::new();
    push_element(&mut events, name, text);
    assert(event_views(events@) =~= element_events(name@, text@));
    proof {
        lemma_element_text(name@, text@);
    }
    write_events(out, &events)
}

/// Appends the element of one record to `out`.
pub fn write_record(out: &mut String, record: &DnsRecord) -> (r: Result<(), OutputError>)
    ensures
        r is Ok,
        final(out)@ == old(out)@ + record_element(record@),
{
    let mut events: Vec<XmlEvent> = Vec::new();
    push_record(&mut events, record);
    assert(event_views(events@) =~= record_events(record@));
    proof {
        lemma_record_text(record@);
    }
    write_events(out, &events)
}

/// The XML document of `results`.
pub fn to_xml_string(results: &Vec<DnsRecord>) -> (r: Result<String, OutputError>)
    ensures
        r matches Ok(s) && s@ == document(record_views(results@)),
{
    let ghost views = record_views(results@);
    let mut events: Vec<XmlEvent> = Vec::new();
    events.push(XmlEvent::Declaration);
    events.push(XmlEvent::Start(String::from_str("dnsrecon")));
    let ghost head = seq![XmlEventView::Declaration, XmlEventView::Start("dnsrecon"@)];
    assert(event_views(events@) =~= head + records_events(views, 0));
    let mut i: usize = 0;
    while i < results.len()
        invariant
            i <= results.len(),
            views == record_views(results@),
            event_views(events@) == head + records_events(views, i as int),
        decreases results.len() - i,
    {
        assert(views[i as int] == results@[i as int]@);
        push_record(&mut events, &results[i]);
        assert(event_views(events@) =~= head + records_events(views, i as int + 1));
        i += 1;
    }
    events.push(XmlEvent::End(String::from_str("dnsrecon")));
    assert(event_views(events@) =~= document_events(views));
    proof {
        lemma_document_text(views);
    }
    let mut out = String::new();
    match write_events(&mut out, &events) {
        Ok(()) => {
            assert(out@ =~= texts(document_events(views)));
            Ok(out)
        },
        Err(e) => Err(e),
    }
}

} // verus!
