//! The text of a Sign-In-With-Solana message, read line by line.
//!
//! A message opens with `<domain> wants you to sign in with your Solana
//! account:`, carries the address on its second line and the statement on
//! its fourth, and continues with `Label: value` lines and `- resource`
//! lines. Reading is positional for the first lines and by label for the
//! rest: a line counts for a label when the label occurs anywhere in it.

use crate::text::begins_with;
use crate::text::chars_of;
use crate::text::contains;
use crate::text::contains_text;
use crate::text::opt_view;
use crate::text::split;
use crate::text::split_on;
use crate::text::split_once;
use crate::text::split_once_at;
use crate::text::starts_with;
use crate::text::string_of;
use crate::text::string_views;
use crate::text::trim;
use crate::text::trimmed;
use crate::text::views;
use crate::time::rfc3339_instant;
use crate::time::Timestamp;
use vstd::prelude::*;

verus! {

/// A timestamp as a message carries it: the text after the colon, as
/// written, and the instant it denotes, in nanoseconds since the epoch.
pub struct TimeText {
    pub raw: Seq<char>,
    pub instant: nat,
}

/// What a message says, field by field.
pub struct Fields {
    pub domain: Option<Seq<char>>,
    pub address: Option<Seq<char>>,
    pub statement: Option<Seq<char>>,
    pub uri: Option<Seq<char>>,
    pub version: Option<Seq<char>>,
    pub chain_id: Option<Seq<char>>,
    pub nonce: Option<Seq<char>>,
    pub issued_at: Option<TimeText>,
    pub expiration_time: Option<TimeText>,
    pub not_before: Option<TimeText>,
    pub request_id: Option<Seq<char>>,
    pub resources: Seq<Seq<char>>,
}

/// The fields of a message of which nothing has been read yet.
pub open spec fn no_fields() -> Fields {
    Fields {
        domain: None,
        address: None,
        statement: None,
        uri: None,
        version: None,
        chain_id: None,
        nonce: None,
        issued_at: None,
        expiration_time: None,
        not_before: None,
        request_id: None,
        resources: Seq::empty(),
    }
}

/// The value of a `Label: value` line: what follows the first colon,
/// trimmed. `None` for a line without a colon.
pub open spec fn colon_value(line: Seq<char>) -> Option<Seq<char>> {
    match split_once(line, ':') {
        Some((_, right)) => Some(trim(right)),
        None => None,
    }
}

/// The timestamp of a `Label: value` line. `Ok(None)` for a line without a
/// colon; `Err` with the text after the colon where that text, trimmed, is
/// no RFC 3339 timestamp.
pub open spec fn time_value(line: Seq<char>) -> Result<Option<TimeText>, Seq<char>> {
    match split_once(line, ':') {
        Some((_, right)) => match rfc3339_instant(trim(right)) {
            Some(instant) => Ok(Some(TimeText { raw: right, instant })),
            None => Err(right),
        },
        None => Ok(None),
    }
}

/// The resource of a `- resource` line: what stands between the leading
/// dash and the next dash, trimmed.
pub open spec fn resource_value(line: Seq<char>) -> Seq<char> {
    trim(split(line, '-')[1])
}

/// The effect of the positional rules and of the labels `URI`, `Version`,
/// `Chain ID` and `Nonce` on the fields read so far.
pub open spec fn apply_text_labels(f: Fields, index: int, line: Seq<char>) -> Fields {
    let f = if index == 1 {
        Fields { address: Some(trim(line)), ..f }
    } else {
        f
    };
    let f = if index == 3 {
        Fields { statement: Some(trim(line)), ..f }
    } else {
        f
    };
    let f = if contains(line, "URI"@) {
        Fields { uri: colon_value(line), ..f }
    } else {
        f
    };
    let f = if contains(line, "Version"@) {
        Fields { version: colon_value(line), ..f }
    } else {
        f
    };
    let f = if contains(line, "Chain ID"@) && colon_value(line) is Some {
        Fields { chain_id: colon_value(line), ..f }
    } else {
        f
    };
    if contains(line, "Nonce"@) {
        Fields { nonce: colon_value(line), ..f }
    } else {
        f
    }
}

/// The effect of the labels `Issued At`, `Expiration` and `Not Before`, in
/// that order. The first timestamp that cannot be read ends the reading.
pub open spec fn apply_time_labels(f: Fields, line: Seq<char>) -> Result<Fields, Seq<char>> {
    if contains(line, "Issued At"@) && time_value(line) is Err {
        Err(time_value(line)->Err_0)
    } else if contains(line, "Expiration"@) && time_value(line) is Err {
        Err(time_value(line)->Err_0)
    } else if contains(line, "Not Before"@) && time_value(line) is Err {
        Err(time_value(line)->Err_0)
    } else {
        let f = if contains(line, "Issued At"@) {
            Fields { issued_at: time_value(line)->Ok_0, ..f }
        } else {
            f
        };
        let f = if contains(line, "Expiration"@) {
            Fields { expiration_time: time_value(line)->Ok_0, ..f }
        } else {
            f
        };
        let f = if contains(line, "Not Before"@) {
            Fields { not_before: time_value(line)->Ok_0, ..f }
        } else {
            f
        };
        Ok(f)
    }
}

/// The effect of the label `Request ID` and of a leading dash.
pub open spec fn apply_closing_labels(f: Fields, line: Seq<char>) -> Fields {
    let f = if contains(line, "Request ID"@) {
        Fields { request_id: colon_value(line), ..f }
    } else {
        f
    };
    if starts_with(line, "-"@) {
        Fields { resources: f.resources.push(resource_value(line)), ..f }
    } else {
        f
    }
}

/// The fields after the line at `index` has been read.
pub open spec fn apply_line(f: Fields, index: int, line: Seq<char>) -> Result<Fields, Seq<char>> {
    match apply_time_labels(apply_text_labels(f, index, line), line) {
        Ok(g) => Ok(apply_closing_labels(g, line)),
        Err(raw) => Err(raw),
    }
}

/// The fields after the lines from `from` on have been read, in order.
pub open spec fn apply_lines(f: Fields, lines: Seq<Seq<char>>, from: int) -> Result<
    Fields,
    Seq<char>,
>
    decreases lines.len() - from,
{
    if 0 <= from < lines.len() {
        match apply_line(f, from, lines[from]) {
            Ok(g) => apply_lines(g, lines, from + 1),
            Err(raw) => Err(raw),
        }
    } else {
        Ok(f)
    }
}

/// The domain of a message: what stands before its first space, trimmed.
pub open spec fn domain_of(input: Seq<char>) -> Option<Seq<char>> {
    match split_once(input, ' ') {
        Some((left, _)) => Some(trim(left)),
        None => None,
    }
}

/// What the message `input` says, or the text of the first timestamp in it
/// that cannot be read.
pub open spec fn parse(input: Seq<char>) -> Result<Fields, Seq<char>> {
    apply_lines(Fields { domain: domain_of(input), ..no_fields() }, split(input, '\n'), 0)
}

/// A timestamp read from a message: its text and its instant.
#[derive(Clone, Debug)]
pub struct TimeField {
    pub raw: String,
    pub instant: Timestamp,
}

impl View for TimeField {
    type V = TimeText;

    open spec fn view(&self) -> TimeText {
        TimeText { raw: self.raw@, instant: self.instant@ }
    }
}

/// The view of an optional timestamp field.
pub open spec fn opt_time_view(field: Option<TimeField>) -> Option<TimeText> {
    match field {
        Some(t) => Some(t@),
        None => None,
    }
}

/// The fields of a message as strings.
#[derive(Clone, Debug)]
pub struct MessageFields {
    pub domain: Option<String>,
    pub address: Option<String>,
    pub statement: Option<String>,
    pub uri: Option<String>,
    pub version: Option<String>,
    pub chain_id: Option<String>,
    pub nonce: Option<String>,
    pub issued_at: Option<TimeField>,
    pub expiration_time: Option<TimeField>,
    pub not_before: Option<TimeField>,
    pub request_id: Option<String>,
    pub resources: Vec<String>,
}

impl View for MessageFields {
    type V = Fields;

    open spec fn view(&self) -> Fields {
        Fields {
            domain: opt_view(self.domain),
            address: opt_view(self.address),
            statement: opt_view(self.statement),
            uri: opt_view(self.uri),
            version: opt_view(self.version),
            chain_id: opt_view(self.chain_id),
            nonce: opt_view(self.nonce),
            issued_at: opt_time_view(self.issued_at),
            expiration_time: opt_time_view(self.expiration_time),
            not_before: opt_time_view(self.not_before),
            request_id: opt_view(self.request_id),
            resources: string_views(self.resources@),
        }
    }
}

/// The labels that the reader looks for, as character vectors.
struct Labels {
    uri: Vec<char>,
    version: Vec<char>,
    chain_id: Vec<char>,
    nonce: Vec<char>,
    issued_at: Vec<char>,
    expiration: Vec<char>,
    not_before: Vec<char>,
    request_id: Vec<char>,
    dash: Vec<char>,
}

impl Labels {
    /// Whether each label holds the text that the message format gives it.
    closed spec fn wf(&self) -> bool {
        &&& self.uri@ == "URI"@
        &&& self.version@ == "Version"@
        &&& self.chain_id@ == "Chain ID"@
        &&& self.nonce@ == "Nonce"@
        &&& self.issued_at@ == "Issued At"@
        &&& self.expiration@ == "Expiration"@
        &&& self.not_before@ == "Not Before"@
        &&& self.request_id@ == "Request ID"@
        &&& self.dash@ == "-"@
    }

    /// The labels of the message format.
    fn new() -> (labels: Labels)
        ensures
            labels.wf(),
    {
        Labels {
            uri: chars_of("URI"),
            version: chars_of("Version"),
            chain_id: chars_of("Chain ID"),
            nonce: chars_of("Nonce"),
            issued_at: chars_of("Issued At"),
            expiration: chars_of("Expiration"),
            not_before: chars_of("Not Before"),
            request_id: chars_of("Request ID"),
            dash: chars_of("-"),
        }
    }
}

/// Computes `colon_value`.
pub fn read_colon_value(line: &[char]) -> (value: Option<String>)
    ensures
        opt_view(value) == colon_value(line@),
{
    match split_once_at(line, ':') {
        Some((_, right)) => Some(string_of(trimmed(right.as_slice()).as_slice())),
        None => None,
    }
}

/// What a line that carries a timestamp yields, given the text after its
/// colon and what the timestamp parser made of that text, trimmed: the
/// field, or the text itself as the offending value.
pub fn time_field(raw: String, parsed: Option<Timestamp>) -> (r: Result<TimeField, String>)
    ensures
        match parsed {
            Some(instant) => r matches Ok(field) && field.raw@ == raw@ && field.instant
                == instant,
            None => r matches Err(text) && text@ == raw@,
        },
{
    match parsed {
        Some(instant) => Ok(TimeField { raw, instant }),
        None => Err(raw),
    }
}

/// Computes `time_value`.
pub fn read_time_value(line: &[char]) -> (r: Result<Option<TimeField>, String>)
    ensures
        match time_value(line@) {
            Ok(field) => r matches Ok(f) && opt_time_view(f) == field,
            Err(raw) => r matches Err(text) && text@ == raw,
        },
{
    match split_once_at(line, ':') {
        Some((_, right)) => {
            let value = string_of(trimmed(right.as_slice()).as_slice());
            let parsed = Timestamp::parse_rfc3339(value.as_str());
            match time_field(string_of(right.as_slice()), parsed) {
                Ok(field) => Ok(Some(field)),
                Err(raw) => Err(raw),
            }
        },
        None => Ok(None),
    }
}

/// Computes `resource_value` for a line that starts with a dash.
fn read_resource(line: &[char]) -> (value: String)
    requires
        starts_with(line@, "-"@),
    ensures
        value@ == resource_value(line@),
{
    let pieces = split_on(line, '-');
    proof {
        reveal_strlit("-");
        assert("-"@.len() == 1 && "-"@[0] == '-');
        assert(line@.subrange(0, 1)[0] == line@[0]);
        crate::text::lemma_first_index_unique(line@, '-', 0);
        assert(split(line@, '-').len() >= 2) by {
            reveal_with_fuel(split, 2);
        }
        assert(views(pieces@)[1] == pieces@[1]@);
    }
    string_of(trimmed(pieces[1].as_slice()).as_slice())
}

/// Reads one line into `fields`. On `Err` the text of the timestamp that
/// could not be read is handed back and `fields` is of no further use.
fn read_line(fields: &mut MessageFields, labels: &Labels, index: usize, line: &[char]) -> (r:
    Result<(), String>)
    requires
        labels.wf(),
    ensures
        match apply_line(old(fields)@, index as int, line@) {
            Ok(g) => r is Ok && final(fields)@ == g,
            Err(raw) => r matches Err(text) && text@ == raw,
        },
{
    if index == 1 {
        fields.address = Some(string_of(trimmed(line).as_slice()));
    }
    if index == 3 {
        fields.statement = Some(string_of(trimmed(line).as_slice()));
    }
    if contains_text(line, labels.uri.as_slice()) {
        fields.uri = read_colon_value(line);
    }
    if contains_text(line, labels.version.as_slice()) {
        fields.version = read_colon_value(line);
    }
    if contains_text(line, labels.chain_id.as_slice()) {
        let value = read_colon_value(line);
        if value.is_some() {
            fields.chain_id = value;
        }
    }
    if contains_text(line, labels.nonce.as_slice()) {
        fields.nonce = read_colon_value(line);
    }
    assert(fields@ == apply_text_labels(old(fields)@, index as int, line@));
    if contains_text(line, labels.issued_at.as_slice()) {
        match read_time_value(line) {
            Ok(field) => {
                fields.issued_at = field;
            },
            Err(raw) => {
                return Err(raw);
            },
        }
    }
    if contains_text(line, labels.expiration.as_slice()) {
        match read_time_value(line) {
            Ok(field) => {
                fields.expiration_time = field;
            },
            Err(raw) => {
                return Err(raw);
            },
        }
    }
    if contains_text(line, labels.not_before.as_slice()) {
        match read_time_value(line) {
            Ok(field) => {
                fields.not_before = field;
            },
            Err(raw) => {
                return Err(raw);
            },
        }
    }
    if contains_text(line, labels.request_id.as_slice()) {
        fields.request_id = read_colon_value(line);
    }
    if begins_with(line, labels.dash.as_slice()) {
        let value = read_resource(line);
        let ghost before = fields.resources@;
        fields.resources.push(value);
        proof {
            assert(string_views(fields.resources@) =~= string_views(before).push(value@));
        }
    }
    Ok(())
}

/// Reads the message `input`. On `Err` the text of the first timestamp
/// that could not be read is handed back.
pub fn read_message(input: &str) -> (r: Result<MessageFields, String>)
    ensures
        match parse(input@) {
            Ok(fields) => r matches Ok(f) && f@ == fields,
            Err(raw) => r matches Err(text) && text@ == raw,
        },
{
    let chars = chars_of(input);
    let domain = match split_once_at(chars.as_slice(), ' ') {
        Some((left, _)) => Some(string_of(trimmed(left.as_slice()).as_slice())),
        None => None,
    };
    let mut fields = MessageFields {
        domain,
        address: None,
        statement: None,
        uri: None,
        version: None,
        chain_id: None,
        nonce: None,
        issued_at: None,
        expiration_time: None,
        not_before: None,
        request_id: None,
        resources: Vec::new(),
    };
    proof {
        assert(string_views(fields.resources@) =~= Seq::empty());
    }
    let labels = Labels::new();
    let lines = split_on(chars.as_slice(), '\n');
    let n: usize = lines.len();
    let mut index: usize = 0;
    while index < n
        invariant
            labels.wf(),
            n == lines@.len(),
            index <= n,
            views(lines@) == split(input@, '\n'),
            parse(input@) == apply_lines(fields@, views(lines@), index as int),
        decreases n - index,
    {
        match read_line(&mut fields, &labels, index, lines[index].as_slice()) {
            Ok(()) => {},
            Err(raw) => {
                return Err(raw);
            },
        }
        index += 1;
    }
    Ok(fields)
}

/// The text of an optional field, empty where the field is not set.
pub open spec fn text_or_empty(value: Option<Seq<char>>) -> Seq<char> {
    match value {
        Some(text) => text,
        None => Seq::empty(),
    }
}

/// A line that carries a text under a label: `Label: text`.
pub open spec fn text_line(label: Seq<char>, value: Seq<char>) -> Seq<char> {
    label + seq![':', ' '] + value
}

/// A line that carries a timestamp under a label: the label, a colon, and
/// the text of the timestamp as it is kept.
pub open spec fn time_line(label: Seq<char>, value: TimeText) -> Seq<char> {
    label + seq![':'] + value.raw
}

/// The line of an optional text, or no line where the text is not set.
pub open spec fn text_lines(label: Seq<char>, value: Option<Seq<char>>) -> Seq<Seq<char>> {
    match value {
        Some(text) => seq![text_line(label, text)],
        None => Seq::empty(),
    }
}

/// The line of an optional timestamp, or no line where it is not set.
pub open spec fn time_lines(label: Seq<char>, value: Option<TimeText>) -> Seq<Seq<char>> {
    match value {
        Some(time) => seq![time_line(label, time)],
        None => Seq::empty(),
    }
}

/// A line that carries a resource: a dash, a space, the resource.
pub open spec fn resource_line(resource: Seq<char>) -> Seq<char> {
    seq!['-', ' '] + resource
}

/// The lines of the resources: the line `Resources:` and one line for
/// each resource, or no line where there is no resource.
pub open spec fn resource_lines(resources: Seq<Seq<char>>) -> Seq<Seq<char>> {
    if resources.len() == 0 {
        Seq::empty()
    } else {
        seq!["Resources:"@] + resources.map_values(|r: Seq<char>| resource_line(r))
    }
}

/// The five lines that open a message: the line with the domain, the
/// address, an empty line, the statement, an empty line.
pub open spec fn opening_lines(f: Fields) -> Seq<Seq<char>> {
    seq![
        text_or_empty(f.domain) + " wants you to sign in with your Solana account:"@,
        text_or_empty(f.address),
        Seq::empty(),
        text_or_empty(f.statement),
        Seq::empty(),
    ]
}

/// The lines of the message that says what `f` holds.
pub open spec fn message_lines(f: Fields) -> Seq<Seq<char>> {
    opening_lines(f) + text_lines("URI"@, f.uri) + text_lines("Version"@, f.version) + text_lines(
        "Chain ID"@,
        f.chain_id,
    ) + text_lines("Nonce"@, f.nonce) + time_lines("Issued At"@, f.issued_at) + time_lines(
        "Expiration Time"@,
        f.expiration_time,
    ) + time_lines("Not Before"@, f.not_before) + text_lines("Request ID"@, f.request_id)
        + resource_lines(f.resources)
}

/// `lines` joined by line feeds.
pub open spec fn join_lines(lines: Seq<Seq<char>>) -> Seq<char>
    decreases lines.len(),
{
    if lines.len() == 0 {
        Seq::empty()
    } else if lines.len() == 1 {
        lines[0]
    } else {
        join_lines(lines.drop_last()) + seq!['\n'] + lines.last()
    }
}

/// The message that says what `f` holds.
pub open spec fn render(f: Fields) -> Seq<char> {
    join_lines(message_lines(f))
}

/// Appends the characters of `text` to `out`.
fn push_text(out: &mut Vec<char>, text: &str)
    ensures
        final(out)@ == old(out)@ + text@,
{
    let chars = chars_of(text);
    let ghost before = out@;
    let n: usize = chars.len();
    let mut i: usize = 0;
    while i < n
        invariant
            n == chars@.len(),
            i <= n,
            out@ == before + chars@.subrange(0, i as int),
        decreases n - i,
    {
        out.push(chars[i]);
        proof {
            assert(out@ =~= before + chars@.subrange(0, i + 1));
        }
        i += 1;
    }
    proof {
        assert(chars@.subrange(0, n as int) =~= chars@);
    }
}

/// Appends the line of an optional text to `lines`.
pub fn push_text_line(lines: &mut Vec<Vec<char>>, label: &str, value: &Option<String>)
    ensures
        views(final(lines)@) == views(old(lines)@) + text_lines(label@, opt_view(*value)),
{
    let ghost before = views(lines@);
    match value {
        Some(text) => {
            let mut line: Vec<char> = Vec::new();
            push_text(&mut line, label);
            line.push(':');
            line.push(' ');
            push_text(&mut line, text.as_str());
            proof {
                assert(line@ =~= text_line(label@, text@));
            }
            lines.push(line);
            proof {
                assert(views(lines@) =~= before + text_lines(label@, opt_view(*value)));
            }
        },
        None => {
            proof {
                assert(views(lines@) =~= before + text_lines(label@, opt_view(*value)));
            }
        },
    }
}

/// Appends the line of an optional timestamp to `lines`.
fn push_time_line(lines: &mut Vec<Vec<char>>, label: &str, value: &Option<TimeField>)
    ensures
        views(final(lines)@) == views(old(lines)@) + time_lines(label@, opt_time_view(*value)),
{
    let ghost before = views(lines@);
    match value {
        Some(time) => {
            let mut line: Vec<char> = Vec::new();
            push_text(&mut line, label);
            line.push(':');
            push_text(&mut line, time.raw.as_str());
            proof {
                assert(line@ =~= time_line(label@, time@));
            }
            lines.push(line);
            proof {
                assert(views(lines@) =~= before + time_lines(label@, opt_time_view(*value)));
            }
        },
        None => {
            proof {
                assert(views(lines@) =~= before + time_lines(label@, opt_time_view(*value)));
            }
        },
    }
}

/// Appends the lines of the resources to `lines`.
pub fn push_resource_lines(lines: &mut Vec<Vec<char>>, resources: &Vec<String>)
    ensures
        views(final(lines)@) == views(old(lines)@) + resource_lines(string_views(resources@)),
{
    let ghost before = views(lines@);
    let ghost items = string_views(resources@);
    let n: usize = resources.len();
    if n == 0 {
        proof {
            assert(views(lines@) =~= before + resource_lines(items));
        }
        return ;
    }
    lines.push(chars_of("Resources:"));
    let mut i: usize = 0;
    proof {
        assert(views(lines@) =~= before + seq!["Resources:"@] + items.map_values(
            |r: Seq<char>| resource_line(r),
        ).subrange(0, 0));
    }
    while i < n
        invariant
            n == resources@.len(),
            i <= n,
            items == string_views(resources@),
            views(lines@) == before + seq!["Resources:"@] + items.map_values(
                |r: Seq<char>| resource_line(r),
            ).subrange(0, i as int),
        decreases n - i,
    {
        let mut line: Vec<char> = Vec::new();
        line.push('-');
        line.push(' ');
        push_text(&mut line, resources[i].as_str());
        proof {
            assert(line@ =~= resource_line(items[i as int]));
        }
        let ghost so_far = views(lines@);
        lines.push(line);
        proof {
            assert(views(lines@) =~= so_far.push(line@));
            assert(views(lines@) =~= before + seq!["Resources:"@] + items.map_values(
                |r: Seq<char>| resource_line(r),
            ).subrange(0, i + 1));
        }
        i += 1;
    }
    proof {
        let all = items.map_values(|r: Seq<char>| resource_line(r));
        assert(all.subrange(0, n as int) =~= all);
        assert(before + seq!["Resources:"@] + all =~= before + (seq!["Resources:"@] + all));
    }
}

/// Computes `join_lines`.
pub fn join(lines: &Vec<Vec<char>>) -> (text: Vec<char>)
    ensures
        text@ == join_lines(views(lines@)),
{
    let ghost items = views(lines@);
    let n: usize = lines.len();
    let mut text: Vec<char> = Vec::new();
    let mut i: usize = 0;
    proof {
        assert(items.subrange(0, 0) =~= Seq::empty());
    }
    while i < n
        invariant
            n == lines@.len(),
            i <= n,
            items == views(lines@),
            text@ == join_lines(items.subrange(0, i as int)),
        decreases n - i,
    {
        proof {
            let next = items.subrange(0, i + 1);
            assert(next.drop_last() =~= items.subrange(0, i as int));
            assert(next.last() == lines@[i as int]@);
        }
        if i > 0 {
            text.push('\n');
        }
        let line = &lines[i];
        let m: usize = line.len();
        let ghost start = text@;
        let mut k: usize = 0;
        while k < m
            invariant
                m == line@.len(),
                k <= m,
                text@ == start + line@.subrange(0, k as int),
            decreases m - k,
        {
            text.push(line[k]);
            proof {
                assert(text@ =~= start + line@.subrange(0, k + 1));
            }
            k += 1;
        }
        proof {
            assert(line@.subrange(0, m as int) =~= line@);
            if i == 0 {
                assert(text@ =~= line@);
            }
        }
        i += 1;
    }
    proof {
        assert(items.subrange(0, n as int) =~= items);
    }
    text
}

/// The five lines that open a message with the given domain, address
/// and statement.
pub open spec fn opening_of(
    domain: Option<Seq<char>>,
    address: Option<Seq<char>>,
    statement: Option<Seq<char>>,
) -> Seq<Seq<char>> {
    seq![
        text_or_empty(domain) + " wants you to sign in with your Solana account:"@,
        text_or_empty(address),
        Seq::empty(),
        text_or_empty(statement),
        Seq::empty(),
    ]
}

/// Writes the five lines that open a message.
pub fn write_opening(
    domain: &Option<String>,
    address: &Option<String>,
    statement: &Option<String>,
) -> (lines: Vec<Vec<char>>)
    ensures
        views(lines@) == opening_of(opt_view(*domain), opt_view(*address), opt_view(*statement)),
{
    let mut lines: Vec<Vec<char>> = Vec::new();
    let mut header: Vec<char> = Vec::new();
    match domain {
        Some(domain) => {
            push_text(&mut header, domain.as_str());
        },
        None => {},
    }
    push_text(&mut header, " wants you to sign in with your Solana account:");
    let second = match address {
        Some(address) => chars_of(address.as_str()),
        None => Vec::new(),
    };
    let fourth = match statement {
        Some(statement) => chars_of(statement.as_str()),
        None => Vec::new(),
    };
    let ghost opening = opening_of(opt_view(*domain), opt_view(*address), opt_view(*statement));
    proof {
        assert(header@ =~= opening[0]);
        assert(second@ =~= opening[1]);
        assert(fourth@ =~= opening[3]);
    }
    lines.push(header);
    lines.push(second);
    lines.push(Vec::new());
    lines.push(fourth);
    lines.push(Vec::new());
    proof {
        assert(views(lines@) =~= opening);
    }
    lines
}

/// Writes the message that says what `fields` holds.
pub fn write_message(fields: &MessageFields) -> (text: String)
    ensures
        text@ == render(fields@),
{
    let mut lines = write_opening(&fields.domain, &fields.address, &fields.statement);
    proof {
        assert(views(lines@) =~= opening_lines(fields@));
    }
    push_text_line(&mut lines, "URI", &fields.uri);
    push_text_line(&mut lines, "Version", &fields.version);
    push_text_line(&mut lines, "Chain ID", &fields.chain_id);
    push_text_line(&mut lines, "Nonce", &fields.nonce);
    push_time_line(&mut lines, "Issued At", &fields.issued_at);
    push_time_line(&mut lines, "Expiration Time", &fields.expiration_time);
    push_time_line(&mut lines, "Not Before", &fields.not_before);
    push_text_line(&mut lines, "Request ID", &fields.request_id);
    push_resource_lines(&mut lines, &fields.resources);
    string_of(join(&lines).as_slice())
}

} // verus!
