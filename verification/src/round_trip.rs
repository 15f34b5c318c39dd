//! Writing a message and reading it back.
//!
//! The reader goes by position for the first lines and by label for the
//! rest, and a line counts for a label when the label occurs anywhere in
//! it. A message therefore reads back as it was written as long as no
//! value brings a label, a line feed or surrounding whitespace with it.
//! This module states that condition and proves that it is enough.

use crate::message::apply_closing_labels;
use crate::message::apply_line;
use crate::message::apply_lines;
use crate::message::apply_text_labels;
use crate::message::apply_time_labels;
use crate::message::colon_value;
use crate::message::domain_of;
use crate::message::join_lines;
use crate::message::message_lines;
use crate::message::no_fields;
use crate::message::opening_lines;
use crate::message::parse;
use crate::message::render;
use crate::message::resource_line;
use crate::message::resource_lines;
use crate::message::resource_value;
use crate::message::text_line;
use crate::message::text_lines;
use crate::message::text_or_empty;
use crate::message::time_line;
use crate::message::time_lines;
use crate::message::time_value;
use crate::message::Fields;
use crate::message::TimeText;
use crate::text::contains;
use crate::text::first_index;
use crate::text::is_whitespace;
use crate::text::lemma_first_index;
use crate::text::lemma_first_index_unique;
use crate::text::occurs_at;
use crate::text::split;
use crate::text::split_once;
use crate::text::starts_with;
use crate::text::trim;
use crate::text::trim_end;
use crate::text::trim_start;
use crate::time::rfc3339_instant;
use vstd::prelude::*;

verus! {

/// Whether `label` is one of the eight labels that the reader looks for.
pub open spec fn is_label(label: Seq<char>) -> bool {
    label == "URI"@ || label == "Version"@ || label == "Chain ID"@ || label == "Nonce"@ || label
        == "Issued At"@ || label == "Expiration"@ || label == "Not Before"@ || label
        == "Request ID"@
}

/// Whether none of the eight labels occurs in `text`.
pub open spec fn mentions_no_label(text: Seq<char>) -> bool {
    forall|label: Seq<char>| is_label(label) ==> !#[trigger] contains(text, label)
}

/// Whether `text` begins with a dash.
pub open spec fn begins_with_dash(text: Seq<char>) -> bool {
    text.len() > 0 && text[0] == '-'
}

/// Whether a line can carry `text` unharmed: the text holds no line feed
/// and none of the labels, and trimming leaves it as it is.
pub open spec fn plain(text: Seq<char>) -> bool {
    !text.contains('\n') && trim(text) == text && mentions_no_label(text)
}

/// Whether a line can carry the timestamp unharmed: its text holds no
/// line feed and none of the labels, and reads as its instant.
pub open spec fn plain_time(time: TimeText) -> bool {
    !time.raw.contains('\n') && mentions_no_label(time.raw) && rfc3339_instant(trim(time.raw))
        == Some(time.instant)
}

/// Whether an optional text is absent or plain.
pub open spec fn plain_if_set(value: Option<Seq<char>>) -> bool {
    value matches Some(text) ==> plain(text)
}

/// Whether an optional timestamp is absent or plain.
pub open spec fn plain_time_if_set(value: Option<TimeText>) -> bool {
    value matches Some(time) ==> plain_time(time)
}

/// Whether the message that says what `f` holds reads back as `f`: the
/// domain, the address and the statement are set; every value is plain;
/// the domain holds no space; neither the domain nor the address nor the
/// statement begins with a dash; and no resource holds a dash.
pub open spec fn reads_back(f: Fields) -> bool {
    &&& f.domain is Some && plain(f.domain->0) && !f.domain->0.contains(' ') && !begins_with_dash(
        f.domain->0,
    )
    &&& f.address is Some && plain(f.address->0) && !begins_with_dash(f.address->0)
    &&& f.statement is Some && plain(f.statement->0) && !begins_with_dash(f.statement->0)
    &&& plain_if_set(f.uri)
    &&& plain_if_set(f.version)
    &&& plain_if_set(f.chain_id)
    &&& plain_if_set(f.nonce)
    &&& plain_time_if_set(f.issued_at)
    &&& plain_time_if_set(f.expiration_time)
    &&& plain_time_if_set(f.not_before)
    &&& plain_if_set(f.request_id)
    &&& forall|i: int|
        0 <= i < f.resources.len() ==> plain(#[trigger] f.resources[i]) && !f.resources[i].contains(
            '-',
        )
}

/// Whether `c` is the first character of one of the labels.
pub open spec fn is_label_initial(c: char) -> bool {
    c == 'U' || c == 'V' || c == 'C' || c == 'N' || c == 'I' || c == 'E' || c == 'R'
}

/// A label has at least three characters, begins with a capital letter,
/// does not end with a space, and holds neither a colon nor a `w`.
proof fn lemma_label_shape(label: Seq<char>)
    requires
        is_label(label),
    ensures
        label.len() >= 3,
        is_label_initial(label[0]),
        label.last() != ' ',
        !label.contains(':'),
        !label.contains('w'),
{
    reveal_strlit("URI");
    reveal_strlit("Version");
    reveal_strlit("Chain ID");
    reveal_strlit("Nonce");
    reveal_strlit("Issued At");
    reveal_strlit("Expiration");
    reveal_strlit("Not Before");
    reveal_strlit("Request ID");
}

/// Where a pattern occurs, its characters stand one after the other.
proof fn lemma_occurrence(s: Seq<char>, pat: Seq<char>, i: int)
    requires
        occurs_at(s, pat, i),
    ensures
        forall|k: int| 0 <= k < pat.len() ==> s[i + k] == #[trigger] pat[k],
{
    assert forall|k: int| 0 <= k < pat.len() implies s[i + k] == #[trigger] pat[k] by {
        assert(s.subrange(i, i + pat.len())[k] == s[i + k]);
    }
}

/// A pattern whose first character does not occur in `a` occurs in
/// `a + b` exactly where it occurs in `b`.
proof fn lemma_contains_after(a: Seq<char>, b: Seq<char>, pat: Seq<char>)
    requires
        pat.len() > 0,
        !a.contains(pat[0]),
    ensures
        contains(a + b, pat) == contains(b, pat),
{
    let s = a + b;
    if contains(s, pat) {
        let i = choose|i: int| occurs_at(s, pat, i);
        lemma_occurrence(s, pat, i);
        assert(s[i + 0] == pat[0]);
        if i < a.len() {
            assert(a[i] == pat[0]);
        }
        assert(b.subrange(i - a.len(), i - a.len() + pat.len()) =~= s.subrange(i, i + pat.len()));
        assert(occurs_at(b, pat, i - a.len()));
    }
    if contains(b, pat) {
        let i = choose|i: int| occurs_at(b, pat, i);
        assert(s.subrange(i + a.len(), i + a.len() + pat.len()) =~= b.subrange(i, i + pat.len()));
        assert(occurs_at(s, pat, i + a.len()));
    }
}

/// A pattern that does not hold the character `sep` occurs in
/// `a`, `sep`, `b` exactly where it occurs in `a` or in `b`.
proof fn lemma_contains_around(a: Seq<char>, sep: char, b: Seq<char>, pat: Seq<char>)
    requires
        !pat.contains(sep),
    ensures
        contains(a + seq![sep] + b, pat) == (contains(a, pat) || contains(b, pat)),
{
    let s = a + seq![sep] + b;
    if contains(s, pat) {
        let i = choose|i: int| occurs_at(s, pat, i);
        lemma_occurrence(s, pat, i);
        if i + pat.len() <= a.len() {
            assert(a.subrange(i, i + pat.len()) =~= s.subrange(i, i + pat.len()));
            assert(occurs_at(a, pat, i));
        } else if i > a.len() {
            let j = i - a.len() - 1;
            assert(b.subrange(j, j + pat.len()) =~= s.subrange(i, i + pat.len()));
            assert(occurs_at(b, pat, j));
        } else {
            let k = a.len() - i;
            assert(s[i + k] == pat[k]);
            assert(s[a.len() as int] == sep);
            assert(pat.contains(sep));
        }
    }
    if contains(a, pat) {
        let i = choose|i: int| occurs_at(a, pat, i);
        assert(s.subrange(i, i + pat.len()) =~= a.subrange(i, i + pat.len()));
        assert(occurs_at(s, pat, i));
    }
    if contains(b, pat) {
        let i = choose|i: int| occurs_at(b, pat, i);
        let j = i + a.len() + 1;
        assert(s.subrange(j, j + pat.len()) =~= b.subrange(i, i + pat.len()));
        assert(occurs_at(s, pat, j));
    }
}

/// A pattern occurs in `a` followed by `tail` exactly where it occurs in
/// `a`, when its first character does not occur in `tail`, it does not
/// end with the first character of `tail`, and it does not hold the
/// second.
proof fn lemma_contains_before(a: Seq<char>, tail: Seq<char>, pat: Seq<char>)
    requires
        pat.len() > 0,
        tail.len() >= 2,
        !tail.contains(pat[0]),
        pat.last() != tail[0],
        !pat.contains(tail[1]),
    ensures
        contains(a + tail, pat) == contains(a, pat),
{
    let s = a + tail;
    if contains(s, pat) {
        let i = choose|i: int| occurs_at(s, pat, i);
        lemma_occurrence(s, pat, i);
        assert(s[i + 0] == pat[0]);
        if i >= a.len() {
            assert(tail[i - a.len()] == pat[0]);
        } else if i + pat.len() <= a.len() {
            assert(a.subrange(i, i + pat.len()) =~= s.subrange(i, i + pat.len()));
            assert(occurs_at(a, pat, i));
        } else if i + pat.len() == a.len() + 1 {
            let k = pat.len() - 1;
            assert(s[i + k] == pat[k]);
            assert(s[a.len() as int] == tail[0]);
        } else {
            let k = a.len() + 1 - i;
            assert(s[i + k] == pat[k]);
            assert(s[a.len() as int + 1] == tail[1]);
            assert(pat.contains(tail[1]));
        }
    }
    if contains(a, pat) {
        let i = choose|i: int| occurs_at(a, pat, i);
        assert(s.subrange(i, i + pat.len()) =~= a.subrange(i, i + pat.len()));
        assert(occurs_at(s, pat, i));
    }
}

/// No label occurs in a text that holds none of their first characters.
pub proof fn lemma_no_initial_no_label(text: Seq<char>)
    requires
        forall|i: int| 0 <= i < text.len() ==> !is_label_initial(#[trigger] text[i]),
    ensures
        mentions_no_label(text),
{
    assert forall|label: Seq<char>| is_label(label) implies !#[trigger] contains(text, label) by {
        lemma_label_shape(label);
        if contains(text, label) {
            let i = choose|i: int| occurs_at(text, label, i);
            lemma_occurrence(text, label, i);
            assert(text[i + 0] == label[0]);
        }
    }
}

/// Putting a space in front of a text that mentions no label gives a
/// text that mentions none.
pub proof fn lemma_space_mentions_no_label(text: Seq<char>)
    requires
        mentions_no_label(text),
    ensures
        mentions_no_label(seq![' '] + text),
{
    assert forall|label: Seq<char>| is_label(label) implies !#[trigger] contains(
        seq![' '] + text,
        label,
    ) by {
        lemma_label_shape(label);
        lemma_contains_after(seq![' '], text, label);
        assert(!contains(text, label));
    }
}

/// Trimming a plain text with a space in front gives the text.
pub proof fn lemma_trim_after_space(text: Seq<char>)
    requires
        trim(text) == text,
    ensures
        trim(seq![' '] + text) == text,
{
    let spaced = seq![' '] + text;
    assert(spaced.drop_first() =~= text);
    assert(is_whitespace(' '));
    assert(trim_start(spaced) == trim_start(text));
}

/// The label that the reader finds in the line that is written under
/// `display`: the display itself but for `Expiration Time`, of which the
/// reader looks for the first word.
spec fn label_of(display: Seq<char>) -> Seq<char> {
    if display == "Expiration Time"@ {
        "Expiration"@
    } else {
        display
    }
}

/// Whether `display` is one of the eight texts that a line is written under.
spec fn is_display(display: Seq<char>) -> bool {
    display == "URI"@ || display == "Version"@ || display == "Chain ID"@ || display == "Nonce"@
        || display == "Issued At"@ || display == "Expiration Time"@ || display == "Not Before"@
        || display == "Request ID"@
}

/// A display holds no colon, no line feed and no dash and is not empty.
proof fn lemma_display_shape(display: Seq<char>)
    requires
        is_display(display),
    ensures
        display.len() >= 3,
        !display.contains(':'),
        !display.contains('\n'),
        display[0] != '-',
        is_label(label_of(display)),
{
    reveal_strlit("URI");
    reveal_strlit("Version");
    reveal_strlit("Chain ID");
    reveal_strlit("Nonce");
    reveal_strlit("Issued At");
    reveal_strlit("Expiration Time");
    reveal_strlit("Not Before");
    reveal_strlit("Request ID");
}

/// Of the labels, only its own occurs in a display.
proof fn lemma_display_mentions(display: Seq<char>, label: Seq<char>)
    requires
        is_display(display),
        is_label(label),
    ensures
        contains(display, label) == (label == label_of(display)),
{
    reveal_strlit("URI");
    reveal_strlit("Version");
    reveal_strlit("Chain ID");
    reveal_strlit("Nonce");
    reveal_strlit("Issued At");
    reveal_strlit("Expiration");
    reveal_strlit("Expiration Time");
    reveal_strlit("Not Before");
    reveal_strlit("Request ID");
    if label == label_of(display) {
        assert(display.subrange(0, 0 + label.len() as int) =~= label);
        assert(occurs_at(display, label, 0));
    } else {
        if contains(display, label) {
            let i = choose|i: int| occurs_at(display, label, i);
            lemma_occurrence(display, label, i);
            assert(display[i + 0] == label[0]);
            assert(display[i + 1] == label[1]);
            assert(display[i + 2] == label[2]);
            assert(i + label.len() <= display.len());
        }
    }
}

/// What the reader finds in a line that is written under a display:
/// of the labels only the one of the display, no dash in front, and
/// after the first colon what was written after the display.
proof fn lemma_label_line(display: Seq<char>, rest: Seq<char>)
    requires
        is_display(display),
        mentions_no_label(rest),
    ensures
        forall|label: Seq<char>|
            is_label(label) ==> #[trigger] contains(display + seq![':'] + rest, label) == (label
                == label_of(display)),
        !starts_with(display + seq![':'] + rest, "-"@),
        split_once(display + seq![':'] + rest, ':') == Some((display, rest)),
{
    let line = display + seq![':'] + rest;
    lemma_display_shape(display);
    assert forall|label: Seq<char>| is_label(label) implies #[trigger] contains(line, label) == (
    label == label_of(display)) by {
        lemma_label_shape(label);
        lemma_contains_around(display, ':', rest, label);
        lemma_display_mentions(display, label);
        assert(!contains(rest, label));
    }
    reveal_strlit("-");
    if starts_with(line, "-"@) {
        assert(line.subrange(0, 1)[0] == line[0]);
        assert(line[0] == display[0]);
    }
    assert(line[display.len() as int] == ':');
    assert forall|j: int| 0 <= j < display.len() implies line[j] != ':' by {
        assert(line[j] == display[j]);
    }
    lemma_first_index_unique(line, ':', display.len() as int);
    assert(line.subrange(0, display.len() as int) =~= display);
    assert(line.subrange(display.len() as int + 1, line.len() as int) =~= rest);
}

/// A line that mentions no label and has no dash in front changes
/// nothing where it stands at a position without a meaning.
proof fn lemma_quiet_line(g: Fields, index: int, line: Seq<char>)
    requires
        mentions_no_label(line),
        !begins_with_dash(line),
        index != 1,
        index != 3,
    ensures
        apply_line(g, index, line) == Ok::<Fields, Seq<char>>(g),
{
    lemma_mentions(line);
    lemma_dash(line);
}

/// Spells out what it means to mention no label.
proof fn lemma_mentions(line: Seq<char>)
    requires
        mentions_no_label(line),
    ensures
        !contains(line, "URI"@),
        !contains(line, "Version"@),
        !contains(line, "Chain ID"@),
        !contains(line, "Nonce"@),
        !contains(line, "Issued At"@),
        !contains(line, "Expiration"@),
        !contains(line, "Not Before"@),
        !contains(line, "Request ID"@),
{
    assert(is_label("URI"@));
    assert(is_label("Version"@));
    assert(is_label("Chain ID"@));
    assert(is_label("Nonce"@));
    assert(is_label("Issued At"@));
    assert(is_label("Expiration"@));
    assert(is_label("Not Before"@));
    assert(is_label("Request ID"@));
}

/// A line begins with the text `-` exactly where it begins with a dash.
proof fn lemma_dash(line: Seq<char>)
    ensures
        starts_with(line, "-"@) == begins_with_dash(line),
{
    reveal_strlit("-");
    if begins_with_dash(line) {
        assert(line.subrange(0, 1) =~= "-"@);
    }
    if starts_with(line, "-"@) {
        assert(line.subrange(0, 1)[0] == line[0]);
    }
}

/// The line at the second position sets the address.
proof fn lemma_address_line(g: Fields, line: Seq<char>)
    requires
        mentions_no_label(line),
        !begins_with_dash(line),
    ensures
        apply_line(g, 1, line) == Ok::<Fields, Seq<char>>(
            Fields { address: Some(trim(line)), ..g },
        ),
{
    lemma_mentions(line);
    lemma_dash(line);
}

/// The line at the fourth position sets the statement.
proof fn lemma_statement_line(g: Fields, line: Seq<char>)
    requires
        mentions_no_label(line),
        !begins_with_dash(line),
    ensures
        apply_line(g, 3, line) == Ok::<Fields, Seq<char>>(
            Fields { statement: Some(trim(line)), ..g },
        ),
{
    lemma_mentions(line);
    lemma_dash(line);
}

/// What the reader finds in a line that carries a plain text under a
/// display: the facts of `lemma_label_line`, spelled out for each label,
/// and the text as the value after the colon.
proof fn lemma_text_line(display: Seq<char>, value: Seq<char>)
    requires
        is_display(display),
        plain(value),
    ensures
        contains(text_line(display, value), "URI"@) == (display == "URI"@),
        contains(text_line(display, value), "Version"@) == (display == "Version"@),
        contains(text_line(display, value), "Chain ID"@) == (display == "Chain ID"@),
        contains(text_line(display, value), "Nonce"@) == (display == "Nonce"@),
        contains(text_line(display, value), "Issued At"@) == (display == "Issued At"@),
        contains(text_line(display, value), "Expiration"@) == (display == "Expiration Time"@),
        contains(text_line(display, value), "Not Before"@) == (display == "Not Before"@),
        contains(text_line(display, value), "Request ID"@) == (display == "Request ID"@),
        !starts_with(text_line(display, value), "-"@),
        colon_value(text_line(display, value)) == Some(value),
        !text_line(display, value).contains('\n'),
{
    let rest = seq![' '] + value;
    let line = text_line(display, value);
    assert(line =~= display + seq![':'] + rest);
    lemma_space_mentions_no_label(value);
    lemma_label_line(display, rest);
    lemma_trim_after_space(value);
    lemma_display_facts(display);
    assert(is_label("URI"@));
    assert(is_label("Version"@));
    assert(is_label("Chain ID"@));
    assert(is_label("Nonce"@));
    assert(is_label("Issued At"@));
    assert(is_label("Expiration"@));
    assert(is_label("Not Before"@));
    assert(is_label("Request ID"@));
    lemma_display_shape(display);
    if line.contains('\n') {
        let i = choose|i: int| 0 <= i < line.len() && line[i] == '\n';
        if i < display.len() {
            assert(display[i] == '\n');
        } else if i > display.len() + 1 {
            assert(value[i - display.len() - 2] == '\n');
        }
    }
}

/// The displays and the label `Expiration` differ from one another.
proof fn lemma_display_facts(display: Seq<char>)
    requires
        is_display(display),
    ensures
        (label_of(display) == "URI"@) == (display == "URI"@),
        (label_of(display) == "Version"@) == (display == "Version"@),
        (label_of(display) == "Chain ID"@) == (display == "Chain ID"@),
        (label_of(display) == "Nonce"@) == (display == "Nonce"@),
        (label_of(display) == "Issued At"@) == (display == "Issued At"@),
        (label_of(display) == "Expiration"@) == (display == "Expiration Time"@),
        (label_of(display) == "Not Before"@) == (display == "Not Before"@),
        (label_of(display) == "Request ID"@) == (display == "Request ID"@),
{
    lemma_displays_differ();
    reveal_strlit("URI");
    reveal_strlit("Version");
    reveal_strlit("Chain ID");
    reveal_strlit("Nonce");
    reveal_strlit("Issued At");
    reveal_strlit("Expiration");
    reveal_strlit("Not Before");
    reveal_strlit("Request ID");
    assert("URI"@[0] == 'U');
    assert("Version"@[0] == 'V');
    assert("Chain ID"@[0] == 'C');
    assert("Nonce"@[0] == 'N');
    assert("Issued At"@[0] == 'I');
    assert("Expiration"@[0] == 'E');
    assert("Not Before"@[0] == 'N');
    assert("Request ID"@[0] == 'R');
}

/// What the reader finds in a line that carries a plain timestamp under
/// a display.
proof fn lemma_time_line(display: Seq<char>, time: TimeText)
    requires
        is_display(display),
        plain_time(time),
    ensures
        contains(time_line(display, time), "URI"@) == (display == "URI"@),
        contains(time_line(display, time), "Version"@) == (display == "Version"@),
        contains(time_line(display, time), "Chain ID"@) == (display == "Chain ID"@),
        contains(time_line(display, time), "Nonce"@) == (display == "Nonce"@),
        contains(time_line(display, time), "Issued At"@) == (display == "Issued At"@),
        contains(time_line(display, time), "Expiration"@) == (display == "Expiration Time"@),
        contains(time_line(display, time), "Not Before"@) == (display == "Not Before"@),
        contains(time_line(display, time), "Request ID"@) == (display == "Request ID"@),
        !starts_with(time_line(display, time), "-"@),
        time_value(time_line(display, time)) == Ok::<Option<TimeText>, Seq<char>>(Some(time)),
        !time_line(display, time).contains('\n'),
{
    let line = time_line(display, time);
    lemma_label_line(display, time.raw);
    lemma_display_facts(display);
    assert(is_label("URI"@));
    assert(is_label("Version"@));
    assert(is_label("Chain ID"@));
    assert(is_label("Nonce"@));
    assert(is_label("Issued At"@));
    assert(is_label("Expiration"@));
    assert(is_label("Not Before"@));
    assert(is_label("Request ID"@));
    lemma_display_shape(display);
    if line.contains('\n') {
        let i = choose|i: int| 0 <= i < line.len() && line[i] == '\n';
        if i < display.len() {
            assert(display[i] == '\n');
        } else if i > display.len() {
            assert(time.raw[i - display.len() - 1] == '\n');
        }
    }
}

/// A line that carries a plain resource without a dash adds the resource.
proof fn lemma_resource_line(g: Fields, index: int, resource: Seq<char>)
    requires
        plain(resource),
        !resource.contains('-'),
        index != 1,
        index != 3,
    ensures
        apply_line(g, index, resource_line(resource)) == Ok::<Fields, Seq<char>>(
            Fields { resources: g.resources.push(resource), ..g },
        ),
        !resource_line(resource).contains('\n'),
{
    let line = resource_line(resource);
    let rest = seq![' '] + resource;
    assert(line =~= seq!['-'] + rest);
    lemma_space_mentions_no_label(resource);
    assert forall|label: Seq<char>| is_label(label) implies !#[trigger] contains(line, label) by {
        lemma_label_shape(label);
        lemma_contains_after(seq!['-'], rest, label);
        assert(!contains(rest, label));
    }
    lemma_mentions(line);
    lemma_dash(line);
    // the pieces between dashes: nothing, then the rest
    lemma_first_index_unique(line, '-', 0);
    assert(line.subrange(1, line.len() as int) =~= rest);
    assert forall|j: int| 0 <= j < rest.len() implies rest[j] != '-' by {
        if j > 0 {
            assert(rest[j] == resource[j - 1]);
        }
    }
    lemma_first_index_unique(rest, '-', rest.len() as int);
    assert(split(rest, '-') =~= seq![rest]);
    assert(split(line, '-') =~= seq![line.subrange(0, 0)] + split(rest, '-')) by {
        reveal_with_fuel(split, 1);
    }
    assert(split(line, '-')[1] == rest);
    lemma_trim_after_space(resource);
    assert(resource_value(line) == resource);
    if line.contains('\n') {
        let i = choose|i: int| 0 <= i < line.len() && line[i] == '\n';
        if i >= 2 {
            assert(resource[i - 2] == '\n');
        }
    }
}

/// The lines from a position on, read one after the other.
#[verifier::opaque]
spec fn apply_from(g: Fields, lines: Seq<Seq<char>>, index: int) -> Result<Fields, Seq<char>>
    decreases lines.len(),
{
    if lines.len() == 0 {
        Ok(g)
    } else {
        match apply_line(g, index, lines[0]) {
            Ok(h) => apply_from(h, lines.drop_first(), index + 1),
            Err(raw) => Err(raw),
        }
    }
}

/// Reading the lines of a message from a position on is reading the
/// lines that stand from that position on.
proof fn lemma_apply_lines_from(g: Fields, lines: Seq<Seq<char>>, from: int)
    requires
        0 <= from <= lines.len(),
    ensures
        apply_lines(g, lines, from) == apply_from(g, lines.subrange(from, lines.len() as int), from),
    decreases lines.len() - from,
{
    let rest = lines.subrange(from, lines.len() as int);
    reveal(apply_from);
    if from < lines.len() {
        assert(rest[0] == lines[from]);
        assert(rest.drop_first() =~= lines.subrange(from + 1, lines.len() as int));
        match apply_line(g, from, lines[from]) {
            Ok(h) => {
                lemma_apply_lines_from(h, lines, from + 1);
            },
            Err(_) => {},
        }
    }
}

/// Reading two rows of lines one after the other is reading the first
/// and, from what it gives, the second.
proof fn lemma_apply_from_concat(g: Fields, a: Seq<Seq<char>>, b: Seq<Seq<char>>, index: int)
    ensures
        apply_from(g, a + b, index) == match apply_from(g, a, index) {
            Ok(h) => apply_from(h, b, index + a.len()),
            Err(raw) => Err(raw),
        },
    decreases a.len(),
{
    reveal(apply_from);
    if a.len() == 0 {
        assert(a + b =~= b);
    } else {
        assert((a + b)[0] == a[0]);
        assert((a + b).drop_first() =~= a.drop_first() + b);
        match apply_line(g, index, a[0]) {
            Ok(h) => {
                lemma_apply_from_concat(h, a.drop_first(), b, index + 1);
            },
            Err(_) => {},
        }
    }
}

/// Reading a single line.
proof fn lemma_apply_from_one(g: Fields, line: Seq<char>, index: int)
    ensures
        apply_from(g, seq![line], index) == apply_line(g, index, line),
{
    assert(seq![line].drop_first() =~= Seq::<Seq<char>>::empty());
    reveal_with_fuel(apply_from, 2);
}

/// Reading no line.
proof fn lemma_apply_from_none(g: Fields, index: int)
    ensures
        apply_from(g, Seq::empty(), index) == Ok::<Fields, Seq<char>>(g),
{
    reveal(apply_from);
}

/// The fields after the resource lines of `resources` have been read
/// into `g`: the resources join those of `g`.
proof fn lemma_resource_rows(g: Fields, resources: Seq<Seq<char>>, index: int)
    requires
        index >= 4,
        forall|i: int|
            0 <= i < resources.len() ==> plain(#[trigger] resources[i]) && !resources[i].contains(
                '-',
            ),
    ensures
        apply_from(g, resources.map_values(|r: Seq<char>| resource_line(r)), index) == Ok::<
            Fields,
            Seq<char>,
        >(Fields { resources: g.resources + resources, ..g }),
    decreases resources.len(),
{
    let rows = resources.map_values(|r: Seq<char>| resource_line(r));
    if resources.len() == 0 {
        assert(g.resources + resources =~= g.resources);
        assert(rows =~= Seq::<Seq<char>>::empty());
        lemma_apply_from_none(g, index);
    } else {
        let first = resources[0];
        let rest = resources.drop_first();
        assert(rows[0] == resource_line(first));
        assert(rows.drop_first() =~= rest.map_values(|r: Seq<char>| resource_line(r)));
        assert(rows =~= seq![resource_line(first)] + rows.drop_first());
        lemma_apply_from_concat(g, seq![resource_line(first)], rows.drop_first(), index);
        lemma_apply_from_one(g, resource_line(first), index);
        lemma_resource_line(g, index, first);
        let h = Fields { resources: g.resources.push(first), ..g };
        assert forall|i: int| 0 <= i < rest.len() implies plain(#[trigger] rest[i])
            && !rest[i].contains('-') by {
            assert(rest[i] == resources[i + 1]);
        }
        lemma_resource_rows(h, rest, index + 1);
        assert(h.resources + rest =~= g.resources + resources);
    }
}

/// The fields after the block of resources has been read into `g`.
proof fn lemma_resource_block(g: Fields, resources: Seq<Seq<char>>, index: int)
    requires
        index >= 4,
        forall|i: int|
            0 <= i < resources.len() ==> plain(#[trigger] resources[i]) && !resources[i].contains(
                '-',
            ),
    ensures
        apply_from(g, resource_lines(resources), index) == Ok::<Fields, Seq<char>>(
            Fields { resources: g.resources + resources, ..g },
        ),
{
    if resources.len() == 0 {
        assert(g.resources + resources =~= g.resources);
        lemma_apply_from_none(g, index);
    } else {
        let title = "Resources:"@;
        reveal_strlit("Resources:");
        assert forall|i: int| 0 <= i < title.len() implies !is_label_initial(
            #[trigger] title[i],
        ) || i == 0 by {}
        assert forall|label: Seq<char>| is_label(label) implies !#[trigger] contains(
            title,
            label,
        ) by {
            lemma_label_shape(label);
            if contains(title, label) {
                let i = choose|i: int| occurs_at(title, label, i);
                lemma_occurrence(title, label, i);
                assert(title[i + 0] == label[0]);
                assert(title[i + 2] == label[2]);
                reveal_strlit("URI");
                reveal_strlit("Version");
                reveal_strlit("Chain ID");
                reveal_strlit("Nonce");
                reveal_strlit("Issued At");
                reveal_strlit("Expiration");
                reveal_strlit("Not Before");
                reveal_strlit("Request ID");
            }
        }
        lemma_quiet_line(g, index, title);
        let rows = resources.map_values(|r: Seq<char>| resource_line(r));
        lemma_apply_from_concat(g, seq![title], rows, index);
        lemma_apply_from_one(g, title, index);
        lemma_resource_rows(g, resources, index + 1);
    }
}

/// Reading the line of an optional text under `display` into `g` gives
/// what reading the one line gives, or `g` where there is no line.
proof fn lemma_text_rows(g: Fields, display: Seq<char>, value: Option<Seq<char>>, index: int)
    ensures
        apply_from(g, text_lines(display, value), index) == match value {
            Some(text) => apply_line(g, index, text_line(display, text)),
            None => Ok(g),
        },
{
    match value {
        Some(text) => {
            lemma_apply_from_one(g, text_line(display, text), index);
        },
        None => {
            lemma_apply_from_none(g, index);
        },
    }
}

/// Reading the line of an optional timestamp under `display` into `g`.
proof fn lemma_time_rows(g: Fields, display: Seq<char>, value: Option<TimeText>, index: int)
    ensures
        apply_from(g, time_lines(display, value), index) == match value {
            Some(time) => apply_line(g, index, time_line(display, time)),
            None => Ok(g),
        },
{
    match value {
        Some(time) => {
            lemma_apply_from_one(g, time_line(display, time), index);
        },
        None => {
            lemma_apply_from_none(g, index);
        },
    }
}

/// A row of lines without line feeds, joined and split again, is the row.
proof fn lemma_split_join(lines: Seq<Seq<char>>)
    requires
        lines.len() >= 1,
        forall|i: int| 0 <= i < lines.len() ==> !(#[trigger] lines[i]).contains('\n'),
    ensures
        split(join_lines(lines), '\n') == lines,
    decreases lines.len(),
{
    let first = lines[0];
    if lines.len() == 1 {
        lemma_first_index_unique(first, '\n', first.len() as int);
        assert(split(first, '\n') =~= seq![first]);
    } else {
        let rest = lines.drop_first();
        lemma_join_front(lines);
        let text = join_lines(lines);
        assert(text == first + seq!['\n'] + join_lines(rest));
        assert(text[first.len() as int] == '\n');
        assert forall|j: int| 0 <= j < first.len() implies text[j] != '\n' by {
            assert(text[j] == first[j]);
        }
        lemma_first_index_unique(text, '\n', first.len() as int);
        assert(text.subrange(0, first.len() as int) =~= first);
        assert(text.subrange(first.len() as int + 1, text.len() as int) =~= join_lines(rest));
        assert forall|i: int| 0 <= i < rest.len() implies !(#[trigger] rest[i]).contains('\n') by {
            assert(rest[i] == lines[i + 1]);
        }
        lemma_split_join(rest);
        assert(split(text, '\n') =~= seq![first] + rest);
        assert(seq![first] + rest =~= lines);
    }
}

/// A joined row of two or more lines is its first line, a line feed, and
/// the rest of the row joined.
proof fn lemma_join_front(lines: Seq<Seq<char>>)
    requires
        lines.len() >= 2,
    ensures
        join_lines(lines) == lines[0] + seq!['\n'] + join_lines(lines.drop_first()),
    decreases lines.len(),
{
    let rest = lines.drop_first();
    if lines.len() == 2 {
        assert(lines.drop_last() =~= seq![lines[0]]);
        assert(rest =~= seq![lines[1]]);
        assert(join_lines(lines.drop_last()) == lines[0]);
    } else {
        lemma_join_front(lines.drop_last());
        assert(lines.drop_last().drop_first() =~= rest.drop_last());
        assert(rest.last() == lines.last());
        assert(lines.drop_last()[0] == lines[0]);
        assert(join_lines(lines) =~= lines[0] + seq!['\n'] + (join_lines(rest.drop_last()) + seq![
            '\n',
        ] + rest.last()));
    }
}

/// The text that opens a message after the domain.
spec fn invitation() -> Seq<char> {
    " wants you to sign in with your Solana account:"@
}

/// The invitation begins with a space and a `w`, holds no line feed and
/// none of the first characters of the labels.
proof fn lemma_invitation_shape()
    ensures
        invitation().len() >= 2,
        invitation()[0] == ' ',
        invitation()[1] == 'w',
        !invitation().contains('\n'),
        forall|i: int| 0 <= i < invitation().len() ==> !is_label_initial(#[trigger] invitation()[i]),
{
    reveal_strlit(" wants you to sign in with your Solana account:");
}

/// The line that opens a message mentions no label, has no dash in front
/// and holds no line feed, when the domain is plain and has no dash in
/// front.
proof fn lemma_opening_line(domain: Seq<char>)
    requires
        plain(domain),
        !begins_with_dash(domain),
    ensures
        mentions_no_label(domain + invitation()),
        !begins_with_dash(domain + invitation()),
        !(domain + invitation()).contains('\n'),
{
    let line = domain + invitation();
    lemma_invitation_shape();
    assert forall|label: Seq<char>| is_label(label) implies !#[trigger] contains(line, label) by {
        lemma_label_shape(label);
        if invitation().contains(label[0]) {
            let i = choose|i: int| 0 <= i < invitation().len() && invitation()[i] == label[0];
            assert(is_label_initial(invitation()[i]));
        }
        lemma_contains_before(domain, invitation(), label);
        assert(!contains(domain, label));
    }
    if domain.len() > 0 {
        assert(line[0] == domain[0]);
    } else {
        assert(line[0] == invitation()[0]);
    }
    if line.contains('\n') {
        let i = choose|i: int| 0 <= i < line.len() && line[i] == '\n';
        if i < domain.len() {
            assert(domain[i] == '\n');
        } else {
            assert(invitation()[i - domain.len()] == '\n');
        }
    }
}

/// The domain of a message is what stands before the invitation, when
/// that holds no space and trimming leaves it as it is.
proof fn lemma_domain_of(domain: Seq<char>, rest: Seq<char>)
    requires
        !domain.contains(' '),
        trim(domain) == domain,
    ensures
        domain_of(domain + invitation() + rest) == Some(domain),
{
    let text = domain + invitation() + rest;
    lemma_invitation_shape();
    assert(text[domain.len() as int] == ' ');
    assert forall|j: int| 0 <= j < domain.len() implies text[j] != ' ' by {
        assert(text[j] == domain[j]);
    }
    lemma_first_index_unique(text, ' ', domain.len() as int);
    assert(text.subrange(0, domain.len() as int) =~= domain);
}

/// What the five opening lines give: the address and the statement.
proof fn lemma_opening_rows(f: Fields, g: Fields)
    requires
        reads_back(f),
    ensures
        apply_from(g, opening_lines(f), 0) == Ok::<Fields, Seq<char>>(
            Fields { address: f.address, statement: f.statement, ..g },
        ),
{
    let domain = f.domain->0;
    let address = f.address->0;
    let statement = f.statement->0;
    let empty = Seq::<char>::empty();
    let opening = opening_lines(f);
    lemma_opening_line(domain);
    assert(opening[0] == domain + invitation());
    lemma_no_initial_no_label(empty);
    let h1 = Fields { address: Some(address), ..g };
    let h2 = Fields { statement: Some(statement), ..h1 };
    lemma_quiet_line(g, 0, opening[0]);
    lemma_address_line(g, address);
    lemma_quiet_line(h1, 2, empty);
    lemma_statement_line(h1, statement);
    lemma_quiet_line(h2, 4, empty);
    let a = seq![opening[0]];
    let b = seq![address];
    let c = seq![empty];
    let d = seq![statement];
    lemma_apply_from_one(g, opening[0], 0);
    lemma_apply_from_one(g, address, 1);
    lemma_apply_from_one(h1, empty, 2);
    lemma_apply_from_one(h1, statement, 3);
    lemma_apply_from_one(h2, empty, 4);
    lemma_apply_from_concat(h1, d, c, 3);
    lemma_apply_from_concat(h1, c, d + c, 2);
    lemma_apply_from_concat(g, b, c + (d + c), 1);
    lemma_apply_from_concat(g, a, b + (c + (d + c)), 0);
    assert(opening =~= a + (b + (c + (d + c))));
}

/// What the line of an optional text under a display gives, spelled out
/// by the effect that each label has.
proof fn lemma_text_row(g: Fields, display: Seq<char>, value: Option<Seq<char>>, index: int)
    requires
        is_display(display),
        display != "Issued At"@,
        display != "Expiration Time"@,
        display != "Not Before"@,
        plain_if_set(value),
        index >= 4,
    ensures
        apply_from(g, text_lines(display, value), index) == Ok::<Fields, Seq<char>>(
            match value {
                Some(text) => Fields {
                    uri: if display == "URI"@ {
                        Some(text)
                    } else {
                        g.uri
                    },
                    version: if display == "Version"@ {
                        Some(text)
                    } else {
                        g.version
                    },
                    chain_id: if display == "Chain ID"@ {
                        Some(text)
                    } else {
                        g.chain_id
                    },
                    nonce: if display == "Nonce"@ {
                        Some(text)
                    } else {
                        g.nonce
                    },
                    request_id: if display == "Request ID"@ {
                        Some(text)
                    } else {
                        g.request_id
                    },
                    ..g
                },
                None => g,
            },
        ),
{
    lemma_text_rows(g, display, value, index);
    if value is Some {
        lemma_text_line(display, value->0);
    }
}

/// What the line of an optional timestamp under a display gives.
proof fn lemma_time_row(g: Fields, display: Seq<char>, value: Option<TimeText>, index: int)
    requires
        display == "Issued At"@ || display == "Expiration Time"@ || display == "Not Before"@,
        plain_time_if_set(value),
        index >= 4,
    ensures
        apply_from(g, time_lines(display, value), index) == Ok::<Fields, Seq<char>>(
            match value {
                Some(time) => Fields {
                    issued_at: if display == "Issued At"@ {
                        Some(time)
                    } else {
                        g.issued_at
                    },
                    expiration_time: if display == "Expiration Time"@ {
                        Some(time)
                    } else {
                        g.expiration_time
                    },
                    not_before: if display == "Not Before"@ {
                        Some(time)
                    } else {
                        g.not_before
                    },
                    ..g
                },
                None => g,
            },
        ),
{
    lemma_time_rows(g, display, value, index);
    lemma_displays_differ();
    if value is Some {
        lemma_time_line(display, value->0);
    }
}

/// What has been read after one more row, given what had been read
/// before it.
proof fn lemma_next_row(
    g: Fields,
    done: Seq<Seq<char>>,
    row: Seq<Seq<char>>,
    before: Fields,
    after: Fields,
)
    requires
        apply_from(g, done, 0) == Ok::<Fields, Seq<char>>(before),
        apply_from(before, row, done.len() as int) == Ok::<Fields, Seq<char>>(after),
    ensures
        apply_from(g, done + row, 0) == Ok::<Fields, Seq<char>>(after),
{
    lemma_apply_from_concat(g, done, row, 0);
}

/// The lines of a message up to the last text before the timestamps.
spec fn lines_before_times(f: Fields) -> Seq<Seq<char>> {
    opening_lines(f) + text_lines("URI"@, f.uri) + text_lines("Version"@, f.version) + text_lines(
        "Chain ID"@,
        f.chain_id,
    ) + text_lines("Nonce"@, f.nonce)
}

/// The lines of a message up to the last timestamp.
spec fn lines_before_closing(f: Fields) -> Seq<Seq<char>> {
    lines_before_times(f) + time_lines("Issued At"@, f.issued_at) + time_lines(
        "Expiration Time"@,
        f.expiration_time,
    ) + time_lines("Not Before"@, f.not_before)
}

/// The fields of `f` that stand before the timestamps, and its domain.
spec fn fields_before_times(f: Fields) -> Fields {
    Fields {
        domain: f.domain,
        address: f.address,
        statement: f.statement,
        uri: f.uri,
        version: f.version,
        chain_id: f.chain_id,
        nonce: f.nonce,
        ..no_fields()
    }
}

/// The fields of `f` up to the timestamps, and its domain.
spec fn fields_before_closing(f: Fields) -> Fields {
    Fields {
        issued_at: f.issued_at,
        expiration_time: f.expiration_time,
        not_before: f.not_before,
        ..fields_before_times(f)
    }
}

/// Reading the lines up to the last text before the timestamps.
proof fn lemma_read_before_times(f: Fields)
    requires
        reads_back(f),
    ensures
        apply_from(Fields { domain: f.domain, ..no_fields() }, lines_before_times(f), 0) == Ok::<
            Fields,
            Seq<char>,
        >(fields_before_times(f)),
        lines_before_times(f).len() >= 5,
{
    let opening = opening_lines(f);
    let r1 = text_lines("URI"@, f.uri);
    let r2 = text_lines("Version"@, f.version);
    let r3 = text_lines("Chain ID"@, f.chain_id);
    let r4 = text_lines("Nonce"@, f.nonce);
    let g0 = Fields { domain: f.domain, ..no_fields() };
    let g1 = Fields { address: f.address, statement: f.statement, ..g0 };
    let g2 = Fields { uri: f.uri, ..g1 };
    let g3 = Fields { version: f.version, ..g2 };
    let g4 = Fields { chain_id: f.chain_id, ..g3 };
    let g5 = Fields { nonce: f.nonce, ..g4 };
    lemma_displays_differ();
    lemma_opening_rows(f, g0);
    assert(opening.len() == 5);
    lemma_text_row(g1, "URI"@, f.uri, opening.len() as int);
    lemma_next_row(g0, opening, r1, g1, g2);
    lemma_text_row(g2, "Version"@, f.version, (opening + r1).len() as int);
    lemma_next_row(g0, opening + r1, r2, g2, g3);
    lemma_text_row(g3, "Chain ID"@, f.chain_id, (opening + r1 + r2).len() as int);
    lemma_next_row(g0, opening + r1 + r2, r3, g3, g4);
    lemma_text_row(g4, "Nonce"@, f.nonce, (opening + r1 + r2 + r3).len() as int);
    lemma_next_row(g0, opening + r1 + r2 + r3, r4, g4, g5);
    assert(g5 == fields_before_times(f));
}

/// Reading the lines up to the last timestamp.
proof fn lemma_read_before_closing(f: Fields)
    requires
        reads_back(f),
    ensures
        apply_from(Fields { domain: f.domain, ..no_fields() }, lines_before_closing(f), 0) == Ok::<
            Fields,
            Seq<char>,
        >(fields_before_closing(f)),
        lines_before_closing(f).len() >= 5,
{
    let done = lines_before_times(f);
    let r5 = time_lines("Issued At"@, f.issued_at);
    let r6 = time_lines("Expiration Time"@, f.expiration_time);
    let r7 = time_lines("Not Before"@, f.not_before);
    let g0 = Fields { domain: f.domain, ..no_fields() };
    let g5 = fields_before_times(f);
    let g6 = Fields { issued_at: f.issued_at, ..g5 };
    let g7 = Fields { expiration_time: f.expiration_time, ..g6 };
    let g8 = Fields { not_before: f.not_before, ..g7 };
    lemma_read_before_times(f);
    lemma_displays_differ();
    lemma_time_row(g5, "Issued At"@, f.issued_at, done.len() as int);
    lemma_next_row(g0, done, r5, g5, g6);
    lemma_time_row(g6, "Expiration Time"@, f.expiration_time, (done + r5).len() as int);
    lemma_next_row(g0, done + r5, r6, g6, g7);
    lemma_time_row(g7, "Not Before"@, f.not_before, (done + r5 + r6).len() as int);
    lemma_next_row(g0, done + r5 + r6, r7, g7, g8);
    assert(g8 == fields_before_closing(f));
}

/// Reading the lines of a message that reads back gives its fields.
proof fn lemma_lines_read_back(f: Fields)
    requires
        reads_back(f),
    ensures
        apply_from(Fields { domain: f.domain, ..no_fields() }, message_lines(f), 0) == Ok::<
            Fields,
            Seq<char>,
        >(f),
{
    let done = lines_before_closing(f);
    let r8 = text_lines("Request ID"@, f.request_id);
    let r9 = resource_lines(f.resources);
    let g0 = Fields { domain: f.domain, ..no_fields() };
    let g8 = fields_before_closing(f);
    let g9 = Fields { request_id: f.request_id, ..g8 };
    lemma_read_before_closing(f);
    lemma_displays_differ();
    lemma_text_row(g8, "Request ID"@, f.request_id, done.len() as int);
    lemma_next_row(g0, done, r8, g8, g9);
    lemma_resource_block(g9, f.resources, (done + r8).len() as int);
    assert(g9.resources + f.resources =~= f.resources);
    assert(Fields { resources: g9.resources + f.resources, ..g9 } == f);
    lemma_next_row(g0, done + r8, r9, g9, f);
    assert(message_lines(f) == done + r8 + r9);
}

/// A message that is written from fields that read back reads back as
/// those fields.
pub proof fn law_message_round_trip(f: Fields)
    requires
        reads_back(f),
    ensures
        parse(render(f)) == Ok::<Fields, Seq<char>>(f),
{
    let domain = f.domain->0;
    let lines = message_lines(f);
    let text = render(f);
    let g0 = Fields { domain: f.domain, ..no_fields() };
    lemma_lines_read_back(f);
    lemma_lines_hold_no_line_feed(f);
    assert(lines.len() >= 5) by {
        assert(opening_lines(f).len() == 5);
    }
    lemma_split_join(lines);
    assert(lines.subrange(0, lines.len() as int) =~= lines);
    lemma_apply_lines_from(g0, lines, 0);
    lemma_join_front(lines);
    assert(lines[0] == domain + invitation()) by {
        assert(opening_lines(f)[0] == domain + invitation());
    }
    assert(text =~= domain + invitation() + (seq!['\n'] + join_lines(lines.drop_first())));
    lemma_domain_of(domain, seq!['\n'] + join_lines(lines.drop_first()));
}

/// The displays differ from one another.
proof fn lemma_displays_differ()
    ensures
        "URI"@ != "Version"@,
        "URI"@ != "Chain ID"@,
        "URI"@ != "Nonce"@,
        "URI"@ != "Issued At"@,
        "URI"@ != "Expiration Time"@,
        "URI"@ != "Not Before"@,
        "URI"@ != "Request ID"@,
        "Version"@ != "Chain ID"@,
        "Version"@ != "Nonce"@,
        "Version"@ != "Issued At"@,
        "Version"@ != "Expiration Time"@,
        "Version"@ != "Not Before"@,
        "Version"@ != "Request ID"@,
        "Chain ID"@ != "Nonce"@,
        "Chain ID"@ != "Issued At"@,
        "Chain ID"@ != "Expiration Time"@,
        "Chain ID"@ != "Not Before"@,
        "Chain ID"@ != "Request ID"@,
        "Nonce"@ != "Issued At"@,
        "Nonce"@ != "Expiration Time"@,
        "Nonce"@ != "Not Before"@,
        "Nonce"@ != "Request ID"@,
        "Issued At"@ != "Expiration Time"@,
        "Issued At"@ != "Not Before"@,
        "Issued At"@ != "Request ID"@,
        "Expiration Time"@ != "Not Before"@,
        "Expiration Time"@ != "Request ID"@,
        "Not Before"@ != "Request ID"@,
{
    reveal_strlit("URI");
    reveal_strlit("Version");
    reveal_strlit("Chain ID");
    reveal_strlit("Nonce");
    reveal_strlit("Issued At");
    reveal_strlit("Expiration Time");
    reveal_strlit("Not Before");
    reveal_strlit("Request ID");
    assert("URI"@[0] == 'U');
    assert("Version"@[0] == 'V');
    assert("Chain ID"@[0] == 'C');
    assert("Nonce"@[2] == 'n');
    assert("Issued At"@[0] == 'I');
    assert("Expiration Time"@[0] == 'E');
    assert("Not Before"@[2] == 't');
    assert("Request ID"@[0] == 'R');
    assert("Nonce"@[0] == 'N');
    assert("Not Before"@[0] == 'N');
}

/// Whether no line of a row holds a line feed.
spec fn no_line_feeds(lines: Seq<Seq<char>>) -> bool {
    forall|i: int| 0 <= i < lines.len() ==> !(#[trigger] lines[i]).contains('\n')
}

/// Two rows without line feeds make a row without line feeds.
proof fn lemma_no_line_feeds_concat(a: Seq<Seq<char>>, b: Seq<Seq<char>>)
    requires
        no_line_feeds(a),
        no_line_feeds(b),
    ensures
        no_line_feeds(a + b),
{
    assert forall|i: int| 0 <= i < (a + b).len() implies !(#[trigger] (a + b)[i]).contains(
        '\n',
    ) by {
        if i < a.len() {
            assert((a + b)[i] == a[i]);
        } else {
            assert((a + b)[i] == b[i - a.len()]);
        }
    }
}

/// The line of a plain text holds no line feed.
proof fn lemma_text_rows_hold_no_line_feed(display: Seq<char>, value: Option<Seq<char>>)
    requires
        is_display(display),
        plain_if_set(value),
    ensures
        no_line_feeds(text_lines(display, value)),
{
    if value is Some {
        lemma_text_line(display, value->0);
    }
}

/// The line of a plain timestamp holds no line feed.
proof fn lemma_time_rows_hold_no_line_feed(display: Seq<char>, value: Option<TimeText>)
    requires
        is_display(display),
        plain_time_if_set(value),
    ensures
        no_line_feeds(time_lines(display, value)),
{
    if value is Some {
        lemma_time_line(display, value->0);
    }
}

/// The lines of plain resources hold no line feed.
proof fn lemma_resource_rows_hold_no_line_feed(resources: Seq<Seq<char>>)
    requires
        forall|i: int|
            0 <= i < resources.len() ==> plain(#[trigger] resources[i]) && !resources[i].contains(
                '-',
            ),
    ensures
        no_line_feeds(resource_lines(resources)),
{
    let rows = resource_lines(resources);
    reveal_strlit("Resources:");
    assert forall|k: int| 0 <= k < rows.len() implies !(#[trigger] rows[k]).contains('\n') by {
        if k > 0 {
            assert(rows[k] == resource_line(resources[k - 1]));
            lemma_resource_line(no_fields(), 5, resources[k - 1]);
        }
    }
}

/// No line of a message that reads back holds a line feed.
proof fn lemma_lines_hold_no_line_feed(f: Fields)
    requires
        reads_back(f),
    ensures
        no_line_feeds(message_lines(f)),
{
    let opening = opening_lines(f);
    lemma_opening_line(f.domain->0);
    assert(opening[0] == f.domain->0 + invitation());
    assert(no_line_feeds(opening));
    assert(is_display("URI"@) && is_display("Version"@) && is_display("Chain ID"@) && is_display(
        "Nonce"@,
    ) && is_display("Issued At"@) && is_display("Expiration Time"@) && is_display("Not Before"@)
        && is_display("Request ID"@));
    let r1 = text_lines("URI"@, f.uri);
    let r2 = text_lines("Version"@, f.version);
    let r3 = text_lines("Chain ID"@, f.chain_id);
    let r4 = text_lines("Nonce"@, f.nonce);
    let r5 = time_lines("Issued At"@, f.issued_at);
    let r6 = time_lines("Expiration Time"@, f.expiration_time);
    let r7 = time_lines("Not Before"@, f.not_before);
    let r8 = text_lines("Request ID"@, f.request_id);
    let r9 = resource_lines(f.resources);
    lemma_text_rows_hold_no_line_feed("URI"@, f.uri);
    lemma_text_rows_hold_no_line_feed("Version"@, f.version);
    lemma_text_rows_hold_no_line_feed("Chain ID"@, f.chain_id);
    lemma_text_rows_hold_no_line_feed("Nonce"@, f.nonce);
    lemma_time_rows_hold_no_line_feed("Issued At"@, f.issued_at);
    lemma_time_rows_hold_no_line_feed("Expiration Time"@, f.expiration_time);
    lemma_time_rows_hold_no_line_feed("Not Before"@, f.not_before);
    lemma_text_rows_hold_no_line_feed("Request ID"@, f.request_id);
    lemma_resource_rows_hold_no_line_feed(f.resources);
    lemma_no_line_feeds_concat(opening, r1);
    lemma_no_line_feeds_concat(opening + r1, r2);
    lemma_no_line_feeds_concat(opening + r1 + r2, r3);
    lemma_no_line_feeds_concat(opening + r1 + r2 + r3, r4);
    lemma_no_line_feeds_concat(opening + r1 + r2 + r3 + r4, r5);
    lemma_no_line_feeds_concat(opening + r1 + r2 + r3 + r4 + r5, r6);
    lemma_no_line_feeds_concat(opening + r1 + r2 + r3 + r4 + r5 + r6, r7);
    lemma_no_line_feeds_concat(opening + r1 + r2 + r3 + r4 + r5 + r6 + r7, r8);
    lemma_no_line_feeds_concat(opening + r1 + r2 + r3 + r4 + r5 + r6 + r7 + r8, r9);
}

} // verus!
