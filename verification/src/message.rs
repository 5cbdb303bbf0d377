//! The message in the answer to a warm-up request, read from JSON or from server-sent events.

use crate::json::{item_trees, member_trees, parse_json, parsed_json, Json, JsonTree};
use crate::text::{
    blank, can_truncate, can_truncate_text, chars_of, is_blank, same_text, trim_range, trimmed,
    trimmed_front, trimming_cuts_white_space_off_the_ends, truncate_text, truncated, white_space,
};
use vstd::prelude::*;
use vstd::string::*;

verus! {

/// An optional string taken as characters.
pub open spec fn opt_text(s: Option<String>) -> Option<Seq<char>> {
    match s {
        Some(s) => Some(s@),
        None => None,
    }
}

/// The member names under which an answer carries text.
pub open spec fn is_text_name(name: Seq<char>) -> bool {
    name == "text"@ || name == "delta"@ || name == "output_text"@
}

/// The text that a member carries itself: a string, not empty, under one of the names for text.
pub open spec fn own_text(member: (Seq<char>, JsonTree)) -> Seq<Seq<char>> {
    match member.1 {
        JsonTree::Text(s) => if is_text_name(member.0) && s.len() > 0 {
            seq![s]
        } else {
            Seq::empty()
        },
        _ => Seq::empty(),
    }
}

/// All texts of a document in the order in which they are met: a member's own text first, then
/// those below it.
pub open spec fn texts(tree: JsonTree) -> Seq<Seq<char>>
    decreases tree,
{
    match tree {
        JsonTree::Object(members) => texts_of_members(members),
        JsonTree::Array(items) => texts_of_items(items),
        _ => Seq::empty(),
    }
}

/// The texts of an object's members, in order.
pub open spec fn texts_of_members(members: Seq<(Seq<char>, JsonTree)>) -> Seq<Seq<char>>
    decreases members,
{
    if members.len() == 0 {
        Seq::empty()
    } else {
        texts_of_members(members.drop_last()) + own_text(members.last()) + texts(members.last().1)
    }
}

/// The texts of an array's items, in order.
pub open spec fn texts_of_items(items: Seq<JsonTree>) -> Seq<Seq<char>>
    decreases items,
{
    if items.len() == 0 {
        Seq::empty()
    } else {
        texts_of_items(items.drop_last()) + texts(items.last())
    }
}

/// The last of `found`, or `before` where nothing was found.
pub open spec fn last_or(found: Seq<Seq<char>>, before: Option<Seq<char>>) -> Option<Seq<char>> {
    if found.len() > 0 {
        Some(found.last())
    } else {
        before
    }
}

fn is_text_member(name: &String) -> (r: bool)
    ensures
        r == is_text_name(name@),
{
    same_text(name, "text") || same_text(name, "delta") || same_text(name, "output_text")
}

/// Leaves in `last` the last text of the document; without one, `last` stays as it was.
pub fn collect_last_text(value: &Json, last: &mut Option<String>)
    ensures
        opt_text(*final(last)) == last_or(texts(value.tree()), opt_text(*old(last))),
    decreases value,
{
    match value {
        Json::Object(members) => {
            let ghost trees = member_trees(members@);
            let ghost before = opt_text(*last);
            let mut i: usize = 0;
            assert(trees.take(0) =~= Seq::empty());
            while i < members.len()
                invariant
                    i <= members.len(),
                    trees == member_trees(members@),
                    value == Json::Object(*members),
                    opt_text(*last) == last_or(texts_of_members(trees.take(i as int)), before),
                decreases members.len() - i,
            {
                let ghost upto = trees.take(i + 1);
                assert(upto.drop_last() =~= trees.take(i as int));
                assert(upto.last() == (members@[i as int].0@, members@[i as int].1.tree()));
                if is_text_member(&members[i].0) {
                    if let Json::Text(s) = &members[i].1 {
                        if !s.as_str().is_empty() {
                            *last = Some(s.clone());
                        }
                    }
                }
                assert(decreases_to!(value => members@[i as int].1)) by {
                    assert(decreases_to!(value => value->Object_0));
                    assert(decreases_to!(members => members@));
                    assert(decreases_to!(members@ => members@[i as int]));
                    assert(decreases_to!(members@[i as int] => members@[i as int].1));
                }
                collect_last_text(&members[i].1, last);
                i += 1;
            }
            assert(trees.take(members.len() as int) =~= trees);
        },
        Json::Array(items) => {
            let ghost trees = item_trees(items@);
            let ghost before = opt_text(*last);
            let mut i: usize = 0;
            assert(trees.take(0) =~= Seq::empty());
            while i < items.len()
                invariant
                    i <= items.len(),
                    trees == item_trees(items@),
                    value == Json::Array(*items),
                    opt_text(*last) == last_or(texts_of_items(trees.take(i as int)), before),
                decreases items.len() - i,
            {
                let ghost upto = trees.take(i + 1);
                assert(upto.drop_last() =~= trees.take(i as int));
                assert(upto.last() == items@[i as int].tree());
                assert(decreases_to!(value => items@[i as int])) by {
                    assert(decreases_to!(value => value->Array_0));
                    assert(decreases_to!(items => items@));
                    assert(decreases_to!(items@ => items@[i as int]));
                }
                collect_last_text(&items[i], last);
                i += 1;
            }
            assert(trees.take(items.len() as int) =~= trees);
        },
        _ => {},
    }
}

/// The last text of a document.
pub fn extract_last_text_from_value(value: &Json) -> (r: Option<String>)
    ensures
        opt_text(r) == last_or(texts(value.tree()), None),
{
    let mut last: Option<String> = None;
    collect_last_text(value, &mut last);
    last
}

/// The last text that a JSON body carries, given what was read in it.
pub open spec fn json_text(document: Option<JsonTree>) -> Option<Seq<char>> {
    match document {
        Some(tree) => last_or(texts(tree), None),
        None => None,
    }
}

/// The last text of a body that is one JSON document; `None` where it is none or carries no text.
pub fn extract_text_from_json(body: &str) -> (r: Option<String>)
    ensures
        opt_text(r) == json_text(parsed_json(body@)),
{
    match parse_json(body) {
        Some(value) => extract_last_text_from_value(&value),
        None => None,
    }
}

/// The strings taken as characters.
pub open spec fn views(strings: Seq<String>) -> Seq<Seq<char>> {
    strings.map_values(|s: String| s@)
}

/// Where the first line of `s` ends.
pub open spec fn line_end(s: Seq<char>) -> nat
    decreases s.len(),
{
    if s.len() == 0 || s.first() == '\n' {
        0
    } else {
        1 + line_end(s.drop_first())
    }
}

/// `s` without `prefix` in front, however often it is repeated there.
pub open spec fn without_prefix(s: Seq<char>, prefix: Seq<char>) -> Seq<char>
    decreases s.len(),
{
    if prefix.len() > 0 && prefix.is_prefix_of(s) {
        without_prefix(s.skip(prefix.len() as int), prefix)
    } else {
        s
    }
}

/// The data of one line of an event stream, if it carries any: what follows `data:`, trimmed,
/// unless that is nothing or the `[DONE]` mark. A carriage return at the end of the line is white
/// space and goes with the trimming.
pub open spec fn line_payload(line: Seq<char>) -> Seq<Seq<char>> {
    let line = trimmed(line);
    if "data:"@.is_prefix_of(line) {
        let data = trimmed(without_prefix(line, "data:"@));
        if data.len() == 0 || data == "[DONE]"@ {
            Seq::empty()
        } else {
            seq![data]
        }
    } else {
        Seq::empty()
    }
}

/// The data of an event stream, line by line.
pub open spec fn payloads(s: Seq<char>) -> Seq<Seq<char>>
    decreases s.len(),
{
    if line_end(s) < s.len() {
        line_payload(s.take(line_end(s) as int)) + payloads(
            s.skip(line_end(s) as int + 1),
        )
    } else {
        line_payload(s)
    }
}

/// The documents read in the data of an event stream; data that is no JSON is passed over.
pub open spec fn documents(data: Seq<Seq<char>>) -> Seq<JsonTree>
    decreases data.len(),
{
    if data.len() == 0 {
        Seq::empty()
    } else {
        documents(data.drop_last()) + match parsed_json(data.last()) {
            Some(tree) => seq![tree],
            None => Seq::empty(),
        }
    }
}

/// The last text of a series of documents, unless it is blank.
pub open spec fn stream_text(trees: Seq<JsonTree>) -> Option<Seq<char>> {
    match last_or(texts_of_items(trees), None) {
        Some(s) => if blank(s) {
            None
        } else {
            Some(s)
        },
        None => None,
    }
}

/// Tells whether `chars[from..to]` starts with `prefix`.
fn starts_with(chars: &Vec<char>, from: usize, to: usize, prefix: &Vec<char>) -> (r: bool)
    requires
        from <= to <= chars.len(),
    ensures
        r == prefix@.is_prefix_of(chars@.subrange(from as int, to as int)),
{
    let ghost part = chars@.subrange(from as int, to as int);
    if prefix.len() > to - from {
        return false;
    }
    let mut i: usize = 0;
    while i < prefix.len()
        invariant
            from <= to <= chars.len(),
            prefix.len() <= to - from,
            i <= prefix.len(),
            part == chars@.subrange(from as int, to as int),
            prefix@.take(i as int) == part.take(i as int),
        decreases prefix.len() - i,
    {
        if prefix[i] != chars[from + i] {
            assert(part[i as int] != prefix@[i as int]);
            assert(part.subrange(0, prefix.len() as int)[i as int] == part[i as int]);
            return false;
        }
        assert(prefix@.take(i + 1) =~= prefix@.take(i as int).push(prefix@[i as int]));
        assert(part.take(i + 1) =~= part.take(i as int).push(part[i as int]));
        i += 1;
    }
    assert(prefix@.take(prefix.len() as int) =~= prefix@);
    assert(part.take(prefix.len() as int) =~= part.subrange(0, prefix.len() as int));
    true
}

/// The data of the line `chars[from..to]`, if it carries any.
fn find_payload(body: &str, chars: &Vec<char>, from: usize, to: usize) -> (r: Option<String>)
    requires
        chars@ == body@,
        from <= to <= chars.len(),
    ensures
        match r {
            Some(data) => line_payload(chars@.subrange(from as int, to as int)) == seq![data@],
            None => line_payload(chars@.subrange(from as int, to as int)).len() == 0,
        },
{
    let mark = chars_of("data:");
    proof {
        reveal_strlit("data:");
    }
    let line = trim_range(chars, from, to);
    if !starts_with(chars, line.0, line.1, &mark) {
        return None;
    }
    let ghost text = chars@.subrange(line.0 as int, line.1 as int);
    let end = line.1;
    let mut start = line.0;
    while starts_with(chars, start, end, &mark)
        invariant
            start <= end <= chars.len(),
            mark@ == "data:"@,
            mark@.len() == 5,
            without_prefix(chars@.subrange(start as int, end as int), "data:"@) == without_prefix(
                text,
                "data:"@,
            ),
        decreases end - start,
    {
        assert(chars@.subrange(start as int, end as int).skip(5) =~= chars@.subrange(
            start + 5,
            end as int,
        ));
        assert(chars@.subrange(start as int, end as int).len() >= 5);
        start = start + 5;
    }
    assert(chars@.subrange(start as int, end as int) == without_prefix(text, "data:"@));
    let range = trim_range(chars, start, end);
    if range.0 == range.1 {
        return None;
    }
    let data = body.substring_char(range.0, range.1);
    if same_text(data, "[DONE]") {
        None
    } else {
        Some(data.to_owned())
    }
}

proof fn lemma_line_end(s: Seq<char>, k: int)
    requires
        0 <= k <= s.len(),
        forall|i: int| 0 <= i < k ==> s[i] != '\n',
        k < s.len() ==> s[k] == '\n',
    ensures
        line_end(s) == k,
    decreases s.len(),
{
    if k > 0 {
        assert forall|i: int| 0 <= i < k - 1 implies s.drop_first()[i] != '\n' by {
            assert(s.drop_first()[i] == s[i + 1]);
        }
        lemma_line_end(s.drop_first(), k - 1);
    }
}

/// The data of an event stream: of each line that starts with `data:` what follows, trimmed,
/// without empty data and the `[DONE]` mark.
pub fn sse_payloads(body: &str) -> (r: Vec<String>)
    ensures
        views(r@) == payloads(body@),
{
    let chars = chars_of(body);
    let mut out: Vec<String> = Vec::new();
    let mut start: usize = 0;
    let mut end: usize = 0;
    assert(body@.skip(0) =~= body@);
    assert(views(out@) + payloads(body@) =~= payloads(body@));
    while end < chars.len()
        invariant
            chars@ == body@,
            start <= end <= chars.len(),
            forall|i: int| start <= i < end ==> chars@[i] != '\n',
            views(out@) + payloads(body@.skip(start as int)) == payloads(body@),
        decreases chars.len() - end,
    {
        if chars[end] == '\n' {
            let ghost rest = body@.skip(start as int);
            let ghost k = end - start;
            let found = find_payload(body, &chars, start, end);
            proof {
                lemma_line_end(rest, k);
                assert(rest.take(k) =~= chars@.subrange(start as int, end as int));
                assert(rest.skip(k + 1) =~= body@.skip(end + 1));
            }
            let ghost before = out@;
            match found {
                Some(data) => {
                    out.push(data);
                    assert(views(out@) =~= views(before) + seq![data@]);
                },
                None => {
                    assert(line_payload(rest.take(k)) =~= Seq::empty());
                },
            }
            assert(views(out@) + payloads(body@.skip(end + 1)) =~= views(before) + payloads(rest));
            start = end + 1;
        }
        end += 1;
    }
    let ghost rest = body@.skip(start as int);
    let found = find_payload(body, &chars, start, end);
    proof {
        lemma_line_end(rest, rest.len() as int);
        assert(rest =~= chars@.subrange(start as int, end as int));
    }
    let ghost before = out@;
    match found {
        Some(data) => {
            out.push(data);
            assert(views(out@) =~= views(before) + seq![data@]);
        },
        None => {
            assert(line_payload(rest) =~= Seq::empty());
            assert(views(before) + line_payload(rest) =~= views(before));
        },
    }
    out
}

/// The last text of a series of documents; `None` where there is none, or where it is blank.
pub fn last_text_of_stream(values: &Vec<Json>) -> (r: Option<String>)
    ensures
        opt_text(r) == stream_text(item_trees(values@)),
{
    let ghost trees = item_trees(values@);
    let mut last: Option<String> = None;
    let mut i: usize = 0;
    assert(trees.take(0) =~= Seq::empty());
    while i < values.len()
        invariant
            i <= values.len(),
            trees == item_trees(values@),
            opt_text(last) == last_or(texts_of_items(trees.take(i as int)), None),
        decreases values.len() - i,
    {
        let ghost upto = trees.take(i + 1);
        assert(upto.drop_last() =~= trees.take(i as int));
        assert(upto.last() == values@[i as int].tree());
        if let Some(text) = extract_last_text_from_value(&values[i]) {
            last = Some(text);
        }
        i += 1;
    }
    assert(trees.take(values.len() as int) =~= trees);
    match last {
        Some(text) => if is_blank(&text) {
            None
        } else {
            Some(text)
        },
        None => None,
    }
}

/// The last text that a stream of server-sent events carries, unless it is blank.
pub fn extract_text_from_sse(body: &str) -> (r: Option<String>)
    ensures
        opt_text(r) == stream_text(documents(payloads(body@))),
{
    let data = sse_payloads(body);
    let ghost all = views(data@);
    let mut values: Vec<Json> = Vec::new();
    let mut i: usize = 0;
    assert(all.take(0) =~= Seq::empty());
    assert(item_trees(values@) =~= Seq::empty());
    while i < data.len()
        invariant
            i <= data.len(),
            all == views(data@),
            item_trees(values@) == documents(all.take(i as int)),
        decreases data.len() - i,
    {
        let ghost upto = all.take(i + 1);
        assert(upto.drop_last() =~= all.take(i as int));
        assert(upto.last() == data@[i as int]@);
        let ghost before = values@;
        if let Some(value) = parse_json(&data[i]) {
            values.push(value);
            assert(item_trees(values@) =~= item_trees(before) + seq![value.tree()]);
        }
        i += 1;
    }
    assert(all.take(data.len() as int) =~= all);
    last_text_of_stream(&values)
}

/// How many bytes of a response body the log shows.
pub const BODY_PREVIEW_BYTES: usize = 300;

/// How many bytes of a message the log shows.
pub const MESSAGE_PREVIEW_BYTES: usize = 200;

/// The text that a warm-up response carries: of an event stream or of one JSON document.
pub open spec fn response_text(body: Seq<char>, is_sse: bool) -> Option<Seq<char>> {
    if is_sse {
        stream_text(documents(payloads(body)))
    } else {
        json_text(parsed_json(body))
    }
}

/// The previews of a body and of the message in it can be cut between two characters. Of a blank
/// body there is no preview.
pub open spec fn can_log(body: Seq<char>, message: Option<Seq<char>>) -> bool {
    ||| blank(body)
    ||| {
        &&& can_truncate(body, BODY_PREVIEW_BYTES as int)
        &&& message matches Some(s) ==> can_truncate(s, MESSAGE_PREVIEW_BYTES as int)
    }
}

/// The log of a warm-up response: that it was empty, or a preview of the body and, where there is
/// one, of the message.
pub open spec fn warmup_log(
    source: Seq<char>,
    body: Seq<char>,
    message: Option<Seq<char>>,
) -> Seq<Seq<char>> {
    if blank(body) {
        seq!["[Warmup] "@ + source + " warm-up response was empty"@]
    } else {
        seq![
            "[Warmup] "@ + source + " warm-up response preview: "@ + truncated(
                body,
                BODY_PREVIEW_BYTES as int,
            ),
        ] + match message {
            Some(s) => seq![
                "[Warmup] "@ + source + " warm-up message: "@ + truncated(
                    s,
                    MESSAGE_PREVIEW_BYTES as int,
                ),
            ],
            None => Seq::empty(),
        }
    }
}

/// The log of a warm-up response, line by line, given the message that was found in it.
pub fn warmup_log_lines(source: &str, body: &str, message: &Option<String>) -> (r: Vec<String>)
    requires
        can_log(body@, opt_text(*message)),
    ensures
        views(r@) == warmup_log(source@, body@, opt_text(*message)),
{
    let mut lines: Vec<String> = Vec::new();
    let mut first = "[Warmup] ".to_owned();
    first.append(source);
    if is_blank(body) {
        first.append(" warm-up response was empty");
        lines.push(first);
        assert(views(lines@) =~= warmup_log(source@, body@, opt_text(*message)));
        return lines;
    }
    first.append(" warm-up response preview: ");
    first.append(truncate_text(body, BODY_PREVIEW_BYTES).as_str());
    lines.push(first);
    if let Some(text) = message {
        let mut second = "[Warmup] ".to_owned();
        second.append(source);
        second.append(" warm-up message: ");
        second.append(truncate_text(text, MESSAGE_PREVIEW_BYTES).as_str());
        lines.push(second);
    }
    assert(views(lines@) =~= warmup_log(source@, body@, opt_text(*message)));
    lines
}

/// The log of a warm-up response, line by line; `None` where a preview would be cut inside a
/// character.
pub fn log_warmup_response(source: &str, body: &str, is_sse: bool) -> (r: Option<Vec<String>>)
    ensures
        r is Some <==> can_log(body@, response_text(body@, is_sse)),
        r matches Some(lines) ==> views(lines@) == warmup_log(
            source@,
            body@,
            response_text(body@, is_sse),
        ),
{
    if is_blank(body) {
        return Some(warmup_log_lines(source, body, &None));
    }
    let message = if is_sse {
        extract_text_from_sse(body)
    } else {
        extract_text_from_json(body)
    };
    if !can_truncate_text(body, BODY_PREVIEW_BYTES) {
        return None;
    }
    if let Some(text) = &message {
        if !can_truncate_text(text, MESSAGE_PREVIEW_BYTES) {
            return None;
        }
    }
    Some(warmup_log_lines(source, body, &message))
}

proof fn lemma_line_end_is_first_break(s: Seq<char>)
    ensures
        line_end(s) <= s.len(),
        forall|i: int| 0 <= i < line_end(s) ==> s[i] != '\n',
        line_end(s) < s.len() ==> s[line_end(s) as int] == '\n',
    decreases s.len(),
{
    if s.len() > 0 && s.first() != '\n' {
        let rest = s.drop_first();
        lemma_line_end_is_first_break(rest);
        assert forall|i: int| 0 <= i < line_end(s) implies s[i] != '\n' by {
            if i > 0 {
                assert(s[i] == rest[i - 1]);
            }
        }
        if line_end(s) < s.len() {
            assert(s[line_end(s) as int] == rest[line_end(rest) as int]);
        }
    }
}

/// The lines of an event stream are read one by one: what comes before a line break and what comes
/// after it do not touch each other.
pub proof fn lines_are_read_separately(a: Seq<char>, b: Seq<char>)
    ensures
        payloads(a + seq!['\n'] + b) == payloads(a) + payloads(b),
    decreases a.len(),
{
    let whole = a + seq!['\n'] + b;
    lemma_line_end_is_first_break(a);
    let k = line_end(a) as int;
    assert forall|i: int| 0 <= i < k implies whole[i] != '\n' by {
        assert(whole[i] == a[i]);
    }
    assert(whole[k] == '\n');
    lemma_line_end(whole, k);
    if k < a.len() {
        assert(whole.take(k) =~= a.take(k));
        assert(whole.skip(k + 1) =~= a.skip(k + 1) + seq!['\n'] + b);
        lines_are_read_separately(a.skip(k + 1), b);
        assert(payloads(whole) =~= payloads(a) + payloads(b));
    } else {
        assert(whole.take(k) =~= a);
        assert(whole.skip(k + 1) =~= b);
    }
}

proof fn lemma_trimmed_front_of_text(s: Seq<char>)
    requires
        s.len() > 0,
        !white_space(s.first()),
    ensures
        trimmed_front(s) == s,
{
}

/// A document that is sent as the data of one event is read back whole.
pub proof fn data_line_is_read_back(data: Seq<char>)
    requires
        data.len() > 0,
        forall|i: int| 0 <= i < data.len() ==> data[i] != '\n',
        !white_space(data.first()),
        !white_space(data.last()),
        !"data:"@.is_prefix_of(data),
        data != "[DONE]"@,
    ensures
        payloads("data: "@ + data + seq!['\n']) == seq![data],
{
    reveal_strlit("data:");
    reveal_strlit("data: ");
    let mark = "data:"@;
    let line = "data: "@ + data;
    assert forall|i: int| 0 <= i < line.len() implies line[i] != '\n' by {
        if i >= 6 {
            assert(line[i] == data[i - 6]);
        }
    }
    lines_are_read_separately(line, Seq::empty());
    assert(line + seq!['\n'] + Seq::empty() =~= line + seq!['\n']);
    lemma_line_end(line, line.len() as int);
    lemma_line_end(Seq::<char>::empty(), 0);

    assert(line.first() == 'd');
    assert(line.last() == data.last());
    assert(trimmed(line) == line);
    assert(line.subrange(0, 5) =~= mark);
    assert(mark.is_prefix_of(line));
    let rest = line.skip(5);
    assert(rest =~= seq![' '] + data);
    assert(rest.first() == ' ');
    assert(!mark.is_prefix_of(rest)) by {
        if mark.is_prefix_of(rest) {
            assert(rest.subrange(0, 5)[0] == mark[0]);
        }
    }
    assert(without_prefix(rest, mark) == rest);
    assert(without_prefix(line, mark) == rest);
    assert(rest.drop_first() =~= data);
    assert(trimmed_front(rest) == trimmed_front(data));
    lemma_trimmed_front_of_text(data);
    assert(trimmed(rest) == data);
    assert(line_payload(line) == seq![data]);

    let nothing = Seq::<char>::empty();
    assert(trimmed(nothing) == nothing);
    assert(!mark.is_prefix_of(nothing));
    assert(payloads(nothing) =~= Seq::empty());
    assert(payloads(line) + payloads(nothing) =~= seq![data]);
}

/// No empty data and no `[DONE]` mark is read as a document.
pub proof fn payloads_carry_data(s: Seq<char>)
    ensures
        forall|i: int|
            0 <= i < payloads(s).len() ==> (#[trigger] payloads(s)[i]).len() > 0 && payloads(s)[i]
                != "[DONE]"@,
    decreases s.len(),
{
    if line_end(s) < s.len() {
        let head = line_payload(s.take(line_end(s) as int));
        let rest = s.skip(line_end(s) as int + 1);
        payloads_carry_data(rest);
        assert forall|i: int| 0 <= i < payloads(s).len() implies (#[trigger] payloads(s)[i]).len()
            > 0 && payloads(s)[i] != "[DONE]"@ by {
            if i >= head.len() {
                assert(payloads(s)[i] == payloads(rest)[i - head.len()]);
            }
        }
    }
}

/// None of the texts is empty.
pub open spec fn all_filled(found: Seq<Seq<char>>) -> bool {
    forall|i: int| 0 <= i < found.len() ==> (#[trigger] found[i]).len() > 0
}

proof fn lemma_filled_concat(a: Seq<Seq<char>>, b: Seq<Seq<char>>)
    requires
        all_filled(a),
        all_filled(b),
    ensures
        all_filled(a + b),
{
    assert forall|i: int| 0 <= i < (a + b).len() implies (#[trigger] (a + b)[i]).len() > 0 by {
        if i < a.len() {
            assert((a + b)[i] == a[i]);
        } else {
            assert((a + b)[i] == b[i - a.len()]);
        }
    }
}

/// No text of a document is empty.
pub proof fn texts_are_not_empty(tree: JsonTree)
    ensures
        all_filled(texts(tree)),
    decreases tree,
{
    reveal_with_fuel(texts, 2);
    match tree {
        JsonTree::Object(members) => lemma_member_texts_are_not_empty(members),
        JsonTree::Array(items) => lemma_item_texts_are_not_empty(items),
        _ => {},
    }
}

proof fn lemma_member_texts_are_not_empty(members: Seq<(Seq<char>, JsonTree)>)
    ensures
        all_filled(texts_of_members(members)),
    decreases members,
{
    reveal_with_fuel(texts_of_members, 2);
    if members.len() > 0 {
        let before = texts_of_members(members.drop_last());
        lemma_member_texts_are_not_empty(members.drop_last());
        texts_are_not_empty(members.last().1);
        lemma_filled_concat(before, own_text(members.last()));
        lemma_filled_concat(before + own_text(members.last()), texts(members.last().1));
    }
}

proof fn lemma_item_texts_are_not_empty(items: Seq<JsonTree>)
    ensures
        all_filled(texts_of_items(items)),
    decreases items,
{
    reveal_with_fuel(texts_of_items, 2);
    if items.len() > 0 {
        lemma_item_texts_are_not_empty(items.drop_last());
        texts_are_not_empty(items.last());
        lemma_filled_concat(texts_of_items(items.drop_last()), texts(items.last()));
    }
}

/// The message of an event stream is never blank, and is one of the texts that the documents in it
/// carry.
pub proof fn stream_text_is_a_text(trees: Seq<JsonTree>)
    ensures
        stream_text(trees) matches Some(s) ==> !blank(s) && texts_of_items(trees).contains(s),
{
    if texts_of_items(trees).len() > 0 {
        let all = texts_of_items(trees);
        assert(all[all.len() - 1] == all.last());
    }
}

/// Strings taken as characters are as many as before, each with its own.
pub proof fn texts_are_kept_as_characters(s: Option<String>, strings: Seq<String>, i: int)
    ensures
        opt_text(s) is Some <==> s is Some,
        s is Some ==> opt_text(s)->0 == s->0@,
        views(strings).len() == strings.len(),
        0 <= i < strings.len() ==> views(strings)[i] == strings[i]@,
{
}

/// A scalar carries no text of its own: texts stand in the members of objects.
pub proof fn scalars_carry_no_text(flag: bool, s: Seq<char>)
    ensures
        texts(JsonTree::Null).len() == 0,
        texts(JsonTree::Bool(flag)).len() == 0,
        texts(JsonTree::Number(s)).len() == 0,
        texts(JsonTree::Text(s)).len() == 0,
{
}

/// A member that is a string carries it where its name is `text`, `delta` or `output_text` and it is
/// not empty; any other member carries what its value does, whatever its name.
pub proof fn member_carries_its_text(name: Seq<char>, value: JsonTree)
    ensures
        ({
            let found = texts(JsonTree::Object(seq![(name, value)]));
            match value {
                JsonTree::Text(s) => if (name == "text"@ || name == "delta"@ || name
                    == "output_text"@) && s.len() > 0 {
                    found == seq![s]
                } else {
                    found.len() == 0
                },
                _ => found == texts(value),
            }
        }),
{
    let members = seq![(name, value)];
    reveal_with_fuel(texts, 2);
    reveal_with_fuel(texts_of_members, 2);
    assert(members.drop_last() =~= Seq::empty());
    assert(members.last() == (name, value));
    assert(texts_of_members(members) =~= own_text((name, value)) + texts(value));
    assert(Seq::<Seq<char>>::empty() + texts(value) =~= texts(value));
}

/// An item of an array carries what it carries by itself.
pub proof fn item_carries_its_texts(value: JsonTree)
    ensures
        texts(JsonTree::Array(seq![value])) == texts(value),
        texts(JsonTree::Array(Seq::empty())).len() == 0,
        texts(JsonTree::Object(Seq::empty())).len() == 0,
{
    let items = seq![value];
    reveal_with_fuel(texts, 2);
    reveal_with_fuel(texts_of_items, 2);
    assert(items.drop_last() =~= Seq::empty());
    assert(texts_of_items(items) =~= texts(value));
}

/// The texts of an array or object are those of its first part followed by those of the rest,
/// wherever it is cut: texts come in the order of the document.
pub proof fn texts_come_in_order(
    a: Seq<JsonTree>,
    b: Seq<JsonTree>,
    m: Seq<(Seq<char>, JsonTree)>,
    n: Seq<(Seq<char>, JsonTree)>,
)
    ensures
        texts(JsonTree::Array(a + b)) == texts(JsonTree::Array(a)) + texts(JsonTree::Array(b)),
        texts(JsonTree::Object(m + n)) == texts(JsonTree::Object(m)) + texts(JsonTree::Object(n)),
{
    lemma_item_texts_concat(a, b);
    lemma_member_texts_concat(m, n);
}

proof fn lemma_item_texts_concat(a: Seq<JsonTree>, b: Seq<JsonTree>)
    ensures
        texts_of_items(a + b) == texts_of_items(a) + texts_of_items(b),
    decreases b.len(),
{
    reveal_with_fuel(texts_of_items, 2);
    if b.len() == 0 {
        assert(a + b =~= a);
        assert(texts_of_items(a) + texts_of_items(b) =~= texts_of_items(a));
    } else {
        lemma_item_texts_concat(a, b.drop_last());
        assert((a + b).drop_last() =~= a + b.drop_last());
        assert((a + b).last() == b.last());
        assert(texts_of_items(a + b) =~= texts_of_items(a) + texts_of_items(b));
    }
}

proof fn lemma_member_texts_concat(
    a: Seq<(Seq<char>, JsonTree)>,
    b: Seq<(Seq<char>, JsonTree)>,
)
    ensures
        texts_of_members(a + b) == texts_of_members(a) + texts_of_members(b),
    decreases b.len(),
{
    reveal_with_fuel(texts_of_members, 2);
    if b.len() == 0 {
        assert(a + b =~= a);
        assert(texts_of_members(a) + texts_of_members(b) =~= texts_of_members(a));
    } else {
        lemma_member_texts_concat(a, b.drop_last());
        assert((a + b).drop_last() =~= a + b.drop_last());
        assert((a + b).last() == b.last());
        assert(texts_of_members(a + b) =~= texts_of_members(a) + texts_of_members(b));
    }
}

/// What is found last is what counts; where nothing is found, what was there before stays.
pub proof fn the_last_text_counts(
    found: Seq<Seq<char>>,
    text: Seq<char>,
    before: Option<Seq<char>>,
)
    ensures
        last_or(found.push(text), before) == Some(text),
        last_or(Seq::empty(), before) == before,
{
}

/// The message of one document is the last of its texts, blank or not; there is none without texts
/// and none where the body is no document.
pub proof fn document_message_is_its_last_text(tree: JsonTree)
    ensures
        json_text(None) is None,
        texts(tree).len() == 0 ==> json_text(Some(tree)) is None,
        texts(tree).len() > 0 ==> json_text(Some(tree)) == Some(
            texts(tree)[texts(tree).len() - 1],
        ),
{
}

/// The message of a stream is the last text of all its documents together, where that is not blank;
/// a blank last text leaves no message, whatever came before it.
pub proof fn stream_message_is_the_last_text(trees: Seq<JsonTree>)
    ensures
        ({
            let all = texts(JsonTree::Array(trees));
            &&& all.len() == 0 ==> stream_text(trees) is None
            &&& all.len() > 0 && blank(all[all.len() - 1]) ==> stream_text(trees) is None
            &&& all.len() > 0 && !blank(all[all.len() - 1]) ==> stream_text(trees) == Some(
                all[all.len() - 1],
            )
        }),
{
}

/// The data of a stream is read piece by piece: what is a document is kept in order, and what is
/// none is passed over.
pub proof fn documents_are_read_in_order(a: Seq<Seq<char>>, b: Seq<Seq<char>>, data: Seq<char>)
    ensures
        documents(a + b) == documents(a) + documents(b),
        parsed_json(data) is Some ==> documents(seq![data]) == seq![parsed_json(data)->0],
        parsed_json(data) is None ==> documents(seq![data]).len() == 0,
    decreases b.len(),
{
    reveal_with_fuel(documents, 2);
    assert(seq![data].drop_last() =~= Seq::empty());
    assert(Seq::<JsonTree>::empty() + seq![parsed_json(data)->0] =~= seq![parsed_json(data)->0]);
    if b.len() == 0 {
        assert(a + b =~= a);
        assert(documents(a) + documents(b) =~= documents(a));
    } else {
        documents_are_read_in_order(a, b.drop_last(), data);
        assert((a + b).drop_last() =~= a + b.drop_last());
        assert((a + b).last() == b.last());
        assert(documents(a + b) =~= documents(a) + documents(b));
    }
}

proof fn lemma_one_line(line: Seq<char>)
    requires
        forall|i: int| 0 <= i < line.len() ==> line[i] != '\n',
    ensures
        payloads(line) == line_payload(line),
{
    lemma_line_end(line, line.len() as int);
}

/// A line that does not start with `data:`, white space before it aside, carries nothing.
pub proof fn other_lines_carry_nothing(line: Seq<char>)
    requires
        forall|i: int| 0 <= i < line.len() ==> line[i] != '\n',
        !"data:"@.is_prefix_of(trimmed(line)),
    ensures
        payloads(line).len() == 0,
{
    lemma_one_line(line);
}

/// A line that starts with `data:`, white space around it aside, carries what follows, trimmed,
/// unless that is nothing or the mark of the end. Where another `data:` follows at once, the line
/// carries the same as without the first.
pub proof fn data_lines_carry_what_follows(line: Seq<char>, rest: Seq<char>)
    requires
        forall|i: int| 0 <= i < line.len() ==> line[i] != '\n',
        trimmed(line) == "data:"@ + rest,
    ensures
        !"data:"@.is_prefix_of(rest) && (trimmed(rest).len() == 0 || trimmed(rest) == "[DONE]"@)
            ==> payloads(line).len() == 0,
        !"data:"@.is_prefix_of(rest) && trimmed(rest).len() > 0 && trimmed(rest) != "[DONE]"@
            ==> payloads(line) == seq![trimmed(rest)],
        "data:"@.is_prefix_of(rest) ==> payloads(line) == payloads(rest),
{
    reveal_strlit("data:");
    let mark = "data:"@;
    let whole = mark + rest;
    lemma_one_line(line);
    assert(whole.subrange(0, 5) =~= mark);
    assert(mark.is_prefix_of(whole));
    assert(whole.skip(5) =~= rest);
    assert(without_prefix(whole, mark) == without_prefix(rest, mark));
    if mark.is_prefix_of(rest) {
        trimming_cuts_white_space_off_the_ends(line);
        let (i, j) = choose|i: int, j: int|
            0 <= i <= j <= line.len() && trimmed(line) == #[trigger] line.subrange(i, j) && blank(
                line.take(i),
            ) && blank(line.skip(j));
        assert forall|k: int| 0 <= k < rest.len() implies rest[k] != '\n' by {
            assert(whole[k + 5] == rest[k]);
            assert(line.subrange(i, j)[k + 5] == line[i + k + 5]);
        }
        lemma_one_line(rest);
        assert(rest.len() >= 5);
        assert(rest.first() == rest.subrange(0, 5)[0]);
        assert(rest.first() == 'd');
        assert(rest.last() == whole.last());
        assert(!white_space(rest.last()));
        lemma_trimmed_front_of_text(rest);
        assert(trimmed(rest) == rest);
    }
}

/// Which of the two forms a body has decides how its message is read.
pub proof fn message_is_read_by_form(body: Seq<char>)
    ensures
        response_text(body, true) == stream_text(documents(payloads(body))),
        response_text(body, false) == json_text(parsed_json(body)),
{
}

/// Of a blank body the log says that it was empty, in one line, whatever message there is.
pub proof fn blank_body_is_logged_as_empty(
    source: Seq<char>,
    body: Seq<char>,
    message: Option<Seq<char>>,
)
    requires
        blank(body),
    ensures
        can_log(body, message),
        warmup_log(source, body, message) == seq![
            "[Warmup] "@ + source + " warm-up response was empty"@,
        ],
{
}

/// Of any other body the log shows the first 300 bytes in one line, and of a message the first 200
/// in a second; it can be written where both can be cut there.
pub proof fn log_shows_body_and_message(
    source: Seq<char>,
    body: Seq<char>,
    message: Seq<char>,
)
    requires
        !blank(body),
    ensures
        can_log(body, None) <==> can_truncate(body, 300),
        can_log(body, Some(message)) <==> can_truncate(body, 300) && can_truncate(message, 200),
        warmup_log(source, body, None) == seq![
            "[Warmup] "@ + source + " warm-up response preview: "@ + truncated(body, 300),
        ],
        warmup_log(source, body, Some(message)) == seq![
            "[Warmup] "@ + source + " warm-up response preview: "@ + truncated(body, 300),
            "[Warmup] "@ + source + " warm-up message: "@ + truncated(message, 200),
        ],
{
    let first = "[Warmup] "@ + source + " warm-up response preview: "@ + truncated(body, 300);
    assert(seq![first] + Seq::<Seq<char>>::empty() =~= seq![first]);
}

} // verus!
