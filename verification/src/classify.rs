//! Verified classification of one complete transcript line into at most one
//! domain event, with the free text a user message carries.

use vstd::prelude::*;
use vstd::string::*;
use crate::events::{ClaudeEvent, EventV};
use crate::jsonv::{parse_value, value_get, value_as_string, value_as_array};
use crate::text::str_eq;

verus! {

/// The kind a content item declares in its "type" field.
#[derive(Clone, Copy, Debug, PartialEq, Eq, Structural)]
pub enum ContentKind {
    Thinking,
    ToolUse,
    Text,
    ToolResult,
    Other,
}

/// One item of a record's content array, reduced to the fields the
/// classification rules read.
pub struct ContentItem {
    pub kind: ContentKind,
    pub text: Option<String>,
    pub tool: Option<String>,
    pub file_path: Option<String>,
}

/// The mathematical shape of a `ContentItem`.
pub struct ItemV {
    pub kind: ContentKind,
    pub text: Option<Seq<char>>,
    pub tool: Option<Seq<char>>,
    pub file_path: Option<Seq<char>>,
}

impl DeepView for ContentItem {
    type V = ItemV;

    open spec fn deep_view(&self) -> ItemV {
        ItemV {
            kind: self.kind,
            text: self.text.deep_view(),
            tool: self.tool.deep_view(),
            file_path: self.file_path.deep_view(),
        }
    }
}

/// One transcript record, reduced to what the classification rules read.
/// A line that does not parse, or whose "type" is missing, non-string or
/// unknown, is `Unrecognized`.
pub enum TranscriptRecord {
    User { content: Vec<ContentItem> },
    Assistant { content: Vec<ContentItem> },
    Progress { data_type: Option<String>, hook_event: Option<String> },
    System { subtype: Option<String>, hook_errors_present: bool },
    Unrecognized,
}

/// The mathematical shape of a `TranscriptRecord`.
pub enum RecordV {
    User { content: Seq<ItemV> },
    Assistant { content: Seq<ItemV> },
    Progress { data_type: Option<Seq<char>>, hook_event: Option<Seq<char>> },
    System { subtype: Option<Seq<char>>, hook_errors_present: bool },
    Unrecognized,
}

impl DeepView for TranscriptRecord {
    type V = RecordV;

    open spec fn deep_view(&self) -> RecordV {
        match self {
            TranscriptRecord::User { content } => RecordV::User { content: content.deep_view() },
            TranscriptRecord::Assistant { content } => RecordV::Assistant {
                content: content.deep_view(),
            },
            TranscriptRecord::Progress { data_type, hook_event } => RecordV::Progress {
                data_type: data_type.deep_view(),
                hook_event: hook_event.deep_view(),
            },
            TranscriptRecord::System { subtype, hook_errors_present } => RecordV::System {
                subtype: subtype.deep_view(),
                hook_errors_present: *hook_errors_present,
            },
            TranscriptRecord::Unrecognized => RecordV::Unrecognized,
        }
    }
}

/// A recognized event, with the free text it carries for analysis.
pub struct Classified {
    pub event: ClaudeEvent,
    pub text: Option<String>,
}

/// The mathematical shape of a `Classified`.
pub struct ClassifiedV {
    pub event: EventV,
    pub text: Option<Seq<char>>,
}

impl DeepView for Classified {
    type V = ClassifiedV;

    open spec fn deep_view(&self) -> ClassifiedV {
        ClassifiedV { event: self.event@, text: self.text.deep_view() }
    }
}

/// What a text-typed content item contributes to the extracted message text.
pub open spec fn item_text_part(it: ItemV) -> Seq<char> {
    if it.kind is Text && it.text is Some {
        it.text->0
    } else {
        Seq::empty()
    }
}

/// Concatenation of all text-typed content items' text.
pub open spec fn concat_texts(content: Seq<ItemV>) -> Seq<char>
    decreases content.len(),
{
    if content.len() == 0 {
        Seq::empty()
    } else {
        concat_texts(content.drop_last()) + item_text_part(content.last())
    }
}

/// Some content item carries text under the "text" type.
pub open spec fn has_text_item(content: Seq<ItemV>) -> bool {
    exists|i: int| 0 <= i < content.len() && content[i].kind is Text && content[i].text is Some
}

/// Some content item is a tool result.
pub open spec fn has_tool_result(content: Seq<ItemV>) -> bool {
    exists|i: int| 0 <= i < content.len() && content[i].kind is ToolResult
}

/// The classification rules: which event (and text) one record yields.
pub open spec fn spec_classify(rec: RecordV, project: Seq<char>) -> Option<ClassifiedV> {
    match rec {
        RecordV::User { content } => {
            if has_tool_result(content) {
                None
            } else {
                Some(
                    ClassifiedV {
                        event: EventV::UserMessage { project },
                        text: if has_text_item(content) {
                            Some(concat_texts(content))
                        } else {
                            None
                        },
                    },
                )
            }
        },
        RecordV::Assistant { content } => {
            if content.len() == 0 {
                None
            } else {
                let last = content.last();
                match last.kind {
                    ContentKind::Thinking => Some(
                        ClassifiedV { event: EventV::Thinking { project }, text: None },
                    ),
                    ContentKind::ToolUse => Some(
                        ClassifiedV {
                            event: EventV::ToolUse {
                                project,
                                tool: if last.tool is Some {
                                    last.tool->0
                                } else {
                                    "unknown"@
                                },
                                file_path: last.file_path,
                            },
                            text: None,
                        },
                    ),
                    ContentKind::Text => Some(
                        ClassifiedV { event: EventV::Talking { project }, text: None },
                    ),
                    _ => None,
                }
            }
        },
        RecordV::Progress { data_type, hook_event } => {
            if data_type == Some("hook_progress"@) {
                if hook_event == Some("SessionStart"@) {
                    Some(ClassifiedV { event: EventV::SessionStart { project }, text: None })
                } else if hook_event == Some("Stop"@) {
                    Some(
                        ClassifiedV {
                            event: EventV::Stop { project, success: true },
                            text: None,
                        },
                    )
                } else {
                    None
                }
            } else if data_type == Some("waiting_for_task"@) {
                Some(ClassifiedV { event: EventV::WaitingForTask { project }, text: None })
            } else {
                None
            }
        },
        RecordV::System { subtype, hook_errors_present } => {
            if subtype == Some("stop_hook_summary"@) && hook_errors_present {
                Some(
                    ClassifiedV {
                        event: EventV::Error { project, message: "Hook error"@ },
                        text: None,
                    },
                )
            } else {
                None
            }
        },
        RecordV::Unrecognized => None,
    }
}

proof fn lemma_has_text_step(dv: Seq<ItemV>, i: int)
    requires
        0 <= i < dv.len(),
    ensures
        has_text_item(dv.subrange(0, i + 1)) == (has_text_item(dv.subrange(0, i)) || (dv[i].kind
            is Text && dv[i].text is Some)),
{
    let a = dv.subrange(0, i);
    let b = dv.subrange(0, i + 1);
    if has_text_item(a) {
        let j = choose|j: int| 0 <= j < a.len() && #[trigger] a[j].kind is Text && a[j].text
            is Some;
        assert(b[j].kind is Text && b[j].text is Some);
    }
    if dv[i].kind is Text && dv[i].text is Some {
        assert(b[i].kind is Text && b[i].text is Some);
    }
    if has_text_item(b) {
        let j = choose|j: int| 0 <= j < b.len() && #[trigger] b[j].kind is Text && b[j].text
            is Some;
        if j < i {
            assert(a[j].kind is Text && a[j].text is Some);
        } else {
            assert(b[j] == dv[i]);
        }
    }
}

/// Classification is deterministic in the trailing content item: an
/// assistant record whose content array ends in a tool-use item always
/// yields ToolUse with that item's tool name (or the fallback name when the
/// item carries none) and its file path, whatever the earlier items hold.
pub proof fn lemma_trailing_tool_use_decides(content: Seq<ItemV>, project: Seq<char>)
    requires
        content.len() > 0,
        content.last().kind is ToolUse,
    ensures
        spec_classify(RecordV::Assistant { content }, project) == Some(
            ClassifiedV {
                event: EventV::ToolUse {
                    project,
                    tool: if content.last().tool is Some {
                        content.last().tool->0
                    } else {
                        "unknown"@
                    },
                    file_path: content.last().file_path,
                },
                text: None,
            },
        ),
{
}

/// Applies the classification rules to an extracted record.
#[verifier::loop_isolation(false)]
pub fn classify_record(rec: &TranscriptRecord, project: &str) -> (r: Option<Classified>)
    ensures
        match r {
            Some(c) => spec_classify(rec.deep_view(), project@) == Some(c.deep_view()),
            None => spec_classify(rec.deep_view(), project@) is None,
        },
{
    match rec {
        TranscriptRecord::User { content } => {
            let n = content.len();
            let mut i: usize = 0;
            let mut text = String::new();
            let mut found_text = false;
            proof {
                assert(content.deep_view().subrange(0, 0) =~= Seq::<ItemV>::empty());
            }
            while i < n
                invariant
                    i <= n,
                    n == content@.len(),
                    content.deep_view().len() == n,
                    forall|j: int| 0 <= j < i ==> !(content.deep_view()[j].kind is ToolResult),
                    text@ == concat_texts(content.deep_view().subrange(0, i as int)),
                    found_text == has_text_item(content.deep_view().subrange(0, i as int)),
                decreases n - i,
            {
                let ghost dv = content.deep_view();
                let ghost prefix = dv.subrange(0, i as int);
                proof {
                    assert(dv.subrange(0, i + 1).drop_last() =~= prefix);
                    assert(dv.subrange(0, i + 1).last() == dv[i as int]);
                }
                let item = &content[i];
                proof {
                    assert(item.deep_view() == dv[i as int]);
                }
                match item.kind {
                    ContentKind::ToolResult => {
                        proof {
                            assert(dv[i as int].kind is ToolResult);
                            assert(has_tool_result(dv));
                        }
                        return None;
                    },
                    ContentKind::Text => {
                        match &item.text {
                            Some(s) => {
                                text.append(s.as_str());
                                found_text = true;
                                proof {
                                    lemma_has_text_step(dv, i as int);
                                }
                            },
                            None => {
                                proof {
                                    lemma_has_text_step(dv, i as int);
                                    assert(text@ + item_text_part(dv[i as int]) =~= text@);
                                }
                            },
                        }
                    },
                    _ => {
                        proof {
                            lemma_has_text_step(dv, i as int);
                            assert(text@ + item_text_part(dv[i as int]) =~= text@);
                        }
                    },
                }
                i += 1;
            }
            proof {
                let dv = content.deep_view();
                assert(dv.subrange(0, n as int) =~= dv);
                if has_tool_result(dv) {
                    let j = choose|j: int| 0 <= j < dv.len() && #[trigger] dv[j].kind
                        is ToolResult;
                }
            }
            Some(
                Classified {
                    event: ClaudeEvent::UserMessage { project: project.to_owned() },
                    text: if found_text {
                        Some(text)
                    } else {
                        None
                    },
                },
            )
        },
        TranscriptRecord::Assistant { content } => {
            let n = content.len();
            if n == 0 {
                return None;
            }
            let last = &content[n - 1];
            proof {
                assert(last.deep_view() == content.deep_view().last());
            }
            match last.kind {
                ContentKind::Thinking => Some(
                    Classified {
                        event: ClaudeEvent::Thinking { project: project.to_owned() },
                        text: None,
                    },
                ),
                ContentKind::ToolUse => {
                    let tool = match &last.tool {
                        Some(t) => t.clone(),
                        None => String::from_str("unknown"),
                    };
                    let file_path = match &last.file_path {
                        Some(p) => Some(p.clone()),
                        None => None,
                    };
                    Some(
                        Classified {
                            event: ClaudeEvent::ToolUse {
                                project: project.to_owned(),
                                tool,
                                file_path,
                            },
                            text: None,
                        },
                    )
                },
                ContentKind::Text => Some(
                    Classified {
                        event: ClaudeEvent::Talking { project: project.to_owned() },
                        text: None,
                    },
                ),
                _ => None,
            }
        },
        TranscriptRecord::Progress { data_type, hook_event } => {
            let is_hook = match data_type {
                Some(s) => str_eq(s.as_str(), "hook_progress"),
                None => false,
            };
            if is_hook {
                let he = match hook_event {
                    Some(s) => {
                        if str_eq(s.as_str(), "SessionStart") {
                            1u8
                        } else if str_eq(s.as_str(), "Stop") {
                            2u8
                        } else {
                            0u8
                        }
                    },
                    None => 0u8,
                };
                if he == 1 {
                    Some(
                        Classified {
                            event: ClaudeEvent::SessionStart { project: project.to_owned() },
                            text: None,
                        },
                    )
                } else if he == 2 {
                    Some(
                        Classified {
                            event: ClaudeEvent::Stop { project: project.to_owned(), success: true },
                            text: None,
                        },
                    )
                } else {
                    None
                }
            } else {
                let is_waiting = match data_type {
                    Some(s) => str_eq(s.as_str(), "waiting_for_task"),
                    None => false,
                };
                if is_waiting {
                    Some(
                        Classified {
                            event: ClaudeEvent::WaitingForTask { project: project.to_owned() },
                            text: None,
                        },
                    )
                } else {
                    None
                }
            }
        },
        TranscriptRecord::System { subtype, hook_errors_present } => {
            let is_summary = match subtype {
                Some(s) => str_eq(s.as_str(), "stop_hook_summary"),
                None => false,
            };
            if is_summary && *hook_errors_present {
                Some(
                    Classified {
                        event: ClaudeEvent::Error {
                            project: project.to_owned(),
                            message: String::from_str("Hook error"),
                        },
                        text: None,
                    },
                )
            } else {
                None
            }
        },
        TranscriptRecord::Unrecognized => None,
    }
}

/// Reduces one content item to the fields the rules read.
fn extract_item(v: &serde_json::Value) -> ContentItem {
    let kind_str = match value_get(v, "type") {
        Some(t) => value_as_string(t),
        None => None,
    };
    let kind = match &kind_str {
        Some(k) => {
            if str_eq(k.as_str(), "thinking") {
                ContentKind::Thinking
            } else if str_eq(k.as_str(), "tool_use") {
                ContentKind::ToolUse
            } else if str_eq(k.as_str(), "text") {
                ContentKind::Text
            } else if str_eq(k.as_str(), "tool_result") {
                ContentKind::ToolResult
            } else {
                ContentKind::Other
            }
        },
        None => ContentKind::Other,
    };
    let text = match value_get(v, "text") {
        Some(t) => value_as_string(t),
        None => None,
    };
    let tool = match value_get(v, "name") {
        Some(t) => value_as_string(t),
        None => None,
    };
    let file_path = match value_get(v, "input") {
        Some(input) => {
            let field = match value_get(input, "file_path") {
                Some(p) => Some(p),
                None => match value_get(input, "path") {
                    Some(p) => Some(p),
                    None => value_get(input, "notebook_path"),
                },
            };
            match field {
                Some(p) => value_as_string(p),
                None => None,
            }
        },
        None => None,
    };
    ContentItem { kind, text, tool, file_path }
}

/// The record's content array, or empty when the message holds none.
fn extract_content(v: &serde_json::Value) -> Vec<ContentItem> {
    let msg = match value_get(v, "message") {
        Some(m) => m,
        None => {
            return Vec::new();
        },
    };
    let content = match value_get(msg, "content") {
        Some(c) => c,
        None => {
            return Vec::new();
        },
    };
    let arr = match value_as_array(content) {
        Some(a) => a,
        None => {
            return Vec::new();
        },
    };
    let n = arr.len();
    let mut items: Vec<ContentItem> = Vec::new();
    let mut i: usize = 0;
    while i < n
        invariant
            i <= n,
            n == arr@.len(),
        decreases n - i,
    {
        let item = extract_item(&arr[i]);
        items.push(item);
        i += 1;
    }
    items
}

/// Parses one line and reduces it to a `TranscriptRecord`. What the outside
/// parser yields is opaque, so this function promises nothing of its result;
/// `classify_record` carries the exact contract for every record value.
pub fn extract_record(line: &str) -> TranscriptRecord {
    let v = match parse_value(line) {
        Some(v) => v,
        None => {
            return TranscriptRecord::Unrecognized;
        },
    };
    let tv = match value_get(&v, "type") {
        Some(t) => t,
        None => {
            return TranscriptRecord::Unrecognized;
        },
    };
    let t = match value_as_string(tv) {
        Some(s) => s,
        None => {
            return TranscriptRecord::Unrecognized;
        },
    };
    if str_eq(t.as_str(), "user") {
        TranscriptRecord::User { content: extract_content(&v) }
    } else if str_eq(t.as_str(), "assistant") {
        TranscriptRecord::Assistant { content: extract_content(&v) }
    } else if str_eq(t.as_str(), "progress") {
        match value_get(&v, "data") {
            Some(d) => TranscriptRecord::Progress {
                data_type: match value_get(d, "type") {
                    Some(x) => value_as_string(x),
                    None => None,
                },
                hook_event: match value_get(d, "hookEvent") {
                    Some(x) => value_as_string(x),
                    None => None,
                },
            },
            None => TranscriptRecord::Progress { data_type: None, hook_event: None },
        }
    } else if str_eq(t.as_str(), "system") {
        TranscriptRecord::System {
            subtype: match value_get(&v, "subtype") {
                Some(x) => value_as_string(x),
                None => None,
            },
            hook_errors_present: match value_get(&v, "hookErrors") {
                Some(e) => match value_as_array(e) {
                    Some(arr) => arr.len() > 0,
                    None => false,
                },
                None => false,
            },
        }
    } else {
        TranscriptRecord::Unrecognized
    }
}

/// Classifies one complete line for its owning project: parse, reduce,
/// apply the rules. The result is the rules' verdict on whatever record the
/// parser yielded for this line.
pub fn classify_line(line: &str, project: &str) -> (r: Option<Classified>)
    ensures
        exists|rec: RecordV| #[trigger] spec_classify(rec, project@) == r.deep_view(),
{
    let rec = extract_record(line);
    let r = classify_record(&rec, project);
    proof {
        let recv = rec.deep_view();
        assert(spec_classify(recv, project@) == r.deep_view());
    }
    r
}

/// `c` is the rules' verdict on some record for this project.
pub open spec fn is_rule_verdict(c: ClassifiedV, project: Seq<char>) -> bool {
    exists|rec: RecordV| #[trigger] spec_classify(rec, project) == Some(c)
}

/// Classifies each non-empty complete line for its owning project, in
/// order, keeping the recognized events. Each kept entry is the rules'
/// verdict on the record its line parsed to.
pub fn classify_lines(lines: &Vec<String>, project: &str) -> (r: Vec<Classified>)
    ensures
        r@.len() <= lines@.len(),
        forall|k: int| 0 <= k < r@.len() ==> #[trigger] is_rule_verdict(r@[k].deep_view(), project@),
{
    let n = lines.len();
    let mut out: Vec<Classified> = Vec::new();
    let mut i: usize = 0;
    while i < n
        invariant
            i <= n,
            n == lines@.len(),
            out@.len() <= i,
            forall|k: int|
                0 <= k < out@.len() ==> #[trigger] is_rule_verdict(out@[k].deep_view(), project@),
        decreases n - i,
    {
        if !lines[i].as_str().is_empty() {
            match classify_line(lines[i].as_str(), project) {
                Some(c) => {
                    let ghost cv = c.deep_view();
                    proof {
                        assert(is_rule_verdict(cv, project@));
                    }
                    out.push(c);
                    proof {
                        assert(out@.last().deep_view() == cv);
                    }
                },
                None => {},
            }
        }
        i += 1;
    }
    out
}

} // verus!
