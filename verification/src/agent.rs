//! The mentor's retrieval loop, as a state machine: the service performs each
//! action (ask the model, parse its JSON, fetch a document) and hands the
//! outcome back as an event; the machine decides what comes next.
use vstd::prelude::*;
use crate::context::{DocLookup, DocLookupView, DocSource, doc_lookup_next, doc_url, next_doc_lookup, start_doc_lookup};
use crate::errors::{gemini_error_text, parse_gemini_error};
use crate::fallback::{fallback_content, fallback_parse_json, fallback_rag, fallback_suggestions};
use crate::model::{ChatResponse, ReplyView, failure_view, opt_view, opt_views, reply_well_formed};
use crate::text::{
    chars_of, equals_str, find, find_char_at, join, lines, push_range, push_str, rfind_char,
    rfind_char_at, starts_with, starts_with_at, string_from,
};

verus! {

// ---------------------------------------------------------------------------
// The conversation the model sees
// ---------------------------------------------------------------------------

/// Who wrote an entry of the model conversation.
#[derive(Debug, Clone, Copy, PartialEq, Eq, Structural)]
pub enum Speaker {
    User,
    Model,
}

/// One entry of the model conversation.
#[derive(Debug, Clone)]
pub struct HistoryEntry {
    pub speaker: Speaker,
    pub text: String,
}

impl View for HistoryEntry {
    type V = (Speaker, Seq<char>);

    open spec fn view(&self) -> (Speaker, Seq<char>) {
        (self.speaker, self.text@)
    }
}

/// The entries of a conversation as values.
pub open spec fn history_view(h: Seq<HistoryEntry>) -> Seq<(Speaker, Seq<char>)> {
    h.map_values(|e: HistoryEntry| e@)
}

impl HistoryEntry {
    /// An entry written by the user.
    pub fn user(text: String) -> (e: HistoryEntry)
        ensures
            e@ == (Speaker::User, text@),
    {
        HistoryEntry { speaker: Speaker::User, text }
    }

    /// An entry written by the model.
    pub fn model(text: String) -> (e: HistoryEntry)
        ensures
            e@ == (Speaker::Model, text@),
    {
        HistoryEntry { speaker: Speaker::Model, text }
    }
}

/// Appends `e` to `h`.
fn push_entry(h: &mut Vec<HistoryEntry>, e: HistoryEntry)
    ensures
        history_view(final(h)@) == history_view(old(h)@).push(e@),
{
    let ghost before = h@;
    h.push(e);
    assert(history_view(h@) =~= history_view(before).push(e@));
}

/// The model's acknowledgement of the system instruction, put before the conversation.
pub const ACKNOWLEDGEMENT: &'static str = "{\n  \"content\": \"Understood. I will adopt this persona exclusively, use the provided API data, assume the provided skills, and ensure every response is raw JSON matching the schema. If the user asks how to contribute to a specific repository, I will provide the owner/repo in fetch_repo_rag.\",\n  \"suggestions\": [],\n  \"new_skills_detected\": [],\n  \"fetch_repo_rag\": null\n}";

/// What the model is sent: the system instruction as the user, the
/// acknowledgement as the model, then the conversation.
pub open spec fn prompt(context: Seq<char>, h: Seq<(Speaker, Seq<char>)>) -> Seq<(Speaker, Seq<char>)> {
    seq![(Speaker::User, context), (Speaker::Model, ACKNOWLEDGEMENT@)] + h
}

/// What the model is sent.
fn build_prompt(context: &String, history: &Vec<HistoryEntry>) -> (r: Vec<HistoryEntry>)
    ensures
        history_view(r@) == prompt(context@, history_view(history@)),
{
    let mut r: Vec<HistoryEntry> = Vec::new();
    push_entry(&mut r, HistoryEntry::user(context.clone()));
    push_entry(&mut r, HistoryEntry::model(ACKNOWLEDGEMENT.to_owned()));
    let n = history.len();
    let mut i: usize = 0;
    while i < n
        invariant
            0 <= i <= n,
            n == history.len(),
            history_view(r@) == prompt(context@, history_view(history@).take(i as int)),
        decreases n - i,
    {
        let e = HistoryEntry { speaker: history[i].speaker, text: history[i].text.clone() };
        push_entry(&mut r, e);
        assert(history_view(history@).take(i + 1) =~= history_view(history@).take(i as int).push(
            history[i as int]@,
        ));
        assert(prompt(context@, history_view(history@).take(i + 1)) =~= prompt(
            context@,
            history_view(history@).take(i as int),
        ).push(history[i as int]@));
        i += 1;
    }
    assert(history_view(history@).take(n as int) =~= history_view(history@));
    r
}

// ---------------------------------------------------------------------------
// The model's answer
// ---------------------------------------------------------------------------

/// One part of a model answer.
#[derive(Debug, Clone)]
pub enum ReplyPart {
    Text(String),
    /// A part that is not text.
    Other,
}

/// One candidate answer: its parts, if the model gave any.
#[derive(Debug, Clone)]
pub struct Candidate {
    pub parts: Option<Vec<ReplyPart>>,
}

/// A model answer: its candidates, in order.
#[derive(Debug, Clone)]
pub struct ModelReply {
    pub candidates: Vec<Candidate>,
}

pub const NO_CANDIDATES: &'static str = "No candidates returned";

pub const EMPTY_PARTS: &'static str = "Empty response parts";

pub const NON_TEXT: &'static str = "Received non-text response";

/// The text of the first part of the first candidate, or what stands for it.
pub open spec fn raw_text(r: ModelReply) -> Seq<char> {
    if r.candidates@.len() == 0 {
        NO_CANDIDATES@
    } else {
        match r.candidates@[0].parts {
            None => EMPTY_PARTS@,
            Some(ps) => if ps@.len() == 0 {
                EMPTY_PARTS@
            } else {
                match ps@[0] {
                    ReplyPart::Text(t) => t@,
                    ReplyPart::Other => NON_TEXT@,
                }
            },
        }
    }
}

impl ModelReply {
    /// The text of the first part of the first candidate, or what stands for it.
    pub fn text(&self) -> (t: String)
        ensures
            t@ == raw_text(*self),
    {
        if self.candidates.len() == 0 {
            return NO_CANDIDATES.to_owned();
        }
        match &self.candidates[0].parts {
            None => EMPTY_PARTS.to_owned(),
            Some(ps) => {
                if ps.len() == 0 {
                    EMPTY_PARTS.to_owned()
                } else {
                    match &ps[0] {
                        ReplyPart::Text(t) => t.clone(),
                        ReplyPart::Other => NON_TEXT.to_owned(),
                    }
                }
            },
        }
    }
}

/// The part of `raw` from the first `{` to the last `}`, when it has both.
pub open spec fn json_block(raw: Seq<char>) -> Seq<char> {
    match (find(raw, seq!['{']), rfind_char(raw, '}')) {
        (Some(s), Some(e)) => raw.subrange(s, e + 1),
        _ => raw,
    }
}

/// Whether the block of `raw` can be cut out: no `}` ends it more than one
/// place before the `{` that starts it (cutting would panic otherwise).
pub open spec fn json_block_in_order(raw: Seq<char>) -> bool {
    match (find(raw, seq!['{']), rfind_char(raw, '}')) {
        (Some(s), Some(e)) => s <= e + 1,
        _ => true,
    }
}

/// The lines that do not open or close a code fence.
pub open spec fn unfenced(ls: Seq<Seq<char>>) -> Seq<Seq<char>>
    decreases ls.len(),
{
    if ls.len() == 0 {
        Seq::empty()
    } else if starts_with(ls[0], "```"@) {
        unfenced(ls.drop_first())
    } else {
        seq![ls[0]] + unfenced(ls.drop_first())
    }
}

/// `raw` reduced to its JSON block, without code fence lines.
pub open spec fn cleaned_reply(raw: Seq<char>) -> Seq<char> {
    join(unfenced(lines(json_block(raw))), "\n"@)
}

/// Whether the JSON block of `raw` can be cut out.
pub fn json_block_is_in_order(raw: &str) -> (b: bool)
    ensures
        b == json_block_in_order(raw@),
{
    let v = chars_of(raw);
    let n = v.len();
    assert(v@.subrange(0, n as int) =~= v@);
    match (find_char_at(&v, 0, n, '{'), rfind_char_at(&v, 0, n, '}')) {
        (Some(s), Some(e)) => {
            proof {
                lemma_rfind(v@, '}', n as int);
            }
            s <= e + 1
        },
        _ => true,
    }
}

/// The lines of `v[lo..hi]` that do not open or close a code fence, joined by newlines.
fn drop_fence_lines(v: &Vec<char>, lo: usize, hi: usize) -> (out: Vec<char>)
    requires
        lo <= hi <= v.len(),
    ensures
        out@ == join(unfenced(lines(v@.subrange(lo as int, hi as int))), "\n"@),
{
    let fence = chars_of("```");
    let ghost all = unfenced(lines(v@.subrange(lo as int, hi as int)));
    let ghost mut kept: Seq<Seq<char>> = Seq::empty();
    let mut out: Vec<char> = Vec::new();
    let mut any = false;
    let mut pos = lo;
    while pos < hi
        invariant
            any == (kept.len() > 0),
            lo <= pos <= hi,
            hi <= v.len(),
            fence@ == "```"@,
            all == unfenced(lines(v@.subrange(lo as int, hi as int))),
            all == kept + unfenced(lines(v@.subrange(pos as int, hi as int))),
            out@ == join(kept, "\n"@),
        decreases hi - pos,
    {
        let ghost w = v@.subrange(pos as int, hi as int);
        let (line_end, next) = match find_char_at(v, pos, hi, '\n') {
            Some(k) => {
                proof {
                    crate::text::lemma_find(w, seq!['\n']);
                }
                let e = if k > 0 && v[pos + k - 1] == '\r' {
                    pos + k - 1
                } else {
                    pos + k
                };
                assert(w.take(k as int) =~= v@.subrange(pos as int, pos + k));
                assert(v@.subrange(pos as int, e as int) =~= crate::text::strip_cr(w.take(k as int)));
                assert(w.skip(k + 1) =~= v@.subrange(pos + k + 1, hi as int));
                assert(lines(w).drop_first() == lines(v@.subrange(pos + k + 1, hi as int)));
                (e, pos + k + 1)
            },
            None => {
                assert(lines(w) == seq![w]);
                assert(lines(w).drop_first() =~= lines(v@.subrange(hi as int, hi as int)));
                (hi, hi)
            },
        };
        let ghost line = v@.subrange(pos as int, line_end as int);
        assert(lines(w)[0] == line);
        let fenced = starts_with_at(v, pos, line_end, &fence);
        if !fenced {
            if any {
                out.push('\n');
            }
            push_range(&mut out, v, pos, line_end);
            any = true;
            proof {
                if kept.len() > 0 {
                    assert(kept.push(line).drop_last() =~= kept);
                    reveal_strlit("\n");
                    assert(out@ =~= join(kept, "\n"@) + "\n"@ + line);
                } else {
                    assert(out@ =~= line);
                }
                assert(join(kept.push(line), "\n"@) == out@);
                assert(kept + unfenced(lines(w)) =~= kept.push(line) + unfenced(lines(v@.subrange(next as int, hi as int))));
                kept = kept.push(line);
            }
        }
        pos = next;
    }
    assert(unfenced(lines(v@.subrange(hi as int, hi as int))) =~= Seq::<Seq<char>>::empty());
    assert(all =~= kept);
    out
}

/// Reduces a model answer to its JSON block, without code fence lines.
pub fn clean_model_reply(raw: &str) -> (r: String)
    requires
        json_block_in_order(raw@),
    ensures
        r@ == cleaned_reply(raw@),
{
    let v = chars_of(raw);
    let n = v.len();
    assert(v@.subrange(0, n as int) =~= v@);
    let (lo, hi) = match (find_char_at(&v, 0, n, '{'), rfind_char_at(&v, 0, n, '}')) {
        (Some(s), Some(e)) => {
            proof {
                crate::text::lemma_find(v@, seq!['{']);
                lemma_rfind(v@, '}', n as int);
            }
            (s, e + 1)
        },
        _ => (0, n),
    };
    assert(v@.subrange(lo as int, hi as int) == json_block(raw@));
    let out = drop_fence_lines(&v, lo, hi);
    string_from(&out)
}

proof fn lemma_rfind(s: Seq<char>, c: char, n: int)
    requires
        0 <= n <= s.len(),
    ensures
        crate::text::rfind_char_below(s, c, n) matches Some(k) ==> 0 <= k < n,
    decreases n,
{
    if n > 0 {
        lemma_rfind(s, c, n - 1);
    }
}

/// The structured answer the model is asked for.
#[derive(Debug, Clone)]
pub struct AiReply {
    pub content: String,
    pub suggestions: Option<Vec<String>>,
    pub new_skills_detected: Option<Vec<String>>,
    pub fetch_repo_rag: Option<String>,
}

/// The repository the structured answer asks to look up: present, not empty, not `null`.
pub open spec fn repo_requested(p: AiReply) -> Option<Seq<char>> {
    match opt_view(p.fetch_repo_rag) {
        Some(r) => if r.len() > 0 && r != "null"@ {
            Some(r)
        } else {
            None
        },
        None => None,
    }
}

/// The response built from a structured answer.
pub open spec fn parsed_reply(p: AiReply) -> ReplyView {
    ReplyView {
        content: p.content@,
        error: None,
        suggestions: match opt_views(p.suggestions) {
            Some(s) => s,
            None => Seq::empty(),
        },
        new_skills: opt_views(p.new_skills_detected),
    }
}

/// The response built from a salvaged answer.
pub open spec fn salvaged_reply(cleaned: Seq<char>) -> ReplyView {
    ReplyView {
        content: fallback_content(cleaned),
        error: None,
        suggestions: fallback_suggestions(cleaned),
        new_skills: None,
    }
}

// ---------------------------------------------------------------------------
// The machine
// ---------------------------------------------------------------------------

/// The media type the model is asked to answer in.
pub const REPLY_MIME_TYPE: &'static str = "application/json";

/// The most tokens the model may answer with.
pub const MAX_OUTPUT_TOKENS: i32 = 8192;

/// The most times the model is asked again after a document lookup.
pub const MAX_DEPTH: u8 = 3;

pub const TOO_MANY_ROUNDS: &'static str = "Agent exceeded maximum iterations";

pub const TOOL_RESULT_OPENING: &'static str = "SYSTEM TOOL FETCH RESULT for ";

/// The message that hands a looked-up document to the model.
pub open spec fn tool_result(repo: Seq<char>, doc: Seq<char>) -> Seq<char> {
    TOOL_RESULT_OPENING@ + repo + ":\n"@ + doc
}

/// What the machine waits for.
#[derive(Debug)]
pub enum Stage {
    /// The model's answer.
    AwaitReply,
    /// The outcome of parsing the cleaned answer.
    AwaitParse { cleaned: String },
    /// A document of `repo`, fetched from `source`.
    AwaitDoc { cleaned: String, repo: String, source: DocSource },
    /// Nothing: the turn is over.
    Finished,
}

/// The stage as values.
pub enum StageView {
    AwaitReply,
    AwaitParse { cleaned: Seq<char> },
    AwaitDoc { cleaned: Seq<char>, repo: Seq<char>, source: DocSource },
    Finished,
}

impl View for Stage {
    type V = StageView;

    open spec fn view(&self) -> StageView {
        match self {
            Stage::AwaitReply => StageView::AwaitReply,
            Stage::AwaitParse { cleaned } => StageView::AwaitParse { cleaned: cleaned@ },
            Stage::AwaitDoc { cleaned, repo, source } => StageView::AwaitDoc {
                cleaned: cleaned@,
                repo: repo@,
                source: *source,
            },
            Stage::Finished => StageView::Finished,
        }
    }
}

/// One chat turn of the retrieval loop.
#[derive(Debug)]
pub struct Agent {
    pub depth: u8,
    pub context: String,
    pub stage: Stage,
}

/// The machine's state as values.
pub struct AgentView {
    pub depth: nat,
    pub context: Seq<char>,
    pub stage: StageView,
}

impl View for Agent {
    type V = AgentView;

    open spec fn view(&self) -> AgentView {
        AgentView { depth: self.depth as nat, context: self.context@, stage: self.stage@ }
    }
}

/// What the service is to do next.
#[derive(Debug)]
pub enum AgentAction {
    /// Send these entries to the model.
    AskModel(Vec<HistoryEntry>),
    /// Parse this text as the structured answer.
    ParseReply(String),
    /// Fetch this document and report its text.
    FetchDoc { source: DocSource, url: String },
    /// Answer the user with this response; the turn is over.
    Respond(ChatResponse),
}

/// The action as values.
pub enum ActionView {
    AskModel(Seq<(Speaker, Seq<char>)>),
    ParseReply(Seq<char>),
    FetchDoc { source: DocSource, url: Seq<char> },
    Respond(ReplyView),
}

impl View for AgentAction {
    type V = ActionView;

    open spec fn view(&self) -> ActionView {
        match self {
            AgentAction::AskModel(es) => ActionView::AskModel(history_view(es@)),
            AgentAction::ParseReply(t) => ActionView::ParseReply(t@),
            AgentAction::FetchDoc { source, url } => ActionView::FetchDoc {
                source: *source,
                url: url@,
            },
            AgentAction::Respond(r) => ActionView::Respond(r@),
        }
    }
}

/// What the service reports back.
#[derive(Debug)]
pub enum AgentEvent {
    /// The model call failed; the error's text.
    ModelFailed(String),
    /// The model answered.
    ModelAnswered(ModelReply),
    /// The parse of the cleaned answer: the structured answer, or `None`
    /// when the text does not match its shape.
    Parsed(Option<AiReply>),
    /// The fetched document's text, or `None` when the fetch failed.
    Fetched(Option<String>),
}

/// Whether the state is one the machine can be in: below the round limit
/// while it still waits for something.
pub open spec fn agent_wf(s: AgentView) -> bool {
    s.stage !is Finished ==> s.depth <= MAX_DEPTH
}

/// Whether `e` is what the stage waits for, and can be taken in.
pub open spec fn accepts(s: AgentView, e: AgentEvent) -> bool {
    match (s.stage, e) {
        (StageView::AwaitReply, AgentEvent::ModelFailed(_)) => true,
        (StageView::AwaitReply, AgentEvent::ModelAnswered(r)) => json_block_in_order(raw_text(r)),
        (StageView::AwaitParse { .. }, AgentEvent::Parsed(_)) => true,
        (StageView::AwaitDoc { .. }, AgentEvent::Fetched(_)) => true,
        _ => false,
    }
}

/// The state after the turn ended.
pub open spec fn finished(s: AgentView) -> AgentView {
    AgentView { depth: s.depth, context: s.context, stage: StageView::Finished }
}

/// Asking the model in round `depth`, or giving up past the round limit.
pub open spec fn ask_round(depth: nat, context: Seq<char>, h: Seq<(Speaker, Seq<char>)>) -> (
    AgentView,
    Seq<(Speaker, Seq<char>)>,
    ActionView,
) {
    if depth > MAX_DEPTH {
        (
            AgentView { depth, context, stage: StageView::Finished },
            h,
            ActionView::Respond(failure_view(TOO_MANY_ROUNDS@)),
        )
    } else {
        (
            AgentView { depth, context, stage: StageView::AwaitReply },
            h,
            ActionView::AskModel(prompt(context, h)),
        )
    }
}

/// Looking up the documents of `repo`, once the answer `cleaned` asked for it.
pub open spec fn start_lookup(s: AgentView, cleaned: Seq<char>, repo: Seq<char>) -> (AgentView, ActionView) {
    (
        AgentView {
            depth: s.depth,
            context: s.context,
            stage: StageView::AwaitDoc { cleaned, repo, source: DocSource::Contributing },
        },
        ActionView::FetchDoc {
            source: DocSource::Contributing,
            url: doc_url(DocSource::Contributing, repo),
        },
    )
}

/// The state, the conversation and the action after `e` in state `s` with conversation `h`.
pub open spec fn transition(s: AgentView, h: Seq<(Speaker, Seq<char>)>, e: AgentEvent) -> (
    AgentView,
    Seq<(Speaker, Seq<char>)>,
    ActionView,
) {
    match (s.stage, e) {
        (StageView::AwaitReply, AgentEvent::ModelFailed(m)) => (
            finished(s),
            h,
            ActionView::Respond(failure_view(gemini_error_text(m@))),
        ),
        (StageView::AwaitReply, AgentEvent::ModelAnswered(r)) => {
            let c = cleaned_reply(raw_text(r));
            (
                AgentView {
                    depth: s.depth,
                    context: s.context,
                    stage: StageView::AwaitParse { cleaned: c },
                },
                h,
                ActionView::ParseReply(c),
            )
        },
        (StageView::AwaitParse { cleaned }, AgentEvent::Parsed(Some(p))) => match repo_requested(p) {
            Some(repo) => {
                let (s2, a) = start_lookup(s, cleaned, repo);
                (s2, h, a)
            },
            None => (
                finished(s),
                h.push((Speaker::Model, p.content@)),
                ActionView::Respond(parsed_reply(p)),
            ),
        },
        (StageView::AwaitParse { cleaned }, AgentEvent::Parsed(None)) => match fallback_rag(cleaned) {
            Some(repo) => {
                let (s2, a) = start_lookup(s, cleaned, repo);
                (s2, h, a)
            },
            None => (
                finished(s),
                h.push((Speaker::Model, fallback_content(cleaned))),
                ActionView::Respond(salvaged_reply(cleaned)),
            ),
        },
        (StageView::AwaitDoc { cleaned, repo, source }, AgentEvent::Fetched(t)) => match doc_lookup_next(
            repo,
            source,
            opt_view(t),
        ) {
            DocLookupView::Fetch { source: s2, url } => (
                AgentView {
                    depth: s.depth,
                    context: s.context,
                    stage: StageView::AwaitDoc { cleaned, repo, source: s2 },
                },
                h,
                ActionView::FetchDoc { source: s2, url },
            ),
            DocLookupView::Done(doc) => ask_round(
                s.depth + 1,
                s.context,
                h.push((Speaker::Model, cleaned)).push((Speaker::User, tool_result(repo, doc))),
            ),
        },
        _ => (s, h, ActionView::Respond(failure_view(Seq::empty()))),
    }
}

/// How much work can remain: it falls with every step and is zero once the turn is over.
pub open spec fn remaining_work(s: AgentView) -> nat {
    match s.stage {
        StageView::Finished => 0,
        StageView::AwaitReply => 4 + 5 * ((MAX_DEPTH + 1) - s.depth) as nat,
        StageView::AwaitParse { .. } => 3 + 5 * ((MAX_DEPTH + 1) - s.depth) as nat,
        StageView::AwaitDoc { source, .. } => match source {
            DocSource::Contributing => 2 + 5 * ((MAX_DEPTH + 1) - s.depth) as nat,
            DocSource::Readme => 1 + 5 * ((MAX_DEPTH + 1) - s.depth) as nat,
        },
    }
}

impl Agent {
    /// Asking the model in round `depth`, or giving up past the round limit.
    fn ask(depth: u8, context: String, history: &Vec<HistoryEntry>) -> (r: (Agent, AgentAction))
        requires
            depth <= MAX_DEPTH + 1,
        ensures
            (r.0@, history_view(history@), r.1@) == ask_round(
                depth as nat,
                context@,
                history_view(history@),
            ),
    {
        if depth > MAX_DEPTH {
            (
                Agent { depth, context, stage: Stage::Finished },
                AgentAction::Respond(ChatResponse::failure(TOO_MANY_ROUNDS.to_owned())),
            )
        } else {
            let p = build_prompt(&context, history);
            (Agent { depth, context, stage: Stage::AwaitReply }, AgentAction::AskModel(p))
        }
    }

    /// Starts a chat turn: asks the model, with `context` as the system instruction.
    pub fn start(context: String, history: &Vec<HistoryEntry>) -> (r: (Agent, AgentAction))
        ensures
            (r.0@, history_view(history@), r.1@) == ask_round(0, context@, history_view(history@)),
            agent_wf(r.0@),
    {
        Agent::ask(0, context, history)
    }

    /// Takes in what came of the last action; returns the next action.
    pub fn step(&mut self, history: &mut Vec<HistoryEntry>, event: AgentEvent) -> (action: AgentAction)
        requires
            agent_wf(old(self)@),
            accepts(old(self)@, event),
        ensures
            (final(self)@, history_view(final(history)@), action@) == transition(
                old(self)@,
                history_view(old(history)@),
                event,
            ),
            agent_wf(final(self)@),
    {
        let mut stage = Stage::Finished;
        std::mem::swap(&mut stage, &mut self.stage);
        match stage {
            Stage::AwaitReply => self.on_reply(event),
            Stage::AwaitParse { cleaned } => self.on_parse(history, cleaned, event),
            Stage::AwaitDoc { cleaned, repo, source } => self.on_doc(
                history,
                cleaned,
                repo,
                source,
                event,
            ),
            Stage::Finished => AgentAction::Respond(ChatResponse::failure(String::new())),
        }
    }

    fn on_reply(&mut self, event: AgentEvent) -> (action: AgentAction)
        requires
            old(self).stage is Finished,
            old(self).depth <= MAX_DEPTH,
            event is ModelFailed || (event matches AgentEvent::ModelAnswered(r) && json_block_in_order(raw_text(r))),
        ensures
            (final(self)@, action@) == ({
                let s = AgentView { depth: old(self)@.depth, context: old(self)@.context, stage: StageView::AwaitReply };
                let t = transition(s, Seq::empty(), event);
                (t.0, t.2)
            }),
            agent_wf(final(self)@),
    {
        match event {
            AgentEvent::ModelFailed(m) => {
                let text = parse_gemini_error(m.as_str());
                AgentAction::Respond(ChatResponse::failure(text))
            },
            AgentEvent::ModelAnswered(r) => {
                let raw = r.text();
                let c = clean_model_reply(raw.as_str());
                let c2 = c.clone();
                self.stage = Stage::AwaitParse { cleaned: c };
                AgentAction::ParseReply(c2)
            },
            _ => AgentAction::Respond(ChatResponse::failure(String::new())),
        }
    }

    /// Starts looking up the documents of `repo`.
    fn lookup(&mut self, cleaned: String, repo: String) -> (action: AgentAction)
        requires
            old(self).depth <= MAX_DEPTH,
        ensures
            (final(self)@, action@) == start_lookup(old(self)@, cleaned@, repo@),
            agent_wf(final(self)@),
    {
        let first = start_doc_lookup(repo.as_str());
        self.stage = Stage::AwaitDoc { cleaned, repo, source: DocSource::Contributing };
        match first {
            DocLookup::Fetch { source, url } => AgentAction::FetchDoc { source, url },
            DocLookup::Done(_) => AgentAction::FetchDoc { source: DocSource::Contributing, url: String::new() },
        }
    }

    fn on_parse(&mut self, history: &mut Vec<HistoryEntry>, cleaned: String, event: AgentEvent) -> (action: AgentAction)
        requires
            old(self).stage is Finished,
            old(self).depth <= MAX_DEPTH,
            event is Parsed,
        ensures
            (final(self)@, history_view(final(history)@), action@) == transition(
                AgentView { depth: old(self)@.depth, context: old(self)@.context, stage: StageView::AwaitParse { cleaned: cleaned@ } },
                history_view(old(history)@),
                event,
            ),
            agent_wf(final(self)@),
    {
        match event {
            AgentEvent::Parsed(Some(p)) => {
                let wants = match &p.fetch_repo_rag {
                    Some(r) => {
                        let rv = chars_of(r.as_str());
                        rv.len() > 0 && !equals_str(&rv, "null")
                    },
                    None => false,
                };
                if wants {
                    let repo = match p.fetch_repo_rag {
                        Some(r) => r,
                        None => String::new(),
                    };
                    self.lookup(cleaned, repo)
                } else {
                    push_entry(history, HistoryEntry::model(p.content.clone()));
                    let suggestions = match p.suggestions {
                        Some(s) => s,
                        None => Vec::new(),
                    };
                    let r = ChatResponse {
                        content: p.content,
                        error: None,
                        suggestions,
                        new_skills: p.new_skills_detected,
                    };
                    assert(r@.suggestions =~= parsed_reply(p).suggestions);
                    AgentAction::Respond(r)
                }
            },
            AgentEvent::Parsed(None) => {
                let (content, suggestions, rag) = fallback_parse_json(cleaned.as_str());
                match rag {
                    Some(repo) => self.lookup(cleaned, repo),
                    None => {
                        push_entry(history, HistoryEntry::model(content.clone()));
                        AgentAction::Respond(
                            ChatResponse { content, error: None, suggestions, new_skills: None },
                        )
                    },
                }
            },
            _ => AgentAction::Respond(ChatResponse::failure(String::new())),
        }
    }

    fn on_doc(
        &mut self,
        history: &mut Vec<HistoryEntry>,
        cleaned: String,
        repo: String,
        source: DocSource,
        event: AgentEvent,
    ) -> (action: AgentAction)
        requires
            old(self).stage is Finished,
            old(self).depth <= MAX_DEPTH,
            event is Fetched,
        ensures
            (final(self)@, history_view(final(history)@), action@) == transition(
                AgentView {
                    depth: old(self)@.depth,
                    context: old(self)@.context,
                    stage: StageView::AwaitDoc { cleaned: cleaned@, repo: repo@, source },
                },
                history_view(old(history)@),
                event,
            ),
            agent_wf(final(self)@),
    {
        let text = match event {
            AgentEvent::Fetched(t) => t,
            _ => None,
        };
        let next = match &text {
            Some(t) => next_doc_lookup(repo.as_str(), source, Some(t.as_str())),
            None => next_doc_lookup(repo.as_str(), source, None),
        };
        match next {
            DocLookup::Fetch { source: s2, url } => {
                self.stage = Stage::AwaitDoc { cleaned, repo, source: s2 };
                AgentAction::FetchDoc { source: s2, url }
            },
            DocLookup::Done(doc) => {
                let mut msg: Vec<char> = Vec::new();
                push_str(&mut msg, TOOL_RESULT_OPENING);
                push_str(&mut msg, repo.as_str());
                push_str(&mut msg, ":\n");
                push_str(&mut msg, doc.as_str());
                let tool = string_from(&msg);
                assert(tool@ =~= tool_result(repo@, doc@));
                push_entry(history, HistoryEntry::model(cleaned));
                push_entry(history, HistoryEntry::user(tool));
                let mut context = String::new();
                std::mem::swap(&mut context, &mut self.context);
                let (next_agent, action) = Agent::ask(self.depth + 1, context, history);
                *self = next_agent;
                action
            },
        }
    }
}

// ---------------------------------------------------------------------------
// Laws of the machine
// ---------------------------------------------------------------------------

/// Every step takes the turn closer to its end.
pub proof fn steps_make_progress(s: AgentView, h: Seq<(Speaker, Seq<char>)>, e: AgentEvent)
    requires
        agent_wf(s),
        accepts(s, e),
    ensures
        remaining_work(transition(s, h, e).0) < remaining_work(s),
{
}

/// A step only ever adds entries at the end of the conversation.
pub proof fn history_only_grows(s: AgentView, h: Seq<(Speaker, Seq<char>)>, e: AgentEvent)
    requires
        agent_wf(s),
        accepts(s, e),
    ensures
        transition(s, h, e).1.len() >= h.len(),
        transition(s, h, e).1.take(h.len() as int) == h,
{
    let h2 = transition(s, h, e).1;
    assert(h2.take(h.len() as int) =~= h);
}

/// The model is asked only within the round limit, and a turn that ends
/// answers with an error that comes alone.
pub proof fn actions_are_bounded(s: AgentView, h: Seq<(Speaker, Seq<char>)>, e: AgentEvent)
    requires
        agent_wf(s),
        accepts(s, e),
    ensures
        transition(s, h, e).2 is AskModel ==> transition(s, h, e).0.depth <= MAX_DEPTH,
        transition(s, h, e).2 is Respond <==> transition(s, h, e).0.stage is Finished,
        transition(s, h, e).2 matches ActionView::Respond(r) ==> reply_well_formed(r),
{
}


/// When the structured answer asks for a repository, the next action fetches
/// that repository's contribution guide.
pub proof fn requested_repository_is_fetched(
    s: AgentView,
    h: Seq<(Speaker, Seq<char>)>,
    p: AiReply,
    repo: Seq<char>,
)
    requires
        s.stage is AwaitParse,
        repo_requested(p) == Some(repo),
    ensures
        transition(s, h, AgentEvent::Parsed(Some(p))).2 == (ActionView::FetchDoc {
            source: DocSource::Contributing,
            url: doc_url(DocSource::Contributing, repo),
        }),
{
}

/// A looked-up document reaches the model: within the round limit, the next
/// call ends with the answer that asked for it and the document itself.
pub proof fn fetched_document_reaches_the_model(
    s: AgentView,
    h: Seq<(Speaker, Seq<char>)>,
    t: Option<String>,
)
    requires
        s.stage is AwaitDoc,
        s.depth < MAX_DEPTH,
        doc_lookup_next(s.stage->AwaitDoc_repo, s.stage->AwaitDoc_source, opt_view(t)) is Done,
    ensures
        ({
            let doc = doc_lookup_next(s.stage->AwaitDoc_repo, s.stage->AwaitDoc_source, opt_view(t))->Done_0;
            let h2 = h.push((Speaker::Model, s.stage->AwaitDoc_cleaned)).push(
                (Speaker::User, tool_result(s.stage->AwaitDoc_repo, doc)),
            );
            &&& transition(s, h, AgentEvent::Fetched(t)).1 == h2
            &&& transition(s, h, AgentEvent::Fetched(t)).2 == ActionView::AskModel(prompt(s.context, h2))
        }),
{
}

/// A turn that ends with an answer leaves that answer as the last entry of the conversation.
pub proof fn answers_are_remembered(s: AgentView, h: Seq<(Speaker, Seq<char>)>, e: AgentEvent)
    requires
        agent_wf(s),
        accepts(s, e),
        transition(s, h, e).2 matches ActionView::Respond(r) && r.error is None,
    ensures
        transition(s, h, e).1.len() > 0,
        transition(s, h, e).1.last() == (Speaker::Model, transition(s, h, e).2->Respond_0.content),
{
}


/// The model is sent the instruction as the user, the acknowledgement as the
/// model, and then every entry of the conversation in order, each with the
/// speaker it was recorded with; a turn's first call sends exactly that.
pub proof fn conversation_is_sent_as_recorded(c: Seq<char>, h: Seq<(Speaker, Seq<char>)>)
    ensures
        prompt(c, h).len() == h.len() + 2,
        prompt(c, h)[0] == (Speaker::User, c),
        prompt(c, h)[1] == (Speaker::Model, ACKNOWLEDGEMENT@),
        forall|i: int| 0 <= i < h.len() ==> #[trigger] prompt(c, h)[i + 2] == h[i],
        ask_round(0, c, h).2 == ActionView::AskModel(prompt(c, h)),
        ask_round(0, c, h).1 == h,
{
}

} // verus!
