//! The update poll/process machine.
//!
//! The bot side of the service is one long-lived loop: fetch the updates past
//! the current offset, advance the offset past each update *before*
//! processing it, classify the update (auth command, URL to save, or
//! nothing), perform the side effects in order, and never let one
//! failing update stop the ones after it.
//!
//! All outside work — the HTTP calls to the messaging API, the page
//! fetch of the title extractor, the database insert — happens outside
//! this library. `Poller::step` holds every decision: the caller hands in
//! the outcome of the last action as a [`PollEvent`] and performs the
//! returned [`PollAction`], so the loop's behaviour is fixed here and
//! verified against the transition function `step_spec`.

use vstd::prelude::*;

use crate::auth::{push_map, push_ok, TokenInfo, TokenStorage};
use crate::storage::{ArticleData, ArticleDataS};
use crate::telegram_api::{ParseMode, SendMessage, SendMessageS, Update, UpdateS};
use crate::text::{dec_i64, i64_to_string};
use vstd::string::StringExecFns;

verus! {

/// Names what `url::Url::parse` makes of a string: `Some` with the
/// parser's serialization when the string is an absolute URL, `None`
/// otherwise. The result depends on the string alone.
pub uninterp spec fn parsed_url(s: Seq<char>) -> Option<Seq<char>>;

/// Relies on `url::Url::parse`, which accepts exactly the absolute URLs
/// and is a function of its input, and on `Url::as_str`, which returns
/// the parsed URL's serialization.
#[verifier::external_body]
fn parse_url(s: &str) -> (r: Option<String>)
    ensures
        r is Some <==> parsed_url(s@) is Some,
        r matches Some(u) ==> parsed_url(s@) == Some(u@),
{
    match url::Url::parse(s) {
        Ok(u) => Some(String::from(u)),
        Err(_) => None,
    }
}

/// The text that asks for a login link.
pub open spec fn auth_command() -> Seq<char> {
    "/auth"@
}

/// The path under which a token is redeemed, as embedded in the reply.
pub open spec fn auth_path() -> Seq<char> {
    "/auth/"@
}

/// What one inbound text asks for.
pub enum Cmd {
    /// The auth command: issue a token.
    Auth,
    /// An absolute URL (in parsed, serialized form): save it.
    Save(Seq<char>),
    /// Anything else: do nothing.
    Ignore,
}

/// How an update's text is classified: the auth command word first, then
/// anything that parses as an absolute URL, all else ignored.
pub open spec fn classify_spec(text: Option<Seq<char>>) -> Cmd {
    match text {
        Some(t) => if t == auth_command() {
            Cmd::Auth
        } else {
            match parsed_url(t) {
                Some(u) => Cmd::Save(u),
                None => Cmd::Ignore,
            }
        },
        None => Cmd::Ignore,
    }
}

/// Executable classification of an update's text.
#[derive(Clone, Debug, PartialEq)]
pub enum Command {
    Auth,
    SaveUrl(String),
    Ignore,
}

impl View for Command {
    type V = Cmd;

    open spec fn view(&self) -> Cmd {
        match self {
            Command::Auth => Cmd::Auth,
            Command::SaveUrl(u) => Cmd::Save(u@),
            Command::Ignore => Cmd::Ignore,
        }
    }
}

/// Classifies one update's text.
pub fn classify(text: &Option<String>) -> (c: Command)
    ensures
        c@ == classify_spec(text.deep_view()),
{
    match text {
        Some(t) => {
            if *t == "/auth".to_owned() {
                Command::Auth
            } else {
                match parse_url(t.as_str()) {
                    Some(u) => Command::SaveUrl(u),
                    None => Command::Ignore,
                }
            }
        },
        None => Command::Ignore,
    }
}

/// Where the machine stands between two actions.
enum Phase {
    /// A fetch of updates is in flight.
    Fetching,
    /// A reply (login link or acknowledgement) is in flight.
    AwaitingSend,
    /// A title extraction for `url` is in flight.
    AwaitingExtract { chat_id: i64, url: String },
    /// A database insert for `chat_id`'s article is in flight.
    AwaitingPersist { chat_id: i64 },
}

/// Spec-level machine phase.
pub enum PhaseS {
    Fetching,
    AwaitingSend,
    AwaitingExtract { chat_id: i64, url: Seq<char> },
    AwaitingPersist { chat_id: i64 },
}

impl View for Phase {
    type V = PhaseS;

    closed spec fn view(&self) -> PhaseS {
        match self {
            Phase::Fetching => PhaseS::Fetching,
            Phase::AwaitingSend => PhaseS::AwaitingSend,
            Phase::AwaitingExtract { chat_id, url } => PhaseS::AwaitingExtract {
                chat_id: *chat_id,
                url: url@,
            },
            Phase::AwaitingPersist { chat_id } => PhaseS::AwaitingPersist { chat_id: *chat_id },
        }
    }
}

/// The outcome of the last action, reported back to the machine.
#[derive(Clone, Debug, PartialEq)]
pub enum PollEvent {
    /// The fetch returned this batch, in the order received.
    Updates(Vec<Update>),
    /// The fetch failed (network or API error).
    FetchFailed,
    /// The outbound message was sent.
    SendOk,
    /// The outbound message could not be sent.
    SendFailed,
    /// The page was fetched; a page without a title is not an error.
    Extracted(Option<String>),
    /// The page could not be fetched or read.
    ExtractFailed,
    /// The article was stored under this row identity.
    Persisted(i64),
    /// The article could not be stored.
    PersistFailed,
}

/// Spec-level event.
pub enum EventS {
    Updates(Seq<UpdateS>),
    FetchFailed,
    SendOk,
    SendFailed,
    Extracted(Option<Seq<char>>),
    ExtractFailed,
    Persisted(i64),
    PersistFailed,
}

impl View for PollEvent {
    type V = EventS;

    open spec fn view(&self) -> EventS {
        match self {
            PollEvent::Updates(v) => EventS::Updates(v@.map_values(|u: Update| u@)),
            PollEvent::FetchFailed => EventS::FetchFailed,
            PollEvent::SendOk => EventS::SendOk,
            PollEvent::SendFailed => EventS::SendFailed,
            PollEvent::Extracted(t) => EventS::Extracted(t.deep_view()),
            PollEvent::ExtractFailed => EventS::ExtractFailed,
            PollEvent::Persisted(id) => EventS::Persisted(*id),
            PollEvent::PersistFailed => EventS::PersistFailed,
        }
    }
}

/// The next piece of outside work the caller must perform.
#[derive(Clone, Debug, PartialEq)]
pub enum PollAction {
    /// Ask the messaging API for all updates with id at least `offset`.
    Fetch { offset: i64 },
    /// Send this message.
    Send { message: SendMessage },
    /// Fetch the page at `url` and extract its title.
    Extract { url: String },
    /// Store this article.
    Persist { article: ArticleData },
}

/// Spec-level action.
pub enum ActionS {
    Fetch { offset: int },
    Send { message: SendMessageS },
    Extract { url: Seq<char> },
    Persist { article: ArticleDataS },
}

impl View for PollAction {
    type V = ActionS;

    open spec fn view(&self) -> ActionS {
        match self {
            PollAction::Fetch { offset } => ActionS::Fetch { offset: *offset as int },
            PollAction::Send { message } => ActionS::Send { message: message@ },
            PollAction::Extract { url } => ActionS::Extract { url: url@ },
            PollAction::Persist { article } => ActionS::Persist { article: article@ },
        }
    }
}

/// Spec-level machine state.
pub struct PollerS {
    /// Id of the last update taken up for processing; `-1` before any.
    pub last_update_id: i64,
    /// The batch being worked through.
    pub batch: Seq<UpdateS>,
    /// How much of the batch has been taken up.
    pub next_idx: int,
    pub phase: PhaseS,
}

/// Result of one spec-level transition.
pub struct StepOut {
    pub state: PollerS,
    pub tokens: Map<Seq<char>, TokenInfo>,
    pub action: ActionS,
}

pub open spec fn poller_wf(p: PollerS) -> bool {
    &&& 0 <= p.next_idx <= p.batch.len()
    &&& -0x8000_0000 <= p.last_update_id <= 0x7fff_ffff
}

/// The machine's starting state: nothing fetched, offset at the lowest
/// value, so the first fetch asks for everything from id `0` on.
pub open spec fn initial_poller() -> PollerS {
    PollerS { last_update_id: -1i64, batch: Seq::empty(), next_idx: 0, phase: PhaseS::Fetching }
}

/// The reply that carries a fresh login link.
pub open spec fn auth_reply(chat_id: i64, base: Seq<char>, tok: Seq<char>) -> SendMessageS {
    SendMessageS {
        chat_id: dec_i64(chat_id as int),
        text: base + auth_path() + tok,
        parse_mode: Some(ParseMode::Markdown),
        reply_to_message_id: None,
    }
}

/// The acknowledgement sent after an article is stored.
pub open spec fn ack_reply(chat_id: i64) -> SendMessageS {
    SendMessageS {
        chat_id: dec_i64(chat_id as int),
        text: dec_i64(chat_id as int),
        parse_mode: None,
        reply_to_message_id: None,
    }
}

/// Works through the batch from `next_idx` on. Each update is taken up
/// exactly once, in order, and the offset moves past it *before* it is
/// processed, so a failure cannot hold the batch up. The walk pauses at
/// the first update that needs outside work (a reply to send, a page to
/// extract) and resumes when its outcome comes back; when the batch is
/// exhausted the machine asks for the next fetch.
pub open spec fn dispatch_spec(
    p: PollerS,
    toks: Map<Seq<char>, TokenInfo>,
    tok: Seq<char>,
    now: u64,
    ttl: u64,
    base: Seq<char>,
) -> StepOut
    decreases p.batch.len() - p.next_idx,
{
    if p.next_idx < 0 || p.next_idx >= p.batch.len() {
        StepOut {
            state: PollerS { phase: PhaseS::Fetching, ..p },
            tokens: toks,
            action: ActionS::Fetch { offset: p.last_update_id + 1 },
        }
    } else {
        let u = p.batch[p.next_idx];
        let p1 = PollerS { last_update_id: u.update_id as i64, next_idx: p.next_idx + 1, ..p };
        match classify_spec(u.text) {
            Cmd::Auth => {
                let toks1 = push_map(toks, u.chat_id, tok, now, ttl);
                if push_ok(toks, tok, now, ttl) {
                    StepOut {
                        state: PollerS { phase: PhaseS::AwaitingSend, ..p1 },
                        tokens: toks1,
                        action: ActionS::Send { message: auth_reply(u.chat_id, base, tok) },
                    }
                } else {
                    // A collision is this update's failure alone: it is
                    // logged by the caller and the walk goes on.
                    dispatch_spec(p1, toks1, tok, now, ttl, base)
                }
            },
            Cmd::Save(nurl) => StepOut {
                state: PollerS {
                    phase: PhaseS::AwaitingExtract { chat_id: u.chat_id, url: nurl },
                    ..p1
                },
                tokens: toks,
                action: ActionS::Extract { url: nurl },
            },
            Cmd::Ignore => dispatch_spec(p1, toks, tok, now, ttl, base),
        }
    }
}

/// Which events a state can take up.
pub open spec fn accepts_spec(p: PollerS, ev: EventS) -> bool {
    match p.phase {
        PhaseS::Fetching => ev is Updates || ev is FetchFailed,
        PhaseS::AwaitingSend => ev is SendOk || ev is SendFailed,
        PhaseS::AwaitingExtract { .. } => ev is Extracted || ev is ExtractFailed,
        PhaseS::AwaitingPersist { .. } => ev is Persisted || ev is PersistFailed,
    }
}

/// The machine's transition function: one event in, one action out.
///
/// A failed fetch is retried at the same offset; a failed send,
/// extraction or persistence is dropped and the walk resumes; an
/// extracted title is persisted before the acknowledgement is sent, and
/// no acknowledgement is sent when persistence failed.
pub open spec fn step_spec(
    p: PollerS,
    toks: Map<Seq<char>, TokenInfo>,
    ev: EventS,
    tok: Seq<char>,
    now: u64,
    ttl: u64,
    base: Seq<char>,
) -> StepOut {
    match (p.phase, ev) {
        (PhaseS::Fetching, EventS::Updates(batch)) => dispatch_spec(
            PollerS { batch, next_idx: 0, ..p },
            toks,
            tok,
            now,
            ttl,
            base,
        ),
        (PhaseS::Fetching, EventS::FetchFailed) => StepOut {
            state: p,
            tokens: toks,
            action: ActionS::Fetch { offset: p.last_update_id + 1 },
        },
        (PhaseS::AwaitingSend, EventS::SendOk) => dispatch_spec(p, toks, tok, now, ttl, base),
        (PhaseS::AwaitingSend, EventS::SendFailed) => dispatch_spec(p, toks, tok, now, ttl, base),
        (PhaseS::AwaitingExtract { chat_id, url }, EventS::Extracted(title)) => StepOut {
            state: PollerS { phase: PhaseS::AwaitingPersist { chat_id }, ..p },
            tokens: toks,
            action: ActionS::Persist {
                article: ArticleDataS { user_id: chat_id, url, title },
            },
        },
        (PhaseS::AwaitingExtract { .. }, EventS::ExtractFailed) => dispatch_spec(
            p,
            toks,
            tok,
            now,
            ttl,
            base,
        ),
        (PhaseS::AwaitingPersist { chat_id }, EventS::Persisted(_)) => StepOut {
            state: PollerS { phase: PhaseS::AwaitingSend, ..p },
            tokens: toks,
            action: ActionS::Send { message: ack_reply(chat_id) },
        },
        (PhaseS::AwaitingPersist { .. }, EventS::PersistFailed) => dispatch_spec(
            p,
            toks,
            tok,
            now,
            ttl,
            base,
        ),
        _ => StepOut {
            state: p,
            tokens: toks,
            action: ActionS::Fetch { offset: p.last_update_id + 1 },
        },
    }
}

/// The batch walk consumes a contiguous run of the batch, in order, each
/// update exactly once, and the offset tracks the update consumed last:
/// once an update has been taken up, the offset stands past it whether
/// or not its processing succeeds.
pub proof fn lemma_dispatch_offset(
    p: PollerS,
    toks: Map<Seq<char>, TokenInfo>,
    tok: Seq<char>,
    now: u64,
    ttl: u64,
    base: Seq<char>,
)
    requires
        0 <= p.next_idx <= p.batch.len(),
    ensures
        ({
            let r = dispatch_spec(p, toks, tok, now, ttl, base);
            &&& r.state.batch == p.batch
            &&& p.next_idx <= r.state.next_idx <= p.batch.len()
            &&& r.state.last_update_id == if r.state.next_idx == p.next_idx {
                p.last_update_id
            } else {
                p.batch[r.state.next_idx - 1].update_id as i64
            }
        }),
    decreases p.batch.len() - p.next_idx,
{
    if p.next_idx < p.batch.len() {
        let u = p.batch[p.next_idx];
        let p1 = PollerS { last_update_id: u.update_id as i64, next_idx: p.next_idx + 1, ..p };
        match classify_spec(u.text) {
            Cmd::Auth => {
                if !push_ok(toks, tok, now, ttl) {
                    lemma_dispatch_offset(
                        p1,
                        push_map(toks, u.chat_id, tok, now, ttl),
                        tok,
                        now,
                        ttl,
                        base,
                    );
                }
            },
            Cmd::Save(_) => {},
            Cmd::Ignore => {
                lemma_dispatch_offset(p1, toks, tok, now, ttl, base);
            },
        }
    }
}

/// Offset monotonicity: when a fetched batch carries only update ids past
/// the current offset — which is what the fetch asked for — taking the
/// batch up never moves the offset back, however each update's
/// processing fares.
pub proof fn lemma_step_offset_monotonic(
    p: PollerS,
    toks: Map<Seq<char>, TokenInfo>,
    batch: Seq<UpdateS>,
    tok: Seq<char>,
    now: u64,
    ttl: u64,
    base: Seq<char>,
)
    requires
        p.phase is Fetching,
        forall|i: int|
            0 <= i < batch.len() ==> (#[trigger] batch[i]).update_id as i64 > p.last_update_id,
    ensures
        step_spec(p, toks, EventS::Updates(batch), tok, now, ttl, base).state.last_update_id
            >= p.last_update_id,
{
    let p0 = PollerS { batch, next_idx: 0, ..p };
    lemma_dispatch_offset(p0, toks, tok, now, ttl, base);
}

/// The poll/process machine.
pub struct Poller {
    last_update_id: i64,
    batch: Vec<Update>,
    next_idx: usize,
    phase: Phase,
}

impl View for Poller {
    type V = PollerS;

    closed spec fn view(&self) -> PollerS {
        PollerS {
            last_update_id: self.last_update_id,
            batch: self.batch@.map_values(|u: Update| u@),
            next_idx: self.next_idx as int,
            phase: self.phase@,
        }
    }
}

impl Poller {
    pub open spec fn wf(self) -> bool {
        poller_wf(self@)
    }

    pub fn new() -> (p: Poller)
        ensures
            p.wf(),
            p@ == initial_poller(),
    {
        let p = Poller {
            last_update_id: -1,
            batch: Vec::new(),
            next_idx: 0,
            phase: Phase::Fetching,
        };
        proof {
            assert(p@.batch =~= initial_poller().batch);
            assert(p@ == initial_poller());
        }
        p
    }

    /// The offset the next fetch must ask for: one past the last update
    /// taken up.
    pub fn next_offset(&self) -> (o: i64)
        requires
            self.wf(),
        ensures
            o == self@.last_update_id + 1,
    {
        self.last_update_id + 1
    }

    /// Whether `event` answers what the machine is waiting for.
    pub fn accepts(&self, event: &PollEvent) -> (r: bool)
        ensures
            r == accepts_spec(self@, event@),
    {
        match (&self.phase, event) {
            (Phase::Fetching, PollEvent::Updates(_)) => true,
            (Phase::Fetching, PollEvent::FetchFailed) => true,
            (Phase::AwaitingSend, PollEvent::SendOk) => true,
            (Phase::AwaitingSend, PollEvent::SendFailed) => true,
            (Phase::AwaitingExtract { .. }, PollEvent::Extracted(_)) => true,
            (Phase::AwaitingExtract { .. }, PollEvent::ExtractFailed) => true,
            (Phase::AwaitingPersist { .. }, PollEvent::Persisted(_)) => true,
            (Phase::AwaitingPersist { .. }, PollEvent::PersistFailed) => true,
            _ => false,
        }
    }

    /// One transition: takes the outcome of the last action and returns
    /// the next action. `fresh_token` is a candidate token for an auth
    /// command in this step; `now` is the current time on the caller's
    /// clock; `base_url` is the public address embedded in login links.
    pub fn step(
        &mut self,
        tokens: &mut TokenStorage,
        event: PollEvent,
        fresh_token: String,
        now: u64,
        base_url: &str,
    ) -> (action: PollAction)
        requires
            old(self).wf(),
            old(tokens).wf(),
            accepts_spec(old(self)@, event@),
        ensures
            final(self).wf(),
            final(tokens).wf(),
            final(tokens).ttl() == old(tokens).ttl(),
            ({
                let r = step_spec(
                    old(self)@,
                    old(tokens)@,
                    event@,
                    fresh_token@,
                    now,
                    old(tokens).ttl(),
                    base_url@,
                );
                &&& final(self)@ == r.state
                &&& final(tokens)@ == r.tokens
                &&& action@ == r.action
            }),
    {
        match event {
            PollEvent::Updates(v) => {
                self.batch = v;
                self.next_idx = 0;
                self.dispatch(tokens, fresh_token, now, base_url)
            },
            PollEvent::FetchFailed => PollAction::Fetch { offset: self.last_update_id + 1 },
            PollEvent::SendOk => self.dispatch(tokens, fresh_token, now, base_url),
            PollEvent::SendFailed => self.dispatch(tokens, fresh_token, now, base_url),
            PollEvent::Extracted(title) => {
                let (chat_id, url) = match &self.phase {
                    Phase::AwaitingExtract { chat_id, url } => (*chat_id, url.clone()),
                    _ => {
                        proof {
                            assert(false);
                        }
                        (0i64, String::new())
                    },
                };
                self.phase = Phase::AwaitingPersist { chat_id };
                PollAction::Persist { article: ArticleData { user_id: chat_id, url, title } }
            },
            PollEvent::ExtractFailed => self.dispatch(tokens, fresh_token, now, base_url),
            PollEvent::Persisted(_) => {
                let chat_id = match &self.phase {
                    Phase::AwaitingPersist { chat_id } => *chat_id,
                    _ => {
                        proof {
                            assert(false);
                        }
                        0i64
                    },
                };
                self.phase = Phase::AwaitingSend;
                let rendered = i64_to_string(chat_id);
                let text = rendered.clone();
                PollAction::Send {
                    message: SendMessage {
                        chat_id: rendered,
                        text,
                        parse_mode: None,
                        reply_to_message_id: None,
                    },
                }
            },
            PollEvent::PersistFailed => self.dispatch(tokens, fresh_token, now, base_url),
        }
    }

    /// The batch walk behind `step`: consumes updates in order until one
    /// needs outside work or the batch is exhausted.
    fn dispatch(
        &mut self,
        tokens: &mut TokenStorage,
        fresh_token: String,
        now: u64,
        base_url: &str,
    ) -> (action: PollAction)
        requires
            old(self).wf(),
            old(tokens).wf(),
        ensures
            final(self).wf(),
            final(tokens).wf(),
            final(tokens).ttl() == old(tokens).ttl(),
            ({
                let r = dispatch_spec(
                    old(self)@,
                    old(tokens)@,
                    fresh_token@,
                    now,
                    old(tokens).ttl(),
                    base_url@,
                );
                &&& final(self)@ == r.state
                &&& final(tokens)@ == r.tokens
                &&& action@ == r.action
            }),
    {
        let ghost r = dispatch_spec(
            old(self)@,
            old(tokens)@,
            fresh_token@,
            now,
            old(tokens).ttl(),
            base_url@,
        );
        while self.next_idx < self.batch.len()
            invariant
                self.wf(),
                tokens.wf(),
                tokens.ttl() == old(tokens).ttl(),
                dispatch_spec(
                    self@,
                    tokens@,
                    fresh_token@,
                    now,
                    old(tokens).ttl(),
                    base_url@,
                ) == r,
            decreases self.batch.len() - self.next_idx,
        {
            let ghost pre = self@;
            let ghost u_spec = pre.batch[pre.next_idx];
            let chat_id = self.batch[self.next_idx].message.chat.id;
            let update_id = self.batch[self.next_idx].update_id;
            let cmd = classify(&self.batch[self.next_idx].message.text);
            proof {
                assert(pre.batch[pre.next_idx] == self.batch@[self.next_idx as int]@);
                assert(u_spec.update_id == update_id);
                assert(u_spec.chat_id == chat_id);
                assert(cmd@ == classify_spec(u_spec.text));
            }
            self.next_idx += 1;
            self.last_update_id = update_id as i64;
            let ghost p1 = PollerS {
                last_update_id: u_spec.update_id as i64,
                next_idx: pre.next_idx + 1,
                ..pre
            };
            proof {
                assert(self@ == p1);
            }
            match cmd {
                Command::Auth => {
                    let pushed = tokens.push(chat_id, fresh_token.clone(), now);
                    match pushed {
                        Ok(_) => {
                            self.phase = Phase::AwaitingSend;
                            let text = base_url.to_owned().concat("/auth/").concat(
                                fresh_token.as_str(),
                            );
                            let message = SendMessage {
                                chat_id: i64_to_string(chat_id),
                                text,
                                parse_mode: Some(ParseMode::Markdown),
                                reply_to_message_id: None,
                            };
                            proof {
                                assert(message@ == auth_reply(
                                    u_spec.chat_id,
                                    base_url@,
                                    fresh_token@,
                                ));
                                assert(self@ == PollerS { phase: PhaseS::AwaitingSend, ..p1 });
                            }
                            return PollAction::Send { message };
                        },
                        Err(_) => {
                            // Token collision: this update fails alone;
                            // the walk continues.
                        },
                    }
                },
                Command::SaveUrl(nurl) => {
                    let action_url = nurl.clone();
                    self.phase = Phase::AwaitingExtract { chat_id, url: nurl };
                    proof {
                        assert(self@ == PollerS {
                            phase: PhaseS::AwaitingExtract {
                                chat_id: u_spec.chat_id,
                                url: action_url@,
                            },
                            ..p1
                        });
                    }
                    return PollAction::Extract { url: action_url };
                },
                Command::Ignore => {},
            }
        }
        self.phase = Phase::Fetching;
        PollAction::Fetch { offset: self.last_update_id + 1 }
    }
}

} // verus!
