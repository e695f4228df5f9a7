use vstd::prelude::*;

verus! {

/// Upper bound on the tokens one generation emits.
pub const MAX_NEW_TOKENS: u32 = 200;

/// Context window of the decoding context, in tokens.
pub const CONTEXT_WINDOW: u32 = 2048;

/// Most tokens one decode batch holds; a longer prompt cannot be fed at once.
pub const BATCH_CAPACITY: u32 = 512;

/// Why a generation ended.
pub enum FinishReason {
    /// The engine sampled its end-of-sequence token.
    EndOfSequence,
    /// The bound on emitted tokens was reached.
    MaxTokens,
    /// The prompt could not be tokenized.
    Tokenization(String),
    /// The prompt gave no tokens, or more than one batch holds.
    PromptSize,
    /// The engine failed to decode a batch.
    Decode(String),
}

/// Where a generation stands.
pub enum GenPhase {
    /// The prompt is being tokenized.
    Tokenizing,
    /// The `n_prompt` prompt tokens are being decoded in one batch, at
    /// positions `0 .. n_prompt`.
    DecodingPrompt { n_prompt: u32 },
    /// The next token is being sampled greedily; `cursor` is the position it
    /// will take.
    Sampling { cursor: u32 },
    /// The sampled `token` has been emitted and is being decoded at `cursor`.
    Feeding { token: i32, cursor: u32 },
    Finished(FinishReason),
}

/// What the host must do next for a generation.
#[derive(Clone, Copy, PartialEq, Eq, Structural, Debug)]
pub enum GenAction {
    Tokenize,
    DecodePrompt { n_prompt: u32 },
    SampleNext,
    /// Emit `chat-token` with the text of `token`, then decode it at `position`.
    EmitAndDecode { token: i32, position: u32 },
    /// Emit `chat-finished`; the generation is over.
    Finish,
}

/// The outcome of the host's last action.
pub enum GenInput {
    /// The prompt gave this many tokens, or could not be tokenized.
    Tokenized(Result<u32, String>),
    /// A batch was decoded, or the engine failed.
    Decoded(Result<(), String>),
    /// The greedy pick over the current logits, and whether it is the
    /// engine's end-of-sequence token.
    Sampled { token: i32, is_eos: bool },
}

pub struct GenView {
    pub phase: GenPhase,
    /// The tokens emitted so far, in generation order.
    pub emitted: Seq<i32>,
}

/// One transition of a generation. An input that does not belong to the
/// current phase leaves it unchanged.
pub open spec fn gen_step(v: GenView, input: GenInput) -> GenView {
    match (v.phase, input) {
        (GenPhase::Tokenizing, GenInput::Tokenized(res)) => match res {
            Ok(n) => if 0 < n <= BATCH_CAPACITY {
                GenView { phase: GenPhase::DecodingPrompt { n_prompt: n }, ..v }
            } else {
                GenView { phase: GenPhase::Finished(FinishReason::PromptSize), ..v }
            },
            Err(e) => GenView { phase: GenPhase::Finished(FinishReason::Tokenization(e)), ..v },
        },
        (GenPhase::DecodingPrompt { n_prompt }, GenInput::Decoded(res)) => match res {
            Ok(_) => GenView { phase: GenPhase::Sampling { cursor: n_prompt }, ..v },
            Err(e) => GenView { phase: GenPhase::Finished(FinishReason::Decode(e)), ..v },
        },
        (GenPhase::Sampling { cursor }, GenInput::Sampled { token, is_eos }) => {
            if is_eos {
                GenView { phase: GenPhase::Finished(FinishReason::EndOfSequence), ..v }
            } else {
                GenView { phase: GenPhase::Feeding { token, cursor }, emitted: v.emitted.push(token) }
            }
        },
        (GenPhase::Feeding { token, cursor }, GenInput::Decoded(res)) => match res {
            Ok(_) => if v.emitted.len() >= MAX_NEW_TOKENS {
                GenView { phase: GenPhase::Finished(FinishReason::MaxTokens), ..v }
            } else {
                GenView { phase: GenPhase::Sampling { cursor: (cursor + 1) as u32 }, ..v }
            },
            Err(e) => GenView { phase: GenPhase::Finished(FinishReason::Decode(e)), ..v },
        },
        _ => v,
    }
}

/// The action that a phase asks of the host.
pub open spec fn gen_action_of(p: GenPhase) -> GenAction {
    match p {
        GenPhase::Tokenizing => GenAction::Tokenize,
        GenPhase::DecodingPrompt { n_prompt } => GenAction::DecodePrompt { n_prompt },
        GenPhase::Sampling { .. } => GenAction::SampleNext,
        GenPhase::Feeding { token, cursor } => GenAction::EmitAndDecode { token, position: cursor },
        GenPhase::Finished(_) => GenAction::Finish,
    }
}

/// The invariant of a generation: at most the bound of tokens is emitted, and
/// the cursor is the prompt length plus the tokens emitted before it.
pub open spec fn gen_wf(v: GenView) -> bool {
    &&& v.emitted.len() <= MAX_NEW_TOKENS
    &&& match v.phase {
        GenPhase::Tokenizing => v.emitted.len() == 0,
        GenPhase::DecodingPrompt { n_prompt } => v.emitted.len() == 0 && 0 < n_prompt
            <= BATCH_CAPACITY,
        GenPhase::Sampling { cursor } => v.emitted.len() < MAX_NEW_TOKENS && v.emitted.len()
            < cursor <= BATCH_CAPACITY + v.emitted.len() || (v.emitted.len() == 0 && 0 < cursor
            <= BATCH_CAPACITY),
        GenPhase::Feeding { token, cursor } => v.emitted.len() > 0 && v.emitted.last() == token
            && v.emitted.len() <= cursor < BATCH_CAPACITY + v.emitted.len(),
        GenPhase::Finished(_) => true,
    }
}

/// The generation after each input in turn.
pub open spec fn gen_run(v: GenView, inputs: Seq<GenInput>) -> GenView
    decreases inputs.len(),
{
    if inputs.len() == 0 {
        v
    } else {
        gen_step(gen_run(v, inputs.drop_last()), inputs.last())
    }
}

pub open spec fn gen_start() -> GenView {
    GenView { phase: GenPhase::Tokenizing, emitted: Seq::empty() }
}

pub open spec fn is_finished(p: GenPhase) -> bool {
    p is Finished
}

/// Every transition keeps the invariant, only appends to the emitted
/// tokens, and leaves a finished generation as it is.
pub proof fn lemma_gen_step(v: GenView, input: GenInput)
    requires
        gen_wf(v),
    ensures
        gen_wf(gen_step(v, input)),
        v.emitted.is_prefix_of(gen_step(v, input).emitted),
        is_finished(v.phase) ==> gen_step(v, input) == v,
        gen_step(v, input).emitted.len() > v.emitted.len() ==> !is_finished(v.phase)
            && gen_step(v, input).emitted.len() == v.emitted.len() + 1,
{
    let w = gen_step(v, input);
    assert(v.emitted =~= w.emitted.subrange(0, v.emitted.len() as int));
}

/// Whatever the engine does, a generation emits at most 200 tokens and never
/// emits one after it has finished.
pub proof fn lemma_generation_bound(inputs: Seq<GenInput>)
    ensures
        gen_wf(gen_run(gen_start(), inputs)),
        gen_run(gen_start(), inputs).emitted.len() <= MAX_NEW_TOKENS,
        is_finished(gen_run(gen_start(), inputs).phase) ==> forall|later: Seq<GenInput>|
            gen_run(gen_run(gen_start(), inputs), later) == gen_run(gen_start(), inputs),
    decreases inputs.len(),
{
    if inputs.len() > 0 {
        lemma_generation_bound(inputs.drop_last());
        lemma_gen_step(gen_run(gen_start(), inputs.drop_last()), inputs.last());
    }
    let v = gen_run(gen_start(), inputs);
    if is_finished(v.phase) {
        assert forall|later: Seq<GenInput>| gen_run(v, later) == v by {
            lemma_finished_is_final(v, later);
        }
    }
}

/// Sampling the end-of-sequence token ends a generation without emitting it.
pub proof fn lemma_eos_stops(v: GenView, token: i32)
    requires
        v.phase is Sampling,
    ensures
        gen_step(v, GenInput::Sampled { token, is_eos: true }).emitted == v.emitted,
        gen_step(v, GenInput::Sampled { token, is_eos: true }).phase matches GenPhase::Finished(
            FinishReason::EndOfSequence,
        ),
{
}

/// A finished generation is final: no input changes it.
pub proof fn lemma_finished_is_final(v: GenView, later: Seq<GenInput>)
    requires
        is_finished(v.phase),
    ensures
        gen_run(v, later) == v,
    decreases later.len(),
{
    if later.len() > 0 {
        lemma_finished_is_final(v, later.drop_last());
    }
}

/// One call of `generate`: the session between a prompt and its terminal event.
pub struct GenerationSession {
    phase: GenPhase,
    emitted: Vec<i32>,
}

impl View for GenerationSession {
    type V = GenView;

    closed spec fn view(&self) -> GenView {
        GenView { phase: self.phase, emitted: self.emitted@ }
    }
}

fn clone_reason(r: &FinishReason) -> (c: FinishReason)
    ensures
        c == *r,
{
    match r {
        FinishReason::EndOfSequence => FinishReason::EndOfSequence,
        FinishReason::MaxTokens => FinishReason::MaxTokens,
        FinishReason::Tokenization(s) => FinishReason::Tokenization(s.clone()),
        FinishReason::PromptSize => FinishReason::PromptSize,
        FinishReason::Decode(s) => FinishReason::Decode(s.clone()),
    }
}

impl GenerationSession {
    /// A generation begins by tokenizing its prompt.
    pub fn new() -> (r: GenerationSession)
        ensures
            r@ == gen_start(),
            gen_wf(r@),
    {
        let r = GenerationSession { phase: GenPhase::Tokenizing, emitted: Vec::new() };
        assert(r@.emitted =~= gen_start().emitted);
        r
    }

    /// Takes the outcome of the host's last action.
    pub fn advance(&mut self, input: GenInput)
        requires
            gen_wf(old(self)@),
        ensures
            final(self)@ == gen_step(old(self)@, input),
            gen_wf(final(self)@),
    {
        proof {
            lemma_gen_step(self@, input);
        }
        let next = match (&self.phase, input) {
            (GenPhase::Tokenizing, GenInput::Tokenized(res)) => match res {
                Ok(n) => if 0 < n && n <= BATCH_CAPACITY {
                    GenPhase::DecodingPrompt { n_prompt: n }
                } else {
                    GenPhase::Finished(FinishReason::PromptSize)
                },
                Err(e) => GenPhase::Finished(FinishReason::Tokenization(e)),
            },
            (GenPhase::DecodingPrompt { n_prompt }, GenInput::Decoded(res)) => match res {
                Ok(_) => GenPhase::Sampling { cursor: *n_prompt },
                Err(e) => GenPhase::Finished(FinishReason::Decode(e)),
            },
            (GenPhase::Sampling { cursor }, GenInput::Sampled { token, is_eos }) => {
                if is_eos {
                    GenPhase::Finished(FinishReason::EndOfSequence)
                } else {
                    let c = *cursor;
                    self.emitted.push(token);
                    GenPhase::Feeding { token, cursor: c }
                }
            },
            (GenPhase::Feeding { token, cursor }, GenInput::Decoded(res)) => match res {
                Ok(_) => if self.emitted.len() >= MAX_NEW_TOKENS as usize {
                    GenPhase::Finished(FinishReason::MaxTokens)
                } else {
                    GenPhase::Sampling { cursor: *cursor + 1 }
                },
                Err(e) => GenPhase::Finished(FinishReason::Decode(e)),
            },
            (GenPhase::Tokenizing, _) => GenPhase::Tokenizing,
            (GenPhase::DecodingPrompt { n_prompt }, _) => GenPhase::DecodingPrompt { n_prompt: *n_prompt },
            (GenPhase::Sampling { cursor }, _) => GenPhase::Sampling { cursor: *cursor },
            (GenPhase::Feeding { token, cursor }, _) => GenPhase::Feeding { token: *token, cursor: *cursor },
            (GenPhase::Finished(r), _) => GenPhase::Finished(clone_reason(r)),
        };
        self.phase = next;
    }

    /// What the host must do next.
    pub fn next_action(&self) -> (r: GenAction)
        ensures
            r == gen_action_of(self@.phase),
    {
        match &self.phase {
            GenPhase::Tokenizing => GenAction::Tokenize,
            GenPhase::DecodingPrompt { n_prompt } => GenAction::DecodePrompt { n_prompt: *n_prompt },
            GenPhase::Sampling { .. } => GenAction::SampleNext,
            GenPhase::Feeding { token, cursor } => GenAction::EmitAndDecode { token: *token, position: *cursor },
            GenPhase::Finished(_) => GenAction::Finish,
        }
    }

    /// Why the generation ended, once it has.
    pub fn finish_reason(&self) -> (r: Option<FinishReason>)
        ensures
            r == (match self@.phase {
                GenPhase::Finished(reason) => Some(reason),
                _ => None,
            }),
    {
        match &self.phase {
            GenPhase::Finished(reason) => Some(clone_reason(reason)),
            _ => None,
        }
    }

    /// The tokens emitted so far, in generation order.
    pub fn emitted(&self) -> (r: &Vec<i32>)
        ensures
            r@ == self@.emitted,
    {
        &self.emitted
    }
}

/// Why loading a model failed.
pub enum LoadError {
    /// No weights file at the given path.
    NotFound,
    /// The engine could not load the weights.
    Model(String),
    /// The engine could not create a decoding context.
    Context(String),
}

/// The engine's loaded model, if any, by the path it was loaded from.
pub struct InferenceState {
    loaded: Option<String>,
}

impl View for InferenceState {
    type V = Option<Seq<char>>;

    closed spec fn view(&self) -> Option<Seq<char>> {
        match self.loaded {
            Some(p) => Some(p@),
            None => None,
        }
    }
}

/// The outcome of a load: the file check, then the weights, then the context.
pub open spec fn load_outcome(
    file_present: bool,
    model: Result<(), String>,
    context: Result<(), String>,
) -> Result<(), LoadError> {
    if !file_present {
        Err(LoadError::NotFound)
    } else {
        match model {
            Err(e) => Err(LoadError::Model(e)),
            Ok(_) => match context {
                Err(e) => Err(LoadError::Context(e)),
                Ok(_) => Ok(()),
            },
        }
    }
}

impl InferenceState {
    /// No model loaded.
    pub fn new() -> (r: InferenceState)
        ensures
            r@ == None::<Seq<char>>,
    {
        InferenceState { loaded: None }
    }

    /// Records the outcome of loading the model at `path`: the loaded model
    /// is replaced only when the file exists and both the weights and the
    /// decoding context were created; otherwise the previous one stays.
    pub fn load_model(
        &mut self,
        path: String,
        file_present: bool,
        model: Result<(), String>,
        context: Result<(), String>,
    ) -> (r: Result<(), LoadError>)
        ensures
            r == load_outcome(file_present, model, context),
            r is Ok ==> final(self)@ == Some(path@),
            r is Err ==> final(self)@ == old(self)@,
    {
        if !file_present {
            return Err(LoadError::NotFound);
        }
        match model {
            Err(e) => Err(LoadError::Model(e)),
            Ok(_) => match context {
                Err(e) => Err(LoadError::Context(e)),
                Ok(_) => {
                    self.loaded = Some(path);
                    Ok(())
                },
            },
        }
    }

    /// The path of the loaded model.
    pub fn loaded_path(&self) -> (r: Option<&String>)
        ensures
            match r {
                Some(p) => self@ == Some(p@),
                None => self@ is None,
            },
    {
        self.loaded.as_ref()
    }
}

/// One chat event as the host delivers it: the generation it belongs to, and
/// whether it is that generation's `chat-finished` event (else a `chat-token`).
#[derive(Clone, Copy, PartialEq, Eq, Structural, Debug)]
pub struct ChatRecord {
    pub session: u64,
    pub finished: bool,
}

/// The channel through which generations deliver their events: one generation
/// holds it from its first event to its `chat-finished`, and only the holder
/// delivers. The delivered events are kept as a ghost record.
pub struct ChatChannel {
    holder: Option<u64>,
    log: Ghost<Seq<ChatRecord>>,
}

pub struct ChatChannelView {
    pub holder: Option<u64>,
    pub log: Seq<ChatRecord>,
}

impl View for ChatChannel {
    type V = ChatChannelView;

    closed spec fn view(&self) -> ChatChannelView {
        ChatChannelView { holder: self.holder, log: self.log@ }
    }
}

/// The event at `i` is followed, at `i` or later and before `end`, by its
/// generation's `chat-finished`.
pub open spec fn closed_before(log: Seq<ChatRecord>, i: int, end: int) -> bool {
    exists|m: int|
        i <= m < end && #[trigger] log[m] == (ChatRecord { session: log[i].session, finished: true })
}

/// No two generations interleave: once an event of another generation
/// appears, the earlier one has delivered its `chat-finished`.
pub open spec fn never_interleaved(log: Seq<ChatRecord>) -> bool {
    forall|i: int, j: int|
        0 <= i < j < log.len() && #[trigger] log[i].session != #[trigger] log[j].session
            ==> closed_before(log, i, j)
}

/// The invariant of the channel: events of every generation but the holder are closed.
pub open spec fn channel_wf(g: ChatChannelView) -> bool {
    &&& never_interleaved(g.log)
    &&& forall|i: int|
        0 <= i < g.log.len() && g.holder != Some(#[trigger] g.log[i].session) ==> closed_before(
            g.log,
            i,
            g.log.len() as int,
        )
}

proof fn lemma_closed_extends(log: Seq<ChatRecord>, r: ChatRecord, i: int, end: int)
    requires
        closed_before(log, i, end),
        0 <= i,
        end <= log.len(),
    ensures
        closed_before(log.push(r), i, end),
{
    let m = choose|m: int|
        i <= m < end && #[trigger] log[m] == (ChatRecord { session: log[i].session, finished: true });
    assert(log.push(r)[m] == log[m]);
    assert(log.push(r)[i] == log[i]);
}

impl ChatChannel {
    /// A free channel with no events delivered.
    pub fn new() -> (r: ChatChannel)
        ensures
            r@.holder is None,
            r@.log.len() == 0,
            channel_wf(r@),
    {
        ChatChannel { holder: None, log: Ghost(Seq::empty()) }
    }

    /// Takes the channel for `session` when it is free, or already held by it.
    pub fn acquire(&mut self, session: u64) -> (r: bool)
        requires
            channel_wf(old(self)@),
        ensures
            r == (old(self)@.holder is None || old(self)@.holder == Some(session)),
            r ==> final(self)@.holder == Some(session),
            !r ==> final(self)@ == old(self)@,
            final(self)@.log == old(self)@.log,
            channel_wf(final(self)@),
    {
        match self.holder {
            None => {
                self.holder = Some(session);
                true
            },
            Some(h) => h == session,
        }
    }

    /// The generation that holds the channel.
    pub fn holder(&self) -> (r: Option<u64>)
        ensures
            r == self@.holder,
    {
        self.holder
    }

    /// Delivers an event of `session` when it holds the channel; a
    /// `chat-finished` event frees the channel.
    pub fn deliver(&mut self, session: u64, finished: bool) -> (r: bool)
        requires
            channel_wf(old(self)@),
        ensures
            r == (old(self)@.holder == Some(session)),
            r ==> final(self)@.log == old(self)@.log.push(ChatRecord { session, finished }),
            r ==> final(self)@.holder == (if finished {
                None
            } else {
                Some(session)
            }),
            !r ==> final(self)@ == old(self)@,
            channel_wf(final(self)@),
    {
        match self.holder {
            Some(h) => {
                if h != session {
                    return false;
                }
            },
            None => {
                return false;
            },
        }
        let ghost old_log = self.log@;
        let rec = ChatRecord { session, finished };
        self.log = Ghost(old_log.push(rec));
        if finished {
            self.holder = None;
        }
        proof {
            let log = self.log@;
            let n = old_log.len() as int;
            assert(log == old_log.push(rec));
            assert forall|i: int, j: int|
                0 <= i < j < log.len() && #[trigger] log[i].session != #[trigger] log[j].session
                    implies closed_before(log, i, j) by {
                if j < n {
                    assert(old_log[i] == log[i] && old_log[j] == log[j]);
                    assert(closed_before(old_log, i, j));
                    lemma_closed_extends(old_log, rec, i, j);
                } else {
                    assert(old_log[i] == log[i]);
                    assert(closed_before(old_log, i, n));
                    lemma_closed_extends(old_log, rec, i, n);
                }
            }
            assert forall|i: int|
                0 <= i < log.len() && self.holder != Some(#[trigger] log[i].session)
                    implies closed_before(log, i, log.len() as int) by {
                if i < n && log[i].session != session {
                    assert(old_log[i] == log[i]);
                    assert(closed_before(old_log, i, n));
                    lemma_closed_extends(old_log, rec, i, n);
                    let m = choose|m: int|
                        i <= m < n && #[trigger] log[m] == (ChatRecord {
                            session: log[i].session,
                            finished: true,
                        });
                    assert(i <= m < log.len());
                } else {
                    assert(log[n] == (ChatRecord { session: log[i].session, finished: true }));
                }
            }
        }
        true
    }
}

/// Whatever sequence of deliveries generations attempt through a channel, the
/// delivered events of two generations never interleave: an event of one
/// generation comes after another's only once that one has finished.
pub proof fn lemma_generations_exclusive(g: ChatChannelView)
    requires
        channel_wf(g),
    ensures
        forall|i: int, j: int|
            0 <= i < j < g.log.len() && #[trigger] g.log[i].session != #[trigger] g.log[j].session
                ==> exists|m: int|
                i <= m < j && #[trigger] g.log[m] == (ChatRecord {
                    session: g.log[i].session,
                    finished: true,
                }),
{
}

} // verus!
