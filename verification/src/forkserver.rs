//! The forkserver loop driver: the handshake with the supervisor and the
//! endless exchange of kill flag, child pid and exit status that follows.
//!
//! The driver performs no input or output. It hands out one [`Action`] at a
//! time; the caller carries it out and reports what happened as an
//! [`Event`]. The lifecycle manager is reached the same way, through the
//! actions `PreFuzzing`, `SpawnChild` and `HandleChildRequests`.

use vstd::prelude::*;
use crate::error::Error;
use crate::guard::OnceGuard;
use crate::lifecycle::ForkResult;
use crate::wire::{
    accept_read, accept_write, advance_blob, blob_verdict, encode_word, read_verdict, word_bytes,
    write_verdict, ByteOrder, FS_NEW_OPT_AUTODTCT, FS_NEW_OPT_MAPSIZE, FS_NEW_OPT_SHDMEM_FUZZ,
    VERSION, WORD_LEN,
};

verus! {

/// How a started forkserver hands control back.
#[derive(Clone, Copy, Debug, PartialEq, Eq, Structural)]
pub enum ForkserverState {
    /// No supervisor answered: run the target once, directly.
    NoAfl,
    /// This process is a freshly forked child: run the target now.
    Child,
}

/// What the handshake announces.
#[derive(Debug, PartialEq, Eq)]
pub struct Settings {
    /// Byte order of the control words: that of this machine.
    pub order: ByteOrder,
    /// Size of the coverage map in bytes.
    pub map_size: u32,
    /// Whether test cases arrive through the input-delivery segment.
    pub shared_memory_fuzzing: bool,
    /// The token dictionary collected at build time, where there is one.
    pub auto_tokens: Option<Vec<u8>>,
}

/// [`Settings`] as a mathematical value.
pub ghost struct SettingsModel {
    pub order: ByteOrder,
    pub map_size: u32,
    pub shared_memory_fuzzing: bool,
    pub auto_tokens: Option<Seq<u8>>,
}

impl View for Settings {
    type V = SettingsModel;

    open spec fn view(&self) -> SettingsModel {
        SettingsModel {
            order: self.order,
            map_size: self.map_size,
            shared_memory_fuzzing: self.shared_memory_fuzzing,
            auto_tokens: match self.auto_tokens {
                Some(tokens) => Some(tokens@),
                None => None,
            },
        }
    }
}

impl SettingsModel {
    /// The length of the token dictionary fits the word that announces it.
    pub open spec fn wf(self) -> bool {
        self.auto_tokens matches Some(tokens) ==> tokens.len() <= u32::MAX
    }
}

/// What the caller is asked to do next.
#[derive(Debug, PartialEq, Eq)]
pub enum Action {
    /// Write these bytes to the supervisor, in one call; report `Wrote`.
    Write(Vec<u8>),
    /// Read one control word from the supervisor; report `Read`.
    Read,
    /// Run the lifecycle manager's `pre_fuzzing`; report `PreFuzzed`.
    PreFuzzing,
    /// Run the lifecycle manager's `spawn_child`; report `Spawned`.
    SpawnChild { was_killed: bool },
    /// Run the lifecycle manager's `handle_child_requests`; report
    /// `ChildStatus`.
    HandleChildRequests,
    /// Close both descriptors of the control channel; report `PipesClosed`.
    ClosePipes,
    /// The forkserver is over: hand this to whoever started it.
    Return(Result<ForkserverState, Error>),
    /// The event does not answer the action handed out last; nothing
    /// changed.
    Failed(Error),
}

/// [`Action`] as a mathematical value.
pub ghost enum ActionModel {
    Write(Seq<u8>),
    Read,
    PreFuzzing,
    SpawnChild { was_killed: bool },
    HandleChildRequests,
    ClosePipes,
    Return(Result<ForkserverState, Error>),
    Failed(Error),
}

impl View for Action {
    type V = ActionModel;

    open spec fn view(&self) -> ActionModel {
        match *self {
            Action::Write(bytes) => ActionModel::Write(bytes@),
            Action::Read => ActionModel::Read,
            Action::PreFuzzing => ActionModel::PreFuzzing,
            Action::SpawnChild { was_killed } => ActionModel::SpawnChild { was_killed },
            Action::HandleChildRequests => ActionModel::HandleChildRequests,
            Action::ClosePipes => ActionModel::ClosePipes,
            Action::Return(result) => ActionModel::Return(result),
            Action::Failed(error) => ActionModel::Failed(error),
        }
    }
}

/// What happened when the caller carried out an action.
#[derive(Debug, PartialEq, Eq)]
pub enum Event {
    /// A write took this many bytes, or failed with `errno`.
    Wrote(Result<usize, i32>),
    /// A read delivered these bytes, or failed with `errno`.
    Read(Result<Vec<u8>, i32>),
    /// `pre_fuzzing` ended.
    PreFuzzed(Result<(), Error>),
    /// `spawn_child` ended.
    Spawned(Result<ForkResult, Error>),
    /// `handle_child_requests` ended with the child's raw wait status.
    ChildStatus(Result<i32, Error>),
    /// Both descriptors are closed.
    PipesClosed,
}

/// [`Event`] as a mathematical value.
pub ghost enum EventModel {
    Wrote(Result<usize, i32>),
    Read(Result<Seq<u8>, i32>),
    PreFuzzed(Result<(), Error>),
    Spawned(Result<ForkResult, Error>),
    ChildStatus(Result<i32, Error>),
    PipesClosed,
}

impl View for Event {
    type V = EventModel;

    open spec fn view(&self) -> EventModel {
        match *self {
            Event::Wrote(outcome) => EventModel::Wrote(outcome),
            Event::Read(outcome) => EventModel::Read(
                match outcome {
                    Ok(bytes) => Ok(bytes@),
                    Err(errno) => Err(errno),
                },
            ),
            Event::PreFuzzed(result) => EventModel::PreFuzzed(result),
            Event::Spawned(result) => EventModel::Spawned(result),
            Event::ChildStatus(result) => EventModel::ChildStatus(result),
            Event::PipesClosed => EventModel::PipesClosed,
        }
    }
}

/// Where the driver stands: what was handed out last.
#[derive(Clone, Copy, Debug, PartialEq, Eq, Structural)]
pub enum Stage {
    /// The opening version word is being written.
    Hello,
    /// The supervisor's reply is being read.
    Reply,
    /// The capability word is being written.
    Options,
    /// The map size is being written.
    MapSize,
    /// The length of the token dictionary is being written.
    TokensLen,
    /// The token dictionary is being written; `sent` bytes are out.
    Tokens { sent: usize },
    /// The closing version word is being written.
    Ready,
    /// The lifecycle manager prepares for the loop.
    PreFuzzing,
    /// A kill flag is being read.
    KillFlag,
    /// The lifecycle manager obtains a child.
    Spawning,
    /// In the child: the control channel is being closed.
    ClosingPipes,
    /// The child's pid is being written.
    ChildPid,
    /// The lifecycle manager waits for the child.
    Waiting,
    /// The child's wait status is being written.
    Status,
    /// `Return` was handed out.
    Finished,
}

/// The word the supervisor must answer the opening word with.
pub open spec fn expected_reply() -> u32 {
    VERSION ^ 0xFFFF_FFFF
}

/// The capability word for the given features. The map size is always
/// announced.
pub open spec fn capability_word(shared_memory_fuzzing: bool, auto_tokens: bool) -> u32 {
    FS_NEW_OPT_MAPSIZE | (if shared_memory_fuzzing {
        FS_NEW_OPT_SHDMEM_FUZZ
    } else {
        0
    }) | (if auto_tokens {
        FS_NEW_OPT_AUTODTCT
    } else {
        0
    })
}

/// The driver as a mathematical value.
pub ghost struct DriverModel {
    pub settings: SettingsModel,
    pub stage: Stage,
}

impl DriverModel {
    /// The driver right after it handed out the opening word.
    pub open spec fn initial(settings: SettingsModel) -> DriverModel {
        DriverModel { settings, stage: Stage::Hello }
    }

    /// The first action: write the version word.
    pub open spec fn first_action(settings: SettingsModel) -> ActionModel {
        ActionModel::Write(word_bytes(settings.order, VERSION))
    }

    /// What holds of the driver at all times.
    pub open spec fn wf(self) -> bool {
        &&& self.settings.wf()
        &&& self.stage matches Stage::Tokens { sent } ==> {
            &&& self.settings.auto_tokens matches Some(tokens)
            &&& sent < tokens.len()
        }
        &&& self.stage == Stage::TokensLen ==> self.settings.auto_tokens is Some
    }

    /// Moves to `stage` and asks for `word` to be written.
    pub open spec fn send(self, stage: Stage, word: u32) -> (DriverModel, ActionModel) {
        (
            DriverModel { stage, ..self },
            ActionModel::Write(word_bytes(self.settings.order, word)),
        )
    }

    /// Moves to `stage` and asks for `action`.
    pub open spec fn ask(self, stage: Stage, action: ActionModel) -> (DriverModel, ActionModel) {
        (DriverModel { stage, ..self }, action)
    }

    /// Ends the forkserver with `result`.
    pub open spec fn end(self, result: Result<ForkserverState, Error>) -> (
        DriverModel,
        ActionModel,
    ) {
        (DriverModel { stage: Stage::Finished, ..self }, ActionModel::Return(result))
    }

    /// After the map size: the token dictionary where there is one, else
    /// the closing word.
    pub open spec fn after_map_size(self) -> (DriverModel, ActionModel) {
        match self.settings.auto_tokens {
            Some(tokens) => self.send(Stage::TokensLen, tokens.len() as u32),
            None => self.send(Stage::Ready, VERSION),
        }
    }

    /// After `sent` bytes of the token dictionary: the rest of it, or the
    /// closing word when nothing is left.
    pub open spec fn after_tokens(self, sent: usize) -> (DriverModel, ActionModel) {
        match self.settings.auto_tokens {
            Some(tokens) => if sent < tokens.len() {
                self.ask(Stage::Tokens { sent }, ActionModel::Write(tokens.skip(sent as int)))
            } else {
                self.send(Stage::Ready, VERSION)
            },
            None => self.send(Stage::Ready, VERSION),
        }
    }

    /// The driver's answer to `event`.
    pub open spec fn step(self, event: EventModel) -> (DriverModel, ActionModel) {
        match (self.stage, event) {
            (Stage::Hello, EventModel::Wrote(outcome)) => match write_verdict(WORD_LEN, outcome) {
                Ok(_) => self.ask(Stage::Reply, ActionModel::Read),
                Err(_) => self.end(Ok(ForkserverState::NoAfl)),
            },
            (Stage::Reply, EventModel::Read(outcome)) => match read_verdict(
                self.settings.order,
                outcome,
            ) {
                Ok(reply) => if reply == expected_reply() {
                    self.send(
                        Stage::Options,
                        capability_word(
                            self.settings.shared_memory_fuzzing,
                            self.settings.auto_tokens is Some,
                        ),
                    )
                } else {
                    self.end(Err(Error::Protocol))
                },
                Err(error) => self.end(Err(error)),
            },
            (Stage::Options, EventModel::Wrote(outcome)) => match write_verdict(
                WORD_LEN,
                outcome,
            ) {
                Ok(_) => self.send(Stage::MapSize, self.settings.map_size),
                Err(error) => self.end(Err(error)),
            },
            (Stage::MapSize, EventModel::Wrote(outcome)) => match write_verdict(
                WORD_LEN,
                outcome,
            ) {
                Ok(_) => self.after_map_size(),
                Err(error) => self.end(Err(error)),
            },
            (Stage::TokensLen, EventModel::Wrote(outcome)) => match write_verdict(
                WORD_LEN,
                outcome,
            ) {
                Ok(_) => self.after_tokens(0),
                Err(error) => self.end(Err(error)),
            },
            (Stage::Tokens { sent }, EventModel::Wrote(outcome)) => match self.settings.auto_tokens {
                Some(tokens) => match blob_verdict(tokens.len() as usize, sent, outcome) {
                    Ok(now) => self.after_tokens(now),
                    Err(error) => self.end(Err(error)),
                },
                None => self.end(Err(Error::IllegalState)),
            },
            (Stage::Ready, EventModel::Wrote(outcome)) => match write_verdict(WORD_LEN, outcome) {
                Ok(_) => self.ask(Stage::PreFuzzing, ActionModel::PreFuzzing),
                Err(error) => self.end(Err(error)),
            },
            (Stage::PreFuzzing, EventModel::PreFuzzed(result)) => match result {
                Ok(_) => self.ask(Stage::KillFlag, ActionModel::Read),
                Err(error) => self.end(Err(error)),
            },
            (Stage::KillFlag, EventModel::Read(outcome)) => match read_verdict(
                self.settings.order,
                outcome,
            ) {
                Ok(flag) => self.ask(
                    Stage::Spawning,
                    ActionModel::SpawnChild { was_killed: flag != 0 },
                ),
                Err(error) => self.end(Err(error)),
            },
            (Stage::Spawning, EventModel::Spawned(result)) => match result {
                Ok(ForkResult::Child) => self.ask(Stage::ClosingPipes, ActionModel::ClosePipes),
                Ok(ForkResult::Parent(child)) => self.send(Stage::ChildPid, child.pid as u32),
                Err(error) => self.end(Err(error)),
            },
            (Stage::ClosingPipes, EventModel::PipesClosed) => self.end(
                Ok(ForkserverState::Child),
            ),
            (Stage::ChildPid, EventModel::Wrote(outcome)) => match write_verdict(
                WORD_LEN,
                outcome,
            ) {
                Ok(_) => self.ask(Stage::Waiting, ActionModel::HandleChildRequests),
                Err(error) => self.end(Err(error)),
            },
            (Stage::Waiting, EventModel::ChildStatus(result)) => match result {
                Ok(status) => self.send(Stage::Status, status as u32),
                Err(error) => self.end(Err(error)),
            },
            (Stage::Status, EventModel::Wrote(outcome)) => match write_verdict(WORD_LEN, outcome) {
                Ok(_) => self.ask(Stage::KillFlag, ActionModel::Read),
                Err(error) => self.end(Err(error)),
            },
            _ => (self, ActionModel::Failed(Error::IllegalState)),
        }
    }
}


/// The bytes of `bytes` from index `from` on.
fn tail_from(bytes: &Vec<u8>, from: usize) -> (tail: Vec<u8>)
    requires
        from <= bytes.len(),
    ensures
        tail@ == bytes@.skip(from as int),
{
    let mut tail: Vec<u8> = Vec::new();
    let mut i: usize = from;
    while i < bytes.len()
        invariant
            from <= i <= bytes.len(),
            tail@ == bytes@.subrange(from as int, i as int),
        decreases bytes.len() - i,
    {
        tail.push(bytes[i]);
        i += 1;
    }
    assert(bytes@.subrange(from as int, bytes.len() as int) == bytes@.skip(from as int));
    tail
}

/// The capability word for the given features.
pub fn capabilities(shared_memory_fuzzing: bool, auto_tokens: bool) -> (word: u32)
    ensures
        word == capability_word(shared_memory_fuzzing, auto_tokens),
{
    let shared: u32 = if shared_memory_fuzzing {
        FS_NEW_OPT_SHDMEM_FUZZ
    } else {
        0
    };
    let tokens: u32 = if auto_tokens {
        FS_NEW_OPT_AUTODTCT
    } else {
        0
    };
    FS_NEW_OPT_MAPSIZE | shared | tokens
}

/// A started forkserver: the handshake and the loop behind it.
#[derive(Debug)]
pub struct Forkserver {
    settings: Settings,
    stage: Stage,
}

impl View for Forkserver {
    type V = DriverModel;

    closed spec fn view(&self) -> DriverModel {
        DriverModel { settings: self.settings@, stage: self.stage }
    }
}

impl Forkserver {
    #[verifier::type_invariant]
    spec fn well_formed(self) -> bool {
        self@.wf()
    }

    /// Where the driver stands.
    pub fn stage(&self) -> (stage: Stage)
        ensures
            stage == self@.stage,
            self@.wf(),
    {
        proof {
            use_type_invariant(self);
        }
        self.stage
    }

    /// What the handshake announces.
    pub fn settings(&self) -> (settings: &Settings)
        ensures
            settings@ == self@.settings,
    {
        &self.settings
    }

    /// Moves to `stage` and asks for `word` to be written.
    fn send(&mut self, stage: Stage, word: u32) -> (action: Action)
        requires
            !(stage is Tokens),
            stage == Stage::TokensLen ==> old(self)@.settings.auto_tokens is Some,
        ensures
            (final(self)@, action@) == old(self)@.send(stage, word),
    {
        proof {
            use_type_invariant(&*self);
        }
        let bytes = encode_word(self.settings.order, word);
        self.stage = stage;
        Action::Write(bytes)
    }

    /// Ends the forkserver with `result`.
    fn end(&mut self, result: Result<ForkserverState, Error>) -> (action: Action)
        ensures
            (final(self)@, action@) == old(self)@.end(result),
    {
        proof {
            use_type_invariant(&*self);
        }
        self.stage = Stage::Finished;
        Action::Return(result)
    }

    /// Goes on after the map size has been written.
    fn after_map_size(&mut self) -> (action: Action)
        ensures
            (final(self)@, action@) == old(self)@.after_map_size(),
    {
        proof {
            use_type_invariant(&*self);
        }
        let announced: Option<u32> = match &self.settings.auto_tokens {
            Some(tokens) => Some(tokens.len() as u32),
            None => None,
        };
        match announced {
            Some(len) => self.send(Stage::TokensLen, len),
            None => self.send(Stage::Ready, VERSION),
        }
    }

    /// Goes on after `sent` bytes of the token dictionary have been written.
    fn after_tokens(&mut self, sent: usize) -> (action: Action)
        requires
            old(self)@.settings.auto_tokens matches Some(tokens) ==> sent <= tokens.len(),
        ensures
            (final(self)@, action@) == old(self)@.after_tokens(sent),
    {
        proof {
            use_type_invariant(&*self);
        }
        let rest: Option<Vec<u8>> = match &self.settings.auto_tokens {
            Some(tokens) => if sent < tokens.len() {
                Some(tail_from(tokens, sent))
            } else {
                None
            },
            None => None,
        };
        match rest {
            Some(bytes) => {
                self.stage = Stage::Tokens { sent };
                Action::Write(bytes)
            },
            None => self.send(Stage::Ready, VERSION),
        }
    }

    /// Takes what happened to the action handed out last and says what
    /// comes next.
    ///
    /// The handshake is: version word out; reply in, which must be the
    /// version word with every bit flipped; capability word, map size and,
    /// where announced, the token dictionary out; version word out again.
    /// A failure of the very first write means that nobody listens, which
    /// ends the forkserver with `NoAfl`. Every later failure ends it with
    /// the error. After the handshake each round reads a kill flag, obtains
    /// a child, and in the parent writes the child's pid, waits for it and
    /// writes its status; in the child the channel is closed and the
    /// forkserver ends with `Child`.
    pub fn step(&mut self, event: Event) -> (action: Action)
        ensures
            (final(self)@, action@) == old(self)@.step(event@),
            final(self)@.wf(),
    {
        proof {
            use_type_invariant(&*self);
        }
        let order = self.settings.order;
        let action = match (self.stage, event) {
            (Stage::Hello, Event::Wrote(outcome)) => match accept_write(WORD_LEN, outcome) {
                Ok(_) => {
                    self.stage = Stage::Reply;
                    Action::Read
                },
                Err(_) => self.end(Ok(ForkserverState::NoAfl)),
            },
            (Stage::Reply, Event::Read(outcome)) => match accept_read(order, outcome) {
                Ok(reply) => if reply == VERSION ^ 0xFFFF_FFFF {
                    let word = capabilities(
                        self.settings.shared_memory_fuzzing,
                        self.settings.auto_tokens.is_some(),
                    );
                    self.send(Stage::Options, word)
                } else {
                    self.end(Err(Error::Protocol))
                },
                Err(error) => self.end(Err(error)),
            },
            (Stage::Options, Event::Wrote(outcome)) => match accept_write(WORD_LEN, outcome) {
                Ok(_) => {
                    let map_size = self.settings.map_size;
                    self.send(Stage::MapSize, map_size)
                },
                Err(error) => self.end(Err(error)),
            },
            (Stage::MapSize, Event::Wrote(outcome)) => match accept_write(WORD_LEN, outcome) {
                Ok(_) => self.after_map_size(),
                Err(error) => self.end(Err(error)),
            },
            (Stage::TokensLen, Event::Wrote(outcome)) => match accept_write(WORD_LEN, outcome) {
                Ok(_) => self.after_tokens(0),
                Err(error) => self.end(Err(error)),
            },
            (Stage::Tokens { sent }, Event::Wrote(outcome)) => {
                let total: Option<usize> = match &self.settings.auto_tokens {
                    Some(tokens) => Some(tokens.len()),
                    None => None,
                };
                match total {
                    Some(total) => match advance_blob(total, sent, outcome) {
                        Ok(now) => self.after_tokens(now),
                        Err(error) => self.end(Err(error)),
                    },
                    None => self.end(Err(Error::IllegalState)),
                }
            },
            (Stage::Ready, Event::Wrote(outcome)) => match accept_write(WORD_LEN, outcome) {
                Ok(_) => {
                    self.stage = Stage::PreFuzzing;
                    Action::PreFuzzing
                },
                Err(error) => self.end(Err(error)),
            },
            (Stage::PreFuzzing, Event::PreFuzzed(result)) => match result {
                Ok(_) => {
                    self.stage = Stage::KillFlag;
                    Action::Read
                },
                Err(error) => self.end(Err(error)),
            },
            (Stage::KillFlag, Event::Read(outcome)) => match accept_read(order, outcome) {
                Ok(flag) => {
                    self.stage = Stage::Spawning;
                    Action::SpawnChild { was_killed: flag != 0 }
                },
                Err(error) => self.end(Err(error)),
            },
            (Stage::Spawning, Event::Spawned(result)) => match result {
                Ok(ForkResult::Child) => {
                    self.stage = Stage::ClosingPipes;
                    Action::ClosePipes
                },
                Ok(ForkResult::Parent(child)) => self.send(Stage::ChildPid, child.pid as u32),
                Err(error) => self.end(Err(error)),
            },
            (Stage::ClosingPipes, Event::PipesClosed) => self.end(Ok(ForkserverState::Child)),
            (Stage::ChildPid, Event::Wrote(outcome)) => match accept_write(WORD_LEN, outcome) {
                Ok(_) => {
                    self.stage = Stage::Waiting;
                    Action::HandleChildRequests
                },
                Err(error) => self.end(Err(error)),
            },
            (Stage::Waiting, Event::ChildStatus(result)) => match result {
                Ok(status) => self.send(Stage::Status, status as u32),
                Err(error) => self.end(Err(error)),
            },
            (Stage::Status, Event::Wrote(outcome)) => match accept_write(WORD_LEN, outcome) {
                Ok(_) => {
                    self.stage = Stage::KillFlag;
                    Action::Read
                },
                Err(error) => self.end(Err(error)),
            },
            _ => Action::Failed(Error::IllegalState),
        };
        proof {
            use_type_invariant(&*self);
        }
        action
    }
}

/// Starts a forkserver: claims the one permitted start and hands out the
/// driver together with its first action, the write of the version word.
///
/// A second start in the same process is refused. So is a token dictionary
/// whose length does not fit a control word.
pub fn start_forkserver(guard: &mut OnceGuard, settings: Settings) -> (r: Result<
    (Forkserver, Action),
    Error,
>)
    ensures
        final(guard).is_set(),
        old(guard).is_set() ==> r matches Err(Error::AlreadyInitialized),
        !old(guard).is_set() && !settings@.wf() ==> r matches Err(Error::IllegalArgument),
        !old(guard).is_set() && settings@.wf() ==> {
            &&& r matches Ok((driver, action))
            &&& driver@ == DriverModel::initial(settings@)
            &&& action@ == DriverModel::first_action(settings@)
        },
{
    match guard.enter() {
        Err(error) => {
            return Err(error);
        },
        Ok(_) => {},
    }
    let fits = match &settings.auto_tokens {
        Some(tokens) => tokens.len() <= u32::MAX as usize,
        None => true,
    };
    if !fits {
        return Err(Error::IllegalArgument);
    }
    let first = Action::Write(encode_word(settings.order, VERSION));
    let driver = Forkserver { settings, stage: Stage::Hello };
    Ok((driver, first))
}


/// Every step keeps the driver well formed.
pub proof fn lemma_step_keeps_driver_well_formed(m: DriverModel, event: EventModel)
    requires
        m.wf(),
    ensures
        m.step(event).0.wf(),
{
}

/// Once `Return` has been handed out the driver asks for nothing more:
/// whatever is reported, it refuses and stays as it is.
pub proof fn lemma_finished_is_final(m: DriverModel, event: EventModel)
    requires
        m.stage == Stage::Finished,
    ensures
        m.step(event) == (m, ActionModel::Failed(Error::IllegalState)),
{
}

/// A reply other than the version word with every bit flipped ends the
/// handshake with a protocol error, and no further word is sent.
pub proof fn lemma_wrong_reply_is_rejected(
    m: DriverModel,
    bytes: Seq<u8>,
    later: EventModel,
)
    requires
        m.stage == Stage::Reply,
        bytes.len() != WORD_LEN || crate::wire::bytes_word(m.settings.order, bytes)
            != expected_reply(),
    ensures
        ({
            let (over, action) = m.step(EventModel::Read(Ok(bytes)));
            &&& action == ActionModel::Return(Err(Error::Protocol))
            &&& over.stage == Stage::Finished
            &&& over.step(later) == (over, ActionModel::Failed(Error::IllegalState))
        }),
{
}

/// The matching reply, and only it, lets the handshake go on to the
/// capability word.
pub proof fn lemma_right_reply_is_accepted(m: DriverModel, bytes: Seq<u8>)
    requires
        m.stage == Stage::Reply,
        bytes == word_bytes(m.settings.order, expected_reply()),
    ensures
        m.step(EventModel::Read(Ok(bytes))) == m.send(
            Stage::Options,
            capability_word(m.settings.shared_memory_fuzzing, m.settings.auto_tokens is Some),
        ),
{
    crate::wire::lemma_word_round_trip(m.settings.order, expected_reply());
}

/// When the opening word cannot be written in full, nobody listens: the
/// forkserver ends with `NoAfl`, which is no error.
pub proof fn lemma_unanswered_hello_is_no_afl(settings: SettingsModel, outcome: Result<usize, i32>)
    requires
        outcome != Ok::<usize, i32>(WORD_LEN),
    ensures
        DriverModel::initial(settings).step(EventModel::Wrote(outcome)).1 == ActionModel::Return(
            Ok(ForkserverState::NoAfl),
        ),
        DriverModel::initial(settings).step(EventModel::Wrote(outcome)).0.stage == Stage::Finished,
{
}

/// While the token dictionary is being flushed, every accepted write moves
/// the count of bytes sent strictly forward, so the transfer ends after at
/// most as many writes as the dictionary has bytes.
pub proof fn lemma_token_transfer_advances(m: DriverModel, sent: usize, outcome: Result<usize, i32>)
    requires
        m.wf(),
        m.stage == (Stage::Tokens { sent }),
    ensures
        ({
            let next = m.step(EventModel::Wrote(outcome)).0;
            ||| next.stage == Stage::Finished
            ||| next.stage == Stage::Ready
            ||| next.stage matches Stage::Tokens { sent: now } && sent < now
        }),
{
}

/// Rounds are strictly sequential: a child is asked for only right after a
/// kill flag was read, it is waited for only right after its pid was
/// written, and the next kill flag is read only once the handshake or the
/// previous round is complete.
pub proof fn lemma_rounds_are_sequential(m: DriverModel, event: EventModel)
    ensures
        m.step(event).1 is SpawnChild ==> m.stage == Stage::KillFlag,
        m.step(event).1 is HandleChildRequests ==> m.stage == Stage::ChildPid,
        m.step(event).0.stage == Stage::KillFlag && m.stage != Stage::KillFlag ==> m.stage
            == Stage::PreFuzzing || m.stage == Stage::Status,
        m.step(event).1 is ClosePipes ==> m.stage == Stage::Spawning && event
            == EventModel::Spawned(Ok(ForkResult::Child)),
{
}

} // verus!
