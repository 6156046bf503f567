//! The session of one party in a distributed key generation.
//!
//! A session walks through its rounds in one direction:
//! `Init`, `WaitMsg1`, `WaitMsg2`, `WaitMsg3`, `WaitMsg4`, and then `Share`,
//! which holds the finished keyshare. From every round that waits for
//! messages a failure leads to `Failed`, and nothing leads out of `Failed`
//! or `Share`.
//!
//! The cryptography is the work of a protocol engine that this layer does
//! not contain. Each operation that needs the engine takes it as a function:
//! the session decides whether the call is due and what is handed to it, and
//! says what becomes of the session for every answer.

use vstd::prelude::*;
use vstd::slice::slice_to_vec;
use crate::bytes::try_to_array;
use crate::errors::{failure, keygen_error_to_go, GoError, GoErrorView, KeygenError, Rejection, CODE_FAILURE};
use crate::keyshare::{decode_point, decoded_point, KeyshareHandle, KeyshareView, PUBLIC_KEY_LEN};
use crate::message::{envelope, message_views, Message, MessageRouting, MessageView, Payload, BROADCAST};
use crate::rng::{maybe_seeded_rng, seed_is_valid, seeded_by};

verus! {

/// Length of the commitment of one party.
pub const COMMITMENT_LEN: usize = 32;

/// The round a key generation session is in.
#[derive(Debug)]
pub enum Round {
    Init,
    WaitMsg1,
    WaitMsg2,
    WaitMsg3,
    WaitMsg4,
    Failed,
    Share(KeyshareHandle),
}

/// The mathematical content of a round.
pub enum RoundView {
    Init,
    WaitMsg1,
    WaitMsg2,
    WaitMsg3,
    WaitMsg4,
    Failed,
    Share(KeyshareView),
}

impl View for Round {
    type V = RoundView;

    open spec fn view(&self) -> RoundView {
        match self {
            Round::Init => RoundView::Init,
            Round::WaitMsg1 => RoundView::WaitMsg1,
            Round::WaitMsg2 => RoundView::WaitMsg2,
            Round::WaitMsg3 => RoundView::WaitMsg3,
            Round::WaitMsg4 => RoundView::WaitMsg4,
            Round::Failed => RoundView::Failed,
            Round::Share(share) => RoundView::Share(share@),
        }
    }
}

/// The rounds of messages that a session can wait for.
#[derive(Clone, Copy, Debug, PartialEq, Eq, Structural)]
pub enum Step {
    Msg1,
    Msg2,
    Msg3,
    Msg4,
}

impl RoundView {
    /// The messages the round waits for, if it waits for any.
    pub open spec fn awaited(self) -> Option<Step> {
        match self {
            RoundView::WaitMsg1 => Some(Step::Msg1),
            RoundView::WaitMsg2 => Some(Step::Msg2),
            RoundView::WaitMsg3 => Some(Step::Msg3),
            RoundView::WaitMsg4 => Some(Step::Msg4),
            _ => None,
        }
    }

    /// Whether the round is one of the two that end a session.
    pub open spec fn is_terminal(self) -> bool {
        self is Failed || self is Share
    }

    /// The place of the round in the order in which a session walks through
    /// its rounds. The two ends share the last place.
    pub open spec fn rank(self) -> nat {
        match self {
            RoundView::Init => 0,
            RoundView::WaitMsg1 => 1,
            RoundView::WaitMsg2 => 2,
            RoundView::WaitMsg3 => 3,
            RoundView::WaitMsg4 => 4,
            RoundView::Failed => 5,
            RoundView::Share(_) => 5,
        }
    }
}

/// The key generation session of one party.
#[derive(Debug)]
pub struct KeygenSessionHandle {
    n: usize,
    round: Round,
}

/// The mathematical content of a session: the number of parties and the
/// round.
pub struct KeygenSessionView {
    pub n: nat,
    pub round: RoundView,
}

impl View for KeygenSessionHandle {
    type V = KeygenSessionView;

    closed spec fn view(&self) -> KeygenSessionView {
        KeygenSessionView { n: self.n as nat, round: self.round@ }
    }
}

/// The party as the engine is told of it: the rank of every party, the
/// threshold, and the index of this party.
#[derive(Debug)]
pub struct Party {
    pub ranks: Vec<u8>,
    pub t: u8,
    pub party_id: u8,
}

/// What a round of the engine left behind of a first round message: the
/// sender and the encoded body. It is for every party.
#[derive(Debug)]
pub struct KeygenMsg1 {
    pub from_id: u8,
    pub body: Vec<u8>,
}

/// A second round message: for one party.
#[derive(Debug)]
pub struct KeygenMsg2 {
    pub from_id: u8,
    pub to_id: u8,
    pub body: Vec<u8>,
}

/// A third round message: for one party.
#[derive(Debug)]
pub struct KeygenMsg3 {
    pub from_id: u8,
    pub to_id: u8,
    pub body: Vec<u8>,
}

/// A fourth round message: for every party.
#[derive(Debug)]
pub struct KeygenMsg4 {
    pub from_id: u8,
    pub body: Vec<u8>,
}

impl MessageRouting for KeygenMsg1 {
    open spec fn source(&self) -> u8 {
        self.from_id
    }

    open spec fn destination(&self) -> Option<u8> {
        None
    }

    fn src_party_id(&self) -> u8 {
        self.from_id
    }

    fn dst_party_id(&self) -> Option<u8> {
        None
    }
}

impl MessageRouting for KeygenMsg2 {
    open spec fn source(&self) -> u8 {
        self.from_id
    }

    open spec fn destination(&self) -> Option<u8> {
        Some(self.to_id)
    }

    fn src_party_id(&self) -> u8 {
        self.from_id
    }

    fn dst_party_id(&self) -> Option<u8> {
        Some(self.to_id)
    }
}

impl MessageRouting for KeygenMsg3 {
    open spec fn source(&self) -> u8 {
        self.from_id
    }

    open spec fn destination(&self) -> Option<u8> {
        Some(self.to_id)
    }

    fn src_party_id(&self) -> u8 {
        self.from_id
    }

    fn dst_party_id(&self) -> Option<u8> {
        Some(self.to_id)
    }
}

impl MessageRouting for KeygenMsg4 {
    open spec fn source(&self) -> u8 {
        self.from_id
    }

    open spec fn destination(&self) -> Option<u8> {
        None
    }

    fn src_party_id(&self) -> u8 {
        self.from_id
    }

    fn dst_party_id(&self) -> Option<u8> {
        None
    }
}

impl Payload for KeygenMsg1 {
    open spec fn encoding(&self) -> Seq<u8> {
        self.body@
    }

    fn into_encoding(self) -> Vec<u8> {
        self.body
    }
}

impl Payload for KeygenMsg2 {
    open spec fn encoding(&self) -> Seq<u8> {
        self.body@
    }

    fn into_encoding(self) -> Vec<u8> {
        self.body
    }
}

impl Payload for KeygenMsg3 {
    open spec fn encoding(&self) -> Seq<u8> {
        self.body@
    }

    fn into_encoding(self) -> Vec<u8> {
        self.body
    }
}

impl Payload for KeygenMsg4 {
    open spec fn encoding(&self) -> Seq<u8> {
        self.body@
    }

    fn into_encoding(self) -> Vec<u8> {
        self.body
    }
}

/// What the engine is handed to open a session on an existing keyshare.
#[derive(Debug)]
pub struct RotationSetup {
    pub oldshare: KeyshareHandle,
    pub rng: rand_chacha::ChaCha20Rng,
}

/// What the engine is handed to open a session that refreshes a keyshare
/// while the shares of some parties are lost.
#[derive(Debug)]
pub struct RecoverySetup {
    pub oldshare: KeyshareHandle,
    pub lost_shares: Vec<u8>,
    pub rng: rand_chacha::ChaCha20Rng,
}

/// What the engine is handed to open a session for a party that lost its
/// share and knows the group's public key.
#[derive(Debug)]
pub struct LostShareSetup {
    pub party: Party,
    pub public_key: k256::AffinePoint,
    pub lost_shares: Vec<u8>,
    pub rng: rand_chacha::ChaCha20Rng,
}

/// A new session together with what the engine is handed to begin it.
#[derive(Debug)]
pub struct KeygenStart {
    pub session: KeygenSessionHandle,
    pub party: Party,
    pub rng: rand_chacha::ChaCha20Rng,
}

/// One call into the engine: the messages that came in, and
/// what else the round needs.
#[derive(Debug)]
pub enum KeygenRequest {
    HandleMsg1 { rng: rand_chacha::ChaCha20Rng, msgs: Vec<Message> },
    HandleMsg2 { rng: rand_chacha::ChaCha20Rng, msgs: Vec<Message> },
    HandleMsg3 { rng: rand_chacha::ChaCha20Rng, msgs: Vec<Message>, commitments: Vec<[u8; 32]> },
    HandleMsg4 { msgs: Vec<Message> },
}

/// The mathematical content of a request: the round it asks for, the
/// generator if the round draws randomness, the messages, and the
/// commitments of the third round.
pub struct KeygenRequestView {
    pub step: Step,
    pub rng: Option<rand_chacha::ChaCha20Rng>,
    pub msgs: Seq<MessageView>,
    pub commitments: Seq<Seq<u8>>,
}

impl View for KeygenRequest {
    type V = KeygenRequestView;

    open spec fn view(&self) -> KeygenRequestView {
        match self {
            KeygenRequest::HandleMsg1 { rng, msgs } => KeygenRequestView {
                step: Step::Msg1,
                rng: Some(*rng),
                msgs: message_views(msgs@),
                commitments: Seq::empty(),
            },
            KeygenRequest::HandleMsg2 { rng, msgs } => KeygenRequestView {
                step: Step::Msg2,
                rng: Some(*rng),
                msgs: message_views(msgs@),
                commitments: Seq::empty(),
            },
            KeygenRequest::HandleMsg3 { rng, msgs, commitments } => KeygenRequestView {
                step: Step::Msg3,
                rng: Some(*rng),
                msgs: message_views(msgs@),
                commitments: commitment_rows(commitments@),
            },
            KeygenRequest::HandleMsg4 { msgs } => KeygenRequestView {
                step: Step::Msg4,
                rng: None,
                msgs: message_views(msgs@),
                commitments: Seq::empty(),
            },
        }
    }
}

/// What came of one call into the engine.
#[derive(Debug)]
pub enum KeygenReply {
    /// One of the messages did not decode. The text says why.
    Undecodable(String),
    /// The engine refused the round.
    Rejected(KeygenError),
    /// The first round is done: the messages of the second.
    Msg2(Vec<KeygenMsg2>),
    /// The second round is done: the messages of the third.
    Msg3(Vec<KeygenMsg3>),
    /// The third round is done: the message of the fourth.
    Msg4(KeygenMsg4),
    /// The fourth round is done: the keyshare.
    Share(KeyshareHandle),
}

/// The ranks of `n` parties that all have rank zero.
pub open spec fn zero_ranks(n: nat) -> Seq<u8> {
    Seq::new(n, |i: int| 0u8)
}

/// The `i`-th commitment in a run of commitments.
pub open spec fn commitment_at(bytes: Seq<u8>, i: int) -> Seq<u8> {
    bytes.subrange(i * COMMITMENT_LEN as int, (i + 1) * COMMITMENT_LEN as int)
}

/// The commitments in a run of bytes: one of 32 bytes for each party, in
/// the order of the parties.
pub open spec fn commitments_of(bytes: Seq<u8>) -> Seq<Seq<u8>> {
    Seq::new(bytes.len() / COMMITMENT_LEN as nat, |i: int| commitment_at(bytes, i))
}

/// The contents of a list of commitments.
pub open spec fn commitment_rows(rows: Seq<[u8; 32]>) -> Seq<Seq<u8>> {
    rows.map_values(|row: [u8; 32]| row@)
}

/// Why the commitments given to the third round cannot be taken, if they
/// cannot: there are none, or they are not 32 bytes for each of `n` parties.
pub open spec fn commitments_fault(n: nat, commitments: Option<&[u8]>) -> Option<Rejection> {
    match commitments {
        None => Some(Rejection::CommitmentsRequired),
        Some(bytes) => if bytes@.len() == 0 {
            Some(Rejection::CommitmentsRequired)
        } else if bytes@.len() != n * COMMITMENT_LEN {
            Some(Rejection::InvalidCommitmentsLength)
        } else {
            None
        },
    }
}

/// What a session does with messages that come in: the round of the engine
/// that is due, or the reason why none is. A session that waits for no
/// messages is in the wrong state; the third round also wants its
/// commitments.
pub open spec fn advance_plan(session: KeygenSessionView, commitments: Option<&[u8]>) -> Result<
    Step,
    Rejection,
> {
    match session.round.awaited() {
        None => Err(Rejection::InvalidState),
        Some(Step::Msg3) => match commitments_fault(session.n, commitments) {
            Some(why) => Err(why),
            None => Ok(Step::Msg3),
        },
        Some(step) => Ok(step),
    }
}

/// Whether the reply is the result of the round that was due.
pub open spec fn reply_fits(step: Step, reply: KeygenReply) -> bool {
    match (step, reply) {
        (Step::Msg1, KeygenReply::Msg2(_)) => true,
        (Step::Msg2, KeygenReply::Msg3(_)) => true,
        (Step::Msg3, KeygenReply::Msg4(_)) => true,
        (Step::Msg4, KeygenReply::Share(_)) => true,
        _ => false,
    }
}

/// The round of a session after the engine has answered the round that was
/// due. Success leads one round on, and from the fourth round to the
/// keyshare; everything else leads to `Failed`.
pub open spec fn settled_round(step: Step, reply: KeygenReply) -> RoundView {
    match (step, reply) {
        (Step::Msg1, KeygenReply::Msg2(_)) => RoundView::WaitMsg2,
        (Step::Msg2, KeygenReply::Msg3(_)) => RoundView::WaitMsg3,
        (Step::Msg3, KeygenReply::Msg4(_)) => RoundView::WaitMsg4,
        (Step::Msg4, KeygenReply::Share(share)) => RoundView::Share(share@),
        _ => RoundView::Failed,
    }
}

/// What the host is given after the engine has answered the round that was
/// due: the outgoing messages in their envelopes, none after the fourth
/// round, or the error that says what went wrong.
pub open spec fn settled_result(step: Step, reply: KeygenReply) -> Result<
    Seq<MessageView>,
    GoErrorView,
> {
    match (step, reply) {
        (_, KeygenReply::Undecodable(text)) => Err(failure(text@)),
        (_, KeygenReply::Rejected(err)) => Err(failure(err.text@)),
        (Step::Msg1, KeygenReply::Msg2(msgs)) => Ok(msgs@.map_values(|m: KeygenMsg2| envelope(m))),
        (Step::Msg2, KeygenReply::Msg3(msgs)) => Ok(msgs@.map_values(|m: KeygenMsg3| envelope(m))),
        (Step::Msg3, KeygenReply::Msg4(msg)) => Ok(seq![envelope(msg)]),
        (Step::Msg4, KeygenReply::Share(_)) => Ok(Seq::empty()),
        _ => Err(Rejection::UnexpectedReply.error()),
    }
}

/// The round of a session after an answer of the engine, whatever the round
/// before: a session that waits for no messages keeps its round.
pub open spec fn advanced(round: RoundView, reply: KeygenReply) -> RoundView {
    match round.awaited() {
        None => round,
        Some(step) => settled_round(step, reply),
    }
}

/// The content of what an operation hands to the host.
pub open spec fn result_view(result: Result<Vec<Message>, GoError>) -> Result<
    Seq<MessageView>,
    GoErrorView,
> {
    match result {
        Ok(msgs) => Ok(message_views(msgs@)),
        Err(err) => Err(err@),
    }
}

/// The commitments that the engine is handed at `step`: those of the host,
/// split by party, in the third round, and none in the others.
pub open spec fn due_commitments(step: Step, commitments: Option<&[u8]>) -> Seq<Seq<u8>> {
    match (step, commitments) {
        (Step::Msg3, Some(bytes)) => commitments_of(bytes@),
        _ => Seq::empty(),
    }
}

/// Whether `request` is the call into the engine that is due at `step`: it
/// asks for that round, with the incoming messages in their order, with the
/// generator that the seed asks for where the round draws randomness, and
/// in the third round with the commitments, split by party.
pub open spec fn request_is_due(
    request: KeygenRequest,
    step: Step,
    input: Seq<Message>,
    commitments: Option<&[u8]>,
    seed: Option<&[u8]>,
) -> bool {
    &&& request@.step == step
    &&& request@.msgs == message_views(input)
    &&& request@.commitments == due_commitments(step, commitments)
    &&& request@.rng matches Some(rng) ==> seeded_by(rng, seed)
}

/// Splits a run of commitments into one of 32 bytes for each party.
pub fn split_commitments(bytes: &[u8], n: usize) -> (rows: Vec<[u8; 32]>)
    requires
        bytes@.len() == n * COMMITMENT_LEN,
    ensures
        rows@.len() == n,
        commitment_rows(rows@) == commitments_of(bytes@),
{
    let total: usize = bytes.len();
    let mut rows: Vec<[u8; 32]> = Vec::new();
    let mut i: usize = 0;
    while i < n
        invariant
            i <= n,
            bytes@.len() == total == n * COMMITMENT_LEN,
            rows@.len() == i,
            forall|k: int| 0 <= k < i ==> (#[trigger] rows@[k])@ == commitment_at(bytes@, k),
        decreases n - i,
    {
        assert(i * COMMITMENT_LEN + COMMITMENT_LEN <= n * COMMITMENT_LEN) by (nonlinear_arith)
            requires
                i < n,
        ;
        let base: usize = i * COMMITMENT_LEN;
        let mut row: [u8; 32] = [0u8; 32];
        let mut j: usize = 0;
        while j < COMMITMENT_LEN
            invariant
                j <= COMMITMENT_LEN,
                base == i * COMMITMENT_LEN,
                base + COMMITMENT_LEN <= bytes@.len(),
                forall|k: int| 0 <= k < j ==> row@[k] == bytes@[base + k],
            decreases COMMITMENT_LEN - j,
        {
            row[j] = bytes[base + j];
            j += 1;
        }
        assert(row@ =~= commitment_at(bytes@, i as int));
        rows.push(row);
        i += 1;
    }
    assert(commitment_rows(rows@) =~= commitments_of(bytes@));
    rows
}

impl KeygenSessionHandle {
    /// A session of `n` parties in its first round.
    pub fn new(n: usize) -> (session: KeygenSessionHandle)
        ensures
            session@ == (KeygenSessionView { n: n as nat, round: RoundView::Init }),
    {
        KeygenSessionHandle { n, round: Round::Init }
    }

    /// The number of parties.
    pub fn parties(&self) -> (n: usize)
        ensures
            n == self@.n,
    {
        self.n
    }

    /// The round the session is in.
    pub fn round(&self) -> (round: &Round)
        ensures
            round@ == self@.round,
    {
        &self.round
    }

    /// The messages the session waits for, if it waits for any.
    pub fn awaited(&self) -> (step: Option<Step>)
        ensures
            step == self@.round.awaited(),
    {
        match &self.round {
            Round::WaitMsg1 => Some(Step::Msg1),
            Round::WaitMsg2 => Some(Step::Msg2),
            Round::WaitMsg3 => Some(Step::Msg3),
            Round::WaitMsg4 => Some(Step::Msg4),
            _ => None,
        }
    }

    /// Decides what to do with messages that come in, before the engine is
    /// called and without touching the session.
    pub fn plan(&self, commitments: Option<&[u8]>) -> (plan: Result<Step, Rejection>)
        ensures
            plan == advance_plan(self@, commitments),
    {
        match self.awaited() {
            None => Err(Rejection::InvalidState),
            Some(Step::Msg3) => {
                match commitments {
                    None => Err(Rejection::CommitmentsRequired),
                    Some(bytes) => {
                        if bytes.len() == 0 {
                            Err(Rejection::CommitmentsRequired)
                        } else if bytes.len() % COMMITMENT_LEN != 0 || bytes.len() / COMMITMENT_LEN
                            != self.n {
                            Err(Rejection::InvalidCommitmentsLength)
                        } else {
                            Ok(Step::Msg3)
                        }
                    },
                }
            },
            Some(step) => Ok(step),
        }
    }

    /// Takes the answer of the engine to the round that the session waits
    /// for. A session that waits for no round refuses the answer and stays
    /// as it is.
    pub fn settle(&mut self, reply: KeygenReply) -> (result: Result<Vec<Message>, GoError>)
        ensures
            final(self)@.n == old(self)@.n,
            final(self)@.round == advanced(old(self)@.round, reply),
            match old(self)@.round.awaited() {
                None => final(self)@ == old(self)@ && result_view(result) == Err::<
                    Seq<MessageView>,
                    GoErrorView,
                >(Rejection::InvalidState.error()),
                Some(step) => final(self)@.round == settled_round(step, reply) && result_view(
                    result,
                ) == settled_result(step, reply),
            },
    {
        let step = match self.awaited() {
            None => {
                return Err(GoError::reject(Rejection::InvalidState));
            },
            Some(step) => step,
        };
        match reply {
            KeygenReply::Undecodable(text) => {
                self.round = Round::Failed;
                Err(GoError::new(text.as_str(), CODE_FAILURE))
            },
            KeygenReply::Rejected(err) => {
                self.round = Round::Failed;
                Err(keygen_error_to_go(err))
            },
            KeygenReply::Msg2(msgs) => {
                match step {
                    Step::Msg1 => {
                        self.round = Round::WaitMsg2;
                        Ok(Message::encode_vector(msgs))
                    },
                    _ => self.fail(Rejection::UnexpectedReply),
                }
            },
            KeygenReply::Msg3(msgs) => {
                match step {
                    Step::Msg2 => {
                        self.round = Round::WaitMsg3;
                        Ok(Message::encode_vector(msgs))
                    },
                    _ => self.fail(Rejection::UnexpectedReply),
                }
            },
            KeygenReply::Msg4(msg) => {
                match step {
                    Step::Msg3 => {
                        self.round = Round::WaitMsg4;
                        let mut out: Vec<Message> = Vec::new();
                        out.push(Message::new(msg));
                        assert(message_views(out@) =~= seq![envelope(msg)]);
                        Ok(out)
                    },
                    _ => self.fail(Rejection::UnexpectedReply),
                }
            },
            KeygenReply::Share(share) => {
                match step {
                    Step::Msg4 => {
                        self.round = Round::Share(share);
                        let out: Vec<Message> = Vec::new();
                        assert(message_views(out@) =~= Seq::<MessageView>::empty());
                        Ok(out)
                    },
                    _ => self.fail(Rejection::UnexpectedReply),
                }
            },
        }
    }

    /// Ends the session in `Failed` and reports why.
    fn fail(&mut self, why: Rejection) -> (result: Result<Vec<Message>, GoError>)
        ensures
            final(self)@.n == old(self)@.n,
            final(self)@.round == RoundView::Failed,
            result_view(result) == Err::<Seq<MessageView>, GoErrorView>(why.error()),
    {
        self.round = Round::Failed;
        Err(GoError::reject(why))
    }
}

/// What opening a session comes to, once the engine has said whether it
/// takes the setup: a session of `n` parties in its first round, or the
/// engine's failure.
pub open spec fn opened(
    result: Result<KeygenSessionHandle, GoError>,
    n: nat,
    outcome: Result<(), KeygenError>,
) -> bool {
    match outcome {
        Ok(_) => result is Ok && result->Ok_0@ == (KeygenSessionView {
            n,
            round: RoundView::Init,
        }),
        Err(err) => result is Err && result->Err_0@ == failure(err.text@),
    }
}

/// Opens a session of `n` parties if the engine took the setup, and
/// reports the engine's failure if it did not.
pub fn open_session(n: usize, outcome: Result<(), KeygenError>) -> (result: Result<
    KeygenSessionHandle,
    GoError,
>)
    ensures
        opened(result, n as nat, outcome),
{
    match outcome {
        Ok(_) => Ok(KeygenSessionHandle::new(n)),
        Err(err) => Err(keygen_error_to_go(err)),
    }
}

/// The descriptor of a party among `participants` parties of rank zero.
pub fn flat_party(participants: u8, threshold: u8, party_id: u8) -> (party: Party)
    ensures
        party.ranks@ == zero_ranks(participants as nat),
        party.t == threshold,
        party.party_id == party_id,
{
    let mut ranks: Vec<u8> = Vec::new();
    let mut i: u8 = 0;
    while i < participants
        invariant
            i <= participants,
            ranks@.len() == i,
            forall|k: int| 0 <= k < i ==> ranks@[k] == 0u8,
        decreases participants - i,
    {
        ranks.push(0u8);
        i += 1;
    }
    assert(ranks@ =~= zero_ranks(participants as nat));
    Party { ranks, t: threshold, party_id }
}

/// Begins a fresh key generation: every party has rank zero. The session
/// starts in `Init`; the descriptor of the party and the generator are
/// what the engine is given to begin.
pub fn dkls_keygen_new(participants: u8, threshold: u8, party_id: u8, seed: Option<&[u8]>) -> (start:
    KeygenStart)
    requires
        seed_is_valid(seed),
    ensures
        start.session@ == (KeygenSessionView { n: participants as nat, round: RoundView::Init }),
        start.party.ranks@ == zero_ranks(participants as nat),
        start.party.t == threshold,
        start.party.party_id == party_id,
        seeded_by(start.rng, seed),
{
    let rng = maybe_seeded_rng(seed);
    let party = flat_party(participants, threshold, party_id);
    let n: usize = party.ranks.len();
    KeygenStart { session: KeygenSessionHandle::new(n), party, rng }
}

/// Begins a key rotation on an existing keyshare. The engine decides
/// whether the share can be rotated; the session has as many parties as
/// the share has ranks.
pub fn dkls_keygen_init_key_rotation<F: FnOnce(RotationSetup) -> Result<(), KeygenError>>(
    oldshare: &KeyshareHandle,
    seed: Option<&[u8]>,
    start: F,
) -> (result: Result<KeygenSessionHandle, GoError>)
    requires
        seed_is_valid(seed),
        forall|setup: RotationSetup| call_requires(start, (setup,)),
    ensures
        exists|setup: RotationSetup, outcome: Result<(), KeygenError>|
            {
                &&& setup.oldshare@ == oldshare@
                &&& seeded_by(setup.rng, seed)
                &&& call_ensures(start, (setup,), outcome)
                &&& opened(result, oldshare@.rank_list.len(), outcome)
            },
{
    let rng = maybe_seeded_rng(seed);
    let setup = RotationSetup { oldshare: oldshare.duplicate(), rng };
    let outcome = start(setup);
    open_session(oldshare.parties(), outcome)
}

/// Begins a refresh of an existing keyshare that also recovers the shares
/// of the parties named as lost.
pub fn dkls_keygen_init_key_recovery<F: FnOnce(RecoverySetup) -> Result<(), KeygenError>>(
    oldshare: &KeyshareHandle,
    lost_shares: &[u8],
    seed: Option<&[u8]>,
    start: F,
) -> (result: Result<KeygenSessionHandle, GoError>)
    requires
        seed_is_valid(seed),
        forall|setup: RecoverySetup| call_requires(start, (setup,)),
    ensures
        exists|setup: RecoverySetup, outcome: Result<(), KeygenError>|
            {
                &&& setup.oldshare@ == oldshare@
                &&& setup.lost_shares@ == lost_shares@
                &&& seeded_by(setup.rng, seed)
                &&& call_ensures(start, (setup,), outcome)
                &&& opened(result, oldshare@.rank_list.len(), outcome)
            },
{
    let rng = maybe_seeded_rng(seed);
    let setup = RecoverySetup {
        oldshare: oldshare.duplicate(),
        lost_shares: slice_to_vec(lost_shares),
        rng,
    };
    let outcome = start(setup);
    open_session(oldshare.parties(), outcome)
}

/// Why a public key handed in as bytes cannot be taken, if it cannot: it is
/// not 33 bytes long, or the bytes encode no point.
pub open spec fn public_key_fault(pk: Seq<u8>) -> Option<Rejection> {
    if pk.len() != PUBLIC_KEY_LEN {
        Some(Rejection::InvalidPkSize)
    } else if decoded_point(pk) is None {
        Some(Rejection::InvalidPk)
    } else {
        None
    }
}

/// Reads a public key from its compressed form.
pub fn read_public_key(pk: &[u8]) -> (result: Result<k256::AffinePoint, Rejection>)
    ensures
        match public_key_fault(pk@) {
            Some(why) => result == Err::<k256::AffinePoint, Rejection>(why),
            None => result == Ok::<k256::AffinePoint, Rejection>(decoded_point(pk@).unwrap()),
        },
{
    match try_to_array::<33>(pk) {
        None => Err(Rejection::InvalidPkSize),
        Some(bytes) => match decode_point(&bytes) {
            None => Err(Rejection::InvalidPk),
            Some(point) => Ok(point),
        },
    }
}

/// Begins the recovery of a share by a party that has none, from the
/// group's public key. A public key of the wrong size, or one that encodes
/// no point, is refused before the engine is called.
pub fn dkls_keygen_init_lost_share_recovery<F: FnOnce(LostShareSetup) -> Result<(), KeygenError>>(
    participants: u8,
    threshold: u8,
    party_id: u8,
    pk: &[u8],
    lost_shares: &[u8],
    seed: Option<&[u8]>,
    start: F,
) -> (result: Result<KeygenSessionHandle, GoError>)
    requires
        seed_is_valid(seed),
        forall|setup: LostShareSetup| call_requires(start, (setup,)),
    ensures
        match public_key_fault(pk@) {
            Some(why) => result is Err && result->Err_0@ == why.error(),
            None => exists|setup: LostShareSetup, outcome: Result<(), KeygenError>|
                {
                    &&& setup.party.ranks@ == zero_ranks(participants as nat)
                    &&& setup.party.t == threshold
                    &&& setup.party.party_id == party_id
                    &&& Some(setup.public_key) == decoded_point(pk@)
                    &&& setup.lost_shares@ == lost_shares@
                    &&& seeded_by(setup.rng, seed)
                    &&& call_ensures(start, (setup,), outcome)
                    &&& opened(result, participants as nat, outcome)
                },
        },
{
    if pk.len() != PUBLIC_KEY_LEN {
        return Err(GoError::reject(Rejection::InvalidPkSize));
    }
    let rng = maybe_seeded_rng(seed);
    let party = flat_party(participants, threshold, party_id);
    let public_key = match read_public_key(pk) {
        Ok(point) => point,
        Err(why) => {
            return Err(GoError::reject(why));
        },
    };
    let setup = LostShareSetup { party, public_key, lost_shares: slice_to_vec(lost_shares), rng };
    let outcome = start(setup);
    let n: usize = participants as usize;
    open_session(n, outcome)
}

/// Produces the first message. It is due in `Init` only, and takes the
/// session to `WaitMsg1`; in every other round the session stays as it is
/// and the engine is not called.
pub fn dkls_keygen_create_first_message<F: FnOnce() -> KeygenMsg1>(
    handle: &mut KeygenSessionHandle,
    generate: F,
) -> (result: Result<Message, GoError>)
    requires
        call_requires(generate, ()),
    ensures
        final(handle)@.n == old(handle)@.n,
        old(handle)@.round is Init ==> final(handle)@.round == RoundView::WaitMsg1 && result is Ok
            && exists|first: KeygenMsg1|
            call_ensures(generate, (), first) && result->Ok_0@ == envelope(first),
        !(old(handle)@.round is Init) ==> final(handle)@ == old(handle)@ && result is Err
            && result->Err_0@ == Rejection::InvalidState.error(),
{
    match handle.round {
        Round::Init => {
            handle.round = Round::WaitMsg1;
            let first = generate();
            Ok(Message::new(first))
        },
        _ => Err(GoError::reject(Rejection::InvalidState)),
    }
}

/// Takes the commitment that the engine computed from the state of a
/// session, which the host passes to the other parties before the third
/// round. A commitment has 32 bytes; anything else is refused.
pub fn dkls_keygen_calculate_commitment_2(commitment: &[u8]) -> (out: Option<[u8; 32]>)
    ensures
        out is Some <==> commitment@.len() == COMMITMENT_LEN,
        out matches Some(bytes) ==> bytes@ == commitment@,
{
    try_to_array::<32>(commitment)
}

/// Takes the messages of the round that the session waits for, lets the
/// engine work on them, and moves the session on.
///
/// In a round that waits for no messages, and in the third round without
/// 32 bytes of commitment for each party, the call is refused: the engine
/// is not called and the session stays as it is. Otherwise the engine is
/// handed the messages, and `settle` says what becomes of its
/// answer.
pub fn dkls_keygen_handle_messages<F: FnOnce(KeygenRequest) -> KeygenReply>(
    handle: &mut KeygenSessionHandle,
    msgs: &[Message],
    commitments: Option<&[u8]>,
    seed: Option<&[u8]>,
    run: F,
) -> (result: Result<Vec<Message>, GoError>)
    requires
        seed_is_valid(seed),
        forall|request: KeygenRequest| call_requires(run, (request,)),
    ensures
        final(handle)@.n == old(handle)@.n,
        match advance_plan(old(handle)@, commitments) {
            Err(why) => final(handle)@ == old(handle)@ && result_view(result) == Err::<
                Seq<MessageView>,
                GoErrorView,
            >(why.error()),
            Ok(step) => exists|request: KeygenRequest, reply: KeygenReply|
                {
                    &&& request_is_due(request, step, msgs@, commitments, seed)
                    &&& call_ensures(run, (request,), reply)
                    &&& final(handle)@.round == settled_round(step, reply)
                    &&& result_view(result) == settled_result(step, reply)
                },
        },
{
    let rng = maybe_seeded_rng(seed);
    let step = match handle.plan(commitments) {
        Err(why) => {
            return Err(GoError::reject(why));
        },
        Ok(step) => step,
    };
    let inbound = Message::copies(msgs);
    let request = match step {
        Step::Msg1 => KeygenRequest::HandleMsg1 { rng, msgs: inbound },
        Step::Msg2 => KeygenRequest::HandleMsg2 { rng, msgs: inbound },
        Step::Msg3 => {
            let bytes = commitments.unwrap();
            let rows = split_commitments(bytes, handle.n);
            KeygenRequest::HandleMsg3 { rng, msgs: inbound, commitments: rows }
        },
        Step::Msg4 => KeygenRequest::HandleMsg4 { msgs: inbound },
    };
    assert(request_is_due(request, step, msgs@, commitments, seed));
    let reply = run(request);
    handle.settle(reply)
}

/// What asking a session for its keyshare comes to: the keyshare of a
/// session that has finished, and for every other session the reason why
/// there is none.
pub open spec fn keyshare_of(round: RoundView) -> Result<KeyshareView, Rejection> {
    match round {
        RoundView::Share(share) => Ok(share),
        RoundView::Failed => Err(Rejection::FailedSession),
        _ => Err(Rejection::KeygenInProgress),
    }
}

/// Takes the keyshare out of a finished session. The session is used up by
/// the call, whatever its round.
pub fn dkls_keygen_keyshare(handle: KeygenSessionHandle) -> (result: Result<KeyshareHandle, GoError>)
    ensures
        match keyshare_of(handle@.round) {
            Ok(share) => result is Ok && result->Ok_0@ == share,
            Err(why) => result is Err && result->Err_0@ == why.error(),
        },
{
    match handle.round {
        Round::Share(share) => Ok(share),
        Round::Failed => Err(GoError::reject(Rejection::FailedSession)),
        _ => Err(GoError::reject(Rejection::KeygenInProgress)),
    }
}

/// What can be written down of a session: the number of parties and the
/// round. It tells an observer where a session stands; the engine's own
/// state is not in it, so no session can be continued from it.
#[derive(Debug)]
pub struct KeygenSessionSerializable {
    pub n: usize,
    pub round: Round,
}

/// What can be written down of a session, or nothing where there is no
/// session.
pub fn dkls_keygen_to_bytes(handle: Option<&KeygenSessionHandle>) -> (out: Option<
    KeygenSessionSerializable,
>)
    ensures
        handle is None <==> out is None,
        handle matches Some(session) ==> out->Some_0.n == session@.n && out->Some_0.round@
            == session@.round,
{
    match handle {
        None => None,
        Some(session) => {
            let round = match &session.round {
                Round::Init => Round::Init,
                Round::WaitMsg1 => Round::WaitMsg1,
                Round::WaitMsg2 => Round::WaitMsg2,
                Round::WaitMsg3 => Round::WaitMsg3,
                Round::WaitMsg4 => Round::WaitMsg4,
                Round::Failed => Round::Failed,
                Round::Share(share) => Round::Share(share.duplicate()),
            };
            Some(KeygenSessionSerializable { n: session.n, round })
        },
    }
}

/// No session can be read back from bytes: the engine's state was never
/// written.
pub fn dkls_keygen_from_bytes(bytes: &[u8]) -> (out: Option<KeygenSessionHandle>)
    ensures
        out is None,
{
    None
}

/// A session never goes back: an answer of the engine leaves the round where
/// it is or takes it to a later one, and it takes a round that waits for
/// messages to a later one.
pub proof fn lemma_rounds_never_go_back(round: RoundView, reply: KeygenReply)
    ensures
        advanced(round, reply).rank() >= round.rank(),
        round.awaited() is Some ==> advanced(round, reply).rank() > round.rank(),
{
}

/// `Failed` and `Share` are ends: no answer of the engine leads out of
/// them, and messages that come in are refused as being out of turn.
pub proof fn lemma_ends_are_absorbing(
    session: KeygenSessionView,
    reply: KeygenReply,
    commitments: Option<&[u8]>,
)
    requires
        session.round.is_terminal(),
    ensures
        advanced(session.round, reply) == session.round,
        advance_plan(session, commitments) == Err::<Step, Rejection>(Rejection::InvalidState),
{
}

/// Messages that come in while the session waits for none are refused as
/// being out of turn, whatever else is handed in with them.
pub proof fn lemma_advance_out_of_turn_is_refused(
    session: KeygenSessionView,
    commitments: Option<&[u8]>,
)
    requires
        session.round.awaited() is None,
    ensures
        advance_plan(session, commitments) == Err::<Step, Rejection>(Rejection::InvalidState),
{
}

/// Commitments matter in the third round only, and there they are checked
/// before anything else: the call goes on to the engine if and only if
/// there are 32 bytes for each party.
pub proof fn lemma_commitments_gate_the_third_round(
    session: KeygenSessionView,
    commitments: Option<&[u8]>,
)
    ensures
        session.round is WaitMsg3 ==> (advance_plan(session, commitments) is Ok <==> (commitments
            matches Some(bytes) && bytes@.len() > 0 && bytes@.len() == session.n * COMMITMENT_LEN)),
        session.round.awaited() is Some && !(session.round is WaitMsg3) ==> advance_plan(
            session,
            commitments,
        ) is Ok,
{
}

/// A keyshare comes out of a session that has finished and of no other: a
/// failed session reports that it failed, and a session in any other round
/// that the key generation is in progress.
pub proof fn lemma_keyshare_only_of_a_finished_session(round: RoundView)
    ensures
        keyshare_of(round) is Ok <==> round is Share,
        round is Share ==> keyshare_of(round) == Ok::<KeyshareView, Rejection>(round->Share_0),
        round is Failed ==> keyshare_of(round) == Err::<KeyshareView, Rejection>(
            Rejection::FailedSession,
        ),
        !round.is_terminal() ==> keyshare_of(round) == Err::<KeyshareView, Rejection>(
            Rejection::KeygenInProgress,
        ),
{
}

/// A session whose four rounds all succeed ends with the keyshare that the
/// engine made in the last of them, and that keyshare is what the session
/// gives up.
pub proof fn lemma_four_good_rounds_yield_the_share(
    second: Vec<KeygenMsg2>,
    third: Vec<KeygenMsg3>,
    fourth: KeygenMsg4,
    share: KeyshareHandle,
)
    ensures
        ({
            let after1 = advanced(RoundView::WaitMsg1, KeygenReply::Msg2(second));
            let after2 = advanced(after1, KeygenReply::Msg3(third));
            let after3 = advanced(after2, KeygenReply::Msg4(fourth));
            let after4 = advanced(after3, KeygenReply::Share(share));
            &&& after1 == RoundView::WaitMsg2
            &&& after2 == RoundView::WaitMsg3
            &&& after3 == RoundView::WaitMsg4
            &&& after4 == RoundView::Share(share@)
            &&& keyshare_of(after4) == Ok::<KeyshareView, Rejection>(share@)
        }),
{
}

/// A round that does not succeed ends the session: a failure to decode, a
/// refusal of the engine and an answer that belongs to another round all
/// lead to `Failed` and to an error, and only an answer that fits leads on.
pub proof fn lemma_a_round_succeeds_or_fails_the_session(step: Step, reply: KeygenReply)
    ensures
        reply_fits(step, reply) <==> settled_result(step, reply) is Ok,
        reply_fits(step, reply) <==> !(settled_round(step, reply) is Failed),
{
}

/// The routing of a message follows from the round it belongs to: the
/// first and the fourth go to everybody, the second and the third to the
/// party they name. The body travels unchanged.
pub proof fn lemma_routing_follows_the_round(
    first: KeygenMsg1,
    second: KeygenMsg2,
    third: KeygenMsg3,
    fourth: KeygenMsg4,
)
    ensures
        envelope(first).to_id == BROADCAST && envelope(first).from_id == first.from_id,
        envelope(second).to_id == second.to_id && envelope(second).from_id == second.from_id,
        envelope(third).to_id == third.to_id && envelope(third).from_id == third.from_id,
        envelope(fourth).to_id == BROADCAST && envelope(fourth).from_id == fourth.from_id,
        envelope(first).payload == first.body@,
        envelope(second).payload == second.body@,
        envelope(third).payload == third.body@,
        envelope(fourth).payload == fourth.body@,
{
}

/// With a seed, what the engine is handed is settled by what the host
/// handed in: two calls in the same round with the same messages, the same
/// commitments and the same seed hand the engine the same request, down to
/// the generator. What the engine draws from it, it draws alike.
pub proof fn lemma_same_seed_and_input_give_the_same_request(
    one: KeygenRequest,
    other: KeygenRequest,
    step: Step,
    input: Seq<Message>,
    commitments: Option<&[u8]>,
    seed: &[u8],
)
    requires
        request_is_due(one, step, input, commitments, Some(seed)),
        request_is_due(other, step, input, commitments, Some(seed)),
    ensures
        one@ == other@,
{
}

} // verus!
