//! The session of one party in a threshold signing.
//!
//! A session walks through its rounds in one direction: `Init`, `WaitMsg1`,
//! `WaitMsg2`, `WaitMsg3`, then `Pre`, which holds the pre-signature until
//! the digest is known, then `WaitMsg4`, which holds this party's partial
//! signature until the others arrive. Combining the partial signatures uses
//! the session up. From every round that waits for messages a failure leads
//! to `Failed`, and nothing leads out of `Failed`.
//!
//! The pre-signature and the partial signature belong to the protocol
//! engine. A session keeps them for the engine and never looks inside, so
//! their types are parameters.

use vstd::prelude::*;
use crate::bytes::try_to_array;
use crate::errors::{failure, sign_error_to_go, sign_failure, GoError, GoErrorView, Rejection, SignError, CODE_ABORT_AND_BAN, CODE_FAILURE};
use crate::keyshare::KeyshareHandle;
use crate::message::{envelope, message_views, Message, MessageRouting, MessageView, Payload, BROADCAST};
use crate::rng::{maybe_seeded_rng, seed_is_valid, seeded_by};

verus! {

/// Length of the digest that is signed.
pub const DIGEST_LEN: usize = 32;

/// Length of each half of a signature.
pub const SCALAR_LEN: usize = 32;

#[verifier::external_type_specification]
#[verifier::external_body]
pub struct ExDerivationPath(derivation_path::DerivationPath);

/// The path that `DerivationPath::from_str` reads from a text, if it reads
/// one. It reads a path from `m` followed by any number of child indexes,
/// each behind a `/`: a number below 2^31 in decimal digits, with a `'`
/// behind it where the index is hardened.
pub uninterp spec fn parsed_path(text: Seq<char>) -> Option<derivation_path::DerivationPath>;

/// Calls `DerivationPath::from_str` and drops the reason of a failure.
/// Nothing is proved of it: the contract names the outcome, which depends on
/// the text alone.
#[verifier::external_body]
fn parse_path(text: &str) -> (path: Option<derivation_path::DerivationPath>)
    ensures
        path == parsed_path(text@),
{
    <derivation_path::DerivationPath as std::str::FromStr>::from_str(text).ok()
}

/// The round a signing session is in. `P` is the engine's pre-signature,
/// `S` its partial signature.
#[derive(Debug)]
pub enum Round<P, S> {
    Init,
    WaitMsg1,
    WaitMsg2,
    WaitMsg3,
    Pre(P),
    WaitMsg4(S),
    Failed,
    Finished,
}

/// The rounds of messages that a session can wait for before the digest is
/// known.
#[derive(Clone, Copy, Debug, PartialEq, Eq, Structural)]
pub enum Step {
    Msg1,
    Msg2,
    Msg3,
}

impl<P, S> Round<P, S> {
    /// The messages the round waits for, if it waits for any of the first
    /// three rounds.
    pub open spec fn awaited(self) -> Option<Step> {
        match self {
            Round::WaitMsg1 => Some(Step::Msg1),
            Round::WaitMsg2 => Some(Step::Msg2),
            Round::WaitMsg3 => Some(Step::Msg3),
            _ => None,
        }
    }

    /// The place of the round in the order in which a session walks through
    /// its rounds. The two ends share the last place.
    pub open spec fn rank(self) -> nat {
        match self {
            Round::Init => 0,
            Round::WaitMsg1 => 1,
            Round::WaitMsg2 => 2,
            Round::WaitMsg3 => 3,
            Round::Pre(_) => 4,
            Round::WaitMsg4(_) => 5,
            Round::Failed => 6,
            Round::Finished => 6,
        }
    }
}

/// The signing session of one party.
#[derive(Debug)]
pub struct SignSessionHandle<P, S> {
    round: Round<P, S>,
}

impl<P, S> View for SignSessionHandle<P, S> {
    type V = Round<P, S>;

    closed spec fn view(&self) -> Round<P, S> {
        self.round
    }
}

/// What a round of the engine left behind of a first round message: the
/// sender and the encoded body. It is for every party.
#[derive(Debug)]
pub struct SignMsg1 {
    pub from_id: u8,
    pub body: Vec<u8>,
}

/// A second round message: for one party.
#[derive(Debug)]
pub struct SignMsg2 {
    pub from_id: u8,
    pub to_id: u8,
    pub body: Vec<u8>,
}

/// A third round message: for one party.
#[derive(Debug)]
pub struct SignMsg3 {
    pub from_id: u8,
    pub to_id: u8,
    pub body: Vec<u8>,
}

/// A fourth round message, which carries a partial signature: for every
/// party.
#[derive(Debug)]
pub struct SignMsg4 {
    pub from_id: u8,
    pub body: Vec<u8>,
}

impl MessageRouting for SignMsg1 {
    open spec fn source(&self) -> u8 {
        self.from_id
    }

    open spec fn destination(&self) -> Option<u8> {
        None
    }

    fn src_party_id(&self) -> u8 {
        self.from_id
    }

    fn dst_party_id(&self) -> Option<u8> {
        None
    }
}

impl MessageRouting for SignMsg2 {
    open spec fn source(&self) -> u8 {
        self.from_id
    }

    open spec fn destination(&self) -> Option<u8> {
        Some(self.to_id)
    }

    fn src_party_id(&self) -> u8 {
        self.from_id
    }

    fn dst_party_id(&self) -> Option<u8> {
        Some(self.to_id)
    }
}

impl MessageRouting for SignMsg3 {
    open spec fn source(&self) -> u8 {
        self.from_id
    }

    open spec fn destination(&self) -> Option<u8> {
        Some(self.to_id)
    }

    fn src_party_id(&self) -> u8 {
        self.from_id
    }

    fn dst_party_id(&self) -> Option<u8> {
        Some(self.to_id)
    }
}

impl MessageRouting for SignMsg4 {
    open spec fn source(&self) -> u8 {
        self.from_id
    }

    open spec fn destination(&self) -> Option<u8> {
        None
    }

    fn src_party_id(&self) -> u8 {
        self.from_id
    }

    fn dst_party_id(&self) -> Option<u8> {
        None
    }
}

impl Payload for SignMsg1 {
    open spec fn encoding(&self) -> Seq<u8> {
        self.body@
    }

    fn into_encoding(self) -> Vec<u8> {
        self.body
    }
}

impl Payload for SignMsg2 {
    open spec fn encoding(&self) -> Seq<u8> {
        self.body@
    }

    fn into_encoding(self) -> Vec<u8> {
        self.body
    }
}

impl Payload for SignMsg3 {
    open spec fn encoding(&self) -> Seq<u8> {
        self.body@
    }

    fn into_encoding(self) -> Vec<u8> {
        self.body
    }
}

impl Payload for SignMsg4 {
    open spec fn encoding(&self) -> Seq<u8> {
        self.body@
    }

    fn into_encoding(self) -> Vec<u8> {
        self.body
    }
}

/// What the engine is handed to open a signing session: a copy of the
/// keyshare, the derivation path, and the generator.
#[derive(Debug)]
pub struct SignSetup {
    pub keyshare: KeyshareHandle,
    pub chain_path: derivation_path::DerivationPath,
    pub rng: rand_chacha::ChaCha20Rng,
}

/// One call into the engine: the messages that came in, and
/// the generator where the round draws randomness.
#[derive(Debug)]
pub enum SignRequest {
    HandleMsg1 { rng: rand_chacha::ChaCha20Rng, msgs: Vec<Message> },
    HandleMsg2 { rng: rand_chacha::ChaCha20Rng, msgs: Vec<Message> },
    HandleMsg3 { msgs: Vec<Message> },
}

/// The mathematical content of a request: the round it asks for, the
/// generator if the round draws randomness, and the messages.
pub struct SignRequestView {
    pub step: Step,
    pub rng: Option<rand_chacha::ChaCha20Rng>,
    pub msgs: Seq<MessageView>,
}

impl View for SignRequest {
    type V = SignRequestView;

    open spec fn view(&self) -> SignRequestView {
        match self {
            SignRequest::HandleMsg1 { rng, msgs } => SignRequestView {
                step: Step::Msg1,
                rng: Some(*rng),
                msgs: message_views(msgs@),
            },
            SignRequest::HandleMsg2 { rng, msgs } => SignRequestView {
                step: Step::Msg2,
                rng: Some(*rng),
                msgs: message_views(msgs@),
            },
            SignRequest::HandleMsg3 { msgs } => SignRequestView {
                step: Step::Msg3,
                rng: None,
                msgs: message_views(msgs@),
            },
        }
    }
}

/// What came of one call into the engine.
#[derive(Debug)]
pub enum SignReply<P> {
    /// One of the messages did not decode. The text says why.
    Undecodable(String),
    /// The engine refused the round.
    Rejected(SignError),
    /// The first round is done: the messages of the second.
    Msg2(Vec<SignMsg2>),
    /// The second round is done: the messages of the third.
    Msg3(Vec<SignMsg3>),
    /// The third round is done: the pre-signature.
    Pre(P),
}

/// What came of combining the partial signatures.
#[derive(Debug)]
pub enum CombineReply {
    /// One of the messages did not decode. The text says why.
    Undecodable(String),
    /// The partial signatures do not combine.
    Rejected(SignError),
    /// The two halves of the signature, each a scalar in big-endian bytes.
    Signature { r: Vec<u8>, s: Vec<u8> },
}

/// A signature: two scalars of 32 bytes each, big-endian.
#[derive(Debug)]
pub struct Signature {
    pub r: [u8; 32],
    pub s: [u8; 32],
}

/// The rounds of a session that can be written down: those that hold
/// nothing of the engine.
#[derive(Clone, Copy, Debug, PartialEq, Eq, Structural)]
pub enum RoundMarker {
    Init,
    WaitMsg1,
    WaitMsg2,
    WaitMsg3,
    Failed,
    Finished,
}

/// What can be written down of a session: the round. It tells an observer
/// where a session stands; no session can be continued from it.
#[derive(Debug)]
pub struct SignSessionSerializable {
    pub round: RoundMarker,
}

/// The marker of a round, where the round can be written down.
pub open spec fn marker_of<P, S>(round: Round<P, S>) -> Option<RoundMarker> {
    match round {
        Round::Init => Some(RoundMarker::Init),
        Round::WaitMsg1 => Some(RoundMarker::WaitMsg1),
        Round::WaitMsg2 => Some(RoundMarker::WaitMsg2),
        Round::WaitMsg3 => Some(RoundMarker::WaitMsg3),
        Round::Pre(_) => None,
        Round::WaitMsg4(_) => None,
        Round::Failed => Some(RoundMarker::Failed),
        Round::Finished => Some(RoundMarker::Finished),
    }
}

/// Whether the reply is the result of the round that was due.
pub open spec fn reply_fits<P>(step: Step, reply: SignReply<P>) -> bool {
    match (step, reply) {
        (Step::Msg1, SignReply::Msg2(_)) => true,
        (Step::Msg2, SignReply::Msg3(_)) => true,
        (Step::Msg3, SignReply::Pre(_)) => true,
        _ => false,
    }
}

/// The round of a session after the engine has answered the round that was
/// due. Success leads one round on, and from the third round to the
/// pre-signature; everything else leads to `Failed`.
pub open spec fn settled_round<P, S>(step: Step, reply: SignReply<P>) -> Round<P, S> {
    match (step, reply) {
        (Step::Msg1, SignReply::Msg2(_)) => Round::WaitMsg2,
        (Step::Msg2, SignReply::Msg3(_)) => Round::WaitMsg3,
        (Step::Msg3, SignReply::Pre(pre)) => Round::Pre(pre),
        _ => Round::Failed,
    }
}

/// What the host is given after the engine has answered the round that was
/// due: the outgoing messages in their envelopes, none after the third
/// round, or the error that says what went wrong.
pub open spec fn settled_result<P>(step: Step, reply: SignReply<P>) -> Result<
    Seq<MessageView>,
    GoErrorView,
> {
    match (step, reply) {
        (_, SignReply::Undecodable(text)) => Err(failure(text@)),
        (_, SignReply::Rejected(err)) => Err(sign_failure(err.text@, err.abort_and_ban)),
        (Step::Msg1, SignReply::Msg2(msgs)) => Ok(msgs@.map_values(|m: SignMsg2| envelope(m))),
        (Step::Msg2, SignReply::Msg3(msgs)) => Ok(msgs@.map_values(|m: SignMsg3| envelope(m))),
        (Step::Msg3, SignReply::Pre(_)) => Ok(Seq::empty()),
        _ => Err(Rejection::UnexpectedReply.error()),
    }
}

/// The round of a session after an answer of the engine, whatever the round
/// before: a session that waits for none of the first three rounds keeps
/// its round.
pub open spec fn advanced<P, S>(round: Round<P, S>, reply: SignReply<P>) -> Round<P, S> {
    match round.awaited() {
        None => round,
        Some(step) => settled_round(step, reply),
    }
}

/// The content of what an operation hands to the host.
pub open spec fn result_view(result: Result<Vec<Message>, GoError>) -> Result<
    Seq<MessageView>,
    GoErrorView,
> {
    match result {
        Ok(msgs) => Ok(message_views(msgs@)),
        Err(err) => Err(err@),
    }
}

/// Whether `request` is the call into the engine that is due at `step`: it
/// asks for that round, with the incoming messages in their order, and with
/// the generator that the seed asks for where the round draws randomness.
pub open spec fn request_is_due(
    request: SignRequest,
    step: Step,
    input: Seq<Message>,
    seed: Option<&[u8]>,
) -> bool {
    &&& request@.step == step
    &&& request@.msgs == message_views(input)
    &&& request@.rng matches Some(rng) ==> seeded_by(rng, seed)
}

/// The signature that combining comes to, or the error: a failure to decode
/// and a refusal of the engine are passed on, and a signature is taken if
/// both of its halves have 32 bytes.
pub open spec fn combined(reply: CombineReply) -> Result<(Seq<u8>, Seq<u8>), GoErrorView> {
    match reply {
        CombineReply::Undecodable(text) => Err(failure(text@)),
        CombineReply::Rejected(err) => Err(sign_failure(err.text@, err.abort_and_ban)),
        CombineReply::Signature { r, s } => if r@.len() == SCALAR_LEN && s@.len() == SCALAR_LEN {
            Ok((r@, s@))
        } else {
            Err(Rejection::InvalidSignatureSize.error())
        },
    }
}

/// The content of a signature or of the error in its place.
pub open spec fn signature_view(result: Result<Signature, GoError>) -> Result<
    (Seq<u8>, Seq<u8>),
    GoErrorView,
> {
    match result {
        Ok(sig) => Ok((sig.r@, sig.s@)),
        Err(err) => Err(err@),
    }
}

/// Takes what came of combining the partial signatures.
pub fn signature_of(reply: CombineReply) -> (result: Result<Signature, GoError>)
    ensures
        signature_view(result) == combined(reply),
{
    match reply {
        CombineReply::Undecodable(text) => Err(GoError::new(text.as_str(), CODE_FAILURE)),
        CombineReply::Rejected(err) => Err(sign_error_to_go(err)),
        CombineReply::Signature { r, s } => {
            match (try_to_array::<32>(r.as_slice()), try_to_array::<32>(s.as_slice())) {
                (Some(r), Some(s)) => Ok(Signature { r, s }),
                _ => Err(GoError::reject(Rejection::InvalidSignatureSize)),
            }
        },
    }
}

impl<P, S> SignSessionHandle<P, S> {
    /// A session in its first round.
    pub fn new() -> (session: SignSessionHandle<P, S>)
        ensures
            session@ == Round::<P, S>::Init,
    {
        SignSessionHandle { round: Round::Init }
    }

    /// The round the session is in.
    pub fn round(&self) -> (round: &Round<P, S>)
        ensures
            *round == self@,
    {
        &self.round
    }

    /// The messages the session waits for, if it waits for any of the first
    /// three rounds.
    pub fn awaited(&self) -> (step: Option<Step>)
        ensures
            step == self@.awaited(),
    {
        match &self.round {
            Round::WaitMsg1 => Some(Step::Msg1),
            Round::WaitMsg2 => Some(Step::Msg2),
            Round::WaitMsg3 => Some(Step::Msg3),
            _ => None,
        }
    }

    /// Takes the answer of the engine to the round that the session waits
    /// for. A session that waits for no round refuses the answer and stays
    /// as it is.
    pub fn settle(&mut self, reply: SignReply<P>) -> (result: Result<Vec<Message>, GoError>)
        ensures
            final(self)@ == advanced(old(self)@, reply),
            match old(self)@.awaited() {
                None => final(self)@ == old(self)@ && result_view(result) == Err::<
                    Seq<MessageView>,
                    GoErrorView,
                >(Rejection::InvalidState.error()),
                Some(step) => final(self)@ == settled_round::<P, S>(step, reply) && result_view(
                    result,
                ) == settled_result(step, reply),
            },
    {
        let step = match self.awaited() {
            None => {
                return Err(GoError::reject(Rejection::InvalidState));
            },
            Some(step) => step,
        };
        match reply {
            SignReply::Undecodable(text) => {
                self.round = Round::Failed;
                Err(GoError::new(text.as_str(), CODE_FAILURE))
            },
            SignReply::Rejected(err) => {
                self.round = Round::Failed;
                Err(sign_error_to_go(err))
            },
            SignReply::Msg2(msgs) => {
                match step {
                    Step::Msg1 => {
                        self.round = Round::WaitMsg2;
                        Ok(Message::encode_vector(msgs))
                    },
                    _ => self.fail(Rejection::UnexpectedReply),
                }
            },
            SignReply::Msg3(msgs) => {
                match step {
                    Step::Msg2 => {
                        self.round = Round::WaitMsg3;
                        Ok(Message::encode_vector(msgs))
                    },
                    _ => self.fail(Rejection::UnexpectedReply),
                }
            },
            SignReply::Pre(pre) => {
                match step {
                    Step::Msg3 => {
                        self.round = Round::Pre(pre);
                        let out: Vec<Message> = Vec::new();
                        assert(message_views(out@) =~= Seq::<MessageView>::empty());
                        Ok(out)
                    },
                    _ => self.fail(Rejection::UnexpectedReply),
                }
            },
        }
    }

    /// Ends the session in `Failed` and reports why.
    fn fail(&mut self, why: Rejection) -> (result: Result<Vec<Message>, GoError>)
        ensures
            final(self)@ == Round::<P, S>::Failed,
            result_view(result) == Err::<Seq<MessageView>, GoErrorView>(why.error()),
    {
        self.round = Round::Failed;
        Err(GoError::reject(why))
    }
}

/// Reads a derivation path from its text.
pub fn read_path(chain_path: &str) -> (result: Result<derivation_path::DerivationPath, Rejection>)
    ensures
        match parsed_path(chain_path@) {
            Some(path) => result == Ok::<derivation_path::DerivationPath, Rejection>(path),
            None => result == Err::<derivation_path::DerivationPath, Rejection>(
                Rejection::InvalidDerivationPath,
            ),
        },
{
    match parse_path(chain_path) {
        Some(path) => Ok(path),
        None => Err(Rejection::InvalidDerivationPath),
    }
}

/// Begins a signing session on a copy of a keyshare; the caller's keyshare
/// is left as it is. A derivation path that does not parse is refused
/// before the engine is called, and a refusal of the engine is reported
/// without its reason.
pub fn dkls_sign_new<P, S, F: FnOnce(SignSetup) -> bool>(
    keyshare: &KeyshareHandle,
    chain_path: &str,
    seed: Option<&[u8]>,
    start: F,
) -> (result: Result<SignSessionHandle<P, S>, GoError>)
    requires
        seed_is_valid(seed),
        forall|setup: SignSetup| call_requires(start, (setup,)),
    ensures
        match parsed_path(chain_path@) {
            None => result is Err && result->Err_0@ == Rejection::InvalidDerivationPath.error(),
            Some(path) => exists|setup: SignSetup, accepted: bool|
                {
                    &&& setup.keyshare@ == keyshare@
                    &&& setup.chain_path == path
                    &&& seeded_by(setup.rng, seed)
                    &&& call_ensures(start, (setup,), accepted)
                    &&& if accepted {
                        result is Ok && result->Ok_0@ == Round::<P, S>::Init
                    } else {
                        result is Err && result->Err_0@ == Rejection::SignInitFailed.error()
                    }
                },
        },
{
    let path = match read_path(chain_path) {
        Err(why) => {
            return Err(GoError::reject(why));
        },
        Ok(path) => path,
    };
    let rng = maybe_seeded_rng(seed);
    let setup = SignSetup { keyshare: keyshare.duplicate(), chain_path: path, rng };
    if start(setup) {
        Ok(SignSessionHandle::new())
    } else {
        Err(GoError::reject(Rejection::SignInitFailed))
    }
}

/// Produces the first message. It is due in `Init` only, and takes the
/// session to `WaitMsg1`; in every other round the session stays as it is
/// and the engine is not called.
pub fn dkls_sign_create_first_message<P, S, F: FnOnce() -> SignMsg1>(
    handle: &mut SignSessionHandle<P, S>,
    generate: F,
) -> (result: Result<Message, GoError>)
    requires
        call_requires(generate, ()),
    ensures
        old(handle)@ is Init ==> final(handle)@ == Round::<P, S>::WaitMsg1 && result is Ok
            && exists|first: SignMsg1|
            call_ensures(generate, (), first) && result->Ok_0@ == envelope(first),
        !(old(handle)@ is Init) ==> final(handle)@ == old(handle)@ && result is Err
            && result->Err_0@ == Rejection::InvalidState.error(),
{
    match handle.round {
        Round::Init => {
            handle.round = Round::WaitMsg1;
            let first = generate();
            Ok(Message::new(first))
        },
        _ => Err(GoError::reject(Rejection::InvalidState)),
    }
}

/// Takes the messages of the round that the session waits for, lets the
/// engine work on them, and moves the session on.
///
/// In a round that waits for none of the first three rounds of messages the
/// call is refused: the engine is not called and the session stays as it
/// is. Otherwise the engine is handed the messages, and
/// `settle` says what becomes of its answer.
pub fn dkls_sign_handle_messages<P, S, F: FnOnce(SignRequest) -> SignReply<P>>(
    handle: &mut SignSessionHandle<P, S>,
    msgs: &[Message],
    seed: Option<&[u8]>,
    run: F,
) -> (result: Result<Vec<Message>, GoError>)
    requires
        seed_is_valid(seed),
        forall|request: SignRequest| call_requires(run, (request,)),
    ensures
        match old(handle)@.awaited() {
            None => final(handle)@ == old(handle)@ && result_view(result) == Err::<
                Seq<MessageView>,
                GoErrorView,
            >(Rejection::InvalidState.error()),
            Some(step) => exists|request: SignRequest, reply: SignReply<P>|
                {
                    &&& request_is_due(request, step, msgs@, seed)
                    &&& call_ensures(run, (request,), reply)
                    &&& final(handle)@ == settled_round::<P, S>(step, reply)
                    &&& result_view(result) == settled_result(step, reply)
                },
        },
{
    let rng = maybe_seeded_rng(seed);
    let step = match handle.awaited() {
        None => {
            return Err(GoError::reject(Rejection::InvalidState));
        },
        Some(step) => step,
    };
    let inbound = Message::copies(msgs);
    let request = match step {
        Step::Msg1 => SignRequest::HandleMsg1 { rng, msgs: inbound },
        Step::Msg2 => SignRequest::HandleMsg2 { rng, msgs: inbound },
        Step::Msg3 => SignRequest::HandleMsg3 { msgs: inbound },
    };
    assert(request_is_due(request, step, msgs@, seed));
    let reply = run(request);
    handle.settle(reply)
}

/// Why a call that supplies the digest is refused, if it is: the digest
/// does not have 32 bytes, or the session holds no pre-signature.
pub open spec fn digest_fault<P, S>(round: Round<P, S>, message_hash: Seq<u8>) -> Option<Rejection> {
    if message_hash.len() != DIGEST_LEN {
        Some(Rejection::InvalidMessageHash)
    } else if !(round is Pre) {
        Some(Rejection::InvalidState)
    } else {
        None
    }
}

/// The round of a session after the digest was supplied and the engine has
/// made the partial signature.
pub open spec fn signed<P, S>(round: Round<P, S>, message_hash: Seq<u8>, partial: S) -> Round<P, S> {
    match digest_fault(round, message_hash) {
        Some(_) => round,
        None => Round::WaitMsg4(partial),
    }
}

/// Supplies the digest to sign. The session gives its pre-signature to the
/// engine, keeps the partial signature that comes back, and hands out the
/// message that carries this party's part to everybody.
///
/// It is due in `Pre` only and wants a digest of 32 bytes; a call that is
/// refused leaves the session, pre-signature included, as it is.
pub fn dkls_sign_last_message<P, S, F: FnOnce(P, [u8; 32]) -> (S, SignMsg4)>(
    handle: &mut SignSessionHandle<P, S>,
    message_hash: &[u8],
    sign: F,
) -> (result: Result<Message, GoError>)
    requires
        forall|pre: P, digest: [u8; 32]| call_requires(sign, (pre, digest)),
    ensures
        match digest_fault(old(handle)@, message_hash@) {
            Some(why) => final(handle)@ == old(handle)@ && result is Err && result->Err_0@
                == why.error(),
            None => exists|digest: [u8; 32], partial: S, last: SignMsg4|
                {
                    &&& digest@ == message_hash@
                    &&& call_ensures(sign, (old(handle)@->Pre_0, digest), (partial, last))
                    &&& final(handle)@ == signed(old(handle)@, message_hash@, partial)
                    &&& result is Ok
                    &&& result->Ok_0@ == envelope(last)
                },
        },
{
    let digest = match try_to_array::<32>(message_hash) {
        None => {
            return Err(GoError::reject(Rejection::InvalidMessageHash));
        },
        Some(digest) => digest,
    };
    let mut round = Round::Finished;
    std::mem::swap(&mut handle.round, &mut round);
    match round {
        Round::Pre(pre) => {
            let (partial, last) = sign(pre, digest);
            handle.round = Round::WaitMsg4(partial);
            Ok(Message::new(last))
        },
        prev => {
            handle.round = prev;
            Err(GoError::reject(Rejection::InvalidState))
        },
    }
}

/// Combines this party's partial signature with those of the others. The
/// session is used up by the call, whatever comes of it.
///
/// It is due in `WaitMsg4` only. The engine is handed the partial
/// signature and the messages; `signature_of` says what
/// becomes of its answer.
pub fn dkls_sign_combine<P, S, F: FnOnce(S, Vec<Message>) -> CombineReply>(
    handle: SignSessionHandle<P, S>,
    msgs: &[Message],
    combine: F,
) -> (result: Result<Signature, GoError>)
    requires
        forall|partial: S, inbound: Vec<Message>| call_requires(combine, (partial, inbound)),
    ensures
        match handle@ {
            Round::WaitMsg4(partial) => exists|inbound: Vec<Message>, reply: CombineReply|
                {
                    &&& message_views(inbound@) == message_views(msgs@)
                    &&& call_ensures(combine, (partial, inbound), reply)
                    &&& signature_view(result) == combined(reply)
                },
            _ => signature_view(result) == Err::<(Seq<u8>, Seq<u8>), GoErrorView>(
                Rejection::InvalidState.error(),
            ),
        },
{
    match handle.round {
        Round::WaitMsg4(partial) => {
            let inbound = Message::copies(msgs);
            let reply = combine(partial, inbound);
            signature_of(reply)
        },
        _ => Err(GoError::reject(Rejection::InvalidState)),
    }
}

/// What can be written down of a session; nothing where there is no
/// session, and nothing while the session holds a pre-signature or a
/// partial signature.
pub fn dkls_sign_to_bytes<P, S>(handle: Option<&SignSessionHandle<P, S>>) -> (out: Option<
    SignSessionSerializable,
>)
    ensures
        match handle {
            None => out is None,
            Some(session) => match marker_of(session@) {
                None => out is None,
                Some(marker) => out is Some && out->Some_0.round == marker,
            },
        },
{
    match handle {
        None => None,
        Some(session) => {
            let round = match &session.round {
                Round::Init => RoundMarker::Init,
                Round::WaitMsg1 => RoundMarker::WaitMsg1,
                Round::WaitMsg2 => RoundMarker::WaitMsg2,
                Round::WaitMsg3 => RoundMarker::WaitMsg3,
                Round::Pre(_) => {
                    return None;
                },
                Round::WaitMsg4(_) => {
                    return None;
                },
                Round::Failed => RoundMarker::Failed,
                Round::Finished => RoundMarker::Finished,
            };
            Some(SignSessionSerializable { round })
        },
    }
}

/// No session can be read back from bytes: the engine's state was never
/// written.
pub fn dkls_sign_from_bytes<P, S>(bytes: &[u8]) -> (out: Option<SignSessionHandle<P, S>>)
    ensures
        out is None,
{
    None
}

/// A session never goes back: neither an answer of the engine nor the
/// digest takes the round to an earlier one.
pub proof fn lemma_rounds_never_go_back<P, S>(
    round: Round<P, S>,
    reply: SignReply<P>,
    message_hash: Seq<u8>,
    partial: S,
)
    ensures
        advanced(round, reply).rank() >= round.rank(),
        round.awaited() is Some ==> advanced(round, reply).rank() > round.rank(),
        signed(round, message_hash, partial).rank() >= round.rank(),
{
}

/// `Failed` is an end: no answer of the engine and no digest leads out of
/// it.
pub proof fn lemma_failed_is_absorbing<P, S>(reply: SignReply<P>, message_hash: Seq<u8>, partial: S)
    ensures
        advanced(Round::<P, S>::Failed, reply) == Round::<P, S>::Failed,
        signed(Round::<P, S>::Failed, message_hash, partial) == Round::<P, S>::Failed,
{
}

/// A digest that does not have 32 bytes is refused in every round, and the
/// round stays what it was.
pub proof fn lemma_digest_of_wrong_length_is_refused<P, S>(
    round: Round<P, S>,
    message_hash: Seq<u8>,
    partial: S,
)
    requires
        message_hash.len() != DIGEST_LEN,
    ensures
        digest_fault(round, message_hash) == Some(Rejection::InvalidMessageHash),
        signed(round, message_hash, partial) == round,
{
}

/// A digest of 32 bytes is taken in `Pre` and refused as out of turn in
/// every other round, which stays what it was.
pub proof fn lemma_digest_out_of_turn_is_refused<P, S>(
    round: Round<P, S>,
    message_hash: Seq<u8>,
    partial: S,
)
    requires
        message_hash.len() == DIGEST_LEN,
    ensures
        digest_fault(round, message_hash) is None <==> round is Pre,
        !(round is Pre) ==> digest_fault(round, message_hash) == Some(Rejection::InvalidState)
            && signed(round, message_hash, partial) == round,
{
}

/// Combining yields a signature only if the messages decoded, the engine
/// combined them, and both halves have 32 bytes. Whatever else comes back
/// is an error.
pub proof fn lemma_combining_yields_a_whole_signature_or_fails(reply: CombineReply)
    ensures
        combined(reply) is Ok <==> (reply matches CombineReply::Signature { r, s } && r@.len()
            == SCALAR_LEN && s@.len() == SCALAR_LEN),
        combined(reply) matches Ok(pair) ==> pair.0.len() == SCALAR_LEN && pair.1.len()
            == SCALAR_LEN,
        reply is Undecodable || reply is Rejected ==> combined(reply) is Err,
{
}

/// A round that does not succeed ends the session: a failure to decode, a
/// refusal of the engine and an answer that belongs to another round all
/// lead to `Failed` and to an error, and only an answer that fits leads on.
pub proof fn lemma_a_round_succeeds_or_fails_the_session<P, S>(step: Step, reply: SignReply<P>)
    ensures
        reply_fits(step, reply) <==> settled_result(step, reply) is Ok,
        reply_fits(step, reply) <==> !(settled_round::<P, S>(step, reply) is Failed),
{
}

/// Of all that a round can come to, only the engine's request to abort and
/// ban a party carries the code that says so.
pub proof fn lemma_only_a_ban_carries_the_ban_code<P>(step: Step, reply: SignReply<P>)
    ensures
        (settled_result(step, reply) matches Err(err) && err.code == CODE_ABORT_AND_BAN) <==> (reply
            matches SignReply::Rejected(cause) && cause.abort_and_ban),
{
}

/// The routing of a message follows from the round it belongs to: the
/// first and the fourth go to everybody, the second and the third to the
/// party they name. The body travels unchanged.
pub proof fn lemma_routing_follows_the_round(
    first: SignMsg1,
    second: SignMsg2,
    third: SignMsg3,
    fourth: SignMsg4,
)
    ensures
        envelope(first).to_id == BROADCAST && envelope(first).from_id == first.from_id,
        envelope(second).to_id == second.to_id && envelope(second).from_id == second.from_id,
        envelope(third).to_id == third.to_id && envelope(third).from_id == third.from_id,
        envelope(fourth).to_id == BROADCAST && envelope(fourth).from_id == fourth.from_id,
        envelope(first).payload == first.body@,
        envelope(second).payload == second.body@,
        envelope(third).payload == third.body@,
        envelope(fourth).payload == fourth.body@,
{
}

/// With a seed, what the engine is handed is settled by what the host
/// handed in: two calls in the same round with the same messages and the
/// same seed hand the engine the same request, down to the generator. What
/// the engine draws from it, it draws alike.
pub proof fn lemma_same_seed_and_input_give_the_same_request(
    one: SignRequest,
    other: SignRequest,
    step: Step,
    input: Seq<Message>,
    seed: &[u8],
)
    requires
        request_is_due(one, step, input, Some(seed)),
        request_is_due(other, step, input, Some(seed)),
    ensures
        one@ == other@,
{
}

} // verus!
