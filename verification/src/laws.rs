//! What holds of every connection, whatever the client sends and however
//! the operations on the wire end.

use vstd::prelude::*;
use vstd::utf8::decode_utf8;
use vstd::utf8::encode_utf8;
use vstd::utf8::valid_utf8;
use crate::address::TargetAddrView;
use crate::auth::Authentication;
use crate::auth::SimpleUserPassword;
use crate::config::ConfigView;
use crate::error::IoErrorKind;
use crate::error::SocksErrorView;
use crate::handshake::credentials_status;
use crate::handshake::methods_status;
use crate::request::request_status;
use crate::socket::ActionView;
use crate::socket::EventView;
use crate::socket::Phase;
use crate::socket::SocketView;
use crate::wire::Status;

verus! {

/// The state a connection is in after `events`, and the actions that the
/// engine answered them with, one for each event.
pub open spec fn run(start: SocketView, events: Seq<EventView>) -> (SocketView, Seq<ActionView>)
    decreases events.len(),
{
    if events.len() == 0 {
        (start, Seq::empty())
    } else {
        let before = run(start, events.drop_last());
        let step = before.0.next(events.last());
        (step.0, before.1.push(step.1))
    }
}

/// Whether an action writes a method selection message: two bytes, of
/// which the first is the protocol version.
pub open spec fn is_method_selection(action: ActionView) -> bool {
    action matches ActionView::Write(bytes) && bytes.len() == 2 && bytes[0] == 0x05
}

/// Whether an action writes a reply to a request: ten bytes, of which the
/// first is the protocol version and the third is zero.
pub open spec fn is_request_reply(action: ActionView) -> bool {
    action matches ActionView::Write(bytes) && bytes.len() == 10 && bytes[0] == 0x05 && bytes[2]
        == 0x00
}

/// The number of method selection messages among `actions`.
pub open spec fn method_selections(actions: Seq<ActionView>) -> nat
    decreases actions.len(),
{
    if actions.len() == 0 {
        0
    } else {
        method_selections(actions.drop_last()) + if is_method_selection(actions.last()) {
            1nat
        } else {
            0nat
        }
    }
}

/// The number of replies to a request among `actions`.
pub open spec fn request_replies(actions: Seq<ActionView>) -> nat
    decreases actions.len(),
{
    if actions.len() == 0 {
        0
    } else {
        request_replies(actions.drop_last()) + if is_request_reply(actions.last()) {
            1nat
        } else {
            0nat
        }
    }
}

/// A connection never goes back to an earlier phase, and its settings
/// never change.
pub proof fn lemma_phases_only_advance(state: SocketView, event: EventView)
    ensures
        state.next(event).0.phase.rank() >= state.phase.rank(),
        state.next(event).0.config == state.config,
{
}

/// Once the handshake is over, the negotiated authentication stays as it
/// is.
pub proof fn lemma_authentication_is_settled(state: SocketView, event: EventView)
    requires
        state.phase.rank() >= Phase::Request.rank(),
    ensures
        state.next(event).0.auth == state.auth,
{
}

/// A connection that has ended stays as it is, and repeats how it ended.
pub proof fn lemma_closed_is_final(state: SocketView, event: EventView)
    requires
        state.phase == Phase::Closed,
    ensures
        state.next(event).0 == state,
        state.next(event).1 == state.end().1,
        !(state.next(event).1 is Write),
        !(state.next(event).1 is Read),
{
}

/// What the phase of a connection says of the number of method
/// selections written so far: none before the method request is complete,
/// one from then on.
pub open spec fn selections_fit(state: SocketView, written: nat) -> bool {
    if state.phase == Phase::Accepted || state.phase == Phase::Methods {
        written == 0
    } else if state.phase == Phase::Closed {
        written <= 1
    } else {
        written == 1
    }
}

/// What the phase of a connection says of the number of replies written
/// so far: none before the request is decided, one from then on.
pub open spec fn replies_fit(state: SocketView, written: nat) -> bool {
    match state.phase {
        Phase::SuccessReply | Phase::Relaying => written == 1,
        Phase::FailureReply => written == 1 && state.failure matches Some(
            SocksErrorView::ReplyError(_),
        ),
        Phase::MethodRefusal | Phase::AuthRefusal => written == 0 && state.failure is Some
            && !(state.failure matches Some(SocksErrorView::ReplyError(_))),
        Phase::Closed => {
            &&& written <= 1
            &&& state.failure matches Some(SocksErrorView::ReplyError(_)) ==> written == 1
            &&& state.failure is None && state.config.execute_command ==> written == 1
        },
        Phase::Resolving => written == 0 && state.target_addr matches Some(
            TargetAddrView::Domain(_, _),
        ),
        _ => written == 0,
    }
}

/// One if the action writes a method selection, zero otherwise.
pub open spec fn selection_weight(action: ActionView) -> nat {
    if is_method_selection(action) {
        1
    } else {
        0
    }
}

/// One if the action writes a reply to a request, zero otherwise.
pub open spec fn reply_weight(action: ActionView) -> nat {
    if is_request_reply(action) {
        1
    } else {
        0
    }
}

proof fn lemma_selections_bytes(state: SocketView, written: nat, bytes: Seq<u8>)
    requires
        selections_fit(state, written),
        state.phase != Phase::Closed,
    ensures
        selections_fit(
            state.take_bytes(bytes).0,
            written + selection_weight(state.take_bytes(bytes).1),
        ),
{
}

proof fn lemma_selections_step(state: SocketView, written: nat, event: EventView)
    requires
        !state.config.skip_auth,
        selections_fit(state, written),
    ensures
        selections_fit(state.next(event).0, written + selection_weight(state.next(event).1)),
{
    if state.phase != Phase::Closed {
        match event {
            EventView::Bytes(bytes) => {
                lemma_selections_bytes(state, written, bytes);
            },
            _ => {},
        }
    }
}

proof fn lemma_replies_bytes(state: SocketView, written: nat, bytes: Seq<u8>)
    requires
        replies_fit(state, written),
        state.phase != Phase::Closed,
    ensures
        replies_fit(state.take_bytes(bytes).0, written + reply_weight(state.take_bytes(bytes).1)),
{
    let filled = SocketView { buffer: state.buffer + bytes, ..state };
    if bytes.len() == state.awaited {
        match state.phase {
            Phase::Methods => {
                match methods_status(filled.buffer) {
                    Status::Need(n) => {},
                    Status::Complete(offered) => {},
                    Status::Fail(error) => {},
                }
            },
            Phase::Credentials => {
                match credentials_status(filled.buffer) {
                    Status::Need(n) => {},
                    Status::Complete(pair) => {},
                    Status::Fail(error) => {},
                }
            },
            Phase::Request => {
                match request_status(filled.buffer) {
                    Status::Need(n) => {},
                    Status::Complete(target) => {},
                    Status::Fail(error) => {},
                }
            },
            _ => {},
        }
    }
}

proof fn lemma_replies_failed(state: SocketView, written: nat, kind: IoErrorKind)
    requires
        replies_fit(state, written),
        state.phase != Phase::Closed,
    ensures
        replies_fit(state.failed(kind).0, written + reply_weight(state.failed(kind).1)),
{
}

proof fn lemma_replies_written(state: SocketView, written: nat)
    requires
        replies_fit(state, written),
        state.phase != Phase::Closed,
    ensures
        replies_fit(state.written().0, written + reply_weight(state.written().1)),
{
}

proof fn lemma_replies_step(state: SocketView, written: nat, event: EventView)
    requires
        replies_fit(state, written),
    ensures
        replies_fit(state.next(event).0, written + reply_weight(state.next(event).1)),
{
    if state.phase != Phase::Closed {
        match event {
            EventView::Bytes(bytes) => {
                lemma_replies_bytes(state, written, bytes);
            },
            EventView::Failed(kind) => {
                lemma_replies_failed(state, written, kind);
            },
            EventView::Written => {
                lemma_replies_written(state, written);
            },
            _ => {},
        }
    }
}

proof fn lemma_run_keeps_fit(config: ConfigView, events: Seq<EventView>)
    ensures
        run(SocketView::accepted(config), events).0.config == config,
        replies_fit(
            run(SocketView::accepted(config), events).0,
            request_replies(run(SocketView::accepted(config), events).1),
        ),
        !config.skip_auth ==> selections_fit(
            run(SocketView::accepted(config), events).0,
            method_selections(run(SocketView::accepted(config), events).1),
        ),
    decreases events.len(),
{
    if events.len() > 0 {
        lemma_run_keeps_fit(config, events.drop_last());
        let before = run(SocketView::accepted(config), events.drop_last());
        let step = before.0.next(events.last());
        lemma_phases_only_advance(before.0, events.last());
        lemma_replies_step(before.0, request_replies(before.1), events.last());
        if !config.skip_auth {
            lemma_selections_step(before.0, method_selections(before.1), events.last());
        }
        assert(before.1.push(step.1).drop_last() =~= before.1);
        assert(before.1.push(step.1).last() == step.1);
    }
}

/// A connection of a server that does not skip the handshake writes at
/// most one method selection message, and has written exactly one by the
/// time it asks for the first byte of the credentials or of the request.
pub proof fn lemma_one_method_selection(config: ConfigView, events: Seq<EventView>)
    requires
        !config.skip_auth,
    ensures
        method_selections(run(SocketView::accepted(config), events).1) <= 1,
        ({
            let phase = run(SocketView::accepted(config), events).0.phase;
            Phase::MethodReply.rank() <= phase.rank() < Phase::Closed.rank()
        }) ==> method_selections(run(SocketView::accepted(config), events).1) == 1,
        ({
            let phase = run(SocketView::accepted(config), events).0.phase;
            phase == Phase::Accepted || phase == Phase::Methods
        }) ==> method_selections(run(SocketView::accepted(config), events).1) == 0,
{
    lemma_run_keeps_fit(config, events);
}

/// A connection writes at most one reply to a request: none while the
/// request is being read, resolved or connected, and exactly one where the
/// relay has begun, where the connection ended with a failure that has a
/// reply code, and where it ended without an error on a server that
/// executes commands.
pub proof fn lemma_one_request_reply(config: ConfigView, events: Seq<EventView>)
    ensures
        request_replies(run(SocketView::accepted(config), events).1) <= 1,
        run(SocketView::accepted(config), events).0.phase.rank() <= Phase::Connecting.rank()
            ==> request_replies(run(SocketView::accepted(config), events).1) == 0,
        ({
            let end = run(SocketView::accepted(config), events).0;
            ||| end.phase == Phase::Relaying
            ||| end.phase == Phase::Closed && end.failure matches Some(
                SocksErrorView::ReplyError(_),
            )
            ||| end.phase == Phase::Closed && end.failure is None && config.execute_command
        }) ==> request_replies(run(SocketView::accepted(config), events).1) == 1,
{
    lemma_run_keeps_fit(config, events);
}

/// Whether a connection deals with credentials only where the server has
/// an authenticator.
pub open spec fn credentials_fit(state: SocketView) -> bool {
    state.phase == Phase::Credentials || state.phase == Phase::AuthReply || state.phase
        == Phase::AuthRefusal || state.auth is Password ==> state.config.auth is Some
}

proof fn lemma_credentials_step(state: SocketView, event: EventView)
    requires
        credentials_fit(state),
    ensures
        credentials_fit(state.next(event).0),
{
}

/// A connection asks for credentials, answers them, and ends up
/// authenticated by password only on a server that has an authenticator.
pub proof fn lemma_credentials_need_authenticator(config: ConfigView, events: Seq<EventView>)
    ensures
        credentials_fit(run(SocketView::accepted(config), events).0),
        run(SocketView::accepted(config), events).0.config == config,
    decreases events.len(),
{
    if events.len() > 0 {
        lemma_credentials_need_authenticator(config, events.drop_last());
        let before = run(SocketView::accepted(config), events.drop_last());
        lemma_phases_only_advance(before.0, events.last());
        lemma_credentials_step(before.0, events.last());
    }
}

/// Whether the message that a connection is reading is still incomplete
/// once `bytes` have joined it.
pub open spec fn still_reading(state: SocketView, bytes: Seq<u8>) -> bool {
    match state.phase {
        Phase::Methods => methods_status(state.buffer + bytes) is Need,
        Phase::Credentials => credentials_status(state.buffer + bytes) is Need,
        Phase::Request => request_status(state.buffer + bytes) is Need,
        _ => false,
    }
}

/// Nothing is written before the phase it answers has been read to its
/// end. The engine writes only when a read has completed a message or
/// shown a fault in it, or when the resolution or the connection has
/// ended; it then leaves the phase, and asks for no byte of the message
/// any more. A method selection is written only on a complete method
/// request, an answer to the credentials only on a complete
/// username/password message, and no read that failed is answered.
pub proof fn lemma_reply_follows_parse(state: SocketView, event: EventView)
    requires
        state.next(event).1 is Write,
    ensures
        state.phase == Phase::Methods || state.phase == Phase::Credentials || state.phase
            == Phase::Request || state.phase == Phase::Resolving || state.phase
            == Phase::Connecting,
        state.next(event).0.phase.rank() > state.phase.rank(),
        event matches EventView::Bytes(bytes) ==> bytes.len() == state.awaited && !still_reading(
            state,
            bytes,
        ),
        state.phase == Phase::Methods ==> event is Bytes && methods_status(
            state.buffer + event->Bytes_0,
        ) is Complete,
        state.phase == Phase::Credentials ==> event is Bytes && credentials_status(
            state.buffer + event->Bytes_0,
        ) is Complete,
        state.phase == Phase::Request ==> event is Bytes && !(request_status(
            state.buffer + event->Bytes_0,
        ) is Need),
        state.phase == Phase::Methods || state.phase == Phase::Credentials || state.phase
            == Phase::Request ==> !(event is Failed),
{
}

/// A message that is cut short is never answered: where a read fails,
/// nothing is written, the connection ends with the I/O error, and it has
/// the target and the authentication it had before.
pub proof fn lemma_failed_read_is_dropped(state: SocketView, kind: IoErrorKind)
    requires
        state.phase == Phase::Methods || state.phase == Phase::Credentials || state.phase
            == Phase::Request,
    ensures
        state.next(EventView::Failed(kind)).1 == ActionView::Abort(SocksErrorView::Io(kind)),
        state.next(EventView::Failed(kind)).0 == (SocketView {
            phase: Phase::Closed,
            failure: Some(SocksErrorView::Io(kind)),
            ..state
        }),
{
}

/// While a message is incomplete the engine only asks for its next field.
pub proof fn lemma_reading_goes_on(state: SocketView, bytes: Seq<u8>)
    requires
        bytes.len() == state.awaited,
        still_reading(state, bytes),
    ensures
        state.next(EventView::Bytes(bytes)).1 is Read,
        state.next(EventView::Bytes(bytes)).0.phase == state.phase,
        state.next(EventView::Bytes(bytes)).0.buffer == state.buffer + bytes,
{
}

/// Whether the built-in authenticator accepts credentials that arrived as
/// these bytes: they must be text, and the text must be accepted.
pub open spec fn accepts_bytes(
    configured: SimpleUserPassword,
    username: Seq<u8>,
    password: Seq<u8>,
) -> bool {
    valid_utf8(username) && valid_utf8(password) && configured.accepts(
        decode_utf8(username),
        decode_utf8(password),
    )
}

/// The built-in authenticator accepts exactly the credentials whose bytes
/// are the bytes of the configured username and password.
pub proof fn lemma_accepts_byte_equal(
    configured: SimpleUserPassword,
    username: Seq<u8>,
    password: Seq<u8>,
)
    ensures
        accepts_bytes(configured, username, password) <==> username == encode_utf8(
            configured.username@,
        ) && password == encode_utf8(configured.password@),
{
    vstd::utf8::encode_utf8_valid_utf8(configured.username@);
    vstd::utf8::encode_utf8_valid_utf8(configured.password@);
    vstd::utf8::encode_utf8_decode_utf8(configured.username@);
    vstd::utf8::encode_utf8_decode_utf8(configured.password@);
    if valid_utf8(username) {
        vstd::utf8::decode_utf8_encode_utf8(username);
    }
    if valid_utf8(password) {
        vstd::utf8::decode_utf8_encode_utf8(password);
    }
}

} // verus!
