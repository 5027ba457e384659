//! What follows from the contracts of the engine, proved over its plain
//! model: how frames, reads and handshakes go together.

use vstd::prelude::*;

use crate::codec::chat_decoding;
use crate::codec::decoding;
use crate::codec::payload_after;
use crate::codec::private_frame;
use crate::codec::private_payload;
use crate::codec::public_frame;
use crate::codec::public_payload;
use crate::codec::whisper_decoding;
use crate::codec::PRIVATE_TAG;
use crate::codec::PUBLIC_TAG;
use crate::connection::ConnectionView;
use crate::connection::PhaseView;
use crate::connection::RequestView;
use crate::connection::StepView;
use crate::connection::DEV_ENDPOINT;
use crate::connection::PRIMARY_ENDPOINT;
use crate::credential::accepts;
use crate::credential::header_value_ok;
use crate::credential::lemma_valid_cookie_is_normalized;
use crate::error::ErrorView;
use crate::json::json_reading;
use crate::message::ChatMessageView;
use crate::message::MessageTypeView;
use crate::message::WhisperMessageView;

verus! {

/// The frames of a transport that never fails, as the outcomes of its reads.
pub open spec fn arrivals(frames: Seq<Seq<char>>) -> Seq<Result<Seq<char>, Seq<char>>> {
    Seq::new(frames.len(), |i: int| Ok(frames[i]))
}

/// What a caller that waits for a public post comes to: the outcomes of the
/// reads are handed to the connection one after the other, until one of them
/// ends the call. `Again` is left where the outcomes run out before that.
pub open spec fn read_msg_over(
    connection: ConnectionView,
    outcomes: Seq<Result<Seq<char>, Seq<char>>>,
) -> (ConnectionView, StepView<ChatMessageView>)
    decreases outcomes.len(),
{
    if outcomes.len() == 0 {
        (connection, StepView::Again)
    } else {
        let (next, step) = connection.read_msg(outcomes[0]);
        if step is Again {
            read_msg_over(next, outcomes.skip(1))
        } else {
            (next, step)
        }
    }
}

/// The same for a caller that waits for a whisper.
pub open spec fn read_whisper_over(
    connection: ConnectionView,
    outcomes: Seq<Result<Seq<char>, Seq<char>>>,
) -> (ConnectionView, StepView<WhisperMessageView>)
    decreases outcomes.len(),
{
    if outcomes.len() == 0 {
        (connection, StepView::Again)
    } else {
        let (next, step) = connection.read_whisper(outcomes[0]);
        if step is Again {
            read_whisper_over(next, outcomes.skip(1))
        } else {
            (next, step)
        }
    }
}

/// `after` leads where `before` led, presents what it presented, and is well
/// formed.
pub open spec fn kept(before: ConnectionView, after: ConnectionView) -> bool {
    &&& after.endpoint == before.endpoint
    &&& after.cookie == before.cookie
    &&& after.wf()
}

/// No frame carries both tags.
pub proof fn lemma_tags_exclude_each_other(frame: Seq<char>)
    ensures
        !(PUBLIC_TAG@.is_prefix_of(frame) && PRIVATE_TAG@.is_prefix_of(frame)),
{
    reveal_strlit("MSG ");
    reveal_strlit("PRIVMSG ");
    if PUBLIC_TAG@.is_prefix_of(frame) && PRIVATE_TAG@.is_prefix_of(frame) {
        assert(frame.subrange(0, PUBLIC_TAG@.len() as int)[0] == 'M');
        assert(frame.subrange(0, PRIVATE_TAG@.len() as int)[0] == 'P');
    }
}

/// The frame of a post is taken for a post, and what is decoded is the JSON
/// object that was written around the text.
pub proof fn lemma_public_frame_is_read_as_post(message: Seq<char>)
    ensures
        payload_after(PUBLIC_TAG@, public_frame(message)) == Some(public_payload(message)),
        decoding(public_frame(message)) == Some(
            match chat_decoding(public_payload(message)) {
                Ok(post) => Ok(MessageTypeView::ChatMessage(post)),
                Err(error) => Err(error),
            },
        ),
{
    let frame = public_frame(message);
    assert(frame.subrange(0, PUBLIC_TAG@.len() as int) =~= PUBLIC_TAG@);
    assert(frame.skip(PUBLIC_TAG@.len() as int) =~= public_payload(message));
}

/// The frame of a whisper is taken for a whisper, and what is decoded is the
/// JSON object that was written around the receiver and the text.
pub proof fn lemma_private_frame_is_read_as_whisper(receiver: Seq<char>, message: Seq<char>)
    ensures
        payload_after(PRIVATE_TAG@, private_frame(receiver, message)) == Some(
            private_payload(receiver, message),
        ),
        decoding(private_frame(receiver, message)) == Some(
            match whisper_decoding(private_payload(receiver, message)) {
                Ok(whisper) => Ok(MessageTypeView::WhisperMessage(whisper)),
                Err(error) => Err(error),
            },
        ),
{
    let frame = private_frame(receiver, message);
    assert(frame.subrange(0, PRIVATE_TAG@.len() as int) =~= PRIVATE_TAG@);
    assert(frame.skip(PRIVATE_TAG@.len() as int) =~= private_payload(receiver, message));
    lemma_tags_exclude_each_other(frame);
}

/// What a live connection sends as a post, it reads as a post: the frame
/// that `send` builds ends a read for posts with what its JSON object
/// decodes to, and the connection is left as it was.
pub proof fn lemma_sent_post_is_read_as_post(connection: ConnectionView, message: Seq<char>)
    requires
        connection.phase is Live,
    ensures
        connection.send(message) == StepView::<Seq<char>>::Done(Ok(public_frame(message))),
        connection.read_msg(Ok(public_frame(message))) == (
            connection,
            StepView::Done(chat_decoding(public_payload(message))),
        ),
{
    lemma_public_frame_is_read_as_post(message);
}

/// A read that waits for a public post passes over every frame before the
/// first that carries the public tag, and ends with what that frame decodes
/// to. The connection is left as it was.
pub proof fn lemma_read_msg_returns_first_post(
    connection: ConnectionView,
    frames: Seq<Seq<char>>,
    first: int,
)
    requires
        connection.phase is Live,
        0 <= first < frames.len(),
        forall|i: int| 0 <= i < first ==> !PUBLIC_TAG@.is_prefix_of(#[trigger] frames[i]),
        PUBLIC_TAG@.is_prefix_of(frames[first]),
    ensures
        read_msg_over(connection, arrivals(frames)) == (
            connection,
            StepView::Done(chat_decoding(frames[first].skip(PUBLIC_TAG@.len() as int))),
        ),
    decreases first,
{
    if first > 0 {
        let rest = frames.skip(1);
        assert(!PUBLIC_TAG@.is_prefix_of(frames[0]));
        assert(arrivals(rest) =~= arrivals(frames).skip(1));
        assert forall|i: int| 0 <= i < first - 1 implies !PUBLIC_TAG@.is_prefix_of(
            #[trigger] rest[i],
        ) by {
            assert(rest[i] == frames[i + 1]);
        }
        lemma_read_msg_returns_first_post(connection, rest, first - 1);
    }
}

/// A read that waits for a whisper passes over every frame before the first
/// that carries the private tag, and ends with what that frame decodes to.
/// The connection is left as it was.
pub proof fn lemma_read_whisper_returns_first_whisper(
    connection: ConnectionView,
    frames: Seq<Seq<char>>,
    first: int,
)
    requires
        connection.phase is Live,
        0 <= first < frames.len(),
        forall|i: int| 0 <= i < first ==> !PRIVATE_TAG@.is_prefix_of(#[trigger] frames[i]),
        PRIVATE_TAG@.is_prefix_of(frames[first]),
    ensures
        read_whisper_over(connection, arrivals(frames)) == (
            connection,
            StepView::Done(whisper_decoding(frames[first].skip(PRIVATE_TAG@.len() as int))),
        ),
    decreases first,
{
    if first > 0 {
        let rest = frames.skip(1);
        assert(!PRIVATE_TAG@.is_prefix_of(frames[0]));
        assert(arrivals(rest) =~= arrivals(frames).skip(1));
        assert forall|i: int| 0 <= i < first - 1 implies !PRIVATE_TAG@.is_prefix_of(
            #[trigger] rest[i],
        ) by {
            assert(rest[i] == frames[i + 1]);
        }
        lemma_read_whisper_returns_first_whisper(connection, rest, first - 1);
    }
}

/// Of a whisper followed by a post, a read that waits for a public post
/// gives the post alone: the whisper is passed over and never handed out.
pub proof fn lemma_read_msg_passes_over_whisper(
    connection: ConnectionView,
    whisper: Seq<char>,
    post: Seq<char>,
)
    requires
        connection.phase is Live,
        PRIVATE_TAG@.is_prefix_of(whisper),
        PUBLIC_TAG@.is_prefix_of(post),
    ensures
        connection.read_msg(Ok(whisper)) == (connection, StepView::<ChatMessageView>::Again),
        read_msg_over(connection, arrivals(seq![whisper, post])) == (
            connection,
            StepView::Done(chat_decoding(post.skip(PUBLIC_TAG@.len() as int))),
        ),
{
    lemma_tags_exclude_each_other(whisper);
    lemma_read_msg_returns_first_post(connection, seq![whisper, post], 1);
}

/// A read that waits for either kind of event asks for another frame exactly
/// where the frame at hand carries neither tag. A frame with one of the tags
/// ends the read with what it decodes to, as an event of its kind.
pub proof fn lemma_read_all_takes_both_kinds(connection: ConnectionView, frame: Seq<char>)
    requires
        connection.phase is Live,
    ensures
        connection.read_all(Ok(frame)).0 == connection,
        connection.read_all(Ok(frame)).1 is Again <==> !PUBLIC_TAG@.is_prefix_of(frame)
            && !PRIVATE_TAG@.is_prefix_of(frame),
        PUBLIC_TAG@.is_prefix_of(frame) ==> connection.read_all(Ok(frame)).1 == StepView::Done(
            match chat_decoding(frame.skip(PUBLIC_TAG@.len() as int)) {
                Ok(post) => Ok(MessageTypeView::ChatMessage(post)),
                Err(error) => Err(error),
            },
        ),
        PRIVATE_TAG@.is_prefix_of(frame) ==> connection.read_all(Ok(frame)).1 == StepView::Done(
            match whisper_decoding(frame.skip(PRIVATE_TAG@.len() as int)) {
                Ok(whisper) => Ok(MessageTypeView::WhisperMessage(whisper)),
                Err(error) => Err(error),
            },
        ),
{
    lemma_tags_exclude_each_other(frame);
}

/// A failed read asks for one handshake and no more. The report of that
/// handshake ends the call with the read's own error, which says whether the
/// handshake gave a socket; with a socket the connection is live again and
/// owes nothing, without one it has failed for good.
pub proof fn lemma_failed_read_rebuilds_once(
    connection: ConnectionView,
    detail: Seq<char>,
    outcome: Result<(), Seq<char>>,
)
    requires
        connection.phase is Live,
    ensures
        ({
            let (rebuilding, step) = connection.read(Err(detail));
            let (after, report) = rebuilding.established(outcome);
            &&& step == StepView::<Seq<char>>::Owed(connection.handshake())
            &&& rebuilding == connection.in_phase(PhaseView::Rebuilding(detail))
            &&& report == Err::<(), ErrorView>(
                ErrorView::ReadFailed { detail, reconnected: outcome is Ok },
            )
            &&& after.pending() is None
            &&& match outcome {
                Ok(_) => after == connection,
                Err(refusal) => after == connection.in_phase(
                    PhaseView::Failed(ErrorView::HandshakeFailed(refusal)),
                ),
            }
        }),
{
}

/// Every kind of read fails in the same way: on a live connection a failed
/// read leaves each of them with the request for one handshake, and the
/// connection rebuilding.
pub proof fn lemma_every_read_fails_alike(
    connection: ConnectionView,
    prefix: Seq<char>,
    detail: Seq<char>,
)
    requires
        connection.phase is Live,
    ensures
        connection.read_until_prefix(prefix, Err(detail)) == connection.read(Err(detail)),
        connection.read_msg(Err(detail)) == (
            connection.read(Err(detail)).0,
            StepView::<ChatMessageView>::Owed(connection.handshake()),
        ),
        connection.read_whisper(Err(detail)) == (
            connection.read(Err(detail)).0,
            StepView::<WhisperMessageView>::Owed(connection.handshake()),
        ),
        connection.read_all(Err(detail)) == (
            connection.read(Err(detail)).0,
            StepView::<MessageTypeView>::Owed(connection.handshake()),
        ),
{
}

/// After a failed read and a handshake that gave a socket, the next read
/// goes as on any live connection.
pub proof fn lemma_read_after_rebuild(
    connection: ConnectionView,
    detail: Seq<char>,
    next: Result<Seq<char>, Seq<char>>,
)
    requires
        connection.phase is Live,
    ensures
        connection.read_msg(Err(detail)).0.established(Ok(())).0.read_msg(next)
            == connection.read_msg(next),
{
}

/// A payload that is no JSON ends the call with `MalformedPayload`, which
/// carries the parser's words, and leaves the connection as it was: live, so
/// that the next read goes on as any other.
pub proof fn lemma_malformed_payload_is_survived(connection: ConnectionView, frame: Seq<char>)
    requires
        connection.phase is Live,
        PUBLIC_TAG@.is_prefix_of(frame),
    ensures
        connection.read_msg(Ok(frame)).0 == connection,
        json_reading(frame.skip(PUBLIC_TAG@.len() as int)) matches Err(words)
            ==> connection.read_msg(Ok(frame)).1 == StepView::<ChatMessageView>::Done(
            Err(ErrorView::MalformedPayload(words)),
        ),
        json_reading(frame.skip(PUBLIC_TAG@.len() as int)) is Ok ==> connection.read_msg(
            Ok(frame),
        ).1 matches StepView::Done(Ok(_)),
{
}

/// A connection becomes live exactly where its credential can be sent, the
/// service accepted it and the handshake gave a socket. In every other case
/// it has failed, with the error that says which of the three was missing.
pub proof fn lemma_live_after_check_and_handshake(
    endpoint: Seq<char>,
    cookie: Seq<char>,
    status: Option<u16>,
    outcome: Result<(), Seq<char>>,
)
    ensures
        ({
            let made = ConnectionView::opening(endpoint, cookie);
            let opened = made.verified(status).0.established(outcome).0;
            if !header_value_ok(cookie) {
                opened.phase == PhaseView::Failed(ErrorView::InvalidCredentialFormat(cookie))
            } else if !accepts(status) {
                opened.phase == PhaseView::Failed(ErrorView::AuthenticationRejected(cookie))
            } else {
                match outcome {
                    Ok(_) => opened.phase is Live,
                    Err(refusal) => opened.phase == PhaseView::Failed(
                        ErrorView::HandshakeFailed(refusal),
                    ),
                }
            }
        }),
{
}

/// No handshake makes a connection live before the service has accepted its
/// credential.
pub proof fn lemma_no_socket_before_acceptance(
    endpoint: Seq<char>,
    cookie: Seq<char>,
    outcome: Result<(), Seq<char>>,
)
    ensures
        ({
            let made = ConnectionView::opening(endpoint, cookie);
            made.established(outcome).0 == made && !(made.phase is Live)
        }),
{
}

/// A failed connection stays as it is, and answers every call with the error
/// that ended it.
pub proof fn lemma_failed_is_final(
    connection: ConnectionView,
    status: Option<u16>,
    outcome: Result<(), Seq<char>>,
    arrival: Result<Seq<char>, Seq<char>>,
    receiver: Seq<char>,
    message: Seq<char>,
)
    requires
        connection.phase is Failed,
    ensures
        ({
            let error = connection.phase->Failed_0;
            &&& connection.pending() is None
            &&& connection.verified(status) == (connection, Err::<(), ErrorView>(error))
            &&& connection.established(outcome) == (connection, Err::<(), ErrorView>(error))
            &&& connection.send(message) == StepView::<Seq<char>>::Done(Err(error))
            &&& connection.whisper(receiver, message) == StepView::<Seq<char>>::Done(Err(error))
            &&& connection.read(arrival) == (connection, StepView::<Seq<char>>::Done(Err(error)))
            &&& connection.read_msg(arrival) == (
                connection,
                StepView::<ChatMessageView>::Done(Err(error)),
            )
            &&& connection.read_whisper(arrival) == (
                connection,
                StepView::<WhisperMessageView>::Done(Err(error)),
            )
            &&& connection.read_all(arrival) == (
                connection,
                StepView::<MessageTypeView>::Done(Err(error)),
            )
        }),
{
}

/// Nothing that happens to a connection changes where it leads or what it
/// presents, and every connection that was well formed stays so.
pub proof fn lemma_address_and_credential_are_kept(
    connection: ConnectionView,
    status: Option<u16>,
    outcome: Result<(), Seq<char>>,
    arrival: Result<Seq<char>, Seq<char>>,
    prefix: Seq<char>,
)
    requires
        connection.wf(),
    ensures
        kept(connection, connection.verified(status).0),
        kept(connection, connection.established(outcome).0),
        kept(connection, connection.read(arrival).0),
        kept(connection, connection.read_until_prefix(prefix, arrival).0),
        kept(connection, connection.read_msg(arrival).0),
        kept(connection, connection.read_whisper(arrival).0),
        kept(connection, connection.read_all(arrival).0),
{
}

/// A connection that is made for one of the two known addresses is well
/// formed.
pub proof fn lemma_opening_is_well_formed(endpoint: Seq<char>, cookie: Seq<char>)
    requires
        endpoint == PRIMARY_ENDPOINT@ || endpoint == DEV_ENDPOINT@,
    ensures
        ConnectionView::opening(endpoint, cookie).wf(),
{
}

/// What a well-formed connection asks for carries its address and its
/// credential as they were given, and that credential can be sent.
pub proof fn lemma_owed_request_can_be_sent(connection: ConnectionView)
    requires
        connection.wf(),
        connection.pending() is Some,
    ensures
        match connection.pending()->0 {
            RequestView::Verify { url, cookie } => cookie == connection.cookie && header_value_ok(
                cookie,
            ),
            RequestView::Handshake { endpoint, cookie } => {
                &&& endpoint == connection.endpoint
                &&& cookie == connection.cookie
                &&& header_value_ok(cookie)
            },
        },
{
    lemma_valid_cookie_is_normalized(connection.cookie);
}

} // verus!
