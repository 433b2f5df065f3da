//! What holds of every run of an operation.

use vstd::prelude::*;
use crate::call::ApiCallView;
use crate::config::CredentialsView;
use crate::error::{ConfigKey, Endpoint, SlackError};
use crate::http::{BodyView, HttpOutcomeView, Method};
use crate::json::{member_of, rendered, JsonModel};
use crate::payload::{message_document, FileEntryView, ImagePayloadView, OutgoingMessageView};
use crate::reply::{completed, delivery_of, granted, stored};
use crate::run::{noted, play, Trace};
use crate::session::{
    entry_for, NextView, Operation, PendingView, ReceiptView, SessionView, SkippedView, StepView,
};
use crate::slack::{message_start, sharing_start, upload_start};

verus! {

/// The result of an operation that fails.
pub open spec fn failure(error: SlackError) -> Result<ReceiptView, SlackError> {
    Err(error)
}

/// The result of sharing, as the outcome of the completing call decides it.
pub open spec fn sharing_result(outcome: HttpOutcomeView, receipt: ReceiptView) -> Result<
    ReceiptView,
    SlackError,
> {
    match completed(outcome) {
        Ok(_) => Ok(receipt),
        Err(error) => Err(error),
    }
}

/// Each operation starts with a well-formed step.
pub proof fn operations_start_well_formed(
    credentials: CredentialsView,
    token: Seq<char>,
    message: Seq<char>,
    image: ImagePayloadView,
    images: Seq<ImagePayloadView>,
)
    ensures
        message_start(credentials, message).wf(),
        upload_start(token, image.bytes, image.filename).wf(),
        sharing_start(Operation::SingleImage, credentials, seq![image]).wf(),
        sharing_start(Operation::Batch, credentials, images).wf(),
{
}

/// Without a token in the credentials no operation that reads them makes a
/// call: posting a message and sharing images each end at once, with the
/// error that says the token is missing.
pub proof fn missing_token_stops_every_operation(
    credentials: CredentialsView,
    message: Seq<char>,
    operation: Operation,
    images: Seq<ImagePayloadView>,
    outcomes: Seq<HttpOutcomeView>,
)
    requires
        credentials.token is None,
    ensures
        play(message_start(credentials, message), outcomes).calls.len() == 0,
        play(message_start(credentials, message), outcomes).result == Some(
            failure(SlackError::ConfigurationMissing(ConfigKey::Token)),
        ),
        play(sharing_start(operation, credentials, images), outcomes).calls.len() == 0,
        play(sharing_start(operation, credentials, images), outcomes).result == Some(
            failure(SlackError::ConfigurationMissing(ConfigKey::Token)),
        ),
{
}

/// With a token and a channel, posting a message makes exactly one call,
/// whatever comes back: the posting call, a POST whose body is the JSON
/// object `{channel, text}` with the message as its `text`, unchanged. The
/// outcome of that call ends the operation.
pub proof fn message_is_posted_once(
    credentials: CredentialsView,
    message: Seq<char>,
    outcomes: Seq<HttpOutcomeView>,
)
    requires
        credentials.token is Some,
        credentials.channel is Some,
    ensures
        ({
            let trace = play(message_start(credentials, message), outcomes);
            let posted = OutgoingMessageView { channel: credentials.channel->0, text: message };
            let call = ApiCallView::PostMessage { token: credentials.token->0, message: posted };
            &&& trace.calls == seq![call]
            &&& call.wire().method == Method::Post
            &&& call.wire().body == BodyView::Text(rendered(message_document(posted)))
            &&& member_of(message_document(posted), "text"@) == Some(JsonModel::Text(message))
            &&& outcomes.len() > 0 ==> trace.result == Some(
                match delivery_of(outcomes[0]) {
                    Ok(delivery) => Ok(ReceiptView::Message(delivery)),
                    Err(error) => Err(error),
                },
            )
            &&& outcomes.len() == 0 ==> trace.result is None
        }),
{
    let start = message_start(credentials, message);
    let trace = play(start, outcomes);
    if outcomes.len() > 0 {
        let session = SessionView::posting(credentials.token->0);
        let after = session.resume(outcomes[0]);
        assert(play(after, outcomes.drop_first()).calls =~= Seq::empty());
        assert(trace.calls =~= seq![start.next->call]);
    }
}

/// The upload of one image's bytes asks for a ticket and then sends the bytes
/// to the address on that ticket. It ends with the identifier on the ticket
/// once the bytes got any response, and with the error of the first call that
/// failed otherwise; after a failed request for the ticket no bytes are sent.
pub proof fn upload_hands_back_the_file_id(
    token: Seq<char>,
    image: Seq<u8>,
    filename: Seq<char>,
    outcomes: Seq<HttpOutcomeView>,
)
    ensures
        ({
            let trace = play(upload_start(token, image, filename), outcomes);
            let ask = ApiCallView::RequestUploadUrl { token, filename, length: image.len() };
            if outcomes.len() == 0 {
                trace.calls == seq![ask] && trace.result is None
            } else {
                match granted(outcomes[0]) {
                    Err(error) => trace.calls == seq![ask] && trace.result == Some(failure(error)),
                    Ok(ticket) => {
                        let put = ApiCallView::PutBytes { upload_url: ticket.upload_url, bytes: image };
                        &&& trace.calls == seq![ask, put]
                        &&& outcomes.len() == 1 ==> trace.result is None
                        &&& outcomes.len() > 1 ==> trace.result == Some(
                            match stored(outcomes[1]) {
                                Ok(_) => Ok(ReceiptView::Uploaded { file_id: ticket.file_id }),
                                Err(error) => Err(error),
                            },
                        )
                    },
                }
            }
        }),
{
    let start = upload_start(token, image, filename);
    let trace = play(start, outcomes);
    let picture = ImagePayloadView { bytes: image, filename, title: Seq::empty() };
    let first = SessionView::uploading(Operation::Upload, token, Seq::empty(), seq![picture]);
    let ask = first.ticket_call(0);
    assert(start == StepView::call(first, ask));
    if outcomes.len() > 0 {
        let later = outcomes.drop_first();
        let after_ask = first.resume(outcomes[0]);
        let from_ask = play(after_ask, later);
        assert(trace.calls == seq![ask] + from_ask.calls);
        match granted(outcomes[0]) {
            Err(error) => {
                assert(from_ask.calls =~= Seq::empty());
                assert(trace.calls =~= seq![ask]);
            },
            Ok(ticket) => {
                let second = SessionView { pending: PendingView::Put { file_id: ticket.file_id }, ..first };
                let put = ApiCallView::PutBytes { upload_url: ticket.upload_url, bytes: image };
                assert(after_ask == StepView::call(second, put));
                if outcomes.len() > 1 {
                    assert(later[0] == outcomes[1]);
                    assert(play(second.resume(later[0]), later.drop_first()).calls =~= Seq::empty());
                }
                assert(from_ask.calls =~= seq![put]);
                assert(trace.calls =~= seq![ask, put]);
            },
        }
    }
}

/// With a token and a channel identifier, sharing one image makes its calls
/// in the order: request for a ticket, bytes, completion. Each call is made
/// only after the one before it went well. If no ticket is granted, because
/// the answer says `ok: false` or for any other reason, the request for the
/// ticket is the only call, and the operation ends with that error.
pub proof fn single_image_calls_in_order(
    credentials: CredentialsView,
    image: ImagePayloadView,
    outcomes: Seq<HttpOutcomeView>,
)
    requires
        credentials.token is Some,
        credentials.channel_id is Some,
    ensures
        ({
            let token = credentials.token->0;
            let channel_id = credentials.channel_id->0;
            let trace = play(
                sharing_start(Operation::SingleImage, credentials, seq![image]),
                outcomes,
            );
            let ask = ApiCallView::RequestUploadUrl {
                token,
                filename: image.filename,
                length: image.bytes.len(),
            };
            if outcomes.len() == 0 {
                trace.calls == seq![ask] && trace.result is None
            } else {
                match granted(outcomes[0]) {
                    Err(error) => trace.calls == seq![ask] && trace.result == Some(failure(error)),
                    Ok(ticket) => {
                        let put = ApiCallView::PutBytes {
                            upload_url: ticket.upload_url,
                            bytes: image.bytes,
                        };
                        if outcomes.len() == 1 {
                            trace.calls == seq![ask, put] && trace.result is None
                        } else {
                            match stored(outcomes[1]) {
                                Err(error) => trace.calls == seq![ask, put] && trace.result == Some(
                                    failure(error),
                                ),
                                Ok(_) => {
                                    let complete = ApiCallView::CompleteUpload {
                                        token,
                                        files: seq![entry_for(ticket.file_id, image)],
                                        channel_id,
                                    };
                                    &&& trace.calls == seq![ask, put, complete]
                                    &&& outcomes.len() == 2 ==> trace.result is None
                                    &&& outcomes.len() > 2 ==> trace.result == Some(
                                        sharing_result(outcomes[2], ReceiptView::ImageShared),
                                    )
                                },
                            }
                        }
                    },
                }
            }
        }),
{
    let token = credentials.token->0;
    let channel_id = credentials.channel_id->0;
    let start = sharing_start(Operation::SingleImage, credentials, seq![image]);
    let trace = play(start, outcomes);
    let first = SessionView::uploading(Operation::SingleImage, token, channel_id, seq![image]);
    let ask = first.ticket_call(0);
    assert(start == StepView::call(first, ask));
    if outcomes.len() == 0 {
    } else {
        let later = outcomes.drop_first();
        let after_ask = first.resume(outcomes[0]);
        let from_ask = play(after_ask, later);
        assert(trace.calls == seq![ask] + from_ask.calls);
        match granted(outcomes[0]) {
            Err(error) => {
                assert(from_ask.calls =~= Seq::empty());
                assert(trace.calls =~= seq![ask]);
            },
            Ok(ticket) => {
                let second = SessionView { pending: PendingView::Put { file_id: ticket.file_id }, ..first };
                let put = ApiCallView::PutBytes { upload_url: ticket.upload_url, bytes: image.bytes };
                assert(after_ask == StepView::call(second, put));
                if outcomes.len() == 1 {
                    assert(from_ask.calls =~= seq![put]);
                    assert(trace.calls =~= seq![ask, put]);
                } else {
                    let latest = later.drop_first();
                    let after_put = second.resume(later[0]);
                    let from_put = play(after_put, latest);
                    assert(later[0] == outcomes[1]);
                    assert(from_ask.calls == seq![put] + from_put.calls);
                    match stored(outcomes[1]) {
                        Err(error) => {
                            assert(from_put.calls =~= Seq::empty());
                            assert(trace.calls =~= seq![ask, put]);
                        },
                        Ok(_) => {
                            let files = seq![entry_for(ticket.file_id, image)];
                            assert(second.prepared.push(entry_for(ticket.file_id, image)) =~= files);
                            let third = SessionView {
                                prepared: Seq::empty(),
                                pending: PendingView::Complete,
                                ..second
                            };
                            let complete = ApiCallView::CompleteUpload { token, files, channel_id };
                            assert(after_put == StepView::call(third, complete));
                            if outcomes.len() == 2 {
                                assert(from_put.calls =~= seq![complete]);
                            } else {
                                let last_left = latest.drop_first();
                                let after_complete = third.resume(latest[0]);
                                assert(latest[0] == outcomes[2]);
                                assert(play(after_complete, last_left).calls =~= Seq::empty());
                                assert(from_put.calls =~= seq![complete]);
                            }
                            assert(trace.calls =~= seq![ask, put, complete]);
                        },
                    }
                }
            },
        }
    }
}

/// What came back for one image of a batch: for the request for its ticket
/// and for its bytes. Where no ticket is granted the bytes are never sent,
/// and `put` stands for nothing.
pub struct Attempt {
    pub ticket: HttpOutcomeView,
    pub put: HttpOutcomeView,
}

impl Attempt {
    /// Whether the request for a ticket succeeded.
    pub open spec fn ticketed(self) -> bool {
        granted(self.ticket) is Ok
    }

    /// Whether the bytes got a response, if they were sent.
    pub open spec fn answered(self) -> bool {
        self.ticketed() ==> stored(self.put) is Ok
    }

    /// Why the image did not get through, if it did not: the error of the
    /// request for its ticket, or else that of its bytes.
    pub open spec fn error(self) -> Option<SlackError> {
        match granted(self.ticket) {
            Ok(_) => match stored(self.put) {
                Ok(_) => None,
                Err(error) => Some(error),
            },
            Err(error) => Some(error),
        }
    }

    /// Whether the image got through: a ticket was granted for it and its
    /// bytes got a response.
    pub open spec fn got_through(self) -> bool {
        self.error() is None
    }

    /// The outcomes that the session gets to see, in order.
    pub open spec fn outcomes(self) -> Seq<HttpOutcomeView> {
        if self.ticketed() {
            seq![self.ticket, self.put]
        } else {
            seq![self.ticket]
        }
    }

    /// The calls that are made for the image: the request for its ticket and,
    /// with the ticket that this request was granted, its bytes.
    pub open spec fn calls(self, token: Seq<char>, image: ImagePayloadView) -> Seq<ApiCallView> {
        match granted(self.ticket) {
            Ok(ticket) => seq![
                ask_for(token, image),
                ApiCallView::PutBytes { upload_url: ticket.upload_url, bytes: image.bytes },
            ],
            Err(_) => seq![ask_for(token, image)],
        }
    }

    /// The image as one that is left out, if it did not get through.
    pub open spec fn skipped(self, image: ImagePayloadView) -> Seq<SkippedView> {
        match self.error() {
            Some(error) => seq![SkippedView { filename: image.filename, error }],
            None => Seq::empty(),
        }
    }

    /// The entry of the image, if it got through.
    pub open spec fn entry(self, image: ImagePayloadView) -> Seq<FileEntryView> {
        match granted(self.ticket) {
            Ok(ticket) => if self.got_through() {
                seq![entry_for(ticket.file_id, image)]
            } else {
                Seq::empty()
            },
            Err(_) => Seq::empty(),
        }
    }
}

/// The call that asks where the bytes of an image go.
pub open spec fn ask_for(token: Seq<char>, image: ImagePayloadView) -> ApiCallView {
    ApiCallView::RequestUploadUrl { token, filename: image.filename, length: image.bytes.len() }
}

/// The outcomes that a batch gets to see for its images from `from` on.
pub open spec fn outcomes_from(attempts: Seq<Attempt>, from: nat) -> Seq<HttpOutcomeView>
    decreases attempts.len() - from,
{
    if from < attempts.len() {
        attempts[from as int].outcomes() + outcomes_from(attempts, from + 1)
    } else {
        Seq::empty()
    }
}

/// The calls that a batch makes for its images from `from` on: those of each
/// image together, image after image in the order given.
pub open spec fn upload_calls(
    token: Seq<char>,
    images: Seq<ImagePayloadView>,
    attempts: Seq<Attempt>,
    from: nat,
) -> Seq<ApiCallView>
    decreases images.len() - from,
{
    if from < images.len() {
        attempts[from as int].calls(token, images[from as int]) + upload_calls(
            token,
            images,
            attempts,
            from + 1,
        )
    } else {
        Seq::empty()
    }
}

/// The images from `from` on that a batch leaves out, in the order given.
pub open spec fn skipped_from(
    images: Seq<ImagePayloadView>,
    attempts: Seq<Attempt>,
    from: nat,
) -> Seq<SkippedView>
    decreases images.len() - from,
{
    if from < images.len() {
        attempts[from as int].skipped(images[from as int]) + skipped_from(images, attempts, from + 1)
    } else {
        Seq::empty()
    }
}

/// The entries of those among the first `count` images that got through, in
/// the order of the images.
pub open spec fn prepared_of(
    images: Seq<ImagePayloadView>,
    attempts: Seq<Attempt>,
    count: nat,
) -> Seq<FileEntryView>
    decreases count,
{
    if count == 0 {
        Seq::empty()
    } else {
        prepared_of(images, attempts, (count - 1) as nat) + attempts[count - 1].entry(
            images[count - 1],
        )
    }
}

/// How many of the first `count` images got through.
pub open spec fn through_count(attempts: Seq<Attempt>, count: nat) -> nat
    decreases count,
{
    if count == 0 {
        0
    } else if attempts[count - 1].got_through() {
        through_count(attempts, (count - 1) as nat) + 1
    } else {
        through_count(attempts, (count - 1) as nat)
    }
}

/// How many of the first `count` images had their ticket granted.
pub open spec fn ticketed_count(attempts: Seq<Attempt>, count: nat) -> nat
    decreases count,
{
    if count == 0 {
        0
    } else if attempts[count - 1].ticketed() {
        ticketed_count(attempts, (count - 1) as nat) + 1
    } else {
        ticketed_count(attempts, (count - 1) as nat)
    }
}

/// Whether the bytes of each of the first `count` images got a response, as
/// far as they were sent.
pub open spec fn all_answered(attempts: Seq<Attempt>, count: nat) -> bool {
    forall|i: int| 0 <= i < count ==> (#[trigger] attempts[i]).answered()
}

/// How a batch ends once its images are dealt with, `files` being the entries
/// of those that got through and `rest` the outcomes that are left: without
/// a call and with an error where there is no such image, and else with the
/// completing call for these files, whose outcome decides.
pub open spec fn batch_end(
    token: Seq<char>,
    channel_id: Seq<char>,
    files: Seq<FileEntryView>,
    rest: Seq<HttpOutcomeView>,
) -> Trace {
    if files.len() == 0 {
        Trace {
            calls: Seq::empty(),
            skipped: Seq::empty(),
            result: Some(failure(SlackError::NoImagesPrepared)),
        }
    } else {
        Trace {
            calls: seq![ApiCallView::CompleteUpload { token, files, channel_id }],
            skipped: Seq::empty(),
            result: if rest.len() == 0 {
                None
            } else {
                Some(sharing_result(rest[0], ReceiptView::ImagesShared))
            },
        }
    }
}

/// The run of a batch from the image at `from` on: the calls for each image
/// that is left, whatever became of the images before it, and then the end of
/// the batch, which shares the images that got through, those before `from`
/// included.
pub open spec fn batch_trace(
    token: Seq<char>,
    channel_id: Seq<char>,
    images: Seq<ImagePayloadView>,
    attempts: Seq<Attempt>,
    from: nat,
    rest: Seq<HttpOutcomeView>,
) -> Trace {
    batch_end(token, channel_id, prepared_of(images, attempts, images.len()), rest).after(
        upload_calls(token, images, attempts, from),
        skipped_from(images, attempts, from),
    )
}

proof fn batch_moves_on(
    session: SessionView,
    prepared: Seq<FileEntryView>,
    skipped: Option<SkippedView>,
    attempts: Seq<Attempt>,
    rest: Seq<HttpOutcomeView>,
)
    requires
        session.operation == Operation::Batch,
        session.cursor < session.images.len(),
        attempts.len() == session.images.len(),
        prepared == prepared_of(session.images, attempts, session.cursor + 1),
    ensures
        play(
            StepView { skipped, next: session.move_on(prepared) },
            outcomes_from(attempts, session.cursor + 1) + rest,
        ) == batch_trace(
            session.token,
            session.channel_id,
            session.images,
            attempts,
            session.cursor + 1,
            rest,
        ).after(Seq::empty(), noted(skipped)),
    decreases session.images.len() - session.cursor, 0nat,
{
    let step = StepView { skipped, next: session.move_on(prepared) };
    let outcomes = outcomes_from(attempts, session.cursor + 1) + rest;
    let trace = play(step, outcomes);
    let told = batch_trace(
        session.token,
        session.channel_id,
        session.images,
        attempts,
        session.cursor + 1,
        rest,
    ).after(Seq::empty(), noted(skipped));
    if session.cursor + 1 < session.images.len() {
        let next = SessionView {
            cursor: session.cursor + 1,
            prepared,
            pending: PendingView::Ticket,
            ..session
        };
        assert(session.ticket_call((session.cursor + 1) as int) == next.ticket_call(
            next.cursor as int,
        ));
        batch_asks(next, skipped, attempts, rest);
    } else {
        assert(outcomes =~= rest);
        if prepared.len() > 0 && rest.len() > 0 {
            let last = SessionView {
                prepared: Seq::empty(),
                pending: PendingView::Complete,
                ..session
            };
            let end = play(last.resume(rest[0]), rest.drop_first());
            assert(end.calls =~= Seq::empty());
            assert(end.skipped =~= Seq::empty());
        }
        assert(trace.calls =~= told.calls);
        assert(trace.skipped =~= told.skipped);
    }
}

proof fn batch_asks(
    session: SessionView,
    skipped: Option<SkippedView>,
    attempts: Seq<Attempt>,
    rest: Seq<HttpOutcomeView>,
)
    requires
        session.operation == Operation::Batch,
        session.pending == PendingView::Ticket,
        session.cursor < session.images.len(),
        attempts.len() == session.images.len(),
        session.prepared == prepared_of(session.images, attempts, session.cursor),
    ensures
        play(
            StepView {
                skipped,
                next: NextView::Call { session, call: session.ticket_call(session.cursor as int) },
            },
            outcomes_from(attempts, session.cursor) + rest,
        ) == batch_trace(
            session.token,
            session.channel_id,
            session.images,
            attempts,
            session.cursor,
            rest,
        ).after(Seq::empty(), noted(skipped)),
    decreases session.images.len() - session.cursor, 1nat,
{
    let at = session.cursor as int;
    let attempt = attempts[at];
    let image = session.images[at];
    let ask = session.ticket_call(at);
    let start = StepView { skipped, next: NextView::Call { session, call: ask } };
    let tail = outcomes_from(attempts, session.cursor + 1) + rest;
    let outcomes = outcomes_from(attempts, session.cursor) + rest;
    let trace = play(start, outcomes);
    let told = batch_trace(
        session.token,
        session.channel_id,
        session.images,
        attempts,
        session.cursor,
        rest,
    ).after(Seq::empty(), noted(skipped));
    let onward = prepared_of(session.images, attempts, session.cursor + 1);
    assert(onward == session.prepared + attempt.entry(image));
    assert(outcomes =~= attempt.outcomes() + tail);
    assert(outcomes[0] == attempt.ticket);
    let after_ask = session.resume(attempt.ticket);
    let from_ask = play(after_ask, outcomes.drop_first());
    assert(trace == from_ask.after(seq![ask], noted(skipped)));
    match granted(attempt.ticket) {
        Err(error) => {
            assert(outcomes.drop_first() =~= tail);
            assert(onward =~= session.prepared);
            batch_moves_on(session, onward, after_ask.skipped, attempts, rest);
        },
        Ok(ticket) => {
            let putting = SessionView {
                pending: PendingView::Put { file_id: ticket.file_id },
                ..session
            };
            let put = ApiCallView::PutBytes { upload_url: ticket.upload_url, bytes: image.bytes };
            assert(after_ask == StepView::call(putting, put));
            assert(outcomes.drop_first() =~= seq![attempt.put] + tail);
            assert(outcomes.drop_first().drop_first() =~= tail);
            let after_put = putting.resume(attempt.put);
            let from_put = play(after_put, tail);
            assert(from_ask == from_put.after(seq![put], Seq::empty()));
            match stored(attempt.put) {
                Err(error) => {
                    assert(onward =~= session.prepared);
                },
                Ok(_) => {
                    assert(onward =~= session.prepared.push(entry_for(ticket.file_id, image)));
                },
            }
            batch_moves_on(putting, onward, after_put.skipped, attempts, rest);
        },
    }
    assert(trace.calls =~= told.calls);
    assert(trace.skipped =~= told.skipped);
}

/// With a token and a channel identifier, the run of a batch is told by what
/// came back for each image, as `batch_trace` says.
///
/// The images are taken in the order given, each of them, whatever became of
/// those before it. For each, a ticket is asked for; if one is granted, the
/// bytes of that image go to the address on that ticket, and nowhere else. An
/// image for which no ticket is granted, or whose bytes get no response, is
/// left out and reported, and the batch goes on. Then the images that got
/// through are shared by one completing call; if none got through, no
/// completing call is made and the batch fails.
pub proof fn batch_runs_image_by_image(
    credentials: CredentialsView,
    images: Seq<ImagePayloadView>,
    attempts: Seq<Attempt>,
    rest: Seq<HttpOutcomeView>,
)
    requires
        credentials.token is Some,
        credentials.channel_id is Some,
        attempts.len() == images.len(),
    ensures
        play(
            sharing_start(Operation::Batch, credentials, images),
            outcomes_from(attempts, 0) + rest,
        ) == batch_trace(credentials.token->0, credentials.channel_id->0, images, attempts, 0, rest),
{
    let token = credentials.token->0;
    let channel_id = credentials.channel_id->0;
    let trace = play(
        sharing_start(Operation::Batch, credentials, images),
        outcomes_from(attempts, 0) + rest,
    );
    let told = batch_trace(token, channel_id, images, attempts, 0, rest);
    if images.len() > 0 {
        let session = SessionView::uploading(Operation::Batch, token, channel_id, images);
        batch_asks(session, None, attempts, rest);
    }
    assert(trace.calls =~= told.calls);
    assert(trace.skipped =~= told.skipped);
}

/// Whether none of the calls is a completing call.
pub open spec fn completes_nothing(calls: Seq<ApiCallView>) -> bool {
    forall|k: int| 0 <= k < calls.len() ==> (#[trigger] calls[k]).endpoint() != Endpoint::CompleteUpload
}

/// What a run of a batch comes to, `files` being the entries of the images
/// that got through and `rest` the outcomes left when the images are dealt
/// with.
///
/// With no such image the run makes no completing call and ends with the
/// error that says so. Otherwise its last call, and no other, is the
/// completing call, for exactly these files in this order, and the outcome of
/// that call decides the result.
pub open spec fn shares(
    trace: Trace,
    token: Seq<char>,
    channel_id: Seq<char>,
    files: Seq<FileEntryView>,
    rest: Seq<HttpOutcomeView>,
) -> bool {
    if files.len() == 0 {
        &&& completes_nothing(trace.calls)
        &&& trace.result == Some(failure(SlackError::NoImagesPrepared))
    } else {
        &&& trace.calls.len() >= 1
        &&& completes_nothing(trace.calls.drop_last())
        &&& trace.calls.last() == (ApiCallView::CompleteUpload { token, files, channel_id })
        &&& rest.len() == 0 ==> trace.result is None
        &&& rest.len() > 0 ==> trace.result == Some(
            sharing_result(rest[0], ReceiptView::ImagesShared),
        )
    }
}

/// None of the calls that upload the images of a batch is a completing call.
pub proof fn uploads_complete_nothing(
    token: Seq<char>,
    images: Seq<ImagePayloadView>,
    attempts: Seq<Attempt>,
    from: nat,
)
    ensures
        completes_nothing(upload_calls(token, images, attempts, from)),
    decreases images.len() - from,
{
    if from < images.len() {
        uploads_complete_nothing(token, images, attempts, from + 1);
    }
}

/// Among the first `count` images there is one entry for each that got
/// through. Where the bytes of each of them got a response, as far as they
/// were sent, the images that got through are those for which a ticket was
/// granted.
pub proof fn one_entry_for_each_image_through(
    images: Seq<ImagePayloadView>,
    attempts: Seq<Attempt>,
    count: nat,
)
    ensures
        prepared_of(images, attempts, count).len() == through_count(attempts, count),
        through_count(attempts, count) <= ticketed_count(attempts, count),
        all_answered(attempts, count) ==> through_count(attempts, count) == ticketed_count(
            attempts,
            count,
        ),
    decreases count,
{
    if count > 0 {
        one_entry_for_each_image_through(images, attempts, (count - 1) as nat);
    }
}

/// With a token and a channel identifier, a batch shares exactly the images
/// that got through, in the order in which they were given, whatever came
/// back for the others.
///
/// An image got through if a ticket was granted for it and its bytes got a
/// response. If none did, which includes the batch of no images, no
/// completing call is made and the batch ends with the error that says no
/// image was prepared. Otherwise the completing call is the last call of the
/// run and the only one of its kind, and it names one file for each image
/// that got through, in the order of the images.
///
/// The number of files is the number of images that got through. It is never
/// more than the number of tickets granted, and it is that number where the
/// bytes of every image with a ticket got a response.
pub proof fn batch_shares_what_got_through(
    credentials: CredentialsView,
    images: Seq<ImagePayloadView>,
    attempts: Seq<Attempt>,
    rest: Seq<HttpOutcomeView>,
)
    requires
        credentials.token is Some,
        credentials.channel_id is Some,
        attempts.len() == images.len(),
    ensures
        shares(
            play(
                sharing_start(Operation::Batch, credentials, images),
                outcomes_from(attempts, 0) + rest,
            ),
            credentials.token->0,
            credentials.channel_id->0,
            prepared_of(images, attempts, images.len()),
            rest,
        ),
        prepared_of(images, attempts, images.len()).len() == through_count(attempts, images.len()),
        through_count(attempts, images.len()) <= ticketed_count(attempts, images.len()),
        all_answered(attempts, images.len()) ==> through_count(attempts, images.len())
            == ticketed_count(attempts, images.len()),
{
    let token = credentials.token->0;
    let uploads = upload_calls(token, images, attempts, 0);
    let trace = batch_trace(token, credentials.channel_id->0, images, attempts, 0, rest);
    batch_runs_image_by_image(credentials, images, attempts, rest);
    uploads_complete_nothing(token, images, attempts, 0);
    one_entry_for_each_image_through(images, attempts, images.len());
    if prepared_of(images, attempts, images.len()).len() == 0 {
        assert(trace.calls =~= uploads);
    } else {
        assert(trace.calls.drop_last() =~= uploads);
    }
}

/// The calls among `calls` that ask for a ticket, in their order.
pub open spec fn ticket_requests(calls: Seq<ApiCallView>) -> Seq<ApiCallView> {
    calls.filter(|call: ApiCallView| call.endpoint() == Endpoint::RequestUploadUrl)
}

/// The requests for the tickets of the images from `from` on: one for each
/// image, with its file name and the number of its bytes, in the order of the
/// images.
pub open spec fn asks_from(token: Seq<char>, images: Seq<ImagePayloadView>, from: nat) -> Seq<
    ApiCallView,
>
    decreases images.len() - from,
{
    if from < images.len() {
        seq![ask_for(token, images[from as int])] + asks_from(token, images, from + 1)
    } else {
        Seq::empty()
    }
}

proof fn uploads_ask_once_each(
    token: Seq<char>,
    images: Seq<ImagePayloadView>,
    attempts: Seq<Attempt>,
    from: nat,
)
    ensures
        ticket_requests(upload_calls(token, images, attempts, from)) == asks_from(
            token,
            images,
            from,
        ),
    decreases images.len() - from,
{
    let asking = |call: ApiCallView| call.endpoint() == Endpoint::RequestUploadUrl;
    if from < images.len() {
        let first = attempts[from as int].calls(token, images[from as int]);
        let later = upload_calls(token, images, attempts, from + 1);
        let ask = ask_for(token, images[from as int]);
        uploads_ask_once_each(token, images, attempts, from + 1);
        Seq::filter_distributes_over_add(first, later, asking);
        assert(first.filter(asking) =~= seq![ask]) by {
            reveal_with_fuel(Seq::filter, 3);
            assert(seq![ask].drop_last() =~= Seq::empty());
            if first.len() == 2 {
                assert(first.drop_last() =~= seq![ask]);
            }
        }
    } else {
        reveal_with_fuel(Seq::filter, 1);
    }
}

/// With a token and a channel identifier, a batch asks for the ticket of
/// every image exactly once, in the order in which the images were given,
/// each time with the file name of the image and the number of its bytes.
/// This holds whatever came back for the images: no image is asked for
/// twice, and none is passed over because of what became of one before it.
pub proof fn batch_asks_for_every_image_once(
    credentials: CredentialsView,
    images: Seq<ImagePayloadView>,
    attempts: Seq<Attempt>,
    rest: Seq<HttpOutcomeView>,
)
    requires
        credentials.token is Some,
        credentials.channel_id is Some,
        attempts.len() == images.len(),
    ensures
        ticket_requests(
            play(
                sharing_start(Operation::Batch, credentials, images),
                outcomes_from(attempts, 0) + rest,
            ).calls,
        ) == asks_from(credentials.token->0, images, 0),
        asks_from(credentials.token->0, images, 0).len() == images.len(),
        forall|i: int|
            0 <= i < images.len() ==> #[trigger] asks_from(credentials.token->0, images, 0)[i]
                == ask_for(credentials.token->0, images[i]),
{
    let token = credentials.token->0;
    let asking = |call: ApiCallView| call.endpoint() == Endpoint::RequestUploadUrl;
    let uploads = upload_calls(token, images, attempts, 0);
    let end = batch_end(
        token,
        credentials.channel_id->0,
        prepared_of(images, attempts, images.len()),
        rest,
    );
    batch_runs_image_by_image(credentials, images, attempts, rest);
    uploads_ask_once_each(token, images, attempts, 0);
    Seq::filter_distributes_over_add(uploads, end.calls, asking);
    assert(end.calls.filter(asking) =~= Seq::empty()) by {
        reveal_with_fuel(Seq::filter, 2);
        if end.calls.len() > 0 {
            assert(end.calls.drop_last() =~= Seq::empty());
        }
    }
    assert(uploads.filter(asking) + end.calls.filter(asking) =~= uploads.filter(asking));
    asks_are_the_images(token, images, 0);
}

/// The requests for the tickets of the images from `from` on are as many as
/// those images, and each is that of its image.
pub proof fn asks_are_the_images(token: Seq<char>, images: Seq<ImagePayloadView>, from: nat)
    requires
        from <= images.len(),
    ensures
        asks_from(token, images, from).len() == images.len() - from,
        forall|i: int|
            0 <= i < images.len() - from ==> #[trigger] asks_from(token, images, from)[i] == ask_for(
                token,
                images[from + i],
            ),
    decreases images.len() - from,
{
    if from < images.len() {
        asks_are_the_images(token, images, from + 1);
        let later = asks_from(token, images, from + 1);
        assert forall|i: int| 0 <= i < images.len() - from implies #[trigger] asks_from(
            token,
            images,
            from,
        )[i] == ask_for(token, images[from + i]) by {
            if i > 0 {
                assert(asks_from(token, images, from)[i] == later[i - 1]);
            }
        }
    }
}

} // verus!
