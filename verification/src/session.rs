//! Sessions: one operation each, carried out call by call.
//!
//! A session always has one call outstanding. Given the outcome of that call,
//! `Session::resume` names the next call or ends the operation. The driver
//! makes the calls and hands back their outcomes; the session decides.
//!
//! An image is uploaded in two calls: a ticket is asked for, and the bytes go
//! to the address on the ticket. A batch does both for each image in turn,
//! before it turns to the next, and shares the images that got through with
//! one completing call at the end.
//!
//! The response to the bytes is not validated: any response lets the upload
//! go on, and only bytes that got no response at all count as a failure.
//!
//! A batch puts up with an image that does not get through, be it that no
//! ticket is granted for it, whatever the reason, or that its bytes get no
//! response: it leaves the image out, reports it and goes on to the next.
//! Every image of a batch is asked for, whatever became of those before it.
//! In every other operation the first failure ends the operation.

use vstd::prelude::*;
use crate::call::{ApiCall, ApiCallView};
use crate::error::SlackError;
use crate::http::{HttpOutcome, HttpOutcomeView};
use crate::payload::{
    entry_views, image_views, FileEntry, FileEntryView, ImagePayload, ImagePayloadView,
};
use crate::reply::{
    completed, delivery_of, granted, read_completed, read_delivery, read_stored, read_ticket, stored,
    Delivery, DeliveryView,
};

verus! {

/// The operations that the client offers.
#[derive(Clone, Copy, Debug, PartialEq, Eq, Structural)]
pub enum Operation {
    /// Post a plain message.
    Message,
    /// Upload the bytes of one image, without sharing it.
    Upload,
    /// Upload one image and share it.
    SingleImage,
    /// Upload several images and share those that got through.
    Batch,
}

/// What an operation that succeeds hands back.
#[derive(Clone, Debug, PartialEq, Eq)]
pub enum Receipt {
    /// The posting call was answered.
    Message(Delivery),
    /// The bytes are with the vendor, under `file_id`.
    Uploaded { file_id: String },
    /// The image is shared.
    ImageShared,
    /// The images of the batch that got through are shared.
    ImagesShared,
}

/// An image that a batch left out, and why.
#[derive(Clone, Debug, PartialEq, Eq)]
pub struct Skipped {
    pub filename: String,
    pub error: SlackError,
}

/// What the driver does next.
#[derive(Debug)]
pub enum Next {
    /// Make `call` and resume `session` with its outcome.
    Call { session: Session, call: ApiCall },
    /// The operation has ended.
    Done(Result<Receipt, SlackError>),
}

/// One decision of a session.
#[derive(Debug)]
pub struct Step {
    /// The image that this decision left out of a batch, if it did.
    pub skipped: Option<Skipped>,
    pub next: Next,
}

#[derive(Debug)]
enum Pending {
    Post,
    Ticket,
    Put { file_id: String },
    Complete,
}

/// An operation under way.
#[derive(Debug)]
pub struct Session {
    operation: Operation,
    token: String,
    channel_id: String,
    images: Vec<ImagePayload>,
    cursor: usize,
    prepared: Vec<FileEntry>,
    pending: Pending,
}

pub enum ReceiptView {
    Message(DeliveryView),
    Uploaded { file_id: Seq<char> },
    ImageShared,
    ImagesShared,
}

pub struct SkippedView {
    pub filename: Seq<char>,
    pub error: SlackError,
}

pub enum NextView {
    Call { session: SessionView, call: ApiCallView },
    Done(Result<ReceiptView, SlackError>),
}

pub struct StepView {
    pub skipped: Option<SkippedView>,
    pub next: NextView,
}

/// The call that a session waits for.
pub enum PendingView {
    Post,
    Ticket,
    Put { file_id: Seq<char> },
    Complete,
}

/// A session as mathematics.
pub struct SessionView {
    pub operation: Operation,
    pub token: Seq<char>,
    /// The channel in which uploaded files are shared.
    pub channel_id: Seq<char>,
    /// The images of the operation, in the order given.
    pub images: Seq<ImagePayloadView>,
    /// The index of the image that is being uploaded.
    pub cursor: nat,
    /// The entries of the images before `cursor` that got through, in order.
    pub prepared: Seq<FileEntryView>,
    pub pending: PendingView,
}

impl View for Receipt {
    type V = ReceiptView;

    open spec fn view(&self) -> ReceiptView {
        match self {
            Receipt::Message(delivery) => ReceiptView::Message(delivery@),
            Receipt::Uploaded { file_id } => ReceiptView::Uploaded { file_id: file_id@ },
            Receipt::ImageShared => ReceiptView::ImageShared,
            Receipt::ImagesShared => ReceiptView::ImagesShared,
        }
    }
}

impl View for Skipped {
    type V = SkippedView;

    open spec fn view(&self) -> SkippedView {
        SkippedView { filename: self.filename@, error: self.error }
    }
}

impl View for Pending {
    type V = PendingView;

    closed spec fn view(&self) -> PendingView {
        match self {
            Pending::Post => PendingView::Post,
            Pending::Ticket => PendingView::Ticket,
            Pending::Put { file_id } => PendingView::Put { file_id: file_id@ },
            Pending::Complete => PendingView::Complete,
        }
    }
}

impl View for Session {
    type V = SessionView;

    closed spec fn view(&self) -> SessionView {
        SessionView {
            operation: self.operation,
            token: self.token@,
            channel_id: self.channel_id@,
            images: image_views(self.images@),
            cursor: self.cursor as nat,
            prepared: entry_views(self.prepared@),
            pending: self.pending@,
        }
    }
}

impl View for Next {
    type V = NextView;

    open spec fn view(&self) -> NextView {
        match self {
            Next::Call { session, call } => NextView::Call { session: session@, call: call@ },
            Next::Done(result) => NextView::Done(result_view(*result)),
        }
    }
}

impl View for Step {
    type V = StepView;

    open spec fn view(&self) -> StepView {
        StepView { skipped: skipped_view(self.skipped), next: self.next@ }
    }
}

/// The view of a receipt, or the error in its place.
pub open spec fn result_view(result: Result<Receipt, SlackError>) -> Result<ReceiptView, SlackError> {
    match result {
        Ok(receipt) => Ok(receipt@),
        Err(error) => Err(error),
    }
}

/// The view of a skipped image that may be absent.
pub open spec fn skipped_view(skipped: Option<Skipped>) -> Option<SkippedView> {
    match skipped {
        Some(skipped) => Some(skipped@),
        None => None,
    }
}

/// The entry under which an uploaded image is shared.
pub open spec fn entry_for(file_id: Seq<char>, image: ImagePayloadView) -> FileEntryView {
    FileEntryView { id: file_id, title: image.title }
}

impl StepView {
    /// A step is well formed if the session that it leaves behind is, where
    /// it leaves one.
    pub open spec fn wf(self) -> bool {
        match self.next {
            NextView::Call { session, call } => session.wf(),
            NextView::Done(_) => true,
        }
    }

    /// The step that ends an operation.
    pub open spec fn done(result: Result<ReceiptView, SlackError>) -> StepView {
        StepView { skipped: None, next: NextView::Done(result) }
    }

    /// The step that asks for a call.
    pub open spec fn call(session: SessionView, call: ApiCallView) -> StepView {
        StepView { skipped: None, next: NextView::Call { session, call } }
    }
}

impl SessionView {
    /// The session of a posted message.
    pub open spec fn posting(token: Seq<char>) -> SessionView {
        SessionView {
            operation: Operation::Message,
            token,
            channel_id: Seq::empty(),
            images: Seq::empty(),
            cursor: 0,
            prepared: Seq::empty(),
            pending: PendingView::Post,
        }
    }

    /// The session of an upload that has asked for the ticket of its first
    /// image.
    pub open spec fn uploading(
        operation: Operation,
        token: Seq<char>,
        channel_id: Seq<char>,
        images: Seq<ImagePayloadView>,
    ) -> SessionView {
        SessionView {
            operation,
            token,
            channel_id,
            images,
            cursor: 0,
            prepared: Seq::empty(),
            pending: PendingView::Ticket,
        }
    }

    /// What holds of every session: the call that it waits for is one of its
    /// operation, and while an image is being uploaded there is such an
    /// image.
    pub open spec fn wf(self) -> bool {
        &&& self.operation == Operation::Message <==> self.pending == PendingView::Post
        &&& self.operation == Operation::Upload ==> self.pending != PendingView::Complete
        &&& self.operation != Operation::Message ==> self.cursor < self.images.len()
        &&& self.operation != Operation::Batch ==> self.images.len() <= 1
    }

    /// The call that asks where the bytes of the image at `index` go.
    pub open spec fn ticket_call(self, index: int) -> ApiCallView {
        ApiCallView::RequestUploadUrl {
            token: self.token,
            filename: self.images[index].filename,
            length: self.images[index].bytes.len(),
        }
    }

    /// What follows once the image under the cursor is dealt with, `prepared`
    /// being the entries of the images that got through so far: the next
    /// image, if there is one; else the completing call, if any image got
    /// through; else the end.
    pub open spec fn move_on(self, prepared: Seq<FileEntryView>) -> NextView {
        if self.cursor + 1 < self.images.len() {
            NextView::Call {
                session: SessionView {
                    cursor: self.cursor + 1,
                    prepared,
                    pending: PendingView::Ticket,
                    ..self
                },
                call: self.ticket_call((self.cursor + 1) as int),
            }
        } else if prepared.len() == 0 {
            NextView::Done(Err(SlackError::NoImagesPrepared))
        } else {
            NextView::Call {
                session: SessionView {
                    prepared: Seq::empty(),
                    pending: PendingView::Complete,
                    ..self
                },
                call: ApiCallView::CompleteUpload {
                    token: self.token,
                    files: prepared,
                    channel_id: self.channel_id,
                },
            }
        }
    }

    /// What follows a failure to upload the image under the cursor, be it
    /// that no ticket was granted or that the bytes got no response: a batch
    /// leaves the image out and moves on; any other operation ends.
    pub open spec fn give_up(self, error: SlackError) -> StepView {
        if self.operation == Operation::Batch {
            StepView {
                skipped: Some(SkippedView { filename: self.images[self.cursor as int].filename, error }),
                next: self.move_on(self.prepared),
            }
        } else {
            StepView::done(Err(error))
        }
    }

    /// What follows the upload of the image under the cursor.
    pub open spec fn uploaded(self, file_id: Seq<char>) -> StepView {
        if self.operation == Operation::Upload {
            StepView::done(Ok(ReceiptView::Uploaded { file_id }))
        } else {
            StepView {
                skipped: None,
                next: self.move_on(
                    self.prepared.push(entry_for(file_id, self.images[self.cursor as int])),
                ),
            }
        }
    }

    /// The receipt of an operation that shares what it uploaded.
    pub open spec fn shared(self) -> ReceiptView {
        if self.operation == Operation::Batch {
            ReceiptView::ImagesShared
        } else {
            ReceiptView::ImageShared
        }
    }

    /// The decision that a session takes on the outcome of the call that it
    /// waits for.
    pub open spec fn resume(self, outcome: HttpOutcomeView) -> StepView {
        match self.pending {
            PendingView::Post => StepView::done(
                match delivery_of(outcome) {
                    Ok(delivery) => Ok(ReceiptView::Message(delivery)),
                    Err(error) => Err(error),
                },
            ),
            PendingView::Ticket => match granted(outcome) {
                Ok(ticket) => StepView::call(
                    SessionView { pending: PendingView::Put { file_id: ticket.file_id }, ..self },
                    ApiCallView::PutBytes {
                        upload_url: ticket.upload_url,
                        bytes: self.images[self.cursor as int].bytes,
                    },
                ),
                Err(error) => self.give_up(error),
            },
            PendingView::Put { file_id } => match stored(outcome) {
                Ok(_) => self.uploaded(file_id),
                Err(error) => self.give_up(error),
            },
            PendingView::Complete => StepView::done(
                match completed(outcome) {
                    Ok(_) => Ok(self.shared()),
                    Err(error) => Err(error),
                },
            ),
        }
    }
}

impl Session {
    #[verifier::type_invariant]
    closed spec fn inv(&self) -> bool {
        self@.wf()
    }

    /// A session that waits for the answer to a posted message.
    pub(crate) fn posting(token: String) -> (session: Session)
        ensures
            session@ == SessionView::posting(token@),
    {
        let session = Session {
            operation: Operation::Message,
            token,
            channel_id: String::new(),
            images: Vec::new(),
            cursor: 0,
            prepared: Vec::new(),
            pending: Pending::Post,
        };
        assert(session@.images =~= Seq::empty());
        assert(session@.prepared =~= Seq::empty());
        session
    }

    /// A session that waits for the ticket of its first image, with the call
    /// that asks for it.
    pub(crate) fn uploading(
        operation: Operation,
        token: String,
        channel_id: String,
        images: Vec<ImagePayload>,
    ) -> (started: (Session, ApiCall))
        requires
            operation != Operation::Message,
            images@.len() >= 1,
            operation != Operation::Batch ==> images@.len() == 1,
        ensures
            started.0@ == SessionView::uploading(operation, token@, channel_id@, image_views(images@)),
            started.1@ == started.0@.ticket_call(0),
    {
        let session = Session {
            operation,
            token,
            channel_id,
            images,
            cursor: 0,
            prepared: Vec::new(),
            pending: Pending::Ticket,
        };
        assert(session@.prepared =~= Seq::empty());
        let call = session.ticket_call(0);
        (session, call)
    }

    /// The operation that this session carries out.
    pub fn operation(&self) -> (operation: Operation)
        ensures
            operation == self@.operation,
    {
        self.operation
    }

    fn ticket_call(&self, index: usize) -> (call: ApiCall)
        requires
            index < self@.images.len(),
        ensures
            call@ == self@.ticket_call(index as int),
    {
        ApiCall::RequestUploadUrl {
            token: self.token.clone(),
            filename: self.images[index].filename.clone(),
            length: self.images[index].bytes.len(),
        }
    }

    fn move_on(self, prepared: Vec<FileEntry>) -> (next: Next)
        requires
            self@.operation == Operation::SingleImage || self@.operation == Operation::Batch,
        ensures
            next@ == self@.move_on(entry_views(prepared@)),
    {
        proof {
            use_type_invariant(&self);
        }
        let total = self.images.len();
        if self.cursor + 1 < total {
            let call = self.ticket_call(self.cursor + 1);
            let session = Session {
                operation: self.operation,
                token: self.token,
                channel_id: self.channel_id,
                images: self.images,
                cursor: self.cursor + 1,
                prepared,
                pending: Pending::Ticket,
            };
            Next::Call { session, call }
        } else if prepared.len() == 0 {
            Next::Done(Err(SlackError::NoImagesPrepared))
        } else {
            let call = ApiCall::CompleteUpload {
                token: self.token.clone(),
                files: prepared,
                channel_id: self.channel_id.clone(),
            };
            let session = Session {
                operation: self.operation,
                token: self.token,
                channel_id: self.channel_id,
                images: self.images,
                cursor: self.cursor,
                prepared: Vec::new(),
                pending: Pending::Complete,
            };
            assert(session@.prepared =~= Seq::empty());
            Next::Call { session, call }
        }
    }

    fn give_up(self, error: SlackError) -> (step: Step)
        requires
            self@.operation != Operation::Message,
        ensures
            step@ == self@.give_up(error),
    {
        proof {
            use_type_invariant(&self);
        }
        match self.operation {
            Operation::Batch => {
                let filename = self.images[self.cursor].filename.clone();
                let mut prepared = Vec::new();
                let mut session = self;
                std::mem::swap(&mut prepared, &mut session.prepared);
                Step { skipped: Some(Skipped { filename, error }), next: session.move_on(prepared) }
            },
            _ => Step { skipped: None, next: Next::Done(Err(error)) },
        }
    }

    /// Decides what follows the outcome of the call that the session waits
    /// for.
    pub fn resume(self, outcome: HttpOutcome) -> (step: Step)
        ensures
            step@ == self@.resume(outcome@),
    {
        proof {
            use_type_invariant(&self);
        }
        let Session { operation, token, channel_id, images, cursor, prepared, pending } = self;
        match pending {
            Pending::Post => {
                let result = match read_delivery(outcome) {
                    Ok(delivery) => Ok(Receipt::Message(delivery)),
                    Err(error) => Err(error),
                };
                Step { skipped: None, next: Next::Done(result) }
            },
            Pending::Ticket => match read_ticket(&outcome) {
                Ok(ticket) => {
                    let bytes = images[cursor].bytes.clone();
                    let session = Session {
                        operation,
                        token,
                        channel_id,
                        images,
                        cursor,
                        prepared,
                        pending: Pending::Put { file_id: ticket.file_id },
                    };
                    let call = ApiCall::PutBytes { upload_url: ticket.upload_url, bytes };
                    Step { skipped: None, next: Next::Call { session, call } }
                },
                Err(error) => {
                    let session = Session {
                        operation,
                        token,
                        channel_id,
                        images,
                        cursor,
                        prepared,
                        pending: Pending::Ticket,
                    };
                    session.give_up(error)
                },
            },
            Pending::Put { file_id } => match read_stored(&outcome) {
                Ok(_) => match operation {
                    Operation::Upload => Step {
                        skipped: None,
                        next: Next::Done(Ok(Receipt::Uploaded { file_id })),
                    },
                    _ => {
                        let entry = FileEntry { id: file_id, title: images[cursor].title.clone() };
                        let mut prepared = prepared;
                        prepared.push(entry);
                        assert(entry_views(prepared@) =~= self@.prepared.push(
                            entry_for(file_id@, self@.images[cursor as int]),
                        ));
                        let session = Session {
                            operation,
                            token,
                            channel_id,
                            images,
                            cursor,
                            prepared: Vec::new(),
                            pending: Pending::Ticket,
                        };
                        Step { skipped: None, next: session.move_on(prepared) }
                    },
                },
                Err(error) => {
                    let session = Session {
                        operation,
                        token,
                        channel_id,
                        images,
                        cursor,
                        prepared,
                        pending: Pending::Put { file_id },
                    };
                    session.give_up(error)
                },
            },
            Pending::Complete => {
                let result = match read_completed(&outcome) {
                    Ok(_) => match operation {
                        Operation::Batch => Ok(Receipt::ImagesShared),
                        _ => Ok(Receipt::ImageShared),
                    },
                    Err(error) => Err(error),
                };
                Step { skipped: None, next: Next::Done(result) }
            },
        }
    }
}

/// Every decision of a well-formed session is a well-formed step.
pub proof fn resume_keeps_sessions_well_formed(session: SessionView, outcome: HttpOutcomeView)
    requires
        session.wf(),
    ensures
        session.resume(outcome).wf(),
{
}

} // verus!
