//! The operations of the client: each function starts one and hands back its
//! first step.

use vstd::prelude::*;
use vstd::slice::slice_to_vec;
use crate::call::{ApiCall, ApiCallView};
use crate::config::{Credentials, CredentialsView};
use crate::error::{ConfigKey, SlackError};
use crate::payload::{
    image_views, ImagePayload, ImagePayloadView, OutgoingMessage, OutgoingMessageView,
};
use crate::session::{Next, Operation, Session, SessionView, Step, StepView};

verus! {

/// How posting `message` starts: with the posting call, or with the error
/// for a missing token or channel.
pub open spec fn message_start(credentials: CredentialsView, message: Seq<char>) -> StepView {
    match credentials.pair(ConfigKey::Channel) {
        Ok(found) => StepView::call(
            SessionView::posting(found.0),
            ApiCallView::PostMessage {
                token: found.0,
                message: OutgoingMessageView { channel: found.1, text: message },
            },
        ),
        Err(error) => StepView::done(Err(error)),
    }
}

/// How an operation on images starts once its settings are found: with the
/// request for the first image's ticket, or, for no image at all, with the
/// end.
pub open spec fn images_start(
    operation: Operation,
    token: Seq<char>,
    channel_id: Seq<char>,
    images: Seq<ImagePayloadView>,
) -> StepView {
    if images.len() == 0 {
        StepView::done(Err(SlackError::NoImagesPrepared))
    } else {
        let session = SessionView::uploading(operation, token, channel_id, images);
        StepView::call(session, session.ticket_call(0))
    }
}

/// How the upload of one image's bytes starts.
pub open spec fn upload_start(token: Seq<char>, image: Seq<u8>, filename: Seq<char>) -> StepView {
    images_start(
        Operation::Upload,
        token,
        Seq::empty(),
        seq![ImagePayloadView { bytes: image, filename, title: Seq::empty() }],
    )
}

/// How sharing images starts: with the error for a missing token or channel
/// identifier, or as `images_start` says.
pub open spec fn sharing_start(
    operation: Operation,
    credentials: CredentialsView,
    images: Seq<ImagePayloadView>,
) -> StepView {
    match credentials.pair(ConfigKey::ChannelId) {
        Ok(found) => images_start(operation, found.0, found.1, images),
        Err(error) => StepView::done(Err(error)),
    }
}

/// The image that a triple of bytes, file name and title stands for.
pub open spec fn image_of(image: (&[u8], &str, &str)) -> ImagePayloadView {
    ImagePayloadView { bytes: image.0@, filename: image.1@, title: image.2@ }
}

/// The images that a list of triples stands for, in order.
pub open spec fn images_of(images: Seq<(&[u8], &str, &str)>) -> Seq<ImagePayloadView> {
    images.map_values(|image: (&[u8], &str, &str)| image_of(image))
}

fn start_images(
    operation: Operation,
    token: String,
    channel_id: String,
    images: Vec<ImagePayload>,
) -> (step: Step)
    requires
        operation != Operation::Message,
        operation != Operation::Batch ==> images@.len() == 1,
    ensures
        step@ == images_start(operation, token@, channel_id@, image_views(images@)),
{
    if images.len() == 0 {
        Step { skipped: None, next: Next::Done(Err(SlackError::NoImagesPrepared)) }
    } else {
        let (session, call) = Session::uploading(operation, token, channel_id, images);
        Step { skipped: None, next: Next::Call { session, call } }
    }
}

fn one_image(image: &[u8], filename: &str, title: &str) -> (images: Vec<ImagePayload>)
    ensures
        image_views(images@) == seq![
            ImagePayloadView { bytes: image@, filename: filename@, title: title@ },
        ],
{
    let mut images: Vec<ImagePayload> = Vec::new();
    images.push(
        ImagePayload {
            bytes: slice_to_vec(image),
            filename: filename.to_owned(),
            title: title.to_owned(),
        },
    );
    assert(image_views(images@) =~= seq![
        ImagePayloadView { bytes: image@, filename: filename@, title: title@ },
    ]);
    images
}

/// Starts posting a plain message to the channel of the credentials.
///
/// Nothing is sent where the token or the channel is missing: the step is
/// then the end, with the error for the first of the two that is missing.
pub fn send_slack_message(credentials: &Credentials, message: &str) -> (step: Step)
    ensures
        step@ == message_start(credentials@, message@),
{
    match credentials.require_pair(ConfigKey::Channel) {
        Ok((token, channel)) => {
            let call = ApiCall::PostMessage {
                token: token.clone(),
                message: OutgoingMessage { channel, text: message.to_owned() },
            };
            Step { skipped: None, next: Next::Call { session: Session::posting(token), call } }
        },
        Err(error) => Step { skipped: None, next: Next::Done(Err(error)) },
    }
}

/// Starts the upload of one image's bytes: the request for a ticket, then the
/// bytes. The operation ends with the identifier of the file.
pub fn upload_image_to_slack(token: &str, image: &[u8], filename: &str) -> (step: Step)
    ensures
        step@ == upload_start(token@, image@, filename@),
{
    proof {
        reveal_strlit("");
    }
    assert(""@ =~= Seq::empty());
    start_images(Operation::Upload, token.to_owned(), String::new(), one_image(image, filename, ""))
}

/// Starts the upload of one image and its sharing in the channel of the
/// credentials.
pub fn send_single_image_to_slack(
    credentials: &Credentials,
    image: &[u8],
    filename: &str,
    title: &str,
) -> (step: Step)
    ensures
        step@ == sharing_start(
            Operation::SingleImage,
            credentials@,
            seq![ImagePayloadView { bytes: image@, filename: filename@, title: title@ }],
        ),
{
    match credentials.require_pair(ConfigKey::ChannelId) {
        Ok((token, channel_id)) => start_images(
            Operation::SingleImage,
            token,
            channel_id,
            one_image(image, filename, title),
        ),
        Err(error) => Step { skipped: None, next: Next::Done(Err(error)) },
    }
}

/// Starts the upload of several images, each given as bytes, file name and
/// title, and the sharing of those that get through.
pub fn send_multiple_images_to_slack(
    credentials: &Credentials,
    images: &[(&[u8], &str, &str)],
) -> (step: Step)
    ensures
        step@ == sharing_start(Operation::Batch, credentials@, images_of(images@)),
{
    match credentials.require_pair(ConfigKey::ChannelId) {
        Ok((token, channel_id)) => {
            let mut owned: Vec<ImagePayload> = Vec::new();
            let mut done: usize = 0;
            while done < images.len()
                invariant
                    done <= images@.len(),
                    owned@.len() == done,
                    forall|i: int| 0 <= i < done ==> (#[trigger] owned@[i])@ == image_of(images@[i]),
                decreases images@.len() - done,
            {
                let (bytes, filename, title) = images[done];
                owned.push(
                    ImagePayload {
                        bytes: slice_to_vec(bytes),
                        filename: filename.to_owned(),
                        title: title.to_owned(),
                    },
                );
                done += 1;
            }
            assert(image_views(owned@) =~= images_of(images@));
            start_images(Operation::Batch, token, channel_id, owned)
        },
        Err(error) => Step { skipped: None, next: Next::Done(Err(error)) },
    }
}

} // verus!
