//! One run of the pipeline, as a state machine.
//!
//! A run alternates between decisions and work on the outside world. The
//! decisions are made here; the caller performs each [`Action`] and hands its
//! outcome back as the next [`Event`]:
//!
//! 1. capture the clipboard, hand in `Captured`, or `CaptureFailed`;
//! 2. on `ReadFile`, read the file and hand in `FileRead`;
//! 3. on `Send`, make the one network call and hand in `Replied`;
//! 4. on `WriteClipboard`, write the link and hand in `Written`;
//! 5. on `Finish`, report the outcome; the run is over.

use vstd::prelude::*;
use crate::classify::{class_of, classify, disk_answer, is_absolute_url, text_of};
use crate::encode::{
    extension_for, file_extension, has_png_signature, image_to_png_bytes, png_sniffed_as, sniff,
    EncodeError,
};
use crate::snapshot::{
    text_model, ClassModel, ClipboardSnapshot, ContentClass, ImageModel, RawImage, SnapshotModel,
};
use crate::upload::{
    interpret, interpreted, is_success, HttpReply, ReplyModel, RequestModel, UploadError, UploadKind,
    UploadRequest,
};

verus! {

/// Why a run ended without a link on the clipboard.
#[derive(Debug, Clone, Copy, PartialEq, Eq, Structural)]
pub enum Failure {
    /// The image on the clipboard could not be encoded.
    Encoding(EncodeError),
    /// The encoded image's content type was not recognised.
    UnknownContent,
    /// The file could not be opened or read.
    Io,
    /// The upload failed.
    Upload(UploadError),
    /// The clipboard could not be read, or the link could not be written to it.
    Clipboard,
}

/// How a run ended.
#[derive(Debug, Clone, PartialEq, Eq)]
pub enum Outcome {
    /// The clipboard was empty; nothing was sent and nothing written.
    Nothing,
    /// The content was uploaded and the link is on the clipboard.
    Shared { kind: UploadKind, link: String },
    /// The run stopped at the stage that failed.
    Failed(Failure),
}

/// Mathematical model of an [`Outcome`].
pub enum OutcomeModel {
    Nothing,
    Shared { kind: UploadKind, link: Seq<char> },
    Failed(Failure),
}

impl View for Outcome {
    type V = OutcomeModel;

    open spec fn view(&self) -> OutcomeModel {
        match self {
            Outcome::Nothing => OutcomeModel::Nothing,
            Outcome::Shared { kind, link } => OutcomeModel::Shared { kind: *kind, link: link@ },
            Outcome::Failed(f) => OutcomeModel::Failed(*f),
        }
    }
}

/// What a run is waiting for.
#[derive(Debug, Clone, PartialEq, Eq)]
pub enum Stage {
    AwaitingSnapshot,
    AwaitingFile { path: String },
    AwaitingReply { kind: UploadKind },
    AwaitingWriteback { kind: UploadKind, link: String },
    Finished,
}

/// Mathematical model of a [`Stage`].
pub enum StageModel {
    AwaitingSnapshot,
    AwaitingFile { path: Seq<char> },
    AwaitingReply { kind: UploadKind },
    AwaitingWriteback { kind: UploadKind, link: Seq<char> },
    Finished,
}

impl View for Stage {
    type V = StageModel;

    open spec fn view(&self) -> StageModel {
        match self {
            Stage::AwaitingSnapshot => StageModel::AwaitingSnapshot,
            Stage::AwaitingFile { path } => StageModel::AwaitingFile { path: path@ },
            Stage::AwaitingReply { kind } => StageModel::AwaitingReply { kind: *kind },
            Stage::AwaitingWriteback { kind, link } => StageModel::AwaitingWriteback {
                kind: *kind,
                link: link@,
            },
            Stage::Finished => StageModel::Finished,
        }
    }
}

/// The bytes read, as a sequence; `None` where reading failed.
pub open spec fn content_model(content: Option<Vec<u8>>) -> Option<Seq<u8>> {
    match content {
        Some(bytes) => Some(bytes@),
        None => None,
    }
}

/// What the outside world reports back to a run.
#[derive(Debug, Clone, PartialEq, Eq)]
pub enum Event {
    /// The clipboard was captured.
    Captured(ClipboardSnapshot),
    /// The clipboard could not be opened or read.
    CaptureFailed,
    /// The file was read; `None` where opening or reading it failed.
    FileRead(Option<Vec<u8>>),
    /// The network call returned.
    Replied(HttpReply),
    /// The clipboard write was attempted; `false` where it failed.
    Written(bool),
}

/// Mathematical model of an [`Event`].
pub enum EventModel {
    Captured(SnapshotModel),
    CaptureFailed,
    FileRead(Option<Seq<u8>>),
    Replied(ReplyModel),
    Written(bool),
}

impl View for Event {
    type V = EventModel;

    open spec fn view(&self) -> EventModel {
        match self {
            Event::Captured(s) => EventModel::Captured(s@),
            Event::CaptureFailed => EventModel::CaptureFailed,
            Event::FileRead(content) => EventModel::FileRead(content_model(*content)),
            Event::Replied(r) => EventModel::Replied(r@),
            Event::Written(ok) => EventModel::Written(*ok),
        }
    }
}

/// What a run asks of the outside world.
#[derive(Debug, Clone, PartialEq, Eq)]
pub enum Action {
    /// Read the file at the path.
    ReadFile(String),
    /// Post the request to the URL.
    Send { url: String, request: UploadRequest },
    /// Overwrite the clipboard with the link.
    WriteClipboard(String),
    /// Report the outcome; the run is over.
    Finish(Outcome),
    /// Nothing: the event was not the one awaited.
    Ignore,
}

/// Mathematical model of an [`Action`].
pub enum ActionModel {
    ReadFile(Seq<char>),
    Send { url: Seq<char>, request: RequestModel },
    WriteClipboard(Seq<char>),
    Finish(OutcomeModel),
    Ignore,
}

impl View for Action {
    type V = ActionModel;

    open spec fn view(&self) -> ActionModel {
        match self {
            Action::ReadFile(p) => ActionModel::ReadFile(p@),
            Action::Send { url, request } => ActionModel::Send { url: url@, request: request@ },
            Action::WriteClipboard(l) => ActionModel::WriteClipboard(l@),
            Action::Finish(o) => ActionModel::Finish(o@),
            Action::Ignore => ActionModel::Ignore,
        }
    }
}

/// One execution of the pipeline. It holds the endpoint as it was when the
/// run began, so a change of configuration never reaches a run under way.
#[derive(Debug, Clone, PartialEq, Eq)]
pub struct PipelineRun {
    pub endpoint: String,
    pub stage: Stage,
}

/// Mathematical model of a [`PipelineRun`].
pub struct RunModel {
    pub endpoint: Seq<char>,
    pub stage: StageModel,
}

impl View for PipelineRun {
    type V = RunModel;

    open spec fn view(&self) -> RunModel {
        RunModel { endpoint: self.endpoint@, stage: self.stage@ }
    }
}

/// The run goes on to wait for the reply to `request`, which is to be sent.
pub open spec fn sending(request: RequestModel, endpoint: Seq<char>) -> (StageModel, ActionModel) {
    (
        StageModel::AwaitingReply { kind: request.kind },
        ActionModel::Send { url: request.url(endpoint), request },
    )
}

/// The run is over with the given outcome, which is to be reported.
pub open spec fn finished(outcome: OutcomeModel) -> (StageModel, ActionModel) {
    (StageModel::Finished, ActionModel::Finish(outcome))
}

/// A prepared request is sent; a failure to prepare one ends the run.
pub open spec fn dispatched(prepared: Result<RequestModel, Failure>, endpoint: Seq<char>) -> (
    StageModel,
    ActionModel,
) {
    match prepared {
        Ok(request) => sending(request, endpoint),
        Err(failure) => finished(OutcomeModel::Failed(failure)),
    }
}

/// The request for an encoded image, given what sniffing its content found.
pub open spec fn image_request(encoded: Seq<u8>, sniffed: Option<Seq<char>>) -> Result<
    RequestModel,
    Failure,
> {
    match sniffed {
        Some(ext) => Ok(RequestModel::image(encoded, ext)),
        None => Err(Failure::UnknownContent),
    }
}

/// The request that an image on the clipboard is uploaded as: its PNG
/// encoding, under the extension that the encoding is sniffed as.
pub open spec fn prepared_image(image: ImageModel) -> Result<RequestModel, Failure> {
    match image.encoded() {
        Ok(file) => image_request(file, Some(png_sniffed_as(file))),
        Err(e) => Err(Failure::Encoding(e)),
    }
}

/// Builds the request for an encoded image from what sniffing found. Content
/// of no known type is not uploaded.
pub fn request_for_image(encoded: Vec<u8>, sniffed: Option<String>) -> (r: Result<
    UploadRequest,
    Failure,
>)
    ensures
        match r {
            Ok(request) => image_request(encoded@, text_model(sniffed)) == Ok::<
                RequestModel,
                Failure,
            >(request@),
            Err(f) => image_request(encoded@, text_model(sniffed)) == Err::<
                RequestModel,
                Failure,
            >(f),
        },
{
    match sniffed {
        Some(ext) => Ok(UploadRequest::image(encoded, ext)),
        None => Err(Failure::UnknownContent),
    }
}

/// `request` is the upload of `image`: its PNG encoding, which starts with
/// the PNG signature, under the extension that the encoding is sniffed as.
pub open spec fn is_image_upload(image: ImageModel, request: RequestModel) -> bool {
    image.encoded() matches Ok(file) && has_png_signature(file) && request == RequestModel::image(
        file,
        png_sniffed_as(file),
    )
}

/// Encodes an image, sniffs the encoding and builds the request. It succeeds
/// exactly on the images that can be encoded.
pub fn prepare_image(image: &RawImage) -> (r: Result<UploadRequest, Failure>)
    ensures
        match r {
            Ok(request) => prepared_image(image@) == Ok::<RequestModel, Failure>(request@)
                && is_image_upload(image@, request@),
            Err(f) => prepared_image(image@) == Err::<RequestModel, Failure>(f),
        },
        r is Ok <==> image@.encodable(),
{
    match image_to_png_bytes(image) {
        Ok(file) => {
            let sniffed = sniff(file.as_slice());
            request_for_image(file, sniffed)
        },
        Err(e) => Err(Failure::Encoding(e)),
    }
}

/// Sends a prepared request, or ends the run with the failure to prepare one.
pub fn dispatch(prepared: Result<UploadRequest, Failure>, endpoint: &str) -> (r: (Stage, Action))
    ensures
        (r.0@, r.1@) == dispatched(
            match prepared {
                Ok(request) => Ok(request@),
                Err(f) => Err(f),
            },
            endpoint@,
        ),
{
    match prepared {
        Ok(request) => {
            let url = request.url(endpoint);
            (Stage::AwaitingReply { kind: request.kind }, Action::Send { url, request })
        },
        Err(failure) => (Stage::Finished, Action::Finish(Outcome::Failed(failure))),
    }
}

/// What follows the capture of a snapshot of the given class.
///
/// An image is encoded and sent; a URL and plain text are sent as they are; a
/// file path asks for the file to be read; an empty clipboard ends the run
/// with nothing sent. A class of `Image` for a snapshot that carries none ends
/// the run in the same way.
pub open spec fn after_capture(snapshot: SnapshotModel, class: ClassModel, endpoint: Seq<char>) -> (
    StageModel,
    ActionModel,
) {
    match class {
        ClassModel::Image => match snapshot.image {
            Some(image) => dispatched(prepared_image(image), endpoint),
            None => finished(OutcomeModel::Nothing),
        },
        ClassModel::UrlLink(url) => sending(RequestModel::link(url), endpoint),
        ClassModel::FilePath(path) => (
            StageModel::AwaitingFile { path },
            ActionModel::ReadFile(path),
        ),
        ClassModel::PlainText(text) => sending(RequestModel::text(text), endpoint),
        ClassModel::Empty => finished(OutcomeModel::Nothing),
    }
}

/// What follows for a snapshot that carries an image which can be encoded:
/// its upload is sent, and the run waits for the reply.
pub open spec fn image_is_sent(
    snapshot: SnapshotModel,
    endpoint: Seq<char>,
    next: (StageModel, ActionModel),
) -> bool {
    snapshot.image matches Some(image) ==> (image.encodable() ==> (next.1
        matches ActionModel::Send { url, request } && is_image_upload(image, request) && next
        == sending(request, endpoint)))
}

/// Decides what follows the capture of a snapshot, given its class. An image
/// that can be encoded is always sent.
pub fn begin(snapshot: &ClipboardSnapshot, class: ContentClass, endpoint: &str) -> (r: (
    Stage,
    Action,
))
    ensures
        (r.0@, r.1@) == after_capture(snapshot@, class@, endpoint@),
        class@ is Image ==> image_is_sent(snapshot@, endpoint@, (r.0@, r.1@)),
{
    match class {
        ContentClass::Image => match &snapshot.image {
            Some(image) => dispatch(prepare_image(image), endpoint),
            None => (Stage::Finished, Action::Finish(Outcome::Nothing)),
        },
        ContentClass::UrlLink(url) => dispatch(Ok(UploadRequest::link(url)), endpoint),
        ContentClass::FilePath(path) => {
            let wanted = path.clone();
            (Stage::AwaitingFile { path }, Action::ReadFile(wanted))
        },
        ContentClass::PlainText(text) => dispatch(Ok(UploadRequest::text(text)), endpoint),
        ContentClass::Empty => (Stage::Finished, Action::Finish(Outcome::Nothing)),
    }
}

/// What follows the attempt to read the file, given the extension of its path.
pub open spec fn after_file_read(content: Option<Seq<u8>>, ext: Seq<char>, endpoint: Seq<char>) -> (
    StageModel,
    ActionModel,
) {
    match content {
        Some(bytes) => sending(RequestModel::file(bytes, ext), endpoint),
        None => finished(OutcomeModel::Failed(Failure::Io)),
    }
}

/// Decides what follows the attempt to read the file: its bytes are sent
/// under the given extension; a file that could not be read ends the run.
pub fn file_read(content: Option<Vec<u8>>, ext: String, endpoint: &str) -> (r: (Stage, Action))
    ensures
        (r.0@, r.1@) == after_file_read(
            content_model(content),
            ext@,
            endpoint@,
        ),
{
    match content {
        Some(bytes) => dispatch(Ok(UploadRequest::file(bytes, ext)), endpoint),
        None => (Stage::Finished, Action::Finish(Outcome::Failed(Failure::Io))),
    }
}

/// `next` is what follows the attempt to read the file at `path`, under some
/// extension that the path may be given.
pub open spec fn follows_file_read(
    path: Seq<char>,
    content: Option<Seq<u8>>,
    endpoint: Seq<char>,
    next: (StageModel, ActionModel),
) -> bool {
    exists|ext: Seq<char>| #[trigger]
        extension_for(path, ext) && next == after_file_read(content, ext, endpoint)
}

/// Decides what follows the attempt to read the file at `path`. The
/// extension is taken from the path as the platform splits it.
pub fn on_file_read(path: &str, content: Option<Vec<u8>>, endpoint: &str) -> (r: (Stage, Action))
    ensures
        follows_file_read(path@, content_model(content), endpoint@, (r.0@, r.1@)),
{
    let ext = file_extension(path);
    assert(extension_for(path@, ext@));
    file_read(content, ext, endpoint)
}

/// What follows the reply to a request of the given kind: a reply that
/// yields a path gives the link, the endpoint followed by that path, to be
/// written to the clipboard; any other ends the run.
pub open spec fn after_reply(
    kind: UploadKind,
    result: Result<Seq<char>, UploadError>,
    endpoint: Seq<char>,
) -> (StageModel, ActionModel) {
    match result {
        Ok(fragment) => (
            StageModel::AwaitingWriteback { kind, link: endpoint + fragment },
            ActionModel::WriteClipboard(endpoint + fragment),
        ),
        Err(e) => finished(OutcomeModel::Failed(Failure::Upload(e))),
    }
}

/// Decides what follows the reply: the link goes to the clipboard, and a
/// failed upload ends the run with the clipboard untouched.
pub fn on_reply(kind: UploadKind, reply: &HttpReply, endpoint: &str) -> (r: (Stage, Action))
    ensures
        (r.0@, r.1@) == after_reply(kind, interpreted(reply@), endpoint@),
{
    match interpret(reply) {
        Ok(response) => {
            let link = response.link(endpoint);
            let shown = link.clone();
            (Stage::AwaitingWriteback { kind, link }, Action::WriteClipboard(shown))
        },
        Err(e) => (Stage::Finished, Action::Finish(Outcome::Failed(Failure::Upload(e)))),
    }
}

/// What follows the attempt to write the link to the clipboard.
pub open spec fn after_write(kind: UploadKind, link: Seq<char>, written: bool) -> (
    StageModel,
    ActionModel,
) {
    if written {
        finished(OutcomeModel::Shared { kind, link })
    } else {
        finished(OutcomeModel::Failed(Failure::Clipboard))
    }
}

/// Decides how the run ends once the clipboard write was attempted.
pub fn on_written(kind: UploadKind, link: String, written: bool) -> (r: (Stage, Action))
    ensures
        (r.0@, r.1@) == after_write(kind, link@, written),
{
    if written {
        (Stage::Finished, Action::Finish(Outcome::Shared { kind, link }))
    } else {
        (Stage::Finished, Action::Finish(Outcome::Failed(Failure::Clipboard)))
    }
}

/// `next` is what follows the capture of `snapshot`, under some answer that
/// the file system may have given about its text.
pub open spec fn follows_capture(
    snapshot: SnapshotModel,
    endpoint: Seq<char>,
    next: (StageModel, ActionModel),
) -> bool {
    exists|on_disk: bool| #[trigger]
        disk_answer(text_of(snapshot), on_disk) && next == after_capture(
            snapshot,
            class_of(snapshot, on_disk),
            endpoint,
        )
}

/// One step of a run: from the stage `run` is in and the event handed in
/// to the stage `next` and the action asked for.
///
/// The endpoint never changes. An event other than the one the stage waits
/// for changes nothing and asks for nothing; so does every event once the
/// run is finished.
pub open spec fn transition(run: RunModel, event: EventModel, next: RunModel, action: ActionModel)
    -> bool {
    &&& next.endpoint == run.endpoint
    &&& match (run.stage, event) {
        (StageModel::AwaitingSnapshot, EventModel::Captured(snapshot)) => follows_capture(
            snapshot,
            run.endpoint,
            (next.stage, action),
        ),
        (StageModel::AwaitingSnapshot, EventModel::CaptureFailed) => (next.stage, action)
            == finished(OutcomeModel::Failed(Failure::Clipboard)),
        (StageModel::AwaitingFile { path }, EventModel::FileRead(content)) => follows_file_read(
            path,
            content,
            run.endpoint,
            (next.stage, action),
        ),
        (StageModel::AwaitingReply { kind }, EventModel::Replied(reply)) => (next.stage, action)
            == after_reply(kind, interpreted(reply), run.endpoint),
        (StageModel::AwaitingWriteback { kind, link }, EventModel::Written(written)) => (
            next.stage,
            action,
        ) == after_write(kind, link, written),
        _ => next.stage == run.stage && action == ActionModel::Ignore,
    }
}

/// The run `run` moved on to `stage`.
pub open spec fn after(run: RunModel, stage: StageModel) -> RunModel {
    RunModel { endpoint: run.endpoint, stage }
}

impl PipelineRun {
    /// A run that has yet to see the clipboard. The endpoint is fixed here.
    pub fn start(endpoint: String) -> (run: PipelineRun)
        ensures
            run@ == (RunModel { endpoint: endpoint@, stage: StageModel::AwaitingSnapshot }),
    {
        PipelineRun { endpoint, stage: Stage::AwaitingSnapshot }
    }

    /// Whether the run is over.
    pub fn is_finished(&self) -> (r: bool)
        ensures
            r == (self@.stage is Finished),
    {
        match &self.stage {
            Stage::Finished => true,
            _ => false,
        }
    }

    /// Classifies a captured snapshot and decides what follows. An image
    /// that can be encoded is always sent, whatever text accompanies it.
    pub fn on_captured(snapshot: &ClipboardSnapshot, endpoint: &str) -> (r: (Stage, Action))
        ensures
            follows_capture(snapshot@, endpoint@, (r.0@, r.1@)),
            image_is_sent(snapshot@, endpoint@, (r.0@, r.1@)),
    {
        let class = classify(snapshot);
        begin(snapshot, class, endpoint)
    }

    /// Advances the run by one event and returns what to do next. A run that
    /// is handed a snapshot with an image that can be encoded sends it.
    pub fn step(self, event: Event) -> (r: (PipelineRun, Action))
        ensures
            transition(self@, event@, r.0@, r.1@),
            self@.stage is AwaitingSnapshot ==> (event@ matches EventModel::Captured(snapshot)
                ==> image_is_sent(snapshot, self@.endpoint, (r.0@.stage, r.1@))),
    {
        let ghost before = self@;
        let ghost handed = event@;
        let PipelineRun { endpoint, stage } = self;
        let (next, action) = match stage {
            Stage::AwaitingSnapshot => match event {
                Event::Captured(snapshot) => {
                    let r = PipelineRun::on_captured(&snapshot, endpoint.as_str());
                    assert(transition(before, handed, after(before, r.0@), r.1@));
                    r
                },
                Event::CaptureFailed => (
                    Stage::Finished,
                    Action::Finish(Outcome::Failed(Failure::Clipboard)),
                ),
                _ => (Stage::AwaitingSnapshot, Action::Ignore),
            },
            Stage::AwaitingFile { path } => match event {
                Event::FileRead(content) => {
                    let r = on_file_read(path.as_str(), content, endpoint.as_str());
                    assert(transition(before, handed, after(before, r.0@), r.1@));
                    r
                },
                _ => (Stage::AwaitingFile { path }, Action::Ignore),
            },
            Stage::AwaitingReply { kind } => match event {
                Event::Replied(reply) => {
                    let r = on_reply(kind, &reply, endpoint.as_str());
                    assert(transition(before, handed, after(before, r.0@), r.1@));
                    r
                },
                _ => (Stage::AwaitingReply { kind }, Action::Ignore),
            },
            Stage::AwaitingWriteback { kind, link } => match event {
                Event::Written(written) => {
                    let r = on_written(kind, link, written);
                    assert(transition(before, handed, after(before, r.0@), r.1@));
                    r
                },
                _ => (Stage::AwaitingWriteback { kind, link }, Action::Ignore),
            },
            Stage::Finished => (Stage::Finished, Action::Ignore),
        };
        assert(transition(before, handed, after(before, next@), action@));
        (PipelineRun { endpoint, stage: next }, action)
    }
}

impl StageModel {
    /// How far a run in this stage has come.
    pub open spec fn rank(self) -> nat {
        match self {
            StageModel::AwaitingSnapshot => 0,
            StageModel::AwaitingFile { .. } => 1,
            StageModel::AwaitingReply { .. } => 2,
            StageModel::AwaitingWriteback { .. } => 3,
            StageModel::Finished => 4,
        }
    }
}

/// An empty clipboard never reaches the upload client: a snapshot without an
/// image and without text, or with empty text, ends the run at once with
/// nothing sent and nothing written, whatever the file system holds.
pub proof fn law_empty_sends_nothing(
    snapshot: SnapshotModel,
    endpoint: Seq<char>,
    next: (StageModel, ActionModel),
)
    requires
        snapshot.image is None,
        text_of(snapshot).len() == 0,
        follows_capture(snapshot, endpoint, next),
    ensures
        next == finished(OutcomeModel::Nothing),
{
    let on_disk = choose|on_disk: bool| #[trigger]
        disk_answer(text_of(snapshot), on_disk) && next == after_capture(
            snapshot,
            class_of(snapshot, on_disk),
            endpoint,
        );
    assert(!on_disk);
    assert(!is_absolute_url(text_of(snapshot)));
}

/// A request is sent only for content: what follows a capture is a `Send`
/// only if the class is an image, a link or text, and then the request is
/// well formed, is of the class's kind and goes to the route of that kind
/// below the endpoint.
pub proof fn law_send_carries_content(
    snapshot: SnapshotModel,
    class: ClassModel,
    endpoint: Seq<char>,
)
    ensures
        match after_capture(snapshot, class, endpoint).1 {
            ActionModel::Send { url, request } => {
                &&& request.wf()
                &&& url == endpoint + request.kind.route()
                &&& after_capture(snapshot, class, endpoint).0 == (StageModel::AwaitingReply {
                    kind: request.kind,
                })
                &&& match class {
                    ClassModel::Image => request.kind == UploadKind::Image,
                    ClassModel::UrlLink(t) => request == RequestModel::link(t),
                    ClassModel::PlainText(t) => request == RequestModel::text(t),
                    _ => false,
                }
            },
            ActionModel::ReadFile(path) => class == ClassModel::FilePath(path),
            ActionModel::Finish(outcome) => !(outcome is Shared),
            _ => false,
        },
{
}

/// A failed upload leaves the clipboard alone: when the service cannot be
/// reached, answers with a status outside 200..=299, or with a body that
/// holds no result, the run ends with that error and asks for no clipboard
/// write. A status outside 200..=299 is a protocol error whatever the body.
pub proof fn law_failed_upload_ends_run(kind: UploadKind, reply: ReplyModel, endpoint: Seq<char>)
    ensures
        interpreted(reply) matches Err(e) ==> after_reply(kind, interpreted(reply), endpoint)
            == finished(OutcomeModel::Failed(Failure::Upload(e))),
        reply matches ReplyModel::Received { status, body } ==> (!is_success(status)
            ==> interpreted(reply) == Err::<Seq<char>, UploadError>(UploadError::Status(status))
            && UploadError::Status(status).is_protocol()),
        reply is Failed ==> interpreted(reply) == Err::<Seq<char>, UploadError>(
            UploadError::Network,
        ),
{
}

/// A finished run stays finished: every event is ignored.
pub proof fn law_finished_is_final(
    run: RunModel,
    event: EventModel,
    next: RunModel,
    action: ActionModel,
)
    requires
        run.stage is Finished,
        transition(run, event, next, action),
    ensures
        next == run,
        action == ActionModel::Ignore,
{
}

/// A run only moves forward, and each kind of outside work happens at one
/// point of it: a request is sent exactly on entering the wait for the reply,
/// the clipboard is written exactly on entering the wait for the write, which
/// only a reply leads to, and the outcome is reported exactly on finishing.
/// So a run makes at most one network call and at most one clipboard write,
/// and writes only after an upload that succeeded.
pub proof fn law_run_moves_forward(
    run: RunModel,
    event: EventModel,
    next: RunModel,
    action: ActionModel,
)
    requires
        transition(run, event, next, action),
    ensures
        next.endpoint == run.endpoint,
        action is Ignore <==> next == run,
        !(action is Ignore) ==> next.stage.rank() > run.stage.rank(),
        action is ReadFile <==> next.stage is AwaitingFile && run.stage is AwaitingSnapshot,
        action is Send <==> next.stage is AwaitingReply && !(run.stage is AwaitingReply),
        action is WriteClipboard <==> next.stage is AwaitingWriteback && run.stage
            is AwaitingReply,
        action is Finish <==> next.stage is Finished && !(run.stage is Finished),
        action matches ActionModel::WriteClipboard(link) ==> next.stage matches StageModel::AwaitingWriteback {
            link: kept,
            ..
        } && kept == link,
        action matches ActionModel::Finish(OutcomeModel::Shared { link, kind }) ==> run.stage
            == (StageModel::AwaitingWriteback { kind, link }),
{
    match (run.stage, event) {
        (StageModel::AwaitingSnapshot, EventModel::Captured(snapshot)) => {
            let on_disk = choose|on_disk: bool| #[trigger]
                disk_answer(text_of(snapshot), on_disk) && (next.stage, action) == after_capture(
                    snapshot,
                    class_of(snapshot, on_disk),
                    run.endpoint,
                );
            law_send_carries_content(snapshot, class_of(snapshot, on_disk), run.endpoint);
        },
        (StageModel::AwaitingFile { path }, EventModel::FileRead(content)) => {
            let ext = choose|ext: Seq<char>| #[trigger]
                extension_for(path, ext) && (next.stage, action) == after_file_read(
                    content,
                    ext,
                    run.endpoint,
                );
        },
        _ => {},
    }
}

/// The title under which a run's success is announced.
pub const NOTIFICATION_TITLE: &'static str = "NanoUpload";

/// The sentence that announces the success of an upload of the given kind.
pub open spec fn success_text(kind: UploadKind) -> Seq<char> {
    match kind {
        UploadKind::Image =>
            "Image uploaded successfully, the link has been copied to your clipboard."@,
        UploadKind::File =>
            "File uploaded successfully, the link has been copied to your clipboard."@,
        UploadKind::Link =>
            "Shortlink created successfully, the link has been copied to your clipboard."@,
        UploadKind::Text =>
            "Text uploaded successfully, the link has been copied to your clipboard."@,
    }
}

/// The body of the notification that announces a shared link.
pub fn success_message(kind: UploadKind) -> (message: &'static str)
    ensures
        message@ == success_text(kind),
{
    match kind {
        UploadKind::Image =>
            "Image uploaded successfully, the link has been copied to your clipboard.",
        UploadKind::File =>
            "File uploaded successfully, the link has been copied to your clipboard.",
        UploadKind::Link =>
            "Shortlink created successfully, the link has been copied to your clipboard.",
        UploadKind::Text =>
            "Text uploaded successfully, the link has been copied to your clipboard.",
    }
}

} // verus!
