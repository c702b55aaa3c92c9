//! The fetch-and-deliver workflow of the `video` command as a state machine.
//! The caller performs each action it is handed (run the downloader, look at
//! the file, send it, remove it, reply) and feeds the result back as an event.
use vstd::prelude::*;
use crate::filename::{filename_from_output, obfuscated_name, printed_name};

verus! {

/// Ceiling enforced by the downloader on the fetched file: 20 MiB.
pub const HARD_CEILING_BYTES: u64 = 20 * 1024 * 1024;

/// Ceiling on the size of a file that is attached to a reply: 10 MiB.
pub const DELIVERY_CEILING_BYTES: u64 = 10 * 1024 * 1024;

/// The two size ceilings of the workflow.
#[derive(Clone, Copy, Debug, PartialEq, Eq, Structural)]
pub struct Limits {
    pub hard_max_bytes: u64,
    pub delivery_max_bytes: u64,
}

impl Limits {
    /// The usual ceilings: 20 MiB at download time, 10 MiB at delivery.
    pub fn standard() -> (r: Limits)
        ensures
            r.hard_max_bytes == HARD_CEILING_BYTES,
            r.delivery_max_bytes == DELIVERY_CEILING_BYTES,
    {
        Limits { hard_max_bytes: HARD_CEILING_BYTES, delivery_max_bytes: DELIVERY_CEILING_BYTES }
    }
}

/// Why a fetch failed.
#[derive(Clone, Copy, Debug, PartialEq, Eq, Structural)]
pub enum FetchFailure {
    /// The file is larger than the hard ceiling.
    TooLarge,
    /// The downloader exited with a failure status.
    DownloadFailed,
}

/// How a run of the workflow ended.
#[derive(Clone, Copy, Debug, PartialEq, Eq, Structural)]
pub enum VideoOutcome {
    Delivered,
    InvalidUrl,
    ResolutionFailed,
    FetchFailed(FetchFailure),
    SizeExceeded,
    IoFailed,
    SendFailed,
}

/// Where a run of the workflow stands.
#[derive(Debug, PartialEq, Eq)]
pub enum VideoState {
    /// Waiting for the downloader to name the file it would write.
    Resolving { url: String },
    /// Waiting for the download into `filename`.
    Fetching { filename: String },
    /// Waiting for the size of the downloaded file.
    Inspecting { filename: String },
    /// Waiting for the reply that carries the file.
    Sending { filename: String },
    /// Waiting for the removal of the local file.
    Cleaning { outcome: VideoOutcome },
    /// The run is over.
    Done { outcome: VideoOutcome },
}

/// What the caller reports back after performing an action.
#[derive(Debug, PartialEq, Eq)]
pub enum VideoEvent {
    /// The downloader was asked for the file name; its exit status and output.
    FilenameResolved { succeeded: bool, stdout: Vec<u8> },
    /// The downloader could not be started when asked for the file name;
    /// `reason` is the error's text.
    ResolverUnavailable { reason: String },
    /// The download ended with this exit status; `refused_for_size` tells
    /// whether the downloader turned the file down for its size ceiling.
    DownloadFinished { succeeded: bool, refused_for_size: bool },
    /// The size of the local file, or `None` where it could not be opened or
    /// its metadata could not be read.
    FileInspected { size: Option<u64> },
    /// The reply with the attachment was sent, or failed.
    AttachmentSent { delivered: bool },
    /// Removal of the local file was attempted (its failure only gets logged).
    FileRemoved,
}

/// What the caller is to do next.
#[derive(Debug, PartialEq, Eq)]
pub enum VideoAction {
    /// Reply to the user with this text.
    Reply { text: String },
    /// Ask the downloader for the file name it would use for `url`.
    ResolveFilename { url: String },
    /// Download `url` into `filename`, overwriting, refused above `max_bytes`.
    Download { url: String, filename: String, max_bytes: u64 },
    /// Open `filename` and read its size.
    Inspect { filename: String },
    /// Reply with `filename` attached.
    SendAttachment { filename: String },
    /// Remove the local file `filename`.
    RemoveFile { filename: String },
    /// Nothing to do.
    Idle,
}

/// `VideoState` with its texts as sequences of characters.
pub enum StateView {
    Resolving { url: Seq<char> },
    Fetching { filename: Seq<char> },
    Inspecting { filename: Seq<char> },
    Sending { filename: Seq<char> },
    Cleaning { outcome: VideoOutcome },
    Done { outcome: VideoOutcome },
}

/// `VideoEvent` with its output as a sequence of bytes.
pub enum EventView {
    FilenameResolved { succeeded: bool, stdout: Seq<u8> },
    ResolverUnavailable { reason: Seq<char> },
    DownloadFinished { succeeded: bool, refused_for_size: bool },
    FileInspected { size: Option<u64> },
    AttachmentSent { delivered: bool },
    FileRemoved,
}

/// `VideoAction` with its texts as sequences of characters.
pub enum ActionView {
    Reply { text: Seq<char> },
    ResolveFilename { url: Seq<char> },
    Download { url: Seq<char>, filename: Seq<char>, max_bytes: u64 },
    Inspect { filename: Seq<char> },
    SendAttachment { filename: Seq<char> },
    RemoveFile { filename: Seq<char> },
    Idle,
}

impl View for VideoState {
    type V = StateView;

    open spec fn view(&self) -> StateView {
        match self {
            VideoState::Resolving { url } => StateView::Resolving { url: url@ },
            VideoState::Fetching { filename } => StateView::Fetching { filename: filename@ },
            VideoState::Inspecting { filename } => StateView::Inspecting { filename: filename@ },
            VideoState::Sending { filename } => StateView::Sending { filename: filename@ },
            VideoState::Cleaning { outcome } => StateView::Cleaning { outcome: *outcome },
            VideoState::Done { outcome } => StateView::Done { outcome: *outcome },
        }
    }
}

impl View for VideoEvent {
    type V = EventView;

    open spec fn view(&self) -> EventView {
        match self {
            VideoEvent::FilenameResolved { succeeded, stdout } => EventView::FilenameResolved {
                succeeded: *succeeded,
                stdout: stdout@,
            },
            VideoEvent::ResolverUnavailable { reason } => EventView::ResolverUnavailable {
                reason: reason@,
            },
            VideoEvent::DownloadFinished { succeeded, refused_for_size } => EventView::DownloadFinished {
                succeeded: *succeeded,
                refused_for_size: *refused_for_size,
            },
            VideoEvent::FileInspected { size } => EventView::FileInspected { size: *size },
            VideoEvent::AttachmentSent { delivered } => EventView::AttachmentSent {
                delivered: *delivered,
            },
            VideoEvent::FileRemoved => EventView::FileRemoved,
        }
    }
}

impl View for VideoAction {
    type V = ActionView;

    open spec fn view(&self) -> ActionView {
        match self {
            VideoAction::Reply { text } => ActionView::Reply { text: text@ },
            VideoAction::ResolveFilename { url } => ActionView::ResolveFilename { url: url@ },
            VideoAction::Download { url, filename, max_bytes } => ActionView::Download {
                url: url@,
                filename: filename@,
                max_bytes: *max_bytes,
            },
            VideoAction::Inspect { filename } => ActionView::Inspect { filename: filename@ },
            VideoAction::SendAttachment { filename } => ActionView::SendAttachment {
                filename: filename@,
            },
            VideoAction::RemoveFile { filename } => ActionView::RemoveFile { filename: filename@ },
            VideoAction::Idle => ActionView::Idle,
        }
    }
}

/// Whether the text parses as an absolute URL under `url::Url::parse`.
pub uninterp spec fn url_parses(s: Seq<char>) -> bool;

/// Relies on reqwest::Url::parse (the url crate's parser): whether the text
/// is a well-formed absolute URL, a function of the text alone.
#[verifier::external_body]
fn parses_as_url(s: &str) -> (r: bool)
    ensures
        r == url_parses(s@),
{
    reqwest::Url::parse(s).is_ok()
}

/// The text of the reply that reports an outcome.
pub open spec fn reply_text(o: VideoOutcome) -> Seq<char> {
    match o {
        VideoOutcome::Delivered => ""@,
        VideoOutcome::InvalidUrl => "url is invalid"@,
        VideoOutcome::ResolutionFailed => "yt-dlp failed to get filename"@,
        VideoOutcome::FetchFailed(FetchFailure::TooLarge) => "file too large :'-("@,
        VideoOutcome::FetchFailed(FetchFailure::DownloadFailed) => "download failed :'-("@,
        VideoOutcome::SizeExceeded => "file is too large :'-("@,
        VideoOutcome::IoFailed => "file too large :'-("@,
        VideoOutcome::SendFailed => "failed to send the file"@,
    }
}

/// The reply that reports an outcome.
pub fn reply_for(o: VideoOutcome) -> (r: String)
    ensures
        r@ == reply_text(o),
{
    let text: &str = match o {
        VideoOutcome::Delivered => "",
        VideoOutcome::InvalidUrl => "url is invalid",
        VideoOutcome::ResolutionFailed => "yt-dlp failed to get filename",
        VideoOutcome::FetchFailed(FetchFailure::TooLarge) => "file too large :'-(",
        VideoOutcome::FetchFailed(FetchFailure::DownloadFailed) => "download failed :'-(",
        VideoOutcome::SizeExceeded => "file is too large :'-(",
        VideoOutcome::IoFailed => "file too large :'-(",
        VideoOutcome::SendFailed => "failed to send the file",
    };
    String::from_str(text)
}

/// The action that closes a run: nothing after a delivery, else the reply
/// that reports the outcome.
pub open spec fn closing_action(o: VideoOutcome) -> ActionView {
    if o is Delivered {
        ActionView::Idle
    } else {
        ActionView::Reply { text: reply_text(o) }
    }
}

/// The first state and action for a request to fetch `url`.
pub open spec fn start(url: Seq<char>) -> (StateView, ActionView) {
    if url_parses(url) {
        (StateView::Resolving { url }, ActionView::ResolveFilename { url })
    } else {
        (
            StateView::Done { outcome: VideoOutcome::InvalidUrl },
            ActionView::Reply { text: reply_text(VideoOutcome::InvalidUrl) },
        )
    }
}

/// The transition on one event. An event that does not answer the action
/// the state waits for leaves the state as it is.
pub open spec fn next(limits: Limits, s: StateView, e: EventView) -> (StateView, ActionView) {
    match s {
        StateView::Resolving { url } => match e {
            EventView::FilenameResolved { succeeded, stdout } => if succeeded {
                let filename = obfuscated_name(printed_name(stdout));
                (
                    StateView::Fetching { filename },
                    ActionView::Download { url, filename, max_bytes: limits.hard_max_bytes },
                )
            } else {
                (
                    StateView::Done { outcome: VideoOutcome::ResolutionFailed },
                    ActionView::Reply { text: reply_text(VideoOutcome::ResolutionFailed) },
                )
            },
            EventView::ResolverUnavailable { reason } => (
                StateView::Done { outcome: VideoOutcome::ResolutionFailed },
                ActionView::Reply { text: reason },
            ),
            _ => (s, ActionView::Idle),
        },
        StateView::Fetching { filename } => match e {
            EventView::DownloadFinished { succeeded, refused_for_size } => if refused_for_size {
                (
                    StateView::Cleaning {
                        outcome: VideoOutcome::FetchFailed(FetchFailure::TooLarge),
                    },
                    ActionView::RemoveFile { filename },
                )
            } else if succeeded {
                (StateView::Inspecting { filename }, ActionView::Inspect { filename })
            } else {
                (
                    StateView::Cleaning {
                        outcome: VideoOutcome::FetchFailed(FetchFailure::DownloadFailed),
                    },
                    ActionView::RemoveFile { filename },
                )
            },
            _ => (s, ActionView::Idle),
        },
        StateView::Inspecting { filename } => match e {
            EventView::FileInspected { size } => match size {
                Option::None => (
                    StateView::Cleaning { outcome: VideoOutcome::IoFailed },
                    ActionView::RemoveFile { filename },
                ),
                Option::Some(n) => if n > limits.hard_max_bytes {
                    (
                        StateView::Cleaning {
                            outcome: VideoOutcome::FetchFailed(FetchFailure::TooLarge),
                        },
                        ActionView::RemoveFile { filename },
                    )
                } else if n > limits.delivery_max_bytes {
                    (
                        StateView::Cleaning { outcome: VideoOutcome::SizeExceeded },
                        ActionView::RemoveFile { filename },
                    )
                } else {
                    (StateView::Sending { filename }, ActionView::SendAttachment { filename })
                },
            },
            _ => (s, ActionView::Idle),
        },
        StateView::Sending { filename } => match e {
            EventView::AttachmentSent { delivered } => (
                StateView::Cleaning {
                    outcome: if delivered {
                        VideoOutcome::Delivered
                    } else {
                        VideoOutcome::SendFailed
                    },
                },
                ActionView::RemoveFile { filename },
            ),
            _ => (s, ActionView::Idle),
        },
        StateView::Cleaning { outcome } => match e {
            EventView::FileRemoved => (StateView::Done { outcome }, closing_action(outcome)),
            _ => (s, ActionView::Idle),
        },
        StateView::Done { .. } => (s, ActionView::Idle),
    }
}

/// A run of the `video` workflow.
pub struct VideoFlow {
    pub limits: Limits,
    pub state: VideoState,
}

impl VideoFlow {
    /// Starts a run for `url`: a URL that does not parse ends the run at
    /// once with the invalid-URL reply and no call of the downloader.
    pub fn begin(limits: Limits, url: &str) -> (r: (VideoFlow, VideoAction))
        ensures
            r.0.limits == limits,
            (r.0.state@, r.1@) == start(url@),
    {
        if parses_as_url(url) {
            let owned = String::from_str(url);
            let again = String::from_str(url);
            (
                VideoFlow { limits, state: VideoState::Resolving { url: owned } },
                VideoAction::ResolveFilename { url: again },
            )
        } else {
            let outcome = VideoOutcome::InvalidUrl;
            (
                VideoFlow { limits, state: VideoState::Done { outcome } },
                VideoAction::Reply { text: reply_for(outcome) },
            )
        }
    }

    /// Whether the run is over.
    pub fn is_done(&self) -> (r: bool)
        ensures
            r == (self.state@ is Done),
    {
        match self.state {
            VideoState::Done { .. } => true,
            _ => false,
        }
    }

    /// Takes one event and hands back the run's next state and the action
    /// to perform.
    pub fn step(self, event: VideoEvent) -> (r: (VideoFlow, VideoAction))
        ensures
            r.0.limits == self.limits,
            (r.0.state@, r.1@) == next(self.limits, self.state@, event@),
    {
        let limits = self.limits;
        let (state, action) = match self.state {
            VideoState::Resolving { url } => match event {
                VideoEvent::FilenameResolved { succeeded, stdout } => {
                    if succeeded {
                        let filename = filename_from_output(stdout.as_slice());
                        (
                            VideoState::Fetching { filename: filename.clone() },
                            VideoAction::Download {
                                url,
                                filename,
                                max_bytes: limits.hard_max_bytes,
                            },
                        )
                    } else {
                        let outcome = VideoOutcome::ResolutionFailed;
                        (VideoState::Done { outcome }, VideoAction::Reply { text: reply_for(outcome) })
                    }
                },
                VideoEvent::ResolverUnavailable { reason } => (
                    VideoState::Done { outcome: VideoOutcome::ResolutionFailed },
                    VideoAction::Reply { text: reason },
                ),
                _ => (VideoState::Resolving { url }, VideoAction::Idle),
            },
            VideoState::Fetching { filename } => match event {
                VideoEvent::DownloadFinished { succeeded, refused_for_size } => {
                    if refused_for_size {
                        (
                            VideoState::Cleaning {
                                outcome: VideoOutcome::FetchFailed(FetchFailure::TooLarge),
                            },
                            VideoAction::RemoveFile { filename },
                        )
                    } else if succeeded {
                        (
                            VideoState::Inspecting { filename: filename.clone() },
                            VideoAction::Inspect { filename },
                        )
                    } else {
                        (
                            VideoState::Cleaning {
                                outcome: VideoOutcome::FetchFailed(FetchFailure::DownloadFailed),
                            },
                            VideoAction::RemoveFile { filename },
                        )
                    }
                },
                _ => (VideoState::Fetching { filename }, VideoAction::Idle),
            },
            VideoState::Inspecting { filename } => match event {
                VideoEvent::FileInspected { size } => match size {
                    None => (
                        VideoState::Cleaning { outcome: VideoOutcome::IoFailed },
                        VideoAction::RemoveFile { filename },
                    ),
                    Some(n) => {
                        if n > limits.hard_max_bytes {
                            (
                                VideoState::Cleaning {
                                    outcome: VideoOutcome::FetchFailed(FetchFailure::TooLarge),
                                },
                                VideoAction::RemoveFile { filename },
                            )
                        } else if n > limits.delivery_max_bytes {
                            (
                                VideoState::Cleaning { outcome: VideoOutcome::SizeExceeded },
                                VideoAction::RemoveFile { filename },
                            )
                        } else {
                            (
                                VideoState::Sending { filename: filename.clone() },
                                VideoAction::SendAttachment { filename },
                            )
                        }
                    },
                },
                _ => (VideoState::Inspecting { filename }, VideoAction::Idle),
            },
            VideoState::Sending { filename } => match event {
                VideoEvent::AttachmentSent { delivered } => {
                    let outcome = if delivered {
                        VideoOutcome::Delivered
                    } else {
                        VideoOutcome::SendFailed
                    };
                    (VideoState::Cleaning { outcome }, VideoAction::RemoveFile { filename })
                },
                _ => (VideoState::Sending { filename }, VideoAction::Idle),
            },
            VideoState::Cleaning { outcome } => match event {
                VideoEvent::FileRemoved => {
                    let action = match outcome {
                        VideoOutcome::Delivered => VideoAction::Idle,
                        _ => VideoAction::Reply { text: reply_for(outcome) },
                    };
                    (VideoState::Done { outcome }, action)
                },
                _ => (VideoState::Cleaning { outcome }, VideoAction::Idle),
            },
            VideoState::Done { outcome } => (VideoState::Done { outcome }, VideoAction::Idle),
        };
        (VideoFlow { limits, state }, action)
    }
}

/// The state and the actions after feeding `events` one by one from `s`.
pub open spec fn run(limits: Limits, s: StateView, events: Seq<EventView>) -> (StateView, Seq<ActionView>)
    decreases events.len(),
{
    if events.len() == 0 {
        (s, Seq::empty())
    } else {
        let (s1, a) = next(limits, s, events[0]);
        let (sf, rest) = run(limits, s1, events.drop_first());
        (sf, seq![a] + rest)
    }
}

/// The local file that a state holds, if any.
pub open spec fn pending_file(s: StateView) -> Option<Seq<char>> {
    match s {
        StateView::Fetching { filename } => Option::Some(filename),
        StateView::Inspecting { filename } => Option::Some(filename),
        StateView::Sending { filename } => Option::Some(filename),
        _ => Option::None,
    }
}

/// The file that an action downloads into, if it is a download.
pub open spec fn download_target(a: ActionView) -> Option<Seq<char>> {
    match a {
        ActionView::Download { filename, .. } => Option::Some(filename),
        _ => Option::None,
    }
}

/// Some action of `acts` from index `from` on removes `filename`.
pub open spec fn removed_from(acts: Seq<ActionView>, from: int, filename: Seq<char>) -> bool {
    exists|j: int| from <= j < acts.len() && acts[j] == (ActionView::RemoveFile { filename })
}

/// Every download in `acts` is followed by the removal of the same file.
pub open spec fn every_download_removed(acts: Seq<ActionView>) -> bool {
    forall|i: int|
        0 <= i < acts.len() && (#[trigger] download_target(acts[i])) is Some ==> removed_from(
            acts,
            i + 1,
            download_target(acts[i])->0,
        )
}

/// A run from any state that ends in `Done` has removed the file that its
/// first state held, and every file that it downloaded.
pub proof fn lemma_run_cleans_up(limits: Limits, s: StateView, events: Seq<EventView>)
    ensures
        ({
            let (sf, acts) = run(limits, s, events);
            sf is Done ==> every_download_removed(acts) && (pending_file(s) is Some
                ==> removed_from(acts, 0, pending_file(s)->0))
        }),
    decreases events.len(),
{
    if events.len() > 0 {
        let (s1, a) = next(limits, s, events[0]);
        let tail = events.drop_first();
        lemma_run_cleans_up(limits, s1, tail);
        let (sf, rest) = run(limits, s1, tail);
        let acts = seq![a] + rest;
        assert(run(limits, s, events) == (sf, acts));
        if sf is Done {
            assert forall|i: int|
                0 <= i < acts.len() && (#[trigger] download_target(acts[i])) is Some implies removed_from(
                acts,
                i + 1,
                download_target(acts[i])->0,
            ) by {
                if i == 0 {
                    assert(pending_file(s1) == download_target(a));
                    let j = choose|j: int|
                        0 <= j < rest.len() && rest[j] == (ActionView::RemoveFile {
                            filename: pending_file(s1)->0,
                        });
                    assert(acts[j + 1] == rest[j]);
                } else {
                    assert(acts[i] == rest[i - 1]);
                    let f = download_target(rest[i - 1])->0;
                    let j = choose|j: int|
                        i <= j < rest.len() && rest[j] == (ActionView::RemoveFile { filename: f });
                    assert(acts[j + 1] == rest[j]);
                }
            }
            if pending_file(s) is Some {
                let f = pending_file(s)->0;
                if pending_file(s1) is Some {
                    assert(pending_file(s1) == pending_file(s));
                    let j = choose|j: int|
                        0 <= j < rest.len() && rest[j] == (ActionView::RemoveFile { filename: f });
                    assert(acts[j + 1] == rest[j]);
                } else {
                    assert(a == ActionView::RemoveFile { filename: f });
                    assert(acts[0] == a);
                }
            }
        }
    }
}

/// Whatever way a run of the workflow ends (delivery, a size rejection, a
/// failed download, an I/O error), every file that it downloaded has been
/// removed before it ends.
pub proof fn lemma_video_leaves_no_file(limits: Limits, url: Seq<char>, events: Seq<EventView>)
    ensures
        ({
            let (s0, a0) = start(url);
            let (sf, acts) = run(limits, s0, events);
            sf is Done ==> every_download_removed(seq![a0] + acts)
        }),
{
    let (s0, a0) = start(url);
    lemma_run_cleans_up(limits, s0, events);
    let (sf, acts) = run(limits, s0, events);
    let all = seq![a0] + acts;
    if sf is Done {
        assert forall|i: int|
            0 <= i < all.len() && (#[trigger] download_target(all[i])) is Some implies removed_from(
            all,
            i + 1,
            download_target(all[i])->0,
        ) by {
            assert(i > 0);
            assert(all[i] == acts[i - 1]);
            let f = download_target(acts[i - 1])->0;
            let j = choose|j: int| i <= j < acts.len() && acts[j] == (ActionView::RemoveFile { filename: f });
            assert(all[j + 1] == acts[j]);
        }
    }
}

/// An attachment is sent only for a file whose inspected size is within
/// both ceilings.
pub proof fn lemma_attachment_within_ceilings(limits: Limits, s: StateView, e: EventView)
    ensures
        next(limits, s, e).1 is SendAttachment ==> {
            &&& s is Inspecting
            &&& e matches EventView::FileInspected { size: Option::Some(n) }
            &&& n <= limits.hard_max_bytes
            &&& n <= limits.delivery_max_bytes
        },
{
}

/// A download above the hard ceiling, whether the downloader turns it down
/// or the downloaded file is found larger, ends in a fetch failure that
/// reports the file as too large; a download that fails otherwise ends in a
/// fetch failure that reports the failed download. Either way no attachment
/// is sent, the file is removed, and after the removal the reply follows.
pub proof fn lemma_fetch_failure(limits: Limits, filename: Seq<char>, n: u64)
    requires
        n > limits.hard_max_bytes,
    ensures
        next(limits, StateView::Inspecting { filename }, EventView::FileInspected { size: Option::Some(n) })
            == (StateView::Cleaning { outcome: VideoOutcome::FetchFailed(FetchFailure::TooLarge) },
            ActionView::RemoveFile { filename }),
        forall|succeeded: bool|
            next(
                limits,
                StateView::Fetching { filename },
                EventView::DownloadFinished { succeeded, refused_for_size: true },
            ) == (StateView::Cleaning { outcome: VideoOutcome::FetchFailed(FetchFailure::TooLarge) },
            ActionView::RemoveFile { filename }),
        next(
            limits,
            StateView::Fetching { filename },
            EventView::DownloadFinished { succeeded: false, refused_for_size: false },
        ) == (StateView::Cleaning { outcome: VideoOutcome::FetchFailed(FetchFailure::DownloadFailed) },
            ActionView::RemoveFile { filename }),
        reply_text(VideoOutcome::FetchFailed(FetchFailure::TooLarge)) == "file too large :'-("@,
        forall|f: FetchFailure|
            next(limits, StateView::Cleaning { outcome: VideoOutcome::FetchFailed(f) }, EventView::FileRemoved)
                == (StateView::Done { outcome: VideoOutcome::FetchFailed(f) },
                ActionView::Reply { text: reply_text(VideoOutcome::FetchFailed(f)) }),
{
}

/// A downloaded file within the hard ceiling but above the delivery ceiling
/// is not attached: the outcome is a size rejection, the file is removed,
/// and after the removal the size-rejection reply follows.
pub proof fn lemma_size_exceeded(limits: Limits, filename: Seq<char>, n: u64)
    requires
        limits.delivery_max_bytes < n <= limits.hard_max_bytes,
    ensures
        next(limits, StateView::Inspecting { filename }, EventView::FileInspected { size: Option::Some(n) })
            == (StateView::Cleaning { outcome: VideoOutcome::SizeExceeded },
            ActionView::RemoveFile { filename }),
        next(limits, StateView::Cleaning { outcome: VideoOutcome::SizeExceeded }, EventView::FileRemoved)
            == (StateView::Done { outcome: VideoOutcome::SizeExceeded },
            ActionView::Reply { text: reply_text(VideoOutcome::SizeExceeded) }),
{
}

} // verus!
