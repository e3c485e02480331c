//! The relay pipeline as a state machine: acknowledge the command, resolve
//! the link, fetch the media, upload it in batches, and delete every file
//! that was created, whatever failed on the way.
//!
//! The machine decides; its caller performs each request on the network, the
//! disk or the chat platform and reports what happened.

use crate::batch::{batch_texts, copy_range, partition, spec_partition};
use crate::tiklydown::{
    format_url, get_image, get_music, get_video, music_filename, spec_format_url,
    spec_image_downloads, spec_music_filename, spec_resolve, spec_video_filename, texts,
    transfers, video_filename, ApiResponse, Download, MediaKind, RelayError, Resolved,
    TiklydownApiOne, Transfer,
};
use vstd::prelude::*;

verus! {

/// Where a relay stands.
#[derive(Clone, Copy, Debug, PartialEq, Eq, Structural)]
pub enum Phase {
    /// The command is being acknowledged.
    Acknowledging,
    /// The link is being resolved.
    Resolving,
    /// Media is being fetched into local files.
    Fetching,
    /// The files are being uploaded, batch by batch.
    Uploading,
    /// The files that were created are being deleted.
    Deleting,
    /// Nothing is left to do.
    Finished,
}

/// How a fetch ended.
#[derive(Clone, Copy, Debug, PartialEq, Eq, Structural)]
pub enum FetchOutcome {
    /// The whole body is in the file.
    Stored,
    /// The fetch failed after the file had been created.
    Partial,
    /// The fetch failed and left no file.
    Nothing,
}

/// What the caller reports back after performing a request.
#[derive(Clone, Debug, PartialEq, Eq)]
pub enum Event {
    /// The acknowledgement went through, or not.
    Acknowledged(bool),
    /// The resolver's answer, `None` when it could not be had or read.
    Resolved(Option<TiklydownApiOne>),
    /// A fetch ended.
    Fetched(FetchOutcome),
    /// An upload went through, or not.
    Uploaded(bool),
    /// A deletion went through, or not.
    Deleted(bool),
}

/// The resolver's answer, if there is one, as character sequences.
pub open spec fn spec_answer(answer: Option<TiklydownApiOne>) -> Option<ApiResponse> {
    match answer {
        Some(response) => Some(response@),
        None => None,
    }
}

/// An `Event` with the resolver's answer as character sequences.
pub enum Report {
    Acknowledged(bool),
    Resolved(Option<ApiResponse>),
    Fetched(FetchOutcome),
    Uploaded(bool),
    Deleted(bool),
}

impl View for Event {
    type V = Report;

    open spec fn view(&self) -> Report {
        match self {
            Event::Acknowledged(ok) => Report::Acknowledged(*ok),
            Event::Resolved(answer) => Report::Resolved(spec_answer(*answer)),
            Event::Fetched(outcome) => Report::Fetched(*outcome),
            Event::Uploaded(ok) => Report::Uploaded(*ok),
            Event::Deleted(ok) => Report::Deleted(*ok),
        }
    }
}

/// What the caller is asked to do next.
#[derive(Debug, PartialEq, Eq)]
pub enum Action {
    /// Acknowledge the command, so that it does not time out.
    Defer,
    /// Send this request to the resolver.
    Resolve { request: String },
    /// Fetch the URL into the file.
    Fetch(Download),
    /// Upload these files as the attachments of one message.
    Upload { paths: Vec<String> },
    /// Delete this file.
    Delete { path: String },
    /// The relay is over: how it ended, and the files that could not be
    /// deleted. It ended well only if none is left.
    Done { result: Result<(), RelayError>, undeleted: Vec<String> },
}

/// An `Action` with its texts as character sequences.
pub enum Request {
    Defer,
    Resolve { request: Seq<char> },
    Fetch(Transfer),
    Upload { paths: Seq<Seq<char>> },
    Delete { path: Seq<char> },
    Done { result: Result<(), RelayError>, undeleted: Seq<Seq<char>> },
}

impl View for Action {
    type V = Request;

    open spec fn view(&self) -> Request {
        match self {
            Action::Defer => Request::Defer,
            Action::Resolve { request } => Request::Resolve { request: request@ },
            Action::Fetch(download) => Request::Fetch(download@),
            Action::Upload { paths } => Request::Upload { paths: texts(paths@) },
            Action::Delete { path } => Request::Delete { path: path@ },
            Action::Done { result, undeleted } => Request::Done {
                result: *result,
                undeleted: texts(undeleted@),
            },
        }
    }
}

/// The state of a relay.
#[verifier::ext_equal]
pub struct RelayState {
    /// The kind of media asked for.
    pub kind: MediaKind,
    /// The requesting user.
    pub user_id: Seq<char>,
    /// The link to relay.
    pub source_url: Seq<char>,
    /// How many attachments go into one message.
    pub batch_size: nat,
    pub phase: Phase,
    /// The downloads, in the resolver's order; empty until resolved.
    pub plan: Seq<Transfer>,
    /// How many of the plan's files exist: the first `created` ones.
    pub created: nat,
    /// The batches to upload; empty until everything is fetched.
    pub batches: Seq<Seq<Seq<char>>>,
    /// How many batches have been uploaded.
    pub uploaded: nat,
    /// How many of the created files have been handed to deletion.
    pub deleted: nat,
    /// The files whose deletion failed.
    pub undeleted: Seq<Seq<char>>,
    /// The first failure, if any.
    pub failure: Option<RelayError>,
}

/// The files of a plan, in order.
pub open spec fn spec_paths(plan: Seq<Transfer>) -> Seq<Seq<char>> {
    plan.map_values(|transfer: Transfer| transfer.path)
}

/// The downloads for resolved media: a video or a sound goes to the user's
/// one file of that kind, image `i` to the user's file number `i`.
pub open spec fn spec_plan(media: Resolved, user_id: Seq<char>) -> Seq<Transfer> {
    match media {
        Resolved::Video(url) => seq![Transfer { url, path: spec_video_filename(user_id) }],
        Resolved::Audio(url) => seq![Transfer { url, path: spec_music_filename(user_id) }],
        Resolved::Images(urls) => spec_image_downloads(urls, user_id),
    }
}

/// The state in which a relay starts.
pub open spec fn spec_start(
    kind: MediaKind,
    user_id: Seq<char>,
    source_url: Seq<char>,
    batch_size: nat,
) -> RelayState {
    RelayState {
        kind,
        user_id,
        source_url,
        batch_size,
        phase: Phase::Acknowledging,
        plan: Seq::empty(),
        created: 0,
        batches: Seq::empty(),
        uploaded: 0,
        deleted: 0,
        undeleted: Seq::empty(),
        failure: None,
    }
}

/// The request that a state waits on.
pub open spec fn spec_pending(s: RelayState) -> Request {
    match s.phase {
        Phase::Acknowledging => Request::Defer,
        Phase::Resolving => Request::Resolve { request: spec_format_url(s.source_url) },
        Phase::Fetching => Request::Fetch(s.plan[s.created as int]),
        Phase::Uploading => Request::Upload { paths: s.batches[s.uploaded as int] },
        Phase::Deleting => Request::Delete { path: s.plan[s.deleted as int].path },
        Phase::Finished => Request::Done {
            result: match s.failure {
                Some(error) => Err(error),
                None => Ok(()),
            },
            undeleted: s.undeleted,
        },
    }
}

/// The state after a failure: the files created so far are deleted next, and
/// with none of them the relay is over.
pub open spec fn spec_fail(s: RelayState, error: RelayError) -> RelayState {
    RelayState {
        phase: if s.created > 0 {
            Phase::Deleting
        } else {
            Phase::Finished
        },
        failure: Some(error),
        ..s
    }
}

/// The state after the resolver's answer.
pub open spec fn spec_resolved(s: RelayState, answer: Option<ApiResponse>) -> RelayState {
    match answer {
        None => spec_fail(s, RelayError::ResolveError),
        Some(response) => match spec_resolve(response, s.kind) {
            Ok(media) => RelayState { phase: Phase::Fetching, plan: spec_plan(media, s.user_id), ..s },
            Err(error) => spec_fail(s, error),
        },
    }
}

/// The state after a fetch has ended.
pub open spec fn spec_fetched(s: RelayState, outcome: FetchOutcome) -> RelayState {
    match outcome {
        FetchOutcome::Stored => if s.created + 1 < s.plan.len() {
            RelayState { created: s.created + 1, ..s }
        } else {
            RelayState {
                phase: Phase::Uploading,
                created: s.created + 1,
                batches: spec_partition(spec_paths(s.plan), s.batch_size),
                ..s
            }
        },
        FetchOutcome::Partial => spec_fail(
            RelayState { created: s.created + 1, ..s },
            RelayError::DownloadError,
        ),
        FetchOutcome::Nothing => spec_fail(s, RelayError::DownloadError),
    }
}

/// The state after an upload has ended.
pub open spec fn spec_uploaded(s: RelayState, ok: bool) -> RelayState {
    if !ok {
        spec_fail(s, RelayError::UploadError)
    } else if s.uploaded + 1 < s.batches.len() {
        RelayState { uploaded: s.uploaded + 1, ..s }
    } else {
        RelayState { phase: Phase::Deleting, uploaded: s.uploaded + 1, ..s }
    }
}

/// The state after a deletion has ended: a file that could not be deleted is
/// noted, and the next one follows. A deletion that fails makes the relay
/// fail, unless it has failed before: the first failure stands.
pub open spec fn spec_deleted(s: RelayState, ok: bool) -> RelayState {
    RelayState {
        phase: if s.deleted + 1 < s.created {
            Phase::Deleting
        } else {
            Phase::Finished
        },
        deleted: s.deleted + 1,
        undeleted: if ok {
            s.undeleted
        } else {
            s.undeleted.push(s.plan[s.deleted as int].path)
        },
        failure: if ok || s.failure is Some {
            s.failure
        } else {
            Some(RelayError::DeleteError)
        },
        ..s
    }
}

/// The transition function. A report that does not answer the pending
/// request changes nothing.
pub open spec fn spec_step(s: RelayState, report: Report) -> RelayState {
    match (s.phase, report) {
        (Phase::Acknowledging, Report::Acknowledged(ok)) => if ok {
            RelayState { phase: Phase::Resolving, ..s }
        } else {
            spec_fail(s, RelayError::AcknowledgeError)
        },
        (Phase::Resolving, Report::Resolved(answer)) => spec_resolved(s, answer),
        (Phase::Fetching, Report::Fetched(outcome)) => spec_fetched(s, outcome),
        (Phase::Uploading, Report::Uploaded(ok)) => spec_uploaded(s, ok),
        (Phase::Deleting, Report::Deleted(ok)) => spec_deleted(s, ok),
        _ => s,
    }
}

/// What holds of every state that a relay reaches.
pub open spec fn inv(s: RelayState) -> bool {
    &&& s.batch_size > 0
    &&& s.created <= s.plan.len()
    &&& s.deleted <= s.created
    &&& s.uploaded <= s.batches.len()
    &&& s.undeleted.len() <= s.deleted
    &&& s.batches.len() > 0 ==> {
        &&& s.created == s.plan.len()
        &&& s.batches == spec_partition(spec_paths(s.plan), s.batch_size)
    }
    &&& match s.phase {
        Phase::Acknowledging | Phase::Resolving => {
            &&& s.plan.len() == 0
            &&& s.batches.len() == 0
            &&& s.failure is None
        },
        Phase::Fetching => {
            &&& s.created < s.plan.len()
            &&& s.batches.len() == 0
            &&& s.deleted == 0
            &&& s.failure is None
        },
        Phase::Uploading => {
            &&& s.uploaded < s.batches.len()
            &&& s.deleted == 0
            &&& s.failure is None
        },
        Phase::Deleting => {
            &&& s.deleted < s.created
            &&& s.failure is None ==> s.batches.len() > 0 && s.uploaded == s.batches.len()
        },
        Phase::Finished => {
            &&& s.deleted == s.created
            &&& s.failure is None ==> s.batches.len() > 0 && s.uploaded == s.batches.len()
        },
    }
}

/// Every step leads from a state of a relay to a state of a relay.
pub proof fn lemma_step_keeps_inv(s: RelayState, report: Report)
    requires
        inv(s),
    ensures
        inv(spec_step(s, report)),
{
    match (s.phase, report) {
        (Phase::Resolving, Report::Resolved(Some(response))) => {
            if let Ok(media) = spec_resolve(response, s.kind) {
                assert(spec_plan(media, s.user_id).len() > 0);
            }
        },
        (Phase::Fetching, Report::Fetched(FetchOutcome::Stored)) => {
            if s.created + 1 >= s.plan.len() {
                crate::batch::lemma_partition_count(spec_paths(s.plan), s.batch_size);
            }
        },
        _ => {},
    }
}

/// The files of a plan, copied in order.
fn plan_paths(plan: &Vec<Download>) -> (paths: Vec<String>)
    ensures
        texts(paths@) == spec_paths(transfers(plan@)),
{
    let mut paths: Vec<String> = Vec::new();
    let mut i: usize = 0;
    while i < plan.len()
        invariant
            i <= plan.len(),
            paths@.len() == i,
            forall|j: int| 0 <= j < i ==> (#[trigger] paths@[j])@ == plan@[j].path@,
        decreases plan.len() - i,
    {
        paths.push(plan[i].path.clone());
        i += 1;
    }
    assert(texts(paths@) =~= spec_paths(transfers(plan@)));
    paths
}

/// One relay of a link's media to the chat, from the command to the last
/// deleted file.
pub struct Relay {
    kind: MediaKind,
    user_id: String,
    source_url: String,
    batch_size: usize,
    phase: Phase,
    plan: Vec<Download>,
    created: usize,
    batches: Vec<Vec<String>>,
    uploaded: usize,
    deleted: usize,
    undeleted: Vec<String>,
    failure: Option<RelayError>,
}

impl View for Relay {
    type V = RelayState;

    closed spec fn view(&self) -> RelayState {
        RelayState {
            kind: self.kind,
            user_id: self.user_id@,
            source_url: self.source_url@,
            batch_size: self.batch_size as nat,
            phase: self.phase,
            plan: transfers(self.plan@),
            created: self.created as nat,
            batches: batch_texts(self.batches@),
            uploaded: self.uploaded as nat,
            deleted: self.deleted as nat,
            undeleted: texts(self.undeleted@),
            failure: self.failure,
        }
    }
}

impl Relay {
    /// The relay is in a state that a relay reaches.
    pub open spec fn wf(&self) -> bool {
        inv(self@)
    }

    /// A relay of the media of `kind` behind `source_url`, asked for by
    /// `user_id`, with `batch_size` attachments to a message.
    pub fn new(kind: MediaKind, user_id: &str, source_url: &str, batch_size: usize) -> (relay: Relay)
        requires
            batch_size > 0,
        ensures
            relay.wf(),
            relay@ == spec_start(kind, user_id@, source_url@, batch_size as nat),
    {
        let relay = Relay {
            kind,
            user_id: user_id.to_owned(),
            source_url: source_url.to_owned(),
            batch_size,
            phase: Phase::Acknowledging,
            plan: Vec::new(),
            created: 0,
            batches: Vec::new(),
            uploaded: 0,
            deleted: 0,
            undeleted: Vec::new(),
            failure: None,
        };
        assert(relay@ =~= spec_start(kind, user_id@, source_url@, batch_size as nat));
        relay
    }

    /// Where the relay stands.
    pub fn phase(&self) -> (phase: Phase)
        ensures
            phase == self@.phase,
    {
        self.phase
    }

    /// The request that the relay waits on.
    pub fn pending(&self) -> (action: Action)
        requires
            self.wf(),
        ensures
            action@ == spec_pending(self@),
    {
        match self.phase {
            Phase::Acknowledging => Action::Defer,
            Phase::Resolving => Action::Resolve { request: format_url(self.source_url.as_str()) },
            Phase::Fetching => {
                let download = &self.plan[self.created];
                Action::Fetch(Download { url: download.url.clone(), path: download.path.clone() })
            },
            Phase::Uploading => {
                let batch = &self.batches[self.uploaded];
                let paths = copy_range(batch, 0, batch.len());
                assert(texts(batch@).subrange(0, batch@.len() as int) =~= texts(batch@));
                Action::Upload { paths }
            },
            Phase::Deleting => Action::Delete { path: self.plan[self.deleted].path.clone() },
            Phase::Finished => {
                let undeleted = copy_range(&self.undeleted, 0, self.undeleted.len());
                assert(texts(self.undeleted@).subrange(0, self.undeleted@.len() as int) =~= texts(
                    self.undeleted@,
                ));
                let result = match self.failure {
                    Some(error) => Err(error),
                    None => Ok(()),
                };
                Action::Done { result, undeleted }
            },
        }
    }

    /// Notes a failure and turns to the files that must go.
    fn fail(&mut self, error: RelayError)
        ensures
            final(self)@ == spec_fail(old(self)@, error),
    {
        self.failure = Some(error);
        self.phase = if self.created > 0 {
            Phase::Deleting
        } else {
            Phase::Finished
        };
        assert(self@ =~= spec_fail(old(self)@, error));
    }

    /// The downloads of the media asked for, from the resolver's answer.
    fn plan(&self, response: &TiklydownApiOne) -> (planned: Result<Vec<Download>, RelayError>)
        ensures
            match planned {
                Ok(plan) => spec_resolve(response@, self@.kind) matches Ok(media) && transfers(
                    plan@,
                ) == spec_plan(media, self@.user_id),
                Err(error) => spec_resolve(response@, self@.kind) == Err::<Resolved, RelayError>(
                    error,
                ),
            },
    {
        let user_id = self.user_id.as_str();
        match self.kind {
            MediaKind::Video => match get_video(response, video_filename(user_id).as_str()) {
                Ok(download) => {
                    let plan = vec![download];
                    assert(transfers(plan@) =~= seq![download@]);
                    Ok(plan)
                },
                Err(error) => Err(error),
            },
            MediaKind::Audio => match get_music(response, music_filename(user_id).as_str()) {
                Ok(download) => {
                    let plan = vec![download];
                    assert(transfers(plan@) =~= seq![download@]);
                    Ok(plan)
                },
                Err(error) => Err(error),
            },
            MediaKind::Images => get_image(response, user_id),
        }
    }

    /// Takes the resolver's answer: plans the downloads of the media asked
    /// for, or fails.
    fn resolved(&mut self, answer: Option<TiklydownApiOne>)
        ensures
            final(self)@ == spec_resolved(old(self)@, spec_answer(answer)),
    {
        match answer {
            None => self.fail(RelayError::ResolveError),
            Some(response) => match self.plan(&response) {
                Ok(plan) => {
                    self.plan = plan;
                    self.phase = Phase::Fetching;
                    assert(self@ =~= spec_resolved(old(self)@, spec_answer(answer)));
                },
                Err(error) => self.fail(error),
            },
        }
    }

    /// Takes the end of a fetch.
    fn fetched(&mut self, outcome: FetchOutcome)
        requires
            old(self).wf(),
            old(self)@.phase == Phase::Fetching,
        ensures
            final(self)@ == spec_fetched(old(self)@, outcome),
    {
        let planned: usize = self.plan.len();
        assert(self.created < planned) by {
            assert(self@.created < self@.plan.len());
        }
        match outcome {
            FetchOutcome::Stored => {
                self.created = self.created + 1;
                if self.created < self.plan.len() {
                    assert(self@ =~= spec_fetched(old(self)@, outcome));
                } else {
                    let paths = plan_paths(&self.plan);
                    self.batches = partition(&paths, self.batch_size);
                    self.phase = Phase::Uploading;
                    assert(self@ =~= spec_fetched(old(self)@, outcome));
                }
            },
            FetchOutcome::Partial => {
                self.created = self.created + 1;
                self.fail(RelayError::DownloadError);
            },
            FetchOutcome::Nothing => self.fail(RelayError::DownloadError),
        }
    }

    /// Takes the end of an upload.
    fn uploaded(&mut self, ok: bool)
        requires
            old(self).wf(),
            old(self)@.phase == Phase::Uploading,
        ensures
            final(self)@ == spec_uploaded(old(self)@, ok),
    {
        let cut: usize = self.batches.len();
        assert(self.uploaded < cut) by {
            assert(self@.uploaded < self@.batches.len());
        }
        if !ok {
            self.fail(RelayError::UploadError);
        } else {
            self.uploaded = self.uploaded + 1;
            if self.uploaded >= self.batches.len() {
                self.phase = Phase::Deleting;
            }
            assert(self@ =~= spec_uploaded(old(self)@, ok));
        }
    }

    /// Takes the end of a deletion.
    fn deleted(&mut self, ok: bool)
        requires
            old(self).wf(),
            old(self)@.phase == Phase::Deleting,
        ensures
            final(self)@ == spec_deleted(old(self)@, ok),
    {
        if !ok {
            let path = self.plan[self.deleted].path.clone();
            self.undeleted.push(path);
            assert(texts(self.undeleted@) =~= texts(old(self).undeleted@).push(path@));
            if self.failure.is_none() {
                self.failure = Some(RelayError::DeleteError);
            }
        }
        self.deleted = self.deleted + 1;
        if self.deleted >= self.created {
            self.phase = Phase::Finished;
        }
        assert(self@ =~= spec_deleted(old(self)@, ok));
    }

    /// Takes the report on the pending request and says what to do next. A
    /// report that does not answer the pending request changes nothing, and
    /// the request stands.
    pub fn step(&mut self, event: Event) -> (action: Action)
        requires
            old(self).wf(),
        ensures
            final(self).wf(),
            final(self)@ == spec_step(old(self)@, event@),
            action@ == spec_pending(final(self)@),
    {
        proof {
            lemma_step_keeps_inv(self@, event@);
        }
        match (self.phase, event) {
            (Phase::Acknowledging, Event::Acknowledged(ok)) => {
                if ok {
                    self.phase = Phase::Resolving;
                    assert(self@ =~= spec_step(old(self)@, event@));
                } else {
                    self.fail(RelayError::AcknowledgeError);
                }
            },
            (Phase::Resolving, Event::Resolved(answer)) => self.resolved(answer),
            (Phase::Fetching, Event::Fetched(outcome)) => self.fetched(outcome),
            (Phase::Uploading, Event::Uploaded(ok)) => self.uploaded(ok),
            (Phase::Deleting, Event::Deleted(ok)) => self.deleted(ok),
            _ => {},
        }
        self.pending()
    }
}

} // verus!
