//! The download-and-mux job as a state machine. The caller performs each
//! action that the job asks for and reports back how it went; the job decides
//! what comes next.
use vstd::prelude::*;

use crate::catalog::{
    Selection, StreamDescriptor, has_audio_pick, has_video_pick, is_first_audio_pick, is_first_video_pick,
    select,
};
use crate::quality::{AudioLevel, QualityLabel, audio_of_text, label_to_quality, level_to_audio, quality_of_text};
use crate::source::{source_id, source_id_of};

verus! {

/// Why a job failed.
#[derive(Clone, Copy, Debug, PartialEq, Eq, Structural)]
pub enum JobError {
    /// The source could not be identified or resolved.
    Resolution,
    /// The source offers no stream of the asked quality or level.
    Selection,
    /// A stream could not be fetched.
    Fetch,
    /// The muxer failed.
    Mux,
    /// A scratch file could not be removed, or the result not moved.
    Finalize,
}

/// Where a job stands. Each running stage waits for the outcome of one action.
#[derive(Clone, Copy, Debug, PartialEq, Eq, Structural)]
pub enum Stage {
    Resolving,
    FetchingVideo,
    FetchingAudio,
    Muxing,
    RemovingVideoTemp,
    RemovingAudioTemp,
    Finalizing,
    Done,
    Failed(JobError),
}

/// What the caller is asked to do next.
#[derive(Clone, Debug)]
pub enum Action {
    /// Resolve the source into its catalog and title.
    Resolve { source_id: String },
    /// Fetch the bytes of the catalog's stream at `stream` into `path`.
    Fetch { stream: usize, path: String },
    /// Run the muxer with these arguments.
    Mux { args: Vec<String> },
    /// Remove the file at `path`.
    Remove { path: String },
    /// Move the file at `from` to `to`, replacing what is there.
    Rename { from: String, to: String },
    /// Nothing more: the job is over.
    Stop,
}

/// What the caller reports after an action.
#[derive(Clone, Debug)]
pub enum Event {
    /// The source was resolved.
    Resolved { catalog: Vec<StreamDescriptor>, title: String },
    /// The action was carried out.
    Succeeded,
    /// The action failed.
    Failed,
}

/// One download job, from a source and the asked qualities to a file in the
/// destination directory.
#[derive(Clone, Debug)]
pub struct DownloadJob {
    pub source_id: String,
    pub quality: QualityLabel,
    pub level: AudioLevel,
    pub destination: String,
    pub title: String,
    pub selection: Selection,
    pub stage: Stage,
}

pub ghost enum ActionView {
    Resolve { source_id: Seq<char> },
    Fetch { stream: usize, path: Seq<char> },
    Mux { args: Seq<Seq<char>> },
    Remove { path: Seq<char> },
    Rename { from: Seq<char>, to: Seq<char> },
    Stop,
}

pub ghost struct JobView {
    pub source_id: Seq<char>,
    pub quality: QualityLabel,
    pub level: AudioLevel,
    pub destination: Seq<char>,
    pub title: Seq<char>,
    pub selection: Selection,
    pub stage: Stage,
}

impl View for Action {
    type V = ActionView;

    open spec fn view(&self) -> ActionView {
        match self {
            Action::Resolve { source_id } => ActionView::Resolve { source_id: source_id@ },
            Action::Fetch { stream, path } => ActionView::Fetch { stream: *stream, path: path@ },
            Action::Mux { args } => ActionView::Mux { args: args@.map_values(|s: String| s@) },
            Action::Remove { path } => ActionView::Remove { path: path@ },
            Action::Rename { from, to } => ActionView::Rename { from: from@, to: to@ },
            Action::Stop => ActionView::Stop,
        }
    }
}

impl View for DownloadJob {
    type V = JobView;

    open spec fn view(&self) -> JobView {
        JobView {
            source_id: self.source_id@,
            quality: self.quality,
            level: self.level,
            destination: self.destination@,
            title: self.title@,
            selection: self.selection,
            stage: self.stage,
        }
    }
}

/// The scratch file for a job's video stream.
pub open spec fn video_temp(id: Seq<char>) -> Seq<char> {
    id + "-video.mp4"@
}

/// The scratch file for a job's audio stream.
pub open spec fn audio_temp(id: Seq<char>) -> Seq<char> {
    id + "-audio.mp4"@
}

/// The file that the muxer writes for a job.
pub open spec fn mux_output(id: Seq<char>) -> Seq<char> {
    id + "-output.mp4"@
}

/// Where the finished file goes: named after the title, unaltered.
pub open spec fn artifact_path(destination: Seq<char>, title: Seq<char>) -> Seq<char> {
    destination + "/"@ + title + ".mp4"@
}

/// The muxer's arguments: copy the video track, encode the audio as AAC.
pub open spec fn mux_args(id: Seq<char>) -> Seq<Seq<char>> {
    seq![
        "-i"@,
        video_temp(id),
        "-i"@,
        audio_temp(id),
        "-c:v"@,
        "copy"@,
        "-c:a"@,
        "aac"@,
        mux_output(id),
    ]
}

/// The first catalog position that may serve as the video.
pub open spec fn first_video_pick(c: Seq<StreamDescriptor>, q: QualityLabel) -> int {
    choose|i: int| is_first_video_pick(c, q, i)
}

/// The first catalog position that may serve as the audio.
pub open spec fn first_audio_pick(c: Seq<StreamDescriptor>, a: AudioLevel) -> int {
    choose|i: int| is_first_audio_pick(c, a, i)
}

/// A job as it is set up: resolving when an identifier was found, else failed.
pub open spec fn start_view(
    id: Option<Seq<char>>,
    video_option: Seq<char>,
    audio_option: Seq<char>,
    destination: Seq<char>,
) -> (JobView, ActionView) {
    let job = JobView {
        source_id: seq![],
        quality: quality_of_text(video_option),
        level: audio_of_text(audio_option),
        destination,
        title: seq![],
        selection: Selection { video: 0, audio: 0 },
        stage: Stage::Resolving,
    };
    match id {
        Some(id) => (JobView { source_id: id, ..job }, ActionView::Resolve { source_id: id }),
        None => (JobView { stage: Stage::Failed(JobError::Resolution), ..job }, ActionView::Stop),
    }
}

/// The job fails with `err`, and asks for nothing more.
pub open spec fn fail(j: JobView, err: JobError) -> (JobView, ActionView) {
    (JobView { stage: Stage::Failed(err), ..j }, ActionView::Stop)
}

/// The job moves on to `stage` and asks for `act`.
pub open spec fn advance(j: JobView, stage: Stage, act: ActionView) -> (JobView, ActionView) {
    (JobView { stage, ..j }, act)
}

/// What a job becomes on an event, and what it asks for next. In a running
/// stage any report but success is a failure of that stage.
pub open spec fn step(j: JobView, e: Event) -> (JobView, ActionView) {
    let id = j.source_id;
    let ok = e is Succeeded;
    match j.stage {
        Stage::Resolving => match e {
            Event::Resolved { catalog, title } => {
                let c = catalog@;
                if has_video_pick(c, j.quality) && has_audio_pick(c, j.level) {
                    let sel = Selection {
                        video: first_video_pick(c, j.quality) as usize,
                        audio: first_audio_pick(c, j.level) as usize,
                    };
                    (
                        JobView { title: title@, selection: sel, stage: Stage::FetchingVideo, ..j },
                        ActionView::Fetch { stream: sel.video, path: video_temp(id) },
                    )
                } else {
                    fail(j, JobError::Selection)
                }
            },
            _ => fail(j, JobError::Resolution),
        },
        Stage::FetchingVideo => if ok {
            advance(j, Stage::FetchingAudio, ActionView::Fetch { stream: j.selection.audio, path: audio_temp(id) })
        } else {
            fail(j, JobError::Fetch)
        },
        Stage::FetchingAudio => if ok {
            advance(j, Stage::Muxing, ActionView::Mux { args: mux_args(id) })
        } else {
            fail(j, JobError::Fetch)
        },
        Stage::Muxing => if ok {
            advance(j, Stage::RemovingVideoTemp, ActionView::Remove { path: video_temp(id) })
        } else {
            fail(j, JobError::Mux)
        },
        Stage::RemovingVideoTemp => if ok {
            advance(j, Stage::RemovingAudioTemp, ActionView::Remove { path: audio_temp(id) })
        } else {
            fail(j, JobError::Finalize)
        },
        Stage::RemovingAudioTemp => if ok {
            advance(
                j,
                Stage::Finalizing,
                ActionView::Rename { from: mux_output(id), to: artifact_path(j.destination, j.title) },
            )
        } else {
            fail(j, JobError::Finalize)
        },
        Stage::Finalizing => if ok {
            advance(j, Stage::Done, ActionView::Stop)
        } else {
            fail(j, JobError::Finalize)
        },
        Stage::Done | Stage::Failed(_) => (j, ActionView::Stop),
    }
}

/// A job that is over stays as it is and asks for nothing, whatever is
/// reported: no stage runs after a failure.
pub proof fn lemma_finished_job_stays(j: JobView, e: Event)
    requires
        j.stage is Done || j.stage is Failed,
    ensures
        step(j, e) == (j, ActionView::Stop),
{
}

/// A resolved catalog without a stream of the asked quality and level fails
/// the job at selection, before anything is fetched or muxed.
pub proof fn lemma_unavailable_quality_fails_selection(j: JobView, catalog: Vec<StreamDescriptor>, title: String)
    requires
        j.stage is Resolving,
        !has_video_pick(catalog@, j.quality) || !has_audio_pick(catalog@, j.level),
    ensures
        step(j, Event::Resolved { catalog, title }).0.stage == Stage::Failed(JobError::Selection),
        step(j, Event::Resolved { catalog, title }).1 == ActionView::Stop,
{
}

/// A failed mux fails the job with nothing more asked: the scratch files of
/// the two streams are left where they are.
pub proof fn lemma_mux_failure_leaves_scratch_files(j: JobView, e: Event)
    requires
        j.stage is Muxing,
        !(e is Succeeded),
    ensures
        step(j, e) == (JobView { stage: Stage::Failed(JobError::Mux), ..j }, ActionView::Stop),
{
}

/// A failed move fails the job with nothing more asked: the muxed file stays
/// at its scratch path.
pub proof fn lemma_failed_move_keeps_output(j: JobView, e: Event)
    requires
        j.stage is Finalizing,
        !(e is Succeeded),
    ensures
        step(j, e) == (JobView { stage: Stage::Failed(JobError::Finalize), ..j }, ActionView::Stop),
{
}

/// Two jobs for the same source and destination, with the same title, move
/// their result to the same path: the second run replaces the first one's
/// file.
pub proof fn lemma_same_job_same_target(j1: JobView, j2: JobView)
    requires
        j1.stage is RemovingAudioTemp,
        j2.stage is RemovingAudioTemp,
        j1.source_id == j2.source_id,
        j1.destination == j2.destination,
        j1.title == j2.title,
    ensures
        step(j1, Event::Succeeded).1 == step(j2, Event::Succeeded).1,
        step(j1, Event::Succeeded).1 == (ActionView::Rename {
            from: mux_output(j1.source_id),
            to: artifact_path(j1.destination, j1.title),
        }),
{
}

proof fn lemma_first_video_pick_unique(c: Seq<StreamDescriptor>, q: QualityLabel, i: int)
    requires
        is_first_video_pick(c, q, i),
    ensures
        first_video_pick(c, q) == i,
{
    let k = first_video_pick(c, q);
    assert(is_first_video_pick(c, q, k));
    if k < i {
        assert(!is_first_video_pick(c, q, i));
    } else if i < k {
        assert(!is_first_video_pick(c, q, k));
    }
}

proof fn lemma_first_audio_pick_unique(c: Seq<StreamDescriptor>, a: AudioLevel, i: int)
    requires
        is_first_audio_pick(c, a, i),
    ensures
        first_audio_pick(c, a) == i,
{
    let k = first_audio_pick(c, a);
    assert(is_first_audio_pick(c, a, k));
    if k < i {
        assert(!is_first_audio_pick(c, a, i));
    } else if i < k {
        assert(!is_first_audio_pick(c, a, k));
    }
}

fn suffixed(id: &String, suffix: &str) -> (r: String)
    ensures
        r@ == id@ + suffix@,
{
    id.clone().concat(suffix)
}

fn build_mux_args(id: &String) -> (r: Vec<String>)
    ensures
        r@.map_values(|s: String| s@) == mux_args(id@),
{
    let r = vec![
        String::from_str("-i"),
        suffixed(id, "-video.mp4"),
        String::from_str("-i"),
        suffixed(id, "-audio.mp4"),
        String::from_str("-c:v"),
        String::from_str("copy"),
        String::from_str("-c:a"),
        String::from_str("aac"),
        suffixed(id, "-output.mp4"),
    ];
    assert(r@.map_values(|s: String| s@) =~= mux_args(id@));
    r
}

fn build_artifact_path(destination: &String, title: &String) -> (r: String)
    ensures
        r@ == artifact_path(destination@, title@),
{
    destination.clone().concat("/").concat(title.as_str()).concat(".mp4")
}

impl DownloadJob {
    /// Sets up a job from the identifier found in the user's text, if any,
    /// and the asked qualities as display texts.
    pub fn start_with_id(source_id: Option<String>, video_option: &str, audio_option: &str, destination: String) -> (r: (
        DownloadJob,
        Action,
    ))
        ensures
            (r.0@, r.1@) == start_view(
                match source_id {
                    Some(id) => Some(id@),
                    None => None,
                },
                video_option@,
                audio_option@,
                destination@,
            ),
    {
        let quality = label_to_quality(video_option);
        let level = level_to_audio(audio_option);
        match source_id {
            Some(id) => {
                let act = Action::Resolve { source_id: id.clone() };
                let job = DownloadJob {
                    source_id: id,
                    quality,
                    level,
                    destination,
                    title: String::new(),
                    selection: Selection { video: 0, audio: 0 },
                    stage: Stage::Resolving,
                };
                (job, act)
            },
            None => {
                let job = DownloadJob {
                    source_id: String::new(),
                    quality,
                    level,
                    destination,
                    title: String::new(),
                    selection: Selection { video: 0, audio: 0 },
                    stage: Stage::Failed(JobError::Resolution),
                };
                (job, Action::Stop)
            },
        }
    }

    /// Sets up a job from the user's URL, the asked qualities as display
    /// texts and the destination directory.
    pub fn start(url: &str, video_option: &str, audio_option: &str, destination: String) -> (r: (DownloadJob, Action))
        ensures
            (r.0@, r.1@) == start_view(source_id_of(url@), video_option@, audio_option@, destination@),
    {
        let id = source_id(url);
        DownloadJob::start_with_id(id, video_option, audio_option, destination)
    }

    fn fail(&mut self, err: JobError) -> (r: Action)
        ensures
            (final(self)@, r@) == fail(old(self)@, err),
    {
        self.stage = Stage::Failed(err);
        Action::Stop
    }

    /// Takes the outcome of the last action and returns the next one.
    pub fn on_event(&mut self, e: Event) -> (r: Action)
        ensures
            (final(self)@, r@) == step(old(self)@, e),
    {
        let ok = match e {
            Event::Succeeded => true,
            _ => false,
        };
        match self.stage {
            Stage::Resolving => match e {
                Event::Resolved { catalog, title } => {
                    match select(&catalog, self.quality, self.level) {
                        Ok(sel) => {
                            proof {
                                lemma_first_video_pick_unique(catalog@, self.quality, sel.video as int);
                                lemma_first_audio_pick_unique(catalog@, self.level, sel.audio as int);
                            }
                            self.title = title;
                            self.selection = sel;
                            self.stage = Stage::FetchingVideo;
                            Action::Fetch { stream: sel.video, path: suffixed(&self.source_id, "-video.mp4") }
                        },
                        Err(_) => self.fail(JobError::Selection),
                    }
                },
                _ => self.fail(JobError::Resolution),
            },
            Stage::FetchingVideo => if ok {
                self.stage = Stage::FetchingAudio;
                Action::Fetch { stream: self.selection.audio, path: suffixed(&self.source_id, "-audio.mp4") }
            } else {
                self.fail(JobError::Fetch)
            },
            Stage::FetchingAudio => if ok {
                self.stage = Stage::Muxing;
                Action::Mux { args: build_mux_args(&self.source_id) }
            } else {
                self.fail(JobError::Fetch)
            },
            Stage::Muxing => if ok {
                self.stage = Stage::RemovingVideoTemp;
                Action::Remove { path: suffixed(&self.source_id, "-video.mp4") }
            } else {
                self.fail(JobError::Mux)
            },
            Stage::RemovingVideoTemp => if ok {
                self.stage = Stage::RemovingAudioTemp;
                Action::Remove { path: suffixed(&self.source_id, "-audio.mp4") }
            } else {
                self.fail(JobError::Finalize)
            },
            Stage::RemovingAudioTemp => if ok {
                self.stage = Stage::Finalizing;
                Action::Rename {
                    from: suffixed(&self.source_id, "-output.mp4"),
                    to: build_artifact_path(&self.destination, &self.title),
                }
            } else {
                self.fail(JobError::Finalize)
            },
            Stage::Finalizing => if ok {
                self.stage = Stage::Done;
                Action::Stop
            } else {
                self.fail(JobError::Finalize)
            },
            Stage::Done | Stage::Failed(_) => Action::Stop,
        }
    }
}

} // verus!
