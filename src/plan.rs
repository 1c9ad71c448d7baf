//! The fixed order of work for one request: open, resize, blur, save.

use vstd::prelude::*;
use crate::paths::{resolve_out_path, resolved_out_path, view_of};

verus! {

/// One request, with the blur reduced to whether a positive sigma was given
/// (a sigma that is absent, zero or negative asks for no blur).
#[derive(Debug)]
pub struct Job {
    pub path: String,
    pub resize: Option<(u32, u32)>,
    pub blur: bool,
    pub out_path: Option<String>,
}

/// One unit of work on the image.
#[derive(Debug)]
pub enum Step {
    /// Load the image stored at this path.
    Open { path: String },
    /// Resample to exactly these dimensions, ignoring the aspect ratio.
    Resize { width: u32, height: u32 },
    /// Apply the Gaussian blur of the request's sigma.
    Blur,
    /// Encode the image, by this path's extension, and write it there.
    Save { path: String },
}

pub enum StepModel {
    Open(Seq<char>),
    Resize(u32, u32),
    Blur,
    Save(Seq<char>),
}

impl View for Step {
    type V = StepModel;

    open spec fn view(&self) -> StepModel {
        match self {
            Step::Open { path } => StepModel::Open(path@),
            Step::Resize { width, height } => StepModel::Resize(*width, *height),
            Step::Blur => StepModel::Blur,
            Step::Save { path } => StepModel::Save(path@),
        }
    }
}

pub open spec fn steps_view(steps: Seq<Step>) -> Seq<StepModel> {
    steps.map_values(|s: Step| s@)
}

impl Job {
    pub open spec fn out_path_spec(&self) -> Seq<char> {
        resolved_out_path(self.path@, view_of(self.out_path))
    }

    /// Open, then resize where asked, then blur where asked, then save.
    pub open spec fn plan_spec(&self) -> Seq<StepModel> {
        seq![StepModel::Open(self.path@)] + match self.resize {
            Some((w, h)) => seq![StepModel::Resize(w, h)],
            None => Seq::empty(),
        } + if self.blur {
            seq![StepModel::Blur]
        } else {
            Seq::empty()
        } + seq![StepModel::Save(self.out_path_spec())]
    }

    /// The path the result of this job is written to.
    pub fn out_path(&self) -> (r: String)
        ensures
            r@ == self.out_path_spec(),
    {
        let explicit = match &self.out_path {
            Some(p) => Some(p.clone()),
            None => None,
        };
        resolve_out_path(self.path.as_str(), explicit)
    }

    /// The steps that carry out this job, in the order they run.
    pub fn plan(&self) -> (r: Vec<Step>)
        ensures
            steps_view(r@) == self.plan_spec(),
    {
        let mut steps: Vec<Step> = Vec::new();
        steps.push(Step::Open { path: self.path.clone() });
        if let Some((w, h)) = self.resize {
            steps.push(Step::Resize { width: w, height: h });
        }
        if self.blur {
            steps.push(Step::Blur);
        }
        steps.push(Step::Save { path: self.out_path() });
        assert(steps_view(steps@) =~= self.plan_spec());
        steps
    }
}

/// A job that asks for neither a resize nor a blur only opens the image and
/// saves it: no step changes its dimensions or its pixels.
pub proof fn lemma_plain_job_keeps_image(job: &Job)
    requires
        job.resize is None,
        !job.blur,
    ensures
        job.plan_spec() == seq![StepModel::Open(job.path@), StepModel::Save(job.out_path_spec())],
{
    assert(job.plan_spec() =~= seq![StepModel::Open(job.path@), StepModel::Save(job.out_path_spec())]);
}

/// A job that asks for a resize to `(w, h)` resamples to exactly `(w, h)`
/// right after opening, and between that and the save at most a blur runs.
pub proof fn lemma_resize_sets_size(job: &Job, w: u32, h: u32)
    requires
        job.resize == Some((w, h)),
    ensures
        job.plan_spec()[0] == StepModel::Open(job.path@),
        job.plan_spec()[1] == StepModel::Resize(w, h),
        forall|i: int|
            1 < i < job.plan_spec().len() ==> (job.plan_spec()[i] is Blur || job.plan_spec()[i] is Save),
        job.plan_spec().last() == StepModel::Save(job.out_path_spec()),
{
}

/// A job without a positive sigma has no blur step: what is saved is the
/// opened image, resized where asked, and nothing else.
pub proof fn lemma_no_blur_without_sigma(job: &Job)
    requires
        !job.blur,
    ensures
        forall|i: int| 0 <= i < job.plan_spec().len() ==> !(job.plan_spec()[i] is Blur),
        job.plan_spec() == seq![StepModel::Open(job.path@)] + match job.resize {
            Some((w, h)) => seq![StepModel::Resize(w, h)],
            None => Seq::empty(),
        } + seq![StepModel::Save(job.out_path_spec())],
{
    let rs = match job.resize {
        Some((w, h)) => seq![StepModel::Resize(w, h)],
        None => Seq::<StepModel>::empty(),
    };
    assert(job.plan_spec() =~= seq![StepModel::Open(job.path@)] + rs + seq![
        StepModel::Save(job.out_path_spec()),
    ]);
}

} // verus!
