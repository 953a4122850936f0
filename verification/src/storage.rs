//! Copying a file into the storage directory: what is checked, where the
//! copy lands, and what is reported when a step fails.
//!
//! A copy is a [`CopyJob`]. The caller asks it for the first step, does what
//! the step says, reports what it found, and gets the next step, until the
//! step is [`CopyStep::Finish`]. Asking whether a path exists, or whether it
//! is a file, is answered with `Ok(true)` or `Ok(false)`; creating
//! directories and copying are answered with `Ok` or with the error.

use crate::paths::{
    file_name, join as join_path, parent, path_file_name, path_join, path_parent,
    path_strip_prefix, strip_prefix,
};
use crate::text::{join, text_of};
use vstd::prelude::*;

verus! {

/// Where a copy lands.
#[derive(Debug)]
pub struct Destination {
    /// Path of the copy.
    pub path: String,
    /// Directory to create before copying, if any.
    pub parent: Option<String>,
}

/// A destination as contracts speak of it.
pub struct DestinationView {
    pub path: Seq<char>,
    pub parent: Option<Seq<char>>,
}

impl View for Destination {
    type V = DestinationView;

    open spec fn view(&self) -> DestinationView {
        DestinationView { path: self.path@, parent: text_of(self.parent) }
    }
}

/// A planned destination or the reason why there is none, as contracts
/// speak of it.
pub open spec fn plan_of(plan: Result<Destination, String>) -> Result<DestinationView, Seq<char>> {
    match plan {
        Ok(destination) => Ok(destination@),
        Err(message) => Err(message@),
    }
}

/// Destination of a copy below `dir` that keeps the source's place below
/// `base`: `relative` is the source's path below `base`, if it lies there.
pub open spec fn structured(dir: Seq<char>, relative: Option<Seq<char>>) -> Result<
    DestinationView,
    Seq<char>,
> {
    match relative {
        Some(rest) => Ok(
            DestinationView {
                path: path_join(dir, rest),
                parent: path_parent(path_join(dir, rest)),
            },
        ),
        None => Err("Source path not under base directory"@),
    }
}

/// Destination of a copy directly below `dir`: `name` is the source's file
/// name, if it has one.
pub open spec fn flat(dir: Seq<char>, name: Option<Seq<char>>) -> Result<
    DestinationView,
    Seq<char>,
> {
    match name {
        Some(name) => Ok(DestinationView { path: path_join(dir, name), parent: None }),
        None => Err("Invalid source filename"@),
    }
}

/// Destination of a copy. The source's place below the base directory is
/// kept where that is asked for and a base directory is given; otherwise
/// the copy lands directly in the destination directory.
pub open spec fn destination_of(
    source: Seq<char>,
    dir: Seq<char>,
    preserve_structure: bool,
    base: Option<Seq<char>>,
) -> Result<DestinationView, Seq<char>> {
    if preserve_structure && base is Some {
        structured(dir, path_strip_prefix(source, base->0))
    } else {
        flat(dir, path_file_name(source))
    }
}

/// Destination of a copy that keeps the source's place below the base
/// directory, from the source's path below that directory.
pub fn structured_destination(destination_dir: &str, relative: Option<&str>) -> (plan: Result<
    Destination,
    String,
>)
    ensures
        plan_of(plan) == structured(
            destination_dir@,
            match relative {
                Some(rest) => Some(rest@),
                None => None,
            },
        ),
{
    match relative {
        Some(rest) => {
            let path = join_path(destination_dir, rest);
            let parent = parent(path.as_str());
            Ok(Destination { path, parent })
        },
        None => Err(String::from_str("Source path not under base directory")),
    }
}

/// Destination of a copy directly below the destination directory, from
/// the source's file name.
pub fn flat_destination(destination_dir: &str, name: Option<&str>) -> (plan: Result<
    Destination,
    String,
>)
    ensures
        plan_of(plan) == flat(
            destination_dir@,
            match name {
                Some(name) => Some(name@),
                None => None,
            },
        ),
{
    match name {
        Some(name) => Ok(Destination { path: join_path(destination_dir, name), parent: None }),
        None => Err(String::from_str("Invalid source filename")),
    }
}

/// Plans where the copy of `source_path` lands.
pub fn plan_destination(
    source_path: &str,
    destination_dir: &str,
    preserve_structure: bool,
    source_base_dir: Option<&str>,
) -> (plan: Result<Destination, String>)
    ensures
        plan_of(plan) == destination_of(
            source_path@,
            destination_dir@,
            preserve_structure,
            match source_base_dir {
                Some(base) => Some(base@),
                None => None,
            },
        ),
{
    match source_base_dir {
        Some(base) if preserve_structure => {
            match strip_prefix(source_path, base) {
                Some(rest) => structured_destination(destination_dir, Some(rest.as_str())),
                None => structured_destination(destination_dir, None),
            }
        },
        _ => {
            match file_name(source_path) {
                Some(name) => flat_destination(destination_dir, Some(name.as_str())),
                None => flat_destination(destination_dir, None),
            }
        },
    }
}

/// A file to copy and where to.
#[derive(Debug)]
pub struct CopyJob {
    pub source_path: String,
    pub destination_dir: String,
    /// Whether the copy keeps the source's place below the base directory.
    pub preserve_structure: bool,
    pub source_base_dir: Option<String>,
}

/// A copy job as contracts speak of it.
pub struct CopyJobView {
    pub source: Seq<char>,
    pub dir: Seq<char>,
    pub preserve_structure: bool,
    pub base: Option<Seq<char>>,
}

impl View for CopyJob {
    type V = CopyJobView;

    open spec fn view(&self) -> CopyJobView {
        CopyJobView {
            source: self.source_path@,
            dir: self.destination_dir@,
            preserve_structure: self.preserve_structure,
            base: text_of(self.source_base_dir),
        }
    }
}

/// What the caller does next.
#[derive(Debug, PartialEq, Eq)]
pub enum CopyStep {
    /// Ask whether the source exists.
    SourceExists(String),
    /// Ask whether the source is a regular file.
    SourceIsFile(String),
    /// Ask whether the destination directory exists.
    DirectoryExists(String),
    /// Create the destination directory and what is missing above it.
    CreateDirectory(String),
    /// Create the directory that the copy lands in and what is missing
    /// above it.
    CreateParents { parent: String, destination: String },
    /// Ask whether anything exists at the destination.
    DestinationExists(String),
    /// Copy the file.
    Copy { from: String, to: String },
    /// Nothing: the job has ended, with the path of the copy or with the
    /// reason why there is none.
    Finish(Result<String, String>),
}

/// A step as contracts speak of it.
pub enum CopyStepView {
    SourceExists(Seq<char>),
    SourceIsFile(Seq<char>),
    DirectoryExists(Seq<char>),
    CreateDirectory(Seq<char>),
    CreateParents { parent: Seq<char>, destination: Seq<char> },
    DestinationExists(Seq<char>),
    Copy { from: Seq<char>, to: Seq<char> },
    Finish(Result<Seq<char>, Seq<char>>),
}

impl View for CopyStep {
    type V = CopyStepView;

    open spec fn view(&self) -> CopyStepView {
        match self {
            CopyStep::SourceExists(path) => CopyStepView::SourceExists(path@),
            CopyStep::SourceIsFile(path) => CopyStepView::SourceIsFile(path@),
            CopyStep::DirectoryExists(path) => CopyStepView::DirectoryExists(path@),
            CopyStep::CreateDirectory(path) => CopyStepView::CreateDirectory(path@),
            CopyStep::CreateParents { parent, destination } => CopyStepView::CreateParents {
                parent: parent@,
                destination: destination@,
            },
            CopyStep::DestinationExists(path) => CopyStepView::DestinationExists(path@),
            CopyStep::Copy { from, to } => CopyStepView::Copy { from: from@, to: to@ },
            CopyStep::Finish(Ok(path)) => CopyStepView::Finish(Ok(path@)),
            CopyStep::Finish(Err(message)) => CopyStepView::Finish(Err(message@)),
        }
    }
}

/// What the caller found, as contracts speak of it.
pub open spec fn found_of(found: Result<bool, String>) -> Result<bool, Seq<char>> {
    match found {
        Ok(yes) => Ok(yes),
        Err(error) => Err(error@),
    }
}

impl CopyJobView {
    /// The first step: a look at the source.
    pub open spec fn first(self) -> CopyStepView {
        CopyStepView::SourceExists(self.source)
    }

    /// The step that follows once the destination directory stands: the
    /// destination is planned, and the directory that the copy lands in is
    /// created where the plan names one.
    pub open spec fn enter_directory(self) -> CopyStepView {
        match destination_of(self.source, self.dir, self.preserve_structure, self.base) {
            Ok(destination) => match destination.parent {
                Some(parent) => CopyStepView::CreateParents {
                    parent,
                    destination: destination.path,
                },
                None => CopyStepView::DestinationExists(destination.path),
            },
            Err(message) => CopyStepView::Finish(Err(message)),
        }
    }

    /// The step that follows `pending` once the caller has found `found`.
    /// A question counts as answered with yes only by `Ok(true)`. The copy
    /// is made only where nothing was found at the destination, and a job
    /// that has ended stays as it is.
    pub open spec fn next(self, pending: CopyStepView, found: Result<bool, Seq<char>>) -> CopyStepView {
        let yes = found == Ok::<bool, Seq<char>>(true);
        match pending {
            CopyStepView::SourceExists(path) => if yes {
                CopyStepView::SourceIsFile(path)
            } else {
                CopyStepView::Finish(Err("Source file not found: "@ + path))
            },
            CopyStepView::SourceIsFile(path) => if yes {
                CopyStepView::DirectoryExists(self.dir)
            } else {
                CopyStepView::Finish(Err("Source is not a file: "@ + path))
            },
            CopyStepView::DirectoryExists(path) => if yes {
                self.enter_directory()
            } else {
                CopyStepView::CreateDirectory(path)
            },
            CopyStepView::CreateDirectory(_) => match found {
                Ok(_) => self.enter_directory(),
                Err(error) => CopyStepView::Finish(
                    Err("Failed to create destination directory: "@ + error),
                ),
            },
            CopyStepView::CreateParents { parent, destination } => match found {
                Ok(_) => CopyStepView::DestinationExists(destination),
                Err(error) => CopyStepView::Finish(
                    Err("Failed to create parent directories: "@ + error),
                ),
            },
            CopyStepView::DestinationExists(path) => if yes {
                CopyStepView::Finish(Err("Destination file already exists: "@ + path))
            } else {
                CopyStepView::Copy { from: self.source, to: path }
            },
            CopyStepView::Copy { from, to } => match found {
                Ok(_) => CopyStepView::Finish(Ok(to)),
                Err(error) => CopyStepView::Finish(Err("Failed to copy file: "@ + error)),
            },
            CopyStepView::Finish(outcome) => CopyStepView::Finish(outcome),
        }
    }

    /// The step that is pending after the caller has answered `answers`,
    /// one after the other, starting from `pending`.
    pub open spec fn after(self, pending: CopyStepView, answers: Seq<Result<bool, Seq<char>>>) -> CopyStepView
        decreases answers.len(),
    {
        if answers.len() == 0 {
            pending
        } else {
            self.after(self.next(pending, answers[0]), answers.drop_first())
        }
    }
}

impl CopyStepView {
    /// How many steps can at most follow this one.
    pub open spec fn steps_left(self) -> nat {
        match self {
            CopyStepView::SourceExists(_) => 7,
            CopyStepView::SourceIsFile(_) => 6,
            CopyStepView::DirectoryExists(_) => 5,
            CopyStepView::CreateDirectory(_) => 4,
            CopyStepView::CreateParents { .. } => 3,
            CopyStepView::DestinationExists(_) => 2,
            CopyStepView::Copy { .. } => 1,
            CopyStepView::Finish(_) => 0,
        }
    }
}

/// The copy is made only right after the caller has asked whether anything
/// exists at the destination and has not found anything: a file that is
/// there is never overwritten.
pub proof fn lemma_copy_follows_vacancy(
    job: CopyJobView,
    pending: CopyStepView,
    found: Result<bool, Seq<char>>,
)
    ensures
        job.next(pending, found) matches CopyStepView::Copy { from, to } ==> {
            &&& pending == CopyStepView::DestinationExists(to)
            &&& found != Ok::<bool, Seq<char>>(true)
            &&& from == job.source
        },
{
}

/// A job ends well only through a copy that succeeded, and then names the
/// path that the copy was written to.
pub proof fn lemma_success_follows_copy(
    job: CopyJobView,
    pending: CopyStepView,
    found: Result<bool, Seq<char>>,
)
    requires
        !(pending is Finish),
    ensures
        job.next(pending, found) matches CopyStepView::Finish(Ok(path)) ==> {
            &&& pending matches CopyStepView::Copy { to, .. }
            &&& to == path
            &&& found is Ok
        },
{
}

/// Every step brings the job closer to its end.
pub proof fn lemma_next_is_closer(
    job: CopyJobView,
    pending: CopyStepView,
    found: Result<bool, Seq<char>>,
)
    ensures
        pending is Finish ==> job.next(pending, found) == pending,
        !(pending is Finish) ==> job.next(pending, found).steps_left() < pending.steps_left(),
{
}

/// A job has ended once the caller has answered as many steps as were left.
pub proof fn lemma_job_ends(
    job: CopyJobView,
    pending: CopyStepView,
    answers: Seq<Result<bool, Seq<char>>>,
)
    requires
        answers.len() >= pending.steps_left(),
    ensures
        job.after(pending, answers) is Finish,
    decreases answers.len(),
{
    if answers.len() > 0 {
        lemma_next_is_closer(job, pending, answers[0]);
        lemma_job_ends(job, job.next(pending, answers[0]), answers.drop_first());
    }
}

impl CopyJob {
    /// The first step of the job.
    pub fn first(&self) -> (step: CopyStep)
        ensures
            step@ == self@.first(),
    {
        CopyStep::SourceExists(self.source_path.clone())
    }

    /// The step that follows once the destination directory stands.
    fn enter_directory(&self) -> (step: CopyStep)
        ensures
            step@ == self@.enter_directory(),
    {
        let base: Option<&str> = match &self.source_base_dir {
            Some(base) => Some(base.as_str()),
            None => None,
        };
        match plan_destination(
            self.source_path.as_str(),
            self.destination_dir.as_str(),
            self.preserve_structure,
            base,
        ) {
            Ok(destination) => match destination.parent {
                Some(parent) => CopyStep::CreateParents { parent, destination: destination.path },
                None => CopyStep::DestinationExists(destination.path),
            },
            Err(message) => CopyStep::Finish(Err(message)),
        }
    }

    /// The step that follows `pending` once the caller has found `found`.
    pub fn next(&self, pending: CopyStep, found: Result<bool, String>) -> (step: CopyStep)
        ensures
            step@ == self@.next(pending@, found_of(found)),
    {
        let yes = match &found {
            Ok(yes) => *yes,
            Err(_) => false,
        };
        match pending {
            CopyStep::SourceExists(path) => if yes {
                CopyStep::SourceIsFile(path)
            } else {
                CopyStep::Finish(Err(join("Source file not found: ", path.as_str())))
            },
            CopyStep::SourceIsFile(path) => if yes {
                CopyStep::DirectoryExists(self.destination_dir.clone())
            } else {
                CopyStep::Finish(Err(join("Source is not a file: ", path.as_str())))
            },
            CopyStep::DirectoryExists(path) => if yes {
                self.enter_directory()
            } else {
                CopyStep::CreateDirectory(path)
            },
            CopyStep::CreateDirectory(_) => match found {
                Ok(_) => self.enter_directory(),
                Err(error) => CopyStep::Finish(
                    Err(join("Failed to create destination directory: ", error.as_str())),
                ),
            },
            CopyStep::CreateParents { parent: _, destination } => match found {
                Ok(_) => CopyStep::DestinationExists(destination),
                Err(error) => CopyStep::Finish(
                    Err(join("Failed to create parent directories: ", error.as_str())),
                ),
            },
            CopyStep::DestinationExists(path) => if yes {
                CopyStep::Finish(Err(join("Destination file already exists: ", path.as_str())))
            } else {
                CopyStep::Copy { from: self.source_path.clone(), to: path }
            },
            CopyStep::Copy { from: _, to } => match found {
                Ok(_) => CopyStep::Finish(Ok(to)),
                Err(error) => CopyStep::Finish(Err(join("Failed to copy file: ", error.as_str()))),
            },
            CopyStep::Finish(outcome) => CopyStep::Finish(outcome),
        }
    }
}

} // verus!
