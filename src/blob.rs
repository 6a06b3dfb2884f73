//! Saving data that the front end hands over (a blob) as a file: the same
//! steps as a download, without the network.

use vstd::prelude::*;
use vstd::string::*;
use crate::download::{DownloadFileResult, DownloadZipOptions, failed_result, result_is};
use crate::session::{DownloadEvent, DownloadStep};
use crate::text::{copy_opt, joined, opt_text, text_of};

verus! {

/// Where saving a blob stands.
#[derive(Debug, Clone, Copy, PartialEq, Eq, Structural)]
pub enum BlobStage {
    /// Waits for the path to save at.
    Placing,
    /// Waits to hear whether a file exists at the path.
    Checking,
    /// Waits for the directories above the path to be made.
    Preparing,
    /// Waits for the data to be written.
    Writing,
    /// Has finished.
    Done,
}

/// The state of saving a blob.
pub struct BlobSession {
    stage: BlobStage,
    overwrite: bool,
    id: Option<String>,
    content_type: Option<String>,
    size: u64,
    path: String,
    file_name: String,
}

pub struct BlobView {
    pub stage: BlobStage,
    pub overwrite: bool,
    pub id: Option<Seq<char>>,
    pub content_type: Option<Seq<char>>,
    pub size: u64,
    pub path: Seq<char>,
    pub file_name: Seq<char>,
}

impl View for BlobSession {
    type V = BlobView;

    closed spec fn view(&self) -> BlobView {
        BlobView {
            stage: self.stage,
            overwrite: self.overwrite,
            id: opt_text(self.id),
            content_type: opt_text(self.content_type),
            size: self.size,
            path: self.path@,
            file_name: self.file_name@,
        }
    }
}

/// The state that saving `size` bytes of `content_type` under `options`
/// starts in, and its first step: the path is the name in the given
/// directory, or one that the user picks.
pub open spec fn blob_started(
    options: DownloadZipOptions,
    content_type: Option<String>,
    size: u64,
    s: BlobView,
    step: DownloadStep,
) -> bool {
    &&& s == BlobView {
        stage: BlobStage::Placing,
        overwrite: options.overwrite.unwrap_or(false),
        id: opt_text(options.id),
        content_type: opt_text(content_type),
        size,
        path: Seq::empty(),
        file_name: Seq::empty(),
    }
    &&& match options.save_dir {
        Some(dir) => step matches DownloadStep::JoinPath { dir: d, file_name: n } && d@ == dir@
            && n@ == options.file_name@,
        None => step matches DownloadStep::ChooseSavePath { suggested_name: n } && n@
            == options.file_name@,
    }
}

/// Whether `e` is what a blob save in state `s` waits for.
pub open spec fn blob_awaits(s: BlobView, e: DownloadEvent) -> bool {
    match s.stage {
        BlobStage::Placing => e is PathChosen || e is PathCancelled,
        BlobStage::Checking => e is Exists,
        BlobStage::Preparing => e is DirsCreated,
        BlobStage::Writing => e is DataWritten,
        BlobStage::Done => false,
    }
}

/// The blob save ends with a result that reports failure.
pub open spec fn blob_refused(
    old: BlobView,
    new: BlobView,
    step: DownloadStep,
    file_path: Option<Seq<char>>,
    file_name: Seq<char>,
    message: Seq<char>,
) -> bool {
    &&& new == BlobView { stage: BlobStage::Done, ..old }
    &&& step matches DownloadStep::Finish(Ok(r)) && result_is(
        r,
        "error"@,
        file_path,
        file_name,
        message,
        None,
        None,
        old.id,
    )
}

/// How a blob save in state `old` that hears `e` moves to `new`, and what
/// it asks for next.
pub open spec fn blob_follows(old: BlobView, e: DownloadEvent, new: BlobView, step: DownloadStep) -> bool {
    match e {
        DownloadEvent::PathChosen { path, file_name } => {
            &&& new == BlobView {
                stage: BlobStage::Checking,
                path: path@,
                file_name: file_name@,
                ..old
            }
            &&& step matches DownloadStep::CheckExists { path: p } && p@ == path@
        },
        DownloadEvent::PathCancelled => blob_refused(old, new, step, None, Seq::empty(), "用户取消了保存"@),
        DownloadEvent::Exists(exists) => if exists && !old.overwrite {
            blob_refused(old, new, step, Some(old.path), old.file_name, "文件已存在: "@ + old.path)
        } else {
            &&& new == BlobView { stage: BlobStage::Preparing, ..old }
            &&& step matches DownloadStep::CreateParentDirs { path: p } && p@ == old.path
        },
        DownloadEvent::DirsCreated(Err(err)) => blob_refused(
            old,
            new,
            step,
            None,
            Seq::empty(),
            "创建目录失败: "@ + err@,
        ),
        DownloadEvent::DirsCreated(Ok(())) => {
            &&& new == BlobView { stage: BlobStage::Writing, ..old }
            &&& step matches DownloadStep::WriteData { path: p } && p@ == old.path
        },
        DownloadEvent::DataWritten(Err(err)) => blob_refused(
            old,
            new,
            step,
            None,
            Seq::empty(),
            "写入文件失败: "@ + err@,
        ),
        DownloadEvent::DataWritten(Ok(())) => {
            &&& new == BlobView { stage: BlobStage::Done, ..old }
            &&& step matches DownloadStep::Finish(Ok(r)) && result_is(
                r,
                "success"@,
                Some(old.path),
                old.file_name,
                "文件下载成功"@,
                Some(old.size),
                old.content_type,
                old.id,
            )
        },
        _ => false,
    }
}

impl BlobSession {
    /// Starts saving `size` bytes of `content_type` under `options`;
    /// returns the session and its first step.
    pub fn start(options: DownloadZipOptions, content_type: Option<String>, size: u64) -> (r: (
        BlobSession,
        DownloadStep,
    ))
        ensures
            blob_started(options, content_type, size, r.0@, r.1),
    {
        let session = BlobSession {
            stage: BlobStage::Placing,
            overwrite: options.overwrite.unwrap_or(false),
            id: copy_opt(&options.id),
            content_type: copy_opt(&content_type),
            size,
            path: String::new(),
            file_name: String::new(),
        };
        let step = match &options.save_dir {
            Some(dir) => DownloadStep::JoinPath {
                dir: dir.clone(),
                file_name: options.file_name.clone(),
            },
            None => DownloadStep::ChooseSavePath { suggested_name: options.file_name.clone() },
        };
        (session, step)
    }

    /// Where the save stands.
    pub fn stage(&self) -> (r: BlobStage)
        ensures
            r == self@.stage,
    {
        self.stage
    }

    /// Whether `e` is what this save waits for.
    pub fn awaits_event(&self, e: &DownloadEvent) -> (r: bool)
        ensures
            r == blob_awaits(self@, *e),
    {
        match self.stage {
            BlobStage::Placing => match e {
                DownloadEvent::PathChosen { .. } => true,
                DownloadEvent::PathCancelled => true,
                _ => false,
            },
            BlobStage::Checking => match e {
                DownloadEvent::Exists(_) => true,
                _ => false,
            },
            BlobStage::Preparing => match e {
                DownloadEvent::DirsCreated(_) => true,
                _ => false,
            },
            BlobStage::Writing => match e {
                DownloadEvent::DataWritten(_) => true,
                _ => false,
            },
            BlobStage::Done => false,
        }
    }

    fn refuse(&mut self, file_path: Option<String>, file_name: String, message: String) -> (r:
        DownloadStep)
        ensures
            blob_refused(old(self)@, final(self)@, r, opt_text(file_path), file_name@, message@),
    {
        self.stage = BlobStage::Done;
        let id = copy_opt(&self.id);
        DownloadStep::Finish(Ok(failed_result(message, file_path, file_name, None, None, id)))
    }

    /// Takes in what happened after the last step and says what to do next.
    pub fn step(&mut self, e: DownloadEvent) -> (r: DownloadStep)
        requires
            blob_awaits(old(self)@, e),
        ensures
            blob_follows(old(self)@, e, final(self)@, r),
    {
        match e {
            DownloadEvent::PathChosen { path, file_name } => {
                let p = path.clone();
                self.path = path;
                self.file_name = file_name;
                self.stage = BlobStage::Checking;
                DownloadStep::CheckExists { path: p }
            },
            DownloadEvent::PathCancelled => {
                self.refuse(None, String::new(), text_of("用户取消了保存"))
            },
            DownloadEvent::Exists(exists) => {
                if exists && !self.overwrite {
                    let message = joined("文件已存在: ", self.path.as_str());
                    let p = self.path.clone();
                    let n = self.file_name.clone();
                    self.refuse(Some(p), n, message)
                } else {
                    self.stage = BlobStage::Preparing;
                    DownloadStep::CreateParentDirs { path: self.path.clone() }
                }
            },
            DownloadEvent::DirsCreated(Err(err)) => {
                self.refuse(None, String::new(), joined("创建目录失败: ", err.as_str()))
            },
            DownloadEvent::DirsCreated(Ok(())) => {
                self.stage = BlobStage::Writing;
                DownloadStep::WriteData { path: self.path.clone() }
            },
            DownloadEvent::DataWritten(Err(err)) => {
                self.refuse(None, String::new(), joined("写入文件失败: ", err.as_str()))
            },
            DownloadEvent::DataWritten(Ok(())) => {
                self.stage = BlobStage::Done;
                DownloadStep::Finish(
                    Ok(
                        DownloadFileResult {
                            success: text_of("success"),
                            file_path: Some(self.path.clone()),
                            file_name: self.file_name.clone(),
                            message: text_of("文件下载成功"),
                            file_size: Some(self.size),
                            content_type: copy_opt(&self.content_type),
                            id: copy_opt(&self.id),
                        },
                    ),
                )
            },
            // a blob save never waits for the other events (see `blob_awaits`)
            _ => DownloadStep::Continue,
        }
    }
}

} // verus!
