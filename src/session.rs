//! One download, as a sequence of decisions. The session says what to do
//! next (ask the server, pick a path, fetch, write, ...); the caller does it
//! and reports back what happened, until the session finishes with a result.

use vstd::prelude::*;
use vstd::string::*;
use crate::content_type::extension_for;
use crate::download::{
    content_length_of,
    BatchDownloadProgress, DownloadFileOptions, DownloadFileResult, FileInfoEvent, ResponseHead,
    declared_length, failed_result, file_name_from_url, get_remote_file_info, result_is,
    url_file_name, url_last_segment,
};
use crate::http::{is_success_status, status_line, status_line_of, success_status};
use crate::text::{copy_opt, decimal, decimal_text, has_char, joined, opt_text, text_of};

verus! {

/// The size limit of a download that sets none: 100 MiB.
pub const DEFAULT_MAX_SIZE: u64 = 104857600;

/// Where a download stands: what it waits to hear.
#[derive(Debug, Clone, Copy, PartialEq, Eq, Structural)]
pub enum Stage {
    /// Waits for the server's answer on the file's details.
    Naming,
    /// Waits for the path to save at.
    Placing,
    /// Waits to hear whether a file exists at the path.
    Checking,
    /// Waits for the directories above the path to be made.
    Preparing,
    /// Waits for the response to the download request.
    Fetching,
    /// Waits for the file to be created.
    Opening,
    /// Waits for the body's pieces to be written.
    Streaming,
    /// Waits for the written file's size.
    Measuring,
    /// Has finished.
    Done,
}

/// A failure while the body is written.
#[derive(Debug, Clone)]
pub enum ChunkError {
    /// Reading a piece of the body failed.
    Read(String),
    /// Writing a piece to the file failed.
    Write(String),
}

/// What happened after a step.
#[derive(Debug)]
pub enum DownloadEvent {
    /// The server answered a request for the file's details.
    Probed(Result<ResponseHead, String>),
    /// The file goes to `path`, whose last component is `file_name`.
    PathChosen { path: String, file_name: String },
    /// The user declined to pick a path.
    PathCancelled,
    /// Whether a file exists at the path.
    Exists(bool),
    /// The directories above the path were made, or not.
    DirsCreated(Result<(), String>),
    /// The server answered the download request.
    Responded(Result<ResponseHead, String>),
    /// The file was created, or not.
    FileCreated(Result<(), String>),
    /// A piece of the body of this many bytes was written.
    ChunkWritten(u64),
    /// A piece of the body could not be read or written.
    ChunkFailed(ChunkError),
    /// The whole body was written.
    BodyDone,
    /// The size of the written file, or why it could not be read.
    SizeRead(Result<u64, String>),
    /// The data was written to the file, or not.
    DataWritten(Result<(), String>),
}

/// What to do next.
#[derive(Debug)]
pub enum DownloadStep {
    /// Ask the server for the file's details (a `HEAD` request).
    ProbeContentType { url: String },
    /// Save as `file_name` in directory `dir`.
    JoinPath { dir: String, file_name: String },
    /// Ask the user where to save, suggesting `suggested_name`.
    ChooseSavePath { suggested_name: String },
    /// Tell whether a file exists at `path`.
    CheckExists { path: String },
    /// Make the directories above `path`.
    CreateParentDirs { path: String },
    /// Request the file.
    Fetch { url: String },
    /// Create the file at `path`.
    CreateFile { path: String },
    /// Send this event, then write the body piece by piece.
    Announce(FileInfoEvent),
    /// Send this progress event, then go on writing.
    Report(BatchDownloadProgress),
    /// Go on writing.
    Continue,
    /// Read the size of the file at `path`.
    ReadFileSize { path: String },
    /// Write the data held by the caller to the file at `path`.
    WriteData { path: String },
    /// The download is over.
    Finish(Result<DownloadFileResult, String>),
}

/// The state of a download.
pub struct DownloadSession {
    stage: Stage,
    url: String,
    url_name: String,
    save_dir: Option<String>,
    overwrite: bool,
    id: Option<String>,
    max_size: u64,
    path: String,
    file_name: String,
    content_length: u64,
    content_type: Option<String>,
    total_bytes: u64,
}

pub struct SessionView {
    pub stage: Stage,
    pub url: Seq<char>,
    pub url_name: Seq<char>,
    pub save_dir: Option<Seq<char>>,
    pub overwrite: bool,
    pub id: Option<Seq<char>>,
    pub max_size: u64,
    pub path: Seq<char>,
    pub file_name: Seq<char>,
    pub content_length: u64,
    pub content_type: Option<Seq<char>>,
    pub total_bytes: u64,
}

impl View for DownloadSession {
    type V = SessionView;

    closed spec fn view(&self) -> SessionView {
        SessionView {
            stage: self.stage,
            url: self.url@,
            url_name: self.url_name@,
            save_dir: opt_text(self.save_dir),
            overwrite: self.overwrite,
            id: opt_text(self.id),
            max_size: self.max_size,
            path: self.path@,
            file_name: self.file_name@,
            content_length: self.content_length,
            content_type: opt_text(self.content_type),
            total_bytes: self.total_bytes,
        }
    }
}

/// The session's state once the name is known: it waits for a path, which
/// is the name in the given directory, or one that the user picks.
pub open spec fn placed(old: SessionView, name: Seq<char>, new: SessionView, step: DownloadStep) -> bool {
    &&& new == SessionView { stage: Stage::Placing, ..old }
    &&& match old.save_dir {
        Some(dir) => step matches DownloadStep::JoinPath { dir: d, file_name: n } && d@ == dir
            && n@ == name,
        None => step matches DownloadStep::ChooseSavePath { suggested_name: n } && n@ == name,
    }
}

/// The name that the answer to a request for the file's details gives a
/// file whose URL ends in `url_name`, a piece without extension.
pub open spec fn probed_name(url_name: Seq<char>, answer: Result<ResponseHead, String>) -> Seq<char> {
    if url_name.contains('.') {
        url_name
    } else {
        match answer {
        Ok(head) => if success_status(head.status) {
            match head.content_type {
                Some(ct) => url_name + extension_for(ct@),
                None => url_name + ".bin"@,
            }
        } else {
            url_name + ".bin"@
        },
        Err(_) => url_name + ".bin"@,
        }
    }
}

/// The session ends with `result`.
pub open spec fn finished_with(
    old: SessionView,
    new: SessionView,
    step: DownloadStep,
    result: Result<DownloadFileResult, String>,
) -> bool {
    &&& new == SessionView { stage: Stage::Done, ..old }
    &&& step == DownloadStep::Finish(result)
}

/// The session ends with an error carrying `message`.
pub open spec fn failed_with(old: SessionView, new: SessionView, step: DownloadStep, message: Seq<char>) -> bool {
    &&& new == SessionView { stage: Stage::Done, ..old }
    &&& step matches DownloadStep::Finish(Err(m)) && m@ == message
}

/// The session ends with a result that reports failure.
pub open spec fn refused_with(
    old: SessionView,
    new: SessionView,
    step: DownloadStep,
    file_path: Option<Seq<char>>,
    message: Seq<char>,
    file_size: Option<u64>,
    content_type: Option<Seq<char>>,
) -> bool {
    &&& new == SessionView { stage: Stage::Done, ..old }
    &&& step matches DownloadStep::Finish(Ok(r)) && result_is(
        r,
        "error"@,
        file_path,
        Seq::empty(),
        message,
        file_size,
        content_type,
        old.id,
    )
}

/// Whole percent of `total` out of `length`.
pub open spec fn percent_of(total: u64, length: u64) -> u64
    recommends
        length > 0,
{
    ((total * 100) / (length as int)) as u64
}

/// The progress event after `s.total_bytes` bytes.
pub open spec fn progress_is(p: BatchDownloadProgress, s: SessionView) -> bool {
    let percent = percent_of(s.total_bytes, s.content_length);
    &&& p.current_index == 1
    &&& p.total_files == 1
    &&& p.url@ == s.url
    &&& p.total_bytes == s.total_bytes
    &&& p.content_length == s.content_length
    &&& p.percent == percent
    &&& p.file_path@ == s.path
    &&& p.file_name@ == s.file_name
    &&& p.file_size == Some(s.content_length)
    &&& opt_text(p.id) == s.id
    &&& p.success@ == (if percent >= 100 { "success"@ } else { "start"@ })
    &&& p.message@ == (if percent >= 100 { "文件下载成功"@ } else { "文件下载中..."@ })
}

/// The state that a download of `options` starts in, and its first step.
pub open spec fn started(options: DownloadFileOptions, s: SessionView, step: DownloadStep) -> bool {
    let url_name = url_last_segment(options.url@);
    let base = SessionView {
        stage: Stage::Naming,
        url: options.url@,
        url_name,
        save_dir: opt_text(options.save_dir),
        overwrite: options.overwrite.unwrap_or(false),
        id: opt_text(options.id),
        max_size: options.max_size.unwrap_or(DEFAULT_MAX_SIZE),
        path: Seq::empty(),
        file_name: Seq::empty(),
        content_length: 0,
        content_type: None,
        total_bytes: 0,
    };
    match options.file_name {
        Some(n) => placed(base, n@, s, step),
        None => if url_name.contains('.') {
            placed(base, url_name, s, step)
        } else {
            s == base && (step matches DownloadStep::ProbeContentType { url } && url@ == options.url@)
        },
    }
}

/// Whether `e` is what a session in state `s` waits for.
pub open spec fn awaits(s: SessionView, e: DownloadEvent) -> bool {
    match s.stage {
        Stage::Naming => (e matches DownloadEvent::Probed(r) && (r matches Ok(h) ==> h.valid())),
        Stage::Placing => e is PathChosen || e is PathCancelled,
        Stage::Checking => e is Exists,
        Stage::Preparing => e is DirsCreated,
        Stage::Fetching => (e matches DownloadEvent::Responded(r) && (r matches Ok(h) ==> h.valid())),
        Stage::Opening => e is FileCreated,
        Stage::Streaming => match e {
            DownloadEvent::ChunkWritten(n) => s.total_bytes + n <= u64::MAX && (s.content_length
                > 0 ==> (s.total_bytes + n) * 100 <= u64::MAX),
            DownloadEvent::ChunkFailed(_) => true,
            DownloadEvent::BodyDone => true,
            _ => false,
        },
        Stage::Measuring => e is SizeRead,
        Stage::Done => false,
    }
}

/// How a session in state `old` that hears `e` moves to state `new` and
/// what it asks for next.
pub open spec fn follows(old: SessionView, e: DownloadEvent, new: SessionView, step: DownloadStep) -> bool {
    match e {
        DownloadEvent::Probed(answer) => placed(old, probed_name(old.url_name, answer), new, step),
        DownloadEvent::PathChosen { path, file_name } => {
            &&& new == SessionView { stage: Stage::Checking, path: path@, file_name: file_name@, ..old }
            &&& step matches DownloadStep::CheckExists { path: p } && p@ == path@
        },
        DownloadEvent::PathCancelled => refused_with(old, new, step, None, "已取消保存"@, None, None),
        DownloadEvent::Exists(exists) => if exists && !old.overwrite {
            refused_with(old, new, step, Some(old.path), "文件已存在: "@ + old.path, None, None)
        } else {
            &&& new == SessionView { stage: Stage::Preparing, ..old }
            &&& step matches DownloadStep::CreateParentDirs { path: p } && p@ == old.path
        },
        DownloadEvent::DirsCreated(Err(err)) => refused_with(
            old,
            new,
            step,
            None,
            "创建目录失败: "@ + err@,
            None,
            None,
        ),
        DownloadEvent::DirsCreated(Ok(())) => {
            &&& new == SessionView { stage: Stage::Fetching, ..old }
            &&& step matches DownloadStep::Fetch { url } && url@ == old.url
        },
        DownloadEvent::Responded(Err(err)) => failed_with(old, new, step, "下载请求失败: "@ + err@),
        DownloadEvent::Responded(Ok(head)) => {
            let length = declared_length(head);
            if !success_status(head.status) {
                refused_with(
                    old,
                    new,
                    step,
                    None,
                    "下载失败: HTTP状态码为 "@ + status_line_of(head.status),
                    None,
                    None,
                )
            } else if length > old.max_size {
                refused_with(
                    old,
                    new,
                    step,
                    None,
                    "文件过大 ("@ + decimal((length / 1024) as nat) + " > "@ + decimal(
                        (old.max_size / 1024) as nat,
                    ) + " KB)"@,
                    Some(length),
                    opt_text(head.content_type),
                )
            } else {
                &&& new == SessionView {
                    stage: Stage::Opening,
                    content_length: length,
                    content_type: opt_text(head.content_type),
                    ..old
                }
                &&& step matches DownloadStep::CreateFile { path: p } && p@ == old.path
            }
        },
        DownloadEvent::FileCreated(Err(err)) => refused_with(
            old,
            new,
            step,
            None,
            "创建文件失败: "@ + err@,
            None,
            None,
        ),
        DownloadEvent::FileCreated(Ok(())) => {
            &&& new == SessionView { stage: Stage::Streaming, ..old }
            &&& step matches DownloadStep::Announce(a) && {
                &&& opt_text(a.file_name) == Some(old.file_name)
                &&& a.file_size == Some(old.content_length)
                &&& opt_text(a.content_type) == old.content_type
                &&& opt_text(a.id) == old.id
                &&& a.success@ == "start"@
                &&& a.message@ == "文件下载开始"@
            }
        },
        DownloadEvent::ChunkWritten(n) => {
            &&& new == SessionView { total_bytes: (old.total_bytes + n) as u64, ..old }
            &&& if old.content_length > 0 {
                step matches DownloadStep::Report(p) && progress_is(p, new)
            } else {
                step is Continue
            }
        },
        DownloadEvent::ChunkFailed(ChunkError::Read(err)) => refused_with(
            old,
            new,
            step,
            None,
            "读取数据块失败: "@ + err@,
            None,
            None,
        ),
        DownloadEvent::ChunkFailed(ChunkError::Write(err)) => refused_with(
            old,
            new,
            step,
            None,
            "写入文件失败: "@ + err@,
            None,
            None,
        ),
        DownloadEvent::BodyDone => {
            &&& new == SessionView { stage: Stage::Measuring, ..old }
            &&& step matches DownloadStep::ReadFileSize { path: p } && p@ == old.path
        },
        DownloadEvent::SizeRead(Err(err)) => failed_with(old, new, step, "获取文件元数据失败: "@ + err@),
        DownloadEvent::SizeRead(Ok(size)) => {
            &&& new == SessionView { stage: Stage::Done, ..old }
            &&& step matches DownloadStep::Finish(Ok(r)) && result_is(
                r,
                "success"@,
                Some(old.path),
                old.file_name,
                "文件下载成功"@,
                Some(size),
                old.content_type,
                old.id,
            )
        },
        DownloadEvent::DataWritten(_) => false,
    }
}

impl DownloadSession {
    /// Starts a download of `options`; returns the session and its first step.
    pub fn start(options: DownloadFileOptions) -> (r: (DownloadSession, DownloadStep))
        ensures
            started(options, r.0@, r.1),
    {
        let url_name = url_file_name(options.url.as_str());
        let mut session = DownloadSession {
            stage: Stage::Naming,
            url: options.url.clone(),
            url_name,
            save_dir: copy_opt(&options.save_dir),
            overwrite: options.overwrite.unwrap_or(false),
            id: copy_opt(&options.id),
            max_size: options.max_size.unwrap_or(DEFAULT_MAX_SIZE),
            path: String::new(),
            file_name: String::new(),
            content_length: 0,
            content_type: None,
            total_bytes: 0,
        };
        match &options.file_name {
            Some(n) => {
                let step = session.place(n.clone());
                (session, step)
            },
            None => {
                if has_char(session.url_name.as_str(), '.') {
                    let name = session.url_name.clone();
                    let step = session.place(name);
                    (session, step)
                } else {
                    let url = session.url.clone();
                    (session, DownloadStep::ProbeContentType { url })
                }
            },
        }
    }

    fn place(&mut self, name: String) -> (r: DownloadStep)
        ensures
            placed(old(self)@, name@, final(self)@, r),
    {
        self.stage = Stage::Placing;
        match &self.save_dir {
            Some(dir) => DownloadStep::JoinPath { dir: dir.clone(), file_name: name },
            None => DownloadStep::ChooseSavePath { suggested_name: name },
        }
    }

    /// Where the download stands.
    pub fn stage(&self) -> (r: Stage)
        ensures
            r == self@.stage,
    {
        self.stage
    }

    /// Whether `e` is what this session waits for.
    pub fn awaits_event(&self, e: &DownloadEvent) -> (r: bool)
        ensures
            r == awaits(self@, *e),
    {
        match self.stage {
            Stage::Naming => match e {
                DownloadEvent::Probed(Ok(h)) => 100 <= h.status && h.status <= 999,
                DownloadEvent::Probed(Err(_)) => true,
                _ => false,
            },
            Stage::Placing => match e {
                DownloadEvent::PathChosen { .. } => true,
                DownloadEvent::PathCancelled => true,
                _ => false,
            },
            Stage::Checking => match e {
                DownloadEvent::Exists(_) => true,
                _ => false,
            },
            Stage::Preparing => match e {
                DownloadEvent::DirsCreated(_) => true,
                _ => false,
            },
            Stage::Fetching => match e {
                DownloadEvent::Responded(Ok(h)) => 100 <= h.status && h.status <= 999,
                DownloadEvent::Responded(Err(_)) => true,
                _ => false,
            },
            Stage::Opening => match e {
                DownloadEvent::FileCreated(_) => true,
                _ => false,
            },
            Stage::Streaming => match e {
                DownloadEvent::ChunkWritten(n) => {
                    if *n > u64::MAX - self.total_bytes {
                        false
                    } else if self.content_length > 0 {
                        self.total_bytes + *n <= u64::MAX / 100
                    } else {
                        true
                    }
                },
                DownloadEvent::ChunkFailed(_) => true,
                DownloadEvent::BodyDone => true,
                _ => false,
            },
            Stage::Measuring => match e {
                DownloadEvent::SizeRead(_) => true,
                _ => false,
            },
            Stage::Done => false,
        }
    }

    fn finish_refused(
        &mut self,
        file_path: Option<String>,
        message: String,
        file_size: Option<u64>,
        content_type: Option<String>,
    ) -> (r: DownloadStep)
        ensures
            refused_with(
                old(self)@,
                final(self)@,
                r,
                opt_text(file_path),
                message@,
                file_size,
                opt_text(content_type),
            ),
    {
        self.stage = Stage::Done;
        let id = copy_opt(&self.id);
        DownloadStep::Finish(
            Ok(failed_result(message, file_path, String::new(), file_size, content_type, id)),
        )
    }

    fn finish_failed(&mut self, message: String) -> (r: DownloadStep)
        ensures
            failed_with(old(self)@, final(self)@, r, message@),
    {
        self.stage = Stage::Done;
        DownloadStep::Finish(Err(message))
    }

    /// Takes in what happened after the last step and says what to do next.
    pub fn step(&mut self, e: DownloadEvent) -> (r: DownloadStep)
        requires
            awaits(old(self)@, e),
        ensures
            follows(old(self)@, e, final(self)@, r),
    {
        match e {
            DownloadEvent::Probed(answer) => {
                let info = get_remote_file_info(self.url.as_str(), &answer);
                let name = file_name_from_url(self.url_name.as_str(), &info);
                proof {
                    match answer {
                        Ok(h) => if success_status(h.status) {
                            match info {
                                Ok(i) => {
                                    assert(opt_text(i.content_type) == opt_text(h.content_type));
                                },
                                Err(_) => {},
                            }
                        },
                        Err(_) => {},
                    }
                }
                self.place(name)
            },
            DownloadEvent::PathChosen { path, file_name } => {
                let p = path.clone();
                self.path = path;
                self.file_name = file_name;
                self.stage = Stage::Checking;
                DownloadStep::CheckExists { path: p }
            },
            DownloadEvent::PathCancelled => {
                self.finish_refused(None, text_of("已取消保存"), None, None)
            },
            DownloadEvent::Exists(exists) => {
                if exists && !self.overwrite {
                    let message = joined("文件已存在: ", self.path.as_str());
                    let p = self.path.clone();
                    self.finish_refused(Some(p), message, None, None)
                } else {
                    self.stage = Stage::Preparing;
                    DownloadStep::CreateParentDirs { path: self.path.clone() }
                }
            },
            DownloadEvent::DirsCreated(Err(err)) => {
                self.finish_refused(None, joined("创建目录失败: ", err.as_str()), None, None)
            },
            DownloadEvent::DirsCreated(Ok(())) => {
                self.stage = Stage::Fetching;
                DownloadStep::Fetch { url: self.url.clone() }
            },
            DownloadEvent::Responded(Err(err)) => {
                self.finish_failed(joined("下载请求失败: ", err.as_str()))
            },
            DownloadEvent::Responded(Ok(head)) => {
                let length = content_length_of(&head);
                if !is_success_status(head.status) {
                    let line = status_line(head.status);
                    let message = joined("下载失败: HTTP状态码为 ", line.as_str());
                    self.finish_refused(None, message, None, None)
                } else if length > self.max_size {
                    let a = decimal_text(length / 1024);
                    let b = decimal_text(self.max_size / 1024);
                    let mut message = joined("文件过大 (", a.as_str());
                    message.append(" > ");
                    message.append(b.as_str());
                    message.append(" KB)");
                    self.finish_refused(None, message, Some(length), head.content_type)
                } else {
                    self.stage = Stage::Opening;
                    self.content_length = length;
                    self.content_type = head.content_type;
                    DownloadStep::CreateFile { path: self.path.clone() }
                }
            },
            DownloadEvent::FileCreated(Err(err)) => {
                self.finish_refused(None, joined("创建文件失败: ", err.as_str()), None, None)
            },
            DownloadEvent::FileCreated(Ok(())) => {
                self.stage = Stage::Streaming;
                DownloadStep::Announce(
                    FileInfoEvent {
                        file_name: Some(self.file_name.clone()),
                        file_size: Some(self.content_length),
                        content_type: copy_opt(&self.content_type),
                        id: copy_opt(&self.id),
                        success: text_of("start"),
                        message: text_of("文件下载开始"),
                    },
                )
            },
            DownloadEvent::ChunkWritten(n) => {
                self.total_bytes = self.total_bytes + n;
                if self.content_length > 0 {
                    let percent = (self.total_bytes * 100) / self.content_length;
                    let done = percent >= 100;
                    DownloadStep::Report(
                        BatchDownloadProgress {
                            current_index: 1,
                            total_files: 1,
                            url: self.url.clone(),
                            total_bytes: self.total_bytes,
                            content_length: self.content_length,
                            percent,
                            file_path: self.path.clone(),
                            file_name: self.file_name.clone(),
                            file_size: Some(self.content_length),
                            id: copy_opt(&self.id),
                            success: if done {
                                text_of("success")
                            } else {
                                text_of("start")
                            },
                            message: if done {
                                text_of("文件下载成功")
                            } else {
                                text_of("文件下载中...")
                            },
                        },
                    )
                } else {
                    DownloadStep::Continue
                }
            },
            DownloadEvent::ChunkFailed(ChunkError::Read(err)) => {
                self.finish_refused(None, joined("读取数据块失败: ", err.as_str()), None, None)
            },
            DownloadEvent::ChunkFailed(ChunkError::Write(err)) => {
                self.finish_refused(None, joined("写入文件失败: ", err.as_str()), None, None)
            },
            DownloadEvent::BodyDone => {
                self.stage = Stage::Measuring;
                DownloadStep::ReadFileSize { path: self.path.clone() }
            },
            DownloadEvent::SizeRead(Err(err)) => {
                self.finish_failed(joined("获取文件元数据失败: ", err.as_str()))
            },
            // a download never waits for this event (see `awaits`)
            DownloadEvent::DataWritten(_) => DownloadStep::Continue,
            DownloadEvent::SizeRead(Ok(size)) => {
                self.stage = Stage::Done;
                DownloadStep::Finish(
                    Ok(
                        DownloadFileResult {
                            success: text_of("success"),
                            file_path: Some(self.path.clone()),
                            file_name: self.file_name.clone(),
                            message: text_of("文件下载成功"),
                            file_size: Some(size),
                            content_type: copy_opt(&self.content_type),
                            id: copy_opt(&self.id),
                        },
                    ),
                )
            },
        }
    }
}

} // verus!
