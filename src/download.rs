//! The values that downloads exchange with the front end, and the rules
//! that name a downloaded file and describe a response.

use vstd::prelude::*;
use vstd::string::*;
use crate::content_type::{extension_for, get_extension_from_content_type};
use crate::http::{is_success_status, parse_u64, parsed_u64, status_line, status_line_of, success_status};
use crate::text::{
    copy_opt, decimal, decimal_text, has_char, joined, lemma_split_from_nonempty, opt_text,
    split_seq, split_text, text_of, texts,
};

verus! {

/// A file that the front end asks to download.
#[derive(Debug, Clone)]
pub struct DownloadFileOptions {
    pub url: String,
    /// The name to save under; taken from the URL when absent.
    pub file_name: Option<String>,
    /// The directory to save in; the user picks a place when absent.
    pub save_dir: Option<String>,
    /// Whether an existing file may be replaced (not by default).
    pub overwrite: Option<bool>,
    /// Identifies the download in a batch.
    pub id: Option<String>,
    /// The largest size accepted, in bytes.
    pub max_size: Option<u64>,
}

/// Data from the front end to be saved as a file.
#[derive(Debug, Clone)]
pub struct DownloadZipOptions {
    pub file_name: String,
    pub save_dir: Option<String>,
    pub overwrite: Option<bool>,
    pub id: Option<String>,
}

/// How a download ended; `success` is `"success"` or `"error"`.
#[derive(Debug, Clone)]
pub struct DownloadFileResult {
    pub success: String,
    pub file_path: Option<String>,
    pub file_name: String,
    pub message: String,
    pub file_size: Option<u64>,
    pub content_type: Option<String>,
    pub id: Option<String>,
}

/// What a server says of a remote file.
#[derive(Debug, Clone)]
pub struct FileInfo {
    pub file_name: String,
    pub file_size: u64,
    pub content_type: Option<String>,
    pub is_downloadable: bool,
}

/// Announces a download whose body is about to be written.
#[derive(Debug, Clone)]
pub struct FileInfoEvent {
    pub file_name: Option<String>,
    pub file_size: Option<u64>,
    pub content_type: Option<String>,
    pub id: Option<String>,
    pub success: String,
    pub message: String,
}

/// Progress of a download, sent as its body arrives.
#[derive(Debug, Clone)]
pub struct BatchDownloadProgress {
    /// Which file of the batch, counted from 1.
    pub current_index: usize,
    pub total_files: usize,
    pub url: String,
    /// Bytes written so far.
    pub total_bytes: u64,
    /// The size the server declared.
    pub content_length: u64,
    /// Whole percent done.
    pub percent: u64,
    pub file_path: String,
    pub file_name: String,
    pub file_size: Option<u64>,
    pub id: Option<String>,
    pub success: String,
    pub message: String,
}

/// The head of an HTTP response: its status code and the text of its
/// `Content-Length` and `Content-Type` headers, where they are readable.
#[derive(Debug, Clone)]
pub struct ResponseHead {
    pub status: u16,
    pub content_length: Option<String>,
    pub content_type: Option<String>,
}

impl ResponseHead {
    /// A status code as HTTP defines them, from 100 to 999.
    pub open spec fn valid(&self) -> bool {
        100 <= self.status <= 999
    }
}

/// The declared size of a response: its `Content-Length` when that reads as
/// a number, else 0.
pub open spec fn declared_length(head: ResponseHead) -> u64 {
    match head.content_length {
        Some(t) => match parsed_u64(t@) {
            Some(n) => n,
            None => 0,
        },
        None => 0,
    }
}

pub(crate) fn content_length_of(head: &ResponseHead) -> (r: u64)
    ensures
        r == declared_length(*head),
{
    match &head.content_length {
        Some(t) => match parse_u64(t.as_str()) {
            Some(n) => n,
            None => 0,
        },
        None => 0,
    }
}

/// The last piece of a URL's path: what follows its last `/`.
pub open spec fn url_last_segment(url: Seq<char>) -> Seq<char> {
    split_seq(url, "/"@).last()
}

/// The last piece of a URL's path: what follows its last `/`.
pub fn url_file_name(url: &str) -> (r: String)
    ensures
        r@ == url_last_segment(url@),
{
    let slash = "/";
    proof {
        reveal_strlit("/");
        lemma_split_from_nonempty(url@, slash@, 0, 0);
    }
    let pieces = split_text(url, slash);
    let n = pieces.len();
    assert(texts(pieces@)[n - 1] == pieces@[n - 1]@);
    pieces[n - 1].clone()
}

/// What a successful `HEAD` response says of the file at `url`.
pub open spec fn info_matches(info: FileInfo, url: Seq<char>, head: ResponseHead) -> bool {
    &&& info.file_name@ == url_last_segment(url)
    &&& info.file_size == declared_length(head)
    &&& opt_text(info.content_type) == opt_text(head.content_type)
    &&& info.is_downloadable
}

/// Describes the file at `url` from the answer to a `HEAD` request: the
/// request's own error, or the response's head.
pub fn get_remote_file_info(url: &str, response: &Result<ResponseHead, String>) -> (r: Result<
    FileInfo,
    String,
>)
    requires
        response matches Ok(head) ==> head.valid(),
    ensures
        match response {
            Err(e) => r matches Err(m) && m@ == "获取文件信息失败: "@ + e@,
            Ok(head) => if success_status(head.status) {
                r matches Ok(info) && info_matches(info, url@, *head)
            } else {
                r matches Err(m) && m@ == "HTTP状态码 "@ + status_line_of(head.status)
            },
        },
{
    match response {
        Err(e) => Err(joined("获取文件信息失败: ", e.as_str())),
        Ok(head) => {
            if !is_success_status(head.status) {
                let line = status_line(head.status);
                return Err(joined("HTTP状态码 ", line.as_str()));
            }
            Ok(
                FileInfo {
                    file_name: url_file_name(url),
                    file_size: content_length_of(head),
                    content_type: copy_opt(&head.content_type),
                    is_downloadable: true,
                },
            )
        },
    }
}

/// The name a download gets from its URL when none is given: the URL's last
/// piece, with an extension found from the content type when it has none.
pub open spec fn name_from_url(url_name: Seq<char>, probe: Result<FileInfo, String>) -> Seq<char> {
    if url_name.contains('.') {
        url_name
    } else {
        match probe {
            Ok(info) => match info.content_type {
                Some(ct) => url_name + extension_for(ct@),
                None => url_name + ".bin"@,
            },
            Err(_) => url_name + ".bin"@,
        }
    }
}

/// Whether a name from a URL needs an extension, found by asking the server.
pub fn needs_extension(url_name: &str) -> (r: bool)
    ensures
        r == !url_name@.contains('.'),
{
    !has_char(url_name, '.')
}

/// The name for a download taken from its URL's last piece `url_name`,
/// given what asking the server for the file's details gave (used only when
/// the piece has no extension).
pub fn file_name_from_url(url_name: &str, probe: &Result<FileInfo, String>) -> (r: String)
    ensures
        r@ == name_from_url(url_name@, *probe),
{
    if !needs_extension(url_name) {
        return text_of(url_name);
    }
    match probe {
        Ok(info) => match &info.content_type {
            Some(ct) => {
                let ext = get_extension_from_content_type(ct.as_str());
                joined(url_name, ext.as_str())
            },
            None => joined(url_name, ".bin"),
        },
        Err(_) => joined(url_name, ".bin"),
    }
}

/// A result with the given fields.
pub open spec fn result_is(
    r: DownloadFileResult,
    success: Seq<char>,
    file_path: Option<Seq<char>>,
    file_name: Seq<char>,
    message: Seq<char>,
    file_size: Option<u64>,
    content_type: Option<Seq<char>>,
    id: Option<Seq<char>>,
) -> bool {
    &&& r.success@ == success
    &&& opt_text(r.file_path) == file_path
    &&& r.file_name@ == file_name
    &&& r.message@ == message
    &&& r.file_size == file_size
    &&& opt_text(r.content_type) == content_type
    &&& opt_text(r.id) == id
}

/// A result that reports failure with `message`.
pub fn failed_result(
    message: String,
    file_path: Option<String>,
    file_name: String,
    file_size: Option<u64>,
    content_type: Option<String>,
    id: Option<String>,
) -> (r: DownloadFileResult)
    ensures
        result_is(
            r,
            "error"@,
            opt_text(file_path),
            file_name@,
            message@,
            file_size,
            opt_text(content_type),
            opt_text(id),
        ),
{
    DownloadFileResult {
        success: text_of("error"),
        file_path,
        file_name,
        message,
        file_size,
        content_type,
        id,
    }
}

/// Text that the front end asks to save where the user picks.
#[derive(Debug, Clone)]
pub struct SaveFileOptions {
    pub default_name: Option<String>,
    pub content: String,
    pub filters: Option<Vec<FileFilter>>,
}

/// A choice of file types in a save dialog.
#[derive(Debug, Clone)]
pub struct FileFilter {
    pub name: String,
    pub extensions: Vec<String>,
}

/// How saving through the dialog ended.
#[derive(Debug, Clone)]
pub struct SaveFileResult {
    pub success: String,
    pub file_path: Option<String>,
    pub message: String,
}

/// A filter's name and extensions.
pub open spec fn filter_is(f: FileFilter, name: Seq<char>, extensions: Seq<Seq<char>>) -> bool {
    f.name@ == name && texts(f.extensions@) == extensions
}

fn filter_of(name: &str, extensions: Vec<String>) -> (r: FileFilter)
    ensures
        r.name@ == name@,
        r.extensions@ == extensions@,
{
    FileFilter { name: text_of(name), extensions }
}

/// The filters a save dialog offers: those given, else text files then all
/// files.
pub fn save_dialog_filters(filters: Option<Vec<FileFilter>>) -> (r: Vec<FileFilter>)
    ensures
        match filters {
            Some(v) => r@ == v@,
            None => r@.len() == 2 && filter_is(
                r@[0],
                "文本文件"@,
                seq!["txt"@, "md"@, "json"@],
            ) && filter_is(r@[1], "所有文件"@, seq!["*"@]),
        },
{
    match filters {
        Some(v) => v,
        None => {
            let text_files = filter_of(
                "文本文件",
                vec![text_of("txt"), text_of("md"), text_of("json")],
            );
            let all_files = filter_of("所有文件", vec![text_of("*")]);
            let r = vec![text_files, all_files];
            assert(texts(r@[0].extensions@) =~= seq!["txt"@, "md"@, "json"@]);
            assert(texts(r@[1].extensions@) =~= seq!["*"@]);
            r
        },
    }
}

/// How the save dialog and the write that followed it went.
#[derive(Debug, Clone)]
pub enum SaveOutcome {
    /// The user closed the dialog without picking a path.
    Cancelled,
    /// The text was written at `path`.
    Saved { path: String },
    /// Writing failed for this reason.
    Failed(String),
}

/// The result reported for a save through the dialog: `success` is
/// `"success"` when the text was written and `"error"` otherwise.
pub fn save_file_result(outcome: SaveOutcome) -> (r: SaveFileResult)
    ensures
        match outcome {
            SaveOutcome::Cancelled => r.success@ == "error"@ && r.file_path is None && r.message@
                == "用户取消了保存"@,
            SaveOutcome::Saved { path } => r.success@ == "success"@ && opt_text(r.file_path) == Some(
                path@,
            ) && r.message@ == "文件保存成功"@,
            SaveOutcome::Failed(err) => r.success@ == "error"@ && r.file_path is None && r.message@
                == "保存失败: "@ + err@,
        },
{
    match outcome {
        SaveOutcome::Cancelled => SaveFileResult {
            success: text_of("error"),
            file_path: None,
            message: text_of("用户取消了保存"),
        },
        SaveOutcome::Saved { path } => SaveFileResult {
            success: text_of("success"),
            file_path: Some(path),
            message: text_of("文件保存成功"),
        },
        SaveOutcome::Failed(err) => SaveFileResult {
            success: text_of("error"),
            file_path: None,
            message: joined("保存失败: ", err.as_str()),
        },
    }
}

/// The identifier a batch gives its `index`-th download (counted from 0)
/// that has none, at `timestamp_ms` milliseconds since the epoch.
pub open spec fn batch_id(index: nat, timestamp_ms: nat) -> Seq<char> {
    "batch_"@ + decimal(index) + "_"@ + decimal(timestamp_ms)
}

/// Gives the `index`-th download of a batch an identifier if it has none:
/// `batch_<index>_<timestamp_ms>`. The other options stay as they are.
pub fn assign_batch_id(options: DownloadFileOptions, index: usize, timestamp_ms: u64) -> (r:
    DownloadFileOptions)
    ensures
        r.url@ == options.url@,
        opt_text(r.file_name) == opt_text(options.file_name),
        opt_text(r.save_dir) == opt_text(options.save_dir),
        r.overwrite == options.overwrite,
        r.max_size == options.max_size,
        opt_text(r.id) == match options.id {
            Some(i) => Some(i@),
            None => Some(batch_id(index as nat, timestamp_ms as nat)),
        },
{
    match options.id {
        Some(_) => options,
        None => {
            let i = decimal_text(index as u64);
            let t = decimal_text(timestamp_ms);
            let mut id = joined("batch_", i.as_str());
            id.append("_");
            id.append(t.as_str());
            DownloadFileOptions { id: Some(id), ..options }
        },
    }
}

/// The event that announces the start of the `index`-th download (counted
/// from 0) of a batch of `total_files`.
pub fn batch_start_progress(index: usize, total_files: usize, url: &str, id: &Option<String>) -> (r:
    BatchDownloadProgress)
    requires
        index < usize::MAX,
    ensures
        r.current_index == index + 1,
        r.total_files == total_files,
        r.url@ == url@,
        r.total_bytes == 0,
        r.content_length == 0,
        r.percent == 0,
        r.file_path@ == Seq::<char>::empty(),
        r.file_name@ == Seq::<char>::empty(),
        r.file_size is None,
        opt_text(r.id) == opt_text(*id),
        r.success@ == "start"@,
        r.message@ == "文件开始下载"@,
{
    BatchDownloadProgress {
        current_index: index + 1,
        total_files,
        url: text_of(url),
        total_bytes: 0,
        content_length: 0,
        percent: 0,
        file_path: String::new(),
        file_name: String::new(),
        file_size: None,
        id: copy_opt(id),
        success: text_of("start"),
        message: text_of("文件开始下载"),
    }
}

/// The result a batch records for one download: the download's own result,
/// or, where it failed outright, a failure carrying its message.
pub fn batch_item_result(outcome: Result<DownloadFileResult, String>) -> (r: DownloadFileResult)
    ensures
        match outcome {
            Ok(res) => r == res,
            Err(m) => result_is(r, "error"@, None, Seq::empty(), m@, None, None, None),
        },
{
    match outcome {
        Ok(res) => res,
        Err(m) => failed_result(m, None, String::new(), None, None, None),
    }
}

} // verus!
