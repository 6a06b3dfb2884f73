//! File-name extensions for the content types that downloads report.

use vstd::prelude::*;
use vstd::string::*;
use crate::text::same_text;

verus! {

/// The extension, dot included, that a file of content type `ct` is saved
/// with; `.bin` for a type outside the table.
pub open spec fn extension_for(ct: Seq<char>) -> Seq<char> {
    if ct == "application/pdf"@ {
        ".pdf"@
    } else if ct == "image/jpeg"@ {
        ".jpg"@
    } else if ct == "image/jpg"@ {
        ".jpg"@
    } else if ct == "image/png"@ {
        ".png"@
    } else if ct == "image/gif"@ {
        ".gif"@
    } else if ct == "image/webp"@ {
        ".webp"@
    } else if ct == "application/zip"@ {
        ".zip"@
    } else if ct == "application/x-rar-compressed"@ {
        ".rar"@
    } else if ct == "application/x-7z-compressed"@ {
        ".7z"@
    } else if ct == "application/x-tar"@ {
        ".tar"@
    } else if ct == "application/gzip"@ {
        ".gz"@
    } else if ct == "application/x-bzip2"@ {
        ".bz2"@
    } else if ct == "text/plain"@ {
        ".txt"@
    } else if ct == "text/html"@ {
        ".html"@
    } else if ct == "text/css"@ {
        ".css"@
    } else if ct == "text/javascript"@ {
        ".js"@
    } else if ct == "application/json"@ {
        ".json"@
    } else if ct == "application/xml"@ {
        ".xml"@
    } else if ct == "video/mp4"@ {
        ".mp4"@
    } else if ct == "video/mpeg"@ {
        ".mpeg"@
    } else if ct == "video/quicktime"@ {
        ".mov"@
    } else if ct == "video/x-msvideo"@ {
        ".avi"@
    } else if ct == "audio/mpeg"@ {
        ".mp3"@
    } else if ct == "audio/wav"@ {
        ".wav"@
    } else if ct == "audio/ogg"@ {
        ".ogg"@
    } else if ct == "application/msword"@ {
        ".doc"@
    } else if ct == "application/vnd.openxmlformats-officedocument.wordprocessingml.document"@ {
        ".docx"@
    } else if ct == "application/vnd.ms-excel"@ {
        ".xls"@
    } else if ct == "application/vnd.openxmlformats-officedocument.spreadsheetml.sheet"@ {
        ".xlsx"@
    } else if ct == "application/vnd.ms-powerpoint"@ {
        ".ppt"@
    } else if ct == "application/vnd.openxmlformats-officedocument.presentationml.presentation"@ {
        ".pptx"@
    } else if ct == "application/epub+zip"@ {
        ".epub"@
    } else {
        ".bin"@
    }
}

/// The extension, dot included, for the content type a server reported.
pub fn get_extension_from_content_type(content_type: &str) -> (r: String)
    ensures
        r@ == extension_for(content_type@),
{
    let ext: &str = if same_text(content_type, "application/pdf") {
        ".pdf"
    } else if same_text(content_type, "image/jpeg") {
        ".jpg"
    } else if same_text(content_type, "image/jpg") {
        ".jpg"
    } else if same_text(content_type, "image/png") {
        ".png"
    } else if same_text(content_type, "image/gif") {
        ".gif"
    } else if same_text(content_type, "image/webp") {
        ".webp"
    } else if same_text(content_type, "application/zip") {
        ".zip"
    } else if same_text(content_type, "application/x-rar-compressed") {
        ".rar"
    } else if same_text(content_type, "application/x-7z-compressed") {
        ".7z"
    } else if same_text(content_type, "application/x-tar") {
        ".tar"
    } else if same_text(content_type, "application/gzip") {
        ".gz"
    } else if same_text(content_type, "application/x-bzip2") {
        ".bz2"
    } else if same_text(content_type, "text/plain") {
        ".txt"
    } else if same_text(content_type, "text/html") {
        ".html"
    } else if same_text(content_type, "text/css") {
        ".css"
    } else if same_text(content_type, "text/javascript") {
        ".js"
    } else if same_text(content_type, "application/json") {
        ".json"
    } else if same_text(content_type, "application/xml") {
        ".xml"
    } else if same_text(content_type, "video/mp4") {
        ".mp4"
    } else if same_text(content_type, "video/mpeg") {
        ".mpeg"
    } else if same_text(content_type, "video/quicktime") {
        ".mov"
    } else if same_text(content_type, "video/x-msvideo") {
        ".avi"
    } else if same_text(content_type, "audio/mpeg") {
        ".mp3"
    } else if same_text(content_type, "audio/wav") {
        ".wav"
    } else if same_text(content_type, "audio/ogg") {
        ".ogg"
    } else if same_text(content_type, "application/msword") {
        ".doc"
    } else if same_text(content_type, "application/vnd.openxmlformats-officedocument.wordprocessingml.document") {
        ".docx"
    } else if same_text(content_type, "application/vnd.ms-excel") {
        ".xls"
    } else if same_text(content_type, "application/vnd.openxmlformats-officedocument.spreadsheetml.sheet") {
        ".xlsx"
    } else if same_text(content_type, "application/vnd.ms-powerpoint") {
        ".ppt"
    } else if same_text(content_type, "application/vnd.openxmlformats-officedocument.presentationml.presentation") {
        ".pptx"
    } else if same_text(content_type, "application/epub+zip") {
        ".epub"
    } else {
        ".bin"
    };
    String::from_str(ext)
}

} // verus!
