use client_core::blob::{BlobSession, BlobStage};
use client_core::download::{
    assign_batch_id, batch_item_result, batch_start_progress, file_name_from_url,
    get_remote_file_info, needs_extension, save_dialog_filters, save_file_result, url_file_name,
    DownloadFileOptions, DownloadFileResult, DownloadZipOptions, FileFilter, FileInfo,
    ResponseHead, SaveOutcome,
};
use client_core::session::{
    ChunkError, DownloadEvent, DownloadSession, DownloadStep, Stage, DEFAULT_MAX_SIZE,
};

fn options(url: &str) -> DownloadFileOptions {
    DownloadFileOptions {
        url: url.to_string(),
        file_name: None,
        save_dir: None,
        overwrite: None,
        id: Some("d1".to_string()),
        max_size: None,
    }
}

fn head(status: u16, length: Option<&str>, ct: Option<&str>) -> ResponseHead {
    ResponseHead {
        status,
        content_length: length.map(|s| s.to_string()),
        content_type: ct.map(|s| s.to_string()),
    }
}

fn step(s: &mut DownloadSession, e: DownloadEvent) -> DownloadStep {
    assert!(s.awaits_event(&e));
    s.step(e)
}

fn finished(st: DownloadStep) -> Result<DownloadFileResult, String> {
    match st {
        DownloadStep::Finish(r) => r,
        other => panic!("not finished: {:?}", other),
    }
}

/// Runs a download with a given name and directory up to the response.
fn fetched(o: DownloadFileOptions) -> DownloadSession {
    let (mut s, st) = DownloadSession::start(o);
    assert!(matches!(st, DownloadStep::JoinPath { .. }));
    let st = step(&mut s, DownloadEvent::PathChosen {
        path: "/d/f.zip".to_string(),
        file_name: "f.zip".to_string(),
    });
    assert!(matches!(st, DownloadStep::CheckExists { ref path } if path == "/d/f.zip"));
    let st = step(&mut s, DownloadEvent::Exists(false));
    assert!(matches!(st, DownloadStep::CreateParentDirs { .. }));
    let st = step(&mut s, DownloadEvent::DirsCreated(Ok(())));
    assert!(matches!(st, DownloadStep::Fetch { ref url } if url == "https://h/f.zip"));
    s
}

fn named(max_size: Option<u64>) -> DownloadFileOptions {
    DownloadFileOptions {
        file_name: Some("f.zip".to_string()),
        save_dir: Some("/d".to_string()),
        max_size,
        ..options("https://h/f.zip")
    }
}

#[test]
fn url_names() {
    assert_eq!(url_file_name("https://h/a/b/file.zip"), "file.zip");
    assert_eq!(url_file_name("https://h/"), "");
    assert_eq!(url_file_name("plain"), "plain");
    assert!(needs_extension("report"));
    assert!(!needs_extension("report.pdf"));
}

#[test]
fn remote_file_info() {
    let info = get_remote_file_info("https://h/x/data", &Ok(head(200, Some("2048"), Some("image/png")))).unwrap();
    assert_eq!(info.file_name, "data");
    assert_eq!(info.file_size, 2048);
    assert_eq!(info.content_type.as_deref(), Some("image/png"));
    assert!(info.is_downloadable);
    let info = get_remote_file_info("https://h/x/data", &Ok(head(204, Some("lots"), None))).unwrap();
    assert_eq!(info.file_size, 0);
    assert_eq!(info.content_type, None);
    assert_eq!(
        get_remote_file_info("u", &Ok(head(404, None, None))).err().unwrap(),
        "HTTP状态码 404 Not Found"
    );
    assert_eq!(
        get_remote_file_info("u", &Err("timeout".to_string())).err().unwrap(),
        "获取文件信息失败: timeout"
    );
}

#[test]
fn names_from_urls() {
    let png = Ok(FileInfo {
        file_name: "x".to_string(),
        file_size: 0,
        content_type: Some("image/png".to_string()),
        is_downloadable: true,
    });
    let none = Ok(FileInfo { content_type: None, ..png.clone().unwrap() });
    assert_eq!(file_name_from_url("x", &png), "x.png");
    assert_eq!(file_name_from_url("x", &none), "x.bin");
    assert_eq!(file_name_from_url("x", &Err("no".to_string())), "x.bin");
    assert_eq!(file_name_from_url("x.tar", &png), "x.tar");
}

#[test]
fn download_probes_for_an_extension() {
    let (mut s, st) = DownloadSession::start(options("https://h/files/report"));
    assert_eq!(s.stage(), Stage::Naming);
    assert!(matches!(st, DownloadStep::ProbeContentType { ref url } if url == "https://h/files/report"));
    let st = step(&mut s, DownloadEvent::Probed(Ok(head(200, None, Some("application/pdf")))));
    match st {
        DownloadStep::ChooseSavePath { suggested_name } => assert_eq!(suggested_name, "report.pdf"),
        other => panic!("unexpected {:?}", other),
    }
}

#[test]
fn download_with_failed_probe_gets_bin() {
    let o = DownloadFileOptions { save_dir: Some("/tmp/dl".to_string()), ..options("https://h/report") };
    let (mut s, _) = DownloadSession::start(o);
    match step(&mut s, DownloadEvent::Probed(Ok(head(500, None, Some("text/plain"))))) {
        DownloadStep::JoinPath { dir, file_name } => {
            assert_eq!(dir, "/tmp/dl");
            assert_eq!(file_name, "report.bin");
        }
        other => panic!("unexpected {:?}", other),
    }
}

#[test]
fn download_name_with_extension_needs_no_probe() {
    let (s, st) = DownloadSession::start(options("https://h/a.zip"));
    assert_eq!(s.stage(), Stage::Placing);
    assert!(matches!(st, DownloadStep::ChooseSavePath { ref suggested_name } if suggested_name == "a.zip"));
}

#[test]
fn download_cancelled() {
    let (mut s, _) = DownloadSession::start(options("https://h/a.zip"));
    let r = finished(step(&mut s, DownloadEvent::PathCancelled)).unwrap();
    assert_eq!(r.success, "error");
    assert_eq!(r.message, "已取消保存");
    assert_eq!(r.file_path, None);
    assert_eq!(r.id.as_deref(), Some("d1"));
    assert_eq!(s.stage(), Stage::Done);
    assert!(!s.awaits_event(&DownloadEvent::BodyDone));
}

#[test]
fn download_refuses_existing_file() {
    let (mut s, _) = DownloadSession::start(named(None));
    step(&mut s, DownloadEvent::PathChosen { path: "/d/f.zip".to_string(), file_name: "f.zip".to_string() });
    let r = finished(step(&mut s, DownloadEvent::Exists(true))).unwrap();
    assert_eq!(r.success, "error");
    assert_eq!(r.message, "文件已存在: /d/f.zip");
    assert_eq!(r.file_path.as_deref(), Some("/d/f.zip"));
    assert_eq!(r.file_name, "");
}

#[test]
fn download_overwrites_when_asked() {
    let o = DownloadFileOptions { overwrite: Some(true), ..named(None) };
    let (mut s, _) = DownloadSession::start(o);
    step(&mut s, DownloadEvent::PathChosen { path: "/d/f.zip".to_string(), file_name: "f.zip".to_string() });
    assert!(matches!(step(&mut s, DownloadEvent::Exists(true)), DownloadStep::CreateParentDirs { .. }));
}

#[test]
fn download_directory_failure() {
    let (mut s, _) = DownloadSession::start(named(None));
    step(&mut s, DownloadEvent::PathChosen { path: "/d/f.zip".to_string(), file_name: "f.zip".to_string() });
    step(&mut s, DownloadEvent::Exists(false));
    let r = finished(step(&mut s, DownloadEvent::DirsCreated(Err("denied".to_string())))).unwrap();
    assert_eq!(r.success, "error");
    assert_eq!(r.message, "创建目录失败: denied");
    assert_eq!(r.file_path, None);
    assert_eq!(r.id.as_deref(), Some("d1"));
}

#[test]
fn download_request_failures() {
    let mut s = fetched(named(None));
    let e = finished(step(&mut s, DownloadEvent::Responded(Err("refused".to_string())))).unwrap_err();
    assert_eq!(e, "下载请求失败: refused");
    let mut s = fetched(named(None));
    let r = finished(step(&mut s, DownloadEvent::Responded(Ok(head(503, None, None))))).unwrap();
    assert_eq!(r.message, "下载失败: HTTP状态码为 503 Service Unavailable");
    assert_eq!(r.success, "error");
}

#[test]
fn download_too_large() {
    let mut s = fetched(named(Some(102400)));
    let r = finished(step(&mut s, DownloadEvent::Responded(Ok(head(200, Some("204800"), Some("application/zip")))))).unwrap();
    assert_eq!(r.message, "文件过大 (200 > 100 KB)");
    assert_eq!(r.file_size, Some(204800));
    assert_eq!(r.content_type.as_deref(), Some("application/zip"));
}

#[test]
fn download_default_limit() {
    assert_eq!(DEFAULT_MAX_SIZE, 100 * 1024 * 1024);
    let mut s = fetched(named(None));
    let r = finished(step(&mut s, DownloadEvent::Responded(Ok(head(200, Some("104857601"), None))))).unwrap();
    assert_eq!(r.message, "文件过大 (102400 > 102400 KB)");
    let mut s = fetched(named(None));
    let st = step(&mut s, DownloadEvent::Responded(Ok(head(200, Some("104857600"), None))));
    assert!(matches!(st, DownloadStep::CreateFile { .. }));
}

#[test]
fn download_streams_with_progress() {
    let mut s = fetched(named(None));
    let st = step(&mut s, DownloadEvent::Responded(Ok(head(200, Some("200"), Some("application/zip")))));
    assert!(matches!(st, DownloadStep::CreateFile { ref path } if path == "/d/f.zip"));
    match step(&mut s, DownloadEvent::FileCreated(Ok(()))) {
        DownloadStep::Announce(a) => {
            assert_eq!(a.file_name.as_deref(), Some("f.zip"));
            assert_eq!(a.file_size, Some(200));
            assert_eq!(a.success, "start");
            assert_eq!(a.message, "文件下载开始");
        }
        other => panic!("unexpected {:?}", other),
    }
    match step(&mut s, DownloadEvent::ChunkWritten(150)) {
        DownloadStep::Report(p) => {
            assert_eq!(p.percent, 75);
            assert_eq!(p.total_bytes, 150);
            assert_eq!(p.success, "start");
            assert_eq!(p.message, "文件下载中...");
            assert_eq!(p.current_index, 1);
            assert_eq!(p.file_path, "/d/f.zip");
        }
        other => panic!("unexpected {:?}", other),
    }
    match step(&mut s, DownloadEvent::ChunkWritten(50)) {
        DownloadStep::Report(p) => {
            assert_eq!(p.percent, 100);
            assert_eq!(p.success, "success");
            assert_eq!(p.message, "文件下载成功");
        }
        other => panic!("unexpected {:?}", other),
    }
    assert!(matches!(step(&mut s, DownloadEvent::BodyDone), DownloadStep::ReadFileSize { .. }));
    let r = finished(step(&mut s, DownloadEvent::SizeRead(Ok(200)))).unwrap();
    assert_eq!(r.success, "success");
    assert_eq!(r.message, "文件下载成功");
    assert_eq!(r.file_name, "f.zip");
    assert_eq!(r.file_path.as_deref(), Some("/d/f.zip"));
    assert_eq!(r.file_size, Some(200));
    assert_eq!(r.content_type.as_deref(), Some("application/zip"));
    assert_eq!(r.id.as_deref(), Some("d1"));
}

#[test]
fn download_without_length_reports_no_progress() {
    let mut s = fetched(named(None));
    step(&mut s, DownloadEvent::Responded(Ok(head(200, None, None))));
    step(&mut s, DownloadEvent::FileCreated(Ok(())));
    assert!(matches!(step(&mut s, DownloadEvent::ChunkWritten(10)), DownloadStep::Continue));
}

#[test]
fn download_write_failures() {
    let mut s = fetched(named(None));
    step(&mut s, DownloadEvent::Responded(Ok(head(200, None, None))));
    let r = finished(step(&mut s, DownloadEvent::FileCreated(Err("ro".to_string())))).unwrap();
    assert_eq!((r.success.as_str(), r.message.as_str()), ("error", "创建文件失败: ro"));
    assert_eq!(r.id.as_deref(), Some("d1"));
    let mut s = fetched(named(None));
    step(&mut s, DownloadEvent::Responded(Ok(head(200, None, None))));
    step(&mut s, DownloadEvent::FileCreated(Ok(())));
    let r = finished(step(&mut s, DownloadEvent::ChunkFailed(ChunkError::Read("reset".to_string())))).unwrap();
    assert_eq!((r.success.as_str(), r.message.as_str()), ("error", "读取数据块失败: reset"));
    assert_eq!(r.id.as_deref(), Some("d1"));
    let mut s = fetched(named(None));
    step(&mut s, DownloadEvent::Responded(Ok(head(200, None, None))));
    step(&mut s, DownloadEvent::FileCreated(Ok(())));
    let r = finished(step(&mut s, DownloadEvent::ChunkFailed(ChunkError::Write("full".to_string())))).unwrap();
    assert_eq!((r.success.as_str(), r.message.as_str()), ("error", "写入文件失败: full"));
    assert_eq!(r.id.as_deref(), Some("d1"));
    let mut s = fetched(named(None));
    step(&mut s, DownloadEvent::Responded(Ok(head(200, None, None))));
    step(&mut s, DownloadEvent::FileCreated(Ok(())));
    step(&mut s, DownloadEvent::BodyDone);
    let e = finished(step(&mut s, DownloadEvent::SizeRead(Err("gone".to_string())))).unwrap_err();
    assert_eq!(e, "获取文件元数据失败: gone");
}

#[test]
fn session_refuses_unexpected_events() {
    let (s, _) = DownloadSession::start(named(None));
    assert!(!s.awaits_event(&DownloadEvent::BodyDone));
    assert!(s.awaits_event(&DownloadEvent::PathCancelled));
    let (s, _) = DownloadSession::start(options("https://h/report"));
    assert!(!s.awaits_event(&DownloadEvent::Probed(Ok(head(42, None, None)))));
}

fn blob_options(save_dir: Option<&str>) -> DownloadZipOptions {
    DownloadZipOptions {
        file_name: "pack.zip".to_string(),
        save_dir: save_dir.map(|s| s.to_string()),
        overwrite: None,
        id: Some("b7".to_string()),
    }
}

#[test]
fn blob_saved() {
    let (mut s, st) = BlobSession::start(blob_options(Some("/out")), Some("application/zip".to_string()), 3);
    match st {
        DownloadStep::JoinPath { dir, file_name } => {
            assert_eq!(dir, "/out");
            assert_eq!(file_name, "pack.zip");
        }
        other => panic!("unexpected {:?}", other),
    }
    let e = DownloadEvent::PathChosen { path: "/out/pack.zip".to_string(), file_name: "pack.zip".to_string() };
    assert!(s.awaits_event(&e));
    s.step(e);
    s.step(DownloadEvent::Exists(false));
    assert!(matches!(s.step(DownloadEvent::DirsCreated(Ok(()))), DownloadStep::WriteData { .. }));
    let r = finished(s.step(DownloadEvent::DataWritten(Ok(())))).unwrap();
    assert_eq!(r.success, "success");
    assert_eq!(r.file_size, Some(3));
    assert_eq!(r.file_name, "pack.zip");
    assert_eq!(r.content_type.as_deref(), Some("application/zip"));
    assert_eq!(r.id.as_deref(), Some("b7"));
    assert_eq!(s.stage(), BlobStage::Done);
}

#[test]
fn blob_refusals() {
    let (mut s, st) = BlobSession::start(blob_options(None), None, 3);
    assert!(matches!(st, DownloadStep::ChooseSavePath { ref suggested_name } if suggested_name == "pack.zip"));
    let r = finished(s.step(DownloadEvent::PathCancelled)).unwrap();
    assert_eq!(r.message, "用户取消了保存");
    let (mut s, _) = BlobSession::start(blob_options(None), None, 3);
    s.step(DownloadEvent::PathChosen { path: "/x/pack.zip".to_string(), file_name: "pack.zip".to_string() });
    let r = finished(s.step(DownloadEvent::Exists(true))).unwrap();
    assert_eq!(r.message, "文件已存在: /x/pack.zip");
    assert_eq!(r.file_name, "pack.zip");
    let (mut s, _) = BlobSession::start(blob_options(None), None, 3);
    s.step(DownloadEvent::PathChosen { path: "/x/pack.zip".to_string(), file_name: "pack.zip".to_string() });
    s.step(DownloadEvent::Exists(false));
    s.step(DownloadEvent::DirsCreated(Ok(())));
    let r = finished(s.step(DownloadEvent::DataWritten(Err("full".to_string())))).unwrap();
    assert_eq!((r.success.as_str(), r.message.as_str()), ("error", "写入文件失败: full"));
    assert_eq!(r.id.as_deref(), Some("b7"));
    let (mut s, _) = BlobSession::start(blob_options(None), None, 3);
    s.step(DownloadEvent::PathChosen { path: "/x/pack.zip".to_string(), file_name: "pack.zip".to_string() });
    s.step(DownloadEvent::Exists(false));
    let r = finished(s.step(DownloadEvent::DirsCreated(Err("denied".to_string())))).unwrap();
    assert_eq!((r.success.as_str(), r.message.as_str()), ("error", "创建目录失败: denied"));
}

#[test]
fn save_dialog() {
    let f = save_dialog_filters(None);
    assert_eq!(f.len(), 2);
    assert_eq!(f[0].name, "文本文件");
    assert_eq!(f[0].extensions, vec!["txt", "md", "json"]);
    assert_eq!(f[1].name, "所有文件");
    assert_eq!(f[1].extensions, vec!["*"]);
    let given = vec![FileFilter { name: "Images".to_string(), extensions: vec!["png".to_string()] }];
    assert_eq!(save_dialog_filters(Some(given))[0].name, "Images");
    let r = save_file_result(SaveOutcome::Saved { path: "/a.txt".to_string() });
    assert_eq!((r.success.as_str(), r.file_path.as_deref(), r.message.as_str()), ("success", Some("/a.txt"), "文件保存成功"));
    let r = save_file_result(SaveOutcome::Cancelled);
    assert_eq!((r.success.as_str(), r.file_path, r.message.as_str()), ("error", None, "用户取消了保存"));
    let r = save_file_result(SaveOutcome::Failed("denied".to_string()));
    assert_eq!((r.success.as_str(), r.message.as_str()), ("error", "保存失败: denied"));
}

#[test]
fn batch_helpers() {
    let o = DownloadFileOptions { id: None, ..options("https://h/a.zip") };
    assert_eq!(assign_batch_id(o, 2, 1700000000000).id.as_deref(), Some("batch_2_1700000000000"));
    assert_eq!(assign_batch_id(options("u"), 2, 5).id.as_deref(), Some("d1"));
    let p = batch_start_progress(0, 3, "https://h/a.zip", &None);
    assert_eq!((p.current_index, p.total_files, p.percent), (1, 3, 0));
    assert_eq!(p.success, "start");
    assert_eq!(p.message, "文件开始下载");
    let r = batch_item_result(Err("boom".to_string()));
    assert_eq!((r.success.as_str(), r.message.as_str(), r.id), ("error", "boom", None));
}
