use asset_import::action::{Action, Event, ImportError};
use asset_import::catalog::CatalogJob;
use asset_import::import::ImportJob;
use std::collections::HashSet;

struct Fs {
    paths: HashSet<String>,
    log: Vec<String>,
    fail_create: Option<String>,
    fail_copy: Option<String>,
}

impl Fs {
    fn with(paths: &[&str]) -> Fs {
        Fs {
            paths: paths.iter().map(|p| p.to_string()).collect(),
            log: Vec::new(),
            fail_create: None,
            fail_copy: None,
        }
    }

    fn perform(&mut self, action: &Action) -> Event {
        match action {
            Action::CheckExists(p) => {
                self.log.push(format!("exists {}", p));
                Event::Exists(self.paths.contains(p))
            }
            Action::CreateDirAll(p) => {
                self.log.push(format!("mkdir {}", p));
                if let Some(e) = &self.fail_create {
                    return Event::Failed(e.clone());
                }
                self.paths.insert(p.clone());
                Event::Done
            }
            Action::CopyFile(from, to) => {
                self.log.push(format!("copy {} {}", from, to));
                if let Some(e) = &self.fail_copy {
                    return Event::Failed(e.clone());
                }
                self.paths.insert(to.clone());
                Event::Done
            }
            Action::WriteFile(p, content) => {
                self.log.push(format!("write {} {}", p, content));
                if let Some(e) = &self.fail_copy {
                    return Event::Failed(e.clone());
                }
                self.paths.insert(p.clone());
                Event::Done
            }
            Action::Finish(_) => panic!("nothing to perform"),
        }
    }

    fn mutations(&self) -> usize {
        self.log.iter().filter(|l| !l.starts_with("exists ")).count()
    }
}

fn run_import(mut job: ImportJob, fs: &mut Fs) -> Result<String, ImportError> {
    let mut action = job.pending();
    for _ in 0..20 {
        if let Action::Finish(r) = action {
            return r;
        }
        let event = fs.perform(&action);
        action = job.step(event);
    }
    panic!("import did not finish");
}

fn run_catalog(mut job: CatalogJob, fs: &mut Fs) -> Result<String, ImportError> {
    let mut action = job.pending();
    for _ in 0..20 {
        if let Action::Finish(r) = action {
            return r;
        }
        let event = fs.perform(&action);
        action = job.step(event);
    }
    panic!("catalog write did not finish");
}

fn video(source: &str, id: &str) -> ImportJob {
    ImportJob::video(source.to_string(), id.to_string())
}

fn image(source: &str, id: &str) -> ImportJob {
    ImportJob::image(source.to_string(), id.to_string())
}

#[test]
fn missing_source_is_reported_without_touching_files() {
    let mut fs = Fs::with(&["../public/assets"]);
    let r = run_import(video("/tmp/none.mp4", "g1"), &mut fs);
    let e = r.unwrap_err();
    assert!(e.is_source_missing());
    assert_eq!(e.message(), "Source file does not exist");
    assert_eq!(fs.log, vec!["exists /tmp/none.mp4".to_string()]);
    assert_eq!(fs.mutations(), 0);
}

#[test]
fn missing_image_source_is_reported_without_touching_files() {
    let mut fs = Fs::with(&["public/assets"]);
    let r = run_import(image("/tmp/none.png", "g1"), &mut fs);
    assert!(r.unwrap_err().is_source_missing());
    assert_eq!(fs.mutations(), 0);
}

#[test]
fn video_lands_under_first_root_with_assets() {
    let mut fs = Fs::with(&["/src/clip.mov", "../public/assets"]);
    let r = run_import(video("/src/clip.mov", "g1"), &mut fs);
    assert_eq!(r.unwrap(), "/assets/games/g1/video.mp4");
    assert!(fs.paths.contains("../public/assets/games/g1/video.mp4"));
    assert!(fs.log.contains(&"mkdir ../public/assets/games/g1".to_string()));
}

#[test]
fn video_from_project_root() {
    let mut fs = Fs::with(&["/src/clip.mp4", "public/assets"]);
    let r = run_import(video("/src/clip.mp4", "zelda"), &mut fs);
    assert_eq!(r.unwrap(), "/assets/games/zelda/video.mp4");
    assert!(fs.paths.contains("public/assets/games/zelda/video.mp4"));
}

#[test]
fn video_never_probes_build_directory_root() {
    let mut fs = Fs::with(&["/src/clip.mp4", "../../public/assets"]);
    let r = run_import(video("/src/clip.mp4", "g2"), &mut fs);
    assert_eq!(r.unwrap(), "/assets/games/g2/video.mp4");
    assert!(fs.paths.contains("public/assets/games/g2/video.mp4"));
    assert!(!fs.log.contains(&"exists ../../public/assets".to_string()));
}

#[test]
fn video_without_assets_directory_goes_to_project_root() {
    let mut fs = Fs::with(&["/src/clip.mp4"]);
    let r = run_import(video("/src/clip.mp4", "g3"), &mut fs);
    assert_eq!(r.unwrap(), "/assets/games/g3/video.mp4");
    assert!(fs.paths.contains("public/assets/games/g3/video.mp4"));
    assert_eq!(
        fs.log,
        vec![
            "exists /src/clip.mp4",
            "exists ../public/assets",
            "exists public/assets/games/g3",
            "mkdir public/assets/games/g3",
            "copy /src/clip.mp4 public/assets/games/g3/video.mp4",
        ]
    );
}

#[test]
fn image_from_build_directory() {
    let mut fs = Fs::with(&["/src/box.png", "../../public/assets"]);
    let r = run_import(image("/src/box.png", "g2"), &mut fs);
    assert_eq!(r.unwrap(), "/assets/games/g2/cover.png");
    assert!(fs.paths.contains("../../public/assets/games/g2/cover.png"));
}

#[test]
fn image_without_assets_directory_falls_back_to_first_root() {
    let mut fs = Fs::with(&["/src/box.png"]);
    let r = run_import(image("/src/box.png", "g3"), &mut fs);
    assert_eq!(r.unwrap(), "/assets/games/g3/cover.png");
    assert_eq!(
        fs.log,
        vec![
            "exists /src/box.png",
            "exists ../public/assets",
            "exists public/assets",
            "exists ../../public/assets",
            "exists ../public/assets/games/g3",
            "mkdir ../public/assets/games/g3",
            "copy /src/box.png ../public/assets/games/g3/cover.png",
        ]
    );
}

#[test]
fn image_with_leading_dot_name_becomes_jpg() {
    let mut fs = Fs::with(&["dir/.png", "public/assets"]);
    let r = run_import(image("dir/.png", "g1"), &mut fs);
    assert_eq!(r.unwrap(), "/assets/games/g1/cover.jpg");
}

#[test]
fn image_with_trailing_dot_has_empty_extension() {
    let mut fs = Fs::with(&["dir/box.", "public/assets"]);
    let r = run_import(image("dir/box.", "g1"), &mut fs);
    assert_eq!(r.unwrap(), "/assets/games/g1/cover.");
}

#[test]
fn image_keeps_its_extension() {
    let mut fs = Fs::with(&["shots/box.PNG", "public/assets"]);
    let r = run_import(image("shots/box.PNG", "g1"), &mut fs);
    assert_eq!(r.unwrap(), "/assets/games/g1/cover.PNG");
    assert!(fs.paths.contains("public/assets/games/g1/cover.PNG"));
}

#[test]
fn image_takes_only_last_extension() {
    let mut fs = Fs::with(&["a/b.tar.webp", "public/assets"]);
    let r = run_import(image("a/b.tar.webp", "g1"), &mut fs);
    assert_eq!(r.unwrap(), "/assets/games/g1/cover.webp");
}

#[test]
fn image_without_extension_becomes_jpg() {
    let mut fs = Fs::with(&["shots/box", "public/assets"]);
    let r = run_import(image("shots/box", "g1"), &mut fs);
    assert_eq!(r.unwrap(), "/assets/games/g1/cover.jpg");
}

#[test]
fn cover_with_given_extension() {
    let job = ImportJob::cover("x".to_string(), "g".to_string(), Some("gif".to_string()));
    assert_eq!(job.file_name, "cover.gif");
    let job = ImportJob::cover("x".to_string(), "g".to_string(), None);
    assert_eq!(job.file_name, "cover.jpg");
}

#[test]
fn reimport_overwrites_same_file() {
    let mut fs = Fs::with(&["/src/clip.mp4", "public/assets"]);
    let first = run_import(video("/src/clip.mp4", "g1"), &mut fs).unwrap();
    let copies_before = fs.log.iter().filter(|l| l.starts_with("copy ")).count();
    let second = run_import(video("/src/clip.mp4", "g1"), &mut fs).unwrap();
    assert_eq!(first, second);
    let copies: Vec<&String> = fs.log.iter().filter(|l| l.starts_with("copy ")).collect();
    assert_eq!(copies.len(), copies_before + 1);
    assert_eq!(copies[0], copies[1]);
}

#[test]
fn directory_creation_happens_once() {
    let mut fs = Fs::with(&["/src/clip.mp4"]);
    run_import(video("/src/clip.mp4", "g1"), &mut fs).unwrap();
    run_import(video("/src/clip.mp4", "g1"), &mut fs).unwrap();
    run_import(video("/src/clip.mp4", "g1"), &mut fs).unwrap();
    let mkdirs = fs.log.iter().filter(|l| l.starts_with("mkdir ")).count();
    assert_eq!(mkdirs, 1);
}

#[test]
fn cover_directory_creation_happens_once() {
    let mut fs = Fs::with(&["/src/box.png", "public/assets"]);
    run_import(video("/src/box.png", "g1"), &mut fs).unwrap();
    run_import(image("/src/box.png", "g1"), &mut fs).unwrap();
    run_import(image("/src/box.png", "g1"), &mut fs).unwrap();
    let mkdirs = fs.log.iter().filter(|l| l.starts_with("mkdir ")).count();
    assert_eq!(mkdirs, 1);
}

#[test]
fn failed_directory_creation_is_reported() {
    let mut fs = Fs::with(&["/src/clip.mp4", "public/assets"]);
    fs.fail_create = Some("permission denied".to_string());
    let e = run_import(video("/src/clip.mp4", "g1"), &mut fs).unwrap_err();
    assert!(!e.is_source_missing());
    assert_eq!(
        e.message(),
        "Failed to create directory public/assets/games/g1: permission denied"
    );
    assert!(!fs.log.iter().any(|l| l.starts_with("copy ")));
}

#[test]
fn failed_copy_is_reported() {
    let mut fs = Fs::with(&["/src/clip.mp4", "public/assets", "public/assets/games/g1"]);
    fs.fail_copy = Some("disk full".to_string());
    let e = run_import(video("/src/clip.mp4", "g1"), &mut fs).unwrap_err();
    assert_eq!(
        e.message(),
        "Failed to copy /src/clip.mp4 to public/assets/games/g1/video.mp4: disk full"
    );
}

#[test]
fn finished_job_ignores_further_events() {
    let mut job = video("/none", "g1");
    let a = job.step(Event::Exists(false));
    assert!(matches!(a, Action::Finish(Err(ImportError::SourceMissing))));
    let a = job.step(Event::Done);
    assert!(matches!(a, Action::Finish(Err(ImportError::SourceMissing))));
    assert!(job.well_formed());
}

#[test]
fn unexpected_event_repeats_request() {
    let mut job = video("/src/a.mp4", "g1");
    let a = job.step(Event::Done);
    match a {
        Action::CheckExists(p) => assert_eq!(p, "/src/a.mp4"),
        _ => panic!("expected the source probe again"),
    }
}

#[test]
fn catalog_prefers_parent_directory() {
    let mut fs = Fs::with(&["../public/games.json", "public/games.json"]);
    let r = run_catalog(CatalogJob::new("[]".to_string()), &mut fs);
    assert_eq!(r.unwrap(), "../public/games.json");
    assert_eq!(fs.log.last().unwrap(), "write ../public/games.json []");
}

#[test]
fn catalog_in_project_root() {
    let mut fs = Fs::with(&["public/games.json"]);
    let r = run_catalog(CatalogJob::new("[]".to_string()), &mut fs);
    assert_eq!(r.unwrap(), "public/games.json");
}

#[test]
fn catalog_from_build_directory() {
    let mut fs = Fs::with(&["../../public/games.json"]);
    let r = run_catalog(CatalogJob::new("[]".to_string()), &mut fs);
    assert_eq!(r.unwrap(), "../../public/games.json");
}

#[test]
fn catalog_defaults_to_project_root() {
    let mut fs = Fs::with(&[]);
    let r = run_catalog(CatalogJob::new("[]".to_string()), &mut fs);
    assert_eq!(r.unwrap(), "public/games.json");
    assert_eq!(
        fs.log,
        vec![
            "exists ../public/games.json",
            "exists public/games.json",
            "exists ../../public/games.json",
            "write public/games.json []",
        ]
    );
}

#[test]
fn catalog_write_failure_is_reported() {
    let mut fs = Fs::with(&["public/games.json"]);
    fs.fail_copy = Some("read-only file system".to_string());
    let e = run_catalog(CatalogJob::new("[]".to_string()), &mut fs).unwrap_err();
    assert_eq!(
        e.message(),
        "Failed to write games.json to \"public/games.json\": read-only file system"
    );
}

#[test]
fn catalog_rewrite_succeeds() {
    let mut fs = Fs::with(&[]);
    let a = run_catalog(CatalogJob::new("[]".to_string()), &mut fs).unwrap();
    let b = run_catalog(CatalogJob::new("not json {".to_string()), &mut fs).unwrap();
    assert_eq!(a, b);
    assert_eq!(fs.log.last().unwrap(), "write public/games.json not json {");
}

#[test]
fn catalog_write_carries_content_verbatim() {
    let mut job = CatalogJob::new("{\"games\": []}\n".to_string());
    let a = job.step(Event::Exists(true));
    match a {
        Action::WriteFile(p, content) => {
            assert_eq!(p, "../public/games.json");
            assert_eq!(content, "{\"games\": []}\n");
        }
        _ => panic!("expected a write"),
    }
}
