use bsr::config::Environment;
use bsr::file_path::FilePath;
use bsr::recording_file::{
    chosen_place, clean_folder_input, default_save_folder, folder_from, normalize_folder_input,
    paths_are_same_file, pick_outcome, recording_is_empty, uri_to_path, BoxWalk, DialogReply,
    WalkStep,
};
use bsr::ui_settings::UiSettings;
use std::path::PathBuf;

const HOME: &str = "/home/someone";

fn env() -> Environment {
    Environment {
        home: Some(HOME.to_string()),
        user_profile: None,
        temp: None,
        temp_dir: "/tmp".to_string(),
    }
}

fn path(s: &str) -> FilePath {
    FilePath::from_text(s)
}

fn text(p: FilePath) -> String {
    p.to_text().unwrap()
}

fn normalize(raw: &str) -> Option<PathBuf> {
    normalize_folder_input(raw, &Some(HOME.to_string())).map(|p| PathBuf::from(text(p)))
}

/// A file with an `mdat` of the given payload length.
fn mp4_skeleton(mdat_payload: usize) -> Vec<u8> {
    let mut b = Vec::new();
    b.extend_from_slice(&32u32.to_be_bytes());
    b.extend_from_slice(b"ftyp");
    b.extend_from_slice(b"isomiso2avc1mp41");
    b.extend_from_slice(&[0u8; 8]);
    b.extend_from_slice(&8u32.to_be_bytes());
    b.extend_from_slice(b"free");
    b.extend_from_slice(&((8 + mdat_payload) as u32).to_be_bytes());
    b.extend_from_slice(b"mdat");
    b.extend_from_slice(&vec![0xABu8; mdat_payload]);
    b.extend_from_slice(&16u32.to_be_bytes());
    b.extend_from_slice(b"moov");
    b.extend_from_slice(&[0u8; 8]);
    b
}

#[test]
fn an_empty_recording_is_identified() {
    let file = mp4_skeleton(0);
    assert_eq!(file.len(), 64);
    assert!(recording_is_empty(&file), "an mdat with no payload is an empty recording");
}

#[test]
fn a_recording_with_video_data_is_not_flagged() {
    assert!(
        !recording_is_empty(&mp4_skeleton(200_000)),
        "a recording with real payload must never be reported as empty"
    );
}

/// What cannot be positively identified as empty is left alone.
#[test]
fn unreadable_or_unparseable_files_are_not_flagged() {
    assert!(!BoxWalk::new().at_end(None), "nothing is known of a file that cannot be read");
    assert!(!recording_is_empty(&vec![0x42u8; 500_000]));
}

#[test]
fn a_small_file_without_samples_is_empty() {
    assert!(recording_is_empty(&Vec::new()));
    assert!(recording_is_empty(&vec![0u8; 1023]));
    assert!(!recording_is_empty(&vec![0u8; 1024]));
    let mut walk = BoxWalk::new();
    assert_eq!(walk.on_header(&[0, 0, 0, 8, b'm', b'd', b'a', b't']), WalkStep::ReadNext);
    assert_eq!((walk.offset, walk.saw_empty, walk.saw_payload), (8, true, false));
    assert_eq!(walk.on_header(&[0, 0, 0, 7, b'm', b'o', b'o', b'v']), WalkStep::Finished);
    assert!(walk.at_end(Some(5000)) && walk.at_end(None));
    let mut walk = BoxWalk::new();
    assert_eq!(walk.on_header(&[0, 0, 1, 0, b'm', b'd', b'a', b't']), WalkStep::ReadNext);
    assert_eq!((walk.offset, walk.saw_payload, walk.at_end(Some(10))), (256, true, false));
    assert!(!recording_is_empty(&[&[0, 0, 0, 1][..], b"mdat"].concat()), "a size of another kind");
}

#[test]
fn one_payload_is_enough() {
    let payload = [0, 0, 0, 12, b'm', b'd', b'a', b't', 1, 2, 3, 4];
    let empty = [0, 0, 0, 8, b'm', b'd', b'a', b't'];
    assert!(!recording_is_empty(&[&payload[..], &empty].concat()));
    assert!(!recording_is_empty(&[&empty[..], &payload].concat()));
    assert!(recording_is_empty(&[&empty[..], &empty].concat()));
    assert!(recording_is_empty(&[&empty[..], &[0; 2000]].concat()), "however long the rest is");
}

#[test]
fn the_source_recording_is_recognised_as_the_same_file() {
    let src = "/d/recording.mp4";
    let real = Some(path(src));
    let dir = Some(path("/d"));
    let same = |b: &str, b_real: &Option<FilePath>, b_dir: &Option<FilePath>| {
        paths_are_same_file(&path(src), &path(b), &real, b_real, b_dir)
    };
    assert!(same(src, &real, &dir), "identical paths");
    assert!(same("/d/./recording.mp4", &real, &dir), "a `.` detour is still the same file");
    assert!(
        same("/d/sub/../recording.mp4", &None, &dir),
        "a `..` detour through a real folder is still the same file"
    );
    assert!(!same("/d/copy.mp4", &None, &dir), "a genuinely different destination must be allowed");
    assert!(
        !same("/d/elsewhere/recording.mp4", &None, &None),
        "same name in another folder must be allowed"
    );
    assert!(paths_are_same_file(
        &path("/gone/a.mp4"),
        &path("/gone//a.mp4"),
        &None,
        &None,
        &None
    ));
    let broken = |last: u8| FilePath { bytes: vec![b'/', last] };
    assert!(
        !paths_are_same_file(&broken(0xfe), &broken(0xff), &None, &None, &None),
        "paths are told apart by their bytes"
    );
}

#[test]
fn a_symlink_to_the_source_is_recognised() {
    let real = Some(path("/d/recording.mp4"));
    let (src, link) = (path("/d/recording.mp4"), path("/d/link.mp4"));
    assert!(
        paths_are_same_file(&src, &link, &real, &real, &Some(path("/d"))),
        "a symlink to the source is the source"
    );
}

#[test]
fn the_default_save_folder_is_not_the_recording_folder() {
    let settings = UiSettings::default_in(&env());
    assert_eq!(default_save_folder(&env()), "/home/someone/Videos", "default destination is ~/Videos");
    assert_ne!(settings.output_folder, String::new());
    assert_ne!(settings.output_folder, default_save_folder(&env()));
    let bare = Environment { home: None, ..env() };
    assert_eq!(default_save_folder(&bare), "/tmp");
}

#[test]
fn pasted_folder_paths_are_understood() {
    let home = PathBuf::from(HOME);

    assert_eq!(normalize("~/Videos"), Some(home.join("Videos")));
    assert_eq!(normalize("~"), Some(home.clone()));
    assert_eq!(normalize("$HOME/Videos"), Some(home.join("Videos")));

    assert_eq!(normalize("  /tmp  "), Some(PathBuf::from("/tmp")));
    assert_eq!(normalize("/tmp\n"), Some(PathBuf::from("/tmp")));
    assert_eq!(normalize("\"/tmp\""), Some(PathBuf::from("/tmp")));

    assert_eq!(normalize("file:///tmp"), Some(PathBuf::from("/tmp")));
    assert_eq!(normalize("file:///tmp/My%20Folder"), Some(PathBuf::from("/tmp/My Folder")));

    assert_eq!(normalize("/var/tmp"), Some(PathBuf::from("/var/tmp")));
    assert_eq!(normalize("   "), None);
    assert_eq!(normalize(""), None);
}

#[test]
fn a_tilde_folder_produces_a_real_destination() {
    let dir = normalize("~/Videos").unwrap();
    let dst = dir.join("take.mp4");
    assert_eq!(dst, PathBuf::from(HOME).join("Videos").join("take.mp4"));
    assert!(!dst.to_string_lossy().contains('~'), "no literal tilde may survive");
}

#[test]
fn without_a_home_directory_a_tilde_stays() {
    assert_eq!(normalize_folder_input("~/Videos", &None), Some(path("~/Videos")));
    assert_eq!(normalize_folder_input("'/a b'", &None), Some(path("/a b")));
}

#[test]
fn a_dialog_answers_with_a_local_file() {
    assert_eq!(uri_to_path("file:///a%20b/c.mp4"), Some(path("/a b/c.mp4")));
    assert_eq!(uri_to_path("https://example.org/c.mp4"), None);
    let chosen = |uris: &[&str]| {
        pick_outcome(&DialogReply::Chosen(uris.iter().map(|u| u.to_string()).collect()))
    };
    assert_eq!(chosen(&[]), Ok(None));
    assert_eq!(chosen(&["file:///x/y.mp4", "file:///z"]), Ok(Some(path("/x/y.mp4"))));
    assert_eq!(
        chosen(&["ftp://h/y"]),
        Err("the dialog returned ftp://h/y, which is not a local file".to_string())
    );
    assert_eq!(
        pick_outcome(&DialogReply::Refused("no".into())),
        Err("save dialog was dismissed or refused: no".to_string())
    );
    assert_eq!(
        pick_outcome(&DialogReply::NotOpened("no portal".into())),
        Err("could not open the save dialog: no portal".to_string())
    );
}

#[test]
fn a_path_keeps_bytes_that_are_no_text() {
    let bytes = b"/a/\xffb/c.mp4".to_vec();
    let p = uri_to_path("file:///a/%FFb/c.mp4").unwrap();
    assert_eq!(p.bytes, bytes);
    assert_eq!(p.to_text(), None);
    assert_eq!(p.display(), "/a/\u{fffd}b/c.mp4");
    assert_eq!(p.parent().unwrap().bytes, b"/a/\xffb");
    assert_eq!(p.file_name_text().as_deref(), Some("c.mp4"));
    assert_eq!(uri_to_path("file:///a/%FF").unwrap().file_name_text(), None);
    let folder = normalize_folder_input("file:///a/%FFb", &None).unwrap();
    assert_eq!(folder.join(&path("c.mp4")).bytes, bytes);
    assert_eq!(path("/é").bytes, [b'/', 0xc3, 0xa9]);
    assert_eq!(path("/é/ü/x").parent(), Some(path("/é/ü")));
    assert_eq!(path("/é/ü").file_name(), Some(path("ü")));
    assert!(path("/é//x").same_as(&path("/é/./x")) && !path("/é").same_as(&path("/ê")));
}

#[test]
fn a_folder_is_cleaned_and_then_understood() {
    assert_eq!(clean_folder_input(" ' /a b ' \n"), "/a b");
    let home = Some(HOME.to_string());
    let from = |t: &str, url: Option<&str>| folder_from(t, url.map(path), &home).map(text);
    assert_eq!(from("file:///x", Some("/x")).as_deref(), Some("/x"));
    assert_eq!(from("file://~/x", None).as_deref(), Some("/home/someone/x"));
    assert_eq!(from("file://file://", None), None);
    assert_eq!(from("/y", Some("/x")).as_deref(), Some("/y"), "only a URL is read as one");
    assert_eq!(from("$HOME", None).as_deref(), Some("/home/someone/"));
    assert_eq!(from("", None), None);
    assert_eq!(chosen_place("u", Some(path("/p"))), Ok(Some(path("/p"))));
    assert_eq!(
        chosen_place("u", None),
        Err("the dialog returned u, which is not a local file".to_string())
    );
}
