use minify::inputs::{classify, select_inputs, InputFile};
use minify::media::{EncodeError, MediaType, Platform};

fn paths(list: &[&str]) -> Vec<String> {
    list.iter().map(|s| s.to_string()).collect()
}

#[test]
fn a_path_is_classified_by_its_extension() {
    assert_eq!(classify(Platform::Unix, "/v/clip.MP4"), Ok(Some(MediaType::Video)));
    assert_eq!(classify(Platform::Unix, "song.flac"), Ok(Some(MediaType::Audio)));
    assert_eq!(classify(Platform::Unix, "photo.jpeg"), Ok(Some(MediaType::Image)));
    assert_eq!(classify(Platform::Unix, "anim.gif"), Ok(Some(MediaType::AnimatedImage)));
    assert_eq!(classify(Platform::Unix, "notes.txt"), Ok(None));
    assert_eq!(classify(Platform::Unix, "clip.mp4.bak"), Ok(None));
    assert_eq!(classify(Platform::Unix, "clip."), Ok(None));
    assert_eq!(classify(Platform::Windows, "C:\\a.b\\clip.mkv"), Ok(Some(MediaType::Video)));
}

#[test]
fn a_path_without_extension_is_malformed() {
    assert_eq!(classify(Platform::Unix, "clip"), Err(EncodeError::MalformedPath));
    assert_eq!(classify(Platform::Unix, "a.mp4/clip"), Err(EncodeError::MalformedPath));
    assert_eq!(classify(Platform::Unix, ""), Err(EncodeError::MalformedPath));
    assert_eq!(classify(Platform::Unix, "videos/"), Err(EncodeError::MalformedPath));
    assert_eq!(classify(Platform::Unix, ".mp4"), Err(EncodeError::MalformedPath));
}

#[test]
fn an_unrecognized_file_is_skipped_and_those_behind_it_are_kept() {
    let chosen = select_inputs(
        Platform::Unix,
        &paths(&["a.mp4", "notes.txt", "b.mp3", "c.doc", "d.png", "e.gif"]),
    );
    assert_eq!(
        chosen,
        Ok(vec![
            InputFile { index: 0, media_type: MediaType::Video },
            InputFile { index: 2, media_type: MediaType::Audio },
            InputFile { index: 4, media_type: MediaType::Image },
            InputFile { index: 5, media_type: MediaType::AnimatedImage },
        ])
    );
}

#[test]
fn a_first_file_that_is_skipped_takes_none_along() {
    assert_eq!(
        select_inputs(Platform::Unix, &paths(&["notes.txt", "b.mp3"])),
        Ok(vec![InputFile { index: 1, media_type: MediaType::Audio }])
    );
}

#[test]
fn no_file_or_none_recognized_gives_no_job() {
    assert_eq!(select_inputs(Platform::Unix, &paths(&[])), Ok(vec![]));
    assert_eq!(select_inputs(Platform::Unix, &paths(&["a.txt", "b.doc"])), Ok(vec![]));
}

#[test]
fn a_file_without_extension_fails_the_choice() {
    assert_eq!(
        select_inputs(Platform::Unix, &paths(&["a.mp4", "folder", "b.mp3"])),
        Err(EncodeError::MalformedPath)
    );
    assert_eq!(
        select_inputs(Platform::Unix, &paths(&["notes.txt", "b.mp3", "folder/"])),
        Err(EncodeError::MalformedPath)
    );
}
