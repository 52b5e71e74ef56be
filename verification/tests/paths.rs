use minify::media::Platform;
use minify::paths::{
    extension, file_name, find_name_start, find_stem_len, prefix_and_replace_extension,
    push_chars, replace_extension, strip_extension,
};
use minify::text::{chars_of, string_of};

fn name(platform: Platform, path: &str) -> Option<String> {
    file_name(platform, &chars_of(path)).map(|n| string_of(&n))
}

fn ext(platform: Platform, path: &str) -> Option<String> {
    extension(platform, &chars_of(path)).map(|n| string_of(&n))
}

fn stripped(path: &str) -> String {
    string_of(&strip_extension(Platform::Unix, &chars_of(path)))
}

fn replaced(path: &str, ext: &str) -> String {
    string_of(&replace_extension(Platform::Unix, &chars_of(path), &chars_of(ext)))
}

fn minified(platform: Platform, path: &str, ext: &str) -> String {
    string_of(&prefix_and_replace_extension(
        platform,
        &chars_of(path),
        &chars_of("minified_"),
        &chars_of(ext),
    ))
}

#[test]
fn the_name_starts_behind_the_last_separator() {
    assert_eq!(find_name_start(Platform::Unix, &chars_of("a/b/c.mp4")), 4);
    assert_eq!(find_name_start(Platform::Unix, &chars_of("c.mp4")), 0);
    assert_eq!(find_name_start(Platform::Unix, &chars_of("a/b/")), 4);
    assert_eq!(find_name_start(Platform::Unix, &chars_of("")), 0);
    assert_eq!(find_name_start(Platform::Unix, &chars_of("a\\b")), 0);
    assert_eq!(find_name_start(Platform::Windows, &chars_of("a\\b")), 2);
    assert_eq!(find_name_start(Platform::Windows, &chars_of("a\\b/c")), 4);
}

#[test]
fn the_file_name_is_the_last_component() {
    assert_eq!(name(Platform::Unix, "/videos/clip.mp4").as_deref(), Some("clip.mp4"));
    assert_eq!(name(Platform::Unix, "clip.mp4").as_deref(), Some("clip.mp4"));
    assert_eq!(name(Platform::Unix, "./a b/c").as_deref(), Some("c"));
    assert_eq!(name(Platform::Unix, "dir\\clip.mp4").as_deref(), Some("dir\\clip.mp4"));
    assert_eq!(name(Platform::Windows, "dir\\clip.mp4").as_deref(), Some("clip.mp4"));
    assert_eq!(name(Platform::Unix, ".hidden").as_deref(), Some(".hidden"));
    assert_eq!(name(Platform::Unix, "...").as_deref(), Some("..."));
}

#[test]
fn some_paths_have_no_file_name() {
    assert_eq!(name(Platform::Unix, ""), None);
    assert_eq!(name(Platform::Unix, "/"), None);
    assert_eq!(name(Platform::Unix, "videos/"), None);
    assert_eq!(name(Platform::Unix, "."), None);
    assert_eq!(name(Platform::Unix, ".."), None);
    assert_eq!(name(Platform::Unix, "videos/.."), None);
    assert_eq!(name(Platform::Unix, "videos/."), None);
    assert_eq!(name(Platform::Windows, "videos\\"), None);
}

#[test]
fn the_stem_ends_at_the_last_dot() {
    assert_eq!(find_stem_len(&chars_of("clip.mp4")), 4);
    assert_eq!(find_stem_len(&chars_of("clip.tar.gz")), 8);
    assert_eq!(find_stem_len(&chars_of("clip")), 4);
    assert_eq!(find_stem_len(&chars_of(".hidden")), 7);
    assert_eq!(find_stem_len(&chars_of(".hidden.mp4")), 7);
    assert_eq!(find_stem_len(&chars_of("clip.")), 4);
    assert_eq!(find_stem_len(&chars_of("")), 0);
}

#[test]
fn the_extension_follows_the_last_dot() {
    assert_eq!(ext(Platform::Unix, "/videos/clip.mp4").as_deref(), Some("mp4"));
    assert_eq!(ext(Platform::Unix, "clip.tar.GZ").as_deref(), Some("GZ"));
    assert_eq!(ext(Platform::Unix, "clip.").as_deref(), Some(""));
    assert_eq!(ext(Platform::Unix, ".hidden.mp4").as_deref(), Some("mp4"));
    assert_eq!(ext(Platform::Windows, "c.d\\clip.mkv").as_deref(), Some("mkv"));
}

#[test]
fn some_paths_have_no_extension() {
    assert_eq!(ext(Platform::Unix, "clip"), None);
    assert_eq!(ext(Platform::Unix, ".hidden"), None);
    assert_eq!(ext(Platform::Unix, "a.b/clip"), None);
    assert_eq!(ext(Platform::Unix, "a.b/"), None);
    assert_eq!(ext(Platform::Unix, ""), None);
    assert_eq!(ext(Platform::Unix, ".."), None);
    assert_eq!(ext(Platform::Windows, "a.b\\clip"), None);
}

#[test]
fn the_extension_is_taken_off() {
    assert_eq!(stripped("/videos/clip.mp4"), "/videos/clip");
    assert_eq!(stripped("clip.tar.gz"), "clip.tar");
    assert_eq!(stripped("clip"), "clip");
    assert_eq!(stripped("a.b/clip"), "a.b/clip");
    assert_eq!(stripped(".hidden"), ".hidden");
    assert_eq!(stripped("clip."), "clip");
}

#[test]
fn the_extension_is_replaced() {
    assert_eq!(replaced("/music/song.flac", "ogg"), "/music/song.ogg");
    assert_eq!(replaced("song", "ogg"), "song.ogg");
    assert_eq!(replaced("a.b/song.tar.gz", "ogg"), "a.b/song.tar.ogg");
    assert_eq!(replaced("photo.JPG", "webp"), "photo.webp");
    assert_eq!(replaced(".hidden", "webp"), ".hidden.webp");
}

#[test]
fn the_output_of_a_video_is_prefixed() {
    assert_eq!(minified(Platform::Unix, "/videos/clip.mp4", "webm"), "/videos/minified_clip.webm");
    assert_eq!(minified(Platform::Unix, "clip.mov", "mp4"), "minified_clip.mp4");
    assert_eq!(minified(Platform::Unix, "clip", "webm"), "minified_clip.webm");
    assert_eq!(minified(Platform::Unix, "a.b/c.d.mkv", "webm"), "a.b/minified_c.d.webm");
    assert_eq!(minified(Platform::Windows, "C:\\v\\clip.avi", "webm"), "C:\\v\\minified_clip.webm");
    assert_eq!(minified(Platform::Unix, "v\\clip.avi", "webm"), "minified_v\\clip.webm");
}

#[test]
fn characters_are_appended() {
    let mut out = chars_of("mini");
    push_chars(&mut out, &chars_of("fied_"));
    assert_eq!(string_of(&out), "minified_");
    push_chars(&mut out, &[]);
    assert_eq!(string_of(&out), "minified_");
}
