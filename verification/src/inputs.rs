//! The input files of a run: which of them are encoded, and as what.

use vstd::prelude::*;
use crate::media::{media_type_of, EncodeError, MediaType, Platform};
use crate::paths::{extension, extension_of};
use crate::text::{chars_of, texts};

verus! {

/// A file that is encoded: its place in the list of inputs, and its kind.
#[derive(PartialEq, Eq, Structural, Debug, Clone, Copy)]
pub struct InputFile {
    pub index: usize,
    pub media_type: MediaType,
}

/// The kind of the file at `path`, by its extension: an error for a path
/// without extension, `None` for an extension that is not recognized.
pub open spec fn path_media_type(platform: Platform, path: Seq<char>) -> Result<
    Option<MediaType>,
    EncodeError,
> {
    match extension_of(platform, path) {
        Some(ext) => Ok(media_type_of(ext)),
        None => Err(EncodeError::MalformedPath),
    }
}

/// Whether each of the first `upto` paths has an extension.
pub open spec fn all_have_extensions(platform: Platform, paths: Seq<Seq<char>>, upto: int) -> bool {
    forall|i: int| 0 <= i < upto ==> extension_of(platform, #[trigger] paths[i]) is Some
}

/// The files among the first `upto` paths that are encoded, in their order:
/// those with a recognized extension. The others are skipped.
pub open spec fn selected(platform: Platform, paths: Seq<Seq<char>>, upto: int) -> Seq<InputFile>
    decreases upto,
{
    if upto <= 0 {
        Seq::empty()
    } else {
        let before = selected(platform, paths, upto - 1);
        match path_media_type(platform, paths[upto - 1]) {
            Ok(Some(media_type)) => before.push(
                InputFile { index: (upto - 1) as usize, media_type },
            ),
            _ => before,
        }
    }
}

/// Computes `path_media_type`.
pub fn classify(platform: Platform, path: &str) -> (out: Result<Option<MediaType>, EncodeError>)
    ensures
        out == path_media_type(platform, path@),
{
    let letters = chars_of(path);
    match extension(platform, letters.as_slice()) {
        Some(ext) => Ok(MediaType::from_extension(ext.as_slice())),
        None => Err(EncodeError::MalformedPath),
    }
}

/// Chooses the files to encode. A file whose extension is not recognized is
/// skipped, and the files behind it are still looked at. A path without
/// extension fails the whole choice with `MalformedPath`.
pub fn select_inputs(platform: Platform, paths: &Vec<String>) -> (out: Result<
    Vec<InputFile>,
    EncodeError,
>)
    ensures
        match out {
            Ok(files) => all_have_extensions(platform, texts(paths@), paths.len() as int)
                && files@ == selected(platform, texts(paths@), paths.len() as int),
            Err(e) => e == EncodeError::MalformedPath && !all_have_extensions(
                platform,
                texts(paths@),
                paths.len() as int,
            ),
        },
{
    let mut files: Vec<InputFile> = Vec::new();
    let mut i: usize = 0;
    while i < paths.len()
        invariant
            i <= paths.len(),
            all_have_extensions(platform, texts(paths@), i as int),
            files@ == selected(platform, texts(paths@), i as int),
        decreases paths.len() - i,
    {
        assert(texts(paths@)[i as int] == paths@[i as int]@);
        match classify(platform, paths[i].as_str()) {
            Ok(Some(media_type)) => {
                files.push(InputFile { index: i, media_type });
            },
            Ok(None) => {},
            Err(e) => {
                return Err(e);
            },
        }
        i += 1;
    }
    Ok(files)
}

/// Every recognized file among the inputs is chosen once, with its kind and
/// in its order, and no other file is: one that is skipped takes no file
/// behind it along.
pub proof fn lemma_selection(platform: Platform, paths: Seq<Seq<char>>, upto: int)
    requires
        0 <= upto <= paths.len(),
        upto <= usize::MAX,
    ensures
        forall|k: int|
            0 <= k < selected(platform, paths, upto).len() ==> {
                let file = #[trigger] selected(platform, paths, upto)[k];
                &&& file.index < upto
                &&& path_media_type(platform, paths[file.index as int]) == Ok::<
                    Option<MediaType>,
                    EncodeError,
                >(Some(file.media_type))
            },
        forall|j: int, k: int|
            0 <= j < k < selected(platform, paths, upto).len() ==> (#[trigger] selected(
                platform,
                paths,
                upto,
            )[j]).index < (#[trigger] selected(platform, paths, upto)[k]).index,
        forall|i: int|
            0 <= i < upto && (path_media_type(platform, #[trigger] paths[i]) matches Ok(Some(_)))
                ==> exists|k: int|
                0 <= k < selected(platform, paths, upto).len() && (#[trigger] selected(
                    platform,
                    paths,
                    upto,
                )[k]).index == i,
    decreases upto,
{
    if upto > 0 {
        lemma_selection(platform, paths, upto - 1);
        let before = selected(platform, paths, upto - 1);
        let now = selected(platform, paths, upto);
        assert forall|i: int|
            0 <= i < upto && (path_media_type(platform, #[trigger] paths[i]) matches Ok(
                Some(_),
            )) implies exists|k: int|
            0 <= k < now.len() && (#[trigger] now[k]).index == i by {
            if i < upto - 1 {
                let k = choose|k: int| 0 <= k < before.len() && (#[trigger] before[k]).index == i;
                assert(now[k] == before[k]);
            } else {
                assert(now[now.len() - 1].index == i);
            }
        }
    }
}

} // verus!
