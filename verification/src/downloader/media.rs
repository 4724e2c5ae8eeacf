//! The filter on the kind of a file, told by the extension of its name.
use crate::text::chars_of;
use crate::text::find_last;
use crate::text::last_index_of;
use crate::text::slice_of;
use vstd::prelude::*;

verus! {

/// Which files a run takes.
#[derive(Clone, Copy, PartialEq, Eq, Structural, Debug)]
pub enum MediaFilter {
    /// Every file.
    Everything,
    /// Videos only.
    VideoOnly,
    /// Images only.
    ImageOnly,
}

/// What a file holds, as far as its name tells.
#[derive(Clone, Copy, PartialEq, Eq, Structural, Debug)]
pub enum MediaKind {
    Image,
    Video,
    Other,
}

/// What `str::to_lowercase` makes of `text`.
pub uninterp spec fn lowercase(text: Seq<char>) -> Seq<char>;

/// `str::to_lowercase`: the text in lower case, by the rules of Unicode. A given text is
/// always lowered alike.
#[verifier::external_body]
fn to_lowercase(text: &str) -> (lowered: String)
    ensures
        lowered@ == lowercase(text@),
{
    text.to_lowercase()
}

/// The extensions of images, in lower case.
pub open spec fn image_extensions() -> Seq<Seq<char>> {
    seq![
        "jpg"@,
        "jpeg"@,
        "png"@,
        "gif"@,
        "webp"@,
        "bmp"@,
        "tiff"@,
        "svg"@,
        "heic"@,
    ]
}

/// The extensions of videos, in lower case.
pub open spec fn video_extensions() -> Seq<Seq<char>> {
    seq![
        "mp4"@,
        "webm"@,
        "mkv"@,
        "avi"@,
        "mov"@,
        "flv"@,
        "wmv"@,
        "mpg"@,
        "mpeg"@,
        "m4v"@,
    ]
}

/// The extension of the file name `name`: what follows its last `.`, where there is one
/// and it is not the first character. The name `..` has none.
pub open spec fn extension(name: Seq<char>) -> Option<Seq<char>> {
    if last_index_of(name, '.') <= 0 || name == seq!['.', '.'] {
        None
    } else {
        Some(name.skip(last_index_of(name, '.') + 1))
    }
}

/// The kind of a file whose extension, in lower case, is `lowered`.
pub open spec fn kind_of(lowered: Seq<char>) -> MediaKind {
    if image_extensions().contains(lowered) {
        MediaKind::Image
    } else if video_extensions().contains(lowered) {
        MediaKind::Video
    } else {
        MediaKind::Other
    }
}

/// Whether `filter` passes over a file of kind `kind`; `None` stands for a name without an
/// extension.
pub open spec fn passes_over(filter: MediaFilter, kind: Option<MediaKind>) -> bool {
    match filter {
        MediaFilter::Everything => false,
        MediaFilter::VideoOnly => kind != Some(MediaKind::Video),
        MediaFilter::ImageOnly => kind != Some(MediaKind::Image),
    }
}

/// The kind of the file named `name`, told without regard to case; `None` where the name
/// has no extension.
pub open spec fn named_kind(name: Seq<char>) -> Option<MediaKind> {
    match extension(name) {
        None => None,
        Some(found) => Some(kind_of(lowercase(found))),
    }
}

/// Whether `word` is one of `words`.
fn is_one_of(word: &Vec<char>, words: &Vec<Vec<char>>) -> (found: bool)
    ensures
        found == Seq::new(words@.len(), |i: int| words@[i]@).contains(word@),
{
    let ghost list = Seq::new(words@.len(), |i: int| words@[i]@);
    let mut at: usize = 0;
    while at < words.len()
        invariant
            at <= words.len(),
            list == Seq::new(words@.len(), |i: int| words@[i]@),
            forall|k: int| 0 <= k < at ==> list[k] != word@,
        decreases words.len() - at,
    {
        if same(&words[at], word) {
            assert(list[at as int] == word@);
            return true;
        }
        at = at + 1;
    }
    false
}

/// Whether two lists of characters are equal.
fn same(a: &Vec<char>, b: &Vec<char>) -> (equal: bool)
    ensures
        equal == (a@ == b@),
{
    if a.len() != b.len() {
        return false;
    }
    let mut at: usize = 0;
    while at < a.len()
        invariant
            at <= a.len(),
            a.len() == b.len(),
            forall|k: int| 0 <= k < at ==> a[k] == b[k],
        decreases a.len() - at,
    {
        if a[at] != b[at] {
            return false;
        }
        at = at + 1;
    }
    assert(a@ =~= b@);
    true
}

/// The extension of `name`, if it has one.
pub fn extension_of(name: &str) -> (found: Option<String>)
    ensures
        match extension(name@) {
            None => found is None,
            Some(text) => found is Some && found->0@ == text,
        },
{
    let chars = chars_of(name);
    match find_last(&chars, '.') {
        None => None,
        Some(dot) => {
            if dot == 0 {
                None
            } else if chars.len() == 2 && chars[0] == '.' {
                assert(chars@ =~= seq!['.', '.']);
                None
            } else {
                assert(chars@[0] != '.' || chars.len() != 2 ==> chars@ != seq!['.', '.']);
                let tail = slice_of(&chars, dot + 1, chars.len());
                assert(chars@.skip(dot + 1) == chars@.subrange(dot + 1, chars.len() as int));
                Some(crate::text::string_of(&tail))
            }
        },
    }
}

/// The kind of a file whose extension, in lower case, is `lowered`.
pub fn classify_extension(lowered: &str) -> (kind: MediaKind)
    ensures
        kind == kind_of(lowered@),
{
    let word = chars_of(lowered);
    let mut images: Vec<Vec<char>> = Vec::new();
    images.push(chars_of("jpg"));
    images.push(chars_of("jpeg"));
    images.push(chars_of("png"));
    images.push(chars_of("gif"));
    images.push(chars_of("webp"));
    images.push(chars_of("bmp"));
    images.push(chars_of("tiff"));
    images.push(chars_of("svg"));
    images.push(chars_of("heic"));
    assert(Seq::new(images@.len(), |i: int| images@[i]@) =~= image_extensions());
    if is_one_of(&word, &images) {
        return MediaKind::Image;
    }
    let mut videos: Vec<Vec<char>> = Vec::new();
    videos.push(chars_of("mp4"));
    videos.push(chars_of("webm"));
    videos.push(chars_of("mkv"));
    videos.push(chars_of("avi"));
    videos.push(chars_of("mov"));
    videos.push(chars_of("flv"));
    videos.push(chars_of("wmv"));
    videos.push(chars_of("mpg"));
    videos.push(chars_of("mpeg"));
    videos.push(chars_of("m4v"));
    assert(Seq::new(videos@.len(), |i: int| videos@[i]@) =~= video_extensions());
    if is_one_of(&word, &videos) {
        MediaKind::Video
    } else {
        MediaKind::Other
    }
}

impl MediaFilter {
    /// Whether the filter passes over a file of kind `kind`; `None` stands for a name
    /// without an extension. A video filter takes videos only, an image filter images
    /// only, and no filter takes every file.
    pub fn passes(&self, kind: Option<MediaKind>) -> (skip: bool)
        ensures
            skip == passes_over(*self, kind),
    {
        match self {
            MediaFilter::Everything => false,
            MediaFilter::VideoOnly => match kind {
                Some(MediaKind::Video) => false,
                _ => true,
            },
            MediaFilter::ImageOnly => match kind {
                Some(MediaKind::Image) => false,
                _ => true,
            },
        }
    }

    /// Whether the filter passes over the file named `name`. A filter that is set passes
    /// over every file whose name has no extension.
    pub fn skips(&self, name: &str) -> (skip: bool)
        ensures
            skip == passes_over(*self, named_kind(name@)),
            !(*self is Everything) && extension(name@) is None ==> skip,
            *self is Everything ==> !skip,
    {
        self.passes(kind_of_name(name))
    }
}

/// The kind of the file named `name`, told without regard to case; `None` where the name
/// has no extension.
pub fn kind_of_name(name: &str) -> (kind: Option<MediaKind>)
    ensures
        kind == named_kind(name@),
{
    match extension_of(name) {
        None => None,
        Some(found) => {
            let lowered = to_lowercase(found.as_str());
            Some(classify_extension(lowered.as_str()))
        },
    }
}

/// An image filter passes over every video and every name without an extension, a video
/// filter over every image and every name without an extension.
pub proof fn law_filters_take_their_own_kind()
    ensures
        passes_over(MediaFilter::ImageOnly, Some(MediaKind::Video)),
        passes_over(MediaFilter::ImageOnly, Some(MediaKind::Other)),
        passes_over(MediaFilter::ImageOnly, None),
        !passes_over(MediaFilter::ImageOnly, Some(MediaKind::Image)),
        passes_over(MediaFilter::VideoOnly, Some(MediaKind::Image)),
        passes_over(MediaFilter::VideoOnly, Some(MediaKind::Other)),
        passes_over(MediaFilter::VideoOnly, None),
        !passes_over(MediaFilter::VideoOnly, Some(MediaKind::Video)),
        forall|kind: Option<MediaKind>| !passes_over(MediaFilter::Everything, kind),
{
}

} // verus!
