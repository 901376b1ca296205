//! Helpers for file-system paths: joining two paths component by component, and
//! choosing the text under which a path is shown.
//!
//! A path is an opaque value of the standard library. What the helpers state
//! about paths is stated over the bytes of their OS strings, and over named
//! results of the standard library's own parsing and formatting. Which
//! separators and prefixes that parsing knows is fixed by the platform the
//! library is built for; on that platform each named result depends on its
//! arguments alone.

use vstd::prelude::*;
use vstd::string::*;
use std::path::Path;
use std::path::PathBuf;
use crate::level::Level;

verus! {

/// `std::path::Path`, carried as an opaque value.
#[verifier::external_type_specification]
#[verifier::external_body]
pub struct ExPath(Path);

/// `std::path::PathBuf`, carried as an opaque value.
#[verifier::external_type_specification]
#[verifier::external_body]
pub struct ExPathBuf(PathBuf);

/// The bytes of the OS string that a borrowed path holds.
pub uninterp spec fn path_text(path: &Path) -> Seq<u8>;

/// The bytes of the OS string that an owned path holds.
pub uninterp spec fn path_buf_text(path: PathBuf) -> Seq<u8>;

/// The components that `Path::components` yields for a path with the given
/// bytes, each as the bytes of its own OS string, in order.
pub uninterp spec fn component_texts(text: Seq<u8>) -> Seq<Seq<u8>>;

/// The bytes that a path buffer holds after `PathBuf::push` has pushed a path
/// with the bytes `part` onto a buffer with the bytes `base`.
pub uninterp spec fn pushed_text(base: Seq<u8>, part: Seq<u8>) -> Seq<u8>;

/// The text that `Path::display` shows for a path with the given bytes.
pub uninterp spec fn display_text(text: Seq<u8>) -> Seq<char>;

/// The text that the `{:?}` format of a string yields: the string in quotes,
/// with escapes.
pub uninterp spec fn debug_text(text: Seq<char>) -> Seq<char>;

/// The bytes of each path of a sequence.
pub open spec fn texts_of(paths: Seq<PathBuf>) -> Seq<Seq<u8>> {
    paths.map_values(|path: PathBuf| path_buf_text(path))
}

/// `PathBuf::new` allocates an empty path.
pub assume_specification[ PathBuf::new ]() -> (r: PathBuf)
    ensures
        path_buf_text(r) == Seq::<u8>::empty(),
;

/// `PathBuf::as_path` lends the buffer as a path with the same bytes.
pub assume_specification<'a>[ PathBuf::as_path ](buffer: &'a PathBuf) -> (r: &'a Path)
    ensures
        path_text(r) == path_buf_text(*buffer),
;

/// `Path::components`, each component handed out as a path of its own: the
/// result holds the components of the path, in order.
#[verifier::external_body]
fn components_of(path: &Path) -> (r: Vec<PathBuf>)
    ensures
        texts_of(r@) == component_texts(path_text(path)),
{
    path.components().map(|part| PathBuf::from(part.as_os_str())).collect()
}

/// `PathBuf::push`: the buffer holds afterwards what pushing `part` onto its
/// former content gives.
#[verifier::external_body]
fn push_part(buffer: &mut PathBuf, part: &Path)
    ensures
        path_buf_text(*final(buffer)) == pushed_text(path_buf_text(*old(buffer)), path_text(part)),
{
    buffer.push(part)
}

/// `Path::display`, written out as a string.
#[verifier::external_body]
fn shown(path: &Path) -> (r: String)
    ensures
        r@ == display_text(path_text(path)),
{
    path.display().to_string()
}

/// The `{:?}` format of a string.
#[verifier::external_body]
fn quoted(text: &str) -> (r: String)
    ensures
        r@ == debug_text(text@),
{
    format!("{:?}", text)
}

/// The bytes of a buffer after each of `parts` was pushed onto `base` in turn.
pub open spec fn push_all(base: Seq<u8>, parts: Seq<Seq<u8>>) -> Seq<u8>
    decreases parts.len(),
{
    if parts.len() == 0 {
        base
    } else {
        pushed_text(push_all(base, parts.drop_last()), parts.last())
    }
}

/// The bytes of the join of two paths: the components of the first and then
/// those of the second, pushed one by one onto an empty path.
pub open spec fn joined(a: Seq<u8>, b: Seq<u8>) -> Seq<u8> {
    push_all(push_all(Seq::empty(), component_texts(a)), component_texts(b))
}

/// Pushing the parts of two sequences in turn is pushing the parts of their
/// concatenation.
pub proof fn lemma_push_all_concat(base: Seq<u8>, first: Seq<Seq<u8>>, second: Seq<Seq<u8>>)
    ensures
        push_all(push_all(base, first), second) == push_all(base, first + second),
    decreases second.len(),
{
    if second.len() == 0 {
        assert(first + second == first);
    } else {
        lemma_push_all_concat(base, first, second.drop_last());
        assert((first + second).drop_last() == first + second.drop_last());
        assert((first + second).last() == second.last());
    }
}

/// The join of two paths is what pushing all their components, those of the
/// first path before those of the second, onto an empty path gives.
pub proof fn law_join_pushes_every_component_in_order(a: Seq<u8>, b: Seq<u8>)
    ensures
        joined(a, b) == push_all(Seq::empty(), component_texts(a) + component_texts(b)),
{
    lemma_push_all_concat(Seq::empty(), component_texts(a), component_texts(b));
}

/// Pushes the components of `path` onto `buffer`, one by one and in order.
pub fn push_components(buffer: &mut PathBuf, path: &Path)
    ensures
        path_buf_text(*final(buffer)) == push_all(
            path_buf_text(*old(buffer)),
            component_texts(path_text(path)),
        ),
{
    let parts = components_of(path);
    let ghost texts = component_texts(path_text(path));
    let mut i: usize = 0;
    while i < parts.len()
        invariant
            i <= parts.len(),
            texts_of(parts@) == texts,
            path_buf_text(*buffer) == push_all(path_buf_text(*old(buffer)), texts.take(i as int)),
        decreases parts.len() - i,
    {
        push_part(buffer, parts[i].as_path());
        proof {
            let next = texts.take(i + 1);
            assert(next.drop_last() == texts.take(i as int));
            assert(next.last() == texts_of(parts@)[i as int]);
        }
        i += 1;
    }
    assert(texts.take(i as int) == texts);
}

/// Joins two paths component by component, so that the separators of the
/// result are those of the platform whatever those of the arguments were.
pub fn join(a: &Path, b: &Path) -> (r: PathBuf)
    ensures
        path_buf_text(r) == joined(path_text(a), path_text(b)),
{
    let mut buffer = PathBuf::new();
    push_components(&mut buffer, a);
    push_components(&mut buffer, b);
    buffer
}

/// A remark for the log: the severity it is logged at, and its text.
pub struct Diagnostic {
    pub level: Level,
    pub message: String,
}

/// The text under which a path is shown, and the remark to log where the path
/// could not be brought into its canonical form.
pub struct Displayed {
    pub text: String,
    pub diagnostic: Option<Diagnostic>,
}

/// The remark that is logged when a path shown as `shown` could not be
/// brought into its canonical form for the reason `reason`.
pub open spec fn failure_note(shown: Seq<char>, reason: Seq<char>) -> Seq<char> {
    "Failed to normalize path: "@ + debug_text(shown) + ": "@ + reason
}

/// Chooses the text under which `path` is shown. `canonical` is what the
/// attempt to bring the path into its canonical form has given: the canonical
/// path, or the reason why there is none. With a canonical path, that path is
/// shown and there is nothing to log. Without one, the path is shown as it was
/// given, and the failure is to be logged at severity `Debug`.
pub fn display(path: &Path, canonical: Result<&Path, &str>) -> (r: Displayed)
    ensures
        canonical matches Ok(found) ==> {
            &&& r.text@ == display_text(path_text(found))
            &&& r.diagnostic is None
        },
        canonical matches Err(reason) ==> {
            &&& r.text@ == display_text(path_text(path))
            &&& r.diagnostic matches Some(remark)
            &&& remark.level == Level::Debug
            &&& remark.message@ == failure_note(r.text@, reason@)
        },
{
    match canonical {
        Ok(found) => Displayed { text: shown(found), diagnostic: None },
        Err(reason) => {
            let text = shown(path);
            let mut message = "Failed to normalize path: ".to_owned();
            message.append(quoted(text.as_str()).as_str());
            message.append(": ");
            message.append(reason);
            Displayed { text, diagnostic: Some(Diagnostic { level: Level::Debug, message }) }
        },
    }
}

} // verus!
