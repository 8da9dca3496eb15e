//! The capture store's path scheme: every task's standard output and standard
//! error land in files under a fixed root, one subdirectory per subject and
//! per stream, one file per capture name. The paths are a pure function of
//! subject, stream and capture name, so a repeated attempt of the same task
//! always lands in the same file and the newest attempt is the only one kept
//! (the shell opens the file truncating).

use vstd::prelude::*;

verus! {

/// Which of the two captured streams of a task a path names.
#[derive(Clone, Copy, PartialEq, Eq, Structural, Debug)]
pub enum StreamKind {
    Stdout,
    Stderr,
}

/// Directory name of a stream under a subject's capture directory.
pub open spec fn stream_name(kind: StreamKind) -> Seq<char> {
    match kind {
        StreamKind::Stdout => "stdout"@,
        StreamKind::Stderr => "stderr"@,
    }
}

/// Directory holding everything captured for one subject.
pub open spec fn subject_dir_spec(subject: Seq<char>) -> Seq<char> {
    "zuu/"@ + subject
}

/// Directory holding one stream's capture files for one subject.
pub open spec fn stream_dir_spec(subject: Seq<char>, kind: StreamKind) -> Seq<char> {
    subject_dir_spec(subject) + "/"@ + stream_name(kind)
}

/// The file a task's captured stream lands in, keyed by its capture name.
pub open spec fn capture_path_spec(subject: Seq<char>, kind: StreamKind, name: Seq<char>) -> Seq<
    char,
> {
    stream_dir_spec(subject, kind) + "/"@ + name
}

/// Directory name of a stream, as text.
pub fn stream_label(kind: StreamKind) -> (r: &'static str)
    ensures
        r@ == stream_name(kind),
{
    match kind {
        StreamKind::Stdout => "stdout",
        StreamKind::Stderr => "stderr",
    }
}

/// Capture directory of one subject.
pub fn subject_dir(subject: &str) -> (r: String)
    ensures
        r@ == subject_dir_spec(subject@),
{
    String::from_str("zuu/").concat(subject)
}

/// Capture directory of one stream of one subject.
pub fn stream_dir(subject: &str, kind: StreamKind) -> (r: String)
    ensures
        r@ == stream_dir_spec(subject@, kind),
{
    let mut p = subject_dir(subject);
    p.append("/");
    p.append(stream_label(kind));
    p
}

/// Path of the capture file for one task's stream. The path depends on the
/// subject, the stream and the capture name alone, so two attempts of the
/// same task write the same file.
pub fn capture_path(subject: &str, kind: StreamKind, capture_name: &str) -> (r: String)
    ensures
        r@ == capture_path_spec(subject@, kind, capture_name@),
{
    let mut p = stream_dir(subject, kind);
    p.append("/");
    p.append(capture_name);
    p
}

/// Law of stream separation: for one subject and one capture name, the file
/// of the standard-output stream and the file of the standard-error stream
/// are two different paths, so one stream never overwrites the other.
pub proof fn lemma_streams_never_collide(subject: Seq<char>, name: Seq<char>)
    ensures
        capture_path_spec(subject, StreamKind::Stdout, name) != capture_path_spec(
            subject,
            StreamKind::Stderr,
        name),
{
    reveal_strlit("stdout");
    reveal_strlit("stderr");
    reveal_strlit("/");
    reveal_strlit("zuu/");
    let a = capture_path_spec(subject, StreamKind::Stdout, name);
    let b = capture_path_spec(subject, StreamKind::Stderr, name);
    let base = subject_dir_spec(subject) + "/"@;
    let p = base.len() as int + 3;
    assert("stdout"@.len() == 6 && "stderr"@.len() == 6);
    assert((base + "stdout"@)[p] == "stdout"@[3]);
    assert((base + "stderr"@)[p] == "stderr"@[3]);
    assert(a[p] == (base + "stdout"@)[p]);
    assert(b[p] == (base + "stderr"@)[p]);
    assert(a[p] == 'o');
    assert(b[p] == 'e');
}

} // verus!
