//! The response that carries a file.
//!
//! The file is opened outside this library.  What came of that decides the
//! answer: the head of a file response; for a file that is not there, a
//! search among the names beside it for one that begins as the missing name
//! does, whatever the case of the letters, and a redirect to the first such
//! name; for any other failure, the failure itself.
//!
//! The body of a file response is the file, read in chunks of `CHUNK_SIZE`
//! bytes and sent chunk by chunk.

use crate::error::ErrorKind;
use crate::media::{content_type, content_type_for, media_of};
use crate::path::{url_of, ServePath};
use crate::reply::{Disposition, FileHead, FileHeadModel, Reply, ReplyModel};
use crate::text::{has_prefix, lowercase, lowercase_of, push_line, same_text, texts};
use vstd::prelude::*;

verus! {

/// The number of bytes asked of the file at a time.
pub const CHUNK_SIZE: usize = 1024;

/// What the file responder does after the file was opened, or was not.
#[derive(Clone, Debug, PartialEq, Eq)]
pub enum FileOutcome {
    /// The file is there: this head is sent, and the file after it.
    Serve(FileHead),
    /// The file is not there: the names in `dir` are searched for one that
    /// begins as `wanted` does.
    Search { dir: ServePath, wanted: String },
    /// The request fails with this kind.
    Fail(ErrorKind),
}

/// The model of a `FileOutcome`.
pub enum FileOutcomeModel {
    Serve(FileHeadModel),
    Search { dir: Seq<Seq<char>>, wanted: Seq<char> },
    Fail(ErrorKind),
}

impl View for FileOutcome {
    type V = FileOutcomeModel;

    open spec fn view(&self) -> FileOutcomeModel {
        match self {
            FileOutcome::Serve(head) => FileOutcomeModel::Serve(head@),
            FileOutcome::Search { dir, wanted } => FileOutcomeModel::Search {
                dir: dir@,
                wanted: wanted@,
            },
            FileOutcome::Fail(kind) => FileOutcomeModel::Fail(*kind),
        }
    }
}

/// One step of the body of a file response.
#[derive(Clone, Debug, PartialEq, Eq)]
pub enum StreamStep {
    /// These bytes are sent, and the file is read on.
    Chunk(Vec<u8>),
    /// The read failed: the failure is passed on to the client's connection.
    Failed(ErrorKind),
    /// The file is at its end, and so is the body.
    End,
}

/// The model of a `StreamStep`.
pub enum StreamStepModel {
    Chunk(Seq<u8>),
    Failed(ErrorKind),
    End,
}

impl View for StreamStep {
    type V = StreamStepModel;

    open spec fn view(&self) -> StreamStepModel {
        match self {
            StreamStep::Chunk(bytes) => StreamStepModel::Chunk(bytes@),
            StreamStep::Failed(kind) => StreamStepModel::Failed(*kind),
            StreamStep::End => StreamStepModel::End,
        }
    }
}

/// How a file is to be treated by the client that asked with `query`:
/// stored, where the query is exactly `download`; shown, for any other query
/// and for none.
pub open spec fn disposition_of(query: Seq<char>) -> Disposition {
    if query == "download"@ {
        Disposition::Attachment
    } else {
        Disposition::Inline
    }
}

/// The last name of a path, if it has one.
pub open spec fn file_name_of(path: Seq<Seq<char>>) -> Option<Seq<char>> {
    if path.len() > 0 {
        Some(path.last())
    } else {
        None
    }
}

/// The head of the response that carries the file at `path`, asked for with
/// `query`, whose length is `length` where the file told it.
pub open spec fn file_head(path: Seq<Seq<char>>, query: Seq<char>, length: Option<u64>) -> FileHeadModel {
    FileHeadModel {
        content_type: content_type_for(
            match file_name_of(path) {
                Some(name) => media_of(name),
                None => None,
            },
        ),
        disposition: disposition_of(query),
        file_name: file_name_of(path),
        content_length: length,
    }
}

/// What the file responder does for the file at `path`, asked for with
/// `query`, when opening it gave `opened`: the length of the file where it
/// could be told, or the kind of failure.
pub open spec fn file_outcome(
    path: Seq<Seq<char>>,
    query: Seq<char>,
    opened: Result<Option<u64>, ErrorKind>,
) -> FileOutcomeModel {
    match opened {
        Ok(length) => FileOutcomeModel::Serve(file_head(path, query, length)),
        Err(ErrorKind::NotFound) if path.len() > 0 => FileOutcomeModel::Search {
            dir: path.drop_last(),
            wanted: path.last(),
        },
        Err(kind) => FileOutcomeModel::Fail(kind),
    }
}

/// The position of the first of `texts` that begins with `prefix`.
pub open spec fn first_prefixed(prefix: Seq<char>, texts: Seq<Seq<char>>) -> Option<int>
    decreases texts.len(),
{
    if texts.len() == 0 {
        None
    } else {
        match first_prefixed(prefix, texts.drop_last()) {
            Some(i) => Some(i),
            None => if prefix.is_prefix_of(texts.last()) {
                Some(texts.len() - 1)
            } else {
                None
            },
        }
    }
}

/// The names in lower case.
pub open spec fn lowercased(names: Seq<Seq<char>>) -> Seq<Seq<char>> {
    Seq::new(names.len(), |i: int| lowercase_of(names[i]))
}

/// The position of the first of `names` that can stand in for the missing
/// name `wanted`: the first that in lower case begins with `wanted` in lower
/// case.
pub open spec fn first_stand_in(wanted: Seq<char>, names: Seq<Seq<char>>) -> Option<int> {
    first_prefixed(lowercase_of(wanted), lowercased(names))
}

/// The answer for a missing file called `wanted` in the directory `dir`
/// that holds `names`: a redirect to the first name that can stand in for it,
/// or `NotFound` where none can.
pub open spec fn fallback_of(dir: Seq<Seq<char>>, wanted: Seq<char>, names: Seq<Seq<char>>) -> Result<
    ReplyModel,
    ErrorKind,
> {
    match first_stand_in(wanted, names) {
        Some(i) => Ok(ReplyModel::Redirect { location: url_of(dir.push(names[i])) }),
        None => Err(ErrorKind::NotFound),
    }
}

/// What is sent after a read into `buffer` that gave `read`: nothing more
/// after a read of no bytes, the bytes read after any other, the failure
/// after a failed one.
pub open spec fn stream_step(buffer: Seq<u8>, read: Result<usize, ErrorKind>) -> StreamStepModel {
    match read {
        Ok(n) => if n == 0 {
            StreamStepModel::End
        } else if n <= buffer.len() {
            StreamStepModel::Chunk(buffer.take(n as int))
        } else {
            StreamStepModel::Chunk(buffer)
        },
        Err(kind) => StreamStepModel::Failed(kind),
    }
}

/// The first text with a prefix is the first: it begins with the prefix,
/// and no text before it does; where there is none, no text begins with it.
pub proof fn lemma_first_prefixed(prefix: Seq<char>, texts: Seq<Seq<char>>)
    ensures
        match first_prefixed(prefix, texts) {
            Some(i) => 0 <= i < texts.len() && prefix.is_prefix_of(texts[i]) && forall|k: int|
                0 <= k < i ==> !prefix.is_prefix_of(#[trigger] texts[k]),
            None => forall|k: int| 0 <= k < texts.len() ==> !prefix.is_prefix_of(#[trigger] texts[k]),
        },
    decreases texts.len(),
{
    if texts.len() > 0 {
        lemma_first_prefixed(prefix, texts.drop_last());
        let head = texts.drop_last();
        match first_prefixed(prefix, head) {
            Some(i) => {
                assert forall|k: int| 0 <= k < i implies !prefix.is_prefix_of(#[trigger] texts[k]) by {
                    assert(head[k] == texts[k]);
                }
            },
            None => {
                assert forall|k: int| 0 <= k < texts.len() - 1 implies !prefix.is_prefix_of(
                    #[trigger] texts[k],
                ) by {
                    assert(head[k] == texts[k]);
                }
            },
        }
    }
}

/// The first text with a prefix among the beginning of the texts is the
/// first among all of them.
pub proof fn lemma_first_prefixed_extends(prefix: Seq<char>, texts: Seq<Seq<char>>, i: int)
    requires
        0 <= i < texts.len(),
        first_prefixed(prefix, texts.take(i + 1)) == Some(i),
    ensures
        first_prefixed(prefix, texts) == Some(i),
    decreases texts.len(),
{
    if texts.len() > i + 1 {
        assert(texts.drop_last().take(i + 1) == texts.take(i + 1));
        lemma_first_prefixed_extends(prefix, texts.drop_last(), i);
    } else {
        assert(texts.take(i + 1) == texts);
    }
}

/// A chunk is what was read and no more: it is never longer than the
/// buffer, and a read that stayed within the buffer is sent in full.  So the
/// chunks of a file, one after another, are the bytes that were read of it.
pub proof fn lemma_chunk_is_what_was_read(buffer: Seq<u8>, n: usize)
    requires
        0 < n,
    ensures
        stream_step(buffer, Ok(n)) matches StreamStepModel::Chunk(bytes) && bytes.len() <= buffer.len()
            && bytes.is_prefix_of(buffer) && (n <= buffer.len() ==> bytes.len() == n),
{
}

/// How a file is to be treated by the client that asked with `query`.
pub fn disposition(query: &str) -> (out: Disposition)
    ensures
        out == disposition_of(query@),
{
    if same_text(query, "download") {
        Disposition::Attachment
    } else {
        Disposition::Inline
    }
}

/// The head of the response that carries the file at `path`.
pub fn make_head(path: &ServePath, query: &str, length: Option<u64>) -> (head: FileHead)
    ensures
        head@ == file_head(path@, query@, length),
{
    match path.file_name() {
        Some(name) => FileHead {
            content_type: content_type(name),
            disposition: disposition(query),
            file_name: Some(String::from_str(name)),
            content_length: length,
        },
        None => FileHead {
            content_type: crate::media::content_type_from(&None),
            disposition: disposition(query),
            file_name: None,
            content_length: length,
        },
    }
}

/// What the file responder does for the file at `path`, asked for with
/// `query`, when opening it gave `opened`.
pub fn file_handler(path: &ServePath, query: &str, opened: Result<Option<u64>, ErrorKind>) -> (out:
    FileOutcome)
    ensures
        out@ == file_outcome(path@, query@, opened),
{
    match opened {
        Ok(length) => FileOutcome::Serve(make_head(path, query, length)),
        Err(ErrorKind::NotFound) => {
            match path.file_name() {
                Some(name) => {
                    let dir = match path.parent() {
                        Some(dir) => dir,
                        None => unreached(),
                    };
                    FileOutcome::Search { dir, wanted: String::from_str(name) }
                },
                None => FileOutcome::Fail(ErrorKind::NotFound),
            }
        },
        Err(kind) => FileOutcome::Fail(kind),
    }
}

/// The position of the first of `candidates` that begins with `prefix`.
pub fn first_with_prefix(prefix: &str, candidates: &Vec<String>) -> (out: Option<usize>)
    ensures
        match out {
            Some(i) => first_prefixed(prefix@, texts(candidates@)) == Some(i as int),
            None => first_prefixed(prefix@, texts(candidates@)) is None,
        },
{
    let ghost all = texts(candidates@);
    let mut i: usize = 0;
    while i < candidates.len()
        invariant
            i <= candidates.len(),
            all == texts(candidates@),
            first_prefixed(prefix@, all.take(i as int)) is None,
        decreases candidates.len() - i,
    {
        proof {
            let next = all.take(i + 1);
            assert(next.drop_last() == all.take(i as int));
        }
        if has_prefix(candidates[i].as_str(), prefix) {
            proof {
                lemma_first_prefixed_extends(prefix@, all, i as int);
            }
            return Some(i);
        }
        i += 1;
    }
    assert(all.take(candidates.len() as int) == all);
    None
}

/// The names in lower case.
fn lowercase_all(names: &Vec<String>) -> (out: Vec<String>)
    ensures
        texts(out@) == lowercased(texts(names@)),
{
    let mut out: Vec<String> = Vec::new();
    let mut i: usize = 0;
    while i < names.len()
        invariant
            i <= names.len(),
            texts(out@) == lowercased(texts(names@)).take(i as int),
        decreases names.len() - i,
    {
        push_line(&mut out, lowercase(names[i].as_str()));
        i += 1;
    }
    out
}

/// The answer for a missing file called `wanted` in the directory `dir`,
/// given the names in that directory in the order in which they were found.
pub fn prefix_fallback(dir: &ServePath, wanted: &str, names: &Vec<String>) -> (out: Result<
    Reply,
    ErrorKind,
>)
    ensures
        match out {
            Ok(reply) => fallback_of(dir@, wanted@, texts(names@)) == Ok::<ReplyModel, ErrorKind>(
                reply@,
            ),
            Err(kind) => fallback_of(dir@, wanted@, texts(names@)) == Err::<ReplyModel, ErrorKind>(
                kind,
            ),
        },
{
    let search = lowercase(wanted);
    let candidates = lowercase_all(names);
    match first_with_prefix(search.as_str(), &candidates) {
        Some(i) => {
            proof {
                lemma_first_prefixed(search@, texts(candidates@));
            }
            Ok(Reply::Redirect { location: dir.url_with(names[i].as_str()) })
        },
        None => Err(ErrorKind::NotFound),
    }
}

/// A buffer for one read: `CHUNK_SIZE` zero bytes.
pub fn chunk_buffer() -> (buffer: Vec<u8>)
    ensures
        buffer@ == Seq::new(CHUNK_SIZE as nat, |i: int| 0u8),
{
    let mut buffer: Vec<u8> = Vec::new();
    let mut i: usize = 0;
    while i < CHUNK_SIZE
        invariant
            i <= CHUNK_SIZE,
            buffer@ == Seq::new(i as nat, |i: int| 0u8),
        decreases CHUNK_SIZE - i,
    {
        buffer.push(0);
        i += 1;
    }
    buffer
}

/// What is sent after a read into `buffer` that gave `read`, the number of
/// bytes read or the kind of failure.
pub fn next_chunk(buffer: Vec<u8>, read: Result<usize, ErrorKind>) -> (step: StreamStep)
    ensures
        step@ == stream_step(buffer@, read),
{
    match read {
        Ok(n) => {
            if n == 0 {
                StreamStep::End
            } else {
                let mut bytes = buffer;
                bytes.truncate(n);
                StreamStep::Chunk(bytes)
            }
        },
        Err(kind) => StreamStep::Failed(kind),
    }
}

} // verus!
