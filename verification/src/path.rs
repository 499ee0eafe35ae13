//! Request paths and their containment in the served directory.
//!
//! A path is a sequence of names.  A request is text with `/` between its
//! parts; it is walked part by part from the served directory (or from the
//! top of the file system, where it begins with `/`): an empty part and `.`
//! stay, `..` goes up, any other part goes down.  The place where the walk
//! ends is served only if it lies in the served directory.

use crate::error::ErrorKind;
use crate::text::{push_line, same_text, texts, to_chars};
use vstd::prelude::*;

verus! {

/// The character that stands between the parts of a path.
pub const SEPARATOR: char = '/';

/// The parts of `s` between its separators.  A text with `n` separators has
/// `n + 1` parts, some of which may be empty.
pub open spec fn split_path(s: Seq<char>) -> Seq<Seq<char>>
    decreases s.len(),
{
    if s.len() == 0 {
        seq![Seq::empty()]
    } else {
        let before = split_path(s.drop_last());
        if s.last() == SEPARATOR {
            before.push(Seq::empty())
        } else {
            before.drop_last().push(before.last().push(s.last()))
        }
    }
}

/// The parts with a separator between each two of them.
pub open spec fn join_path(parts: Seq<Seq<char>>) -> Seq<char>
    decreases parts.len(),
{
    if parts.len() == 0 {
        Seq::empty()
    } else if parts.len() == 1 {
        parts[0]
    } else {
        join_path(parts.drop_last()) + seq![SEPARATOR] + parts.last()
    }
}

/// Whether `part` names a file or directory: it is not empty, holds no
/// separator, and is neither `.` nor `..`.
pub open spec fn is_name(part: Seq<char>) -> bool {
    &&& part.len() > 0
    &&& !part.contains(SEPARATOR)
    &&& part != "."@
    &&& part != ".."@
}

/// Whether every part of `path` is a name.
pub open spec fn all_names(path: Seq<Seq<char>>) -> bool {
    forall|i: int| 0 <= i < path.len() ==> is_name(#[trigger] path[i])
}

/// Where one part of a request leads from the place `at`.
pub open spec fn walk_step(at: Seq<Seq<char>>, part: Seq<char>) -> Seq<Seq<char>> {
    if part.len() == 0 || part == "."@ {
        at
    } else if part == ".."@ {
        if at.len() > 0 {
            at.drop_last()
        } else {
            at
        }
    } else {
        at.push(part)
    }
}

/// Where the parts of a request lead from the place `at`, taken in order.
pub open spec fn walk(at: Seq<Seq<char>>, parts: Seq<Seq<char>>) -> Seq<Seq<char>>
    decreases parts.len(),
{
    if parts.len() == 0 {
        at
    } else {
        walk_step(walk(at, parts.drop_last()), parts.last())
    }
}

/// Whether the request names its place from the top of the file system.
pub open spec fn is_absolute(request: Seq<char>) -> bool {
    request.len() > 0 && request[0] == SEPARATOR
}

/// The place that `request` names when it is asked of the directory `root`.
pub open spec fn target_of(root: Seq<Seq<char>>, request: Seq<char>) -> Seq<Seq<char>> {
    walk(
        if is_absolute(request) {
            Seq::empty()
        } else {
            root
        },
        split_path(request),
    )
}

/// Whether `request`, asked of `root`, names a place in `root`.
pub open spec fn is_contained(root: Seq<Seq<char>>, request: Seq<char>) -> bool {
    root.is_prefix_of(target_of(root, request))
}

/// The answer to `request` asked of `root`: the path from `root` to the
/// place it names, or a refusal where that place is not in `root`.
pub open spec fn resolved(root: Seq<Seq<char>>, request: Seq<char>) -> Result<
    Seq<Seq<char>>,
    ErrorKind,
> {
    if is_contained(root, request) {
        Ok(target_of(root, request).skip(root.len() as int))
    } else {
        Err(ErrorKind::PermissionDenied)
    }
}

/// The path as a URL shows it: a separator, then the parts with separators
/// between them.
pub open spec fn url_of(path: Seq<Seq<char>>) -> Seq<char> {
    seq![SEPARATOR] + join_path(path)
}

/// The served directory: an absolute path, given as the names that lead to
/// it from the top of the file system.
#[derive(Debug, PartialEq, Eq)]
pub struct ServeRoot {
    parts: Vec<String>,
}

/// A place in the served directory: the names that lead to it from there.
/// The empty path is the served directory itself.  Every part of a path is a
/// name, so no path leads out of the directory it starts in.
#[derive(Debug, PartialEq, Eq)]
pub struct ServePath {
    parts: Vec<String>,
}

impl View for ServeRoot {
    type V = Seq<Seq<char>>;

    closed spec fn view(&self) -> Seq<Seq<char>> {
        texts(self.parts@)
    }
}

impl View for ServePath {
    type V = Seq<Seq<char>>;

    closed spec fn view(&self) -> Seq<Seq<char>> {
        texts(self.parts@)
    }
}

/// Every part of a split text is free of separators.
pub proof fn lemma_split_parts_have_no_separator(s: Seq<char>)
    ensures
        split_path(s).len() >= 1,
        forall|i: int|
            0 <= i < split_path(s).len() ==> !(#[trigger] split_path(s)[i]).contains(SEPARATOR),
    decreases s.len(),
{
    if s.len() > 0 {
        lemma_split_parts_have_no_separator(s.drop_last());
    }
}

/// Joining the parts of a split text gives the text back.
pub proof fn lemma_join_of_split(s: Seq<char>)
    ensures
        join_path(split_path(s)) == s,
    decreases s.len(),
{
    if s.len() > 0 {
        let head = s.drop_last();
        lemma_join_of_split(head);
        lemma_split_parts_have_no_separator(head);
        let before = split_path(head);
        assert(s =~= head.push(s.last()));
        if s.last() == SEPARATOR {
            let parts = before.push(Seq::empty());
            assert(parts.drop_last() == before);
        } else {
            let grown = before.last().push(s.last());
            let parts = before.drop_last().push(grown);
            assert(parts.drop_last() == before.drop_last());
        }
    }
}

/// A walk that starts among names ends among names: whatever the request,
/// no `.`, no `..` and no empty part is left in the place it names.
pub proof fn lemma_walk_keeps_names(at: Seq<Seq<char>>, parts: Seq<Seq<char>>)
    requires
        all_names(at),
        forall|i: int| 0 <= i < parts.len() ==> !(#[trigger] parts[i]).contains(SEPARATOR),
    ensures
        all_names(walk(at, parts)),
    decreases parts.len(),
{
    if parts.len() > 0 {
        lemma_walk_keeps_names(at, parts.drop_last());
    }
}

/// A request that names a place outside the served directory is refused
/// with `PermissionDenied`; one that names a place inside is answered with
/// the path to it, which together with the served directory gives the place
/// and is made of names alone.
pub proof fn lemma_outside_is_denied(root: Seq<Seq<char>>, request: Seq<char>)
    requires
        all_names(root),
    ensures
        !is_contained(root, request) ==> resolved(root, request) == Err::<
            Seq<Seq<char>>,
            ErrorKind,
        >(ErrorKind::PermissionDenied),
        is_contained(root, request) ==> (resolved(root, request) matches Ok(path) && root + path
            == target_of(root, request) && all_names(path)),
{
    lemma_split_parts_have_no_separator(request);
    let start = if is_absolute(request) {
        Seq::<Seq<char>>::empty()
    } else {
        root
    };
    lemma_walk_keeps_names(start, split_path(request));
}

/// The parts of `s` between its separators.
pub fn split(s: &str) -> (parts: Vec<String>)
    ensures
        texts(parts@) == split_path(s@),
{
    let chars = to_chars(s);
    let mut parts: Vec<String> = Vec::new();
    let mut current = String::new();
    let mut i: usize = 0;
    while i < chars.len()
        invariant
            i <= chars.len(),
            chars@ == s@,
            split_path(chars@.take(i as int)) == texts(parts@).push(current@),
        decreases chars.len() - i,
    {
        let c = chars[i];
        proof {
            let next = chars@.take(i + 1);
            assert(next.drop_last() == chars@.take(i as int));
        }
        if c == SEPARATOR {
            push_line(&mut parts, current);
            current = String::new();
        } else {
            current.push(c);
        }
        i += 1;
    }
    assert(chars@.take(chars.len() as int) == chars@);
    push_line(&mut parts, current);
    parts
}

/// A copy of `parts`.
fn copy_parts(parts: &Vec<String>) -> (out: Vec<String>)
    ensures
        texts(out@) == texts(parts@),
{
    let mut out: Vec<String> = Vec::new();
    let mut i: usize = 0;
    while i < parts.len()
        invariant
            i <= parts.len(),
            texts(out@) == texts(parts@).take(i as int),
        decreases parts.len() - i,
    {
        push_line(&mut out, parts[i].clone());
        i += 1;
    }
    out
}

/// Walks `parts` from the place `at`.
fn walk_from(at: Vec<String>, parts: &Vec<String>) -> (end: Vec<String>)
    ensures
        texts(end@) == walk(texts(at@), texts(parts@)),
{
    let mut end = at;
    let mut i: usize = 0;
    while i < parts.len()
        invariant
            i <= parts.len(),
            texts(end@) == walk(texts(at@), texts(parts@).take(i as int)),
        decreases parts.len() - i,
    {
        let part = parts[i].as_str();
        proof {
            let next = texts(parts@).take(i + 1);
            assert(next.drop_last() == texts(parts@).take(i as int));
        }
        if part.unicode_len() == 0 || same_text(part, ".") {
        } else if same_text(part, "..") {
            if end.len() > 0 {
                end.pop();
            }
        } else {
            push_line(&mut end, parts[i].clone());
        }
        i += 1;
    }
    assert(texts(parts@).take(parts.len() as int) == texts(parts@));
    end
}

/// The text of `parts` with a separator between each two of them.
fn join(parts: &Vec<String>) -> (out: String)
    ensures
        out@ == join_path(texts(parts@)),
{
    let mut out = String::new();
    let mut i: usize = 0;
    while i < parts.len()
        invariant
            i <= parts.len(),
            out@ == join_path(texts(parts@).take(i as int)),
        decreases parts.len() - i,
    {
        proof {
            let next = texts(parts@).take(i + 1);
            assert(next.drop_last() == texts(parts@).take(i as int));
        }
        if i > 0 {
            out.push(SEPARATOR);
        }
        out.append(parts[i].as_str());
        i += 1;
    }
    assert(texts(parts@).take(parts.len() as int) == texts(parts@));
    out
}

/// Whether `text` names a file or directory.
pub fn is_name_text(text: &str) -> (yes: bool)
    ensures
        yes == is_name(text@),
{
    let chars = to_chars(text);
    if chars.len() == 0 || same_text(text, ".") || same_text(text, "..") {
        return false;
    }
    let mut i: usize = 0;
    while i < chars.len()
        invariant
            i <= chars.len(),
            chars@ == text@,
            forall|k: int| 0 <= k < i ==> chars@[k] != SEPARATOR,
        decreases chars.len() - i,
    {
        if chars[i] == SEPARATOR {
            return false;
        }
        i += 1;
    }
    true
}

impl ServeRoot {
    /// Every part of the path to the served directory is a name.
    #[verifier::type_invariant]
    spec fn names_only(&self) -> bool {
        all_names(texts(self.parts@))
    }

    /// The served directory at the absolute path `path`; `None` where the
    /// path does not begin with a separator.  Empty parts and `.` are
    /// dropped from the path, and `..` takes back the part before it.
    pub fn new(path: &str) -> (out: Option<ServeRoot>)
        ensures
            out is Some <==> is_absolute(path@),
            out matches Some(root) ==> root@ == walk(Seq::empty(), split_path(path@))
                && all_names(root@),
    {
        let chars = to_chars(path);
        if chars.len() == 0 || chars[0] != SEPARATOR {
            return None;
        }
        let parts = split(path);
        let top: Vec<String> = Vec::new();
        assert(texts(top@) =~= Seq::<Seq<char>>::empty());
        let end = walk_from(top, &parts);
        proof {
            lemma_split_parts_have_no_separator(path@);
            lemma_walk_keeps_names(Seq::empty(), split_path(path@));
        }
        Some(ServeRoot { parts: end })
    }

    /// The absolute path of the served directory.
    pub fn to_text(&self) -> (out: String)
        ensures
            out@ == url_of(self@),
            all_names(self@),
    {
        proof {
            use_type_invariant(self);
        }
        let mut out = String::new();
        out.push(SEPARATOR);
        let rest = join(&self.parts);
        out.append(rest.as_str());
        out
    }

    /// The absolute path of the place `path` in this directory.  It leads
    /// through names alone, so it lies in the served directory.
    pub fn locate(&self, path: &ServePath) -> (out: String)
        ensures
            out@ == url_of(self@ + path@),
            all_names(self@ + path@),
    {
        proof {
            use_type_invariant(self);
            use_type_invariant(path);
        }
        let mut all = copy_parts(&self.parts);
        let mut i: usize = 0;
        while i < path.parts.len()
            invariant
                i <= path.parts.len(),
                texts(all@) == self@ + path@.take(i as int),
            decreases path.parts.len() - i,
        {
            push_line(&mut all, path.parts[i].clone());
            i += 1;
        }
        assert(path@.take(path.parts.len() as int) == path@);
        let mut out = String::new();
        out.push(SEPARATOR);
        let rest = join(&all);
        out.append(rest.as_str());
        out
    }

    /// The place that `request` names in this directory, or
    /// `PermissionDenied` where it names a place outside.
    pub fn resolve(&self, request: &str) -> (out: Result<ServePath, ErrorKind>)
        ensures
            match out {
                Ok(path) => resolved(self@, request@) == Ok::<Seq<Seq<char>>, ErrorKind>(path@)
                    && all_names(path@),
                Err(kind) => resolved(self@, request@) == Err::<Seq<Seq<char>>, ErrorKind>(kind),
            },
    {
        proof {
            use_type_invariant(self);
            lemma_outside_is_denied(self@, request@);
        }
        let chars = to_chars(request);
        let absolute = chars.len() > 0 && chars[0] == SEPARATOR;
        let parts = split(request);
        let start: Vec<String> = if absolute {
            Vec::new()
        } else {
            copy_parts(&self.parts)
        };
        assert(texts(start@) =~= if is_absolute(request@) {
            Seq::<Seq<char>>::empty()
        } else {
            self@
        });
        let end = walk_from(start, &parts);
        let ghost target = target_of(self@, request@);
        let n = self.parts.len();
        if end.len() < n {
            return Err(ErrorKind::PermissionDenied);
        }
        let mut i: usize = 0;
        while i < n
            invariant
                i <= n,
                n == self.parts.len(),
                n <= end.len(),
                texts(end@) == target,
                target == target_of(self@, request@),
                forall|k: int| 0 <= k < i ==> self@[k] == target[k],
            decreases n - i,
        {
            if !same_text(self.parts[i].as_str(), end[i].as_str()) {
                assert(self@[i as int] != target.subrange(0, n as int)[i as int]);
                return Err(ErrorKind::PermissionDenied);
            }
            i += 1;
        }
        let mut rest: Vec<String> = Vec::new();
        let mut j: usize = n;
        while j < end.len()
            invariant
                n <= j <= end.len(),
                texts(end@) == target,
                target == target_of(self@, request@),
                texts(rest@) == target.skip(n as int).take(j - n),
            decreases end.len() - j,
        {
            push_line(&mut rest, end[j].clone());
            j += 1;
        }
        assert(target.skip(n as int).take(end.len() - n) =~= target.skip(n as int));
        Ok(ServePath { parts: rest })
    }
}

impl Clone for ServeRoot {
    fn clone(&self) -> (out: ServeRoot)
        ensures
            out@ == self@,
    {
        proof {
            use_type_invariant(self);
        }
        ServeRoot { parts: copy_parts(&self.parts) }
    }
}

impl ServePath {
    /// Every part of the path is a name.
    #[verifier::type_invariant]
    spec fn names_only(&self) -> bool {
        all_names(texts(self.parts@))
    }

    /// The served directory itself.
    pub fn root() -> (out: ServePath)
        ensures
            out@ == Seq::<Seq<char>>::empty(),
    {
        let parts: Vec<String> = Vec::new();
        ServePath { parts }
    }

    /// Whether this is the served directory itself.
    pub fn is_root(&self) -> (yes: bool)
        ensures
            yes == (self@.len() == 0),
            all_names(self@),
    {
        proof {
            use_type_invariant(self);
        }
        self.parts.len() == 0
    }

    /// The directory that holds this place; `None` for the served directory.
    pub fn parent(&self) -> (out: Option<ServePath>)
        ensures
            out is Some <==> self@.len() > 0,
            out matches Some(dir) ==> dir@ == self@.drop_last(),
    {
        proof {
            use_type_invariant(self);
        }
        if self.parts.len() == 0 {
            return None;
        }
        let mut parts = copy_parts(&self.parts);
        parts.pop();
        assert forall|i: int| 0 <= i < texts(parts@).len() implies is_name(
            #[trigger] texts(parts@)[i],
        ) by {
            assert(texts(parts@)[i] == self@[i]);
        }
        Some(ServePath { parts })
    }

    /// The last name of the path; `None` for the served directory.
    pub fn file_name(&self) -> (out: Option<&str>)
        ensures
            out is Some <==> self@.len() > 0,
            out matches Some(name) ==> name@ == self@.last() && is_name(name@),
    {
        proof {
            use_type_invariant(self);
        }
        if self.parts.len() == 0 {
            None
        } else {
            Some(self.parts[self.parts.len() - 1].as_str())
        }
    }

    /// The place called `name` in this directory; `None` where `name` is not
    /// a name: where it is empty, `.` or `..`, or holds a separator.
    pub fn child(&self, name: &str) -> (out: Option<ServePath>)
        ensures
            out is Some <==> is_name(name@),
            out matches Some(path) ==> path@ == self@.push(name@),
    {
        proof {
            use_type_invariant(self);
        }
        if !is_name_text(name) {
            return None;
        }
        let mut parts = copy_parts(&self.parts);
        push_line(&mut parts, String::from_str(name));
        Some(ServePath { parts })
    }

    /// The path as a URL shows it: `/` for the served directory, else `/`
    /// before each of its names.
    pub fn to_url(&self) -> (out: String)
        ensures
            out@ == url_of(self@),
    {
        let mut out = String::new();
        out.push(SEPARATOR);
        let rest = join(&self.parts);
        out.append(rest.as_str());
        out
    }

    /// The URL of what is called `name` in this directory, whatever `name`
    /// holds.
    pub fn url_with(&self, name: &str) -> (out: String)
        ensures
            out@ == url_of(self@.push(name@)),
    {
        let mut parts = copy_parts(&self.parts);
        push_line(&mut parts, String::from_str(name));
        let mut out = String::new();
        out.push(SEPARATOR);
        let rest = join(&parts);
        out.append(rest.as_str());
        out
    }

    /// The path as the listing page names it: its names with separators
    /// between them, and nothing before the first.
    pub fn label(&self) -> (out: String)
        ensures
            out@ == join_path(self@),
    {
        join(&self.parts)
    }
}

impl Clone for ServePath {
    fn clone(&self) -> (out: ServePath)
        ensures
            out@ == self@,
    {
        proof {
            use_type_invariant(self);
        }
        ServePath { parts: copy_parts(&self.parts) }
    }
}

} // verus!
