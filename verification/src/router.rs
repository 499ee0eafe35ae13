//! Which responder serves a request.
//!
//! A request is first resolved to a place in the served directory, or
//! refused (`ServeRoot::resolve`).  A place that is a directory goes to the
//! lister; any other place goes to the file responder, whether anything is
//! there or not, so that a missing file can still be answered with a redirect
//! to a name that begins as it does.  No request is answered with `NotFound`
//! before that.

use crate::error::ErrorKind;
use crate::path::{all_names, is_contained, resolved, target_of, ServePath};
use crate::reply::{error_reply, reply_status, OK};
use vstd::prelude::*;

verus! {

/// The responder for a place, with the place.
#[derive(Clone, Debug, PartialEq, Eq)]
pub enum Route {
    /// The lister answers for the directory at this path.
    Directory(ServePath),
    /// The file responder answers for the file at this path.
    File(ServePath),
}

/// The model of a `Route`.
pub enum RouteModel {
    Directory(Seq<Seq<char>>),
    File(Seq<Seq<char>>),
}

impl View for Route {
    type V = RouteModel;

    open spec fn view(&self) -> RouteModel {
        match self {
            Route::Directory(path) => RouteModel::Directory(path@),
            Route::File(path) => RouteModel::File(path@),
        }
    }
}

/// The responder for the place `target`, of which the file system says
/// whether it is a directory.
pub open spec fn route_of(target: Seq<Seq<char>>, is_dir: bool) -> RouteModel {
    if is_dir {
        RouteModel::Directory(target)
    } else {
        RouteModel::File(target)
    }
}

/// The responder for the place `target`: the lister where `is_dir` says
/// that it is a directory, the file responder where it is anything else or
/// nothing at all.
pub fn handler(target: ServePath, is_dir: bool) -> (route: Route)
    ensures
        route@ == route_of(target@, is_dir),
{
    if is_dir {
        Route::Directory(target)
    } else {
        Route::File(target)
    }
}

/// A request for a place outside the served directory is refused with
/// `PermissionDenied`, and the answer to that refusal never has status 200,
/// with the error page or without it.
pub proof fn lemma_outside_never_served(
    root: Seq<Seq<char>>,
    request: Seq<char>,
    page: Option<Seq<char>>,
)
    requires
        !root.is_prefix_of(target_of(root, request)),
    ensures
        resolved(root, request) == Err::<Seq<Seq<char>>, ErrorKind>(ErrorKind::PermissionDenied),
        reply_status(error_reply(ErrorKind::PermissionDenied, page)) == 403,
        reply_status(error_reply(ErrorKind::PermissionDenied, page)) != OK,
{
}

/// A request that is answered with a place names that place: the served
/// directory followed by the path is where the request leads, and the path
/// holds names alone, none of them `..`.
pub proof fn lemma_served_is_inside(root: Seq<Seq<char>>, request: Seq<char>)
    requires
        all_names(root),
        is_contained(root, request),
    ensures
        resolved(root, request) matches Ok(path) && root + path == target_of(root, request)
            && all_names(path),
{
    crate::path::lemma_outside_is_denied(root, request);
}

} // verus!
