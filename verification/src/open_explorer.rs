//! Opening the browser at the server's address.
//!
//! Which program shows a URL depends on the platform.  This module names the
//! program and its arguments; starting it is left to the caller.

use crate::text::{push_line, same_text, texts};
use vstd::prelude::*;

verus! {

/// The platform that the server runs on.
#[derive(Clone, Copy, Debug, PartialEq, Eq, Structural)]
pub enum Platform {
    Windows,
    Linux,
    MacOs,
    /// Any platform on which no program is known to open a URL.
    Other,
}

/// A program to start, and the arguments to start it with.
#[derive(Clone, Debug, PartialEq, Eq)]
pub struct Launch {
    pub program: String,
    pub args: Vec<String>,
}

/// The model of a `Launch`.
pub struct LaunchModel {
    pub program: Seq<char>,
    pub args: Seq<Seq<char>>,
}

impl View for Launch {
    type V = LaunchModel;

    open spec fn view(&self) -> LaunchModel {
        LaunchModel { program: self.program@, args: texts(self.args@) }
    }
}

/// The value of `PREFIX` in the environment of a Termux shell, where there
/// is no browser to open.
pub open spec fn termux_prefix() -> Seq<char> {
    "/data/data/com.termux/files/usr"@
}

/// What opens `url` on `platform`, where the environment holds `prefix` as
/// the value of `PREFIX`: nothing on a platform without a known opener and
/// nothing in a Termux shell, else the opener of the platform with the URL as
/// its last argument.
pub open spec fn launch_of(url: Seq<char>, platform: Platform, prefix: Option<Seq<char>>) -> Option<
    LaunchModel,
> {
    match platform {
        Platform::Windows => Some(
            LaunchModel { program: "rundll32"@, args: seq!["url.dll,FileProtocolHandler"@, url] },
        ),
        Platform::Linux => if prefix == Some(termux_prefix()) {
            None
        } else {
            Some(LaunchModel { program: "xdg-open"@, args: seq![url] })
        },
        Platform::MacOs => Some(LaunchModel { program: "open"@, args: seq![url] }),
        Platform::Other => None,
    }
}

/// What opens `url` in the browser on `platform`, if anything does; `prefix`
/// is the value of `PREFIX` in the environment, if it is set.
pub fn open(url: &str, platform: Platform, prefix: Option<&str>) -> (out: Option<Launch>)
    ensures
        match out {
            Some(launch) => launch_of(
                url@,
                platform,
                match prefix {
                    Some(p) => Some(p@),
                    None => None,
                },
            ) == Some(launch@),
            None => launch_of(
                url@,
                platform,
                match prefix {
                    Some(p) => Some(p@),
                    None => None,
                },
            ) is None,
        },
{
    let mut args: Vec<String> = Vec::new();
    match platform {
        Platform::Windows => {
            push_line(&mut args, String::from_str("url.dll,FileProtocolHandler"));
            push_line(&mut args, String::from_str(url));
            assert(texts(args@) =~= seq!["url.dll,FileProtocolHandler"@, url@]);
            Some(Launch { program: String::from_str("rundll32"), args })
        },
        Platform::Linux => {
            let termux = match prefix {
                Some(p) => same_text(p, "/data/data/com.termux/files/usr"),
                None => false,
            };
            if termux {
                None
            } else {
                push_line(&mut args, String::from_str(url));
                assert(texts(args@) =~= seq![url@]);
                Some(Launch { program: String::from_str("xdg-open"), args })
            }
        },
        Platform::MacOs => {
            push_line(&mut args, String::from_str(url));
            assert(texts(args@) =~= seq![url@]);
            Some(Launch { program: String::from_str("open"), args })
        },
        Platform::Other => None,
    }
}

} // verus!
