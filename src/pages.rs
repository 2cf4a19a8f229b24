//! Small services that come with the server: a greeting, a probe for
//! multipart bodies, and static files.
use std::path::PathBuf;
use tokio_core::reactor::Handle;
use vstd::prelude::*;

verus! {

#[verifier::external_type_specification]
#[verifier::external_body]
pub struct ExHandle(Handle);

/// Answers every request with the same greeting.
pub struct HelloWorld;

impl HelloWorld {
    /// The greeting, grown one piece at a time.
    pub fn body(&self) -> (r: String)
        ensures
            r@ == "hello, hello2, hello3, hello4"@,
    {
        proof {
            reveal_strlit("hello");
            reveal_strlit(", hello2");
            reveal_strlit(", hello3");
            reveal_strlit(", hello4");
            reveal_strlit("hello, hello2, hello3, hello4");
        }
        let mut text = String::from_str("hello");
        text.append(", hello2");
        text.append(", hello3");
        text.append(", hello4");
        proof {
            assert(text@ =~= "hello, hello2, hello3, hello4"@);
        }
        text
    }
}

/// Tells whether a request carries a multipart body.
pub struct MultipartTest;

/// The reply of `MultipartTest`: `"multipart"`, or `"Not multipart "`
/// followed by what describes the request that was not.
pub open spec fn multipart_reply(rejected: Option<Seq<char>>) -> Seq<char> {
    match rejected {
        None => "multipart"@,
        Some(d) => "Not multipart "@ + d,
    }
}

impl MultipartTest {
    /// The reply for a request: `rejected` is `None` when its body is
    /// multipart, and otherwise describes the request.
    pub fn write_resp(&self, rejected: Option<&str>) -> (r: String)
        ensures
            r@ == multipart_reply(
                match rejected {
                    Some(d) => Some(d@),
                    None => None,
                },
            ),
    {
        match rejected {
            None => String::from_str("multipart"),
            Some(detail) => {
                let mut text = String::from_str("Not multipart ");
                text.append(detail);
                text
            },
        }
    }
}

/// The page shown in place of a static file that could not be served.
pub const HTML_ERROR: &'static str = "<!DOCTYPE html>
<html>
    <head>
        <meta charset=\"UTF-8\">
        <title>Page not found</title>
    </head>
    <body>
        <h1>Page not found</h1>
    </body>
</html>";

/// Serves the files under a root directory.
pub struct StaticRouterService {
    root: PathBuf,
}

impl StaticRouterService {
    pub closed spec fn root_view(&self) -> PathBuf {
        self.root
    }

    /// A service for the files under `path`.
    pub fn new(_handle: &Handle, path: PathBuf) -> (r: StaticRouterService)
        ensures
            r.root_view() == path,
    {
        StaticRouterService { root: path }
    }

    /// The directory the files are served from.
    pub fn root(&self) -> (r: &PathBuf)
        ensures
            *r == self.root_view(),
    {
        &self.root
    }

    /// The body that replaces a static reply with `status`: the error page
    /// for a client or server error, nothing (the file goes out) otherwise.
    pub fn error_page_for(&self, status: u16) -> (r: Option<&'static str>)
        ensures
            r is Some <==> status >= 400,
            r matches Some(page) ==> page@ == HTML_ERROR@,
    {
        if status >= 400 {
            Some(HTML_ERROR)
        } else {
            None
        }
    }
}

} // verus!
