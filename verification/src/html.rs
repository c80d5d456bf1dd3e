//! The two HTML documents the front end serves, rendered by direct
//! substitution.
//!
//! The destination URL and the short code are embedded verbatim, without any
//! escaping; callers that need escaping must do it before rendering.

use vstd::prelude::*;
use vstd::string::*;

verus! {

/// The redirect document for a destination `url`: a zero-delay meta refresh,
/// a clickable link, and the URL once more as literal text, so the URL
/// appears exactly three times.
pub open spec fn redirect_page_spec(url: Seq<char>) -> Seq<char> {
    "<!DOCTYPE html>\n<html>\n<head>\n<title>Redirecting...</title>\n<meta http-equiv=\"refresh\" content=\"0;url="@
        + url
        + "\">\n</head>\n<body>\n<h1>Redirecting...</h1>\n<p>If you are not redirected automatically, <a href=\""@
        + url + "\">click here</a>.</p>\n<p>Original URL: <code>"@ + url
        + "</code></p>\n</body>\n</html>\n"@
}

/// The page reporting that a short `code` has no mapping, naming the code and
/// linking back to the service root.
pub open spec fn not_found_page_spec(code: Seq<char>) -> Seq<char> {
    "<!DOCTYPE html>\n<html>\n<head>\n<title>URL Not Found</title>\n</head>\n<body>\n<h1>URL Not Found</h1>\n<p>The short URL <code>"@
        + code
        + "</code> was not found.</p>\n<p><a href=\"gurt://127.0.0.1:4878/\">Create a new short URL</a></p>\n</body>\n</html>\n"@
}

/// Render the redirect document for `url`.
pub fn render_redirect_page(url: &str) -> (r: String)
    ensures
        r@ == redirect_page_spec(url@),
{
    let mut page =
        "<!DOCTYPE html>\n<html>\n<head>\n<title>Redirecting...</title>\n<meta http-equiv=\"refresh\" content=\"0;url=".to_owned();
    page.append(url);
    page.append(
        "\">\n</head>\n<body>\n<h1>Redirecting...</h1>\n<p>If you are not redirected automatically, <a href=\"",
    );
    page.append(url);
    page.append("\">click here</a>.</p>\n<p>Original URL: <code>");
    page.append(url);
    page.append("</code></p>\n</body>\n</html>\n");
    proof {
        assert(page@ =~= redirect_page_spec(url@));
    }
    page
}

/// Render the not-found document for `code`.
pub fn render_not_found_page(code: &str) -> (r: String)
    ensures
        r@ == not_found_page_spec(code@),
{
    let mut page =
        "<!DOCTYPE html>\n<html>\n<head>\n<title>URL Not Found</title>\n</head>\n<body>\n<h1>URL Not Found</h1>\n<p>The short URL <code>".to_owned();
    page.append(code);
    page.append(
        "</code> was not found.</p>\n<p><a href=\"gurt://127.0.0.1:4878/\">Create a new short URL</a></p>\n</body>\n</html>\n",
    );
    proof {
        assert(page@ =~= not_found_page_spec(code@));
    }
    page
}

} // verus!
