//! The names under which page templates are registered and looked up, and
//! the rule for serving static files. A template is named after its path
//! below the site's root; in template names an underscore stands for a
//! slash.

use vstd::prelude::*;
use vstd::string::{StrSliceExecFns, StringExecFns};
use crate::text::str_eq;

verus! {

/// The address of the development server that renders pages live.
pub const DEV_SERVER: &'static str = "http://localhost:4321/";

/// A text in which every occurrence of one character is replaced by
/// another text.
pub open spec fn replaced(s: Seq<char>, from: char, to: Seq<char>) -> Seq<char>
    decreases s.len(),
{
    if s.len() == 0 {
        Seq::empty()
    } else if s.last() == from {
        replaced(s.drop_last(), from, to) + to
    } else {
        replaced(s.drop_last(), from, to).push(s.last())
    }
}

/// Whether a text ends with another.
pub open spec fn ends_with_spec(s: Seq<char>, suffix: Seq<char>) -> bool {
    suffix.len() <= s.len() && s.subrange(s.len() - suffix.len(), s.len() as int) == suffix
}

/// The key under which a template is looked up: its name with a slash for
/// every underscore.
pub open spec fn template_key_spec(name: Seq<char>) -> Seq<char> {
    replaced(name, '_', "/"@)
}

/// The path of a page on the development server: empty for the page
/// `index`, and the template's key for every other page.
pub open spec fn dev_path_spec(name: Seq<char>) -> Seq<char> {
    if name == "index"@ {
        Seq::empty()
    } else {
        template_key_spec(name)
    }
}

/// The name under which the template in a file is registered: `index` for
/// the root's `index.html`; the directory for any other `index.html`; the
/// path without its ending for any other `.html` file; and else the path.
/// Backslashes in the path count as slashes.
pub open spec fn template_name_spec(path: Seq<char>) -> Seq<char> {
    let p = replaced(path, '\\', "/"@);
    if p == "index.html"@ {
        "index"@
    } else if ends_with_spec(p, "/index.html"@) {
        p.subrange(0, p.len() - "/index.html"@.len())
    } else if ends_with_spec(p, ".html"@) {
        p.subrange(0, p.len() - ".html"@.len())
    } else {
        p
    }
}

/// Replaces every occurrence of a character in a text by another text.
pub fn replace_char(s: &str, from: char, to: &str) -> (r: String)
    ensures
        r@ == replaced(s@, from, to@),
{
    let n = s.unicode_len();
    let mut out = String::new();
    let mut start: usize = 0;
    let mut i: usize = 0;
    for c in it: s.chars()
        invariant
            it.seq() == s@,
            n == s@.len(),
            i == it.index(),
            start <= i <= n,
            out@ + s@.subrange(start as int, i as int) == replaced(
                s@.subrange(0, i as int),
                from,
                to@,
            ),
    {
        assert(c == s@[i as int]);
        proof {
            let before = s@.subrange(0, i as int);
            let upto = s@.subrange(0, i + 1);
            assert(upto.drop_last() == before);
            assert(upto.last() == c);
        }
        if c == from {
            out.append(s.substring_char(start, i));
            out.append(to);
            start = i + 1;
            assert(s@.subrange(start as int, i + 1) == Seq::<char>::empty());
        } else {
            assert(s@.subrange(start as int, i + 1) == s@.subrange(start as int, i as int).push(
                c,
            ));
        }
        i += 1;
    }
    out.append(s.substring_char(start, i));
    assert(s@.subrange(0, i as int) == s@);
    out
}

/// Whether a text ends with another.
pub fn ends_with(s: &str, suffix: &str) -> (r: bool)
    ensures
        r == ends_with_spec(s@, suffix@),
{
    let n = s.unicode_len();
    let m = suffix.unicode_len();
    if m > n {
        false
    } else {
        str_eq(s.substring_char(n - m, n), suffix)
    }
}

/// The key under which a template is looked up.
pub fn template_key(name: &str) -> (r: String)
    ensures
        r@ == template_key_spec(name@),
{
    replace_char(name, '_', "/")
}

/// The path of a page on the development server.
pub fn dev_path(name: &str) -> (r: String)
    ensures
        r@ == dev_path_spec(name@),
{
    if str_eq(name, "index") {
        String::new()
    } else {
        template_key(name)
    }
}

/// The address of a page on the development server.
pub fn dev_url(name: &str) -> (r: String)
    ensures
        r@ == DEV_SERVER@ + dev_path_spec(name@),
{
    String::from_str(DEV_SERVER).concat(dev_path(name).as_str())
}

/// The name under which the template in a file is registered.
pub fn template_name(path: &str) -> (r: String)
    ensures
        r@ == template_name_spec(path@),
{
    let p = replace_char(path, '\\', "/");
    let n = p.as_str().unicode_len();
    proof {
        reveal_strlit("/index.html");
        reveal_strlit(".html");
    }
    if str_eq(p.as_str(), "index.html") {
        String::from_str("index")
    } else if ends_with(p.as_str(), "/index.html") {
        String::from_str(p.as_str().substring_char(0, n - 11))
    } else if ends_with(p.as_str(), ".html") {
        String::from_str(p.as_str().substring_char(0, n - 5))
    } else {
        p
    }
}

/// Whether a file of the site is a page template: its name ends in `html`
/// after the last dot.
pub fn is_template_file(extension: Option<&str>) -> (r: bool)
    ensures
        r == (extension matches Some(e) && e@ == "html"@),
{
    match extension {
        Some(e) => str_eq(e, "html"),
        None => false,
    }
}

/// Whether static files are served for a request method: only for `GET`
/// and `HEAD`.
pub fn method_serves_files(method: &str) -> (r: bool)
    ensures
        r == (method@ == "GET"@ || method@ == "HEAD"@),
{
    str_eq(method, "GET") || str_eq(method, "HEAD")
}

} // verus!
