//! Turning OS-level open events into file paths.
//!
//! The operating system hands the application `file://` URLs when the user
//! opens a document through a file association or drops it on the dock.  The
//! URL's path part is percent-encoded; decoding it is delegated to the
//! `urlencoding` crate, and the selection logic around it is decided here.

use vstd::prelude::*;

verus! {

/// Whether a string holds no percent sign, and so no encoded sequence.
pub open spec fn percent_free(s: Seq<char>) -> bool {
    !s.contains('%')
}

/// What percent-decoding a string yields: `None` when the decoded bytes are
/// not valid UTF-8.  The result is a function of the characters alone.
pub uninterp spec fn percent_decoded(s: Seq<char>) -> Option<Seq<char>>;

/// Relies on urlencoding::decode: percent-decodes a string, failing exactly
/// when the decoded bytes are not valid UTF-8; a string holding no `%` is
/// returned unchanged.
#[verifier::external_body]
fn percent_decode(s: &str) -> (r: Option<String>)
    ensures
        r matches Some(d) ==> percent_decoded(s@) == Some(d@),
        r is None ==> percent_decoded(s@) is None,
        percent_free(s@) ==> r is Some && r->0@ == s@,
{
    match urlencoding::decode(s) {
        Ok(d) => Some(d.into_owned()),
        Err(_) => None,
    }
}

/// The local path a `file://` URL points at: the percent-decoded remainder
/// after the scheme prefix, or `None` when the URL has another scheme or its
/// path part does not decode.
pub open spec fn file_url_target(url: Seq<char>) -> Option<Seq<char>> {
    if url.len() >= 7 && url.take(7) == "file://"@ {
        percent_decoded(url.skip(7))
    } else {
        None
    }
}

/// Converts a `file://` URL to a local file path, handling percent-encoding;
/// URLs of any other scheme yield `None`, as does a path part whose decoding
/// fails.
pub fn file_url_to_path(url: &str) -> (r: Option<String>)
    ensures
        r matches Some(p) ==> file_url_target(url@) == Some(p@),
        r is None ==> file_url_target(url@) is None,
{
    let n = url.unicode_len();
    if n < 7 {
        return None;
    }
    proof {
        reveal_strlit("file://");
    }
    if !(url.get_char(0) == 'f' && url.get_char(1) == 'i' && url.get_char(2) == 'l'
        && url.get_char(3) == 'e' && url.get_char(4) == ':' && url.get_char(5) == '/'
        && url.get_char(6) == '/') {
        proof {
            let t = url@.take(7);
            assert(t[0] == url@[0] && t[1] == url@[1] && t[2] == url@[2] && t[3] == url@[3]
                && t[4] == url@[4] && t[5] == url@[5] && t[6] == url@[6]);
            assert(t != "file://"@);
        }
        return None;
    }
    proof {
        assert(url@.take(7) =~= "file://"@);
    }
    let rest = url.substring_char(7, n);
    proof {
        assert(rest@ =~= url@.skip(7));
    }
    percent_decode(rest)
}

/// The path the application opens for a batch of URLs from one OS open
/// event: the first `file://` URL whose path part decodes to a nonempty
/// path.  Later URLs of the batch are ignored, as are URLs of other schemes.
pub open spec fn first_openable(urls: Seq<Seq<char>>) -> Option<Seq<char>>
    decreases urls.len(),
{
    if urls.len() == 0 {
        None
    } else {
        match file_url_target(urls.first()) {
            Option::Some(p) => {
                if p.len() > 0 {
                    Some(p)
                } else {
                    first_openable(urls.drop_first())
                }
            },
            Option::None => first_openable(urls.drop_first()),
        }
    }
}

/// Picks the path to open from the URLs of one OS open event, mirroring the
/// original scan: the first `file://` URL with a nonempty decoded path wins.
pub fn first_file_url_path(urls: &Vec<String>) -> (r: Option<String>)
    ensures
        r matches Some(p) ==> first_openable(urls.deep_view()) == Some(p@),
        r is None ==> first_openable(urls.deep_view()) is None,
{
    let ghost all: Seq<Seq<char>> = urls.deep_view();
    proof {
        assert(all.skip(0) =~= all);
    }
    let n = urls.len();
    let mut i: usize = 0;
    while i < n
        invariant
            i <= n,
            n == urls@.len(),
            urls.deep_view() == all,
            first_openable(all) == first_openable(all.skip(i as int)),
        decreases n - i,
    {
        let ghost remaining = all.skip(i as int);
        proof {
            assert(remaining.len() > 0);
            assert(remaining.first() == all[i as int]);
            assert(remaining.drop_first() =~= all.skip(i + 1));
        }
        match file_url_to_path(urls[i].as_str()) {
            Option::Some(p) => {
                if p.unicode_len() > 0 {
                    return Some(p);
                }
            },
            Option::None => {},
        }
        i += 1;
    }
    proof {
        assert(all.skip(n as int) =~= Seq::<Seq<char>>::empty());
    }
    None
}

} // verus!
