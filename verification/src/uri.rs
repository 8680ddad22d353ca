//! Recognizing `file://` URIs.  The bridge only ever acts on local files.

use vstd::prelude::*;
use vstd::string::StrSliceExecFns;

verus! {

/// Whether a string starts with the `file://` scheme.
pub open spec fn spec_is_file_uri(s: Seq<char>) -> bool {
    s.len() >= 7 && s.subrange(0, 7) == "file://"@
}

/// Checks [`spec_is_file_uri`] in executable code.
pub fn is_file_uri(uri: &str) -> (r: bool)
    ensures
        r == spec_is_file_uri(uri@),
{
    proof {
        reveal_strlit("file://");
    }
    let n = uri.unicode_len();
    if n < 7 {
        return false;
    }
    let ok = uri.get_char(0) == 'f' && uri.get_char(1) == 'i' && uri.get_char(2) == 'l'
        && uri.get_char(3) == 'e' && uri.get_char(4) == ':' && uri.get_char(5) == '/'
        && uri.get_char(6) == '/';
    proof {
        let p = uri@.subrange(0, 7);
        assert(p[0] == uri@[0] && p[1] == uri@[1] && p[2] == uri@[2] && p[3] == uri@[3] && p[4]
            == uri@[4] && p[5] == uri@[5] && p[6] == uri@[6]);
        if ok {
            assert(p =~= "file://"@);
        }
    }
    ok
}

/// The part of a `file://` URI after the scheme.
pub fn uri_local_path<'a>(uri: &'a str) -> (r: &'a str)
    requires
        spec_is_file_uri(uri@),
    ensures
        r@ == uri@.skip(7),
{
    let n = uri.unicode_len();
    let r = uri.substring_char(7, n);
    proof {
        assert(r@ =~= uri@.skip(7));
    }
    r
}

} // verus!
