//! Paths as the store lays them out, written as strings and joined the way
//! `PathBuf::push` joins them on Unix.
use vstd::prelude::*;
use vstd::string::*;
use crate::text::{chars_of, push_str};

verus! {

/// `base` joined with `part`: an absolute `part` replaces `base`; otherwise a
/// `/` separates the two unless `base` is empty or already ends with one.
pub open spec fn path_join(base: Seq<char>, part: Seq<char>) -> Seq<char> {
    if part.len() > 0 && part[0] == '/' {
        part
    } else if base.len() > 0 && base.last() != '/' {
        base + seq!['/'] + part
    } else {
        base + part
    }
}

/// Whether a path is absolute on Unix (`Path::is_absolute`): it starts at the root.
pub open spec fn is_absolute_path(p: Seq<char>) -> bool {
    p.len() > 0 && p[0] == '/'
}

pub fn is_absolute(p: &str) -> (r: bool)
    ensures
        r == is_absolute_path(p@),
{
    let v = chars_of(p);
    v.len() > 0 && v[0] == '/'
}

pub fn join(base: &str, part: &str) -> (r: String)
    ensures
        r@ == path_join(base@, part@),
{
    let pv = chars_of(part);
    if pv.len() > 0 && pv[0] == '/' {
        return String::from_str(part);
    }
    let bv = chars_of(base);
    let mut r = String::from_str(base);
    if bv.len() > 0 && bv[bv.len() - 1] != '/' {
        r.push('/');
    }
    push_str(&mut r, part);
    r
}

/// The text a debug listing (`{:?}`) shows for a path: the path in double
/// quotes, with the characters std's `Debug` for paths escapes (single
/// quotes among them) written as escape sequences.
pub uninterp spec fn debug_path(p: Seq<char>) -> Seq<char>;

/// `<Path as Debug>::fmt`, through `format!("{:?}", Path::new(p))`: the
/// path as a debug listing shows it.
#[verifier::external_body]
pub(crate) fn debug_path_text(p: &str) -> (r: String)
    ensures
        r@ == debug_path(p@),
{
    format!("{:?}", std::path::Path::new(p))
}

} // verus!
