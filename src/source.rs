//! Where the data of a plan comes from.
use vstd::prelude::*;
use crate::error::QueryError;

verus! {

/// How the text of a source is obtained.
#[derive(Debug, Clone, PartialEq)]
pub enum FetchTarget {
    /// A network GET of the whole source string.
    Url(String),
    /// A local read of the path that follows the `file://` prefix.
    File(String),
}

pub open spec fn starts_with_http(s: Seq<char>) -> bool {
    s.len() >= 4 && s.subrange(0, 4) == seq!['h', 't', 't', 'p']
}

pub open spec fn starts_with_file(s: Seq<char>) -> bool {
    s.len() >= 4 && s.subrange(0, 4) == seq!['f', 'i', 'l', 'e']
}

/// The length of the prefix `file://` that a file source drops.
pub const FILE_PREFIX_LEN: usize = 7;

/// A source starting with `http` is fetched from the network as it stands; one
/// starting with `file` (and long enough to hold `file://`) is read from the
/// path after the prefix; any other is refused.
pub fn fetch_target(source: String) -> (r: Result<FetchTarget, QueryError>)
    ensures
        starts_with_http(source@) ==> r == Ok::<FetchTarget, QueryError>(FetchTarget::Url(source)),
        !starts_with_http(source@) && starts_with_file(source@) && source@.len() >= FILE_PREFIX_LEN
            ==> r is Ok && r->Ok_0 is File && r->Ok_0->File_0@ == source@.subrange(
            FILE_PREFIX_LEN as int,
            source@.len() as int,
        ),
        !starts_with_http(source@) && !(starts_with_file(source@) && source@.len()
            >= FILE_PREFIX_LEN) ==> r
            == Err::<FetchTarget, QueryError>(QueryError::UnsupportedSource(source)),
{
    let n = source.as_str().unicode_len();
    if n < 4 {
        return Err(QueryError::UnsupportedSource(source));
    }
    let c0 = source.as_str().get_char(0);
    let c1 = source.as_str().get_char(1);
    let c2 = source.as_str().get_char(2);
    let c3 = source.as_str().get_char(3);
    let ghost head = source@.subrange(0, 4);
    assert(head[0] == c0 && head[1] == c1 && head[2] == c2 && head[3] == c3);
    if c0 == 'h' && c1 == 't' && c2 == 't' && c3 == 'p' {
        assert(head =~= seq!['h', 't', 't', 'p']);
        return Ok(FetchTarget::Url(source));
    }
    if c0 == 'f' && c1 == 'i' && c2 == 'l' && c3 == 'e' && n >= FILE_PREFIX_LEN {
        assert(head =~= seq!['f', 'i', 'l', 'e']);
        let path = String::from_str(source.as_str().substring_char(FILE_PREFIX_LEN, n));
        return Ok(FetchTarget::File(path));
    }
    Err(QueryError::UnsupportedSource(source))
}

} // verus!
