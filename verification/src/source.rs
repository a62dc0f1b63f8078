//! Source resolver: decide where the raw image bytes for a request come
//! from. A configured local directory is tried first; only when it misses is
//! the configured remote origin consulted, and when both miss the source is
//! absent.

use vstd::prelude::*;
use vstd::string::*;

verus! {

/// Static configuration of the origins: an optional local base directory and
/// an optional remote base URL. At least one should be configured for the
/// service to be useful.
pub struct Config {
    pub local_dir: Option<String>,
    pub remote_base: Option<String>,
}

impl Config {
    /// At least one origin is configured.
    pub open spec fn usable_spec(&self) -> bool {
        self.local_dir is Some || self.remote_base is Some
    }

    /// At least one origin is configured; a service without any origin can
    /// never produce bytes and is refused at startup.
    pub fn is_usable(&self) -> (r: bool)
        ensures
            r == self.usable_spec(),
    {
        self.local_dir.is_some() || self.remote_base.is_some()
    }
}

/// `base` and `rel` joined with exactly one separating slash, whether or not
/// `base` ends with one or `rel` starts with one.
pub open spec fn join_spec(base: Seq<char>, rel: Seq<char>) -> Seq<char> {
    let b = if base.len() > 0 && base.last() == '/' {
        base.drop_last()
    } else {
        base
    };
    let r = if rel.len() > 0 && rel.first() == '/' {
        rel.drop_first()
    } else {
        rel
    };
    b + seq!['/'] + r
}

/// Join a configured base (directory path or URL) and a relative path so
/// that exactly one slash separates them.
pub fn join_path(base: &str, rel: &str) -> (r: String)
    ensures
        r@ == join_spec(base@, rel@),
{
    proof {
        reveal_strlit("/");
    }
    let base_len = base.unicode_len();
    let trimmed_base: &str = if base_len > 0 && base.get_char(base_len - 1) == '/' {
        base.substring_char(0, base_len - 1)
    } else {
        base
    };
    let rel_len = rel.unicode_len();
    let trimmed_rel: &str = if rel_len > 0 && rel.get_char(0) == '/' {
        rel.substring_char(1, rel_len)
    } else {
        rel
    };
    let mut out = trimmed_base.to_owned();
    out.append("/");
    out.append(trimmed_rel);
    proof {
        assert(out@ =~= join_spec(base@, rel@));
    }
    out
}

/// The remote origin is consulted only when the local lookup missed.
pub fn needs_remote(local: &Option<Vec<u8>>) -> (r: bool)
    ensures
        r <==> local is None,
{
    local.is_none()
}

/// Pick the bytes the pipeline will work on: the local bytes whenever the
/// local lookup produced any, the remote bytes otherwise. `None` means both
/// origins missed and the source is absent.
pub fn select_source(local: Option<Vec<u8>>, remote: Option<Vec<u8>>) -> (r: Option<Vec<u8>>)
    ensures
        r == if local is Some {
            local
        } else {
            remote
        },
{
    match local {
        Some(b) => Some(b),
        None => remote,
    }
}

} // verus!
