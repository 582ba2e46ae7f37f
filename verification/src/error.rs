//! Errors produced while resolving an Omarchy theme.

use vstd::prelude::*;

use crate::text::{chars_of, push_char};

verus! {

#[verifier::external_type_specification]
#[verifier::external_body]
pub struct ExIoError(std::io::Error);

/// Errors produced while resolving an Omarchy theme.
#[derive(Debug)]
pub enum Error {
    /// An I/O failure while reading theme state.
    Io(std::io::Error),
    /// No theme is currently staged (`current/theme` missing or unreadable).
    NoTheme,
    /// A required palette key could not be resolved even after the fallback
    /// cascade (only possible for malformed themes).
    MissingKey(String),
    /// A value could not be parsed as expected.
    Parse(String),
}

pub type Result<T> = core::result::Result<T, Error>;

/// `s` followed by `t`, appended in place.
pub fn append(s: &mut String, t: &str)
    ensures
        final(s)@ == old(s)@ + t@,
{
    let v = chars_of(t);
    let ghost s0 = s@;
    let mut i: usize = 0;
    while i < v.len()
        invariant
            i <= v@.len(),
            v@ == t@,
            s@ == s0 + v@.subrange(0, i as int),
        decreases v@.len() - i,
    {
        push_char(s, v[i]);
        i += 1;
        proof {
            assert(s@ =~= s0 + v@.subrange(0, i as int));
        }
    }
    proof {
        assert(v@.subrange(0, v@.len() as int) =~= v@);
    }
}

/// `std::io::Error`'s `Display` text: the operating system's description
/// of the failure. Nothing is promised of its wording, which depends on the
/// platform and the locale.
#[verifier::external_body]
fn io_error_text(e: &std::io::Error) -> String {
    format!("{e}")
}

/// The message of an error, as its display text.
pub open spec fn error_message_prefix(e: &Error) -> Seq<char> {
    match e {
        Error::Io(_) => "io error: "@,
        Error::NoTheme => "no omarchy theme is currently staged"@,
        Error::MissingKey(k) => "palette key `"@ + k@ + "` could not be resolved"@,
        Error::Parse(m) => "parse error: "@ + m@,
    }
}

impl Error {
    /// The error's message: `io error: <os text>`, `no omarchy theme is
    /// currently staged`, ``palette key `<k>` could not be resolved``, or
    /// `parse error: <m>`.
    pub fn describe(&self) -> (s: String)
        ensures
            !(self is Io) ==> s@ == error_message_prefix(self),
            self is Io ==> s@.len() >= error_message_prefix(self).len() && s@.subrange(
                0,
                error_message_prefix(self).len() as int,
            ) == error_message_prefix(self),
    {
        match self {
            Error::Io(e) => {
                let mut s = "io error: ".to_owned();
                let ghost head = s@;
                let t = io_error_text(e);
                append(&mut s, t.as_str());
                proof {
                    assert(s@.subrange(0, head.len() as int) =~= head);
                }
                s
            },
            Error::NoTheme => "no omarchy theme is currently staged".to_owned(),
            Error::MissingKey(k) => {
                let mut s = "palette key `".to_owned();
                append(&mut s, k.as_str());
                append(&mut s, "` could not be resolved");
                s
            },
            Error::Parse(m) => {
                let mut s = "parse error: ".to_owned();
                append(&mut s, m.as_str());
                s
            },
        }
    }
}

impl From<std::io::Error> for Error {
    fn from(e: std::io::Error) -> (r: Error) {
        Error::Io(e)
    }
}

impl vstd::std_specs::convert::FromSpecImpl<std::io::Error> for Error {
    open spec fn obeys_from_spec() -> bool {
        true
    }

    open spec fn from_spec(e: std::io::Error) -> Error {
        Error::Io(e)
    }
}

} // verus!
