//! HTTP versions: 1.0, 1.1, 2 and 3.
use vstd::prelude::*;

use crate::text::{chars_of, is_plain_upper, same_between, to_upper, upper_of};

verus! {

/// An HTTP version, one of 1.0, 1.1, 2 and 3.
#[derive(Debug, Clone, Copy, PartialEq, Eq, PartialOrd, Ord, Hash, Structural)]
pub struct Version {
    major: char,
    minor: char,
}

/// The (major, minor) digit pairs of the known versions.
pub open spec fn is_known_version(v: (char, char)) -> bool {
    ||| v == ('1', '0')
    ||| v == ('1', '1')
    ||| v == ('2', '0')
    ||| v == ('3', '0')
}

/// Wire text of a version: `HTTP/<major>`, with `.<minor>` when the minor is not 0.
pub open spec fn render_version(v: (char, char)) -> Seq<char> {
    if v.1 == '0' {
        seq!['H', 'T', 'T', 'P', '/', v.0]
    } else {
        seq!['H', 'T', 'T', 'P', '/', v.0, '.', v.1]
    }
}

/// The version that an upper-case token names: `HTTP/<major>` or
/// `HTTP/<major>.<minor>`, a missing minor read as 0.
pub open spec fn version_named(t: Seq<char>) -> Option<(char, char)> {
    let prefix = seq!['H', 'T', 'T', 'P', '/'];
    if t.len() == 6 && t.take(5) == prefix && is_known_version((t[5], '0')) {
        Some((t[5], '0'))
    } else if t.len() == 8 && t.take(5) == prefix && t[6] == '.' && is_known_version(
        (t[5], t[7]),
    ) {
        Some((t[5], t[7]))
    } else {
        None
    }
}

/// The version that a token names once upper-cased by `str::to_uppercase`.
pub open spec fn parse_version(token: Seq<char>) -> Option<(char, char)> {
    version_named(upper_of(token))
}

/// Round trip: every version renders to a text that parses back to it, and
/// rendering what was parsed from that text gives the text again. The text is
/// upper-case ASCII, which upper-casing leaves as it is: `to_upper` states so
/// of every such text.
pub proof fn lemma_version_round_trip(v: (char, char))
    requires
        is_known_version(v),
        upper_of(render_version(v)) == render_version(v),
    ensures
        is_plain_upper(render_version(v)),
        parse_version(render_version(v)) == Some(v),
        render_version(parse_version(render_version(v))->Some_0) == render_version(v),
{
    let t = render_version(v);
    assert(t.take(5) =~= seq!['H', 'T', 'T', 'P', '/']);
}

impl View for Version {
    type V = (char, char);

    closed spec fn view(&self) -> (char, char) {
        (self.major, self.minor)
    }
}

/// Why a text is not a [`Version`]; it holds that text.
#[derive(Debug, Clone)]
pub struct InvalidHTTPVersionError {
    entry: String,
}

impl View for InvalidHTTPVersionError {
    type V = Seq<char>;

    closed spec fn view(&self) -> Seq<char> {
        self.entry@
    }
}

impl InvalidHTTPVersionError {
    /// The error for the text `entry`.
    pub fn new(entry: &str) -> (r: InvalidHTTPVersionError)
        ensures
            r@ == entry@,
    {
        InvalidHTTPVersionError { entry: entry.to_owned() }
    }

    /// Message that describes the error.
    pub fn to_string(&self) -> (r: String)
        ensures
            r@ == "Invalid HTTP version: '"@ + self@ + "'"@,
    {
        "Invalid HTTP version: '".to_owned().concat(self.entry.as_str()).concat("'")
    }
}

impl Version {
    #[verifier::type_invariant]
    spec fn inv(&self) -> bool {
        is_known_version((self.major, self.minor))
    }

    /// HTTP/1.0, written `HTTP/1`.
    pub fn http_1() -> (r: Version)
        ensures
            r@ == ('1', '0'),
    {
        Version { major: '1', minor: '0' }
    }

    /// HTTP/1.1.
    pub fn http_1_1() -> (r: Version)
        ensures
            r@ == ('1', '1'),
    {
        Version { major: '1', minor: '1' }
    }

    /// HTTP/2.
    pub fn http_2() -> (r: Version)
        ensures
            r@ == ('2', '0'),
    {
        Version { major: '2', minor: '0' }
    }

    /// HTTP/3.
    pub fn http_3() -> (r: Version)
        ensures
            r@ == ('3', '0'),
    {
        Version { major: '3', minor: '0' }
    }

    /// The version is always one of the known four.
    pub fn major_minor(&self) -> (r: (char, char))
        ensures
            r == self@,
            is_known_version(r),
    {
        proof {
            use_type_invariant(self);
        }
        (self.major, self.minor)
    }

    /// The version that `line` names once upper-cased by `str::to_uppercase`,
    /// or the error that holds `line`.
    pub fn try_from_line(line: &str) -> (r: Result<Version, InvalidHTTPVersionError>)
        ensures
            match parse_version(line@) {
                Some(v) => r is Ok && r->Ok_0@ == v,
                None => r is Err && r->Err_0@ == line@,
            },
    {
        let upper = to_upper(line);
        match Version::from_upper(upper.as_str()) {
            Some(v) => Ok(v),
            None => Err(InvalidHTTPVersionError::new(line)),
        }
    }

    /// The version that the upper-case text `upper` names exactly.
    pub fn from_upper(upper: &str) -> (r: Option<Version>)
        ensures
            match version_named(upper@) {
                Some(v) => r is Some && r->Some_0@ == v,
                None => r is None,
            },
    {
        let t = chars_of(upper);
        let n = t.len();
        proof {
            reveal_strlit("HTTP/");
            assert("HTTP/"@ =~= seq!['H', 'T', 'T', 'P', '/']);
            if n >= 5 {
                assert(upper@.take(5) =~= t@.subrange(0, 5));
            }
        }
        if (n == 6 || n == 8) && same_between(&t, 0, 5, "HTTP/") {
            let major = t[5];
            let minor = if n == 8 && t[6] == '.' {
                t[7]
            } else if n == 6 {
                '0'
            } else {
                'x'
            };
            let known = (major == '1' && (minor == '0' || minor == '1')) || ((major == '2'
                || major == '3') && minor == '0');
            if known {
                return Some(Version { major, minor });
            }
        }
        None
    }

    /// Wire text of the version: `HTTP/1`, `HTTP/1.1`, `HTTP/2` or `HTTP/3`.
    pub fn to_string(&self) -> (r: String)
        ensures
            r@ == render_version(self@),
    {
        proof {
            use_type_invariant(self);
            reveal_strlit("HTTP/1");
            reveal_strlit("HTTP/1.1");
            reveal_strlit("HTTP/2");
            reveal_strlit("HTTP/3");
        }
        let text = if self.minor == '1' {
            "HTTP/1.1"
        } else if self.major == '1' {
            "HTTP/1"
        } else if self.major == '2' {
            "HTTP/2"
        } else {
            "HTTP/3"
        };
        text.to_owned()
    }
}

impl Default for Version {
    /// HTTP/1.1.
    fn default() -> (r: Version)
        ensures
            r@ == ('1', '1'),
    {
        Version::http_1_1()
    }
}

impl std::str::FromStr for Version {
    type Err = InvalidHTTPVersionError;

    fn from_str(s: &str) -> Result<Version, InvalidHTTPVersionError> {
        Self::try_from_line(s)
    }
}

} // verus!
