//! HTTP statuses of a small closed registry.
use vstd::prelude::*;

use crate::text::same_text;

verus! {

/// An HTTP status: a code of the registry, with its reason phrase.
///
/// Statuses are ordered by their codes.
#[derive(Debug, Clone, Copy, PartialEq, Eq, PartialOrd, Ord, Hash, Structural)]
pub struct Status {
    code: u16,
}

/// The codes of the registry.
pub open spec fn is_known_status(code: u16) -> bool {
    code == 200 || code == 400 || code == 404 || code == 500 || code == 503
}

/// Reason phrase of a code of the registry.
pub open spec fn status_reason(code: u16) -> Seq<char> {
    if code == 200 {
        seq!['O', 'K']
    } else if code == 400 {
        seq!['B', 'A', 'D', ' ', 'R', 'E', 'Q', 'U', 'E', 'S', 'T']
    } else if code == 404 {
        seq!['N', 'O', 'T', ' ', 'F', 'O', 'U', 'N', 'D']
    } else if code == 500 {
        seq!['I', 'N', 'T', 'E', 'R', 'N', 'A', 'L', ' ', 'E', 'R', 'R', 'O', 'R']
    } else {
        seq![
            'S', 'E', 'R', 'V', 'I', 'C', 'E', ' ', 'U', 'N', 'A', 'V', 'A', 'I', 'L', 'A', 'B', 'L', 'E'
        ]
    }
}

/// Three-digit text of a code of the registry.
pub open spec fn status_digits(code: u16) -> Seq<char> {
    if code == 200 {
        seq!['2', '0', '0']
    } else if code == 400 {
        seq!['4', '0', '0']
    } else if code == 404 {
        seq!['4', '0', '4']
    } else if code == 500 {
        seq!['5', '0', '0']
    } else {
        seq!['5', '0', '3']
    }
}

/// Wire text of a status: `<code> <reason>`.
pub open spec fn render_status(code: u16) -> Seq<char> {
    status_digits(code) + seq![' '] + status_reason(code)
}

/// The code whose wire text is `text`, if any.
pub open spec fn parse_status(text: Seq<char>) -> Option<u16> {
    if text == render_status(200) {
        Some(200u16)
    } else if text == render_status(400) {
        Some(400u16)
    } else if text == render_status(404) {
        Some(404u16)
    } else if text == render_status(500) {
        Some(500u16)
    } else if text == render_status(503) {
        Some(503u16)
    } else {
        None
    }
}

/// Round trip: every status renders to a text that parses back to it, and
/// rendering what was parsed from that text gives the text again.
pub proof fn lemma_status_round_trip(code: u16)
    requires
        is_known_status(code),
    ensures
        parse_status(render_status(code)) == Some(code),
        render_status(parse_status(render_status(code))->Some_0) == render_status(code),
{
    assert(render_status(200).len() == 6);
    assert(render_status(400).len() == 15);
    assert(render_status(404).len() == 13);
    assert(render_status(500).len() == 18);
    assert(render_status(503).len() == 23);
}

impl View for Status {
    type V = u16;

    closed spec fn view(&self) -> u16 {
        self.code
    }
}

impl Status {
    #[verifier::type_invariant]
    spec fn inv(&self) -> bool {
        is_known_status(self.code)
    }

    /// `200 OK`.
    pub fn ok() -> (r: Status)
        ensures
            r@ == 200,
    {
        Status { code: 200 }
    }

    /// `400 BAD REQUEST`.
    pub fn bad_request() -> (r: Status)
        ensures
            r@ == 400,
    {
        Status { code: 400 }
    }

    /// `404 NOT FOUND`.
    pub fn not_found() -> (r: Status)
        ensures
            r@ == 404,
    {
        Status { code: 404 }
    }

    /// `500 INTERNAL ERROR`.
    pub fn internal_error() -> (r: Status)
        ensures
            r@ == 500,
    {
        Status { code: 500 }
    }

    /// `503 SERVICE UNAVAILABLE`.
    pub fn service_unavailable() -> (r: Status)
        ensures
            r@ == 503,
    {
        Status { code: 503 }
    }

    /// The numeric code, always one of the registry.
    pub fn code(&self) -> (r: u16)
        ensures
            r == self@,
            is_known_status(r),
    {
        proof {
            use_type_invariant(self);
        }
        self.code
    }

    /// The reason phrase.
    pub fn reason(&self) -> (r: &'static str)
        ensures
            r@ == status_reason(self@),
    {
        proof {
            use_type_invariant(self);
            reveal_strlit("OK");
            reveal_strlit("BAD REQUEST");
            reveal_strlit("NOT FOUND");
            reveal_strlit("INTERNAL ERROR");
            reveal_strlit("SERVICE UNAVAILABLE");
        }
        if self.code == 200 {
            "OK"
        } else if self.code == 400 {
            "BAD REQUEST"
        } else if self.code == 404 {
            "NOT FOUND"
        } else if self.code == 500 {
            "INTERNAL ERROR"
        } else {
            "SERVICE UNAVAILABLE"
        }
    }

    /// Wire text of the status: `<code> <reason>`.
    pub fn to_string(&self) -> (r: String)
        ensures
            r@ == render_status(self@),
    {
        proof {
            use_type_invariant(self);
            reveal_strlit("200 OK");
            reveal_strlit("400 BAD REQUEST");
            reveal_strlit("404 NOT FOUND");
            reveal_strlit("500 INTERNAL ERROR");
            reveal_strlit("503 SERVICE UNAVAILABLE");
        }
        let text = if self.code == 200 {
            "200 OK"
        } else if self.code == 400 {
            "400 BAD REQUEST"
        } else if self.code == 404 {
            "404 NOT FOUND"
        } else if self.code == 500 {
            "500 INTERNAL ERROR"
        } else {
            "503 SERVICE UNAVAILABLE"
        };
        assert(text@ =~= render_status(self.code));
        text.to_owned()
    }

    /// The status whose wire text is `text`, if there is one.
    pub fn parse(text: &str) -> (r: Option<Status>)
        ensures
            match parse_status(text@) {
                Some(c) => r is Some && r->Some_0@ == c,
                None => r is None,
            },
    {
        let codes: [u16; 5] = [200, 400, 404, 500, 503];
        let mut i: usize = 0;
        while i < 5
            invariant
                i <= 5,
                codes@ == seq![200u16, 400, 404, 500, 503],
                forall|j: int| 0 <= j < i ==> text@ != render_status(#[trigger] codes@[j]),
            decreases 5 - i,
        {
            let s = Status { code: codes[i] };
            let rendered = s.to_string();
            if same_text(text, rendered.as_str()) {
                return Some(s);
            }
            i = i + 1;
        }
        None
    }
}

} // verus!
