//! HTTP methods: a verb of a closed set paired with a non-blank URI.
use vstd::prelude::*;

use crate::text::{
    blank_between, chars_of, find_space, is_blank, is_plain_upper, lemma_space_index,
    lemma_space_index_of_join, same_text, space_index, to_upper, upper_of,
};

verus! {

/// The verbs that a [`Method`] may carry.
#[derive(Debug, Clone, Copy, PartialEq, Eq, Hash, Structural)]
pub enum Verb {
    Get,
    Post,
    Update,
    Patch,
    Delete,
    Head,
    Options,
    Connect,
    Trace,
}

/// Canonical wire text of a verb.
pub open spec fn verb_name(v: Verb) -> Seq<char> {
    match v {
        Verb::Get => seq!['G', 'E', 'T'],
        Verb::Post => seq!['P', 'O', 'S', 'T'],
        Verb::Update => seq!['U', 'P', 'D', 'A', 'T', 'E'],
        Verb::Patch => seq!['P', 'A', 'T', 'C', 'H'],
        Verb::Delete => seq!['D', 'E', 'L', 'E', 'T', 'E'],
        Verb::Head => seq!['H', 'E', 'A', 'D'],
        Verb::Options => seq!['O', 'P', 'T', 'I', 'O', 'N', 'S'],
        Verb::Connect => seq!['C', 'O', 'N', 'N', 'E', 'C', 'T'],
        Verb::Trace => seq!['T', 'R', 'A', 'C', 'E'],
    }
}

/// The verb whose canonical name is exactly `t`.
pub open spec fn verb_named(t: Seq<char>) -> Option<Verb> {
    if t == verb_name(Verb::Get) {
        Some(Verb::Get)
    } else if t == verb_name(Verb::Post) {
        Some(Verb::Post)
    } else if t == verb_name(Verb::Update) {
        Some(Verb::Update)
    } else if t == verb_name(Verb::Patch) {
        Some(Verb::Patch)
    } else if t == verb_name(Verb::Delete) {
        Some(Verb::Delete)
    } else if t == verb_name(Verb::Head) {
        Some(Verb::Head)
    } else if t == verb_name(Verb::Options) {
        Some(Verb::Options)
    } else if t == verb_name(Verb::Connect) {
        Some(Verb::Connect)
    } else if t == verb_name(Verb::Trace) {
        Some(Verb::Trace)
    } else {
        None
    }
}

/// The verb that a token names once upper-cased by `str::to_uppercase`.
pub open spec fn verb_of(token: Seq<char>) -> Option<Verb> {
    verb_named(upper_of(token))
}

/// Every canonical verb name names its own verb, is upper-case ASCII, and
/// holds no space.
pub proof fn lemma_verb_named(v: Verb)
    ensures
        verb_named(verb_name(v)) == Some(v),
        is_plain_upper(verb_name(v)),
        forall|i: int| 0 <= i < verb_name(v).len() ==> verb_name(v)[i] != ' ',
{
    assert(verb_name(Verb::Get) != verb_name(Verb::Post));
    assert(verb_name(Verb::Delete) != verb_name(Verb::Update));
    assert(verb_name(Verb::Connect) != verb_name(Verb::Options));
    assert(verb_name(Verb::Trace) != verb_name(Verb::Patch));
}

impl Verb {
    /// The verb whose canonical name is exactly `upper`: the verb part of a
    /// request line once it is upper-cased.
    pub fn from_upper(upper: &str) -> (r: Option<Verb>)
        ensures
            r == verb_named(upper@),
    {
        if same_text(upper, Verb::Get.name()) {
            Some(Verb::Get)
        } else if same_text(upper, Verb::Post.name()) {
            Some(Verb::Post)
        } else if same_text(upper, Verb::Update.name()) {
            Some(Verb::Update)
        } else if same_text(upper, Verb::Patch.name()) {
            Some(Verb::Patch)
        } else if same_text(upper, Verb::Delete.name()) {
            Some(Verb::Delete)
        } else if same_text(upper, Verb::Head.name()) {
            Some(Verb::Head)
        } else if same_text(upper, Verb::Options.name()) {
            Some(Verb::Options)
        } else if same_text(upper, Verb::Connect.name()) {
            Some(Verb::Connect)
        } else if same_text(upper, Verb::Trace.name()) {
            Some(Verb::Trace)
        } else {
            None
        }
    }

    /// Canonical wire text of the verb.
    pub fn name(&self) -> (r: &'static str)
        ensures
            r@ == verb_name(*self),
    {
        proof {
            reveal_strlit("GET");
            reveal_strlit("POST");
            reveal_strlit("UPDATE");
            reveal_strlit("PATCH");
            reveal_strlit("DELETE");
            reveal_strlit("HEAD");
            reveal_strlit("OPTIONS");
            reveal_strlit("CONNECT");
            reveal_strlit("TRACE");
        }
        match self {
            Verb::Get => "GET",
            Verb::Post => "POST",
            Verb::Update => "UPDATE",
            Verb::Patch => "PATCH",
            Verb::Delete => "DELETE",
            Verb::Head => "HEAD",
            Verb::Options => "OPTIONS",
            Verb::Connect => "CONNECT",
            Verb::Trace => "TRACE",
        }
    }
}

/// Why a text is not a [`Method`].
#[derive(Debug, Clone)]
pub enum InvalidMethodError {
    /// The URI part is missing, empty or white space only; it holds that part.
    InvalidURIError(String),
    /// The verb part is none of the known verbs; it holds that part.
    InvalidVerbError(String),
}

/// Abstract value of an [`InvalidMethodError`].
pub enum MethodFault {
    Uri(Seq<char>),
    Verb(Seq<char>),
}

impl View for InvalidMethodError {
    type V = MethodFault;

    open spec fn view(&self) -> MethodFault {
        match self {
            InvalidMethodError::InvalidURIError(u) => MethodFault::Uri(u@),
            InvalidMethodError::InvalidVerbError(v) => MethodFault::Verb(v@),
        }
    }
}

/// An HTTP method: a verb and the URI it applies to. The URI is never blank.
///
/// Two methods are equal when their verbs and their URIs are.
#[derive(Debug, Eq, Hash)]
pub struct Method {
    verb: Verb,
    uri: String,
}

impl View for Method {
    type V = (Verb, Seq<char>);

    closed spec fn view(&self) -> (Verb, Seq<char>) {
        (self.verb, self.uri@)
    }
}

/// Abstract outcome of building or parsing a method.
pub open spec fn method_result_view(r: Result<Method, InvalidMethodError>) -> Result<
    (Verb, Seq<char>),
    MethodFault,
> {
    match r {
        Ok(m) => Ok(m@),
        Err(e) => Err(e@),
    }
}

/// The method of `verb` on `uri`, or the error for a blank `uri`.
pub open spec fn make_method(verb: Verb, uri: Seq<char>) -> Result<(Verb, Seq<char>), MethodFault> {
    if is_blank(uri) {
        Err(MethodFault::Uri(uri))
    } else {
        Ok((verb, uri))
    }
}

/// The first space-separated part of a line.
pub open spec fn first_part(line: Seq<char>) -> Seq<char> {
    line.take(space_index(line) as int)
}

/// What follows the first space of a line; empty if it has none.
pub open spec fn after_first(line: Seq<char>) -> Seq<char> {
    if space_index(line) < line.len() {
        line.skip(space_index(line) + 1int)
    } else {
        Seq::empty()
    }
}

/// The second space-separated part of a line; empty if it has no space.
pub open spec fn second_part(line: Seq<char>) -> Seq<char> {
    first_part(after_first(line))
}

/// The method that a request line starts with: `VERB URI`, split at single spaces.
/// A blank URI is reported before an unknown verb.
pub open spec fn parse_method(line: Seq<char>) -> Result<(Verb, Seq<char>), MethodFault> {
    let uri = second_part(line);
    if is_blank(uri) {
        Err(MethodFault::Uri(uri))
    } else {
        match verb_of(first_part(line)) {
            Some(v) => Ok((v, uri)),
            None => Err(MethodFault::Verb(first_part(line))),
        }
    }
}

/// Wire text of a method: its verb, one space, its URI.
pub open spec fn render_method(m: (Verb, Seq<char>)) -> Seq<char> {
    verb_name(m.0) + seq![' '] + m.1
}

/// Round trip: a method whose URI holds no space renders to a line that
/// parses back to it, so rendering what was parsed gives the line again.
/// Upper-casing leaves the verb's canonical name as it is: `to_upper` states so
/// of every ASCII text without lower-case letters, which the name is
/// (`lemma_verb_named`).
pub proof fn lemma_method_round_trip(verb: Verb, uri: Seq<char>)
    requires
        upper_of(verb_name(verb)) == verb_name(verb),
        !is_blank(uri),
        forall|i: int| 0 <= i < uri.len() ==> uri[i] != ' ',
    ensures
        parse_method(render_method((verb, uri))) == Ok::<(Verb, Seq<char>), MethodFault>(
            (verb, uri),
        ),
        render_method((verb, uri)) == render_method(
            parse_method(render_method((verb, uri)))->Ok_0,
        ),
{
    let name = verb_name(verb);
    let line = render_method((verb, uri));
    lemma_verb_named(verb);
    lemma_space_index_of_join(name, uri);
    assert(first_part(line) =~= name);
    assert(after_first(line) =~= uri);
    lemma_space_index(uri, uri.len());
    assert(second_part(line) =~= uri);
}

/// A line whose verb part is unknown, or whose URI part is blank, gives no method.
pub proof fn lemma_malformed_rejected(line: Seq<char>)
    requires
        verb_of(first_part(line)) is None || is_blank(second_part(line)),
    ensures
        parse_method(line) is Err,
{
}

impl Method {
    #[verifier::type_invariant]
    spec fn inv(&self) -> bool {
        !is_blank(self.uri@)
    }

    /// The `GET` method on `uri`, or an error if `uri` is blank.
    pub fn get(uri: &str) -> (r: Result<Method, InvalidMethodError>)
        ensures
            method_result_view(r) == make_method(Verb::Get, uri@),
    {
        Self::build(Verb::Get, uri)
    }

    /// The `POST` method on `uri`, or an error if `uri` is blank.
    pub fn post(uri: &str) -> (r: Result<Method, InvalidMethodError>)
        ensures
            method_result_view(r) == make_method(Verb::Post, uri@),
    {
        Self::build(Verb::Post, uri)
    }

    /// The `UPDATE` method on `uri`, or an error if `uri` is blank.
    pub fn update(uri: &str) -> (r: Result<Method, InvalidMethodError>)
        ensures
            method_result_view(r) == make_method(Verb::Update, uri@),
    {
        Self::build(Verb::Update, uri)
    }

    /// The `PATCH` method on `uri`, or an error if `uri` is blank.
    pub fn patch(uri: &str) -> (r: Result<Method, InvalidMethodError>)
        ensures
            method_result_view(r) == make_method(Verb::Patch, uri@),
    {
        Self::build(Verb::Patch, uri)
    }

    /// The `DELETE` method on `uri`, or an error if `uri` is blank.
    pub fn delete(uri: &str) -> (r: Result<Method, InvalidMethodError>)
        ensures
            method_result_view(r) == make_method(Verb::Delete, uri@),
    {
        Self::build(Verb::Delete, uri)
    }

    /// The `HEAD` method on `uri`, or an error if `uri` is blank.
    pub fn head(uri: &str) -> (r: Result<Method, InvalidMethodError>)
        ensures
            method_result_view(r) == make_method(Verb::Head, uri@),
    {
        Self::build(Verb::Head, uri)
    }

    /// The `OPTIONS` method on `uri`, or an error if `uri` is blank.
    pub fn options(uri: &str) -> (r: Result<Method, InvalidMethodError>)
        ensures
            method_result_view(r) == make_method(Verb::Options, uri@),
    {
        Self::build(Verb::Options, uri)
    }

    /// The `CONNECT` method on `uri`, or an error if `uri` is blank.
    pub fn connect(uri: &str) -> (r: Result<Method, InvalidMethodError>)
        ensures
            method_result_view(r) == make_method(Verb::Connect, uri@),
    {
        Self::build(Verb::Connect, uri)
    }

    /// The `TRACE` method on `uri`, or an error if `uri` is blank.
    pub fn trace(uri: &str) -> (r: Result<Method, InvalidMethodError>)
        ensures
            method_result_view(r) == make_method(Verb::Trace, uri@),
    {
        Self::build(Verb::Trace, uri)
    }

    /// The method of `verb` on `uri`, or an error if `uri` is blank.
    pub fn build(verb: Verb, uri: &str) -> (r: Result<Method, InvalidMethodError>)
        ensures
            method_result_view(r) == make_method(verb, uri@),
    {
        match Self::check_uri(uri) {
            Ok(()) => Ok(Method { verb, uri: uri.to_owned() }),
            Err(e) => Err(e),
        }
    }

    /// Nothing if `uri` is not blank, else the error that holds it.
    pub fn check_uri(uri: &str) -> (r: Result<(), InvalidMethodError>)
        ensures
            r is Ok <==> !is_blank(uri@),
            r is Err ==> r->Err_0@ == MethodFault::Uri(uri@),
    {
        let v = chars_of(uri);
        if blank_between(&v, 0, v.len()) {
            assert(v@.subrange(0, v@.len() as int) =~= uri@);
            Err(InvalidMethodError::InvalidURIError(uri.to_owned()))
        } else {
            assert(v@.subrange(0, v@.len() as int) =~= uri@);
            Ok(())
        }
    }

    /// The verb of the method.
    pub fn verb(&self) -> (r: Verb)
        ensures
            r == self@.0,
    {
        self.verb
    }

    /// The URI of the method, which is never blank.
    pub fn uri(&self) -> (r: &str)
        ensures
            r@ == self@.1,
            !is_blank(r@),
    {
        proof {
            use_type_invariant(self);
        }
        self.uri.as_str()
    }

    /// The method that `line` starts with (`VERB URI ...`, split at single spaces),
    /// the verb read after upper-casing by `str::to_uppercase`. A blank or missing URI is
    /// reported first, then an unknown verb.
    pub fn try_from_line(line: &str) -> (r: Result<Method, InvalidMethodError>)
        ensures
            method_result_view(r) == parse_method(line@),
    {
        let v = chars_of(line);
        let k = find_space(&v, 0);
        assert(v@.skip(0) =~= v@);
        let ustart: usize = if k < v.len() { k + 1 } else { v.len() };
        let uend = find_space(&v, ustart);
        proof {
            let rest = after_first(line@);
            assert(first_part(line@) =~= v@.subrange(0, k as int));
            if k < v.len() {
                assert(rest =~= v@.skip(ustart as int));
            } else {
                assert(rest =~= v@.skip(ustart as int));
            }
            assert(second_part(line@) =~= v@.subrange(ustart as int, uend as int));
        }
        if blank_between(&v, ustart, uend) {
            return Err(
                InvalidMethodError::InvalidURIError(line.substring_char(ustart, uend).to_owned()),
            );
        }
        let upper = to_upper(line.substring_char(0, k));
        match Verb::from_upper(upper.as_str()) {
            Some(verb) => {
                let m = Method { verb, uri: line.substring_char(ustart, uend).to_owned() };
                Ok(m)
            },
            None => Err(InvalidMethodError::InvalidVerbError(line.substring_char(0, k).to_owned())),
        }
    }

    /// Wire text of the method: `VERB URI`.
    pub fn to_string(&self) -> (r: String)
        ensures
            r@ == render_method(self@),
    {
        proof {
            reveal_strlit(" ");
        }
        let head = self.verb.name().to_owned().concat(" ");
        head.concat(self.uri.as_str())
    }
}

impl Clone for Method {
    fn clone(&self) -> (r: Method)
        ensures
            r@ == self@,
    {
        proof {
            use_type_invariant(self);
        }
        Method { verb: self.verb, uri: self.uri.clone() }
    }
}

impl PartialEq for Method {
    fn eq(&self, other: &Method) -> (r: bool) {
        self.verb == other.verb && self.uri == other.uri
    }
}

impl vstd::std_specs::cmp::PartialEqSpecImpl for Method {
    open spec fn obeys_eq_spec() -> bool {
        true
    }

    open spec fn eq_spec(&self, other: &Method) -> bool {
        self@ == other@
    }
}

impl InvalidMethodError {
    /// Message that describes the error.
    pub fn to_string(&self) -> (r: String)
        ensures
            r@ == match self@ {
                MethodFault::Uri(u) => "Invalid URI: '"@ + u + "'"@,
                MethodFault::Verb(v) => "Invalid Method: '"@ + v + "'"@,
            },
    {
        match self {
            InvalidMethodError::InvalidURIError(entry) => {
                "Invalid URI: '".to_owned().concat(entry.as_str()).concat("'")
            },
            InvalidMethodError::InvalidVerbError(entry) => {
                "Invalid Method: '".to_owned().concat(entry.as_str()).concat("'")
            },
        }
    }
}

impl std::str::FromStr for Method {
    type Err = InvalidMethodError;

    fn from_str(s: &str) -> Result<Method, InvalidMethodError> {
        Self::try_from_line(s)
    }
}

} // verus!
