//! Errors of the domain and of the repositories.
use vstd::prelude::*;

use crate::outside::{begins_with_message, error_debug_text};

verus! {

/// The kind of a domain error.
#[derive(Debug, PartialEq, Eq, Structural, Clone, Copy)]
pub enum DomainErrorKind {
    InvalidInput,
    Conflict,
    Notfound,
    Forbidden,
    Fail,
}

/// An error of the domain: a kind, a message, an optional cause and the
/// errors it gathers.
#[derive(Debug)]
pub struct DomainError {
    kind: DomainErrorKind,
    message: String,
    source: Option<anyhow::Error>,
    sub_errors: Vec<DomainError>,
}

/// What a domain error holds.
pub struct DomainErrorView {
    pub kind: DomainErrorKind,
    pub message: Seq<char>,
    pub source: Option<anyhow::Error>,
    pub sub_errors: Seq<DomainError>,
}

impl View for DomainError {
    type V = DomainErrorView;

    closed spec fn view(&self) -> DomainErrorView {
        DomainErrorView {
            kind: self.kind,
            message: self.message@,
            source: self.source,
            sub_errors: self.sub_errors@,
        }
    }
}

/// The kind of a repository error.
#[derive(Debug, PartialEq, Eq, Structural, Clone, Copy)]
pub enum RepositoryErrorKind {
    NotFound,
    Conflict,
    Fail,
}

/// An error of a repository: a kind, a message and an optional cause.
#[derive(Debug)]
pub struct RepositoryError {
    kind: RepositoryErrorKind,
    message: String,
    source: Option<anyhow::Error>,
}

/// What a repository error holds.
pub struct RepositoryErrorView {
    pub kind: RepositoryErrorKind,
    pub message: Seq<char>,
    pub source: Option<anyhow::Error>,
}

impl View for RepositoryError {
    type V = RepositoryErrorView;

    closed spec fn view(&self) -> RepositoryErrorView {
        RepositoryErrorView { kind: self.kind, message: self.message@, source: self.source }
    }
}

impl DomainError {
    /// An error with no cause and no gathered errors.
    pub fn new(kind: DomainErrorKind, message: &str) -> (r: DomainError)
        ensures
            r@ == (DomainErrorView {
                kind,
                message: message@,
                source: None,
                sub_errors: Seq::empty(),
            }),
    {
        Self::inner_new(kind, message, None, Vec::new())
    }

    /// An error caused by another.
    pub fn new_with_source(kind: DomainErrorKind, message: &str, source: anyhow::Error) -> (r:
        DomainError)
        ensures
            r@ == (DomainErrorView {
                kind,
                message: message@,
                source: Some(source),
                sub_errors: Seq::empty(),
            }),
    {
        Self::inner_new(kind, message, Some(source), Vec::new())
    }

    /// An error that gathers others.
    pub fn new_with_sub_errors(
        kind: DomainErrorKind,
        message: &str,
        sub_errors: Vec<DomainError>,
    ) -> (r: DomainError)
        ensures
            r@ == (DomainErrorView {
                kind,
                message: message@,
                source: None,
                sub_errors: sub_errors@,
            }),
    {
        Self::inner_new(kind, message, None, sub_errors)
    }

    fn inner_new(
        kind: DomainErrorKind,
        message: &str,
        source: Option<anyhow::Error>,
        sub_errors: Vec<DomainError>,
    ) -> (r: DomainError)
        ensures
            r@ == (DomainErrorView { kind, message: message@, source, sub_errors: sub_errors@ }),
    {
        DomainError { kind, message: message.to_owned(), source, sub_errors }
    }

    pub fn kind(&self) -> (r: &DomainErrorKind)
        ensures
            *r == self@.kind,
    {
        &self.kind
    }

    pub fn message(&self) -> (r: &String)
        ensures
            r@ == self@.message,
    {
        &self.message
    }

    pub fn source(&self) -> (r: &Option<anyhow::Error>)
        ensures
            *r == self@.source,
    {
        &self.source
    }

    pub fn sub_errors(&self) -> (r: &Vec<DomainError>)
        ensures
            r@ == self@.sub_errors,
    {
        &self.sub_errors
    }
}

impl RepositoryError {
    /// An error with no cause.
    pub fn new(kind: RepositoryErrorKind, message: &str) -> (r: RepositoryError)
        ensures
            r@ == (RepositoryErrorView { kind, message: message@, source: None }),
    {
        Self::inner_new(kind, message, None)
    }

    /// An error caused by another.
    pub fn new_with_source(kind: RepositoryErrorKind, message: &str, source: anyhow::Error) -> (r:
        RepositoryError)
        ensures
            r@ == (RepositoryErrorView { kind, message: message@, source: Some(source) }),
    {
        Self::inner_new(kind, message, Some(source))
    }

    fn inner_new(kind: RepositoryErrorKind, message: &str, source: Option<anyhow::Error>) -> (r:
        RepositoryError)
        ensures
            r@ == (RepositoryErrorView { kind, message: message@, source }),
    {
        RepositoryError { kind, message: message.to_owned(), source }
    }

    pub fn kind(&self) -> (r: &RepositoryErrorKind)
        ensures
            *r == self@.kind,
    {
        &self.kind
    }

    pub fn message(&self) -> (r: &String)
        ensures
            r@ == self@.message,
    {
        &self.message
    }

    pub fn source(&self) -> (r: &Option<anyhow::Error>)
        ensures
            *r == self@.source,
    {
        &self.source
    }
}

/// Two domain errors are equal when their kinds and messages are.
impl PartialEq for DomainError {
    fn eq(&self, other: &Self) -> (r: bool) {
        self.kind == other.kind && self.message == other.message
    }
}

impl vstd::std_specs::cmp::PartialEqSpecImpl for DomainError {
    open spec fn obeys_eq_spec() -> bool {
        true
    }

    open spec fn eq_spec(&self, other: &Self) -> bool {
        self@.kind == other@.kind && self@.message == other@.message
    }
}

/// Two repository errors are equal when their kinds and messages are.
impl PartialEq for RepositoryError {
    fn eq(&self, other: &Self) -> (r: bool) {
        self.kind == other.kind && self.message == other.message
    }
}

impl vstd::std_specs::cmp::PartialEqSpecImpl for RepositoryError {
    open spec fn obeys_eq_spec() -> bool {
        true
    }

    open spec fn eq_spec(&self, other: &Self) -> bool {
        self@.kind == other@.kind && self@.message == other@.message
    }
}

/// The name of a repository error kind.
pub open spec fn repository_kind_name(kind: RepositoryErrorKind) -> Seq<char> {
    match kind {
        RepositoryErrorKind::NotFound => "NotFound"@,
        RepositoryErrorKind::Conflict => "Conflict"@,
        RepositoryErrorKind::Fail => "Fail"@,
    }
}

/// The text of a repository error up to its cause.
pub open spec fn repository_error_head(e: RepositoryErrorView) -> Seq<char> {
    "kind:"@ + repository_kind_name(e.kind) + ",message:"@ + e.message + ",source:"@
}

fn repository_kind_str(kind: RepositoryErrorKind) -> (r: &'static str)
    ensures
        r@ == repository_kind_name(kind),
{
    match kind {
        RepositoryErrorKind::NotFound => "NotFound",
        RepositoryErrorKind::Conflict => "Conflict",
        RepositoryErrorKind::Fail => "Fail",
    }
}

/// `text` is the text of a repository error: the head, then `None` when
/// there is no cause, or else the cause's `Debug` text, which begins with the
/// cause's message when it has one.
pub open spec fn repository_error_text(e: RepositoryErrorView, text: Seq<char>) -> bool {
    let head = repository_error_head(e);
    &&& text.len() >= head.len()
    &&& text.take(head.len() as int) == head
    &&& match e.source {
        None => text == head + "None"@,
        Some(c) => begins_with_message(c, text.skip(head.len() as int)),
    }
}

impl RepositoryError {
    /// The text of the error: its kind, its message and its cause, which
    /// reads `None` when there is none.
    pub fn to_display_string(&self) -> (r: String)
        ensures
            repository_error_text(self@, r@),
    {
        let mut r = String::new();
        r.append("kind:");
        r.append(repository_kind_str(self.kind));
        r.append(",message:");
        r.append(self.message.as_str());
        r.append(",source:");
        let ghost head = r@;
        assert(head =~= repository_error_head(self@));
        match &self.source {
            Some(source) => {
                let text = error_debug_text(source);
                r.append(text.as_str());
                assert(r@.skip(head.len() as int) =~= text@);
            },
            None => {
                r.append("None");
            },
        }
        assert(r@.take(head.len() as int) =~= head);
        r
    }
}

/// The name of a domain error kind.
pub open spec fn domain_kind_name(kind: DomainErrorKind) -> Seq<char> {
    match kind {
        DomainErrorKind::InvalidInput => "InvalidInput"@,
        DomainErrorKind::Conflict => "Conflict"@,
        DomainErrorKind::Notfound => "Notfound"@,
        DomainErrorKind::Forbidden => "Forbidden"@,
        DomainErrorKind::Fail => "Fail"@,
    }
}

/// The text of a domain error up to its cause.
pub open spec fn domain_error_head(e: DomainErrorView) -> Seq<char> {
    "kind"@ + domain_kind_name(e.kind) + ",message:"@ + e.message + ",source,:"@
}

fn domain_kind_str(kind: DomainErrorKind) -> (r: &'static str)
    ensures
        r@ == domain_kind_name(kind),
{
    match kind {
        DomainErrorKind::InvalidInput => "InvalidInput",
        DomainErrorKind::Conflict => "Conflict",
        DomainErrorKind::Notfound => "Notfound",
        DomainErrorKind::Forbidden => "Forbidden",
        DomainErrorKind::Fail => "Fail",
    }
}

/// Calls the `Debug` formatting of `String`, which writes the text quoted,
/// with special characters escaped. Nothing is stated of the result.
#[verifier::external_body]
fn string_debug_text(text: &String) -> (r: String) {
    format!("{:?}", text)
}

/// The `Debug` text of a domain error up to its message.
pub open spec fn domain_error_debug_head(e: DomainErrorView) -> Seq<char> {
    "DomainError { kind: "@ + domain_kind_name(e.kind) + ", message: "@
}

/// The `Debug` text of a domain error, as `derive(Debug)` writes it:
/// `DomainError { kind: <kind>, message: <quoted message>, source: <cause>,
/// sub_errors: [<errors>] }`.
fn domain_error_debug(e: &DomainError) -> (r: String)
    ensures
        r@.len() >= domain_error_debug_head(e@).len() + 2,
        r@.take(domain_error_debug_head(e@).len() as int) == domain_error_debug_head(e@),
        r@.skip(r@.len() - 2) == " }"@,
    decreases e, 1int,
{
    let mut r = String::new();
    r.append("DomainError { kind: ");
    r.append(domain_kind_str(e.kind));
    r.append(", message: ");
    let ghost head = r@;
    assert(head =~= domain_error_debug_head(e@));
    let message = string_debug_text(&e.message);
    r.append(message.as_str());
    r.append(", source: ");
    match &e.source {
        Some(source) => {
            r.append("Some(");
            let text = error_debug_text(source);
            r.append(text.as_str());
            r.append(")");
        },
        None => {
            r.append("None");
        },
    }
    r.append(", sub_errors: ");
    let sub = domain_errors_debug(&e.sub_errors);
    r.append(sub.as_str());
    let ghost before = r@;
    r.append(" }");
    assert(r@.take(head.len() as int) =~= head);
    proof {
        reveal_strlit(" }");
        assert(r@.skip(r@.len() - 2) =~= " }"@);
    }
    r
}

/// The `Debug` text of a list of domain errors: `[`, the errors separated by
/// `, `, and `]`.
fn domain_errors_debug(errors: &Vec<DomainError>) -> (r: String)
    ensures
        r@.len() >= 2,
        r@[0] == '[',
        r@.last() == ']',
        errors.len() == 0 ==> r@ == "[]"@,
    decreases errors, 0int,
{
    let mut r = String::new();
    r.append("[");
    proof {
        reveal_strlit("[");
    }
    let mut i: usize = 0;
    while i < errors.len()
        invariant
            i <= errors.len(),
            r@.len() >= 1,
            r@[0] == '[',
            i == 0 ==> r@ == "["@,
        decreases errors.len() - i,
    {
        if i > 0 {
            r.append(", ");
        }
        assert(decreases_to!(errors => errors@[i as int]));
        let text = domain_error_debug(&errors[i]);
        r.append(text.as_str());
        i += 1;
    }
    let ghost before = r@;
    r.append("]");
    proof {
        reveal_strlit("]");
        reveal_strlit("[]");
        assert(r@ =~= before + "]"@);
        if errors.len() == 0 {
            assert(r@ =~= "[]"@);
        }
    }
    r
}

/// The text of a domain error, given the text of its cause and that of the
/// errors it gathers: the head, then `None` or `Some(<cause>)`, then
/// `,sub_errors:` and `[]` or the gathered errors' text.
pub open spec fn domain_error_text(
    e: DomainErrorView,
    source_text: Seq<char>,
    sub_errors_text: Seq<char>,
) -> Seq<char> {
    domain_error_head(e) + (if e.source is None {
        "None"@
    } else {
        "Some("@ + source_text + ")"@
    }) + ",sub_errors:"@ + (if e.sub_errors.len() == 0 {
        "[]"@
    } else {
        sub_errors_text
    })
}

impl DomainError {
    /// The text of the error: its kind, its message, its cause and the errors
    /// it gathers. With no cause and no gathered errors it reads
    /// `kind<kind>,message:<message>,source,:None,sub_errors:[]`. A cause's
    /// text begins with its message, when it was made from one, and gathered
    /// errors read as a bracketed list; the rest of their `Debug` texts is not
    /// stated.
    pub fn to_display_string(&self) -> (r: String)
        ensures
            exists|source_text: Seq<char>, sub_errors_text: Seq<char>|
                r@ == #[trigger] domain_error_text(self@, source_text, sub_errors_text) && (
                self@.source matches Some(c) ==> begins_with_message(c, source_text)) && (
                self@.sub_errors.len() > 0 ==> sub_errors_text.len() >= 2 && sub_errors_text[0]
                    == '[' && sub_errors_text.last() == ']'),
            r@.len() >= domain_error_head(self@).len(),
            r@.take(domain_error_head(self@).len() as int) == domain_error_head(self@),
            self@.source is None && self@.sub_errors.len() == 0 ==> r@ == domain_error_head(self@)
                + "None,sub_errors:[]"@,
    {
        let mut r = String::new();
        r.append("kind");
        r.append(domain_kind_str(self.kind));
        r.append(",message:");
        r.append(self.message.as_str());
        r.append(",source,:");
        let ghost head = r@;
        assert(head =~= domain_error_head(self@));
        let ghost mut source_text: Seq<char> = Seq::empty();
        let ghost mut sub_errors_text: Seq<char> = Seq::empty();
        match &self.source {
            Some(source) => {
                r.append("Some(");
                let text = error_debug_text(source);
                proof {
                    source_text = text@;
                }
                r.append(text.as_str());
                r.append(")");
            },
            None => {
                r.append("None");
            },
        }
        r.append(",sub_errors:");
        if self.sub_errors.len() == 0 {
            r.append("[]");
        } else {
            let text = domain_errors_debug(&self.sub_errors);
            proof {
                sub_errors_text = text@;
            }
            r.append(text.as_str());
        }
        assert(r@ =~= domain_error_text(self@, source_text, sub_errors_text));
        assert(r@.take(head.len() as int) =~= head);
        proof {
            if self@.source is None && self@.sub_errors.len() == 0 {
                assert(r@ =~= domain_error_head(self@) + "None,sub_errors:[]"@) by {
                    reveal_strlit("None");
                    reveal_strlit(",sub_errors:");
                    reveal_strlit("[]");
                    reveal_strlit("None,sub_errors:[]");
                }
            }
        }
        r
    }
}

} // verus!
