//! The coded parts of an activity-summary observation and the parameters of
//! an analytics query. Quantities, which are fractional, are put together by
//! the caller.

use vstd::prelude::*;
use vstd::string::StringExecFns;

verus! {

/// Default number of summaries to return.
pub const DEFAULT_LIMIT: i64 = 30;

/// The parameters of an analytics query.
#[derive(Debug)]
pub struct QueryParams {
    period: String,
    limit: i64,
}

/// One code of a coding system.
#[derive(Debug)]
pub struct Coding {
    pub system: String,
    pub code: String,
    pub display: String,
}

/// A concept: its codings and a text for readers.
#[derive(Debug)]
pub struct CodeableConcept {
    pub coding: Vec<Coding>,
    pub text: String,
}

/// A reference to another resource.
#[derive(Debug)]
pub struct Reference {
    pub reference: String,
}

/// The period of a query that names none.
pub fn default_period() -> (period: String)
    ensures
        period@ == "daily"@,
{
    "daily".to_owned()
}

/// The limit of a query that names none.
pub fn default_limit() -> (limit: i64)
    ensures
        limit == DEFAULT_LIMIT,
{
    DEFAULT_LIMIT
}

impl QueryParams {
    /// The period asked for.
    pub closed spec fn spec_period(&self) -> Seq<char> {
        self.period@
    }

    /// The limit asked for.
    pub closed spec fn spec_limit(&self) -> i64 {
        self.limit
    }

    /// The parameters of a query: what it names, and the defaults for what
    /// it leaves out.
    pub fn new(period: Option<String>, limit: Option<i64>) -> (params: QueryParams)
        ensures
            params.spec_period() == match period {
                Some(text) => text@,
                None => "daily"@,
            },
            params.spec_limit() == match limit {
                Some(n) => n,
                None => DEFAULT_LIMIT,
            },
    {
        QueryParams {
            period: match period {
                Some(text) => text,
                None => default_period(),
            },
            limit: match limit {
                Some(n) => n,
                None => default_limit(),
            },
        }
    }

    /// The period asked for.
    pub fn period(&self) -> (period: &str)
        ensures
            period@ == self.spec_period(),
    {
        self.period.as_str()
    }

    /// The limit asked for.
    pub fn limit(&self) -> (limit: i64)
        ensures
            limit == self.spec_limit(),
    {
        self.limit
    }
}

impl Coding {
    /// A coding from its three parts.
    pub fn new(system: &str, code: &str, display: &str) -> (coding: Coding)
        ensures
            coding.system@ == system@,
            coding.code@ == code@,
            coding.display@ == display@,
    {
        Coding { system: system.to_owned(), code: code.to_owned(), display: display.to_owned() }
    }
}

impl CodeableConcept {
    /// A concept with a single coding.
    pub fn single(coding: Coding, text: &str) -> (concept: CodeableConcept)
        ensures
            concept.coding@ == seq![coding],
            concept.text@ == text@,
    {
        let mut codings: Vec<Coding> = Vec::with_capacity(1);
        codings.push(coding);
        assert(codings@ =~= seq![coding]);
        CodeableConcept { coding: codings, text: text.to_owned() }
    }
}

impl Reference {
    /// The reference to a patient: `Patient/` and the user's identifier.
    pub fn patient(user_id: &str) -> (subject: Reference)
        ensures
            subject.reference@ == "Patient/"@ + user_id@,
    {
        let mut reference = "Patient/".to_owned();
        reference.append(user_id);
        Reference { reference }
    }
}

} // verus!
