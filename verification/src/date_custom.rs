//! Points in time, as the database stores them and as a page shows them.

use vstd::prelude::*;

verus! {

/// The RFC 3339 text of the instant `secs` seconds and `nanos` nanoseconds
/// after the Unix epoch, in UTC; `None` where the calendar cannot hold that
/// instant.
pub uninterp spec fn rfc3339_text(secs: i64, nanos: u32) -> Option<Seq<char>>;

/// Calls `chrono::DateTime::from_timestamp` and, on what it made,
/// `chrono::DateTime::to_rfc3339`.
///
/// Trusted: the result is a function of the two numbers alone, named
/// [`rfc3339_text`]; it is `None` exactly where `from_timestamp` is.
#[verifier::external_body]
fn format_rfc3339(secs: i64, nanos: u32) -> (text: Option<String>)
    ensures
        match text {
            Some(t) => rfc3339_text(secs, nanos) == Some(t@),
            None => rfc3339_text(secs, nanos) is None,
        },
{
    match chrono::DateTime::from_timestamp(secs, nanos) {
        Some(at) => Some(at.to_rfc3339()),
        None => None,
    }
}

/// An instant that the calendar can hold, kept as its Unix timestamp.
#[derive(Clone, Copy, Debug)]
pub struct DateCustom {
    secs: i64,
    nanos: u32,
}

impl DateCustom {
    #[verifier::type_invariant]
    spec fn representable(self) -> bool {
        rfc3339_text(self.secs, self.nanos) is Some
    }

    /// Whole seconds since the Unix epoch.
    pub closed spec fn spec_timestamp(self) -> i64 {
        self.secs
    }

    /// Nanoseconds since the last whole second.
    pub closed spec fn spec_subsec_nanos(self) -> u32 {
        self.nanos
    }

    /// Whether this instant is no earlier than `other`.
    pub open spec fn spec_not_before(self, other: DateCustom) -> bool {
        self.spec_timestamp() > other.spec_timestamp() || (self.spec_timestamp()
            == other.spec_timestamp() && self.spec_subsec_nanos() >= other.spec_subsec_nanos())
    }

    /// The text that a page shows for this instant.
    pub open spec fn spec_rfc3339(self) -> Seq<char> {
        rfc3339_text(self.spec_timestamp(), self.spec_subsec_nanos()).unwrap()
    }

    /// The instant `secs` seconds and `nanos` nanoseconds after the Unix
    /// epoch, where the calendar can hold it.
    pub fn from_timestamp(secs: i64, nanos: u32) -> (at: Option<DateCustom>)
        ensures
            at is Some <==> rfc3339_text(secs, nanos) is Some,
            at matches Some(d) ==> d.spec_timestamp() == secs && d.spec_subsec_nanos() == nanos,
    {
        match format_rfc3339(secs, nanos) {
            Some(_) => Some(DateCustom { secs, nanos }),
            None => None,
        }
    }

    /// Whole seconds since the Unix epoch.
    pub fn timestamp(&self) -> (secs: i64)
        ensures
            secs == self.spec_timestamp(),
    {
        self.secs
    }

    /// Nanoseconds since the last whole second.
    pub fn timestamp_subsec_nanos(&self) -> (nanos: u32)
        ensures
            nanos == self.spec_subsec_nanos(),
    {
        self.nanos
    }

    /// The instant as RFC 3339 text, such as `1996-12-19T16:39:57+00:00`.
    pub fn to_rfc3339(&self) -> (text: String)
        ensures
            text@ == self.spec_rfc3339(),
    {
        proof {
            use_type_invariant(self);
        }
        match format_rfc3339(self.secs, self.nanos) {
            Some(text) => text,
            None => {
                proof {
                    assert(false);
                }
                String::new()
            },
        }
    }
}

} // verus!
