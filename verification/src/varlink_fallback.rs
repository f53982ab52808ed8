//! The one place that decides whether a collector whose varlink attempt
//! failed may fall back to D-Bus (or, for networkd, to state files).
use vstd::prelude::*;

use crate::text::{push_str, string_of};

verus! {

/// A varlink failure that the configuration forbids falling back from.
#[derive(Clone, Debug, PartialEq, Eq)]
pub enum NoFallbackError {
    FallbackForbidden {
        /// The collector, e.g. "units" or "container demo units".
        collector: String,
        /// What would have served the data, e.g. "D-Bus".
        fallback: String,
        /// The rendered varlink error.
        source: String,
    },
}

/// The text of the error.
pub open spec fn no_fallback_text(e: NoFallbackError) -> Seq<char> {
    match e {
        NoFallbackError::FallbackForbidden { collector, fallback, source } => "varlink "@
            + collector@ + " failed and [varlink] no_fallback=true forbids the "@ + fallback@
            + " fallback: "@ + source@,
    }
}

impl NoFallbackError {
    /// The error's message, naming the collector and the forbidden fallback.
    pub fn message(&self) -> (r: String)
        ensures
            r@ == no_fallback_text(*self),
    {
        match self {
            NoFallbackError::FallbackForbidden { collector, fallback, source } => {
                let mut r = string_of("varlink ");
                push_str(&mut r, collector.as_str());
                push_str(&mut r, " failed and [varlink] no_fallback=true forbids the ");
                push_str(&mut r, fallback.as_str());
                push_str(&mut r, " fallback: ");
                push_str(&mut r, source.as_str());
                assert(r@ =~= no_fallback_text(*self));
                r
            },
        }
    }
}

/// Decide whether a collector whose varlink attempt failed may fall back:
/// it may unless `no_fallback` is set, in which case the failure becomes the
/// collector's error, naming the collector, the fallback and the failure.
pub fn report_varlink_failure(no_fallback: bool, collector: &str, fallback: &str, source: String) -> (r:
    Result<(), NoFallbackError>)
    ensures
        !no_fallback <==> r is Ok,
        match r {
            Err(NoFallbackError::FallbackForbidden { collector: c, fallback: f, source: s }) => c@
                == collector@ && f@ == fallback@ && s@ == source@,
            Ok(_) => true,
        },
{
    if no_fallback {
        return Err(
            NoFallbackError::FallbackForbidden {
                collector: string_of(collector),
                fallback: string_of(fallback),
                source,
            },
        );
    }
    Ok(())
}

} // verus!
