use vstd::prelude::*;

verus! {

/// The log filter the service runs with when none is configured.
pub const DEFAULT_LOG_FILTER: &'static str = "actix_web=info";

/// The log filter to install at start-up, given whether `RUST_LOG` is set:
/// the default filter when it is not, nothing when it is (a configured
/// filter is left alone).
pub fn log_filter_to_install(rust_log_is_set: bool) -> (filter: Option<String>)
    ensures
        rust_log_is_set ==> filter is None,
        !rust_log_is_set ==> (filter matches Some(f) && f@ == DEFAULT_LOG_FILTER@),
{
    if rust_log_is_set {
        None
    } else {
        Some(DEFAULT_LOG_FILTER.to_owned())
    }
}

} // verus!
