//! Strike prices and option-instrument identifiers for the NIFTY index,
//! derived from the index's daily high/low range, together with the
//! decision logic of the run that fetches the range and publishes the results.

pub mod text;
pub mod price;
pub mod strike;
pub mod calendar;
pub mod instrument;
pub mod extract;
pub mod pipeline;
