//! Reading the results of a query, and giving up on them when they are no longer wanted.

use vstd::prelude::*;

use crate::columns::Batch;
use crate::error::{ArrowError, FlightError};

verus! {

/// Which results of a statement are wanted: the latest, unless they were given up.
///
/// Every set of results has a number of its own. Giving up, or asking for new results, ends all
/// earlier ones for good.
#[derive(Clone, Copy, Debug, PartialEq, Eq, Structural)]
pub struct Validity {
    /// The number of the latest results.
    pub latest: u64,
    /// The latest results were given up.
    pub cancelled: bool,
}

impl Validity {
    /// The results with a number are not wanted.
    pub open spec fn ended(self, number: u64) -> bool {
        self.cancelled || number != self.latest
    }

    /// What is wanted later: nothing that ended is taken up again.
    pub open spec fn precedes(self, later: Validity) -> bool {
        self.latest < later.latest || (self.latest == later.latest && (self.cancelled
            ==> later.cancelled))
    }

    /// No results were asked for yet, and nothing was given up.
    pub fn new() -> (r: Self)
        ensures
            r == (Validity { latest: 0, cancelled: false }),
    {
        Validity { latest: 0, cancelled: false }
    }

    /// Gives up the latest results.
    pub fn cancel(&mut self)
        ensures
            *final(self) == (Validity { cancelled: true, ..*old(self) }),
            old(self).precedes(*final(self)),
    {
        self.cancelled = true;
    }

    /// Makes room for new results, and gives their number.
    pub fn renew(&mut self) -> (r: u64)
        requires
            old(self).latest < u64::MAX,
        ensures
            r == old(self).latest + 1,
            *final(self) == (Validity { latest: r, cancelled: false }),
            old(self).precedes(*final(self)),
    {
        self.latest = self.latest + 1;
        self.cancelled = false;
        self.latest
    }

    /// Whether the results with a number are not wanted.
    pub fn is_cancelled(&self, number: u64) -> (r: bool)
        ensures
            r == self.ended(number),
    {
        self.cancelled || number != self.latest
    }
}

/// Results that ended stay ended: whatever is given up or asked for afterwards, nothing brings them
/// back.
pub proof fn law_ended_results_stay_ended(validity: Validity, later: Validity, number: u64)
    requires
        validity.ended(number),
        number <= validity.latest,
        validity.precedes(later),
    ensures
        later.ended(number),
{
}

/// What is wanted later than later is later.
pub proof fn law_later_is_transitive(a: Validity, b: Validity, c: Validity)
    requires
        a.precedes(b),
        b.precedes(c),
    ensures
        a.precedes(c),
{
}

/// New results end the earlier ones, and are themselves wanted.
pub proof fn law_new_results_end_the_earlier(validity: Validity, number: u64)
    requires
        number <= validity.latest < u64::MAX,
    ensures
        ({
            let renewed = Validity { latest: (validity.latest + 1) as u64, cancelled: false };
            renewed.ended(number) && !renewed.ended(renewed.latest)
        }),
{
}

/// The Arrow error that an error of a Flight call becomes: the Arrow error underneath, or one that
/// wraps the whole error.
pub open spec fn arrow_error_of(err: FlightError) -> ArrowError {
    match err {
        FlightError::Arrow { error, .. } => error,
        FlightError::Tonic { text, .. } => ArrowError::ExternalError(text),
        FlightError::Other { text } => ArrowError::ExternalError(text),
    }
}

/// Converts an error of a Flight call to an Arrow error.
pub fn flight_error_to_arrow(err: FlightError) -> (r: ArrowError)
    ensures
        r == arrow_error_of(err),
{
    match err {
        FlightError::Arrow { error, .. } => error,
        FlightError::Tonic { text, .. } => ArrowError::ExternalError(text),
        FlightError::Other { text } => ArrowError::ExternalError(text),
    }
}

/// The error at which reading a stream of batches stops, if it does: the first.
pub open spec fn stream_error(read: Seq<Result<Batch, FlightError>>) -> Option<FlightError>
    decreases read.len(),
{
    if read.len() == 0 {
        None
    } else {
        match read[0] {
            Err(e) => Some(e),
            Ok(_) => stream_error(read.drop_first()),
        }
    }
}

/// Reading stops at an error before which there is none, and not at all if there is none.
pub proof fn lemma_stream_error(read: Seq<Result<Batch, FlightError>>, n: int)
    requires
        0 <= n <= read.len(),
        forall|k: int| 0 <= k < n ==> (#[trigger] read[k]) is Ok,
    ensures
        n == read.len() ==> stream_error(read) is None,
        n < read.len() && read[n] is Err ==> stream_error(read) == Some(read[n]->Err_0),
    decreases read.len(),
{
    if n > 0 {
        let later = read.drop_first();
        assert forall|k: int| 0 <= k < n - 1 implies (#[trigger] later[k]) is Ok by {
            assert(later[k] == read[k + 1]);
        }
        lemma_stream_error(later, n - 1);
        if n < read.len() {
            assert(later[n - 1] == read[n]);
        }
    }
}

/// A reader of the results of a query: their schema and their number.
pub struct FlightSqlRecordBatchReader {
    schema: arrow_schema::Schema,
    number: u64,
}

impl FlightSqlRecordBatchReader {
    /// The schema of the results.
    pub closed spec fn schema_view(&self) -> arrow_schema::Schema {
        self.schema
    }

    /// The number of the results.
    pub closed spec fn number_view(&self) -> u64 {
        self.number
    }

    /// A reader of results.
    pub fn new(schema: arrow_schema::Schema, number: u64) -> (r: Self)
        ensures
            r.schema_view() == schema,
            r.number_view() == number,
    {
        FlightSqlRecordBatchReader { schema, number }
    }

    /// The schema of the results.
    pub fn schema(&self) -> (r: arrow_schema::Schema)
        ensures
            r == self.schema_view(),
    {
        self.schema.clone()
    }

    /// Whether to fetch the next batch: not if the results ended.
    pub fn fetches(&self, validity: &Validity) -> (r: bool)
        ensures
            r == !validity.ended(self.number_view()),
    {
        !validity.is_cancelled(self.number)
    }

    /// What the reader hands out for what was fetched.
    pub fn next(&self, fetched: Option<Result<Batch, FlightError>>) -> (r: Option<
        Result<Batch, ArrowError>,
    >)
        ensures
            r == (match fetched {
                Some(Ok(batch)) => Some(Ok::<Batch, ArrowError>(batch)),
                Some(Err(e)) => Some(Err::<Batch, ArrowError>(arrow_error_of(e))),
                None => None,
            }),
    {
        match fetched {
            Some(Ok(batch)) => Some(Ok(batch)),
            Some(Err(e)) => Some(Err(flight_error_to_arrow(e))),
            None => None,
        }
    }
}

} // verus!
