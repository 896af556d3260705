//! The pagination engine: a cursor-driven state machine that turns any
//! "one page at a time" remote listing into a flat sequence of items.
//!
//! One run of the engine is driven by pulls: [`PaginationState::into_request`]
//! says which fetch call to make next, and [`apply_fetch_result`] folds
//! what came back into the item sequence and yields the next state. The
//! engine never retries: a fetch error becomes exactly one terminal
//! element, after which no further fetch is requested.

use vstd::prelude::*;

verus! {

/// The state of one pagination run.
///
/// An empty continuation token is treated exactly like an absent one:
/// it never triggers another fetch.
pub enum PaginationState<S> {
    /// No fetch has been made; the first call passes no cursor.
    Start(S),
    /// A page arrived with a continuation token; the next fetch passes
    /// it as the cursor, unless it is empty, which means the run is
    /// over.
    HasMore(S, String),
    /// No further fetch will be requested.
    Done,
}

impl<S> PaginationState<S> {
    /// Begin a run with the given seed: the caller-fixed parameters
    /// threaded unchanged through every fetch call.
    pub fn start(seed: S) -> (r: PaginationState<S>)
        ensures
            r == PaginationState::Start(seed),
    {
        PaginationState::Start(seed)
    }

    /// The fetch call this state asks for: the seed to pass along and
    /// the cursor (`None` on the first call); or nothing further, when
    /// the run is over or the stored continuation token is empty.
    pub fn into_request(self) -> (r: Option<(S, Option<String>)>)
        ensures
            match self {
                PaginationState::Start(s) => r == Some((s, Option::<String>::None)),
                PaginationState::HasMore(s, c) => if c@.len() > 0 {
                    r == Some((s, Some(c)))
                } else {
                    r is None
                },
                PaginationState::Done => r is None,
            },
    {
        match self {
            PaginationState::Start(s) => Some((s, None)),
            PaginationState::HasMore(s, c) => {
                if c.as_str().is_empty() {
                    None
                } else {
                    Some((s, Some(c)))
                }
            },
            PaginationState::Done => None,
        }
    }
}

/// Fold one fetch outcome into the running item sequence and produce the
/// next state. A page appends its items in page order and advances by
/// its continuation (an absent token ends the run); an error appends
/// exactly that one error as the final element and ends the run.
pub fn apply_fetch_result<S, T, E>(
    out: &mut Vec<Result<T, E>>,
    fetched: Result<(Vec<T>, S, Option<String>), E>,
) -> (r: PaginationState<S>)
    ensures
        match fetched {
            Result::Ok((items, seed, cont)) => {
                &&& final(out)@ == old(out)@ + items@.map_values(|t: T| Result::<T, E>::Ok(t))
                &&& (match cont {
                    Option::Some(c) => r == PaginationState::<S>::HasMore(seed, c),
                    Option::None => r is Done,
                })
            },
            Result::Err(e) => final(out)@ == old(out)@.push(Result::<T, E>::Err(e)) && r is Done,
        },
{
    match fetched {
        Result::Ok((items, seed, cont)) => {
            let ghost added = items@;
            let ghost base = out@;
            let mut rest = items;
            while rest.len() > 0
                invariant
                    rest@.len() <= added.len(),
                    rest@ =~= added.subrange(added.len() - rest@.len(), added.len() as int),
                    out@ =~= base + added.subrange(0, added.len() - rest@.len()).map_values(
                        |t: T| Result::<T, E>::Ok(t),
                    ),
                decreases rest@.len(),
            {
                let ghost done = added.len() - rest@.len();
                let item = rest.remove(0);
                proof {
                    assert(item == added[done]);
                    assert(rest@ =~= added.subrange(done + 1, added.len() as int));
                }
                out.push(Ok(item));
                proof {
                    assert(added.subrange(0, done + 1).map_values(|t: T| Result::<T, E>::Ok(t))
                        =~= added.subrange(0, done).map_values(|t: T| Result::<T, E>::Ok(t)).push(
                        Result::<T, E>::Ok(added[done]),
                    ));
                    assert(out@ =~= base + added.subrange(0, done + 1).map_values(
                        |t: T| Result::<T, E>::Ok(t),
                    ));
                }
            }
            proof {
                assert(added.subrange(0, added.len() as int) =~= added);
                assert(out@ =~= base + added.map_values(|t: T| Result::<T, E>::Ok(t)));
            }
            match cont {
                Option::Some(c) => PaginationState::HasMore(seed, c),
                Option::None => PaginationState::Done,
            }
        },
        Result::Err(e) => {
            out.push(Err(e));
            PaginationState::Done
        },
    }
}

} // verus!
