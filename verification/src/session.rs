//! Connection lifecycle and cursor traversal: the request/response flows
//! built from the call wrappers. The full traversal proves the cursor
//! round trip: a request producing some results yields exactly those
//! results, row for row, and the cursor is released exactly once on
//! every path.

use vstd::prelude::*;
use crate::errors::DriverError;
use crate::native::{
    EntryPoints, ResultSet, is_initial_cursor, past_results, same_cursors_except,
};
use crate::wrappers::{
    go_close_rows_wrapper, go_next_result_wrapper, rustgo_create_rows_wrapper,
    rustgo_fetch_row_wrapper, rustgo_result_metadata_wrapper,
};

verus! {

/// Traverse every result of a freshly created cursor: read each
/// result's metadata once, fetch its rows to the end-of-rows signal,
/// and advance until no further result remains. On success the
/// collected results are exactly the cursor's contents. The cursor is
/// not closed here; the caller owns that duty on every path.
pub fn fetch_all_results<E: EntryPoints>(native: &mut E, u_log: u64, rows_handle: u64) -> (r:
    Result<Vec<ResultSet>, String>)
    requires
        old(native).inv(),
        old(native).cursors().contains_key(rows_handle),
        is_initial_cursor(old(native).cursors()[rows_handle]),
    ensures
        final(native).inv(),
        final(native).live() == old(native).live(),
        final(native).last_submitted() == old(native).last_submitted(),
        final(native).last_opened() == old(native).last_opened(),
        same_cursors_except(old(native).cursors(), final(native).cursors(), rows_handle),
        final(native).cursors().contains_key(rows_handle),
        final(native).cursors()[rows_handle].results == old(native).cursors()[
            rows_handle
        ].results,
        match r {
            Result::Ok(out) => out@.map_values(|x: ResultSet| x@) == old(native).cursors()[
                rows_handle
            ].results && past_results(final(native).cursors()[rows_handle]),
            Result::Err(_) => true,
        },
{
    let ghost results0 = old(native).cursors()[rows_handle].results;
    let mut out: Vec<ResultSet> = Vec::new();
    let mut more = true;
    while more
        invariant
            native.inv(),
            native.live() == old(native).live(),
            native.last_submitted() == old(native).last_submitted(),
            native.last_opened() == old(native).last_opened(),
            same_cursors_except(old(native).cursors(), native.cursors(), rows_handle),
            native.cursors().contains_key(rows_handle),
            native.cursors()[rows_handle].results == results0,
            results0 == old(native).cursors()[rows_handle].results,
            out@.map_values(|x: ResultSet| x@) == results0.take(out@.len() as int),
            out@.len() <= results0.len(),
            more ==> native.cursors()[rows_handle].at_result == out@.len() && !native.cursors()[
                rows_handle
            ].meta_done && native.cursors()[rows_handle].at_row == 0,
            !more ==> out@.len() == results0.len() && past_results(
                native.cursors()[rows_handle],
            ),
        decreases results0.len() + 1 - out@.len(),
    {
        let meta = rustgo_result_metadata_wrapper(native, u_log, rows_handle);
        let (activity_count, activity_type, activity_name, column_metadata) = match meta {
            Result::Ok(t) => t,
            Result::Err(m) => {
                return Err(m);
            },
        };
        proof {
            // a cursor past its final result would have answered with an
            // error, so a result is current
            assert(out@.len() < results0.len());
        }
        let ghost current = results0[out@.len() as int];
        let mut rows_vec: Vec<String> = Vec::new();
        let mut rows_done = false;
        while !rows_done
            invariant
                native.inv(),
                native.live() == old(native).live(),
                native.last_submitted() == old(native).last_submitted(),
                native.last_opened() == old(native).last_opened(),
                same_cursors_except(old(native).cursors(), native.cursors(), rows_handle),
                native.cursors().contains_key(rows_handle),
                native.cursors()[rows_handle].results == results0,
                results0 == old(native).cursors()[rows_handle].results,
                out@.len() < results0.len(),
                current == results0[out@.len() as int],
                native.cursors()[rows_handle].at_result == out@.len(),
                native.cursors()[rows_handle].meta_done,
                native.cursors()[rows_handle].at_row == rows_vec@.len(),
                rows_vec@.len() <= current.rows.len(),
                rows_vec@.map_values(|s: String| s@) == current.rows.take(rows_vec@.len() as int),
                rows_done ==> rows_vec@.len() == current.rows.len(),
            decreases current.rows.len() - rows_vec@.len() + (if rows_done { 0int } else { 1 }),
        {
            match rustgo_fetch_row_wrapper(native, u_log, rows_handle) {
                Result::Ok(row) => match row {
                    Option::Some(s) => {
                        proof {
                            assert(current.rows.take(rows_vec@.len() as int + 1) =~= current.rows.take(
                                rows_vec@.len() as int,
                            ).push(current.rows[rows_vec@.len() as int]));
                            assert(rows_vec@.push(s).map_values(|t: String| t@)
                                =~= rows_vec@.map_values(|t: String| t@).push(s@));
                        }
                        rows_vec.push(s);
                    },
                    Option::None => {
                        rows_done = true;
                    },
                },
                Result::Err(m) => {
                    return Err(m);
                },
            }
        }
        let collected = ResultSet {
            activity_count,
            activity_type,
            activity_name,
            column_metadata,
            rows: rows_vec,
        };
        proof {
            assert(current.rows.take(current.rows.len() as int) =~= current.rows);
            assert(collected@ =~= current);
            assert(results0.take(out@.len() as int + 1) =~= results0.take(out@.len() as int).push(
                current,
            ));
            assert(out@.push(collected).map_values(|x: ResultSet| x@) =~= out@.map_values(
                |x: ResultSet| x@,
            ).push(collected@));
        }
        out.push(collected);
        match go_next_result_wrapper(native, u_log, rows_handle) {
            Result::Ok(avail) => {
                if !avail {
                    more = false;
                }
            },
            Result::Err(m) => {
                return Err(m);
            },
        }
    }
    proof {
        assert(results0.take(results0.len() as int) =~= results0);
    }
    Ok(out)
}

/// Submit a request, traverse every result, and release the cursor —
/// exactly once, whether the traversal completes or is cut short by an
/// error. On success the returned results are exactly those of the
/// cursor this request opened. The set of open cursors and of
/// outstanding native buffers is exactly what it was before the call; a
/// failure reported by the release itself is propagated as a cursor
/// failure (the traversal's own error taking precedence).
pub fn execute_request<E: EntryPoints>(
    native: &mut E,
    u_log: u64,
    conn_handle: u64,
    request_text: &str,
    bind_values: &str,
) -> (r: Result<Vec<ResultSet>, DriverError>)
    requires
        old(native).inv(),
    ensures
        final(native).inv(),
        final(native).live() == old(native).live(),
        final(native).cursors() == old(native).cursors(),
        final(native).last_submitted() == Option::Some((request_text@, bind_values@)),
        match r {
            Result::Ok(out) => (match final(native).last_opened() {
                Option::Some(rs) => out@.map_values(|x: ResultSet| x@) == rs,
                Option::None => false,
            }),
            Result::Err(e) => e is Request || e is Fetch,
        },
{
    let rows_handle = match rustgo_create_rows_wrapper(
        native,
        u_log,
        conn_handle,
        request_text,
        bind_values,
    ) {
        Result::Ok(h) => h,
        Result::Err(m) => {
            return Err(DriverError::Request(m));
        },
    };
    let ghost cs = old(native).cursors();
    let fetched = fetch_all_results(native, u_log, rows_handle);
    let closed = go_close_rows_wrapper(native, u_log, rows_handle);
    proof {
        assert(native.cursors() =~= cs);
    }
    match fetched {
        Result::Ok(out) => match closed {
            Result::Ok(()) => Ok(out),
            Result::Err(m) => Err(DriverError::Fetch(m)),
        },
        Result::Err(m) => Err(DriverError::Fetch(m)),
    }
}

/// Relies on `std::backtrace::Backtrace::force_capture` and its
/// rendering: the current call stack as text. The content depends on
/// the process, the build, and the environment, so nothing is promised
/// of it.
#[verifier::external_body]
fn capture_backtrace() -> String {
    format!("{}", std::backtrace::Backtrace::force_capture())
}

/// Establish a session: build the diagnostic metadata (client kind and
/// abbreviated call stack), merge it into the caller's connection
/// parameters through the native side, validate the merged parameters,
/// and open the connection. Returns the log handle and the connection
/// handle.
///
/// The contract pins the staging: the merge always runs first, on the
/// caller's parameters and a metadata object of exactly the built
/// shape; a failed merge stops before parsing (`Param`); a merge result
/// the parser rejects stops before connecting (`Param`); otherwise the
/// connect stage receives the parsed log handle, the empty version
/// (selecting the native side's own), and the merged parameters, and on
/// success the returned handles are the ones those stages answered
/// with.
pub fn create_connection<E: EntryPoints>(native: &mut E, connect_params_json: &str) -> (r: Result<
    (u64, u64),
    DriverError,
>)
    requires
        old(native).inv(),
    ensures
        final(native).inv(),
        final(native).live() == old(native).live(),
        final(native).cursors() == old(native).cursors(),
        final(native).last_submitted() == old(native).last_submitted(),
        r is Err ==> (r matches Result::Err(e) && (e is Param || e is Connection)),
        match final(native).last_combined() {
            Option::Some(t) => {
                &&& t.0 == connect_params_json@
                &&& (exists|stack: Seq<char>|
                    t.1 == crate::trace::metadata_json_spec(crate::trace::abbrev_spec(stack)))
                &&& (match old(native).combined_of(t.0, t.1) {
                    Option::Some(merged) => (match final(native).last_parsed() {
                        Option::Some(p) => p.0 == merged && (if old(native).params_ok(merged) {
                            match final(native).last_connect() {
                                Option::Some(c) => {
                                    &&& c.0 == p.1
                                    &&& c.1 == Seq::<char>::empty()
                                    &&& c.2 == merged
                                    &&& (match r {
                                        Result::Ok(h) => h.0 == c.0 && h.1 == c.3,
                                        Result::Err(e) => e is Connection,
                                    })
                                },
                                Option::None => false,
                            }
                        } else {
                            final(native).last_connect() == old(native).last_connect() && (match r {
                                Result::Ok(_) => false,
                                Result::Err(e) => e is Param,
                            })
                        }),
                        Option::None => false,
                    }),
                    Option::None => {
                        &&& final(native).last_parsed() == old(native).last_parsed()
                        &&& final(native).last_connect() == old(native).last_connect()
                        &&& (match r {
                            Result::Ok(_) => false,
                            Result::Err(e) => e is Param,
                        })
                    },
                })
            },
            Option::None => false,
        },
{
    let stack_trace = capture_backtrace();
    let metadata = crate::trace::build_metadata_json(stack_trace.as_str());
    proof {
        assert(exists|stack: Seq<char>|
            metadata@ == crate::trace::metadata_json_spec(crate::trace::abbrev_spec(stack))) by {
            assert(metadata@ == crate::trace::metadata_json_spec(
                crate::trace::abbrev_spec(stack_trace@),
            ));
        }
    }
    let combined = match crate::wrappers::go_combine_json_wrapper(
        native,
        connect_params_json,
        metadata.as_str(),
    ) {
        Result::Ok(c) => c,
        Result::Err(m) => {
            return Err(DriverError::Param(m));
        },
    };
    let u_log = match crate::wrappers::go_parse_params_wrapper(native, combined.as_str()) {
        Result::Ok(l) => l,
        Result::Err(m) => {
            return Err(DriverError::Param(m));
        },
    };
    let version = "";  // empty: the native side supplies its own version
    proof {
        reveal_strlit("");
        assert(version@ =~= Seq::<char>::empty());
    }
    let conn_handle = match crate::wrappers::go_create_connection_wrapper(
        native,
        u_log,
        version,
        combined.as_str(),
    ) {
        Result::Ok(h) => h,
        Result::Err(m) => {
            return Err(DriverError::Connection(m));
        },
    };
    Ok((u_log, conn_handle))
}

/// Submit a request that produces no result worth traversing, and
/// release its cursor at once. A failure reported by the release is
/// propagated as a cursor failure.
pub fn execute_simple_request<E: EntryPoints>(
    native: &mut E,
    u_log: u64,
    conn_handle: u64,
    request_text: &str,
) -> (r: Result<(), DriverError>)
    requires
        old(native).inv(),
    ensures
        final(native).inv(),
        final(native).live() == old(native).live(),
        final(native).cursors() == old(native).cursors(),
        final(native).last_submitted() == Option::Some((request_text@, "null"@)),
        r is Err ==> (r matches Result::Err(e) && (e is Request || e is Fetch)),
{
    let rows_handle = match rustgo_create_rows_wrapper(
        native,
        u_log,
        conn_handle,
        request_text,
        "null",
    ) {
        Result::Ok(h) => h,
        Result::Err(m) => {
            return Err(DriverError::Request(m));
        },
    };
    let ghost cs = old(native).cursors();
    let closed = go_close_rows_wrapper(native, u_log, rows_handle);
    proof {
        assert(native.cursors() =~= cs);
    }
    match closed {
        Result::Ok(()) => Ok(()),
        Result::Err(m) => Err(DriverError::Fetch(m)),
    }
}

/// Commit the open transaction, as a specially formatted request routed
/// through the cursor machinery.
pub fn commit<E: EntryPoints>(native: &mut E, u_log: u64, conn_handle: u64) -> (r: Result<
    (),
    DriverError,
>)
    requires
        old(native).inv(),
    ensures
        final(native).inv(),
        final(native).live() == old(native).live(),
        final(native).cursors() == old(native).cursors(),
        final(native).last_submitted() == Option::Some(("{fn teradata_commit}"@, "null"@)),
        r is Err ==> (r matches Result::Err(e) && (e is Request || e is Fetch)),
{
    execute_simple_request(native, u_log, conn_handle, "{fn teradata_commit}")
}

/// Roll the open transaction back, as a specially formatted request
/// routed through the cursor machinery.
pub fn rollback<E: EntryPoints>(native: &mut E, u_log: u64, conn_handle: u64) -> (r: Result<
    (),
    DriverError,
>)
    requires
        old(native).inv(),
    ensures
        final(native).inv(),
        final(native).live() == old(native).live(),
        final(native).cursors() == old(native).cursors(),
        final(native).last_submitted() == Option::Some(("{fn teradata_rollback}"@, "null"@)),
        r is Err ==> (r matches Result::Err(e) && (e is Request || e is Fetch)),
{
    execute_simple_request(native, u_log, conn_handle, "{fn teradata_rollback}")
}

/// Switch autocommit on or off, as a specially formatted request routed
/// through the cursor machinery.
pub fn set_autocommit<E: EntryPoints>(native: &mut E, u_log: u64, conn_handle: u64, b: bool) -> (r:
    Result<(), DriverError>)
    requires
        old(native).inv(),
    ensures
        final(native).inv(),
        final(native).live() == old(native).live(),
        final(native).cursors() == old(native).cursors(),
        final(native).last_submitted() == Option::Some((
            if b {
                "{fn teradata_nativesql}{fn teradata_autocommit_on}"@
            } else {
                "{fn teradata_nativesql}{fn teradata_autocommit_off}"@
            },
            "null"@,
        )),
        r is Err ==> (r matches Result::Err(e) && (e is Request || e is Fetch)),
{
    let request = if b {
        "{fn teradata_nativesql}{fn teradata_autocommit_on}"
    } else {
        "{fn teradata_nativesql}{fn teradata_autocommit_off}"
    };
    execute_simple_request(native, u_log, conn_handle, request)
}

} // verus!
