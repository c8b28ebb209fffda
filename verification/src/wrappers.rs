//! Call wrappers: one safe function per native entry point. Each wrapper
//! invokes the entry point, extracts the error or the outputs into owned
//! values, and releases every native-owned buffer through the designated
//! free entry point — exactly once, on the success path and on the error
//! path alike. The shared guarantee is that the set of outstanding
//! native buffers after the wrapper equals the set before it.

use vstd::prelude::*;
use crate::native::{
    EntryPoints, NativeBuf, advance_result, advance_row, current_result, finished_cursor,
    in_fetch_state, is_initial_cursor, needs_meta, past_results, same_cursors_except,
    with_meta_done,
};

verus! {

/// Copy an error buffer's message and release the buffer.
fn take_error<E: EntryPoints>(native: &mut E, u_log: u64, buf: NativeBuf) -> (msg: String)
    requires
        old(native).inv(),
        old(native).live().contains(buf.id@),
    ensures
        final(native).inv(),
        final(native).live() == old(native).live().remove(buf.id@),
        final(native).cursors() == old(native).cursors(),
        final(native).last_submitted() == old(native).last_submitted(),
        final(native).last_combined() == old(native).last_combined(),
        final(native).last_parsed() == old(native).last_parsed(),
        final(native).last_connect() == old(native).last_connect(),
        final(native).last_opened() == old(native).last_opened(),
        forall|p: Seq<char>| final(native).params_ok(p) == old(native).params_ok(p),
        msg@ == buf.text@,
{
    let msg = buf.text.clone();
    native.free_pointer(u_log, buf);
    msg
}

/// Copy an output buffer's text and release the buffer.
fn take_text<E: EntryPoints>(native: &mut E, u_log: u64, buf: NativeBuf) -> (text: String)
    requires
        old(native).inv(),
        old(native).live().contains(buf.id@),
    ensures
        final(native).inv(),
        final(native).live() == old(native).live().remove(buf.id@),
        final(native).cursors() == old(native).cursors(),
        final(native).last_submitted() == old(native).last_submitted(),
        final(native).last_combined() == old(native).last_combined(),
        final(native).last_parsed() == old(native).last_parsed(),
        final(native).last_connect() == old(native).last_connect(),
        final(native).last_opened() == old(native).last_opened(),
        forall|p: Seq<char>| final(native).params_ok(p) == old(native).params_ok(p),
        text@ == buf.text@,
{
    let text = buf.text.clone();
    native.free_pointer(u_log, buf);
    text
}

/// Merge two JSON object texts through the native `combineJSON` entry
/// point. Returns the merged object exactly when the native side accepts
/// both inputs as objects.
pub fn go_combine_json_wrapper<E: EntryPoints>(native: &mut E, json1: &str, json2: &str) -> (r:
    Result<String, String>)
    requires
        old(native).inv(),
    ensures
        final(native).inv(),
        final(native).live() == old(native).live(),
        final(native).cursors() == old(native).cursors(),
        final(native).last_submitted() == old(native).last_submitted(),
        final(native).last_combined() == Option::Some((json1@, json2@)),
        final(native).last_parsed() == old(native).last_parsed(),
        final(native).last_connect() == old(native).last_connect(),
        forall|p: Seq<char>| final(native).params_ok(p) == old(native).params_ok(p),
        match old(native).combined_of(json1@, json2@) {
            Option::Some(t) => (match r {
                Result::Ok(s) => s@ == t,
                Result::Err(_) => false,
            }),
            Option::None => r is Err,
        },
{
    let reply = native.combine_json(json1, json2);
    match reply.error {
        Option::Some(buf) => {
            let msg = take_error(native, 0, buf);
            proof {
                assert(native.live() =~= old(native).live());
            }
            Err(msg)
        },
        Option::None => {
            match reply.value {
                Option::Some(buf) => {
                    let text = take_text(native, 0, buf);
                    proof {
                        assert(native.live() =~= old(native).live());
                    }
                    Ok(text)
                },
                Option::None => {
                    // a successful merge always carries its output
                    proof {
                        assert(false);
                    }
                    Err(String::new())
                },
            }
        },
    }
}

/// Validate a merged parameter text through the native `parseParams`
/// entry point; on success the returned value is the log handle of the
/// registered diagnostic context.
pub fn go_parse_params_wrapper<E: EntryPoints>(native: &mut E, params: &str) -> (r: Result<
    u64,
    String,
>)
    requires
        old(native).inv(),
    ensures
        final(native).inv(),
        final(native).live() == old(native).live(),
        final(native).cursors() == old(native).cursors(),
        final(native).last_submitted() == old(native).last_submitted(),
        final(native).last_combined() == old(native).last_combined(),
        final(native).last_connect() == old(native).last_connect(),
        (match r {
            Result::Ok(h) => final(native).last_parsed() == Option::Some((params@, h)),
            Result::Err(_) => (match final(native).last_parsed() {
                Option::Some(p) => p.0 == params@,
                Option::None => false,
            }),
        }),
        (r is Ok) == old(native).params_ok(params@),
{
    let reply = native.parse_params(params);
    match reply.error {
        Option::Some(buf) => {
            let msg = take_error(native, reply.handle, buf);
            proof {
                assert(native.live() =~= old(native).live());
            }
            Err(msg)
        },
        Option::None => Ok(reply.handle),
    }
}

/// Establish a session through the native `createConnection` entry
/// point; the returned value is the connection handle.
pub fn go_create_connection_wrapper<E: EntryPoints>(
    native: &mut E,
    u_log: u64,
    version: &str,
    params: &str,
) -> (r: Result<u64, String>)
    requires
        old(native).inv(),
    ensures
        final(native).inv(),
        final(native).live() == old(native).live(),
        final(native).cursors() == old(native).cursors(),
        final(native).last_submitted() == old(native).last_submitted(),
        final(native).last_combined() == old(native).last_combined(),
        final(native).last_parsed() == old(native).last_parsed(),
        (match r {
            Result::Ok(h) => final(native).last_connect() == Option::Some(
                (u_log, version@, params@, h),
            ),
            Result::Err(_) => (match final(native).last_connect() {
                Option::Some(c) => c.0 == u_log && c.1 == version@ && c.2 == params@,
                Option::None => false,
            }),
        }),
{
    let reply = native.create_connection(u_log, version, params);
    match reply.error {
        Option::Some(buf) => {
            let msg = take_error(native, u_log, buf);
            proof {
                assert(native.live() =~= old(native).live());
            }
            Err(msg)
        },
        Option::None => Ok(reply.handle),
    }
}

/// Tear a session down through the native `closeConnection` entry point.
pub fn go_close_connection_wrapper<E: EntryPoints>(native: &mut E, u_log: u64, conn_handle: u64) -> (r:
    Result<(), String>)
    requires
        old(native).inv(),
    ensures
        final(native).inv(),
        final(native).live() == old(native).live(),
        final(native).cursors() == old(native).cursors(),
        final(native).last_submitted() == old(native).last_submitted(),
{
    let reply = native.close_connection(u_log, conn_handle);
    match reply.error {
        Option::Some(buf) => {
            let msg = take_error(native, u_log, buf);
            proof {
                assert(native.live() =~= old(native).live());
            }
            Err(msg)
        },
        Option::None => Ok(()),
    }
}

/// Cancel the request in flight on a session through the native
/// `cancelRequest` entry point.
pub fn go_cancel_request_wrapper<E: EntryPoints>(native: &mut E, u_log: u64, conn_handle: u64) -> (r:
    Result<(), String>)
    requires
        old(native).inv(),
    ensures
        final(native).inv(),
        final(native).live() == old(native).live(),
        final(native).cursors() == old(native).cursors(),
        final(native).last_submitted() == old(native).last_submitted(),
{
    let reply = native.cancel_request(u_log, conn_handle);
    match reply.error {
        Option::Some(buf) => {
            let msg = take_error(native, u_log, buf);
            proof {
                assert(native.live() =~= old(native).live());
            }
            Err(msg)
        },
        Option::None => Ok(()),
    }
}

/// Submit a request through the native `createRows` entry point. The
/// bind-value text is handed to the native boundary unmodified. On
/// success a fresh cursor in its initial state is open under the
/// returned rows handle.
pub fn rustgo_create_rows_wrapper<E: EntryPoints>(
    native: &mut E,
    u_log: u64,
    conn_handle: u64,
    request_text: &str,
    bind_values: &str,
) -> (r: Result<u64, String>)
    requires
        old(native).inv(),
    ensures
        final(native).inv(),
        final(native).live() == old(native).live(),
        final(native).last_submitted() == Option::Some((request_text@, bind_values@)),
        (match r {
            Result::Ok(h) => final(native).last_opened() == Option::Some(
                final(native).cursors()[h].results,
            ),
            Result::Err(_) => final(native).last_opened() == old(native).last_opened(),
        }),
        match r {
            Result::Ok(h) => {
                &&& !old(native).cursors().contains_key(h)
                &&& final(native).cursors().contains_key(h)
                &&& final(native).cursors() == old(native).cursors().insert(
                    h,
                    final(native).cursors()[h],
                )
                &&& is_initial_cursor(final(native).cursors()[h])
            },
            Result::Err(_) => final(native).cursors() == old(native).cursors(),
        },
{
    let reply = native.create_rows(u_log, conn_handle, request_text, bind_values);
    match reply.error {
        Option::Some(buf) => {
            let msg = take_error(native, u_log, buf);
            proof {
                assert(native.live() =~= old(native).live());
            }
            Err(msg)
        },
        Option::None => Ok(reply.handle),
    }
}

/// Read the current result's metadata through the native
/// `resultMetaData` entry point: activity count, activity type, activity
/// name, and column metadata.
pub fn rustgo_result_metadata_wrapper<E: EntryPoints>(native: &mut E, u_log: u64, rows_handle: u64) -> (r:
    Result<(u64, u16, String, String), String>)
    requires
        old(native).inv(),
    ensures
        final(native).inv(),
        final(native).live() == old(native).live(),
        final(native).last_submitted() == old(native).last_submitted(),
        final(native).last_opened() == old(native).last_opened(),
        same_cursors_except(old(native).cursors(), final(native).cursors(), rows_handle),
        r is Err ==> final(native).cursors() == old(native).cursors(),
        ({
            let cs = old(native).cursors();
            if cs.contains_key(rows_handle) && needs_meta(cs[rows_handle]) {
                match r {
                    Result::Ok(t) => {
                        let m = current_result(cs[rows_handle]);
                        &&& t.0 == m.activity_count
                        &&& t.1 == m.activity_type
                        &&& t.2@ == m.activity_name
                        &&& t.3@ == m.column_metadata
                        &&& final(native).cursors() == cs.insert(
                            rows_handle,
                            with_meta_done(cs[rows_handle]),
                        )
                    },
                    Result::Err(_) => final(native).cursors() == cs,
                }
            } else if !cs.contains_key(rows_handle) || past_results(cs[rows_handle]) {
                r is Err
            } else {
                true
            }
        }),
{
    let reply = native.result_metadata(u_log, rows_handle);
    let ghost g = reply;
    match reply.error {
        Option::Some(buf) => {
            let msg = take_error(native, u_log, buf);
            proof {
                assert(native.live() =~= old(native).live());
            }
            Err(msg)
        },
        Option::None => {
            match (reply.activity_name, reply.column_metadata) {
                (Option::Some(name_buf), Option::Some(meta_buf)) => {
                    proof {
                        assert(crate::native::opt_buf_ids(g.activity_name).contains(name_buf.id@));
                        assert(crate::native::opt_buf_ids(g.column_metadata).contains(
                            meta_buf.id@,
                        ));
                        assert(name_buf.id@ != meta_buf.id@);
                    }
                    let name = take_text(native, u_log, name_buf);
                    proof {
                        assert(native.live().contains(meta_buf.id@));
                    }
                    let meta = take_text(native, u_log, meta_buf);
                    proof {
                        assert(native.live() =~= old(native).live());
                    }
                    Ok((reply.activity_count, reply.activity_type, name, meta))
                },
                _ => {
                    // a successful metadata call always carries both texts
                    proof {
                        assert(false);
                    }
                    Err(String::new())
                },
            }
        },
    }
}

/// Fetch the next row of the current result through the native
/// `fetchRow` entry point; `None` is the end-of-rows signal, distinct
/// from an error.
pub fn rustgo_fetch_row_wrapper<E: EntryPoints>(native: &mut E, u_log: u64, rows_handle: u64) -> (r:
    Result<Option<String>, String>)
    requires
        old(native).inv(),
    ensures
        final(native).inv(),
        final(native).live() == old(native).live(),
        final(native).last_submitted() == old(native).last_submitted(),
        final(native).last_opened() == old(native).last_opened(),
        same_cursors_except(old(native).cursors(), final(native).cursors(), rows_handle),
        r is Err ==> final(native).cursors() == old(native).cursors(),
        ({
            let cs = old(native).cursors();
            if cs.contains_key(rows_handle) && in_fetch_state(cs[rows_handle]) {
                let c = cs[rows_handle];
                if c.at_row < current_result(c).rows.len() {
                    match r {
                        Result::Ok(row) => (match row {
                            Option::Some(s) => s@ == current_result(c).rows[c.at_row as int]
                                && final(native).cursors() == cs.insert(rows_handle, advance_row(c)),
                            Option::None => false,
                        }),
                        Result::Err(_) => final(native).cursors() == cs,
                    }
                } else {
                    (match r {
                        Result::Ok(row) => row is None,
                        Result::Err(_) => false,
                    }) && final(native).cursors() == cs
                }
            } else {
                r is Err && final(native).cursors() == cs
            }
        }),
{
    let reply = native.fetch_row(u_log, rows_handle);
    match reply.error {
        Option::Some(buf) => {
            let msg = take_error(native, u_log, buf);
            proof {
                assert(native.live() =~= old(native).live());
            }
            Err(msg)
        },
        Option::None => {
            match reply.row {
                Option::Some(buf) => {
                    let text = take_text(native, u_log, buf);
                    proof {
                        assert(native.live() =~= old(native).live());
                    }
                    Ok(Some(text))
                },
                Option::None => Ok(None),
            }
        },
    }
}

/// Advance to the next result through the native `nextResult` entry
/// point; `Ok(false)` means the final result was already consumed.
pub fn go_next_result_wrapper<E: EntryPoints>(native: &mut E, u_log: u64, rows_handle: u64) -> (r:
    Result<bool, String>)
    requires
        old(native).inv(),
    ensures
        final(native).inv(),
        final(native).live() == old(native).live(),
        final(native).last_submitted() == old(native).last_submitted(),
        final(native).last_opened() == old(native).last_opened(),
        same_cursors_except(old(native).cursors(), final(native).cursors(), rows_handle),
        r is Err ==> final(native).cursors() == old(native).cursors(),
        ({
            let cs = old(native).cursors();
            if cs.contains_key(rows_handle) && !past_results(cs[rows_handle]) {
                let c = cs[rows_handle];
                if c.at_result + 1 < c.results.len() {
                    match r {
                        Result::Ok(more) => more == true && final(native).cursors() == cs.insert(
                            rows_handle,
                            advance_result(c),
                        ),
                        Result::Err(_) => final(native).cursors() == cs,
                    }
                } else {
                    (match r {
                        Result::Ok(more) => more == false,
                        Result::Err(_) => false,
                    }) && final(native).cursors() == cs.insert(rows_handle, finished_cursor(c))
                }
            } else {
                r is Err && final(native).cursors() == cs
            }
        }),
{
    let reply = native.next_result(u_log, rows_handle);
    match reply.error {
        Option::Some(buf) => {
            let msg = take_error(native, u_log, buf);
            proof {
                assert(native.live() =~= old(native).live());
            }
            Err(msg)
        },
        Option::None => Ok(reply.more),
    }
}

/// Release a cursor through the native `closeRows` entry point; valid
/// exactly once per rows handle. A reported failure is returned, but
/// the handle is spent either way.
pub fn go_close_rows_wrapper<E: EntryPoints>(native: &mut E, u_log: u64, rows_handle: u64) -> (r:
    Result<(), String>)
    requires
        old(native).inv(),
    ensures
        final(native).inv(),
        final(native).live() == old(native).live(),
        final(native).last_submitted() == old(native).last_submitted(),
        final(native).last_opened() == old(native).last_opened(),
        old(native).cursors().contains_key(rows_handle) ==> final(native).cursors() == old(
            native,
        ).cursors().remove(rows_handle),
        !old(native).cursors().contains_key(rows_handle) ==> r is Err && final(native).cursors()
            == old(native).cursors(),
{
    let reply = native.close_rows(u_log, rows_handle);
    match reply.error {
        Option::Some(buf) => {
            let msg = take_error(native, u_log, buf);
            proof {
                assert(native.live() =~= old(native).live());
            }
            Err(msg)
        },
        Option::None => Ok(()),
    }
}

} // verus!
