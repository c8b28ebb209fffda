//! The native layer as a capability interface. Every entry point of the
//! native driver library is one method of [`EntryPoints`]; the calling
//! convention is modelled faithfully: 64-bit handles and text inputs go
//! in, and an optional error buffer plus zero or more native-owned
//! output buffers come out. A buffer ([`NativeBuf`]) must be handed back
//! through [`EntryPoints::free_pointer`] exactly once; the interface
//! tracks the outstanding buffers as a ghost set of identities, and the
//! open cursors as a ghost map from rows handle to cursor model.
//!
//! The production implementation (backed by a dynamically loaded
//! library) lives with the embedding program; the in-memory double,
//! verified against these same contracts, is [`crate::mock::MockNative`].

use vstd::prelude::*;

verus! {

/// Spec-level description of one result set of a request: its metadata
/// and its rows, each row a JSON-encoded text.
#[verifier::ext_equal]
pub ghost struct ResultModel {
    pub activity_count: u64,
    pub activity_type: u16,
    pub activity_name: Seq<char>,
    pub column_metadata: Seq<char>,
    pub rows: Seq<Seq<char>>,
}

/// Spec-level state of one open cursor: the results of its request, the
/// index of the current result, how many rows of it were fetched, and
/// whether its metadata was read. `at_result == results.len()` is the
/// terminal state after the final result.
#[verifier::ext_equal]
pub ghost struct CursorModel {
    pub results: Seq<ResultModel>,
    pub at_result: nat,
    pub at_row: nat,
    pub meta_done: bool,
}

pub open spec fn is_initial_cursor(c: CursorModel) -> bool {
    c.at_result == 0 && c.at_row == 0 && !c.meta_done
}

/// Metadata is owed: the cursor sits on a result whose metadata was not
/// yet read.
pub open spec fn needs_meta(c: CursorModel) -> bool {
    !c.meta_done && c.at_result < c.results.len()
}

/// Rows may be fetched: the current result's metadata was read.
pub open spec fn in_fetch_state(c: CursorModel) -> bool {
    c.meta_done && c.at_result < c.results.len()
}

/// The cursor advanced past the final result.
pub open spec fn past_results(c: CursorModel) -> bool {
    c.at_result >= c.results.len()
}

pub open spec fn current_result(c: CursorModel) -> ResultModel {
    c.results[c.at_result as int]
}

pub open spec fn with_meta_done(c: CursorModel) -> CursorModel {
    CursorModel { meta_done: true, ..c }
}

pub open spec fn advance_row(c: CursorModel) -> CursorModel {
    CursorModel { at_row: c.at_row + 1, ..c }
}

pub open spec fn advance_result(c: CursorModel) -> CursorModel {
    CursorModel { at_result: c.at_result + 1, at_row: 0, meta_done: false, ..c }
}

pub open spec fn finished_cursor(c: CursorModel) -> CursorModel {
    CursorModel { at_result: c.results.len(), at_row: 0, meta_done: false, ..c }
}

/// A native-owned text buffer whose ownership was transferred to the
/// caller: its content copied into an owned text, the address of the
/// native allocation (opaque here; the production implementation hands
/// it back to the native free entry point), and a ghost identity tying
/// it to the set of outstanding buffers of the interface that produced
/// it.
pub struct NativeBuf {
    pub text: String,
    pub raw: usize,
    pub id: Ghost<int>,
}

impl NativeBuf {
    /// For unverified implementations of [`EntryPoints`]: wrap the
    /// copied content and the address of a native allocation.
    pub fn from_parts(text: String, raw: usize) -> (r: NativeBuf)
        ensures
            r.text@ == text@,
            r.raw == raw,
    {
        NativeBuf { text, raw, id: Ghost(0int) }
    }
}

/// Reply of an entry point returning one text output.
pub struct TextReply {
    pub error: Option<NativeBuf>,
    pub value: Option<NativeBuf>,
}

/// Reply of an entry point returning a 64-bit handle.
pub struct HandleReply {
    pub error: Option<NativeBuf>,
    pub handle: u64,
}

/// Reply of an entry point returning nothing but possibly an error.
pub struct StatusReply {
    pub error: Option<NativeBuf>,
}

/// Reply of the metadata entry point.
pub struct MetaReply {
    pub error: Option<NativeBuf>,
    pub activity_count: u64,
    pub activity_type: u16,
    pub activity_name: Option<NativeBuf>,
    pub column_metadata: Option<NativeBuf>,
}

/// Reply of the row-fetch entry point; `row == None` with no error is
/// the end-of-rows signal.
pub struct RowReply {
    pub error: Option<NativeBuf>,
    pub row: Option<NativeBuf>,
}

/// Reply of the result-advance entry point.
pub struct FlagReply {
    pub error: Option<NativeBuf>,
    pub more: bool,
}

pub open spec fn opt_buf_ids(b: Option<NativeBuf>) -> Set<int> {
    match b {
        Option::Some(nb) => set![nb.id@],
        Option::None => Set::<int>::empty(),
    }
}

/// The call handed out exactly the buffers `a` and `b` (when present),
/// each fresh and distinct.
pub open spec fn grants2(pre: Set<int>, post: Set<int>, a: Option<NativeBuf>, b: Option<NativeBuf>) -> bool {
    &&& post == pre.union(opt_buf_ids(a)).union(opt_buf_ids(b))
    &&& pre.disjoint(opt_buf_ids(a))
    &&& pre.disjoint(opt_buf_ids(b))
    &&& opt_buf_ids(a).disjoint(opt_buf_ids(b))
}

pub open spec fn grants1(pre: Set<int>, post: Set<int>, a: Option<NativeBuf>) -> bool {
    post == pre.union(opt_buf_ids(a)) && pre.disjoint(opt_buf_ids(a))
}

pub open spec fn grants3(
    pre: Set<int>,
    post: Set<int>,
    a: Option<NativeBuf>,
    b: Option<NativeBuf>,
    c: Option<NativeBuf>,
) -> bool {
    &&& post == pre.union(opt_buf_ids(a)).union(opt_buf_ids(b)).union(opt_buf_ids(c))
    &&& pre.disjoint(opt_buf_ids(a))
    &&& pre.disjoint(opt_buf_ids(b))
    &&& pre.disjoint(opt_buf_ids(c))
    &&& opt_buf_ids(a).disjoint(opt_buf_ids(b))
    &&& opt_buf_ids(a).disjoint(opt_buf_ids(c))
    &&& opt_buf_ids(b).disjoint(opt_buf_ids(c))
}

/// Open cursors and their identities are preserved, except possibly the
/// one at `h`.
pub open spec fn same_cursors_except(
    pre: Map<u64, CursorModel>,
    post: Map<u64, CursorModel>,
    h: u64,
) -> bool {
    &&& (forall|k: u64| post.contains_key(k) == pre.contains_key(k))
    &&& (forall|k: u64| k != h && pre.contains_key(k) ==> post[k] == pre[k])
}

/// The named operation set of the native driver library. One production
/// implementation wraps the dynamically loaded entry points; the
/// in-memory double is verified against these contracts. The contracts
/// state the uniform calling convention of the native side: an error
/// buffer or the documented outputs, never both; every buffer handed out
/// is fresh and joins the outstanding set until freed; and the cursor
/// state machine of the rows entry points.
///
/// An implementation outside this crate is not verified: what is proved
/// through these contracts holds of it only as far as it honours them.
pub trait EntryPoints: Sized {
    /// Well-formedness of the implementation's own state.
    ///
    /// These spec functions carry default bodies only because an
    /// implementation outside verification cannot define spec
    /// functions, yet the compiler requires the trait items; the
    /// defaults do not describe any conforming implementation. A
    /// verified implementation must override every one of them — the
    /// verifier rejects one that keeps a default that the method
    /// contracts contradict.
    open spec fn inv(&self) -> bool {
        true
    }

    /// Identities of the native-owned buffers handed out and not yet
    /// freed.
    open spec fn live(&self) -> Set<int> {
        Set::<int>::empty()
    }

    /// The open cursors, by rows handle.
    open spec fn cursors(&self) -> Map<u64, CursorModel> {
        Map::<u64, CursorModel>::empty()
    }

    /// What combining two parameter texts yields: the merged JSON object
    /// when both inputs are JSON objects, nothing otherwise.
    open spec fn combined_of(&self, a: Seq<char>, b: Seq<char>) -> Option<Seq<char>> {
        Option::<Seq<char>>::None
    }

    /// Whether a merged parameter text is accepted by parameter parsing.
    open spec fn params_ok(&self, p: Seq<char>) -> bool {
        true
    }

    /// The request text and bind-value text of the latest submitted
    /// request, exactly as they arrived at this boundary.
    open spec fn last_submitted(&self) -> Option<(Seq<char>, Seq<char>)> {
        Option::<(Seq<char>, Seq<char>)>::None
    }

    /// The two texts handed to the latest merge call.
    open spec fn last_combined(&self) -> Option<(Seq<char>, Seq<char>)> {
        Option::<(Seq<char>, Seq<char>)>::None
    }

    /// The text handed to the latest parameter-parse call, and the log
    /// handle it answered with.
    open spec fn last_parsed(&self) -> Option<(Seq<char>, u64)> {
        Option::<(Seq<char>, u64)>::None
    }

    /// The log handle, version text and parameter text handed to the
    /// latest connect call, and the connection handle it answered with.
    open spec fn last_connect(&self) -> Option<(u64, Seq<char>, Seq<char>, u64)> {
        Option::<(u64, Seq<char>, Seq<char>, u64)>::None
    }

    /// The results of the cursor opened by the latest successful
    /// request submission.
    open spec fn last_opened(&self) -> Option<Seq<ResultModel>> {
        Option::<Seq<ResultModel>>::None
    }

    /// Merge two JSON object texts into one.
    fn combine_json(&mut self, json1: &str, json2: &str) -> (r: TextReply)
        requires
            old(self).inv(),
        ensures
            final(self).inv(),
            final(self).cursors() == old(self).cursors(),
            final(self).last_submitted() == old(self).last_submitted(),
            final(self).last_combined() == Option::Some((json1@, json2@)),
            final(self).last_parsed() == old(self).last_parsed(),
            final(self).last_connect() == old(self).last_connect(),
            forall|p: Seq<char>| final(self).params_ok(p) == old(self).params_ok(p),
            grants2(old(self).live(), final(self).live(), r.error, r.value),
            match old(self).combined_of(json1@, json2@) {
                Option::Some(t) => r.error is None && (match r.value {
                    Option::Some(b) => b.text@ == t,
                    Option::None => false,
                }),
                Option::None => r.error is Some && r.value is None,
            },
    ;

    /// Validate a merged parameter text and register a diagnostic
    /// context, returning its log handle.
    fn parse_params(&mut self, params: &str) -> (r: HandleReply)
        requires
            old(self).inv(),
        ensures
            final(self).inv(),
            final(self).cursors() == old(self).cursors(),
            final(self).last_submitted() == old(self).last_submitted(),
            final(self).last_parsed() == Option::Some((params@, r.handle)),
            final(self).last_combined() == old(self).last_combined(),
            final(self).last_connect() == old(self).last_connect(),
            grants1(old(self).live(), final(self).live(), r.error),
            (r.error is None) == old(self).params_ok(params@),
    ;

    /// Establish a session; success is the native side's decision.
    fn create_connection(&mut self, log: u64, version: &str, params: &str) -> (r: HandleReply)
        requires
            old(self).inv(),
        ensures
            final(self).inv(),
            final(self).cursors() == old(self).cursors(),
            final(self).last_submitted() == old(self).last_submitted(),
            final(self).last_connect() == Option::Some((log, version@, params@, r.handle)),
            final(self).last_combined() == old(self).last_combined(),
            final(self).last_parsed() == old(self).last_parsed(),
            grants1(old(self).live(), final(self).live(), r.error),
    ;

    /// Tear a session down.
    fn close_connection(&mut self, log: u64, conn: u64) -> (r: StatusReply)
        requires
            old(self).inv(),
        ensures
            final(self).inv(),
            final(self).cursors() == old(self).cursors(),
            final(self).last_submitted() == old(self).last_submitted(),
            grants1(old(self).live(), final(self).live(), r.error),
    ;

    /// Cancel the request in flight on a session.
    fn cancel_request(&mut self, log: u64, conn: u64) -> (r: StatusReply)
        requires
            old(self).inv(),
        ensures
            final(self).inv(),
            final(self).cursors() == old(self).cursors(),
            final(self).last_submitted() == old(self).last_submitted(),
            grants1(old(self).live(), final(self).live(), r.error),
    ;

    /// Submit a request with optional bind values; on success a fresh
    /// cursor in its initial state is opened under the returned handle.
    fn create_rows(&mut self, log: u64, conn: u64, request_text: &str, bind_values: &str) -> (r:
        HandleReply)
        requires
            old(self).inv(),
        ensures
            final(self).inv(),
            final(self).last_submitted() == Option::Some((request_text@, bind_values@)),
            match r.error {
                Option::Some(_) => final(self).last_opened() == old(self).last_opened(),
                Option::None => final(self).last_opened() == Option::Some(
                    final(self).cursors()[r.handle].results,
                ),
            },
            grants1(old(self).live(), final(self).live(), r.error),
            match r.error {
                Option::Some(_) => final(self).cursors() == old(self).cursors(),
                Option::None => {
                    &&& !old(self).cursors().contains_key(r.handle)
                    &&& final(self).cursors().contains_key(r.handle)
                    &&& final(self).cursors() == old(self).cursors().insert(
                        r.handle,
                        final(self).cursors()[r.handle],
                    )
                    &&& is_initial_cursor(final(self).cursors()[r.handle])
                },
            },
    ;

    /// Describe the shape of the cursor's current result; owed once
    /// before its rows are fetched.
    fn result_metadata(&mut self, log: u64, rows: u64) -> (r: MetaReply)
        requires
            old(self).inv(),
        ensures
            final(self).inv(),
            final(self).last_submitted() == old(self).last_submitted(),
            final(self).last_opened() == old(self).last_opened(),
            grants3(
                old(self).live(),
                final(self).live(),
                r.error,
                r.activity_name,
                r.column_metadata,
            ),
            r.error is Some ==> r.activity_name is None && r.column_metadata is None
                && final(self).cursors() == old(self).cursors(),
            r.error is None ==> r.activity_name is Some && r.column_metadata is Some,
            same_cursors_except(old(self).cursors(), final(self).cursors(), rows),
            ({
                let cs = old(self).cursors();
                if cs.contains_key(rows) && needs_meta(cs[rows]) {
                    r.error is None ==> {
                        let m = current_result(cs[rows]);
                        &&& r.activity_count == m.activity_count
                        &&& r.activity_type == m.activity_type
                        &&& (match r.activity_name {
                            Option::Some(b) => b.text@ == m.activity_name,
                            Option::None => false,
                        })
                        &&& (match r.column_metadata {
                            Option::Some(b) => b.text@ == m.column_metadata,
                            Option::None => false,
                        })
                        &&& final(self).cursors() == cs.insert(rows, with_meta_done(cs[rows]))
                    }
                } else if !cs.contains_key(rows) || past_results(cs[rows]) {
                    r.error is Some
                } else {
                    true
                }
            }),
    ;

    /// Fetch the next row of the current result, or signal its end.
    fn fetch_row(&mut self, log: u64, rows: u64) -> (r: RowReply)
        requires
            old(self).inv(),
        ensures
            final(self).inv(),
            final(self).last_submitted() == old(self).last_submitted(),
            final(self).last_opened() == old(self).last_opened(),
            grants2(old(self).live(), final(self).live(), r.error, r.row),
            r.error is Some ==> r.row is None,
            same_cursors_except(old(self).cursors(), final(self).cursors(), rows),
            ({
                let cs = old(self).cursors();
                if cs.contains_key(rows) && in_fetch_state(cs[rows]) {
                    let c = cs[rows];
                    if c.at_row < current_result(c).rows.len() {
                        match r.error {
                            Option::Some(_) => final(self).cursors() == cs,
                            Option::None => (match r.row {
                                Option::Some(b) => b.text@ == current_result(c).rows[
                                    c.at_row as int
                                ],
                                Option::None => false,
                            }) && final(self).cursors() == cs.insert(rows, advance_row(c)),
                        }
                    } else {
                        // exhausted: the end-of-rows signal, never an error
                        r.error is None && r.row is None && final(self).cursors() == cs
                    }
                } else {
                    r.error is Some && final(self).cursors() == cs
                }
            }),
    ;

    /// Advance to the next result of a multi-statement request; `false`
    /// means there are no further results.
    fn next_result(&mut self, log: u64, rows: u64) -> (r: FlagReply)
        requires
            old(self).inv(),
        ensures
            final(self).inv(),
            final(self).last_submitted() == old(self).last_submitted(),
            final(self).last_opened() == old(self).last_opened(),
            grants1(old(self).live(), final(self).live(), r.error),
            same_cursors_except(old(self).cursors(), final(self).cursors(), rows),
            ({
                let cs = old(self).cursors();
                if cs.contains_key(rows) && !past_results(cs[rows]) {
                    let c = cs[rows];
                    if c.at_result + 1 < c.results.len() {
                        match r.error {
                            Option::Some(_) => final(self).cursors() == cs,
                            Option::None => r.more == true && final(self).cursors() == cs.insert(
                                rows,
                                advance_result(c),
                            ),
                        }
                    } else {
                        r.error is None && r.more == false && final(self).cursors() == cs.insert(
                            rows,
                            finished_cursor(c),
                        )
                    }
                } else {
                    r.error is Some && final(self).cursors() == cs
                }
            }),
    ;

    /// Release the cursor's native resources; valid exactly once per
    /// rows handle. The release may still report a failure, but the
    /// handle is spent either way: the cursor leaves the open set.
    fn close_rows(&mut self, log: u64, rows: u64) -> (r: StatusReply)
        requires
            old(self).inv(),
        ensures
            final(self).inv(),
            final(self).last_submitted() == old(self).last_submitted(),
            final(self).last_opened() == old(self).last_opened(),
            grants1(old(self).live(), final(self).live(), r.error),
            old(self).cursors().contains_key(rows) ==> final(self).cursors() == old(
                self,
            ).cursors().remove(rows),
            !old(self).cursors().contains_key(rows) ==> r.error is Some && final(self).cursors()
                == old(self).cursors(),
    ;

    /// Release one native-owned buffer; the designated free entry point.
    fn free_pointer(&mut self, log: u64, buf: NativeBuf)
        requires
            old(self).inv(),
            old(self).live().contains(buf.id@),
        ensures
            final(self).inv(),
            final(self).live() == old(self).live().remove(buf.id@),
            final(self).cursors() == old(self).cursors(),
            final(self).last_submitted() == old(self).last_submitted(),
            final(self).last_combined() == old(self).last_combined(),
            final(self).last_parsed() == old(self).last_parsed(),
            final(self).last_connect() == old(self).last_connect(),
            final(self).last_opened() == old(self).last_opened(),
            forall|p: Seq<char>| final(self).params_ok(p) == old(self).params_ok(p),
    ;
}

/// Executable description of one result set: what the double replays and
/// what a full traversal of a cursor collects.
pub struct ResultSet {
    pub activity_count: u64,
    pub activity_type: u16,
    pub activity_name: String,
    pub column_metadata: String,
    pub rows: Vec<String>,
}

impl View for ResultSet {
    type V = ResultModel;

    open spec fn view(&self) -> ResultModel {
        ResultModel {
            activity_count: self.activity_count,
            activity_type: self.activity_type,
            activity_name: self.activity_name@,
            column_metadata: self.column_metadata@,
            rows: self.rows@.map_values(|s: String| s@),
        }
    }
}

} // verus!
