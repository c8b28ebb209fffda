//! The in-memory double of the native layer: deterministic, scripted,
//! and verified against the same [`EntryPoints`] contracts the
//! production implementation is trusted to meet. A script assigns each
//! submitted request its results; a fault can be armed on any entry
//! point to make it report an error (except in the states where the
//! contract owes success, such as the end-of-rows signal); and the
//! double counts its buffer traffic so a test can observe that every
//! buffer handed out came back through the free entry point.

use vstd::prelude::*;
use vstd::string::StringExecFns;
use crate::json::{check_object_text, is_object_text, merge_json, merge_spec};
use crate::native::{
    CursorModel, EntryPoints, FlagReply, HandleReply, MetaReply, NativeBuf, ResultModel,
    ResultSet, RowReply, StatusReply, TextReply,
};

verus! {

/// An entry point of the native layer, named so a fault can be armed on
/// it.
#[derive(Clone, Copy, PartialEq, Eq, Structural, Debug)]
pub enum FaultPoint {
    CombineJson,
    ParseParams,
    CreateConnection,
    CloseConnection,
    CancelRequest,
    CreateRows,
    ResultMetadata,
    FetchRow,
    NextResult,
    CloseRows,
}

/// An armed fault: the entry point that reports it and the message of
/// the error buffer it hands out.
pub struct Fault {
    pub point: FaultPoint,
    pub message: String,
}

/// The in-memory native layer. Its fields are open so tests can observe
/// it; verified code maintains its well-formedness.
pub struct MockNative {
    /// Results for successive requests, front first.
    pub script: Vec<Vec<ResultSet>>,
    /// At most one cursor is open at a time.
    pub has_cursor: bool,
    pub cur_handle: u64,
    pub cur_results: Vec<ResultSet>,
    pub cur_at_result: usize,
    pub cur_at_row: usize,
    pub cur_meta_done: bool,
    /// Source of handle values.
    pub next_handle: u64,
    /// An armed fault, if any.
    pub fault: Option<Fault>,
    /// Buffers handed out (saturating).
    pub alloc_count: u64,
    /// Free calls received (saturating).
    pub free_count: u64,
    /// The request text of the latest submitted request.
    pub last_request: Option<String>,
    /// The bind-value text of the latest submitted request, exactly as
    /// it arrived at this boundary.
    pub last_bind: Option<String>,
    /// What the merge, parse and connect entry points last received
    /// (and, for the latter two, answered).
    pub seen_combine: Ghost<Option<(Seq<char>, Seq<char>)>>,
    pub seen_parse: Ghost<Option<(Seq<char>, u64)>>,
    pub seen_connect: Ghost<Option<(u64, Seq<char>, Seq<char>, u64)>>,
    /// The results of the cursor opened by the latest successful
    /// request submission.
    pub opened_results: Ghost<Option<Seq<ResultModel>>>,
    /// Identities of the outstanding buffers.
    pub live_ids: Ghost<Set<int>>,
    /// Source of fresh buffer identities.
    pub next_id: Ghost<int>,
}

impl MockNative {
    pub open spec fn cursor_model(&self) -> CursorModel {
        CursorModel {
            results: self.cur_results@.map_values(|r: ResultSet| r@),
            at_result: self.cur_at_result as nat,
            at_row: self.cur_at_row as nat,
            meta_done: self.cur_meta_done,
        }
    }

    pub open spec fn fault_is(&self, p: FaultPoint) -> bool {
        match self.fault {
            Option::Some(f) => f.point == p,
            Option::None => false,
        }
    }

    /// Well-formedness: buffer identities are finite and below the
    /// fresh-identity source, and an open cursor sits at a sensible
    /// position.
    pub open spec fn wf(&self) -> bool {
        &&& self.live_ids@.finite()
        &&& (forall|i: int| self.live_ids@.contains(i) ==> i < self.next_id@)
        &&& (self.has_cursor ==> {
            let c = self.cursor_model();
            &&& c.at_result <= c.results.len()
            &&& (c.meta_done ==> c.at_result < c.results.len())
            &&& (!c.meta_done ==> c.at_row == 0)
            &&& (c.at_result < c.results.len() ==> c.at_row <= c.results[
                c.at_result as int
            ].rows.len())
        })
    }

    /// A fresh double: nothing scripted, no cursor, no fault, no
    /// buffer traffic.
    pub fn new() -> (r: MockNative)
        ensures
            r.wf(),
            !r.has_cursor,
            r.script@.len() == 0,
            r.fault is None,
            r.live_ids@ == Set::<int>::empty(),
            r.alloc_count == 0,
            r.free_count == 0,
            r.last_request is None,
            r.last_bind is None,
    {
        MockNative {
            script: Vec::new(),
            has_cursor: false,
            cur_handle: 0,
            cur_results: Vec::new(),
            cur_at_result: 0,
            cur_at_row: 0,
            cur_meta_done: false,
            next_handle: 1,
            fault: None,
            alloc_count: 0,
            free_count: 0,
            last_request: None,
            last_bind: None,
            seen_combine: Ghost(None),
            seen_parse: Ghost(None),
            seen_connect: Ghost(None),
            opened_results: Ghost(None),
            live_ids: Ghost(Set::empty()),
            next_id: Ghost(0),
        }
    }

    /// Script the results of the next submitted request.
    pub fn push_request_results(&mut self, results: Vec<ResultSet>)
        requires
            old(self).wf(),
        ensures
            final(self).wf(),
            final(self).script@ == old(self).script@.push(results),
            final(self).has_cursor == old(self).has_cursor,
            final(self).cursors() == old(self).cursors(),
            final(self).live_ids == old(self).live_ids,
            final(self).fault == old(self).fault,
    {
        self.script.push(results);
    }

    /// Arm a fault on one entry point.
    pub fn set_fault(&mut self, point: FaultPoint, message: String)
        requires
            old(self).wf(),
        ensures
            final(self).wf(),
            final(self).fault == Option::Some(Fault { point, message }),
            final(self).has_cursor == old(self).has_cursor,
            final(self).cursors() == old(self).cursors(),
            final(self).live_ids == old(self).live_ids,
            final(self).script == old(self).script,
    {
        self.fault = Some(Fault { point, message });
    }

    /// Disarm the fault.
    pub fn clear_fault(&mut self)
        requires
            old(self).wf(),
        ensures
            final(self).wf(),
            final(self).fault is None,
            final(self).has_cursor == old(self).has_cursor,
            final(self).cursors() == old(self).cursors(),
            final(self).live_ids == old(self).live_ids,
            final(self).script == old(self).script,
    {
        self.fault = None;
    }

    fn fault_matches(&self, p: FaultPoint) -> (r: bool)
        ensures
            r == self.fault_is(p),
    {
        match &self.fault {
            Option::Some(f) => f.point == p,
            Option::None => false,
        }
    }

    fn fault_msg(&self) -> (m: String)
        ensures
            m@ == (match self.fault {
                Option::Some(f) => f.message@,
                Option::None => Seq::<char>::empty(),
            }),
    {
        match &self.fault {
            Option::Some(f) => f.message.clone(),
            Option::None => String::new(),
        }
    }

    /// Hand one buffer out: a fresh identity joins the outstanding set.
    fn alloc_buf(&mut self, text: String) -> (b: NativeBuf)
        requires
            old(self).wf(),
        ensures
            final(self).wf(),
            b.text@ == text@,
            !old(self).live_ids@.contains(b.id@),
            final(self).live_ids@ == old(self).live_ids@.insert(b.id@),
            final(self).script == old(self).script,
            final(self).has_cursor == old(self).has_cursor,
            final(self).cur_handle == old(self).cur_handle,
            final(self).cur_results == old(self).cur_results,
            final(self).cur_at_result == old(self).cur_at_result,
            final(self).cur_at_row == old(self).cur_at_row,
            final(self).cur_meta_done == old(self).cur_meta_done,
            final(self).next_handle == old(self).next_handle,
            final(self).fault == old(self).fault,
            final(self).last_request == old(self).last_request,
            final(self).last_bind == old(self).last_bind,
            final(self).seen_combine == old(self).seen_combine,
            final(self).seen_parse == old(self).seen_parse,
            final(self).seen_connect == old(self).seen_connect,
            final(self).opened_results == old(self).opened_results,
    {
        let b = NativeBuf { text, raw: 0, id: Ghost(self.next_id@) };
        proof {
            self.live_ids@ = self.live_ids@.insert(self.next_id@);
            self.next_id@ = self.next_id@ + 1;
        }
        if self.alloc_count < u64::MAX {
            self.alloc_count = self.alloc_count + 1;
        }
        b
    }

    fn take_handle(&mut self) -> (h: u64)
        requires
            old(self).wf(),
        ensures
            final(self).wf(),
            final(self).live_ids == old(self).live_ids,
            final(self).script == old(self).script,
            final(self).has_cursor == old(self).has_cursor,
            final(self).cur_handle == old(self).cur_handle,
            final(self).cur_results == old(self).cur_results,
            final(self).cur_at_result == old(self).cur_at_result,
            final(self).cur_at_row == old(self).cur_at_row,
            final(self).cur_meta_done == old(self).cur_meta_done,
            final(self).fault == old(self).fault,
            final(self).last_request == old(self).last_request,
            final(self).last_bind == old(self).last_bind,
            final(self).seen_combine == old(self).seen_combine,
            final(self).seen_parse == old(self).seen_parse,
            final(self).seen_connect == old(self).seen_connect,
            final(self).opened_results == old(self).opened_results,
    {
        let h = self.next_handle;
        if self.next_handle < u64::MAX {
            self.next_handle = self.next_handle + 1;
        }
        h
    }
}

proof fn lemma_grant_single(pre: Set<int>, id: int)
    requires
        !pre.contains(id),
    ensures
        pre.insert(id) == pre.union(set![id]),
        pre.disjoint(set![id]),
{
    assert(pre.insert(id) =~= pre.union(set![id]));
    assert forall|x: int| pre.contains(x) implies !(set![id].contains(x)) by {
        assert(x != id);
    }
}

proof fn lemma_grant_none(pre: Set<int>)
    ensures
        pre.union(Set::<int>::empty()) == pre,
        pre.disjoint(Set::<int>::empty()),
{
    assert(pre.union(Set::<int>::empty()) =~= pre);
    assert forall|x: int| pre.contains(x) implies !(Set::<int>::empty().contains(x)) by {}
}

impl EntryPoints for MockNative {
    open spec fn inv(&self) -> bool {
        self.wf()
    }

    open spec fn live(&self) -> Set<int> {
        self.live_ids@
    }

    open spec fn cursors(&self) -> Map<u64, CursorModel> {
        if self.has_cursor {
            Map::<u64, CursorModel>::empty().insert(self.cur_handle, self.cursor_model())
        } else {
            Map::<u64, CursorModel>::empty()
        }
    }

    open spec fn combined_of(&self, a: Seq<char>, b: Seq<char>) -> Option<Seq<char>> {
        if self.fault_is(FaultPoint::CombineJson) {
            Option::None
        } else {
            merge_spec(a, b)
        }
    }

    open spec fn params_ok(&self, p: Seq<char>) -> bool {
        !self.fault_is(FaultPoint::ParseParams) && is_object_text(p)
    }

    open spec fn last_submitted(&self) -> Option<(Seq<char>, Seq<char>)> {
        match (self.last_request, self.last_bind) {
            (Option::Some(r), Option::Some(b)) => Option::Some((r@, b@)),
            _ => Option::<(Seq<char>, Seq<char>)>::None,
        }
    }

    open spec fn last_combined(&self) -> Option<(Seq<char>, Seq<char>)> {
        self.seen_combine@
    }

    open spec fn last_parsed(&self) -> Option<(Seq<char>, u64)> {
        self.seen_parse@
    }

    open spec fn last_connect(&self) -> Option<(u64, Seq<char>, Seq<char>, u64)> {
        self.seen_connect@
    }

    open spec fn last_opened(&self) -> Option<Seq<ResultModel>> {
        self.opened_results@
    }

    fn combine_json(&mut self, json1: &str, json2: &str) -> (r: TextReply) {
        self.seen_combine = Ghost(Some((json1@, json2@)));
        if self.fault_matches(FaultPoint::CombineJson) {
            let msg = self.fault_msg();
            let b = self.alloc_buf(msg);
            proof {
                lemma_grant_single(old(self).live_ids@, b.id@);
                lemma_grant_none(old(self).live_ids@.insert(b.id@));
            }
            TextReply { error: Some(b), value: None }
        } else {
            match merge_json(json1, json2) {
                Option::Some(m) => {
                    let b = self.alloc_buf(m);
                    proof {
                        lemma_grant_none(old(self).live_ids@);
                        lemma_grant_single(old(self).live_ids@, b.id@);
                    }
                    TextReply { error: None, value: Some(b) }
                },
                Option::None => {
                    let b = self.alloc_buf(String::from_str("each input must be a JSON object"));
                    proof {
                        lemma_grant_single(old(self).live_ids@, b.id@);
                        lemma_grant_none(old(self).live_ids@.insert(b.id@));
                    }
                    TextReply { error: Some(b), value: None }
                },
            }
        }
    }

    fn parse_params(&mut self, params: &str) -> (r: HandleReply) {
        if self.fault_matches(FaultPoint::ParseParams) {
            let msg = self.fault_msg();
            let b = self.alloc_buf(msg);
            self.seen_parse = Ghost(Some((params@, 0u64)));
            proof {
                lemma_grant_single(old(self).live_ids@, b.id@);
            }
            HandleReply { error: Some(b), handle: 0 }
        } else if !check_object_text(params) {
            let b = self.alloc_buf(
                String::from_str("connection parameters must be a JSON object"),
            );
            self.seen_parse = Ghost(Some((params@, 0u64)));
            proof {
                lemma_grant_single(old(self).live_ids@, b.id@);
            }
            HandleReply { error: Some(b), handle: 0 }
        } else {
            let h = self.take_handle();
            self.seen_parse = Ghost(Some((params@, h)));
            proof {
                lemma_grant_none(old(self).live_ids@);
            }
            HandleReply { error: None, handle: h }
        }
    }

    fn create_connection(&mut self, log: u64, version: &str, params: &str) -> (r: HandleReply) {
        if self.fault_matches(FaultPoint::CreateConnection) {
            let msg = self.fault_msg();
            let b = self.alloc_buf(msg);
            self.seen_connect = Ghost(Some((log, version@, params@, 0u64)));
            proof {
                lemma_grant_single(old(self).live_ids@, b.id@);
            }
            HandleReply { error: Some(b), handle: 0 }
        } else {
            let h = self.take_handle();
            self.seen_connect = Ghost(Some((log, version@, params@, h)));
            proof {
                lemma_grant_none(old(self).live_ids@);
            }
            HandleReply { error: None, handle: h }
        }
    }

    fn close_connection(&mut self, log: u64, conn: u64) -> (r: StatusReply) {
        if self.fault_matches(FaultPoint::CloseConnection) {
            let msg = self.fault_msg();
            let b = self.alloc_buf(msg);
            proof {
                lemma_grant_single(old(self).live_ids@, b.id@);
            }
            StatusReply { error: Some(b) }
        } else {
            proof {
                lemma_grant_none(old(self).live_ids@);
            }
            StatusReply { error: None }
        }
    }

    fn cancel_request(&mut self, log: u64, conn: u64) -> (r: StatusReply) {
        if self.fault_matches(FaultPoint::CancelRequest) {
            let msg = self.fault_msg();
            let b = self.alloc_buf(msg);
            proof {
                lemma_grant_single(old(self).live_ids@, b.id@);
            }
            StatusReply { error: Some(b) }
        } else {
            proof {
                lemma_grant_none(old(self).live_ids@);
            }
            StatusReply { error: None }
        }
    }

    fn create_rows(&mut self, log: u64, conn: u64, request_text: &str, bind_values: &str) -> (r:
        HandleReply) {
        // bind-value passthrough: what this boundary records is the
        // caller's text, character for character
        self.last_request = Some(String::from_str(request_text));
        self.last_bind = Some(String::from_str(bind_values));
        if self.fault_matches(FaultPoint::CreateRows) {
            let msg = self.fault_msg();
            let b = self.alloc_buf(msg);
            proof {
                lemma_grant_single(old(self).live_ids@, b.id@);
            }
            HandleReply { error: Some(b), handle: 0 }
        } else if self.has_cursor {
            let b = self.alloc_buf(String::from_str("a cursor is already open"));
            proof {
                lemma_grant_single(old(self).live_ids@, b.id@);
            }
            HandleReply { error: Some(b), handle: 0 }
        } else if self.script.len() == 0 {
            let b = self.alloc_buf(String::from_str("no results are scripted for this request"));
            proof {
                lemma_grant_single(old(self).live_ids@, b.id@);
            }
            HandleReply { error: Some(b), handle: 0 }
        } else {
            let results = self.script.remove(0);
            let h = self.take_handle();
            self.has_cursor = true;
            self.cur_handle = h;
            self.cur_results = results;
            self.cur_at_result = 0;
            self.cur_at_row = 0;
            self.cur_meta_done = false;
            self.opened_results = Ghost(Some(self.cursor_model().results));
            proof {
                lemma_grant_none(old(self).live_ids@);
                assert(self.cursors() =~= old(self).cursors().insert(h, self.cursor_model()));
            }
            HandleReply { error: None, handle: h }
        }
    }

    fn result_metadata(&mut self, log: u64, rows: u64) -> (r: MetaReply) {
        if self.fault_matches(FaultPoint::ResultMetadata) {
            let msg = self.fault_msg();
            let b = self.alloc_buf(msg);
            proof {
                lemma_grant_single(old(self).live_ids@, b.id@);
                lemma_grant_none(old(self).live_ids@.insert(b.id@));
            }
            MetaReply {
                error: Some(b),
                activity_count: 0,
                activity_type: 0,
                activity_name: None,
                column_metadata: None,
            }
        } else if !self.has_cursor || rows != self.cur_handle {
            let b = self.alloc_buf(String::from_str("unknown rows handle"));
            proof {
                lemma_grant_single(old(self).live_ids@, b.id@);
                lemma_grant_none(old(self).live_ids@.insert(b.id@));
            }
            MetaReply {
                error: Some(b),
                activity_count: 0,
                activity_type: 0,
                activity_name: None,
                column_metadata: None,
            }
        } else if self.cur_meta_done || self.cur_at_result >= self.cur_results.len() {
            let b = self.alloc_buf(String::from_str("no result metadata is available"));
            proof {
                lemma_grant_single(old(self).live_ids@, b.id@);
                lemma_grant_none(old(self).live_ids@.insert(b.id@));
            }
            MetaReply {
                error: Some(b),
                activity_count: 0,
                activity_type: 0,
                activity_name: None,
                column_metadata: None,
            }
        } else {
            let activity_count = self.cur_results[self.cur_at_result].activity_count;
            let activity_type = self.cur_results[self.cur_at_result].activity_type;
            let name_text = self.cur_results[self.cur_at_result].activity_name.clone();
            let meta_text = self.cur_results[self.cur_at_result].column_metadata.clone();
            let name_buf = self.alloc_buf(name_text);
            let meta_buf = self.alloc_buf(meta_text);
            self.cur_meta_done = true;
            proof {
                lemma_grant_none(old(self).live_ids@);
                lemma_grant_single(old(self).live_ids@, name_buf.id@);
                lemma_grant_single(old(self).live_ids@.insert(name_buf.id@), meta_buf.id@);
                assert(self.cursors() =~= old(self).cursors().insert(
                    rows,
                    crate::native::with_meta_done(old(self).cursors()[rows]),
                ));
            }
            MetaReply {
                error: None,
                activity_count,
                activity_type,
                activity_name: Some(name_buf),
                column_metadata: Some(meta_buf),
            }
        }
    }

    fn fetch_row(&mut self, log: u64, rows: u64) -> (r: RowReply) {
        if !self.has_cursor || rows != self.cur_handle {
            let msg = if self.fault_matches(FaultPoint::FetchRow) {
                self.fault_msg()
            } else {
                String::from_str("unknown rows handle")
            };
            let b = self.alloc_buf(msg);
            proof {
                lemma_grant_single(old(self).live_ids@, b.id@);
                lemma_grant_none(old(self).live_ids@.insert(b.id@));
            }
            RowReply { error: Some(b), row: None }
        } else if !self.cur_meta_done || self.cur_at_result >= self.cur_results.len() {
            let msg = if self.fault_matches(FaultPoint::FetchRow) {
                self.fault_msg()
            } else {
                String::from_str("no result is being fetched")
            };
            let b = self.alloc_buf(msg);
            proof {
                lemma_grant_single(old(self).live_ids@, b.id@);
                lemma_grant_none(old(self).live_ids@.insert(b.id@));
            }
            RowReply { error: Some(b), row: None }
        } else if self.cur_at_row < self.cur_results[self.cur_at_result].rows.len() {
            if self.fault_matches(FaultPoint::FetchRow) {
                let msg = self.fault_msg();
                let b = self.alloc_buf(msg);
                proof {
                    lemma_grant_single(old(self).live_ids@, b.id@);
                    lemma_grant_none(old(self).live_ids@.insert(b.id@));
                }
                RowReply { error: Some(b), row: None }
            } else {
                let text = self.cur_results[self.cur_at_result].rows[self.cur_at_row].clone();
                let b = self.alloc_buf(text);
                self.cur_at_row = self.cur_at_row + 1;
                proof {
                    lemma_grant_none(old(self).live_ids@);
                    lemma_grant_single(old(self).live_ids@, b.id@);
                    assert(self.cursors() =~= old(self).cursors().insert(
                        rows,
                        crate::native::advance_row(old(self).cursors()[rows]),
                    ));
                }
                RowReply { error: None, row: Some(b) }
            }
        } else {
            // the end-of-rows signal, owed without error
            proof {
                lemma_grant_none(old(self).live_ids@);
            }
            RowReply { error: None, row: None }
        }
    }

    fn next_result(&mut self, log: u64, rows: u64) -> (r: FlagReply) {
        if !self.has_cursor || rows != self.cur_handle {
            let msg = if self.fault_matches(FaultPoint::NextResult) {
                self.fault_msg()
            } else {
                String::from_str("unknown rows handle")
            };
            let b = self.alloc_buf(msg);
            proof {
                lemma_grant_single(old(self).live_ids@, b.id@);
            }
            FlagReply { error: Some(b), more: false }
        } else if self.cur_at_result >= self.cur_results.len() {
            let msg = if self.fault_matches(FaultPoint::NextResult) {
                self.fault_msg()
            } else {
                String::from_str("the final result was already consumed")
            };
            let b = self.alloc_buf(msg);
            proof {
                lemma_grant_single(old(self).live_ids@, b.id@);
            }
            FlagReply { error: Some(b), more: false }
        } else if self.cur_at_result + 1 < self.cur_results.len() {
            if self.fault_matches(FaultPoint::NextResult) {
                let msg = self.fault_msg();
                let b = self.alloc_buf(msg);
                proof {
                    lemma_grant_single(old(self).live_ids@, b.id@);
                }
                FlagReply { error: Some(b), more: false }
            } else {
                self.cur_at_result = self.cur_at_result + 1;
                self.cur_at_row = 0;
                self.cur_meta_done = false;
                proof {
                    lemma_grant_none(old(self).live_ids@);
                    assert(self.cursors() =~= old(self).cursors().insert(
                        rows,
                        crate::native::advance_result(old(self).cursors()[rows]),
                    ));
                }
                FlagReply { error: None, more: true }
            }
        } else {
            // no further result: owed without error
            self.cur_at_result = self.cur_at_result + 1;
            self.cur_at_row = 0;
            self.cur_meta_done = false;
            proof {
                lemma_grant_none(old(self).live_ids@);
                assert(self.cursors() =~= old(self).cursors().insert(
                    rows,
                    crate::native::finished_cursor(old(self).cursors()[rows]),
                ));
            }
            FlagReply { error: None, more: false }
        }
    }

    fn close_rows(&mut self, log: u64, rows: u64) -> (r: StatusReply) {
        if !self.has_cursor || rows != self.cur_handle {
            let msg = if self.fault_matches(FaultPoint::CloseRows) {
                self.fault_msg()
            } else {
                String::from_str("unknown rows handle")
            };
            let b = self.alloc_buf(msg);
            proof {
                lemma_grant_single(old(self).live_ids@, b.id@);
            }
            StatusReply { error: Some(b) }
        } else if self.fault_matches(FaultPoint::CloseRows) {
            // the release still reports a failure, but the handle is spent
            self.has_cursor = false;
            let msg = self.fault_msg();
            let b = self.alloc_buf(msg);
            proof {
                lemma_grant_single(old(self).live_ids@, b.id@);
                assert(self.cursors() =~= old(self).cursors().remove(rows));
            }
            StatusReply { error: Some(b) }
        } else {
            self.has_cursor = false;
            proof {
                lemma_grant_none(old(self).live_ids@);
                assert(self.cursors() =~= old(self).cursors().remove(rows));
            }
            StatusReply { error: None }
        }
    }

    fn free_pointer(&mut self, log: u64, buf: NativeBuf) {
        proof {
            self.live_ids@ = self.live_ids@.remove(buf.id@);
        }
        if self.free_count < u64::MAX {
            self.free_count = self.free_count + 1;
        }
    }
}

} // verus!
