//! The synchronization orchestrator: a state machine over one invocation.
//! Each step consumes the outcome of the previous remote call and names the
//! next call to make; a thin driver performs the calls. The policy — when a
//! page is created, when a day header is inserted, what is appended, when
//! tags are merged — is decided here and verified against `step_ok`.

use vstd::prelude::*;
use crate::store::StoreError;
use crate::wire::{BlockModel, ContentBlock};

verus! {

/// Everything one invocation needs: the period page title, the sub-period
/// header label, the formatted entry texts, and the tags to merge.
pub struct SyncRequest {
    pub page_title: String,
    pub sub_label: String,
    pub entries: Vec<String>,
    pub tags: Vec<String>,
}

/// Where the orchestrator stands between remote calls.
pub enum SyncState {
    FindingPage,
    CreatingPage,
    CheckingHeader { page_id: String },
    Appending { page_id: String },
    MergingTags { page_id: String },
    Done,
    Failed(StoreError),
}

/// What the last remote call came back with.
pub enum SyncEvent {
    FoundPage(Result<Option<String>, StoreError>),
    CreatedPage(Result<String, StoreError>),
    LastHeader(Result<Option<String>, StoreError>),
    Appended(Result<(), StoreError>),
    TagsMerged(Result<(), StoreError>),
}

/// What the driver is told to do next.
pub enum SyncAction {
    FindPage { title: String },
    CreatePage { title: String },
    GetLastHeader { page_id: String },
    Append { page_id: String, blocks: Vec<ContentBlock> },
    MergeTags { page_id: String, tags: Vec<String> },
    Finish,
    Fail(StoreError),
}

impl Clone for StoreError {
    /// An exact copy of the error.
    fn clone(&self) -> (r: Self)
        ensures
            r == *self,
    {
        match self {
            StoreError::Transport(m) => StoreError::Transport(m.clone()),
            StoreError::Protocol(m) => StoreError::Protocol(m.clone()),
            StoreError::RemoteRejected(m) => StoreError::RemoteRejected(m.clone()),
        }
    }
}

/// Whether the event answers what the state is waiting for.
pub open spec fn expects(st: SyncState, ev: SyncEvent) -> bool {
    match (st, ev) {
        (SyncState::FindingPage, SyncEvent::FoundPage(_)) => true,
        (SyncState::CreatingPage, SyncEvent::CreatedPage(_)) => true,
        (SyncState::CheckingHeader { .. }, SyncEvent::LastHeader(_)) => true,
        (SyncState::Appending { .. }, SyncEvent::Appended(_)) => true,
        (SyncState::MergingTags { .. }, SyncEvent::TagsMerged(_)) => true,
        _ => false,
    }
}

/// A header is needed unless the read path answered, without error, that
/// the last header of the page already equals the sub-period label. A
/// failed or empty read degrades to inserting a header rather than failing
/// the run.
pub open spec fn header_needed_spec(
    last: Result<Option<String>, StoreError>,
    sub: Seq<char>,
) -> bool {
    !(last matches Ok(Some(h)) && h@ == sub)
}

/// Decides whether a sub-period header block must precede the entries.
pub fn header_needed(last: &Result<Option<String>, StoreError>, sub: &String) -> (r: bool)
    ensures
        r == header_needed_spec(*last, sub@),
{
    match last {
        Ok(Some(h)) => !(*h == *sub),
        _ => true,
    }
}

/// The blocks of one append request: the entry blocks in order, preceded by
/// one header block exactly when a header is needed.
pub open spec fn planned_blocks(
    need_header: bool,
    sub: Seq<char>,
    entries: Seq<String>,
) -> Seq<BlockModel> {
    let es = entries.map_values(|e: String| BlockModel::Entry(e@));
    if need_header {
        seq![BlockModel::Header(sub)] + es
    } else {
        es
    }
}

/// Builds the blocks of one append request.
pub fn plan_blocks(need_header: bool, sub: &String, entries: &Vec<String>) -> (r: Vec<ContentBlock>)
    ensures
        r@.map_values(|b: ContentBlock| b@) == planned_blocks(need_header, sub@, entries@),
{
    let mut r: Vec<ContentBlock> = Vec::new();
    if need_header {
        r.push(ContentBlock::Header(sub.clone()));
    }
    let ghost head = if need_header {
        seq![BlockModel::Header(sub@)]
    } else {
        Seq::<BlockModel>::empty()
    };
    proof {
        assert(r@.map_values(|b: ContentBlock| b@) =~~= head);
    }
    let mut i: usize = 0;
    while i < entries.len()
        invariant
            i <= entries@.len(),
            r@.map_values(|b: ContentBlock| b@) == head + entries@.subrange(
                0,
                i as int,
            ).map_values(|e: String| BlockModel::Entry(e@)),
        decreases entries@.len() - i,
    {
        let ghost prev = r@.map_values(|b: ContentBlock| b@);
        r.push(ContentBlock::Entry(entries[i].clone()));
        proof {
            assert(r@.map_values(|b: ContentBlock| b@) =~~= prev.push(
                BlockModel::Entry(entries@[i as int]@),
            ));
            assert(entries@.subrange(0, i + 1).map_values(|e: String| BlockModel::Entry(e@))
                =~~= entries@.subrange(0, i as int).map_values(
                |e: String| BlockModel::Entry(e@),
            ).push(BlockModel::Entry(entries@[i as int]@)));
            assert(r@.map_values(|b: ContentBlock| b@) =~~= head + entries@.subrange(
                0,
                i + 1,
            ).map_values(|e: String| BlockModel::Entry(e@)));
        }
        i = i + 1;
    }
    proof {
        assert(entries@.subrange(0, entries@.len() as int) =~= entries@);
        assert(r@.map_values(|b: ContentBlock| b@) =~~= planned_blocks(
            need_header,
            sub@,
            entries@,
        ));
    }
    r
}

fn clone_strings(v: &Vec<String>) -> (r: Vec<String>)
    ensures
        r@ == v@,
{
    let mut r: Vec<String> = Vec::new();
    let mut i: usize = 0;
    while i < v.len()
        invariant
            i <= v@.len(),
            r@ == v@.subrange(0, i as int),
        decreases v@.len() - i,
    {
        r.push(v[i].clone());
        i = i + 1;
        proof {
            assert(r@ =~= v@.subrange(0, i as int));
        }
    }
    proof {
        assert(r@ =~= v@);
    }
    r
}

/// The full transition relation of the orchestrator: for a waiting state
/// and the event it waits for, exactly which state and action follow.
pub open spec fn step_ok(
    req: SyncRequest,
    st: SyncState,
    ev: SyncEvent,
    st2: SyncState,
    act: SyncAction,
) -> bool {
    match (st, ev) {
        (SyncState::FindingPage, SyncEvent::FoundPage(res)) => match res {
            Ok(Some(id)) => (st2 matches SyncState::CheckingHeader { page_id } && page_id@ == id@)
                && (act matches SyncAction::GetLastHeader { page_id } && page_id@ == id@),
            Ok(None) => st2 is CreatingPage && (act matches SyncAction::CreatePage { title }
                && title@ == req.page_title@),
            Err(e) => (st2 matches SyncState::Failed(e2) && e2 == e) && (act
                matches SyncAction::Fail(e2) && e2 == e),
        },
        (SyncState::CreatingPage, SyncEvent::CreatedPage(res)) => match res {
            Ok(id) => (st2 matches SyncState::CheckingHeader { page_id } && page_id@ == id@) && (
            act matches SyncAction::GetLastHeader { page_id } && page_id@ == id@),
            Err(e) => (st2 matches SyncState::Failed(e2) && e2 == e) && (act
                matches SyncAction::Fail(e2) && e2 == e),
        },
        (SyncState::CheckingHeader { page_id }, SyncEvent::LastHeader(res)) => {
            let need = header_needed_spec(res, req.sub_label@);
            (st2 matches SyncState::Appending { page_id: p } && p@ == page_id@) && (act
                matches SyncAction::Append { page_id: p, blocks } && p@ == page_id@ && blocks@
                .map_values(|b: ContentBlock| b@) == planned_blocks(
                need,
                req.sub_label@,
                req.entries@,
            ))
        },
        (SyncState::Appending { page_id }, SyncEvent::Appended(res)) => match res {
            Ok(_) => if req.tags@.len() == 0 {
                st2 is Done && act is Finish
            } else {
                (st2 matches SyncState::MergingTags { page_id: p } && p@ == page_id@) && (act
                    matches SyncAction::MergeTags { page_id: p, tags } && p@ == page_id@ && tags@
                    == req.tags@)
            },
            Err(e) => (st2 matches SyncState::Failed(e2) && e2 == e) && (act
                matches SyncAction::Fail(e2) && e2 == e),
        },
        (SyncState::MergingTags { .. }, SyncEvent::TagsMerged(res)) => match res {
            Ok(_) => st2 is Done && act is Finish,
            Err(e) => (st2 matches SyncState::Failed(e2) && e2 == e) && (act
                matches SyncAction::Fail(e2) && e2 == e),
        },
        _ => false,
    }
}

/// Assembles everything one invocation needs: the page title for the
/// period, the sub-period header label, the formatted entries of the raw
/// text, and the tags as given.
pub fn prepare_request(
    entry: String,
    tags: Vec<String>,
    g: &crate::period::Granularity,
    d: &crate::period::Date,
) -> (r: SyncRequest)
    requires
        crate::period::date_wf(*d),
    ensures
        r.page_title@ == crate::period::period_label_spec(*g, *d),
        r.sub_label@ == crate::period::day_label_spec(*d),
        r.entries@.map_values(|s: String| s@) == crate::entries::entries_spec(entry@),
        r.tags@ == tags@,
{
    SyncRequest {
        page_title: crate::period::period_label(g, d),
        sub_label: crate::period::day_label(d),
        entries: crate::entries::build_entries(entry),
        tags,
    }
}

/// Begins one invocation: the orchestrator first looks the period page up
/// by its title.
pub fn sync_start(req: &SyncRequest) -> (r: (SyncState, SyncAction))
    ensures
        r.0 is FindingPage,
        r.1 matches SyncAction::FindPage { title } && title@ == req.page_title@,
{
    (SyncState::FindingPage, SyncAction::FindPage { title: req.page_title.clone() })
}

/// Advances the orchestrator by one answered remote call.
pub fn sync_step(req: &SyncRequest, st: SyncState, ev: SyncEvent) -> (r: (SyncState, SyncAction))
    requires
        expects(st, ev),
    ensures
        step_ok(*req, st, ev, r.0, r.1),
{
    match (st, ev) {
        (SyncState::FindingPage, SyncEvent::FoundPage(res)) => match res {
            Ok(Some(id)) => (
                SyncState::CheckingHeader { page_id: id.clone() },
                SyncAction::GetLastHeader { page_id: id },
            ),
            Ok(None) => (
                SyncState::CreatingPage,
                SyncAction::CreatePage { title: req.page_title.clone() },
            ),
            Err(e) => (SyncState::Failed(e.clone()), SyncAction::Fail(e)),
        },
        (SyncState::CreatingPage, SyncEvent::CreatedPage(res)) => match res {
            Ok(id) => (
                SyncState::CheckingHeader { page_id: id.clone() },
                SyncAction::GetLastHeader { page_id: id },
            ),
            Err(e) => (SyncState::Failed(e.clone()), SyncAction::Fail(e)),
        },
        (SyncState::CheckingHeader { page_id }, SyncEvent::LastHeader(res)) => {
            let need = header_needed(&res, &req.sub_label);
            let blocks = plan_blocks(need, &req.sub_label, &req.entries);
            (
                SyncState::Appending { page_id: page_id.clone() },
                SyncAction::Append { page_id, blocks },
            )
        },
        (SyncState::Appending { page_id }, SyncEvent::Appended(res)) => match res {
            Ok(_) => if req.tags.len() == 0 {
                (SyncState::Done, SyncAction::Finish)
            } else {
                (
                    SyncState::MergingTags { page_id: page_id.clone() },
                    SyncAction::MergeTags { page_id, tags: clone_strings(&req.tags) },
                )
            },
            Err(e) => (SyncState::Failed(e.clone()), SyncAction::Fail(e)),
        },
        (SyncState::MergingTags { page_id: _ }, SyncEvent::TagsMerged(res)) => match res {
            Ok(_) => (SyncState::Done, SyncAction::Finish),
            Err(e) => (SyncState::Failed(e.clone()), SyncAction::Fail(e)),
        },
        _ => {
            proof {
                assert(false);
            }
            (SyncState::Done, SyncAction::Finish)
        },
    }
}

/// Law: with no page yet for the period, one run makes exactly one
/// create-page call and exactly one append call, and that append holds
/// exactly one header block followed by the formatted entry blocks.
pub proof fn lemma_run_without_existing_page(
    req: SyncRequest,
    id: String,
    header_read: Result<Option<String>, StoreError>,
    s1: SyncState,
    a1: SyncAction,
    s2: SyncState,
    a2: SyncAction,
    s3: SyncState,
    a3: SyncAction,
    s4: SyncState,
    a4: SyncAction,
)
    requires
        // the page was just created, so a successful header read finds none
        header_read is Ok ==> header_read->Ok_0 is None,
        step_ok(req, SyncState::FindingPage, SyncEvent::FoundPage(Ok(None)), s1, a1),
        step_ok(req, s1, SyncEvent::CreatedPage(Ok(id)), s2, a2),
        step_ok(req, s2, SyncEvent::LastHeader(header_read), s3, a3),
        step_ok(req, s3, SyncEvent::Appended(Ok(())), s4, a4),
    ensures
        a1 matches SyncAction::CreatePage { title } && title@ == req.page_title@,
        a3 matches SyncAction::Append { page_id, blocks } && page_id@ == id@ && blocks@.map_values(
            |b: ContentBlock| b@,
        ) == seq![BlockModel::Header(req.sub_label@)] + req.entries@.map_values(
            |e: String| BlockModel::Entry(e@),
        ),
        !(a2 is CreatePage) && !(a3 is CreatePage) && !(a4 is CreatePage),
        !(a1 is Append) && !(a2 is Append) && !(a4 is Append),
        req.tags@.len() == 0 ==> s4 is Done && a4 is Finish,
{
}

/// Law: with an existing page whose last header already equals the
/// sub-period label, the run makes no create-page call and appends the
/// entry blocks with no header block; with no tags supplied it then
/// finishes without touching tags.
pub proof fn lemma_run_with_existing_page_and_current_header(
    req: SyncRequest,
    id: String,
    h: String,
    s1: SyncState,
    a1: SyncAction,
    s2: SyncState,
    a2: SyncAction,
    s3: SyncState,
    a3: SyncAction,
)
    requires
        h@ == req.sub_label@,
        step_ok(req, SyncState::FindingPage, SyncEvent::FoundPage(Ok(Some(id))), s1, a1),
        step_ok(req, s1, SyncEvent::LastHeader(Ok(Some(h))), s2, a2),
        step_ok(req, s2, SyncEvent::Appended(Ok(())), s3, a3),
    ensures
        a2 matches SyncAction::Append { page_id, blocks } && page_id@ == id@ && blocks@.map_values(
            |b: ContentBlock| b@,
        ) == req.entries@.map_values(|e: String| BlockModel::Entry(e@)),
        !(a1 is CreatePage) && !(a2 is CreatePage) && !(a3 is CreatePage),
        req.tags@.len() == 0 ==> s3 is Done && a3 is Finish && !(a3 is MergeTags),
{
}

} // verus!
